use rpromhub::collect::{collect_outcomes, handle_scrape, respond, EXPOSITION_CONTENT_TYPE};
use rpromhub::fetch::{evaluate_reply, fetch_outcome, sample_from_parsed, Body, FetchError, FetchOutcome, Reply};
use rpromhub::store::MetricStore;
use rpromhub::target::{branch_url, expand_targets, RepoConfig, Target};
use rpromhub::time::{age_days, Timestamp};

const JAN_01_2023: i64 = 1_672_531_200;
const JAN_11_2023: i64 = 1_673_395_200;

fn at(secs: i64) -> Timestamp {
    Timestamp { secs, nanos: 0 }
}

fn target(owner: &str, repo: &str, branch: &str) -> Target {
    Target::new(owner.to_string(), repo.to_string(), branch.to_string())
}

fn dated(date: &str) -> Reply {
    Reply::Answered { status: 200, body: Body::Author { date: Some(date.to_string()) } }
}

fn outcome_for(t: Target, reply: &Reply, now: Timestamp) -> FetchOutcome {
    let result = evaluate_reply(t.duplicate(), reply, now);
    FetchOutcome { target: t, result }
}

#[test]
fn age_of_ten_days() {
    assert_eq!(age_days(at(JAN_01_2023), at(JAN_11_2023)), 10);
}

#[test]
fn age_zero_for_same_instant_and_partial_day() {
    assert_eq!(age_days(at(JAN_01_2023), at(JAN_01_2023)), 0);
    assert_eq!(age_days(at(JAN_01_2023), at(JAN_01_2023 + 86_399)), 0);
    assert_eq!(age_days(at(JAN_01_2023), at(JAN_01_2023 + 86_400)), 1);
}

#[test]
fn age_rounds_down_for_future_commits() {
    assert_eq!(age_days(at(JAN_01_2023 + 1), at(JAN_01_2023)), -1);
    assert_eq!(age_days(at(JAN_01_2023 + 86_400), at(JAN_01_2023)), -1);
    assert_eq!(age_days(at(JAN_01_2023 + 86_401), at(JAN_01_2023)), -2);
    assert_eq!(age_days(at(JAN_11_2023), at(JAN_01_2023)), -10);
}

#[test]
fn age_counts_nanoseconds() {
    let then = Timestamp { secs: JAN_01_2023, nanos: 500_000_000 };
    assert_eq!(age_days(then, at(JAN_01_2023 + 86_400)), 0);
    let now = Timestamp { secs: JAN_01_2023 + 86_400, nanos: 500_000_000 };
    assert_eq!(age_days(then, now), 1);
}

#[test]
fn age_at_extreme_instants() {
    assert_eq!(age_days(at(i64::MIN), at(i64::MAX)), 213_503_982_334_601);
    assert_eq!(age_days(at(i64::MAX), at(i64::MIN)), -213_503_982_334_602);
}

#[test]
fn fetch_round_trip_renders_ten_days() {
    let reply = dated("2023-01-01T00:00:00Z");
    let sample = evaluate_reply(target("octo", "widgets", "main"), &reply, at(JAN_11_2023)).unwrap();
    assert_eq!(sample.age_days, 10);
    assert_eq!(sample.observed_at, at(JAN_11_2023));
    assert_eq!(sample.target.owner, "octo");
    let mut store = MetricStore::new();
    store.set(&sample.target, sample.age_days);
    assert_eq!(
        store.render(),
        "# HELP github_repo_branch_age_days how long has the branch not been updated\n\
         # TYPE github_repo_branch_age_days gauge\n\
         github_repo_branch_age_days{owner=\"octo\",repo=\"widgets\",branch=\"main\"} 10\n"
    );
}

#[test]
fn fetch_parses_offsets_and_fractions() {
    let reply = dated("2023-01-10T23:00:00-02:00");
    let sample = evaluate_reply(target("o", "r", "b"), &reply, at(JAN_11_2023)).unwrap();
    assert_eq!(sample.age_days, -1);
    let reply = dated("2022-12-31T23:59:59.5Z");
    let sample = evaluate_reply(target("o", "r", "b"), &reply, at(JAN_11_2023)).unwrap();
    assert_eq!(sample.age_days, 10);
}

#[test]
fn missing_date_is_missing_field_and_keeps_entry() {
    let t = target("o", "r", "b");
    let mut store = MetricStore::new();
    store.set(&t, 7);
    let before = store.render();
    let reply = Reply::Answered { status: 200, body: Body::Author { date: None } };
    let o = outcome_for(t, &reply, at(JAN_11_2023));
    assert!(matches!(o.result, Err(FetchError::MissingField)));
    let report = collect_outcomes(&mut store, &vec![o]);
    assert_eq!(report.written, 0);
    assert_eq!(report.failures.len(), 1);
    assert_eq!(store.render(), before);
}

#[test]
fn each_failure_kind() {
    let now = at(JAN_11_2023);
    let t = || target("o", "r", "b");
    assert_eq!(evaluate_reply(t(), &Reply::Unreachable, now).unwrap_err(), FetchError::Transport);
    let not_found = Reply::Answered { status: 404, body: Body::Malformed };
    assert_eq!(evaluate_reply(t(), &not_found, now).unwrap_err(), FetchError::Http { status: 404 });
    let redirect = Reply::Answered { status: 301, body: Body::Author { date: Some("2023-01-01T00:00:00Z".to_string()) } };
    assert_eq!(evaluate_reply(t(), &redirect, now).unwrap_err(), FetchError::Http { status: 301 });
    let malformed = Reply::Answered { status: 200, body: Body::Malformed };
    assert_eq!(evaluate_reply(t(), &malformed, now).unwrap_err(), FetchError::Decode);
    assert_eq!(evaluate_reply(t(), &dated("yesterday"), now).unwrap_err(), FetchError::TimestampParse);
    assert_eq!(sample_from_parsed(t(), None, now).unwrap_err(), FetchError::TimestampParse);
}

#[test]
fn sample_from_parsed_instant() {
    let s = sample_from_parsed(target("o", "r", "b"), Some((JAN_01_2023, 0)), at(JAN_11_2023)).unwrap();
    assert_eq!(s.age_days, 10);
}

#[test]
fn fetch_outcome_reads_the_clock() {
    let o = fetch_outcome(target("o", "r", "b"), &dated("1970-01-01T00:00:00Z"));
    let s = o.result.unwrap();
    assert_eq!(s.age_days, s.observed_at.secs.div_euclid(86_400));
    assert!(s.age_days > 19_000);
    let o = fetch_outcome(target("o", "r", "b"), &Reply::Unreachable);
    assert_eq!(o.result.unwrap_err(), FetchError::Transport);
    assert_eq!(o.target.branch, "b");
}

#[test]
fn cycle_counts_successes_and_failures() {
    let now = at(JAN_11_2023);
    let outcomes = vec![
        outcome_for(target("a", "x", "main"), &dated("2023-01-01T00:00:00Z"), now),
        outcome_for(target("a", "x", "dev"), &Reply::Unreachable, now),
        outcome_for(target("b", "y", "main"), &dated("2023-01-10T00:00:00Z"), now),
    ];
    let mut store = MetricStore::new();
    let report = collect_outcomes(&mut store, &outcomes);
    assert_eq!(report.written, 2);
    assert_eq!(report.failures.len(), 1);
    assert_eq!(report.failures[0].target.branch, "dev");
    assert_eq!(report.failures[0].error, FetchError::Transport);
    let body = store.render();
    assert!(body.contains("github_repo_branch_age_days{owner=\"a\",repo=\"x\",branch=\"main\"} 10\n"));
    assert!(body.contains("github_repo_branch_age_days{owner=\"b\",repo=\"y\",branch=\"main\"} 1\n"));
    assert!(!body.contains("dev"));
}

#[test]
fn overlapping_cycles_leave_one_value() {
    let now = at(JAN_11_2023);
    let first = vec![outcome_for(target("o", "r", "b"), &dated("2023-01-01T00:00:00Z"), now)];
    let second = vec![outcome_for(target("o", "r", "b"), &dated("2023-01-06T00:00:00Z"), now)];
    let mut store = MetricStore::new();
    collect_outcomes(&mut store, &first);
    collect_outcomes(&mut store, &second);
    let body = store.render();
    assert!(body.ends_with("github_repo_branch_age_days{owner=\"o\",repo=\"r\",branch=\"b\"} 5\n"));
    assert_eq!(body.matches("github_repo_branch_age_days{").count(), 1);
    let mut other = MetricStore::new();
    collect_outcomes(&mut other, &second);
    collect_outcomes(&mut other, &first);
    assert!(other.render().ends_with("} 10\n"));
}

#[test]
fn empty_store_renders_empty_body() {
    let store = MetricStore::new();
    assert_eq!(store.render(), "");
    let r = respond(&store);
    assert_eq!(r.status, 200);
    assert_eq!(r.body, "");
    assert_eq!(r.content_type, EXPOSITION_CONTENT_TYPE);
}

#[test]
fn scrape_with_no_targets_is_ok_and_empty() {
    let mut store = MetricStore::new();
    let targets = expand_targets(&vec![]);
    assert!(targets.is_empty());
    let (report, response) = handle_scrape(&mut store, &vec![]);
    assert_eq!(report.written, 0);
    assert!(report.failures.is_empty());
    assert_eq!(response.status, 200);
    assert_eq!(response.body, "");
}

#[test]
fn scrape_when_every_fetch_fails_is_still_ok() {
    let mut store = MetricStore::new();
    store.set(&target("o", "r", "b"), 3);
    let outcomes = vec![outcome_for(target("o", "r", "b"), &Reply::Unreachable, at(0))];
    let (report, response) = handle_scrape(&mut store, &outcomes);
    assert_eq!(report.failures.len(), 1);
    assert_eq!(response.status, 200);
    assert!(response.body.ends_with("{owner=\"o\",repo=\"r\",branch=\"b\"} 3\n"));
}

#[test]
fn set_overwrites_in_place() {
    let mut store = MetricStore::new();
    store.set(&target("o", "r", "a"), 1);
    store.set(&target("o", "r", "b"), 2);
    store.set(&target("o", "r", "a"), -3);
    let body = store.render();
    let lines: Vec<&str> = body.lines().collect();
    assert_eq!(lines.len(), 4);
    assert_eq!(lines[2], "github_repo_branch_age_days{owner=\"o\",repo=\"r\",branch=\"a\"} -3");
    assert_eq!(lines[3], "github_repo_branch_age_days{owner=\"o\",repo=\"r\",branch=\"b\"} 2");
}

#[test]
fn render_escapes_label_values() {
    let mut store = MetricStore::new();
    store.set(&target("a\"b", "c\\d", "e\nf"), i64::MIN);
    let body = store.render();
    assert!(body.ends_with(
        "github_repo_branch_age_days{owner=\"a\\\"b\",repo=\"c\\\\d\",branch=\"e\\nf\"} -9223372036854775808\n"
    ));
}

#[test]
fn targets_expand_in_configuration_order() {
    let repos = vec![
        RepoConfig { owner: "a".to_string(), repo: "x".to_string(), branch: vec!["main".to_string(), "dev".to_string()] },
        RepoConfig { owner: "b".to_string(), repo: "y".to_string(), branch: vec![] },
        RepoConfig { owner: "c".to_string(), repo: "z".to_string(), branch: vec!["main".to_string(), "main".to_string()] },
    ];
    let ts = expand_targets(&repos);
    let names: Vec<(String, String, String)> =
        ts.iter().map(|t| (t.owner.clone(), t.repo.clone(), t.branch.clone())).collect();
    let s = |a: &str, b: &str, c: &str| (a.to_string(), b.to_string(), c.to_string());
    assert_eq!(names, vec![s("a", "x", "main"), s("a", "x", "dev"), s("c", "z", "main"), s("c", "z", "main")]);
    assert!(ts[2].same_as(&ts[3]));
    assert!(!ts[0].same_as(&ts[1]));
}

#[test]
fn branch_url_names_the_branch() {
    assert_eq!(
        branch_url(&target("rust-lang", "rust", "master")),
        "https://api.github.com/repos/rust-lang/rust/branches/master"
    );
}
