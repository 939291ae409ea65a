use vstd::prelude::*;

use crate::fetch::{FetchError, FetchOutcome};
use crate::store::{render_pairs, MetricStore};
use crate::target::{Target, TargetKey};

verus! {

/// A target whose fetch failed in a collection cycle, with the reason.
#[derive(Debug)]
pub struct FetchFailure {
    pub target: Target,
    pub error: FetchError,
}

/// What one collection cycle did: how many gauges it wrote and which
/// targets failed.
#[derive(Debug)]
pub struct CycleReport {
    pub written: usize,
    pub failures: Vec<FetchFailure>,
}

/// The answer to a scrape.
#[derive(Debug)]
pub struct ScrapeResponse {
    pub status: u16,
    pub content_type: String,
    pub body: String,
}

/// The media type of the text exposition format.
pub const EXPOSITION_CONTENT_TYPE: &'static str = "text/plain; version=0.0.4";

/// The gauges after applying a cycle's outcomes in order: each success sets
/// its target's gauge to the sample's age; a failure changes nothing.
pub open spec fn apply_outcomes(m: Map<TargetKey, i64>, s: Seq<FetchOutcome>) -> Map<TargetKey, i64>
    decreases s.len(),
{
    if s.len() == 0 {
        m
    } else {
        let before = apply_outcomes(m, s.drop_last());
        match s.last().result {
            Ok(smp) => before.insert(smp.target@, smp.age_days),
            Err(_) => before,
        }
    }
}

/// The number of successful outcomes.
pub open spec fn count_ok(s: Seq<FetchOutcome>) -> nat
    decreases s.len(),
{
    if s.len() == 0 {
        0
    } else {
        count_ok(s.drop_last()) + if s.last().result is Ok {
            1nat
        } else {
            0nat
        }
    }
}

/// The failed outcomes as (target, error), in order.
pub open spec fn failures_of(s: Seq<FetchOutcome>) -> Seq<(TargetKey, FetchError)>
    decreases s.len(),
{
    if s.len() == 0 {
        Seq::empty()
    } else {
        failures_of(s.drop_last()) + match s.last().result {
            Ok(_) => Seq::empty(),
            Err(e) => seq![(s.last().target@, e)],
        }
    }
}

/// The value that the last success for `k` in a cycle wrote, if any did.
pub open spec fn last_written(s: Seq<FetchOutcome>, k: TargetKey) -> Option<i64>
    decreases s.len(),
{
    if s.len() == 0 {
        None
    } else {
        match s.last().result {
            Ok(smp) if smp.target@ == k => Some(smp.age_days),
            _ => last_written(s.drop_last(), k),
        }
    }
}

proof fn lemma_failures_len(s: Seq<FetchOutcome>)
    ensures
        count_ok(s) + failures_of(s).len() == s.len(),
    decreases s.len(),
{
    if s.len() > 0 {
        lemma_failures_len(s.drop_last());
    }
}

/// After a cycle, a key holds the last value that the cycle wrote to it;
/// a key that the cycle did not write keeps what it held before.
pub proof fn lemma_cycle_effect(m: Map<TargetKey, i64>, s: Seq<FetchOutcome>, k: TargetKey)
    ensures
        match last_written(s, k) {
            Some(v) => apply_outcomes(m, s).contains_key(k) && apply_outcomes(m, s)[k] == v,
            None => apply_outcomes(m, s).contains_key(k) == m.contains_key(k)
                && (m.contains_key(k) ==> apply_outcomes(m, s)[k] == m[k]),
        },
    decreases s.len(),
{
    if s.len() > 0 {
        lemma_cycle_effect(m, s.drop_last(), k);
    }
}

/// Two collection cycles that both write the same key, run one after the
/// other in either order, leave that key holding one of the two values
/// written, never anything else.
pub proof fn overlapping_cycles_keep_a_written_value(
    m: Map<TargetKey, i64>,
    first: Seq<FetchOutcome>,
    second: Seq<FetchOutcome>,
    k: TargetKey,
)
    requires
        last_written(first, k) is Some,
        last_written(second, k) is Some,
    ensures
        apply_outcomes(apply_outcomes(m, first), second)[k] == last_written(second, k).unwrap(),
        apply_outcomes(apply_outcomes(m, second), first)[k] == last_written(first, k).unwrap(),
{
    lemma_cycle_effect(apply_outcomes(m, first), second, k);
    lemma_cycle_effect(apply_outcomes(m, second), first, k);
}

/// A cycle in which every fetch of a target failed leaves that target's
/// gauge as it was: present with its old value, or absent.
pub proof fn failed_fetches_keep_the_gauge(m: Map<TargetKey, i64>, s: Seq<FetchOutcome>, k: TargetKey)
    requires
        forall|i: int| 0 <= i < s.len() && s[i].target@ == k ==> #[trigger] s[i].result is Err,
        forall|i: int|
            0 <= i < s.len() && #[trigger] s[i].result is Ok ==> s[i].result->Ok_0.target@ == s[i].target@,
    ensures
        apply_outcomes(m, s).contains_key(k) == m.contains_key(k),
        m.contains_key(k) ==> apply_outcomes(m, s)[k] == m[k],
    decreases s.len(),
{
    if s.len() > 0 {
        let t = s.drop_last();
        assert forall|i: int| 0 <= i < t.len() && t[i].target@ == k implies #[trigger] t[i].result is Err by {
            assert(t[i] == s[i]);
        }
        assert forall|i: int| 0 <= i < t.len() && #[trigger] t[i].result is Ok implies t[i].result->Ok_0.target@
            == t[i].target@ by {
            assert(t[i] == s[i]);
        }
        failed_fetches_keep_the_gauge(m, t, k);
        assert(s.last() == s[s.len() - 1]);
    }
}

/// Applies one cycle's outcomes to the store, in order: each success sets
/// its target's gauge, each failure is listed in the report and changes
/// nothing. The cycle always completes.
pub fn collect_outcomes(store: &mut MetricStore, outcomes: &Vec<FetchOutcome>) -> (r: CycleReport)
    requires
        old(store).wf(),
    ensures
        final(store).wf(),
        final(store)@ == apply_outcomes(old(store)@, outcomes@),
        r.written == count_ok(outcomes@),
        r.failures@.map_values(|f: FetchFailure| (f.target@, f.error)) == failures_of(outcomes@),
        r.written + r.failures@.len() == outcomes@.len(),
{
    let mut written: usize = 0;
    let mut failures: Vec<FetchFailure> = Vec::new();
    let mut i: usize = 0;
    while i < outcomes.len()
        invariant
            i <= outcomes.len(),
            store.wf(),
            store@ == apply_outcomes(old(store)@, outcomes@.subrange(0, i as int)),
            written == count_ok(outcomes@.subrange(0, i as int)),
            failures@.map_values(|f: FetchFailure| (f.target@, f.error)) == failures_of(
                outcomes@.subrange(0, i as int),
            ),
        decreases outcomes.len() - i,
    {
        let o = &outcomes[i];
        proof {
            lemma_failures_len(outcomes@.subrange(0, i as int));
        }
        assert(outcomes@.subrange(0, i + 1).drop_last() =~= outcomes@.subrange(0, i as int));
        match &o.result {
            Ok(smp) => {
                store.set(&smp.target, smp.age_days);
                written = written + 1;
            },
            Err(e) => {
                let ghost prev = failures@;
                failures.push(FetchFailure { target: o.target.duplicate(), error: *e });
                assert(failures@.map_values(|f: FetchFailure| (f.target@, f.error)) =~= prev.map_values(
                    |f: FetchFailure| (f.target@, f.error),
                ).push((o.target@, *e)));
            },
        }
        i += 1;
    }
    assert(outcomes@.subrange(0, i as int) =~= outcomes@);
    proof {
        lemma_failures_len(outcomes@);
    }
    CycleReport { written, failures }
}

/// The scrape answer for the store as it stands: always status 200, the
/// exposition media type, and the rendered gauges as the body.
pub fn respond(store: &MetricStore) -> (r: ScrapeResponse)
    requires
        store.wf(),
    ensures
        r.status == 200,
        r.content_type@ == EXPOSITION_CONTENT_TYPE@,
        r.body@ == render_pairs(store.pairs()),
        store@ == Map::<TargetKey, i64>::empty() ==> r.body@.len() == 0,
{
    ScrapeResponse {
        status: 200,
        content_type: String::from_str(EXPOSITION_CONTENT_TYPE),
        body: store.render(),
    }
}

/// Serves one scrape: applies the cycle's outcomes to the store, then
/// answers with the whole store rendered. Failed fetches never turn into an
/// error status.
pub fn handle_scrape(store: &mut MetricStore, outcomes: &Vec<FetchOutcome>) -> (r: (CycleReport, ScrapeResponse))
    requires
        old(store).wf(),
    ensures
        final(store).wf(),
        final(store)@ == apply_outcomes(old(store)@, outcomes@),
        r.0.written == count_ok(outcomes@),
        r.0.failures@.map_values(|f: FetchFailure| (f.target@, f.error)) == failures_of(outcomes@),
        r.1.status == 200,
        r.1.content_type@ == EXPOSITION_CONTENT_TYPE@,
        r.1.body@ == render_pairs(final(store).pairs()),
        old(store)@ == Map::<TargetKey, i64>::empty() && outcomes@.len() == 0 ==> r.1.body@.len() == 0,
{
    let report = collect_outcomes(store, outcomes);
    let response = respond(store);
    (report, response)
}

} // verus!
