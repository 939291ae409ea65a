use vstd::prelude::*;

use crate::target::Target;
use crate::time::{age_days, current_time, parse_rfc3339, rfc3339_instant, spec_age_days, Timestamp};

verus! {

/// Why the age of one branch could not be learned.
#[derive(Clone, Copy, Debug, PartialEq, Eq)]
pub enum FetchError {
    /// The upstream could not be reached.
    Transport,
    /// The upstream answered with a status outside 200..=299.
    Http { status: u16 },
    /// The body did not have the expected shape.
    Decode,
    /// The commit's author section has no `date` field.
    MissingField,
    /// The `date` field is not an RFC 3339 timestamp.
    TimestampParse,
}

/// What the body of a branch-metadata answer held.
#[derive(Debug)]
pub enum Body {
    /// Not an object with a nested `commit.commit.author` section.
    Malformed,
    /// The author section, reduced to its `date` field if there is one.
    Author { date: Option<String> },
}

/// What one upstream request came back with.
#[derive(Debug)]
pub enum Reply {
    /// No answer: the connection or the transfer failed.
    Unreachable,
    /// An answer with its status code and its decoded body.
    Answered { status: u16, body: Body },
}

/// The result of one successful fetch.
#[derive(Debug)]
pub struct BranchAgeSample {
    pub target: Target,
    pub age_days: i64,
    pub observed_at: Timestamp,
}

/// The outcome of fetching one target, kept with the target it was for.
#[derive(Debug)]
pub struct FetchOutcome {
    pub target: Target,
    pub result: Result<BranchAgeSample, FetchError>,
}

pub open spec fn is_success_status(status: u16) -> bool {
    200 <= status <= 299
}

/// The timestamp text a reply carries, or the error that stops it short of one.
pub open spec fn reply_date(reply: Reply) -> Result<Seq<char>, FetchError> {
    match reply {
        Reply::Unreachable => Err(FetchError::Transport),
        Reply::Answered { status, body } => if !is_success_status(status) {
            Err(FetchError::Http { status })
        } else {
            match body {
                Body::Malformed => Err(FetchError::Decode),
                Body::Author { date: None } => Err(FetchError::MissingField),
                Body::Author { date: Some(d) } => Ok(d@),
            }
        },
    }
}

/// The age in days that a parsed timestamp gives at `now`, or the parse error.
pub open spec fn parsed_age(parsed: Option<(i64, u32)>, now: Timestamp) -> Result<int, FetchError> {
    match parsed {
        None => Err(FetchError::TimestampParse),
        Some(p) => Ok(spec_age_days(Timestamp { secs: p.0, nanos: p.1 }, now)),
    }
}

/// The age in days, or the error, that a reply gives at `now`.
pub open spec fn reply_age(reply: Reply, now: Timestamp) -> Result<int, FetchError> {
    match reply_date(reply) {
        Err(e) => Err(e),
        Ok(d) => parsed_age(rfc3339_instant(d), now),
    }
}

/// A sample's age, or the error, with the rest of the sample left out.
pub open spec fn result_age(r: Result<BranchAgeSample, FetchError>) -> Result<int, FetchError> {
    match r {
        Ok(s) => Ok(s.age_days as int),
        Err(e) => Err(e),
    }
}

/// Builds the sample for `target` from what the timestamp parser returned:
/// the parse error when it returned nothing, else the age at `now`.
pub fn sample_from_parsed(target: Target, parsed: Option<(i64, u32)>, now: Timestamp) -> (r: Result<
    BranchAgeSample,
    FetchError,
>)
    ensures
        result_age(r) == parsed_age(parsed, now),
        r matches Ok(s) ==> s.target == target && s.observed_at == now,
{
    match parsed {
        None => Err(FetchError::TimestampParse),
        Some(p) => {
            let then = Timestamp { secs: p.0, nanos: p.1 };
            Ok(BranchAgeSample { target, age_days: age_days(then, now), observed_at: now })
        },
    }
}

/// Decides what one upstream reply for `target` means, with `now` as the
/// moment of observation: the first failure among transport, status, body
/// shape, a missing `date` and an unparsable `date`; otherwise the branch's
/// age in whole days, rounded down.
pub fn evaluate_reply(target: Target, reply: &Reply, now: Timestamp) -> (r: Result<
    BranchAgeSample,
    FetchError,
>)
    ensures
        result_age(r) == reply_age(*reply, now),
        r matches Ok(s) ==> s.target == target && s.observed_at == now,
{
    match reply {
        Reply::Unreachable => Err(FetchError::Transport),
        Reply::Answered { status, body } => {
            if !(200 <= *status && *status <= 299) {
                Err(FetchError::Http { status: *status })
            } else {
                match body {
                    Body::Malformed => Err(FetchError::Decode),
                    Body::Author { date: None } => Err(FetchError::MissingField),
                    Body::Author { date: Some(d) } => {
                        let parsed = parse_rfc3339(d.as_str());
                        sample_from_parsed(target, parsed, now)
                    },
                }
            }
        },
    }
}

/// Evaluates one reply for `target` against the wall clock, read once.
/// Whatever time was read, a failure is the one the reply gives, and a
/// success holds the age at the moment it records.
pub fn fetch_outcome(target: Target, reply: &Reply) -> (r: FetchOutcome)
    ensures
        r.target == target,
        match r.result {
            Ok(s) => s.target == target && Ok::<int, FetchError>(s.age_days as int) == reply_age(*reply, s.observed_at),
            Err(e) => forall|n: Timestamp| #[trigger] reply_age(*reply, n) == Err::<int, FetchError>(e),
        },
{
    let now = current_time();
    let result = evaluate_reply(target.duplicate(), reply, now);
    proof {
        if let Err(e) = result {
            match reply_date(*reply) {
                Ok(d) => { assert(rfc3339_instant(d) is None); },
                Err(_) => {},
            }
        }
    }
    FetchOutcome { target, result }
}

} // verus!
