use vstd::prelude::*;

verus! {

/// Nanoseconds in one second.
pub const NANOS_PER_SECOND: i128 = 1_000_000_000;

/// Nanoseconds in one day.
pub const NANOS_PER_DAY: i128 = 86_400_000_000_000;

/// An instant in UTC: whole seconds since the Unix epoch and the nanoseconds
/// past that second (above one second only inside a leap second).
#[derive(Clone, Copy, Debug, PartialEq, Eq)]
pub struct Timestamp {
    pub secs: i64,
    pub nanos: u32,
}

impl Timestamp {
    /// The instant as nanoseconds since the Unix epoch.
    pub open spec fn instant(self) -> int {
        self.secs * NANOS_PER_SECOND + self.nanos
    }
}

/// Whole days from `then` to `now`, rounded down; negative when `then` lies
/// after `now`.
pub open spec fn spec_age_days(then: Timestamp, now: Timestamp) -> int {
    (now.instant() - then.instant()) / (NANOS_PER_DAY as int)
}

/// Number of whole days elapsed from `then` to `now`, rounded towards
/// negative infinity, so a `then` in the future gives a negative age.
pub fn age_days(then: Timestamp, now: Timestamp) -> (r: i64)
    ensures
        r == spec_age_days(then, now),
{
    let ds: i128 = now.secs as i128 - then.secs as i128;
    let dn: i128 = now.nanos as i128 - then.nanos as i128;
    assert(-0x1_0000_0000_0000_0000 * 1_000_000_000 <= ds * 1_000_000_000 <= 0x1_0000_0000_0000_0000 * 1_000_000_000)
        by (nonlinear_arith)
        requires -0x1_0000_0000_0000_0000 <= ds <= 0x1_0000_0000_0000_0000;
    let diff: i128 = ds * NANOS_PER_SECOND + dn;
    assert(diff == now.instant() - then.instant());
    if diff >= 0 {
        let q: i128 = diff / NANOS_PER_DAY;
        assert(q <= 0x1_0000_0000_0000) by (nonlinear_arith)
            requires q == (diff as int) / 86_400_000_000_000, 0 <= diff <= 0x1_0000_0000_0000_0000 * 1_000_000_000 + 0x1_0000_0000;
        q as i64
    } else {
        let neg: i128 = -diff;
        let up: i128 = (neg + NANOS_PER_DAY - 1) / NANOS_PER_DAY;
        proof {
            lemma_floor_of_negative(diff as int, up as int);
        }
        assert(up <= 0x1_0000_0000_0000) by (nonlinear_arith)
            requires up == (neg as int + 86_400_000_000_000 - 1) / 86_400_000_000_000, 0 < neg <= 0x1_0000_0000_0000_0000 * 1_000_000_000 + 0x1_0000_0000;
        -up as i64
    }
}

proof fn lemma_floor_of_negative(diff: int, up: int)
    requires
        diff < 0,
        up == (-diff + NANOS_PER_DAY - 1) / (NANOS_PER_DAY as int),
    ensures
        -up == diff / (NANOS_PER_DAY as int),
{
    let d: int = 86_400_000_000_000;
    let q = diff / d;
    let r = diff % d;
    assert(diff == q * d + r && 0 <= r < d) by (nonlinear_arith)
        requires d > 0, q == diff / d, r == diff % d;
    assert(-diff + d - 1 == (-q) * d + (d - 1 - r)) by (nonlinear_arith)
        requires diff == q * d + r;
    vstd::arithmetic::div_mod::lemma_fundamental_div_mod_converse(-diff + d - 1, d, -q, d - 1 - r);
}

/// What chrono's RFC 3339 parser makes of a text: the instant as whole UTC
/// seconds since the epoch and nanoseconds past that second, or nothing when
/// the text is not an RFC 3339 timestamp.
pub uninterp spec fn rfc3339_instant(text: Seq<char>) -> Option<(i64, u32)>;

/// Relies on chrono::DateTime::parse_from_rfc3339 with `timestamp` and
/// `timestamp_subsec_nanos`: the result depends on the text alone.
#[verifier::external_body]
pub(crate) fn parse_rfc3339(text: &str) -> (r: Option<(i64, u32)>)
    ensures
        r == rfc3339_instant(text@),
{
    match chrono::DateTime::parse_from_rfc3339(text) {
        Ok(t) => Some((t.timestamp(), t.timestamp_subsec_nanos())),
        Err(_) => None,
    }
}

/// Relies on chrono::Utc::now for the current wall-clock time; nothing is
/// known of the value it reads.
#[verifier::external_body]
pub(crate) fn current_time() -> (r: Timestamp) {
    let t = chrono::Utc::now();
    Timestamp { secs: t.timestamp(), nanos: t.timestamp_subsec_nanos() }
}

} // verus!
