use vstd::prelude::*;
use vstd::string::StrSliceExecFns;

use crate::target::{Target, TargetKey};

verus! {

/// One gauge of the store: the target it is labelled with and its value.
#[derive(Debug)]
pub struct MetricEntry {
    pub target: Target,
    pub value: i64,
}

/// The labelled gauges `github_repo_branch_age_days`, one per target
/// (owner, repository, branch) that has been set at least once.
#[derive(Debug)]
pub struct MetricStore {
    entries: Vec<MetricEntry>,
}

/// The value held for `k` by a list of (key, value) entries: the last one
/// with that key.
pub open spec fn lookup(s: Seq<(TargetKey, i64)>, k: TargetKey) -> Option<i64>
    decreases s.len(),
{
    if s.len() == 0 {
        None
    } else if s.last().0 == k {
        Some(s.last().1)
    } else {
        lookup(s.drop_last(), k)
    }
}

pub open spec fn keys_distinct(s: Seq<(TargetKey, i64)>) -> bool {
    forall|i: int, j: int| 0 <= i < j < s.len() ==> s[i].0 != s[j].0
}

proof fn lemma_lookup_found(s: Seq<(TargetKey, i64)>, i: int)
    requires
        keys_distinct(s),
        0 <= i < s.len(),
    ensures
        lookup(s, s[i].0) == Some(s[i].1),
    decreases s.len(),
{
    if i != s.len() - 1 {
        assert(s.drop_last()[i] == s[i]);
        lemma_lookup_found(s.drop_last(), i);
    }
}

proof fn lemma_lookup_absent(s: Seq<(TargetKey, i64)>, k: TargetKey)
    requires
        forall|j: int| 0 <= j < s.len() ==> s[j].0 != k,
    ensures
        lookup(s, k) is None,
    decreases s.len(),
{
    if s.len() > 0 {
        lemma_lookup_absent(s.drop_last(), k);
    }
}

proof fn lemma_lookup_update(s: Seq<(TargetKey, i64)>, i: int, v: i64, k: TargetKey)
    requires
        keys_distinct(s),
        0 <= i < s.len(),
    ensures
        lookup(s.update(i, (s[i].0, v)), k) == if k == s[i].0 {
            Some(v)
        } else {
            lookup(s, k)
        },
    decreases s.len(),
{
    let t = s.update(i, (s[i].0, v));
    if i == s.len() - 1 {
        assert(t.drop_last() =~= s.drop_last());
    } else {
        assert(t.drop_last() =~= s.drop_last().update(i, (s[i].0, v)));
        assert(s.drop_last()[i] == s[i]);
        assert(s.last().0 != s[i].0);
        lemma_lookup_update(s.drop_last(), i, v, k);
    }
}

impl MetricStore {
    /// The entries as (key, value) pairs, in the order they were first set.
    pub closed spec fn pairs(&self) -> Seq<(TargetKey, i64)> {
        self.entries@.map_values(|e: MetricEntry| (e.target@, e.value))
    }

    /// No two entries share a key.
    pub open spec fn wf(&self) -> bool {
        keys_distinct(self.pairs())
    }

    /// An empty store.
    pub fn new() -> (r: MetricStore)
        ensures
            r.wf(),
            r@ == Map::<TargetKey, i64>::empty(),
            r.pairs() == Seq::<(TargetKey, i64)>::empty(),
    {
        let r = MetricStore { entries: Vec::new() };
        assert(r.pairs() =~= Seq::<(TargetKey, i64)>::empty());
        assert(r@ =~= Map::<TargetKey, i64>::empty());
        r
    }

    /// Sets the gauge labelled with `target` to `value`: a new entry when
    /// none has that label, else the existing one is overwritten in place.
    pub fn set(&mut self, target: &Target, value: i64)
        requires
            old(self).wf(),
        ensures
            final(self).wf(),
            final(self)@ == old(self)@.insert(target@, value),
            !old(self)@.contains_key(target@) ==> final(self).pairs() == old(self).pairs().push(
                (target@, value),
            ),
            old(self)@.contains_key(target@) ==> exists|i: int|
                0 <= i < old(self).pairs().len() && old(self).pairs()[i].0 == target@
                    && final(self).pairs() == old(self).pairs().update(i, (target@, value)),
    {
        let ghost s = self.pairs();
        let mut i: usize = 0;
        while i < self.entries.len()
            invariant
                i <= self.entries.len(),
                s == self.pairs(),
                s == old(self).pairs(),
                keys_distinct(s),
                forall|j: int| 0 <= j < i ==> s[j].0 != target@,
            decreases self.entries.len() - i,
        {
            if self.entries[i].target.same_as(target) {
                self.entries[i].value = value;
                proof {
                    assert(self.pairs() =~= s.update(i as int, (s[i as int].0, value)));
                    assert forall|k: TargetKey| #![auto] lookup(self.pairs(), k) == if k == target@ {
                        Some(value)
                    } else {
                        lookup(s, k)
                    } by {
                        lemma_lookup_update(s, i as int, value, k);
                    }
                    lemma_lookup_found(s, i as int);
                    assert(self@ =~= old(self)@.insert(target@, value));
                    assert(self.pairs() == old(self).pairs().update(i as int, (target@, value)));
                }
                return;
            }
            i += 1;
        }
        self.entries.push(MetricEntry { target: target.duplicate(), value });
        proof {
            assert(self.pairs() =~= s.push((target@, value)));
            assert(self.pairs().drop_last() =~= s);
            lemma_lookup_absent(s, target@);
            assert forall|k: TargetKey| #![auto] lookup(self.pairs(), k) == if k == target@ {
                Some(value)
            } else {
                lookup(s, k)
            } by {
                assert(self.pairs().last() == (target@, value));
            }
            assert(self@ =~= old(self)@.insert(target@, value));
        }
    }

    /// Renders every gauge in the text exposition format; an empty store
    /// renders as an empty body.
    pub fn render(&self) -> (r: String)
        requires
            self.wf(),
        ensures
            r@ == render_pairs(self.pairs()),
            self@ == Map::<TargetKey, i64>::empty() ==> r@.len() == 0,
    {
        proof {
            if self.pairs().len() > 0 {
                lemma_lookup_found(self.pairs(), self.pairs().len() - 1);
                assert(self@.contains_key(self.pairs().last().0));
            }
        }
        let mut out = String::new();
        if self.entries.len() == 0 {
            return out;
        }
        out.append(HEADER);
        let mut i: usize = 0;
        while i < self.entries.len()
            invariant
                0 < self.entries.len(),
                i <= self.entries.len(),
                out@ == HEADER@ + render_lines(self.pairs().subrange(0, i as int)),
            decreases self.entries.len() - i,
        {
            let e = &self.entries[i];
            write_line(&mut out, &e.target, e.value);
            assert(self.pairs().subrange(0, i + 1).drop_last() =~= self.pairs().subrange(0, i as int));
            i += 1;
        }
        assert(self.pairs().subrange(0, i as int) =~= self.pairs());
        out
    }
}

impl View for MetricStore {
    type V = Map<TargetKey, i64>;

    /// The value of each gauge by its label triple.
    open spec fn view(&self) -> Map<TargetKey, i64> {
        Map::new(|k: TargetKey| lookup(self.pairs(), k) is Some, |k: TargetKey| lookup(self.pairs(), k).unwrap())
    }
}

/// The family's help and type lines, written before its first sample.
pub const HEADER: &'static str = "# HELP github_repo_branch_age_days how long has the branch not been updated\n# TYPE github_repo_branch_age_days gauge\n";

/// A label value's character as the exposition format writes it.
pub open spec fn escape_char(c: char) -> Seq<char> {
    if c == '\\' {
        "\\\\"@
    } else if c == '"' {
        "\\\""@
    } else if c == '\n' {
        "\\n"@
    } else {
        seq![c]
    }
}

/// A label value as the exposition format writes it between quotes.
pub open spec fn escape(s: Seq<char>) -> Seq<char>
    decreases s.len(),
{
    if s.len() == 0 {
        Seq::empty()
    } else {
        escape(s.drop_last()) + escape_char(s.last())
    }
}

pub open spec fn digit(d: int) -> Seq<char> {
    if d == 0 { "0"@ } else if d == 1 { "1"@ } else if d == 2 { "2"@ } else if d == 3 { "3"@ }
    else if d == 4 { "4"@ } else if d == 5 { "5"@ } else if d == 6 { "6"@ } else if d == 7 { "7"@ }
    else if d == 8 { "8"@ } else { "9"@ }
}

/// The decimal digits of a natural number, most significant first.
pub open spec fn digits(n: nat) -> Seq<char>
    decreases n,
{
    if n < 10 {
        digit(n as int)
    } else {
        digits(n / 10) + digit((n % 10) as int)
    }
}

/// An integer in decimal, with a leading `-` when negative.
pub open spec fn decimal(n: int) -> Seq<char> {
    if n < 0 {
        "-"@ + digits((-n) as nat)
    } else {
        digits(n as nat)
    }
}

/// One sample line: the metric name, the labels owner, repo and branch, and
/// the value.
pub open spec fn render_line(p: (TargetKey, i64)) -> Seq<char> {
    "github_repo_branch_age_days{owner=\""@ + escape(p.0.0) + "\",repo=\""@ + escape(p.0.1)
        + "\",branch=\""@ + escape(p.0.2) + "\"} "@ + decimal(p.1 as int) + "\n"@
}

pub open spec fn render_lines(s: Seq<(TargetKey, i64)>) -> Seq<char>
    decreases s.len(),
{
    if s.len() == 0 {
        Seq::empty()
    } else {
        render_lines(s.drop_last()) + render_line(s.last())
    }
}

/// The exposition text of a list of entries: nothing when there are none,
/// else the family header followed by one line per entry.
pub open spec fn render_pairs(s: Seq<(TargetKey, i64)>) -> Seq<char> {
    if s.len() == 0 {
        Seq::empty()
    } else {
        HEADER@ + render_lines(s)
    }
}

fn write_escaped(out: &mut String, s: &str)
    ensures
        final(out)@ == old(out)@ + escape(s@),
{
    let n = s.unicode_len();
    let mut i: usize = 0;
    while i < n
        invariant
            n == s@.len(),
            i <= n,
            out@ == old(out)@ + escape(s@.subrange(0, i as int)),
        decreases n - i,
    {
        let c = s.get_char(i);
        if c == '\\' {
            out.append("\\\\");
        } else if c == '"' {
            out.append("\\\"");
        } else if c == '\n' {
            out.append("\\n");
        } else {
            out.append(s.substring_char(i, i + 1));
            assert(s@.subrange(i as int, i + 1) =~= seq![c]);
        }
        assert(s@.subrange(0, i + 1).drop_last() =~= s@.subrange(0, i as int));
        i += 1;
    }
    assert(s@.subrange(0, i as int) =~= s@);
}

fn write_digits(out: &mut String, n: u64)
    ensures
        final(out)@ == old(out)@ + digits(n as nat),
    decreases n,
{
    if n >= 10 {
        write_digits(out, n / 10);
    }
    let d = n % 10;
    let lit = if d == 0 { "0" } else if d == 1 { "1" } else if d == 2 { "2" } else if d == 3 { "3" }
        else if d == 4 { "4" } else if d == 5 { "5" } else if d == 6 { "6" } else if d == 7 { "7" }
        else if d == 8 { "8" } else { "9" };
    out.append(lit);
}

fn write_decimal(out: &mut String, n: i64)
    ensures
        final(out)@ == old(out)@ + decimal(n as int),
{
    if n < 0 {
        out.append("-");
        let m: u64 = (-(n + 1)) as u64 + 1;
        write_digits(out, m);
    } else {
        write_digits(out, n as u64);
    }
}

fn write_line(out: &mut String, t: &Target, value: i64)
    ensures
        final(out)@ == old(out)@ + render_line((t@, value)),
{
    out.append("github_repo_branch_age_days{owner=\"");
    write_escaped(out, t.owner.as_str());
    out.append("\",repo=\"");
    write_escaped(out, t.repo.as_str());
    out.append("\",branch=\"");
    write_escaped(out, t.branch.as_str());
    out.append("\"} ");
    write_decimal(out, value);
    out.append("\n");
}

} // verus!
