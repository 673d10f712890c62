//! The counter store: XP per language name, with entries kept in the order in
//! which each language was first counted.
use vstd::prelude::*;
use vstd::string::StringExecFns;
use crate::text::{decimal, decimal_string};

verus! {

/// The XP counted for `lang`: the sum of the counters of every entry under that name.
pub open spec fn xp_of(s: Seq<(Seq<char>, nat)>, lang: Seq<char>) -> nat
    decreases s.len(),
{
    if s.len() == 0 {
        0
    } else {
        xp_of(s.drop_last(), lang) + (if s.last().0 == lang {
            s.last().1
        } else {
            0
        })
    }
}

/// The XP counted over all languages.
pub open spec fn total_of(s: Seq<(Seq<char>, nat)>) -> nat
    decreases s.len(),
{
    if s.len() == 0 {
        0
    } else {
        total_of(s.drop_last()) + s.last().1
    }
}

/// No language name occurs twice.
pub open spec fn unique_keys(s: Seq<(Seq<char>, nat)>) -> bool {
    forall|i: int, j: int| 0 <= i < j < s.len() ==> s[i].0 != s[j].0
}

/// Every counter is zero.
pub open spec fn no_xp(s: Seq<(Seq<char>, nat)>) -> bool {
    forall|i: int| 0 <= i < s.len() ==> s[i].1 == 0
}

/// The entries after `diff` is added to `lang`: its entry grows, or a new one
/// is appended when the name is not there yet.
pub open spec fn incremented(s: Seq<(Seq<char>, nat)>, lang: Seq<char>, diff: nat) -> Seq<
    (Seq<char>, nat),
> {
    if exists|i: int| 0 <= i < s.len() && s[i].0 == lang {
        let i = choose|i: int| 0 <= i < s.len() && s[i].0 == lang;
        s.update(i, (lang, s[i].1 + diff))
    } else {
        s.push((lang, diff))
    }
}

/// The entries after a series of increments, applied in order.
pub open spec fn increments_applied(s: Seq<(Seq<char>, nat)>, ops: Seq<(Seq<char>, nat)>) -> Seq<
    (Seq<char>, nat),
>
    decreases ops.len(),
{
    if ops.len() == 0 {
        s
    } else {
        incremented(increments_applied(s, ops.drop_last()), ops.last().0, ops.last().1)
    }
}

/// What a series of increments adds to `lang`.
pub open spec fn ops_sum(ops: Seq<(Seq<char>, nat)>, lang: Seq<char>) -> nat
    decreases ops.len(),
{
    if ops.len() == 0 {
        0
    } else {
        ops_sum(ops.drop_last(), lang) + (if ops.last().0 == lang {
            ops.last().1
        } else {
            0
        })
    }
}

/// Counters keyed by language name.
#[derive(Debug)]
pub struct XpStore {
    pub(crate) entries: Vec<(String, u32)>,
}

impl View for XpStore {
    type V = Seq<(Seq<char>, nat)>;

    closed spec fn view(&self) -> Seq<(Seq<char>, nat)> {
        self.entries@.map_values(|e: (String, u32)| (e.0@, e.1 as nat))
    }
}

impl XpStore {
    /// The view lists the entries one for one.
    pub(crate) proof fn lemma_view(&self)
        ensures
            self@.len() == self.entries@.len(),
            forall|i: int|
                0 <= i < self@.len() ==> #[trigger] self@[i] == (
                    self.entries@[i].0@,
                    self.entries@[i].1 as nat,
                ),
    {
    }

    /// The store holds each language at most once.
    pub open spec fn wf(&self) -> bool {
        unique_keys(self@)
    }

    /// An empty store.
    pub fn new() -> (r: XpStore)
        ensures
            r.wf(),
            r@ == Seq::<(Seq<char>, nat)>::empty(),
    {
        let r = XpStore { entries: Vec::new() };
        assert(r@ =~= Seq::<(Seq<char>, nat)>::empty());
        r
    }

    /// The entries as (language, count) pairs, in the order of first count.
    pub fn entries(&self) -> (r: Vec<(String, u32)>)
        ensures
            r@.len() == self@.len(),
            forall|i: int|
                0 <= i < r@.len() ==> (#[trigger] r@[i]).0@ == self@[i].0 && r@[i].1 as nat
                    == self@[i].1,
    {
        let mut r: Vec<(String, u32)> = Vec::new();
        let mut i: usize = 0;
        while i < self.entries.len()
            invariant
                i <= self.entries@.len(),
                r@.len() == i,
                forall|j: int|
                    0 <= j < i ==> (#[trigger] r@[j]).0@ == self@[j].0 && r@[j].1 as nat
                        == self@[j].1,
            decreases self.entries@.len() - i,
        {
            let name = self.entries[i].0.clone();
            r.push((name, self.entries[i].1));
            i = i + 1;
        }
        r
    }
}

proof fn lemma_xp_of_push(s: Seq<(Seq<char>, nat)>, e: (Seq<char>, nat), l: Seq<char>)
    ensures
        xp_of(s.push(e), l) == xp_of(s, l) + (if e.0 == l {
            e.1
        } else {
            0
        }),
{
    assert(s.push(e).drop_last() =~= s);
}

proof fn lemma_xp_of_unique(s: Seq<(Seq<char>, nat)>, i: int)
    requires
        unique_keys(s),
        0 <= i < s.len(),
    ensures
        xp_of(s, s[i].0) == s[i].1,
    decreases s.len(),
{
    let t = s.drop_last();
    if i < s.len() - 1 {
        lemma_xp_of_unique(t, i);
        lemma_xp_of_absent(t.drop_last(), s[i].0);
    } else {
        lemma_xp_of_absent(t, s[i].0);
    }
}

proof fn lemma_xp_of_absent(s: Seq<(Seq<char>, nat)>, l: Seq<char>)
    ensures
        (forall|j: int| 0 <= j < s.len() ==> s[j].0 != l) ==> xp_of(s, l) == 0,
    decreases s.len(),
{
    if s.len() > 0 {
        lemma_xp_of_absent(s.drop_last(), l);
    }
}

proof fn lemma_xp_of_update(s: Seq<(Seq<char>, nat)>, i: int, v: nat, l: Seq<char>)
    requires
        0 <= i < s.len(),
    ensures
        xp_of(s.update(i, (s[i].0, v)), l) + (if s[i].0 == l {
            s[i].1
        } else {
            0
        }) == xp_of(s, l) + (if s[i].0 == l {
            v
        } else {
            0
        }),
    decreases s.len(),
{
    let u = s.update(i, (s[i].0, v));
    if i == s.len() - 1 {
        assert(u.drop_last() =~= s.drop_last());
    } else {
        assert(u.drop_last() =~= s.drop_last().update(i, (s[i].0, v)));
        lemma_xp_of_update(s.drop_last(), i, v, l);
    }
}

/// Adding to a counter adds to that language alone, and keeps names unique.
pub(crate) proof fn lemma_incremented(s: Seq<(Seq<char>, nat)>, lang: Seq<char>, diff: nat)
    requires
        unique_keys(s),
    ensures
        unique_keys(incremented(s, lang, diff)),
        forall|l: Seq<char>|
            #[trigger] xp_of(incremented(s, lang, diff), l) == xp_of(s, l) + (if l == lang {
                diff
            } else {
                0
            }),
{
    if exists|i: int| 0 <= i < s.len() && s[i].0 == lang {
        let i = choose|i: int| 0 <= i < s.len() && s[i].0 == lang;
        assert forall|l: Seq<char>|
            #[trigger] xp_of(incremented(s, lang, diff), l) == xp_of(s, l) + (if l == lang {
                diff
            } else {
                0
            }) by {
            lemma_xp_of_update(s, i, s[i].1 + diff, l);
        }
    } else {
        assert forall|l: Seq<char>|
            #[trigger] xp_of(incremented(s, lang, diff), l) == xp_of(s, l) + (if l == lang {
                diff
            } else {
                0
            }) by {
            lemma_xp_of_push(s, (lang, diff), l);
        }
    }
}

/// Every increment is counted exactly once: after any series of increments,
/// each language holds what it held before plus the sum of the amounts added
/// to it, so a snapshot taken next reports exactly that sum.
pub proof fn lemma_increments_sum(s: Seq<(Seq<char>, nat)>, ops: Seq<(Seq<char>, nat)>)
    requires
        unique_keys(s),
    ensures
        unique_keys(increments_applied(s, ops)),
        forall|l: Seq<char>|
            #[trigger] xp_of(increments_applied(s, ops), l) == xp_of(s, l) + ops_sum(ops, l),
    decreases ops.len(),
{
    if ops.len() > 0 {
        lemma_increments_sum(s, ops.drop_last());
        lemma_incremented(increments_applied(s, ops.drop_last()), ops.last().0, ops.last().1);
    }
}

/// Adds `diff` to the counter of `language`, creating the entry if absent.
pub fn add_xp(xps: &mut XpStore, language: String, diff: u32)
    requires
        old(xps).wf(),
        xp_of(old(xps)@, language@) + diff <= u32::MAX,
    ensures
        final(xps).wf(),
        final(xps)@ == incremented(old(xps)@, language@, diff as nat),
        forall|l: Seq<char>|
            #[trigger] xp_of(final(xps)@, l) == xp_of(old(xps)@, l) + (if l == language@ {
                diff as nat
            } else {
                0
            }),
{
    proof {
        lemma_incremented(xps@, language@, diff as nat);
    }
    let ghost s = xps@;
    let n = xps.entries.len();
    let mut i: usize = 0;
    while i < n && xps.entries[i].0 != language
        invariant
            xps@ == s,
            n == xps.entries@.len(),
            s.len() == n,
            i <= n,
            forall|j: int| 0 <= j < i ==> s[j].0 != language@,
        decreases n - i,
    {
        assert(s[i as int].0 == xps.entries@[i as int].0@);
        i = i + 1;
    }
    if i < n {
        let v = xps.entries[i].1;
        proof {
            assert(s[i as int] == (xps.entries@[i as int].0@, xps.entries@[i as int].1 as nat));
            lemma_xp_of_unique(s, i as int);
            let k = choose|k: int| 0 <= k < s.len() && s[k].0 == language@;
            assert(k == i);
        }
        xps.entries.set(i, (language, v + diff));
        assert(xps@ =~= s.update(i as int, (language@, (s[i as int].1 + diff) as nat)));
    } else {
        xps.entries.push((language, diff));
        assert(xps@ =~= s.push((language@, diff as nat)));
    }
}

/// The XP counted for `language`; zero when it has no entry.
pub fn xp_for(xps: &XpStore, language: &String) -> (r: u32)
    requires
        xps.wf(),
    ensures
        r == xp_of(xps@, language@),
{
    let n = xps.entries.len();
    let mut i: usize = 0;
    while i < n
        invariant
            xps.wf(),
            n == xps.entries@.len(),
            i <= n,
            forall|j: int| 0 <= j < i ==> xps@[j].0 != language@,
        decreases n - i,
    {
        proof {
            xps.lemma_view();
            assert(xps@[i as int] == (
                xps.entries@[i as int].0@,
                xps.entries@[i as int].1 as nat,
            ));
        }
        if xps.entries[i].0 == *language {
            proof {
                lemma_xp_of_unique(xps@, i as int);
            }
            return xps.entries[i].1;
        }
        i = i + 1;
    }
    proof {
        xps.lemma_view();
        lemma_xp_of_absent(xps@, language@);
    }
    0
}

/// True iff no language has a nonzero counter.
pub fn xp_empty(xps: &XpStore) -> (r: bool)
    ensures
        r == no_xp(xps@),
{
    let mut i: usize = 0;
    while i < xps.entries.len()
        invariant
            i <= xps.entries@.len(),
            xps@.len() == xps.entries@.len(),
            forall|j: int| 0 <= j < i ==> xps@[j].1 == 0,
        decreases xps.entries@.len() - i,
    {
        assert(xps@[i as int].1 == xps.entries@[i as int].1 as nat);
        if xps.entries[i].1 != 0 {
            return false;
        }
        i = i + 1;
    }
    true
}

proof fn lemma_total_prefix(s: Seq<(Seq<char>, nat)>, i: int)
    requires
        0 <= i <= s.len(),
    ensures
        total_of(s.take(i)) <= total_of(s),
    decreases s.len() - i,
{
    if i < s.len() {
        lemma_total_prefix(s, i + 1);
        assert(s.take(i + 1).drop_last() =~= s.take(i));
    } else {
        assert(s.take(i) =~= s);
    }
}

/// The XP counted over all languages.
pub fn count_total_xp(xps: &XpStore) -> (r: u32)
    requires
        total_of(xps@) <= u32::MAX,
    ensures
        r == total_of(xps@),
{
    let mut sum: u32 = 0;
    let mut i: usize = 0;
    while i < xps.entries.len()
        invariant
            i <= xps.entries@.len(),
            xps@.len() == xps.entries@.len(),
            total_of(xps@) <= u32::MAX,
            sum == total_of(xps@.take(i as int)),
        decreases xps.entries@.len() - i,
    {
        proof {
            lemma_total_prefix(xps@, i + 1);
            assert(xps@.take(i + 1).drop_last() =~= xps@.take(i as int));
        }
        sum = sum + xps.entries[i].1;
        i = i + 1;
    }
    assert(xps@.take(i as int) =~= xps@);
    sum
}

/// Takes the whole counter state and leaves the store empty.
pub fn snapshot_and_clear(xps: &mut XpStore) -> (r: XpStore)
    requires
        old(xps).wf(),
    ensures
        r@ == old(xps)@,
        r.wf(),
        final(xps).wf(),
        final(xps)@ == Seq::<(Seq<char>, nat)>::empty(),
{
    let mut snapshot = XpStore::new();
    std::mem::swap(xps, &mut snapshot);
    snapshot
}

/// One line of the statistics dump.
pub open spec fn info_line(e: (Seq<char>, nat)) -> Seq<char> {
    "Lang: "@ + e.0 + ", count: "@ + decimal(e.1) + "\n"@
}

/// The lines of the statistics dump, one per entry, in order.
pub open spec fn info_lines(s: Seq<(Seq<char>, nat)>) -> Seq<char>
    decreases s.len(),
{
    if s.len() == 0 {
        Seq::empty()
    } else {
        info_lines(s.drop_last()) + info_line(s.last())
    }
}

/// The statistics dump: a header, one line per language, and a footer. The
/// counters are only read.
pub fn info_text(xps: &XpStore) -> (r: String)
    ensures
        r@ == "C::S info:\n"@ + info_lines(xps@) + "C::S info end\n"@,
{
    let mut out = String::from_str("C::S info:\n");
    let ghost head = out@;
    let mut i: usize = 0;
    while i < xps.entries.len()
        invariant
            i <= xps.entries@.len(),
            out@ == head + info_lines(xps@.take(i as int)),
        decreases xps.entries@.len() - i,
    {
        proof {
            xps.lemma_view();
            assert(xps@.take(i + 1).drop_last() =~= xps@.take(i as int));
            assert(xps@.take(i + 1).last() == xps@[i as int]);
        }
        out.append("Lang: ");
        out.append(xps.entries[i].0.as_str());
        out.append(", count: ");
        let n = decimal_string(xps.entries[i].1);
        out.append(n.as_str());
        out.append("\n");
        i = i + 1;
    }
    proof {
        xps.lemma_view();
        assert(xps@.take(i as int) =~= xps@);
    }
    out.append("C::S info end\n");
    out
}

} // verus!
