//! Line-set comparison of two files.
//!
//! Both files are ordered sequences of text lines. The difference counts
//! the distinct lines of the first file that never occur in the second
//! (duplicates within a file collapse to one), and relates that count to
//! a blended total that weights the first file fully and the second at
//! half weight, duplicates included. The resulting percentage is the
//! exact rational `100 * unique_to_first / total`.

use vstd::prelude::*;
use vstd::set_lib::lemma_len_difference;

verus! {

/// The outcome of comparing two files' line sequences, kept as an exact
/// rational: `unique_to_first` over `total` is the fraction of the
/// reference file expected to be rewritten; the percentage is
/// `100 * unique_to_first / total` (zero when `total` is zero).
#[derive(Clone, Copy, Debug, PartialEq, Eq, Structural)]
pub struct DiffResult {
    pub unique_to_first: usize,
    pub total: usize,
}

impl DiffResult {
    /// The numerator never exceeds the denominator, so the percentage
    /// always lies in [0, 100].
    pub open spec fn wf(self) -> bool {
        self.unique_to_first <= self.total
    }
}

/// Number of distinct lines of `a` that do not occur in `b`: the
/// cardinality of the set difference of the two files' line sets.
pub open spec fn unique_count(a: Seq<Seq<char>>, b: Seq<Seq<char>>) -> nat {
    a.to_set().difference(b.to_set()).len()
}

/// The blended denominator: every line of the first file plus half the
/// lines of the second, duplicates included.
pub open spec fn blended_total(a: Seq<Seq<char>>, b: Seq<Seq<char>>) -> nat {
    a.len() + b.len() / 2
}

/// `unique_count` recast as a left-to-right scan: a line contributes
/// exactly when it is the first occurrence within `a` and absent from `b`.
spec fn unique_count_rec(a: Seq<Seq<char>>, b: Seq<Seq<char>>) -> nat
    decreases a.len(),
{
    if a.len() == 0 {
        0
    } else {
        let rest = unique_count_rec(a.drop_last(), b);
        if !a.drop_last().contains(a.last()) && !b.contains(a.last()) {
            rest + 1
        } else {
            rest
        }
    }
}

proof fn lemma_unique_count_rec_equals(a: Seq<Seq<char>>, b: Seq<Seq<char>>)
    ensures
        unique_count_rec(a, b) == unique_count(a, b),
    decreases a.len(),
{
    broadcast use vstd::set::group_set_axioms;
    broadcast use vstd::seq_lib::seq_to_set_is_finite;

    if a.len() == 0 {
        assert(a.to_set().difference(b.to_set()) =~= Set::<Seq<char>>::empty());
    } else {
        let prefix = a.drop_last();
        let x = a.last();
        lemma_unique_count_rec_equals(prefix, b);
        assert(a =~= prefix + seq![x]);
        Seq::<Seq<char>>::lemma_to_set_insert_commutes(prefix, x);
        let before = prefix.to_set().difference(b.to_set());
        let after = a.to_set().difference(b.to_set());
        if b.contains(x) {
            assert(b.to_set().contains(x));
            assert(after =~= before);
        } else if prefix.contains(x) {
            assert(prefix.to_set().insert(x) =~= prefix.to_set());
            assert(after =~= before);
        } else {
            assert(after =~= before.insert(x));
            assert(!before.contains(x));
        }
    }
}

/// Whether any of the first `upto` lines of `v` equals the line `x`.
fn vec_contains_line(v: &Vec<String>, upto: usize, x: &String) -> (r: bool)
    requires
        upto <= v.len(),
    ensures
        r == v.deep_view().take(upto as int).contains(x@),
{
    let ghost s = v.deep_view().take(upto as int);
    let mut j: usize = 0;
    while j < upto
        invariant
            j <= upto,
            upto <= v.len(),
            s == v.deep_view().take(upto as int),
            forall|k: int| 0 <= k < j ==> s[k] != x@,
        decreases upto - j,
    {
        if v[j] == *x {
            proof {
                assert(s[j as int] == x@);
            }
            return true;
        }
        j += 1;
    }
    proof {
        if s.contains(x@) {
            let k = choose|k: int| 0 <= k < s.len() && s[k] == x@;
            assert(false);
        }
    }
    false
}

/// Computes the line-set difference of the two files: the count of
/// distinct lines unique to the first file over the blended total.
/// The result is well formed, so the percentage it stands for lies
/// in [0, 100].
pub fn calculate_percent_diff(first: &Vec<String>, second: &Vec<String>) -> (r: DiffResult)
    requires
        first@.len() + second@.len() / 2 <= usize::MAX,
    ensures
        r.unique_to_first == unique_count(first.deep_view(), second.deep_view()),
        r.total == blended_total(first.deep_view(), second.deep_view()),
        r.wf(),
{
    let ghost a = first.deep_view();
    let ghost b = second.deep_view();
    let mut count: usize = 0;
    let mut i: usize = 0;
    while i < first.len()
        invariant
            i <= first.len(),
            first@.len() + second@.len() / 2 <= usize::MAX,
            a == first.deep_view(),
            b == second.deep_view(),
            a.len() == first@.len(),
            count == unique_count_rec(a.take(i as int), b),
            count <= i,
        decreases first.len() - i,
    {
        let line = &first[i];
        proof {
            assert(a[i as int] == line@);
        }
        let seen_before = vec_contains_line(first, i, line);
        let in_second = vec_contains_line(second, second.len(), line);
        proof {
            assert(b.take(second@.len() as int) =~= b);
            let next = a.take(i + 1 as int);
            assert(next.drop_last() =~= a.take(i as int));
            assert(next.last() == a[i as int]);
        }
        if !seen_before && !in_second {
            count = count + 1;
        }
        i += 1;
    }
    proof {
        assert(a.take(first@.len() as int) =~= a);
        lemma_unique_count_rec_equals(a, b);
    }
    let total = first.len() + second.len() / 2;
    DiffResult { unique_to_first: count, total }
}

/// The count of lines unique to the first file never exceeds that file's
/// line count, and therefore never exceeds the blended total: the
/// difference percentage always lies in [0, 100], with no clamping
/// needed even for pathological inputs.
pub proof fn lemma_percent_within_bounds(a: Seq<Seq<char>>, b: Seq<Seq<char>>)
    ensures
        unique_count(a, b) <= a.len(),
        unique_count(a, b) <= blended_total(a, b),
{
    broadcast use vstd::set::group_set_axioms;
    broadcast use vstd::seq_lib::seq_to_set_is_finite;

    lemma_len_difference(a.to_set(), b.to_set());
    a.lemma_cardinality_of_set();
}

/// Two files with identical line sequences have a difference of exactly
/// zero.
pub proof fn lemma_identical_files_zero_diff(a: Seq<Seq<char>>)
    ensures
        unique_count(a, a) == 0,
{
    broadcast use vstd::set::group_set_axioms;

    assert(a.to_set().difference(a.to_set()) =~= Set::<Seq<char>>::empty());
}

/// When every line of the first file also occurs in the second, the
/// difference is zero — even though the comparison in the other
/// direction may be positive: the metric is deliberately asymmetric.
pub proof fn lemma_covered_lines_zero_diff(a: Seq<Seq<char>>, b: Seq<Seq<char>>)
    requires
        forall|i: int| 0 <= i < a.len() ==> b.contains(#[trigger] a[i]),
    ensures
        unique_count(a, b) == 0,
{
    broadcast use vstd::set::group_set_axioms;

    assert forall|x: Seq<char>| !(#[trigger] a.to_set().difference(b.to_set()).contains(x)) by {
        if a.to_set().contains(x) {
            let i = choose|i: int| 0 <= i < a.len() && a[i] == x;
            assert(b.contains(a[i]));
            assert(b.to_set().contains(x));
        }
    }
    assert(a.to_set().difference(b.to_set()) =~= Set::<Seq<char>>::empty());
}

} // verus!
