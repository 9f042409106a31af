use vstd::prelude::*;

verus! {

/// Sum of `f` over all elements of `s`.
pub open spec fn sum_by<T>(s: Seq<T>, f: spec_fn(T) -> int) -> int
    decreases s.len(),
{
    if s.len() == 0 {
        0
    } else {
        sum_by(s.drop_last(), f) + f(s.last())
    }
}

/// Number of elements of `s` satisfying `p`.
pub open spec fn count_by<T>(s: Seq<T>, p: spec_fn(T) -> bool) -> int {
    sum_by(s, |t: T| if p(t) { 1int } else { 0int })
}

/// Extending a prefix by one element adds that element's weight.
pub proof fn lemma_sum_by_take_step<T>(s: Seq<T>, f: spec_fn(T) -> int, i: int)
    requires
        0 <= i < s.len(),
    ensures
        sum_by(s.take(i + 1), f) == sum_by(s.take(i), f) + f(s[i]),
{
    assert(s.take(i + 1).drop_last() =~= s.take(i));
    assert(s.take(i + 1).last() == s[i]);
}

pub proof fn lemma_count_by_take_step<T>(s: Seq<T>, p: spec_fn(T) -> bool, i: int)
    requires
        0 <= i < s.len(),
    ensures
        count_by(s.take(i + 1), p) == count_by(s.take(i), p) + if p(s[i]) {
            1int
        } else {
            0int
        },
{
    lemma_sum_by_take_step(s, |t: T| if p(t) { 1int } else { 0int }, i);
}

/// A sum of nonnegative weights is nonnegative.
pub proof fn lemma_sum_by_nonneg<T>(s: Seq<T>, f: spec_fn(T) -> int)
    requires
        forall|i: int| 0 <= i < s.len() ==> f(s[i]) >= 0,
    ensures
        sum_by(s, f) >= 0,
    decreases s.len(),
{
    if s.len() > 0 {
        assert(forall|i: int| 0 <= i < s.drop_last().len() ==> s.drop_last()[i] == s[i]);
        lemma_sum_by_nonneg(s.drop_last(), f);
        assert(f(s.last()) >= 0);
    }
}

/// With nonnegative weights, a prefix sum is bounded by the whole sum.
pub proof fn lemma_sum_by_take_le<T>(s: Seq<T>, f: spec_fn(T) -> int, i: int)
    requires
        0 <= i <= s.len(),
        forall|j: int| 0 <= j < s.len() ==> f(s[j]) >= 0,
    ensures
        sum_by(s.take(i), f) <= sum_by(s, f),
    decreases s.len() - i,
{
    if i < s.len() {
        lemma_sum_by_take_step(s, f, i);
        lemma_sum_by_take_le(s, f, i + 1);
    } else {
        assert(s.take(i) =~= s);
    }
}

/// Pointwise-smaller weights give a smaller sum.
pub proof fn lemma_sum_by_le<T>(s: Seq<T>, f: spec_fn(T) -> int, g: spec_fn(T) -> int)
    requires
        forall|i: int| 0 <= i < s.len() ==> f(s[i]) <= g(s[i]),
    ensures
        sum_by(s, f) <= sum_by(s, g),
    decreases s.len(),
{
    if s.len() > 0 {
        assert(forall|i: int| 0 <= i < s.drop_last().len() ==> s.drop_last()[i] == s[i]);
        lemma_sum_by_le(s.drop_last(), f, g);
        assert(f(s.last()) <= g(s.last()));
    }
}

/// A count is between 0 and the sequence's length.
pub proof fn lemma_count_by_bounds<T>(s: Seq<T>, p: spec_fn(T) -> bool)
    ensures
        0 <= count_by(s, p) <= s.len(),
    decreases s.len(),
{
    if s.len() > 0 {
        assert(forall|i: int| 0 <= i < s.drop_last().len() ==> s.drop_last()[i] == s[i]);
        lemma_count_by_bounds(s.drop_last(), p);
    }
}

/// Sum of the values of a sequence of machine integers.
pub open spec fn total_u64(s: Seq<u64>) -> int {
    sum_by(s, |x: u64| x as int)
}

/// Changing one entry changes the total by the difference.
pub proof fn lemma_total_update(s: Seq<u64>, i: int, v: u64)
    requires
        0 <= i < s.len(),
    ensures
        total_u64(s.update(i, v)) == total_u64(s) - s[i] + v,
    decreases s.len(),
{
    let t = s.update(i, v);
    assert(t.len() == s.len());
    if i == s.len() - 1 {
        assert(t.drop_last() =~= s.drop_last());
        assert(t.last() == v);
    } else {
        assert(t.drop_last() =~= s.drop_last().update(i, v));
        lemma_total_update(s.drop_last(), i, v);
        assert(t.last() == s.last());
    }
}

/// A sequence of zeros has total 0.
pub proof fn lemma_total_zero(s: Seq<u64>)
    requires
        forall|i: int| 0 <= i < s.len() ==> s[i] == 0,
    ensures
        total_u64(s) == 0,
    decreases s.len(),
{
    if s.len() > 0 {
        assert(forall|i: int| 0 <= i < s.drop_last().len() ==> s.drop_last()[i] == s[i]);
        lemma_total_zero(s.drop_last());
    }
}

/// Every entry is at most the total.
pub proof fn lemma_elem_le_total(s: Seq<u64>, i: int)
    requires
        0 <= i < s.len(),
    ensures
        s[i] <= total_u64(s),
    decreases s.len(),
{
    assert(forall|j: int| 0 <= j < s.len() ==> (|x: u64| x as int)(s[j]) >= 0);
    if i == s.len() - 1 {
        assert(forall|j: int|
            0 <= j < s.drop_last().len() ==> (|x: u64| x as int)(s.drop_last()[j]) >= 0);
        lemma_sum_by_nonneg(s.drop_last(), |x: u64| x as int);
    } else {
        assert(s.drop_last()[i] == s[i]);
        lemma_elem_le_total(s.drop_last(), i);
    }
}

} // verus!
