//! Sums, greatest and least values of runs of numbers, as the results of
//! dice and trays are made of them.

use vstd::prelude::*;

verus! {
/// The sum of the numbers.
pub open spec fn total(numbers: Seq<nat>) -> nat
    decreases numbers.len(),
{
    if numbers.len() == 0 {
        0
    } else {
        total(numbers.drop_last()) + numbers.last()
    }
}

/// The greatest of the numbers; `0` where there are none.
pub open spec fn greatest(numbers: Seq<nat>) -> nat
    decreases numbers.len(),
{
    if numbers.len() == 0 {
        0
    } else if numbers.len() == 1 {
        numbers.last()
    } else {
        let rest = greatest(numbers.drop_last());
        if numbers.last() > rest {
            numbers.last()
        } else {
            rest
        }
    }
}

/// The least of the numbers; `0` where there are none.
pub open spec fn least(numbers: Seq<nat>) -> nat
    decreases numbers.len(),
{
    if numbers.len() == 0 {
        0
    } else if numbers.len() == 1 {
        numbers.last()
    } else {
        let rest = least(numbers.drop_last());
        if numbers.last() < rest {
            numbers.last()
        } else {
            rest
        }
    }
}

/// A sum of naturals is no less than the sum of any of its prefixes.
pub proof fn lemma_total_prefix(numbers: Seq<nat>, n: int)
    requires
        0 <= n <= numbers.len(),
    ensures
        total(numbers.take(n)) <= total(numbers),
    decreases numbers.len(),
{
    if n == numbers.len() {
        assert(numbers.take(n) =~= numbers);
    } else {
        assert(numbers.take(n) =~= numbers.drop_last().take(n));
        lemma_total_prefix(numbers.drop_last(), n);
    }
}

/// The greatest number is one of the numbers, and none exceeds it.
pub proof fn lemma_greatest(numbers: Seq<nat>)
    requires
        numbers.len() > 0,
    ensures
        numbers.contains(greatest(numbers)),
        forall|i: int| 0 <= i < numbers.len() ==> #[trigger] numbers[i] <= greatest(numbers),
    decreases numbers.len(),
{
    if numbers.len() > 1 {
        let rest = numbers.drop_last();
        lemma_greatest(rest);
        assert forall|i: int| 0 <= i < numbers.len() implies #[trigger] numbers[i] <= greatest(
            numbers,
        ) by {
            if i < rest.len() {
                assert(numbers[i] == rest[i]);
            }
        }
    }
}

/// The least number is one of the numbers, and none is below it.
pub proof fn lemma_least(numbers: Seq<nat>)
    requires
        numbers.len() > 0,
    ensures
        numbers.contains(least(numbers)),
        forall|i: int| 0 <= i < numbers.len() ==> #[trigger] numbers[i] >= least(numbers),
    decreases numbers.len(),
{
    if numbers.len() > 1 {
        let rest = numbers.drop_last();
        lemma_least(rest);
        assert forall|i: int| 0 <= i < numbers.len() implies #[trigger] numbers[i] >= least(
            numbers,
        ) by {
            if i < rest.len() {
                assert(numbers[i] == rest[i]);
            }
        }
    }
}

} // verus!
