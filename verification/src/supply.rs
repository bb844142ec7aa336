//! Sums of amounts, by which the ledger knows that no holding can overflow.

use vstd::prelude::*;

verus! {

/// The sum of the amounts in `amounts`.
pub open spec fn total(amounts: Seq<nat>) -> nat
    decreases amounts.len(),
{
    if amounts.len() == 0 {
        0
    } else {
        total(amounts.drop_last()) + amounts.last()
    }
}

/// One more amount adds to the sum.
pub proof fn lemma_total_push(amounts: Seq<nat>, amount: nat)
    ensures
        total(amounts.push(amount)) == total(amounts) + amount,
{
    assert(amounts.push(amount).drop_last() =~= amounts);
}

/// A changed amount changes the sum by the difference.
pub proof fn lemma_total_update(amounts: Seq<nat>, i: int, amount: nat)
    requires
        0 <= i < amounts.len(),
    ensures
        total(amounts.update(i, amount)) == total(amounts) - amounts[i] + amount,
    decreases amounts.len(),
{
    if i == amounts.len() - 1 {
        assert(amounts.update(i, amount).drop_last() =~= amounts.drop_last());
    } else {
        lemma_total_update(amounts.drop_last(), i, amount);
        assert(amounts.update(i, amount).drop_last() =~= amounts.drop_last().update(i, amount));
    }
}

/// An amount that is taken out leaves the sum.
pub proof fn lemma_total_remove(amounts: Seq<nat>, i: int)
    requires
        0 <= i < amounts.len(),
    ensures
        total(amounts.remove(i)) == total(amounts) - amounts[i],
    decreases amounts.len(),
{
    if i < amounts.len() - 1 {
        lemma_total_remove(amounts.drop_last(), i);
        assert(amounts.remove(i).drop_last() =~= amounts.drop_last().remove(i));
    }
}

/// No amount is more than the sum.
pub proof fn lemma_total_bound(amounts: Seq<nat>, i: int)
    requires
        0 <= i < amounts.len(),
    ensures
        amounts[i] <= total(amounts),
    decreases amounts.len(),
{
    if i < amounts.len() - 1 {
        lemma_total_bound(amounts.drop_last(), i);
    }
}

/// The sum of the first amounts is no more than the sum of all.
pub proof fn lemma_total_prefix(amounts: Seq<nat>, n: int)
    requires
        0 <= n <= amounts.len(),
    ensures
        total(amounts.take(n)) <= total(amounts),
    decreases amounts.len(),
{
    if n == amounts.len() {
        assert(amounts.take(n) =~= amounts);
    } else {
        lemma_total_prefix(amounts.drop_last(), n);
        assert(amounts.drop_last().take(n) =~= amounts.take(n));
    }
}

} // verus!
