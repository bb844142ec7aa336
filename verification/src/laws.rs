//! What holds of the transitions taken together.

use crate::rules::make_effect;
use crate::rules::make_outcome;
use crate::rules::opened_record;
use crate::rules::refund_effect;
use crate::rules::refund_outcome;
use crate::rules::take_effect;
use crate::rules::take_outcome;
use crate::address::record_address;
use crate::address::Address;
use crate::state::EscrowError;
use crate::state::LedgerState;
use crate::state::Make;
use crate::state::Refund;
use crate::state::Take;
use vstd::prelude::*;

verus! {

/// After a `make` that went through, the escrow is open at the address that
/// the request named, its vault holds exactly the deposit, its record holds
/// exactly what the request gave, and the deposit has left the maker's
/// holding. A second `make` of the same maker and seed then fails with
/// `AlreadyExists`, whatever else it asks for.
pub proof fn law_make_opens(
    s: LedgerState,
    a: Make,
    seed: u64,
    deposit: u64,
    receive: u64,
    again: Make,
    deposit_again: u64,
)
    requires
        make_outcome(s, a, seed, deposit) is Ok,
        again.maker == a.maker,
    ensures
        ({
            let opened = make_effect(s, a, seed, deposit, receive);
            let escrow = opened.escrows[a.escrow];
            &&& opened.escrows.contains_key(a.escrow)
            &&& escrow.vault == a.vault
            &&& escrow.locked == deposit
            &&& escrow.record.maker == a.maker
            &&& escrow.record.seed == seed
            &&& escrow.record.asset_sent == a.asset_sent
            &&& escrow.record.asset_wanted == a.asset_wanted
            &&& escrow.record.amount_wanted == receive
            &&& escrow.record == opened_record(
                a,
                seed,
                receive,
                record_address(s.program, a.maker, seed).unwrap().1,
            )
            &&& opened.balance(a.maker_sent) + deposit == s.balance(a.maker_sent)
            &&& make_outcome(opened, again, seed, deposit_again) == Err::<(), EscrowError>(
                EscrowError::AlreadyExists,
            )
        }),
{
}

/// A `take` that goes through after a `make`, where the three holdings that
/// it names are three different ones: the maker's holding of the asset
/// wanted grows by exactly the amount wanted, the taker's holding of the
/// asset sent grows by exactly the deposit, record and vault are gone, and a
/// second `take` or a `refund` of the same escrow fails with `NotFound`.
pub proof fn law_make_then_take(
    s: LedgerState,
    a: Make,
    seed: u64,
    deposit: u64,
    receive: u64,
    t: Take,
    second: Take,
    cancel: Refund,
)
    requires
        make_outcome(s, a, seed, deposit) is Ok,
        t.escrow == a.escrow,
        take_outcome(make_effect(s, a, seed, deposit, receive), t) is Ok,
        t.taker_sent != t.taker_wanted,
        t.taker_sent != t.maker_wanted,
        t.taker_wanted != t.maker_wanted,
        second.escrow == a.escrow,
        cancel.escrow == a.escrow,
    ensures
        ({
            let opened = make_effect(s, a, seed, deposit, receive);
            let taken = take_effect(opened, t);
            &&& opened.holds(t.maker_wanted, a.maker, a.asset_wanted)
            &&& taken.holds(t.maker_wanted, a.maker, a.asset_wanted)
            &&& taken.balance(t.maker_wanted) == opened.balance(t.maker_wanted) + receive
            &&& opened.holds(t.taker_sent, t.taker, a.asset_sent)
            &&& taken.holds(t.taker_sent, t.taker, a.asset_sent)
            &&& taken.balance(t.taker_sent) == opened.balance(t.taker_sent) + deposit
            &&& taken.balance(t.taker_wanted) + receive == opened.balance(t.taker_wanted)
            &&& !taken.escrows.contains_key(a.escrow)
            &&& take_outcome(taken, second) == Err::<(), EscrowError>(EscrowError::NotFound)
            &&& refund_outcome(taken, cancel) == Err::<(), EscrowError>(EscrowError::NotFound)
        }),
{
}

/// A `refund` that goes through after a `make`, into the holding that paid
/// the deposit: every holding has what it had before the `make`, record and
/// vault are gone, and a `take` of the same escrow fails with `NotFound`.
pub proof fn law_make_then_refund(
    s: LedgerState,
    a: Make,
    seed: u64,
    deposit: u64,
    receive: u64,
    r: Refund,
    late: Take,
)
    requires
        make_outcome(s, a, seed, deposit) is Ok,
        r.escrow == a.escrow,
        r.maker_sent == a.maker_sent,
        refund_outcome(make_effect(s, a, seed, deposit, receive), r) is Ok,
        late.escrow == a.escrow,
    ensures
        ({
            let opened = make_effect(s, a, seed, deposit, receive);
            let refunded = refund_effect(opened, r);
            &&& refunded.balance(a.maker_sent) == s.balance(a.maker_sent)
            &&& refunded == s
            &&& !refunded.escrows.contains_key(a.escrow)
            &&& take_outcome(refunded, late) == Err::<(), EscrowError>(EscrowError::NotFound)
        }),
{
    let opened = make_effect(s, a, seed, deposit, receive);
    let refunded = refund_effect(opened, r);
    assert(refunded.holdings =~= s.holdings);
    assert(refunded.escrows =~= s.escrows);
}

/// The maker of an open escrow can always cancel it into the holding that
/// paid the deposit, as long as that holding is there.
pub proof fn law_maker_can_refund(s: LedgerState, a: Make, seed: u64, deposit: u64, receive: u64)
    requires
        make_outcome(s, a, seed, deposit) is Ok,
    ensures
        refund_outcome(
            make_effect(s, a, seed, deposit, receive),
            (Refund { maker: a.maker, maker_sent: a.maker_sent, escrow: a.escrow, vault: a.vault }),
        ) is Ok,
{
}

/// A request on one escrow leaves every other open escrow as it was: its
/// record, its vault, and the amount in the vault.
pub proof fn law_other_escrows_stay(
    s: LedgerState,
    other: Address,
    a: Make,
    seed: u64,
    deposit: u64,
    receive: u64,
    t: Take,
    r: Refund,
)
    requires
        s.escrows.contains_key(other),
    ensures
        make_outcome(s, a, seed, deposit) is Ok ==> {
            let opened = make_effect(s, a, seed, deposit, receive);
            opened.escrows.contains_key(other) && opened.escrows[other] == s.escrows[other]
        },
        take_outcome(s, t) is Ok && t.escrow != other ==> {
            let taken = take_effect(s, t);
            taken.escrows.contains_key(other) && taken.escrows[other] == s.escrows[other]
        },
        refund_outcome(s, r) is Ok && r.escrow != other ==> {
            let refunded = refund_effect(s, r);
            refunded.escrows.contains_key(other) && refunded.escrows[other] == s.escrows[other]
        },
{
}

/// An escrow that was fulfilled or cancelled is gone for good: whatever
/// state it was in, a later `take` or `refund` of it fails with `NotFound`.
pub proof fn law_resolution_is_final(s: LedgerState, t: Take, r: Refund, later: Take, cancel: Refund)
    ensures
        take_outcome(s, t) is Ok && later.escrow == t.escrow ==> take_outcome(
            take_effect(s, t),
            later,
        ) == Err::<(), EscrowError>(EscrowError::NotFound),
        take_outcome(s, t) is Ok && cancel.escrow == t.escrow ==> refund_outcome(
            take_effect(s, t),
            cancel,
        ) == Err::<(), EscrowError>(EscrowError::NotFound),
        refund_outcome(s, r) is Ok && later.escrow == r.escrow ==> take_outcome(
            refund_effect(s, r),
            later,
        ) == Err::<(), EscrowError>(EscrowError::NotFound),
        refund_outcome(s, r) is Ok && cancel.escrow == r.escrow ==> refund_outcome(
            refund_effect(s, r),
            cancel,
        ) == Err::<(), EscrowError>(EscrowError::NotFound),
{
}

/// No transition makes two open escrows share a maker and a seed.
pub proof fn law_identities_stay_distinct(
    s: LedgerState,
    a: Make,
    seed: u64,
    deposit: u64,
    receive: u64,
    t: Take,
    r: Refund,
)
    requires
        s.identities_distinct(),
    ensures
        make_outcome(s, a, seed, deposit) is Ok ==> make_effect(
            s,
            a,
            seed,
            deposit,
            receive,
        ).identities_distinct(),
        take_outcome(s, t) is Ok ==> take_effect(s, t).identities_distinct(),
        refund_outcome(s, r) is Ok ==> refund_effect(s, r).identities_distinct(),
{
}

} // verus!
