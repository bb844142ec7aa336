//! What each of the three transitions decides and does, as functions of the
//! ledger's state.
//!
//! Each transition has an outcome, which says whether the request goes
//! through and with which error it does not, and an effect, the state after a
//! request that went through.

use crate::address::record_address;
use crate::address::vault_address;
use crate::address::Address;
use crate::state::Escrow;
use crate::state::EscrowError;
use crate::state::EscrowState;
use crate::state::LedgerState;
use crate::state::Make;
use crate::state::Refund;
use crate::state::Take;
use vstd::prelude::*;

verus! {

/// The outcome of opening the escrow of `a.maker` and `seed`, where
/// `record_at` and `vault_at` are the derived addresses of the new record and
/// the new vault, each with its bump seed.
///
/// An escrow of the same maker and seed that is open stands in the way of a
/// second one, whatever else the request names, and so does any escrow at the
/// record's address. Without a derived address nothing can be opened. Then
/// the accounts have to be the expected ones, and last the maker has to own
/// the deposit.
pub open spec fn open_outcome(
    s: LedgerState,
    a: Make,
    seed: u64,
    deposit: u64,
    record_at: Option<(Address, u8)>,
    vault_at: Option<(Address, u8)>,
) -> Result<(), EscrowError> {
    if s.is_open(a.maker, seed) {
        Err(EscrowError::AlreadyExists)
    } else if record_at is None {
        Err(EscrowError::InvalidAccount)
    } else if s.escrows.contains_key(record_at.unwrap().0) {
        Err(EscrowError::AlreadyExists)
    } else if vault_at is None || a.escrow != record_at.unwrap().0 || a.vault
        != vault_at.unwrap().0 || !s.holds(a.maker_sent, a.maker, a.asset_sent) {
        Err(EscrowError::InvalidAccount)
    } else if s.balance(a.maker_sent) < deposit {
        Err(EscrowError::InsufficientFunds)
    } else {
        Ok(())
    }
}

/// The record that an opening writes.
pub open spec fn opened_record(a: Make, seed: u64, receive: u64, bump: u8) -> Escrow {
    Escrow {
        maker: a.maker,
        seed,
        asset_sent: a.asset_sent,
        asset_wanted: a.asset_wanted,
        amount_wanted: receive,
        storage_bump: bump,
    }
}

/// The state after an opening that went through: the deposit has left the
/// maker's holding and sits in the vault of the new escrow.
pub open spec fn open_effect(
    s: LedgerState,
    a: Make,
    seed: u64,
    deposit: u64,
    receive: u64,
    record_at: Option<(Address, u8)>,
) -> LedgerState {
    s.debit(a.maker_sent, deposit as nat).with_escrow(
        a.escrow,
        EscrowState {
            record: opened_record(a, seed, receive, record_at.unwrap().1),
            vault: a.vault,
            locked: deposit as nat,
        },
    )
}

/// Where the vault of the escrow of `maker` and `seed` is stored: at the
/// address derived from the address of its record.
pub open spec fn vault_of(program: Address, maker: Address, seed: u64) -> Option<(Address, u8)> {
    match record_address(program, maker, seed) {
        Some((record, _)) => vault_address(program, record),
        None => None,
    }
}

/// The outcome of `make`: that of an opening at the addresses derived from
/// the maker and the seed.
pub open spec fn make_outcome(s: LedgerState, a: Make, seed: u64, deposit: u64) -> Result<
    (),
    EscrowError,
> {
    open_outcome(
        s,
        a,
        seed,
        deposit,
        record_address(s.program, a.maker, seed),
        vault_of(s.program, a.maker, seed),
    )
}

/// The state after a `make` that went through.
pub open spec fn make_effect(s: LedgerState, a: Make, seed: u64, deposit: u64, receive: u64) -> LedgerState {
    open_effect(s, a, seed, deposit, receive, record_address(s.program, a.maker, seed))
}

/// The accounts of a fulfilment are the ones that the escrow `e` expects.
pub open spec fn take_accounts_match(s: LedgerState, a: Take, e: EscrowState) -> bool {
    &&& a.vault == e.vault
    &&& s.holds(a.taker_sent, a.taker, e.record.asset_sent)
    &&& s.holds(a.taker_wanted, a.taker, e.record.asset_wanted)
    &&& s.holds(a.maker_wanted, e.record.maker, e.record.asset_wanted)
}

/// The outcome of fulfilling the escrow at `a.escrow`. The taker receives
/// the deposit first and pays after, so a taker whose two holdings are one
/// and the same may pay out of the deposit.
pub open spec fn take_outcome(s: LedgerState, a: Take) -> Result<(), EscrowError> {
    if !s.escrows.contains_key(a.escrow) {
        Err(EscrowError::NotFound)
    } else {
        let e = s.escrows[a.escrow];
        if !take_accounts_match(s, a, e) {
            Err(EscrowError::InvalidAccount)
        } else if s.credit(a.taker_sent, e.locked).balance(a.taker_wanted)
            < e.record.amount_wanted {
            Err(EscrowError::InsufficientFunds)
        } else {
            Ok(())
        }
    }
}

/// The state after a fulfilment that went through: the whole deposit went to
/// the taker, `amount_wanted` went from the taker to the maker, and record
/// and vault are gone.
pub open spec fn take_effect(s: LedgerState, a: Take) -> LedgerState {
    let e = s.escrows[a.escrow];
    let wanted = e.record.amount_wanted as nat;
    s.credit(a.taker_sent, e.locked).debit(a.taker_wanted, wanted).credit(
        a.maker_wanted,
        wanted,
    ).without_escrow(a.escrow)
}

/// The outcome of cancelling the escrow at `a.escrow`. Only the maker may
/// cancel, whatever else the request names.
pub open spec fn refund_outcome(s: LedgerState, a: Refund) -> Result<(), EscrowError> {
    if !s.escrows.contains_key(a.escrow) {
        Err(EscrowError::NotFound)
    } else {
        let e = s.escrows[a.escrow];
        if a.maker != e.record.maker {
            Err(EscrowError::Unauthorized)
        } else if a.vault != e.vault || !s.holds(a.maker_sent, a.maker, e.record.asset_sent) {
            Err(EscrowError::InvalidAccount)
        } else {
            Ok(())
        }
    }
}

/// The state after a cancellation that went through: the whole deposit is
/// back with the maker, and record and vault are gone.
pub open spec fn refund_effect(s: LedgerState, a: Refund) -> LedgerState {
    s.credit(a.maker_sent, s.escrows[a.escrow].locked).without_escrow(a.escrow)
}

} // verus!
