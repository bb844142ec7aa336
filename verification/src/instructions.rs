//! The three requests: to open an escrow, to fulfil it, and to cancel it.
//!
//! Each request goes through as a whole or changes nothing, and none of them
//! changes how many units of an asset there are.

use crate::address::find_record_address;
use crate::address::find_vault_address;
use crate::address::Address;
use crate::ledger::Ledger;
use crate::rules::make_effect;
use crate::rules::make_outcome;
use crate::rules::open_effect;
use crate::rules::open_outcome;
use crate::rules::refund_effect;
use crate::rules::refund_outcome;
use crate::rules::take_accounts_match;
use crate::rules::take_effect;
use crate::rules::take_outcome;
use crate::state::Escrow;
use crate::state::EscrowError;
use crate::state::Make;
use crate::state::Refund;
use crate::state::Take;
use vstd::prelude::*;

verus! {

/// Opens an escrow at given addresses: `record_at` and `vault_at` are the
/// derived addresses of the new record and of the new vault, each with its
/// bump seed, or `None` where there is no such address.
///
/// Where the request goes through, `deposit` units leave the maker's holding
/// for the new vault, and the new record holds the maker, the seed, the two
/// assets, `receive` as the amount wanted, and the bump seed of its address.
pub fn open(
    ledger: &mut Ledger,
    accounts: &Make,
    seed: u64,
    deposit: u64,
    receive: u64,
    record_at: Option<(Address, u8)>,
    vault_at: Option<(Address, u8)>,
) -> (result: Result<(), EscrowError>)
    requires
        old(ledger).wf(),
    ensures
        final(ledger).wf(),
        result == open_outcome(old(ledger)@, *accounts, seed, deposit, record_at, vault_at),
        result is Ok ==> final(ledger)@ == open_effect(
            old(ledger)@,
            *accounts,
            seed,
            deposit,
            receive,
            record_at,
        ),
        result is Err ==> final(ledger)@ == old(ledger)@,
        forall|asset: Address| #[trigger] final(ledger).supply(asset) == old(ledger).supply(asset),
{
    if ledger.is_open(&accounts.maker, seed) {
        return Err(EscrowError::AlreadyExists);
    }
    let (record, bump) = match record_at {
        Some(found) => found,
        None => {
            return Err(EscrowError::InvalidAccount);
        },
    };
    if ledger.escrow(&record).is_some() {
        return Err(EscrowError::AlreadyExists);
    }
    let vault = match vault_at {
        Some(found) => found.0,
        None => {
            return Err(EscrowError::InvalidAccount);
        },
    };
    if !(accounts.escrow == record) || !(accounts.vault == vault) {
        return Err(EscrowError::InvalidAccount);
    }
    let source = match ledger.holding(&accounts.maker_sent) {
        Some(found) => found,
        None => {
            return Err(EscrowError::InvalidAccount);
        },
    };
    if !(source.owner == accounts.maker) || !(source.asset == accounts.asset_sent) {
        return Err(EscrowError::InvalidAccount);
    }
    if source.amount < deposit {
        return Err(EscrowError::InsufficientFunds);
    }
    ledger.debit(&accounts.maker_sent, deposit);
    ledger.insert_escrow(
        record,
        Escrow {
            maker: accounts.maker,
            seed,
            asset_sent: accounts.asset_sent,
            asset_wanted: accounts.asset_wanted,
            amount_wanted: receive,
            storage_bump: bump,
        },
        vault,
        deposit,
    );
    Ok(())
}

/// Opens the escrow of the caller `accounts.maker` and `seed`: locks
/// `deposit` units of `accounts.asset_sent` in a new vault and asks for
/// `receive` units of `accounts.asset_wanted`. Record and vault are stored at
/// the addresses derived from the maker and the seed.
pub fn make(ledger: &mut Ledger, accounts: &Make, seed: u64, deposit: u64, receive: u64) -> (result:
    Result<(), EscrowError>)
    requires
        old(ledger).wf(),
    ensures
        final(ledger).wf(),
        result == make_outcome(old(ledger)@, *accounts, seed, deposit),
        result is Ok ==> final(ledger)@ == make_effect(
            old(ledger)@,
            *accounts,
            seed,
            deposit,
            receive,
        ),
        result is Err ==> final(ledger)@ == old(ledger)@,
        forall|asset: Address| #[trigger] final(ledger).supply(asset) == old(ledger).supply(asset),
{
    let program = ledger.program();
    let record_at = find_record_address(&program, &accounts.maker, seed);
    let vault_at = match record_at {
        Some(found) => find_vault_address(&program, &found.0),
        None => None,
    };
    open(ledger, accounts, seed, deposit, receive, record_at, vault_at)
}

/// Fulfils the escrow at `accounts.escrow` for the caller `accounts.taker`:
/// the whole deposit goes to the taker, the amount wanted goes from the taker
/// to the maker, and record and vault are gone.
pub fn take(ledger: &mut Ledger, accounts: &Take) -> (result: Result<(), EscrowError>)
    requires
        old(ledger).wf(),
    ensures
        final(ledger).wf(),
        result == take_outcome(old(ledger)@, *accounts),
        result is Ok ==> final(ledger)@ == take_effect(old(ledger)@, *accounts),
        result is Err ==> final(ledger)@ == old(ledger)@,
        old(ledger)@.escrows.contains_key(accounts.escrow) && take_accounts_match(
            old(ledger)@,
            *accounts,
            old(ledger)@.escrows[accounts.escrow],
        ) && accounts.taker_sent != accounts.taker_wanted && old(ledger)@.balance(
            accounts.taker_wanted,
        ) < old(ledger)@.escrows[accounts.escrow].record.amount_wanted ==> result == Err::<
            (),
            EscrowError,
        >(EscrowError::InsufficientFunds) && final(ledger)@ == old(ledger)@,
        forall|asset: Address| #[trigger] final(ledger).supply(asset) == old(ledger).supply(asset),
{
    let record = match ledger.escrow(&accounts.escrow) {
        Some(found) => found,
        None => {
            return Err(EscrowError::NotFound);
        },
    };
    let vault = match ledger.vault(&accounts.escrow) {
        Some(found) => found,
        None => {
            return Err(EscrowError::NotFound);
        },
    };
    if !(accounts.vault == vault.address) {
        return Err(EscrowError::InvalidAccount);
    }
    let receives = match ledger.holding(&accounts.taker_sent) {
        Some(found) => found,
        None => {
            return Err(EscrowError::InvalidAccount);
        },
    };
    if !(receives.owner == accounts.taker) || !(receives.asset == record.asset_sent) {
        return Err(EscrowError::InvalidAccount);
    }
    let pays = match ledger.holding(&accounts.taker_wanted) {
        Some(found) => found,
        None => {
            return Err(EscrowError::InvalidAccount);
        },
    };
    if !(pays.owner == accounts.taker) || !(pays.asset == record.asset_wanted) {
        return Err(EscrowError::InvalidAccount);
    }
    let paid = match ledger.holding(&accounts.maker_wanted) {
        Some(found) => found,
        None => {
            return Err(EscrowError::InvalidAccount);
        },
    };
    if !(paid.owner == record.maker) || !(paid.asset == record.asset_wanted) {
        return Err(EscrowError::InvalidAccount);
    }
    proof {
        ledger.lemma_custody_bound(accounts.taker_sent, accounts.escrow);
    }
    let available = if accounts.taker_sent == accounts.taker_wanted {
        pays.amount + vault.amount
    } else {
        pays.amount
    };
    if available < record.amount_wanted {
        return Err(EscrowError::InsufficientFunds);
    }
    ledger.remove_escrow(&accounts.escrow);
    ledger.credit(&accounts.taker_sent, vault.amount);
    ledger.debit(&accounts.taker_wanted, record.amount_wanted);
    ledger.credit(&accounts.maker_wanted, record.amount_wanted);
    Ok(())
}

/// Cancels the escrow at `accounts.escrow` for the caller `accounts.maker`:
/// the whole deposit goes back to the maker, and record and vault are gone.
pub fn refund(ledger: &mut Ledger, accounts: &Refund) -> (result: Result<(), EscrowError>)
    requires
        old(ledger).wf(),
    ensures
        final(ledger).wf(),
        result == refund_outcome(old(ledger)@, *accounts),
        result is Ok ==> final(ledger)@ == refund_effect(old(ledger)@, *accounts),
        result is Err ==> final(ledger)@ == old(ledger)@,
        old(ledger)@.escrows.contains_key(accounts.escrow) && accounts.maker != old(
            ledger,
        )@.escrows[accounts.escrow].record.maker ==> result == Err::<(), EscrowError>(
            EscrowError::Unauthorized,
        ) && final(ledger)@ == old(ledger)@,
        forall|asset: Address| #[trigger] final(ledger).supply(asset) == old(ledger).supply(asset),
{
    let record = match ledger.escrow(&accounts.escrow) {
        Some(found) => found,
        None => {
            return Err(EscrowError::NotFound);
        },
    };
    let vault = match ledger.vault(&accounts.escrow) {
        Some(found) => found,
        None => {
            return Err(EscrowError::NotFound);
        },
    };
    if !(accounts.maker == record.maker) {
        return Err(EscrowError::Unauthorized);
    }
    if !(accounts.vault == vault.address) {
        return Err(EscrowError::InvalidAccount);
    }
    let receives = match ledger.holding(&accounts.maker_sent) {
        Some(found) => found,
        None => {
            return Err(EscrowError::InvalidAccount);
        },
    };
    if !(receives.owner == accounts.maker) || !(receives.asset == record.asset_sent) {
        return Err(EscrowError::InvalidAccount);
    }
    ledger.remove_escrow(&accounts.escrow);
    ledger.credit(&accounts.maker_sent, vault.amount);
    Ok(())
}

} // verus!
