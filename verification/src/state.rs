//! The data of an escrow: its record, the holdings that assets sit in, the
//! accounts that a request names, and the errors that a request can end in.

use crate::address::record_seeds;
use crate::address::seeds_of_record;
use crate::address::Address;
use vstd::prelude::*;

verus! {

/// The persisted description of one trade offer. Nothing in it changes
/// between the opening of the escrow and its resolution.
#[derive(Clone, Copy, Debug, PartialEq, Eq)]
pub struct Escrow {
    /// Who opened the escrow; nobody else may cancel it.
    pub maker: Address,
    /// Tells apart the escrows of one maker.
    pub seed: u64,
    /// The asset that the maker deposited.
    pub asset_sent: Address,
    /// The asset that the maker asks for.
    pub asset_wanted: Address,
    /// How much of `asset_wanted` fulfils the trade.
    pub amount_wanted: u64,
    /// The bump seed of the record's own address.
    pub storage_bump: u8,
}

/// An account that holds an amount of one asset for its owner.
#[derive(Clone, Copy, Debug, PartialEq, Eq)]
pub struct Holding {
    /// Where the account is stored.
    pub address: Address,
    /// Who may move the amount.
    pub owner: Address,
    /// The asset that the amount is counted in.
    pub asset: Address,
    /// The amount, in the asset's smallest unit.
    pub amount: u64,
}

/// Why a request was turned down. A request that is turned down changes
/// nothing.
#[derive(Clone, Copy, Debug, PartialEq, Eq, Structural)]
pub enum EscrowError {
    /// A holding has less than the request would move out of it.
    InsufficientFunds,
    /// The escrow to open is open already.
    AlreadyExists,
    /// The escrow to resolve is not open: never opened, or resolved before.
    NotFound,
    /// The caller is not the one who may ask for this.
    Unauthorized,
    /// An account that the request names is not the one expected: a derived
    /// address does not match, or a holding has another owner or asset.
    InvalidAccount,
}

/// The accounts of a request to open an escrow.
#[derive(Clone, Copy, Debug, PartialEq, Eq)]
pub struct Make {
    /// The caller, who becomes the maker.
    pub maker: Address,
    /// The maker's holding of `asset_sent`, which pays the deposit.
    pub maker_sent: Address,
    /// The asset to deposit.
    pub asset_sent: Address,
    /// The asset to ask for.
    pub asset_wanted: Address,
    /// Where the new record is to be stored.
    pub escrow: Address,
    /// Where the new vault is to be stored.
    pub vault: Address,
}

/// The accounts of a request to fulfil an escrow.
#[derive(Clone, Copy, Debug, PartialEq, Eq)]
pub struct Take {
    /// The caller, who pays `amount_wanted` and receives the deposit.
    pub taker: Address,
    /// The taker's holding of `asset_sent`, which receives the deposit.
    pub taker_sent: Address,
    /// The taker's holding of `asset_wanted`, which pays the maker.
    pub taker_wanted: Address,
    /// The maker's holding of `asset_wanted`, which receives the payment.
    pub maker_wanted: Address,
    /// The record of the escrow.
    pub escrow: Address,
    /// The vault of the escrow.
    pub vault: Address,
}

/// The accounts of a request to cancel an escrow.
#[derive(Clone, Copy, Debug, PartialEq, Eq)]
pub struct Refund {
    /// The caller, who has to be the maker.
    pub maker: Address,
    /// The maker's holding of `asset_sent`, which receives the deposit back.
    pub maker_sent: Address,
    /// The record of the escrow.
    pub escrow: Address,
    /// The vault of the escrow.
    pub vault: Address,
}

/// What a holding is, apart from where it is stored.
pub struct HoldingState {
    pub owner: Address,
    pub asset: Address,
    pub amount: nat,
}

/// An open escrow: its record together with its vault. The vault holds
/// `locked` units of the record's `asset_sent`, and the record's address is
/// the only authority over it.
pub struct EscrowState {
    pub record: Escrow,
    pub vault: Address,
    pub locked: nat,
}

/// All that the transitions read and change: the holdings by address, and the
/// open escrows by the address of their record. An escrow that is not in
/// `escrows` has neither record nor vault.
pub struct LedgerState {
    /// The program under which the escrows' addresses are derived.
    pub program: Address,
    pub holdings: Map<Address, HoldingState>,
    pub escrows: Map<Address, EscrowState>,
}

impl Escrow {
    /// The seeds by which the record signs for its vault: the seeds of its
    /// own address, and the bump seed of that address.
    pub fn signer_seeds(&self) -> (seeds: Vec<Vec<u8>>)
        ensures
            seeds.deep_view() == record_seeds(self.maker, self.seed).push(seq![self.storage_bump]),
    {
        let mut seeds = seeds_of_record(&self.maker, self.seed);
        let ghost first = seeds@;
        assert(first.len() == 3) by {
            assert(seeds.deep_view().len() == record_seeds(self.maker, self.seed).len());
        }
        assert forall|i: int| 0 <= i < 3 implies (#[trigger] first[i]).deep_view() == record_seeds(
            self.maker,
            self.seed,
        )[i] by {
            assert(seeds.deep_view()[i] == first[i].deep_view());
        }
        let bump: Vec<u8> = vec![self.storage_bump];
        assert(bump.deep_view() =~= seq![self.storage_bump]);
        seeds.push(bump);
        assert(seeds.deep_view() =~= record_seeds(self.maker, self.seed).push(
            seq![self.storage_bump],
        )) by {
            assert(seeds.deep_view()[3] == bump.deep_view());
        }
        seeds
    }
}

impl Holding {
    /// The holding without its address.
    pub open spec fn state(self) -> HoldingState {
        HoldingState { owner: self.owner, asset: self.asset, amount: self.amount as nat }
    }
}

impl LedgerState {
    /// `account` is a holding of `asset` that belongs to `owner`.
    pub open spec fn holds(self, account: Address, owner: Address, asset: Address) -> bool {
        &&& self.holdings.contains_key(account)
        &&& self.holdings[account].owner == owner
        &&& self.holdings[account].asset == asset
    }

    /// The amount in the holding `account`.
    pub open spec fn balance(self, account: Address) -> nat {
        self.holdings[account].amount
    }

    /// The state with `amount` added to the holding `account`.
    pub open spec fn credit(self, account: Address, amount: nat) -> LedgerState {
        let before = self.holdings[account];
        LedgerState {
            holdings: self.holdings.insert(
                account,
                HoldingState { amount: before.amount + amount, ..before },
            ),
            ..self
        }
    }

    /// The state with `amount` taken out of the holding `account`, which has
    /// at least that much.
    pub open spec fn debit(self, account: Address, amount: nat) -> LedgerState {
        let before = self.holdings[account];
        LedgerState {
            holdings: self.holdings.insert(
                account,
                HoldingState { amount: (before.amount - amount) as nat, ..before },
            ),
            ..self
        }
    }

    /// The escrow of `maker` and `seed` is open.
    pub open spec fn is_open(self, maker: Address, seed: u64) -> bool {
        exists|address: Address|
            self.escrows.contains_key(address) && (#[trigger] self.escrows[address]).record.maker
                == maker && self.escrows[address].record.seed == seed
    }

    /// No two open escrows have the same maker and the same seed.
    pub open spec fn identities_distinct(self) -> bool {
        forall|a: Address, b: Address|
            self.escrows.contains_key(a) && self.escrows.contains_key(b) && (
            #[trigger] self.escrows[a]).record.maker == (#[trigger] self.escrows[b]).record.maker
                && self.escrows[a].record.seed == self.escrows[b].record.seed ==> a == b
    }

    /// The state with a new escrow at `address`.
    pub open spec fn with_escrow(self, address: Address, escrow: EscrowState) -> LedgerState {
        LedgerState { escrows: self.escrows.insert(address, escrow), ..self }
    }

    /// The state without the escrow at `address`: record and vault are gone
    /// together.
    pub open spec fn without_escrow(self, address: Address) -> LedgerState {
        LedgerState { escrows: self.escrows.remove(address), ..self }
    }
}

} // verus!
