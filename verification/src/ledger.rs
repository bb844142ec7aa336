//! The ledger: the holdings and the open escrows, kept so that an address
//! names one holding and one escrow at most, and that no asset has more units
//! in all than a holding can count.

use crate::address::Address;
use crate::state::Escrow;
use crate::state::EscrowState;
use crate::state::Holding;
use crate::state::HoldingState;
use crate::state::LedgerState;
use crate::supply::lemma_total_bound;
use crate::supply::lemma_total_prefix;
use crate::supply::lemma_total_push;
use crate::supply::lemma_total_remove;
use crate::supply::lemma_total_update;
use crate::supply::total;
use vstd::prelude::*;

verus! {

/// An open escrow as the ledger keeps it: the record at `address`, and the
/// vault at `vault` with `locked` units of the record's `asset_sent`.
struct Entry {
    address: Address,
    record: Escrow,
    vault: Address,
    locked: u64,
}

impl Entry {
    /// The escrow without its address.
    spec fn state(self) -> EscrowState {
        EscrowState { record: self.record, vault: self.vault, locked: self.locked as nat }
    }
}

/// The holdings and the open escrows of one program.
pub struct Ledger {
    program: Address,
    holdings: Vec<Holding>,
    escrows: Vec<Entry>,
}

/// There is a holding at `a`.
spec fn has_holding(hs: Seq<Holding>, a: Address) -> bool {
    exists|i: int| 0 <= i < hs.len() && hs[i].address == a
}

/// The place of the holding at `a`.
spec fn holding_at(hs: Seq<Holding>, a: Address) -> int {
    choose|i: int| 0 <= i < hs.len() && hs[i].address == a
}

/// No two holdings share an address.
spec fn distinct_holdings(hs: Seq<Holding>) -> bool {
    forall|i: int, j: int|
        0 <= i < hs.len() && 0 <= j < hs.len() && i != j ==> hs[i].address != hs[j].address
}

/// The holdings by their addresses.
spec fn holdings_map(hs: Seq<Holding>) -> Map<Address, HoldingState> {
    Map::new(|a: Address| has_holding(hs, a), |a: Address| hs[holding_at(hs, a)].state())
}

/// There is an open escrow at `a`.
spec fn has_entry(es: Seq<Entry>, a: Address) -> bool {
    exists|i: int| 0 <= i < es.len() && es[i].address == a
}

/// The place of the open escrow at `a`.
spec fn entry_at(es: Seq<Entry>, a: Address) -> int {
    choose|i: int| 0 <= i < es.len() && es[i].address == a
}

/// No two open escrows share an address.
spec fn distinct_entries(es: Seq<Entry>) -> bool {
    forall|i: int, j: int|
        0 <= i < es.len() && 0 <= j < es.len() && i != j ==> es[i].address != es[j].address
}

/// The open escrows by the addresses of their records.
spec fn entries_map(es: Seq<Entry>) -> Map<Address, EscrowState> {
    Map::new(|a: Address| has_entry(es, a), |a: Address| es[entry_at(es, a)].state())
}

/// What each holding counts of `asset`.
spec fn held(hs: Seq<Holding>, asset: Address) -> Seq<nat> {
    Seq::new(
        hs.len(),
        |i: int|
            if hs[i].asset == asset {
                hs[i].amount as nat
            } else {
                0
            },
    )
}

/// What each vault counts of `asset`.
spec fn in_vaults(es: Seq<Entry>, asset: Address) -> Seq<nat> {
    Seq::new(
        es.len(),
        |i: int|
            if es[i].record.asset_sent == asset {
                es[i].locked as nat
            } else {
                0
            },
    )
}

proof fn lemma_entry_at(es: Seq<Entry>, i: int)
    requires
        distinct_entries(es),
        0 <= i < es.len(),
    ensures
        has_entry(es, es[i].address),
        entry_at(es, es[i].address) == i,
{
}

impl View for Ledger {
    type V = LedgerState;

    closed spec fn view(&self) -> LedgerState {
        LedgerState {
            program: self.program,
            holdings: holdings_map(self.holdings@),
            escrows: entries_map(self.escrows@),
        }
    }
}

impl Ledger {
    /// No two holdings share an address, and no two escrows.
    pub closed spec fn inv(&self) -> bool {
        distinct_holdings(self.holdings@) && distinct_entries(self.escrows@)
    }

    /// How many units of `asset` there are in all, in holdings and in vaults.
    pub closed spec fn supply(&self, asset: Address) -> nat {
        total(held(self.holdings@, asset)) + total(in_vaults(self.escrows@, asset))
    }

    /// The ledger is in order: addresses are not shared, no two open escrows
    /// have the same maker and seed, and the supply of each asset is an
    /// amount that a holding can count.
    pub open spec fn wf(&self) -> bool {
        &&& self.inv()
        &&& self@.identities_distinct()
        &&& forall|asset: Address| #[trigger] self.supply(asset) <= u64::MAX
    }

    /// A ledger without holdings and without escrows, for the escrows whose
    /// addresses are derived under `program`.
    pub fn new(program: Address) -> (ledger: Ledger)
        ensures
            ledger.wf(),
            ledger@ == (LedgerState { program, holdings: Map::empty(), escrows: Map::empty() }),
            forall|asset: Address| #[trigger] ledger.supply(asset) == 0,
    {
        let ledger = Ledger { program, holdings: Vec::new(), escrows: Vec::new() };
        assert(ledger@.holdings =~= Map::empty());
        assert(ledger@.escrows =~= Map::empty());
        ledger
    }

    /// The program under which the escrows' addresses are derived.
    pub fn program(&self) -> (program: Address)
        ensures
            program == self@.program,
    {
        self.program
    }

    /// Where among the holdings the one at `account` is.
    fn find_holding(&self, account: &Address) -> (found: Option<usize>)
        requires
            self.inv(),
        ensures
            found is None <==> !self@.holdings.contains_key(*account),
            found matches Some(i) ==> i < self.holdings.len() && self.holdings@[i as int].address
                == *account && self@.holdings[*account] == self.holdings@[i as int].state(),
    {
        let mut i: usize = 0;
        while i < self.holdings.len()
            invariant
                self.inv(),
                i <= self.holdings.len(),
                forall|k: int| 0 <= k < i ==> self.holdings@[k].address != *account,
            decreases self.holdings.len() - i,
        {
            if self.holdings[i].address == *account {
                return Some(i);
            }
            i += 1;
        }
        None
    }

    /// Where among the open escrows the one at `address` is.
    fn find_escrow(&self, address: &Address) -> (found: Option<usize>)
        requires
            self.inv(),
        ensures
            found is None <==> !self@.escrows.contains_key(*address),
            found matches Some(i) ==> i < self.escrows.len() && self.escrows@[i as int].address
                == *address && self@.escrows[*address] == self.escrows@[i as int].state(),
    {
        let mut i: usize = 0;
        while i < self.escrows.len()
            invariant
                self.inv(),
                i <= self.escrows.len(),
                forall|k: int| 0 <= k < i ==> self.escrows@[k].address != *address,
            decreases self.escrows.len() - i,
        {
            if self.escrows[i].address == *address {
                return Some(i);
            }
            i += 1;
        }
        None
    }

    /// The holding at `account`, if there is one.
    pub fn holding(&self, account: &Address) -> (found: Option<Holding>)
        requires
            self.wf(),
        ensures
            found is Some <==> self@.holdings.contains_key(*account),
            found matches Some(h) ==> h.address == *account && h.state()
                == self@.holdings[*account],
    {
        match self.find_holding(account) {
            Some(i) => Some(self.holdings[i]),
            None => None,
        }
    }

    /// Says whether the escrow of `maker` and `seed` is open.
    pub fn is_open(&self, maker: &Address, seed: u64) -> (open: bool)
        requires
            self.wf(),
        ensures
            open == self@.is_open(*maker, seed),
    {
        let mut i: usize = 0;
        while i < self.escrows.len()
            invariant
                self.inv(),
                i <= self.escrows.len(),
                forall|k: int|
                    0 <= k < i ==> !(self.escrows@[k].record.maker == *maker
                        && self.escrows@[k].record.seed == seed),
            decreases self.escrows.len() - i,
        {
            if self.escrows[i].record.maker == *maker && self.escrows[i].record.seed == seed {
                proof {
                    let found = self.escrows@[i as int];
                    lemma_entry_at(self.escrows@, i as int);
                    assert(self@.escrows.contains_key(found.address));
                    assert(self@.escrows[found.address] == found.state());
                }
                return true;
            }
            i += 1;
        }
        proof {
            assert forall|address: Address| self@.escrows.contains_key(address) implies !((
            #[trigger] self@.escrows[address]).record.maker == *maker
                && self@.escrows[address].record.seed == seed) by {
                let k = entry_at(self.escrows@, address);
                assert(self.escrows@[k].address == address);
            }
        }
        false
    }

    /// The record of the escrow that is open at `address`, if there is one.
    pub fn escrow(&self, address: &Address) -> (found: Option<Escrow>)
        requires
            self.wf(),
        ensures
            found is Some <==> self@.escrows.contains_key(*address),
            found matches Some(record) ==> record == self@.escrows[*address].record,
    {
        match self.find_escrow(address) {
            Some(i) => Some(self.escrows[i].record),
            None => None,
        }
    }

    /// The vault of the escrow that is open at `address`, if there is one: a
    /// holding of the deposited asset that the escrow's record owns.
    pub fn vault(&self, address: &Address) -> (found: Option<Holding>)
        requires
            self.wf(),
        ensures
            found is Some <==> self@.escrows.contains_key(*address),
            found matches Some(vault) ==> {
                let escrow = self@.escrows[*address];
                &&& vault.address == escrow.vault
                &&& vault.owner == *address
                &&& vault.asset == escrow.record.asset_sent
                &&& vault.amount == escrow.locked
            },
    {
        match self.find_escrow(address) {
            Some(i) => {
                let entry = &self.escrows[i];
                Some(
                    Holding {
                        address: entry.vault,
                        owner: entry.address,
                        asset: entry.record.asset_sent,
                        amount: entry.locked,
                    },
                )
            },
            None => None,
        }
    }

    /// How many units of `asset` there are in all.
    pub fn supply_of(&self, asset: &Address) -> (units: u64)
        requires
            self.wf(),
        ensures
            units == self.supply(*asset),
    {
        let ghost in_holdings = held(self.holdings@, *asset);
        let ghost vaults = in_vaults(self.escrows@, *asset);
        assert(self.supply(*asset) <= u64::MAX);
        let mut units: u64 = 0;
        let mut i: usize = 0;
        while i < self.holdings.len()
            invariant
                i <= self.holdings.len(),
                in_holdings == held(self.holdings@, *asset),
                units == total(in_holdings.take(i as int)),
                total(in_holdings) <= u64::MAX,
            decreases self.holdings.len() - i,
        {
            proof {
                lemma_total_prefix(in_holdings, i + 1);
                assert(in_holdings.take(i + 1).drop_last() =~= in_holdings.take(i as int));
            }
            if self.holdings[i].asset == *asset {
                units = units + self.holdings[i].amount;
            }
            i += 1;
        }
        assert(in_holdings.take(i as int) =~= in_holdings);
        let mut j: usize = 0;
        while j < self.escrows.len()
            invariant
                j <= self.escrows.len(),
                vaults == in_vaults(self.escrows@, *asset),
                units == total(in_holdings) + total(vaults.take(j as int)),
                total(in_holdings) + total(vaults) <= u64::MAX,
            decreases self.escrows.len() - j,
        {
            proof {
                lemma_total_prefix(vaults, j + 1);
                assert(vaults.take(j + 1).drop_last() =~= vaults.take(j as int));
            }
            if self.escrows[j].record.asset_sent == *asset {
                units = units + self.escrows[j].locked;
            }
            j += 1;
        }
        assert(vaults.take(j as int) =~= vaults);
        units
    }

    /// A holding counts no more than the supply of its asset.
    proof fn lemma_balance_bound(&self, account: Address)
        requires
            self.inv(),
            self@.holdings.contains_key(account),
        ensures
            self@.holdings[account].amount <= self.supply(self@.holdings[account].asset),
    {
        let i = holding_at(self.holdings@, account);
        lemma_total_bound(held(self.holdings@, self.holdings@[i].asset), i);
    }

    /// A holding and a vault of the same asset count no more between them
    /// than the supply of that asset.
    pub(crate) proof fn lemma_custody_bound(&self, account: Address, escrow: Address)
        requires
            self.inv(),
            self@.holdings.contains_key(account),
            self@.escrows.contains_key(escrow),
            self@.holdings[account].asset == self@.escrows[escrow].record.asset_sent,
        ensures
            self@.holdings[account].amount + self@.escrows[escrow].locked <= self.supply(
                self@.holdings[account].asset,
            ),
    {
        let i = holding_at(self.holdings@, account);
        let j = entry_at(self.escrows@, escrow);
        let asset = self.holdings@[i].asset;
        lemma_total_bound(held(self.holdings@, asset), i);
        lemma_total_bound(in_vaults(self.escrows@, asset), j);
    }

    /// Writes `amount` into the holding at index `i`.
    fn set_amount(&mut self, i: usize, amount: u64)
        requires
            old(self).inv(),
            i < old(self).holdings.len(),
        ensures
            final(self).inv(),
            final(self).holdings@ == old(self).holdings@.update(
                i as int,
                (Holding { amount, ..old(self).holdings@[i as int] }),
            ),
            final(self)@ == (LedgerState {
                holdings: old(self)@.holdings.insert(
                    old(self).holdings@[i as int].address,
                    (HoldingState { amount: amount as nat, ..old(self).holdings@[i as int].state() }),
                ),
                ..old(self)@
            }),
            forall|asset: Address|
                #[trigger] final(self).supply(asset) == old(self).supply(asset) + (if asset == old(
                    self,
                ).holdings@[i as int].asset {
                    amount - old(self).holdings@[i as int].amount
                } else {
                    0
                }),
    {
        let before = self.holdings[i];
        let after = Holding { amount, ..before };
        self.holdings.set(i, after);
        proof {
            let hs = old(self).holdings@;
            let us = self.holdings@;
            assert forall|a: Address| has_holding(us, a) == has_holding(hs, a) by {
                if has_holding(hs, a) {
                    let k = holding_at(hs, a);
                    assert(us[k].address == a);
                }
            }
            assert(holdings_map(us) =~= holdings_map(hs).insert(before.address, after.state()));
            assert forall|asset: Address|
                #[trigger] self.supply(asset) == old(self).supply(asset) + (if asset
                    == before.asset {
                    amount - before.amount
                } else {
                    0
                }) by {
                let now: nat = if after.asset == asset {
                    amount as nat
                } else {
                    0
                };
                lemma_total_update(held(hs, asset), i as int, now);
                assert(held(us, asset) =~= held(hs, asset).update(i as int, now));
            }
        }
    }

    /// Adds `amount` to the holding at `account`.
    pub(crate) fn credit(&mut self, account: &Address, amount: u64)
        requires
            old(self).inv(),
            old(self)@.holdings.contains_key(*account),
            old(self).supply(old(self)@.holdings[*account].asset) + amount <= u64::MAX,
        ensures
            final(self).inv(),
            final(self)@ == old(self)@.credit(*account, amount as nat),
            forall|asset: Address|
                #[trigger] final(self).supply(asset) == old(self).supply(asset) + (if asset == old(
                    self,
                )@.holdings[*account].asset {
                    amount as nat
                } else {
                    0
                }),
    {
        proof {
            self.lemma_balance_bound(*account);
        }
        match self.find_holding(account) {
            Some(i) => {
                let sum = self.holdings[i].amount + amount;
                self.set_amount(i, sum);
            },
            None => {},
        }
    }

    /// Takes `amount` out of the holding at `account`.
    pub(crate) fn debit(&mut self, account: &Address, amount: u64)
        requires
            old(self).inv(),
            old(self)@.holdings.contains_key(*account),
            amount <= old(self)@.holdings[*account].amount,
        ensures
            final(self).inv(),
            final(self)@ == old(self)@.debit(*account, amount as nat),
            forall|asset: Address|
                #[trigger] final(self).supply(asset) == old(self).supply(asset) - (if asset == old(
                    self,
                )@.holdings[*account].asset {
                    amount as nat
                } else {
                    0
                }),
    {
        match self.find_holding(account) {
            Some(i) => {
                let rest = self.holdings[i].amount - amount;
                self.set_amount(i, rest);
            },
            None => {},
        }
    }

    /// Opens a holding, where its address is free and the supply of its
    /// asset stays an amount that a holding can count. Says whether it did.
    pub fn create_holding(&mut self, holding: Holding) -> (created: bool)
        requires
            old(self).wf(),
        ensures
            final(self).wf(),
            created == (!old(self)@.holdings.contains_key(holding.address) && old(self).supply(
                holding.asset,
            ) + holding.amount <= u64::MAX),
            created ==> final(self)@ == (LedgerState {
                holdings: old(self)@.holdings.insert(holding.address, holding.state()),
                ..old(self)@
            }),
            !created ==> final(self)@ == old(self)@,
            forall|asset: Address|
                #[trigger] final(self).supply(asset) == old(self).supply(asset) + (if created
                    && asset == holding.asset {
                    holding.amount as nat
                } else {
                    0
                }),
    {
        if self.find_holding(&holding.address).is_some() {
            return false;
        }
        let units = self.supply_of(&holding.asset);
        if holding.amount > u64::MAX - units {
            return false;
        }
        self.holdings.push(holding);
        proof {
            let hs = old(self).holdings@;
            let us = self.holdings@;
            assert forall|a: Address| has_holding(us, a) == (has_holding(hs, a) || a
                == holding.address) by {
                if has_holding(hs, a) {
                    let k = holding_at(hs, a);
                    assert(us[k].address == a);
                }
                if a == holding.address {
                    assert(us[hs.len() as int].address == a);
                }
            }
            assert(holdings_map(us) =~= holdings_map(hs).insert(holding.address, holding.state()));
            assert forall|asset: Address|
                #[trigger] self.supply(asset) == old(self).supply(asset) + (if asset
                    == holding.asset {
                    holding.amount as nat
                } else {
                    0
                }) by {
                let now: nat = if holding.asset == asset {
                    holding.amount as nat
                } else {
                    0
                };
                lemma_total_push(held(hs, asset), now);
                assert(held(us, asset) =~= held(hs, asset).push(now));
            }
        }
        true
    }

    /// Puts a new escrow at `address`, with `locked` units in its vault.
    pub(crate) fn insert_escrow(&mut self, address: Address, record: Escrow, vault: Address, locked: u64)
        requires
            old(self).inv(),
            !old(self)@.escrows.contains_key(address),
        ensures
            final(self).inv(),
            final(self)@ == old(self)@.with_escrow(
                address,
                (EscrowState { record, vault, locked: locked as nat }),
            ),
            forall|asset: Address|
                #[trigger] final(self).supply(asset) == old(self).supply(asset) + (if asset
                    == record.asset_sent {
                    locked as nat
                } else {
                    0
                }),
    {
        let entry = Entry { address, record, vault, locked };
        self.escrows.push(entry);
        proof {
            let es = old(self).escrows@;
            let us = self.escrows@;
            assert forall|a: Address| has_entry(us, a) == (has_entry(es, a) || a == address) by {
                if has_entry(es, a) {
                    let k = entry_at(es, a);
                    assert(us[k].address == a);
                }
                if a == address {
                    assert(us[es.len() as int].address == a);
                }
            }
            assert(entries_map(us) =~= entries_map(es).insert(address, entry.state()));
            assert forall|asset: Address|
                #[trigger] self.supply(asset) == old(self).supply(asset) + (if asset
                    == record.asset_sent {
                    locked as nat
                } else {
                    0
                }) by {
                let now: nat = if record.asset_sent == asset {
                    locked as nat
                } else {
                    0
                };
                lemma_total_push(in_vaults(es, asset), now);
                assert(in_vaults(us, asset) =~= in_vaults(es, asset).push(now));
            }
        }
    }

    /// Takes the escrow at `address` away, record and vault together.
    pub(crate) fn remove_escrow(&mut self, address: &Address)
        requires
            old(self).inv(),
            old(self)@.escrows.contains_key(*address),
        ensures
            final(self).inv(),
            final(self)@ == old(self)@.without_escrow(*address),
            forall|asset: Address|
                #[trigger] final(self).supply(asset) == old(self).supply(asset) - (if asset == old(
                    self,
                )@.escrows[*address].record.asset_sent {
                    old(self)@.escrows[*address].locked
                } else {
                    0
                }),
    {
        match self.find_escrow(address) {
            Some(i) => {
                self.escrows.remove(i);
                proof {
                    let es = old(self).escrows@;
                    let us = self.escrows@;
                    assert forall|a: Address| has_entry(us, a) == (has_entry(es, a) && a
                        != *address) by {
                        if has_entry(es, a) && a != *address {
                            let k = entry_at(es, a);
                            let k1 = if k < i { k } else { k - 1 };
                            assert(us[k1].address == a);
                        }
                    }
                    assert(entries_map(us) =~= entries_map(es).remove(*address));
                    assert forall|asset: Address|
                        #[trigger] self.supply(asset) == old(self).supply(asset) - (if asset
                            == es[i as int].record.asset_sent {
                            es[i as int].locked as nat
                        } else {
                            0
                        }) by {
                        lemma_total_remove(in_vaults(es, asset), i as int);
                        assert(in_vaults(us, asset) =~= in_vaults(es, asset).remove(i as int));
                    }
                }
            },
            None => {},
        }
    }

    /// Puts back an escrow that is open: its record at `address`, and its
    /// vault. The vault has to be a holding of the record's `asset_sent` that
    /// `address` owns, `address` has to be free, no escrow of the record's
    /// maker and seed may be open, and the supply of the asset has to stay an
    /// amount that a holding can count. Says whether it did.
    pub fn restore_escrow(&mut self, address: Address, record: Escrow, vault: Holding) -> (restored:
        bool)
        requires
            old(self).wf(),
        ensures
            final(self).wf(),
            restored == (!old(self)@.escrows.contains_key(address) && !old(self)@.is_open(
                record.maker,
                record.seed,
            ) && vault.owner == address && vault.asset == record.asset_sent && old(self).supply(
                vault.asset,
            ) + vault.amount <= u64::MAX),
            restored ==> final(self)@ == old(self)@.with_escrow(
                address,
                (EscrowState { record, vault: vault.address, locked: vault.amount as nat }),
            ),
            !restored ==> final(self)@ == old(self)@,
            forall|asset: Address|
                #[trigger] final(self).supply(asset) == old(self).supply(asset) + (if restored
                    && asset == vault.asset {
                    vault.amount as nat
                } else {
                    0
                }),
    {
        if self.find_escrow(&address).is_some() || self.is_open(&record.maker, record.seed) {
            return false;
        }
        if !(vault.owner == address) || !(vault.asset == record.asset_sent) {
            return false;
        }
        let units = self.supply_of(&vault.asset);
        if vault.amount > u64::MAX - units {
            return false;
        }
        self.insert_escrow(address, record, vault.address, vault.amount);
        true
    }
}

} // verus!
