use anchor_escrow::address::seeds_of_record;
use anchor_escrow::address::seeds_of_vault;
use anchor_escrow::find_record_address;
use anchor_escrow::find_vault_address;
use anchor_escrow::make;
use anchor_escrow::open;
use anchor_escrow::refund;
use anchor_escrow::take;
use anchor_escrow::Address;
use anchor_escrow::Escrow;
use anchor_escrow::EscrowError;
use anchor_escrow::Holding;
use anchor_escrow::Ledger;
use anchor_escrow::Make;
use anchor_escrow::Refund;
use anchor_escrow::Take;

fn at(byte: u8) -> Address {
    Address::new([byte; 32])
}

fn program() -> Address {
    at(7)
}

fn maker() -> Address {
    at(1)
}

fn taker() -> Address {
    at(2)
}

fn asset_a() -> Address {
    at(10)
}

fn asset_b() -> Address {
    at(11)
}

fn maker_a() -> Address {
    at(21)
}

fn maker_b() -> Address {
    at(22)
}

fn taker_a() -> Address {
    at(23)
}

fn taker_b() -> Address {
    at(24)
}

fn holding(address: Address, owner: Address, asset: Address, amount: u64) -> Holding {
    Holding { address, owner, asset, amount }
}

/// Maker with `a` units of A and none of B, taker with none of A and `b`
/// units of B.
fn funded(a: u64, b: u64) -> Ledger {
    let mut ledger = Ledger::new(program());
    assert!(ledger.create_holding(holding(maker_a(), maker(), asset_a(), a)));
    assert!(ledger.create_holding(holding(maker_b(), maker(), asset_b(), 0)));
    assert!(ledger.create_holding(holding(taker_a(), taker(), asset_a(), 0)));
    assert!(ledger.create_holding(holding(taker_b(), taker(), asset_b(), b)));
    ledger
}

fn make_accounts(seed: u64) -> Make {
    let (escrow, _) = find_record_address(&program(), &maker(), seed).unwrap();
    let (vault, _) = find_vault_address(&program(), &escrow).unwrap();
    Make {
        maker: maker(),
        maker_sent: maker_a(),
        asset_sent: asset_a(),
        asset_wanted: asset_b(),
        escrow,
        vault,
    }
}

fn take_accounts(opened: &Make) -> Take {
    Take {
        taker: taker(),
        taker_sent: taker_a(),
        taker_wanted: taker_b(),
        maker_wanted: maker_b(),
        escrow: opened.escrow,
        vault: opened.vault,
    }
}

fn refund_accounts(opened: &Make) -> Refund {
    Refund {
        maker: maker(),
        maker_sent: maker_a(),
        escrow: opened.escrow,
        vault: opened.vault,
    }
}

fn amount(ledger: &Ledger, account: Address) -> u64 {
    ledger.holding(&account).unwrap().amount
}

#[test]
fn record_seeds_are_tag_maker_and_seed() {
    let seeds = seeds_of_record(&maker(), 0x0102030405060708);
    assert_eq!(seeds.len(), 3);
    assert_eq!(seeds[0], vec![101u8, 115, 99, 114, 111, 119]);
    assert_eq!(seeds[1], vec![1u8; 32]);
    assert_eq!(seeds[2], vec![8u8, 7, 6, 5, 4, 3, 2, 1]);
}

#[test]
fn vault_seeds_are_tag_and_record() {
    let seeds = seeds_of_vault(&at(9));
    assert_eq!(seeds.len(), 2);
    assert_eq!(seeds[0], vec![118u8, 97, 117, 108, 116]);
    assert_eq!(seeds[1], vec![9u8; 32]);
}

#[test]
fn record_address_is_the_derived_one() {
    let found = find_record_address(&program(), &maker(), 1);
    let expected = Address::new([
        94, 8, 145, 100, 152, 144, 135, 230, 41, 221, 93, 39, 31, 118, 123, 34, 139, 232, 180, 143,
        247, 100, 82, 214, 176, 58, 49, 120, 125, 195, 94, 188,
    ]);
    assert_eq!(found, Some((expected, 255)));
    let other = find_record_address(&program(), &maker(), 2);
    let expected = Address::new([
        80, 194, 173, 61, 56, 84, 123, 65, 216, 211, 55, 160, 99, 224, 78, 175, 186, 225, 2, 129,
        169, 189, 105, 197, 225, 43, 249, 74, 126, 213, 100, 53,
    ]);
    assert_eq!(other, Some((expected, 255)));
}

#[test]
fn vault_address_is_the_derived_one() {
    let (record, _) = find_record_address(&program(), &maker(), 2).unwrap();
    let found = find_vault_address(&program(), &record);
    let expected = Address::new([
        1, 33, 221, 173, 247, 92, 183, 41, 43, 114, 223, 76, 147, 94, 199, 91, 172, 213, 6, 217,
        71, 137, 220, 13, 220, 93, 73, 192, 143, 210, 119, 37,
    ]);
    assert_eq!(found, Some((expected, 252)));
}

#[test]
fn derived_addresses_depend_on_maker_seed_and_program() {
    let base = find_record_address(&program(), &maker(), 1).unwrap();
    assert_ne!(base.0, maker());
    assert_ne!(base.0, program());
    assert_ne!(find_record_address(&program(), &maker(), 2).unwrap().0, base.0);
    assert_ne!(find_record_address(&program(), &taker(), 1).unwrap().0, base.0);
    assert_ne!(find_record_address(&at(8), &maker(), 1).unwrap().0, base.0);
    assert_eq!(find_record_address(&program(), &maker(), 1).unwrap(), base);
}

#[test]
fn addresses_compare_by_their_bytes() {
    let mut bytes = [3u8; 32];
    assert_eq!(Address::new(bytes), at(3));
    bytes[31] = 4;
    assert_ne!(Address::new(bytes), at(3));
    assert_eq!(at(3).to_vec(), vec![3u8; 32]);
}

#[test]
fn new_ledger_is_empty() {
    let ledger = Ledger::new(program());
    assert_eq!(ledger.program(), program());
    assert_eq!(ledger.holding(&maker_a()), None);
    assert_eq!(ledger.escrow(&maker_a()), None);
    assert_eq!(ledger.vault(&maker_a()), None);
    assert_eq!(ledger.supply_of(&asset_a()), 0);
}

#[test]
fn create_holding_refuses_a_taken_address() {
    let mut ledger = Ledger::new(program());
    assert!(ledger.create_holding(holding(maker_a(), maker(), asset_a(), 5)));
    assert!(!ledger.create_holding(holding(maker_a(), taker(), asset_b(), 1)));
    assert_eq!(ledger.holding(&maker_a()), Some(holding(maker_a(), maker(), asset_a(), 5)));
    assert_eq!(ledger.supply_of(&asset_a()), 5);
    assert_eq!(ledger.supply_of(&asset_b()), 0);
}

#[test]
fn create_holding_refuses_a_supply_beyond_the_largest_amount() {
    let mut ledger = Ledger::new(program());
    assert!(ledger.create_holding(holding(maker_a(), maker(), asset_a(), u64::MAX - 1)));
    assert!(!ledger.create_holding(holding(taker_a(), taker(), asset_a(), 2)));
    assert_eq!(ledger.holding(&taker_a()), None);
    assert!(ledger.create_holding(holding(taker_a(), taker(), asset_a(), 1)));
    assert!(ledger.create_holding(holding(taker_b(), taker(), asset_b(), u64::MAX)));
    assert_eq!(ledger.supply_of(&asset_a()), u64::MAX);
    assert_eq!(ledger.supply_of(&asset_b()), u64::MAX);
}

#[test]
fn make_locks_the_deposit_and_writes_the_record() {
    let mut ledger = funded(100, 50);
    let accounts = make_accounts(1);
    assert_eq!(make(&mut ledger, &accounts, 1, 100, 50), Ok(()));
    assert_eq!(
        ledger.vault(&accounts.escrow),
        Some(holding(accounts.vault, accounts.escrow, asset_a(), 100))
    );
    assert_eq!(
        ledger.escrow(&accounts.escrow),
        Some(Escrow {
            maker: maker(),
            seed: 1,
            asset_sent: asset_a(),
            asset_wanted: asset_b(),
            amount_wanted: 50,
            storage_bump: 255,
        })
    );
    assert_eq!(amount(&ledger, maker_a()), 0);
    assert_eq!(ledger.supply_of(&asset_a()), 100);
}

#[test]
fn second_make_of_the_same_maker_and_seed_already_exists() {
    let mut ledger = funded(100, 50);
    let accounts = make_accounts(1);
    assert_eq!(make(&mut ledger, &accounts, 1, 60, 50), Ok(()));
    assert_eq!(make(&mut ledger, &accounts, 1, 40, 50), Err(EscrowError::AlreadyExists));
    let mut other = accounts;
    other.maker_sent = taker_a();
    other.escrow = at(99);
    assert_eq!(make(&mut ledger, &other, 1, 1000, 7), Err(EscrowError::AlreadyExists));
    assert_eq!(amount(&ledger, maker_a()), 40);
    assert_eq!(ledger.vault(&accounts.escrow).unwrap().amount, 60);
    assert_eq!(ledger.escrow(&accounts.escrow).unwrap().amount_wanted, 50);
}

#[test]
fn one_maker_opens_several_escrows_under_different_seeds() {
    let mut ledger = funded(100, 50);
    let first = make_accounts(1);
    let second = make_accounts(2);
    assert_eq!(make(&mut ledger, &first, 1, 60, 5), Ok(()));
    assert_eq!(make(&mut ledger, &second, 2, 40, 6), Ok(()));
    assert_eq!(ledger.vault(&first.escrow).unwrap().amount, 60);
    assert_eq!(ledger.vault(&second.escrow).unwrap().amount, 40);
    assert_eq!(refund(&mut ledger, &refund_accounts(&first)), Ok(()));
    assert_eq!(ledger.escrow(&first.escrow), None);
    assert_eq!(ledger.escrow(&second.escrow).unwrap().seed, 2);
    assert_eq!(ledger.vault(&second.escrow).unwrap().amount, 40);
    assert_eq!(amount(&ledger, maker_a()), 60);
}

#[test]
fn make_without_the_deposit_has_insufficient_funds() {
    let mut ledger = funded(99, 50);
    let accounts = make_accounts(1);
    assert_eq!(make(&mut ledger, &accounts, 1, 100, 50), Err(EscrowError::InsufficientFunds));
    assert_eq!(ledger.escrow(&accounts.escrow), None);
    assert_eq!(ledger.vault(&accounts.escrow), None);
    assert_eq!(amount(&ledger, maker_a()), 99);
}

#[test]
fn make_at_another_address_is_an_invalid_account() {
    let mut ledger = funded(100, 50);
    let mut accounts = make_accounts(1);
    accounts.escrow = at(99);
    assert_eq!(make(&mut ledger, &accounts, 1, 100, 50), Err(EscrowError::InvalidAccount));
    let mut accounts = make_accounts(1);
    accounts.vault = at(99);
    assert_eq!(make(&mut ledger, &accounts, 1, 100, 50), Err(EscrowError::InvalidAccount));
    let accounts = make_accounts(1);
    assert_eq!(make(&mut ledger, &accounts, 2, 100, 50), Err(EscrowError::InvalidAccount));
    assert_eq!(amount(&ledger, maker_a()), 100);
}

#[test]
fn make_from_a_holding_of_another_owner_or_asset_is_an_invalid_account() {
    let mut ledger = funded(100, 50);
    let mut accounts = make_accounts(1);
    accounts.maker_sent = taker_a();
    assert_eq!(make(&mut ledger, &accounts, 1, 0, 50), Err(EscrowError::InvalidAccount));
    accounts.maker_sent = maker_b();
    assert_eq!(make(&mut ledger, &accounts, 1, 0, 50), Err(EscrowError::InvalidAccount));
    accounts.maker_sent = at(98);
    assert_eq!(make(&mut ledger, &accounts, 1, 0, 50), Err(EscrowError::InvalidAccount));
    assert_eq!(ledger.escrow(&accounts.escrow), None);
}

#[test]
fn open_without_derived_addresses_is_an_invalid_account() {
    let mut ledger = funded(100, 50);
    let accounts = make_accounts(1);
    let record = Some((accounts.escrow, 255));
    let vault = Some((accounts.vault, 255));
    assert_eq!(
        open(&mut ledger, &accounts, 1, 100, 50, None, vault),
        Err(EscrowError::InvalidAccount)
    );
    assert_eq!(
        open(&mut ledger, &accounts, 1, 100, 50, record, None),
        Err(EscrowError::InvalidAccount)
    );
    assert_eq!(ledger.escrow(&accounts.escrow), None);
    assert_eq!(open(&mut ledger, &accounts, 1, 100, 50, record, vault), Ok(()));
    assert_eq!(
        open(&mut ledger, &accounts, 1, 0, 50, record, None),
        Err(EscrowError::AlreadyExists)
    );
}

#[test]
fn open_records_the_bump_seed_it_is_given() {
    let mut ledger = funded(100, 50);
    let accounts = Make {
        maker: maker(),
        maker_sent: maker_a(),
        asset_sent: asset_a(),
        asset_wanted: asset_b(),
        escrow: at(61),
        vault: at(62),
    };
    assert_eq!(
        open(&mut ledger, &accounts, 9, 30, 4, Some((at(61), 250)), Some((at(62), 249))),
        Ok(())
    );
    assert_eq!(
        ledger.escrow(&at(61)),
        Some(Escrow {
            maker: maker(),
            seed: 9,
            asset_sent: asset_a(),
            asset_wanted: asset_b(),
            amount_wanted: 4,
            storage_bump: 250,
        })
    );
    assert_eq!(ledger.vault(&at(61)), Some(holding(at(62), at(61), asset_a(), 30)));
    assert_eq!(amount(&ledger, maker_a()), 70);
}

#[test]
fn make_then_take_swaps_the_assets() {
    let mut ledger = funded(100, 50);
    let accounts = make_accounts(1);
    assert_eq!(make(&mut ledger, &accounts, 1, 100, 50), Ok(()));
    assert_eq!(ledger.vault(&accounts.escrow).unwrap().amount, 100);
    assert_eq!(ledger.vault(&accounts.escrow).unwrap().asset, asset_a());
    let taking = take_accounts(&accounts);
    assert_eq!(take(&mut ledger, &taking), Ok(()));
    assert_eq!(amount(&ledger, taker_a()), 100);
    assert_eq!(amount(&ledger, maker_b()), 50);
    assert_eq!(amount(&ledger, taker_b()), 0);
    assert_eq!(amount(&ledger, maker_a()), 0);
    assert_eq!(ledger.escrow(&accounts.escrow), None);
    assert_eq!(ledger.vault(&accounts.escrow), None);
    assert_eq!(take(&mut ledger, &taking), Err(EscrowError::NotFound));
    assert_eq!(refund(&mut ledger, &refund_accounts(&accounts)), Err(EscrowError::NotFound));
    assert_eq!(ledger.supply_of(&asset_a()), 100);
    assert_eq!(ledger.supply_of(&asset_b()), 50);
}

#[test]
fn make_then_refund_returns_the_deposit() {
    let mut ledger = funded(10, 5);
    let accounts = make_accounts(2);
    assert_eq!(make(&mut ledger, &accounts, 2, 10, 5), Ok(()));
    assert_eq!(amount(&ledger, maker_a()), 0);
    assert_eq!(refund(&mut ledger, &refund_accounts(&accounts)), Ok(()));
    assert_eq!(amount(&ledger, maker_a()), 10);
    assert_eq!(ledger.escrow(&accounts.escrow), None);
    assert_eq!(ledger.vault(&accounts.escrow), None);
    assert_eq!(take(&mut ledger, &take_accounts(&accounts)), Err(EscrowError::NotFound));
    assert_eq!(amount(&ledger, taker_b()), 5);
    assert_eq!(amount(&ledger, taker_a()), 0);
}

#[test]
fn an_escrow_can_be_opened_again_after_it_was_resolved() {
    let mut ledger = funded(10, 5);
    let accounts = make_accounts(2);
    assert_eq!(make(&mut ledger, &accounts, 2, 10, 5), Ok(()));
    assert_eq!(refund(&mut ledger, &refund_accounts(&accounts)), Ok(()));
    assert_eq!(make(&mut ledger, &accounts, 2, 4, 3), Ok(()));
    assert_eq!(ledger.vault(&accounts.escrow).unwrap().amount, 4);
    assert_eq!(ledger.escrow(&accounts.escrow).unwrap().amount_wanted, 3);
}

#[test]
fn refund_by_another_caller_is_unauthorized() {
    let mut ledger = funded(100, 50);
    let accounts = make_accounts(1);
    assert_eq!(make(&mut ledger, &accounts, 1, 100, 50), Ok(()));
    let record = ledger.escrow(&accounts.escrow);
    let vault = ledger.vault(&accounts.escrow);
    let mut asking = refund_accounts(&accounts);
    asking.maker = taker();
    asking.maker_sent = taker_a();
    assert_eq!(refund(&mut ledger, &asking), Err(EscrowError::Unauthorized));
    asking.vault = at(99);
    assert_eq!(refund(&mut ledger, &asking), Err(EscrowError::Unauthorized));
    assert_eq!(ledger.escrow(&accounts.escrow), record);
    assert_eq!(ledger.vault(&accounts.escrow), vault);
    assert_eq!(amount(&ledger, taker_a()), 0);
    assert_eq!(amount(&ledger, maker_a()), 0);
}

#[test]
fn refund_with_other_accounts_is_an_invalid_account() {
    let mut ledger = funded(100, 50);
    let accounts = make_accounts(1);
    assert_eq!(make(&mut ledger, &accounts, 1, 100, 50), Ok(()));
    let mut asking = refund_accounts(&accounts);
    asking.vault = at(99);
    assert_eq!(refund(&mut ledger, &asking), Err(EscrowError::InvalidAccount));
    let mut asking = refund_accounts(&accounts);
    asking.maker_sent = maker_b();
    assert_eq!(refund(&mut ledger, &asking), Err(EscrowError::InvalidAccount));
    asking.maker_sent = taker_a();
    assert_eq!(refund(&mut ledger, &asking), Err(EscrowError::InvalidAccount));
    asking.maker_sent = at(98);
    assert_eq!(refund(&mut ledger, &asking), Err(EscrowError::InvalidAccount));
    assert_eq!(ledger.vault(&accounts.escrow).unwrap().amount, 100);
}

#[test]
fn take_without_the_amount_wanted_has_insufficient_funds() {
    let mut ledger = funded(100, 49);
    let accounts = make_accounts(1);
    assert_eq!(make(&mut ledger, &accounts, 1, 100, 50), Ok(()));
    let taking = take_accounts(&accounts);
    assert_eq!(take(&mut ledger, &taking), Err(EscrowError::InsufficientFunds));
    assert_eq!(ledger.vault(&accounts.escrow).unwrap().amount, 100);
    assert_eq!(ledger.escrow(&accounts.escrow).unwrap().amount_wanted, 50);
    assert_eq!(amount(&ledger, taker_a()), 0);
    assert_eq!(amount(&ledger, taker_b()), 49);
    assert_eq!(amount(&ledger, maker_b()), 0);
}

#[test]
fn take_with_other_accounts_is_an_invalid_account() {
    let mut ledger = funded(100, 50);
    let accounts = make_accounts(1);
    assert_eq!(make(&mut ledger, &accounts, 1, 100, 50), Ok(()));
    let mut taking = take_accounts(&accounts);
    taking.vault = at(99);
    assert_eq!(take(&mut ledger, &taking), Err(EscrowError::InvalidAccount));
    let mut taking = take_accounts(&accounts);
    taking.taker_sent = taker_b();
    assert_eq!(take(&mut ledger, &taking), Err(EscrowError::InvalidAccount));
    let mut taking = take_accounts(&accounts);
    taking.taker_wanted = maker_b();
    assert_eq!(take(&mut ledger, &taking), Err(EscrowError::InvalidAccount));
    let mut taking = take_accounts(&accounts);
    taking.maker_wanted = taker_b();
    assert_eq!(take(&mut ledger, &taking), Err(EscrowError::InvalidAccount));
    let mut taking = take_accounts(&accounts);
    taking.maker_wanted = at(98);
    assert_eq!(take(&mut ledger, &taking), Err(EscrowError::InvalidAccount));
    assert_eq!(ledger.vault(&accounts.escrow).unwrap().amount, 100);
    assert_eq!(amount(&ledger, taker_b()), 50);
}

#[test]
fn take_and_refund_of_an_escrow_never_opened_are_not_found() {
    let mut ledger = funded(100, 50);
    let accounts = make_accounts(1);
    assert_eq!(take(&mut ledger, &take_accounts(&accounts)), Err(EscrowError::NotFound));
    assert_eq!(refund(&mut ledger, &refund_accounts(&accounts)), Err(EscrowError::NotFound));
    assert_eq!(amount(&ledger, maker_a()), 100);
    assert_eq!(amount(&ledger, taker_b()), 50);
}

#[test]
fn zero_amounts_are_accepted() {
    let mut ledger = funded(0, 0);
    let accounts = make_accounts(1);
    assert_eq!(make(&mut ledger, &accounts, 1, 0, 0), Ok(()));
    assert_eq!(ledger.vault(&accounts.escrow).unwrap().amount, 0);
    assert_eq!(ledger.escrow(&accounts.escrow).unwrap().amount_wanted, 0);
    assert_eq!(take(&mut ledger, &take_accounts(&accounts)), Ok(()));
    assert_eq!(ledger.escrow(&accounts.escrow), None);
    assert_eq!(amount(&ledger, taker_a()), 0);
    assert_eq!(amount(&ledger, maker_b()), 0);
}

#[test]
fn taker_keeps_what_it_has_beyond_the_amount_wanted() {
    let mut ledger = funded(100, 80);
    let accounts = make_accounts(1);
    assert_eq!(make(&mut ledger, &accounts, 1, 70, 50), Ok(()));
    assert_eq!(take(&mut ledger, &take_accounts(&accounts)), Ok(()));
    assert_eq!(amount(&ledger, maker_a()), 30);
    assert_eq!(amount(&ledger, maker_b()), 50);
    assert_eq!(amount(&ledger, taker_a()), 70);
    assert_eq!(amount(&ledger, taker_b()), 30);
}

#[test]
fn maker_who_takes_its_own_escrow_gets_the_deposit_back() {
    let mut ledger = funded(100, 0);
    let accounts = make_accounts(1);
    assert_eq!(make(&mut ledger, &accounts, 1, 100, 0), Ok(()));
    let taking = Take {
        taker: maker(),
        taker_sent: maker_a(),
        taker_wanted: maker_b(),
        maker_wanted: maker_b(),
        escrow: accounts.escrow,
        vault: accounts.vault,
    };
    assert_eq!(take(&mut ledger, &taking), Ok(()));
    assert_eq!(amount(&ledger, maker_a()), 100);
    assert_eq!(amount(&ledger, maker_b()), 0);
    assert_eq!(ledger.escrow(&accounts.escrow), None);
}

#[test]
fn taker_of_one_asset_may_pay_out_of_the_deposit() {
    let mut ledger = Ledger::new(program());
    assert!(ledger.create_holding(holding(maker_a(), maker(), asset_a(), 100)));
    assert!(ledger.create_holding(holding(taker_a(), taker(), asset_a(), 10)));
    let (escrow, _) = find_record_address(&program(), &maker(), 3).unwrap();
    let (vault, _) = find_vault_address(&program(), &escrow).unwrap();
    let accounts = Make {
        maker: maker(),
        maker_sent: maker_a(),
        asset_sent: asset_a(),
        asset_wanted: asset_a(),
        escrow,
        vault,
    };
    assert_eq!(make(&mut ledger, &accounts, 3, 100, 40), Ok(()));
    let taking = Take {
        taker: taker(),
        taker_sent: taker_a(),
        taker_wanted: taker_a(),
        maker_wanted: maker_a(),
        escrow,
        vault,
    };
    assert_eq!(take(&mut ledger, &taking), Ok(()));
    assert_eq!(amount(&ledger, taker_a()), 70);
    assert_eq!(amount(&ledger, maker_a()), 40);
    assert_eq!(ledger.supply_of(&asset_a()), 110);
}

#[test]
fn amounts_up_to_the_largest_move_without_loss() {
    let mut ledger = funded(u64::MAX, u64::MAX);
    let accounts = make_accounts(1);
    assert_eq!(make(&mut ledger, &accounts, 1, u64::MAX, u64::MAX), Ok(()));
    assert_eq!(ledger.supply_of(&asset_a()), u64::MAX);
    assert_eq!(take(&mut ledger, &take_accounts(&accounts)), Ok(()));
    assert_eq!(amount(&ledger, taker_a()), u64::MAX);
    assert_eq!(amount(&ledger, maker_b()), u64::MAX);
    assert_eq!(amount(&ledger, maker_a()), 0);
    assert_eq!(amount(&ledger, taker_b()), 0);
}

#[test]
fn signer_seeds_end_with_the_bump_seed() {
    let record = Escrow {
        maker: maker(),
        seed: 258,
        asset_sent: asset_a(),
        asset_wanted: asset_b(),
        amount_wanted: 5,
        storage_bump: 254,
    };
    let seeds = record.signer_seeds();
    assert_eq!(seeds.len(), 4);
    assert_eq!(seeds[0], vec![101u8, 115, 99, 114, 111, 119]);
    assert_eq!(seeds[1], vec![1u8; 32]);
    assert_eq!(seeds[2], vec![2u8, 1, 0, 0, 0, 0, 0, 0]);
    assert_eq!(seeds[3], vec![254u8]);
}

#[test]
fn restored_escrow_can_be_taken() {
    let mut ledger = funded(0, 50);
    let record = Escrow {
        maker: maker(),
        seed: 4,
        asset_sent: asset_a(),
        asset_wanted: asset_b(),
        amount_wanted: 20,
        storage_bump: 253,
    };
    assert!(ledger.restore_escrow(at(61), record, holding(at(62), at(61), asset_a(), 75)));
    assert_eq!(ledger.escrow(&at(61)), Some(record));
    assert_eq!(ledger.vault(&at(61)), Some(holding(at(62), at(61), asset_a(), 75)));
    assert_eq!(ledger.supply_of(&asset_a()), 75);
    let taking = Take {
        taker: taker(),
        taker_sent: taker_a(),
        taker_wanted: taker_b(),
        maker_wanted: maker_b(),
        escrow: at(61),
        vault: at(62),
    };
    assert_eq!(take(&mut ledger, &taking), Ok(()));
    assert_eq!(amount(&ledger, taker_a()), 75);
    assert_eq!(amount(&ledger, taker_b()), 30);
    assert_eq!(amount(&ledger, maker_b()), 20);
    assert_eq!(ledger.escrow(&at(61)), None);
}

#[test]
fn restore_escrow_refuses_what_is_not_an_open_escrow() {
    let mut ledger = funded(u64::MAX - 10, 0);
    let record = Escrow {
        maker: maker(),
        seed: 4,
        asset_sent: asset_a(),
        asset_wanted: asset_b(),
        amount_wanted: 20,
        storage_bump: 253,
    };
    assert!(!ledger.restore_escrow(at(61), record, holding(at(62), at(60), asset_a(), 5)));
    assert!(!ledger.restore_escrow(at(61), record, holding(at(62), at(61), asset_b(), 5)));
    assert!(!ledger.restore_escrow(at(61), record, holding(at(62), at(61), asset_a(), 11)));
    assert_eq!(ledger.escrow(&at(61)), None);
    assert!(ledger.restore_escrow(at(61), record, holding(at(62), at(61), asset_a(), 10)));
    assert!(!ledger.restore_escrow(at(61), record, holding(at(63), at(61), asset_a(), 0)));
    assert_eq!(ledger.vault(&at(61)).unwrap().address, at(62));
    assert_eq!(ledger.supply_of(&asset_a()), u64::MAX);
}

#[test]
fn open_where_an_escrow_was_restored_already_exists() {
    let mut ledger = funded(100, 50);
    let accounts = make_accounts(1);
    let record = Escrow {
        maker: maker(),
        seed: 1,
        asset_sent: asset_a(),
        asset_wanted: asset_b(),
        amount_wanted: 20,
        storage_bump: 255,
    };
    assert!(ledger.restore_escrow(
        accounts.escrow,
        record,
        holding(accounts.vault, accounts.escrow, asset_a(), 0)
    ));
    assert_eq!(make(&mut ledger, &accounts, 1, 100, 50), Err(EscrowError::AlreadyExists));
    assert_eq!(amount(&ledger, maker_a()), 100);
}

#[test]
fn open_of_an_open_maker_and_seed_at_another_address_already_exists() {
    let mut ledger = funded(100, 50);
    let first = Make {
        maker: maker(),
        maker_sent: maker_a(),
        asset_sent: asset_a(),
        asset_wanted: asset_b(),
        escrow: at(61),
        vault: at(62),
    };
    assert_eq!(
        open(&mut ledger, &first, 9, 30, 4, Some((at(61), 250)), Some((at(62), 249))),
        Ok(())
    );
    assert!(ledger.is_open(&maker(), 9));
    assert!(!ledger.is_open(&maker(), 8));
    assert!(!ledger.is_open(&taker(), 9));
    let mut second = first;
    second.escrow = at(63);
    second.vault = at(64);
    assert_eq!(
        open(&mut ledger, &second, 9, 30, 4, Some((at(63), 250)), Some((at(64), 249))),
        Err(EscrowError::AlreadyExists)
    );
    assert_eq!(
        open(&mut ledger, &second, 9, 30, 4, None, None),
        Err(EscrowError::AlreadyExists)
    );
    assert_eq!(
        open(&mut ledger, &first, 8, 30, 4, Some((at(61), 250)), Some((at(62), 249))),
        Err(EscrowError::AlreadyExists)
    );
    assert_eq!(ledger.escrow(&at(63)), None);
    assert_eq!(amount(&ledger, maker_a()), 70);
    assert_eq!(
        open(&mut ledger, &second, 8, 30, 4, Some((at(63), 250)), Some((at(64), 249))),
        Ok(())
    );
    assert_eq!(amount(&ledger, maker_a()), 40);
}

#[test]
fn restore_escrow_refuses_a_maker_and_seed_that_is_open() {
    let mut ledger = funded(100, 50);
    let accounts = make_accounts(1);
    assert_eq!(make(&mut ledger, &accounts, 1, 100, 50), Ok(()));
    let record = ledger.escrow(&accounts.escrow).unwrap();
    assert!(!ledger.restore_escrow(at(61), record, holding(at(62), at(61), asset_a(), 0)));
    assert_eq!(ledger.escrow(&at(61)), None);
    let mut other = record;
    other.seed = 2;
    assert!(ledger.restore_escrow(at(61), other, holding(at(62), at(61), asset_a(), 0)));
    assert!(ledger.is_open(&maker(), 2));
    assert_eq!(refund(&mut ledger, &refund_accounts(&accounts)), Ok(()));
    assert!(!ledger.is_open(&maker(), 1));
}

#[test]
fn vault_signer_seeds_end_with_the_bump_seed_of_the_vault() {
    let (record, _) = find_record_address(&program(), &maker(), 2).unwrap();
    let seeds = anchor_escrow::address::vault_signer_seeds(&program(), &record).unwrap();
    assert_eq!(seeds.len(), 3);
    assert_eq!(seeds[0], vec![118u8, 97, 117, 108, 116]);
    assert_eq!(seeds[1], record.to_vec());
    assert_eq!(seeds[2], vec![252u8]);
}
