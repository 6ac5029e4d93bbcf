use blx_chain::allocator::{Event, Module};
use blx_chain::claimer::Module as Claimer;
use blx_chain::primitives::{DispatchError, MultiAddress, Origin};

fn account(b: u8) -> [u8; 32] {
    [b; 32]
}

#[test]
fn insert_new_task_sets_queue_flag() {
    let mut m = Module::new();
    assert!(!m.queue_available());
    assert_eq!(m.insert_new_task(&Origin::Unsigned), Err(DispatchError::BadOrigin));
    assert!(!m.queue_available());
    assert_eq!(m.insert_new_task(&Origin::Signed(account(1))), Ok(()));
    assert!(m.queue_available());
}

#[test]
fn airdrop_gives_every_listed_account_the_amount() {
    let mut m = Module::new();
    let who = Origin::Signed(account(9));
    assert_eq!(m.issue_token_airdrop(&who, vec![account(1), account(2)], 40), Ok(()));
    assert_eq!(m.next_asset_id(), 0);
    assert_eq!(m.balances(0, &account(1)), 40);
    assert_eq!(m.balances(0, &account(2)), 40);
    assert_eq!(m.balances(0, &account(3)), 0);
    assert_eq!(m.balances(1, &account(1)), 0);
    // a second airdrop overwrites, it does not add
    assert_eq!(m.issue_token_airdrop(&who, vec![account(2)], 7), Ok(()));
    assert_eq!(m.balances(0, &account(1)), 40);
    assert_eq!(m.balances(0, &account(2)), 7);
}

#[test]
fn airdrop_needs_a_signed_origin() {
    let mut m = Module::new();
    assert_eq!(m.issue_token_airdrop(&Origin::Root, vec![account(1)], 40), Err(DispatchError::BadOrigin));
    assert_eq!(m.balances(0, &account(1)), 0);
}

#[test]
fn trade_moves_tokens_between_accounts() {
    let lookup: Claimer<u8> = Claimer::new();
    let mut m = Module::new();
    let who = Origin::Signed(account(9));
    m.issue_token_airdrop(&who, vec![account(1), account(2)], 100).unwrap();
    let r = m.trade_tokens(&lookup, &who, 0, MultiAddress::Id(account(1)), MultiAddress::Id(account(2)), 30);
    assert_eq!(r, Ok(()));
    assert_eq!(m.balances(0, &account(1)), 70);
    assert_eq!(m.balances(0, &account(2)), 130);
}

#[test]
fn trade_to_self_adds_the_amount() {
    let lookup: Claimer<u8> = Claimer::new();
    let mut m = Module::new();
    let who = Origin::Signed(account(9));
    m.issue_token_airdrop(&who, vec![account(1)], 100).unwrap();
    let r = m.trade_tokens(&lookup, &who, 0, MultiAddress::Id(account(1)), MultiAddress::Id(account(1)), 30);
    assert_eq!(r, Ok(()));
    assert_eq!(m.balances(0, &account(1)), 130);
}

#[test]
fn trade_through_registered_names() {
    let mut lookup: Claimer<u8> = Claimer::new();
    lookup.insert_lookup(account(50), account(1));
    let mut m = Module::new();
    let who = Origin::Signed(account(9));
    m.issue_token_airdrop(&who, vec![account(1)], 100).unwrap();
    let r = m.trade_tokens(&lookup, &who, 0, MultiAddress::Hash256(account(50)), MultiAddress::Id(account(2)), 100);
    assert_eq!(r, Ok(()));
    assert_eq!(m.balances(0, &account(1)), 0);
    assert_eq!(m.balances(0, &account(2)), 100);
}

#[test]
fn trade_with_unknown_address_fails() {
    let lookup: Claimer<u8> = Claimer::new();
    let mut m = Module::new();
    let who = Origin::Signed(account(9));
    m.issue_token_airdrop(&who, vec![account(1)], 100).unwrap();
    let r = m.trade_tokens(&lookup, &who, 0, MultiAddress::Id(account(1)), MultiAddress::Index(3), 10);
    assert_eq!(r, Err(DispatchError::CannotLookup));
    let r = m.trade_tokens(&lookup, &who, 0, MultiAddress::Hash256(account(5)), MultiAddress::Id(account(1)), 10);
    assert_eq!(r, Err(DispatchError::CannotLookup));
    let r = m.trade_tokens(&lookup, &who, 0, MultiAddress::Address32(account(1)), MultiAddress::Id(account(1)), 10);
    assert_eq!(r, Err(DispatchError::CannotLookup));
    assert_eq!(m.balances(0, &account(1)), 100);
    let r = m.trade_tokens(&lookup, &Origin::Unsigned, 0, MultiAddress::Id(account(1)), MultiAddress::Id(account(2)), 10);
    assert_eq!(r, Err(DispatchError::BadOrigin));
}

#[test]
fn calculate_length_counts_addresses() {
    let v = vec![MultiAddress::Id(account(1)), MultiAddress::Raw(vec![1, 2]), MultiAddress::Address20([0; 20])];
    assert_eq!(Module::calculate_length(&v), 3);
    assert_eq!(Module::calculate_length(&Vec::new()), 0);
}

#[test]
fn allocator_events_are_plain_values() {
    let e = Event::Transferred(1, account(1), account(2), 5);
    assert_eq!(e, Event::Transferred(1, account(1), account(2), 5));
    assert_ne!(e, Event::Minted(1, account(1), 5));
    assert_ne!(Event::Burned(1, account(1), 5), Event::Minted(1, account(1), 5));
}

#[test]
fn total_supply_starts_empty() {
    let m = Module::new();
    assert_eq!(m.total_supply(0), 0);
    assert_eq!(m.total_supply(7), 0);
}
