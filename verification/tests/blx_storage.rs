use blx_chain::blx_storage::{AnnualAllocation, ApnToken, Event, Module};
use blx_chain::primitives::{DispatchError, Origin};

fn signer() -> Origin {
    Origin::Signed([1; 32])
}

#[test]
fn allocation_read_gives_back_write() {
    let mut m = Module::new();
    assert_eq!(m.annual_allocations_by_numbers(4), AnnualAllocation::default());
    assert_eq!(m.insert_annual_allocation(&signer(), 4, [9; 32], 1000), Ok(()));
    assert_eq!(m.annual_allocations_by_numbers(4), AnnualAllocation { number: 4, hash: [9; 32], balance: 1000 });
    assert_eq!(m.annual_allocations_by_numbers(5), AnnualAllocation::default());
    assert_eq!(m.events(), &vec![Event::NewAnnualAllocation(4, [9; 32], 1000)]);
}

#[test]
fn token_with_existing_allocation_copies_it() {
    let mut m = Module::new();
    m.insert_annual_allocation(&signer(), 4, [9; 32], 1000).unwrap();
    assert_eq!(m.insert_apn_token_with_existing_annual_allocation(&signer(), 4, 77), Ok(()));
    let t = m.super_things_by_super_numbers(77);
    assert_eq!(t.super_number, 77);
    assert_eq!(t.annual_allocation, AnnualAllocation { number: 4, hash: [9; 32], balance: 1000 });
    assert_eq!(m.events()[1], Event::NewApnTokenByExistingAnnualAllocation(77, 4, [9; 32], 1000));
}

#[test]
fn token_with_missing_allocation_carries_the_default() {
    let mut m = Module::new();
    assert_eq!(m.insert_apn_token_with_existing_annual_allocation(&signer(), 3, 8), Ok(()));
    let t = m.super_things_by_super_numbers(8);
    assert_eq!(t, ApnToken { super_number: 8, annual_allocation: AnnualAllocation::default() });
    assert_eq!(m.events(), &vec![Event::NewApnTokenByExistingAnnualAllocation(8, 0, [0; 32], 0)]);
}

#[test]
fn token_with_new_allocation_stores_both() {
    let mut m = Module::new();
    assert_eq!(m.insert_apn_token_with_new_annual_allocation(&signer(), 2, [3; 32], 50, 10), Ok(()));
    let a = AnnualAllocation { number: 2, hash: [3; 32], balance: 50 };
    assert_eq!(m.annual_allocations_by_numbers(2), a);
    assert_eq!(m.super_things_by_super_numbers(10).annual_allocation, a);
    assert_eq!(
        m.events(),
        &vec![Event::NewAnnualAllocation(2, [3; 32], 50), Event::NewApnTokenByNewAnnualAllocation(10, 2, [3; 32], 50)]
    );
}

#[test]
fn new_allocation_overwrites_the_old() {
    let mut m = Module::new();
    m.insert_annual_allocation(&signer(), 2, [1; 32], 5).unwrap();
    m.insert_apn_token_with_new_annual_allocation(&signer(), 2, [3; 32], 50, 10).unwrap();
    assert_eq!(m.annual_allocations_by_numbers(2).balance, 50);
}

#[test]
fn unsigned_calls_change_nothing() {
    let mut m = Module::new();
    assert_eq!(m.insert_annual_allocation(&Origin::Unsigned, 4, [9; 32], 1000), Err(DispatchError::BadOrigin));
    assert_eq!(m.insert_apn_token_with_existing_annual_allocation(&Origin::Root, 4, 7), Err(DispatchError::BadOrigin));
    assert_eq!(
        m.insert_apn_token_with_new_annual_allocation(&Origin::Unsigned, 4, [9; 32], 1, 7),
        Err(DispatchError::BadOrigin)
    );
    assert_eq!(m.annual_allocations_by_numbers(4), AnnualAllocation::default());
    assert_eq!(m.super_things_by_super_numbers(7), ApnToken::default());
    assert!(m.events().is_empty());
}
