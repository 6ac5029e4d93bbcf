use blx_chain::claimer::Module as Claimer;
use blx_chain::loose_lookup::{Error, Module, MATCHED_MARK};
use blx_chain::primitives::{DispatchError, MultiAddress, Origin};

#[test]
fn matching_addresses_mark_the_account() {
    let mut names: Claimer<u8> = Claimer::new();
    names.insert_lookup([40; 32], [1; 32]);
    let mut m = Module::new();
    let r = m.check_name(&names, &Origin::Signed([2; 32]), MultiAddress::Hash256([40; 32]), MultiAddress::Id([1; 32]));
    assert_eq!(r, Ok(()));
    assert_eq!(m.simple_map(&[1; 32]), 5588);
    assert_eq!(MATCHED_MARK, 5588);
}

#[test]
fn different_accounts_mark_nothing() {
    let names: Claimer<u8> = Claimer::new();
    let mut m = Module::new();
    let r = m.check_name(&names, &Origin::Signed([2; 32]), MultiAddress::Id([3; 32]), MultiAddress::Id([1; 32]));
    assert_eq!(r, Ok(()));
    assert_eq!(m.simple_map(&[1; 32]), 0);
    assert_eq!(m.simple_map(&[3; 32]), 0);
}

#[test]
fn check_name_errors() {
    let names: Claimer<u8> = Claimer::new();
    let mut m = Module::new();
    let r = m.check_name(&names, &Origin::Unsigned, MultiAddress::Id([1; 32]), MultiAddress::Id([1; 32]));
    assert_eq!(r, Err(DispatchError::BadOrigin));
    let r = m.check_name(&names, &Origin::Signed([2; 32]), MultiAddress::Raw(vec![1]), MultiAddress::Id([1; 32]));
    assert_eq!(r, Err(DispatchError::CannotLookup));
    assert_eq!(m.simple_map(&[1; 32]), 0);
    assert_eq!(Error::LookupErrorororor, Error::LookupErrorororor);
}
