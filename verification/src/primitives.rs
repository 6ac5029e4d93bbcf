use vstd::prelude::*;

use crate::claimer::ClaimerError;

verus! {

/// An account of the chain: 32 bytes.
pub type AccountId = [u8; 32];

/// A 32-byte hash.
pub type H256 = [u8; 32];

/// A registered name: 32 bytes.
pub type Name = [u8; 32];

/// The origin of a dispatched call.
#[derive(Clone, Copy, Debug, PartialEq, Eq)]
pub enum Origin {
    Root,
    Signed(AccountId),
    Unsigned,
}

/// Whether the origin carries a signature.
pub open spec fn signed(origin: Origin) -> bool {
    origin is Signed
}

/// Why a dispatched call failed.
#[derive(Clone, Copy, Debug, PartialEq, Eq)]
pub enum DispatchError {
    /// The call needed a signed origin.
    BadOrigin,
    /// An address could not be turned into an account.
    CannotLookup,
    /// An error of the claimer pallet.
    Claimer(ClaimerError),
}

/// The account that signed the call, or `BadOrigin`.
pub fn ensure_signed(origin: &Origin) -> (r: Result<AccountId, DispatchError>)
    ensures
        match origin {
            Origin::Signed(who) => r == Ok::<AccountId, DispatchError>(*who),
            _ => r == Err::<AccountId, DispatchError>(DispatchError::BadOrigin),
        },
{
    match origin {
        Origin::Signed(who) => Ok(*who),
        _ => Err(DispatchError::BadOrigin),
    }
}

/// The ways a call can name an account.
#[derive(Clone, Debug, PartialEq, Eq)]
pub enum MultiAddress {
    /// The account itself.
    Id(AccountId),
    /// An account index.
    Index(u32),
    /// Some raw bytes.
    Raw(Vec<u8>),
    /// A 32-byte address.
    Address32([u8; 32]),
    /// A 20-byte address.
    Address20([u8; 20]),
    /// A 32-byte hash of a registered name.
    Hash256([u8; 32]),
}

/// An address that names no account.
#[derive(Clone, Copy, Debug, PartialEq, Eq)]
pub struct LookupError;

/// Turns the addresses that calls carry into accounts.
pub trait StaticLookup {
    spec fn lookup_spec(&self, a: MultiAddress) -> Result<AccountId, LookupError>;

    spec fn unlookup_spec(&self, t: AccountId) -> MultiAddress;

    fn lookup(&self, a: MultiAddress) -> (r: Result<AccountId, LookupError>)
        ensures
            r == self.lookup_spec(a),
    ;

    fn unlookup(&self, t: AccountId) -> (r: MultiAddress)
        ensures
            r == self.unlookup_spec(t),
    ;
}

} // verus!
