//! The BLX storage pallet: annual allocations, and APN tokens that carry one.
use vstd::prelude::*;

use crate::primitives::{ensure_signed, signed, DispatchError, H256, Origin};
use crate::storage::StorageMap;

verus! {

/// An amount of water.
pub type Balance = u128;

/// One year's allocation.
#[derive(Clone, Copy, Debug, PartialEq, Eq)]
pub struct AnnualAllocation {
    pub number: u32,
    pub hash: H256,
    pub balance: Balance,
}

/// An APN token and the allocation it carries.
#[derive(Clone, Copy, Debug, PartialEq, Eq)]
pub struct ApnToken {
    pub super_number: u32,
    pub annual_allocation: AnnualAllocation,
}

/// The all-zero hash.
pub open spec fn zero_hash() -> H256 {
    vstd::array::spec_array_fill_for_copy_type::<u8, 32>(0u8)
}

/// The allocation that storage gives back where none was stored.
pub open spec fn default_allocation() -> AnnualAllocation {
    AnnualAllocation { number: 0, hash: zero_hash(), balance: 0 }
}

/// The token that storage gives back where none was stored.
pub open spec fn default_token() -> ApnToken {
    ApnToken { super_number: 0, annual_allocation: default_allocation() }
}

impl Default for AnnualAllocation {
    fn default() -> (r: Self)
        ensures
            r == default_allocation(),
    {
        AnnualAllocation {
            number: 0,
            hash: vstd::array::array_fill_for_copy_types(0u8),
            balance: 0,
        }
    }
}

impl Default for ApnToken {
    fn default() -> (r: Self)
        ensures
            r == default_token(),
    {
        ApnToken { super_number: 0, annual_allocation: AnnualAllocation::default() }
    }
}

/// Events of the pallet.
#[derive(Clone, Copy, Debug, PartialEq, Eq)]
pub enum Event {
    /// An allocation was stored: number, hash, balance.
    NewAnnualAllocation(u32, H256, Balance),
    /// A token was stored with a stored allocation: token number, allocation number, hash, balance.
    NewApnTokenByExistingAnnualAllocation(u32, u32, H256, Balance),
    /// A token was stored with a new allocation: token number, allocation number, hash, balance.
    NewApnTokenByNewAnnualAllocation(u32, u32, H256, Balance),
}

/// The pallet's storage and the events it deposited.
pub struct Module {
    annual_allocations_by_numbers: StorageMap<u32, AnnualAllocation>,
    apn_tokens_by_super_numbers: StorageMap<u32, ApnToken>,
    events: Vec<Event>,
}

/// The pallet's storage as mathematical values.
pub struct BlxView {
    pub allocations: Map<u32, AnnualAllocation>,
    pub tokens: Map<u32, ApnToken>,
    pub events: Seq<Event>,
}

impl View for Module {
    type V = BlxView;

    closed spec fn view(&self) -> BlxView {
        BlxView {
            allocations: self.annual_allocations_by_numbers@,
            tokens: self.apn_tokens_by_super_numbers@,
            events: self.events@,
        }
    }
}

/// The allocation that storage gives back for `number`.
pub open spec fn allocation_at(v: BlxView, number: u32) -> AnnualAllocation {
    if v.allocations.dom().contains(number) {
        v.allocations[number]
    } else {
        default_allocation()
    }
}

/// The token that storage gives back for `super_number`.
pub open spec fn token_at(v: BlxView, super_number: u32) -> ApnToken {
    if v.tokens.dom().contains(super_number) {
        v.tokens[super_number]
    } else {
        default_token()
    }
}

/// Storing an allocation under its number.
pub open spec fn after_insert_allocation(v: BlxView, number: u32, hash: H256, balance: Balance) -> BlxView {
    let allocation = AnnualAllocation { number, hash, balance };
    BlxView {
        allocations: v.allocations.insert(number, allocation),
        tokens: v.tokens,
        events: v.events.push(Event::NewAnnualAllocation(number, hash, balance)),
    }
}

/// Storing a token that carries the allocation stored under `inner_number`.
pub open spec fn after_token_with_existing(v: BlxView, inner_number: u32, super_number: u32) -> BlxView {
    let allocation = allocation_at(v, inner_number);
    BlxView {
        allocations: v.allocations,
        tokens: v.tokens.insert(super_number, ApnToken { super_number, annual_allocation: allocation }),
        events: v.events.push(
            Event::NewApnTokenByExistingAnnualAllocation(
                super_number,
                allocation.number,
                allocation.hash,
                allocation.balance,
            ),
        ),
    }
}

/// Storing a new allocation, then a token that carries it.
pub open spec fn after_token_with_new(
    v: BlxView,
    inner_number: u32,
    hash: H256,
    balance: Balance,
    super_number: u32,
) -> BlxView {
    let allocation = AnnualAllocation { number: inner_number, hash, balance };
    BlxView {
        allocations: v.allocations.insert(inner_number, allocation),
        tokens: v.tokens.insert(super_number, ApnToken { super_number, annual_allocation: allocation }),
        events: v.events.push(Event::NewAnnualAllocation(inner_number, hash, balance)).push(
            Event::NewApnTokenByNewAnnualAllocation(super_number, inner_number, hash, balance),
        ),
    }
}

/// A token stored with a new allocation carries the very allocation that is now stored
/// under the allocation's number, and storing the allocation and then a token with it in
/// two calls leaves the same storage.
pub proof fn lemma_new_allocation_is_shared(
    v: BlxView,
    inner_number: u32,
    hash: H256,
    balance: Balance,
    super_number: u32,
)
    ensures
        token_at(after_token_with_new(v, inner_number, hash, balance, super_number), super_number).annual_allocation
            == allocation_at(after_token_with_new(v, inner_number, hash, balance, super_number), inner_number),
        after_token_with_existing(after_insert_allocation(v, inner_number, hash, balance), inner_number, super_number).allocations
            == after_token_with_new(v, inner_number, hash, balance, super_number).allocations,
        after_token_with_existing(after_insert_allocation(v, inner_number, hash, balance), inner_number, super_number).tokens
            == after_token_with_new(v, inner_number, hash, balance, super_number).tokens,
{
}

/// What a read of an allocation gives back is what the last write under its number stored.
pub proof fn lemma_read_allocation_after_write(v: BlxView, number: u32, other: u32, hash: H256, balance: Balance)
    ensures
        allocation_at(after_insert_allocation(v, number, hash, balance), number) == (AnnualAllocation {
            number,
            hash,
            balance,
        }),
        other != number ==> allocation_at(after_insert_allocation(v, number, hash, balance), other)
            == allocation_at(v, other),
{
}

/// Storing an allocation touches no token and no other allocation.
pub proof fn lemma_insert_allocation_frame(v: BlxView, number: u32, hash: H256, balance: Balance, other: u32)
    ensures
        after_insert_allocation(v, number, hash, balance).tokens == v.tokens,
        other != number ==> allocation_at(after_insert_allocation(v, number, hash, balance), other) == allocation_at(
            v,
            other,
        ),
        after_insert_allocation(v, number, hash, balance).events.len() == v.events.len() + 1,
{
}

/// Storing a token that carries a stored allocation gives back, under its number, that
/// allocation, changes no other token and no allocation at all.
pub proof fn lemma_token_with_existing_frame(v: BlxView, inner_number: u32, super_number: u32, other: u32)
    ensures
        token_at(after_token_with_existing(v, inner_number, super_number), super_number) == (ApnToken {
            super_number,
            annual_allocation: allocation_at(v, inner_number),
        }),
        other != super_number ==> token_at(after_token_with_existing(v, inner_number, super_number), other)
            == token_at(v, other),
        other != super_number ==> after_token_with_existing(v, inner_number, super_number).tokens.dom().contains(
            other,
        ) == v.tokens.dom().contains(other),
        after_token_with_existing(v, inner_number, super_number).allocations == v.allocations,
{
}

/// Storing a token with a new allocation gives back the token under its number and the
/// allocation under its own, and changes no other token and no other allocation.
pub proof fn lemma_token_with_new_frame(
    v: BlxView,
    inner_number: u32,
    hash: H256,
    balance: Balance,
    super_number: u32,
    other: u32,
)
    ensures
        token_at(after_token_with_new(v, inner_number, hash, balance, super_number), super_number) == (ApnToken {
            super_number,
            annual_allocation: AnnualAllocation { number: inner_number, hash, balance },
        }),
        allocation_at(after_token_with_new(v, inner_number, hash, balance, super_number), inner_number) == (
        AnnualAllocation { number: inner_number, hash, balance }),
        other != super_number ==> token_at(after_token_with_new(v, inner_number, hash, balance, super_number), other)
            == token_at(v, other),
        other != super_number ==> after_token_with_new(v, inner_number, hash, balance, super_number).tokens.dom().contains(
            other,
        ) == v.tokens.dom().contains(other),
        other != inner_number ==> allocation_at(
            after_token_with_new(v, inner_number, hash, balance, super_number),
            other,
        ) == allocation_at(v, other),
{
}

impl Module {
    /// The pallet's storage at genesis: empty maps, no events.
    pub fn new() -> (m: Self)
        ensures
            m@.allocations == Map::<u32, AnnualAllocation>::empty(),
            m@.tokens == Map::<u32, ApnToken>::empty(),
            m@.events == Seq::<Event>::empty(),
    {
        Module {
            annual_allocations_by_numbers: StorageMap::new(),
            apn_tokens_by_super_numbers: StorageMap::new(),
            events: Vec::new(),
        }
    }

    /// Stores an allocation under its number.
    pub fn insert_annual_allocation(&mut self, origin: &Origin, number: u32, hash: H256, balance: Balance) -> (r:
        Result<(), DispatchError>)
        ensures
            signed(*origin) ==> r == Ok::<(), DispatchError>(()),
            signed(*origin) ==> final(self)@ == after_insert_allocation(old(self)@, number, hash, balance),
            !signed(*origin) ==> r == Err::<(), DispatchError>(DispatchError::BadOrigin),
            !signed(*origin) ==> final(self)@ == old(self)@,
    {
        let _ = ensure_signed(origin)?;
        let thing = AnnualAllocation { number, hash, balance };
        self.annual_allocations_by_numbers.insert(number, thing);
        self.events.push(Event::NewAnnualAllocation(number, hash, balance));
        Ok(())
    }

    /// Stores a token that carries the allocation stored under `inner_number`.
    pub fn insert_apn_token_with_existing_annual_allocation(
        &mut self,
        origin: &Origin,
        inner_number: u32,
        super_number: u32,
    ) -> (r: Result<(), DispatchError>)
        ensures
            signed(*origin) ==> r == Ok::<(), DispatchError>(()),
            signed(*origin) ==> final(self)@ == after_token_with_existing(old(self)@, inner_number, super_number),
            !signed(*origin) ==> r == Err::<(), DispatchError>(DispatchError::BadOrigin),
            !signed(*origin) ==> final(self)@ == old(self)@,
    {
        let _ = ensure_signed(origin)?;
        let annual_allocation = self.annual_allocations_by_numbers(inner_number);
        let apn_token = ApnToken { super_number, annual_allocation };
        self.apn_tokens_by_super_numbers.insert(super_number, apn_token);
        self.events.push(
            Event::NewApnTokenByExistingAnnualAllocation(
                super_number,
                annual_allocation.number,
                annual_allocation.hash,
                annual_allocation.balance,
            ),
        );
        Ok(())
    }

    /// Stores a new allocation, then a token that carries it.
    pub fn insert_apn_token_with_new_annual_allocation(
        &mut self,
        origin: &Origin,
        inner_number: u32,
        hash: H256,
        balance: Balance,
        super_number: u32,
    ) -> (r: Result<(), DispatchError>)
        ensures
            signed(*origin) ==> r == Ok::<(), DispatchError>(()),
            signed(*origin) ==> final(self)@ == after_token_with_new(
                old(self)@,
                inner_number,
                hash,
                balance,
                super_number,
            ),
            !signed(*origin) ==> r == Err::<(), DispatchError>(DispatchError::BadOrigin),
            !signed(*origin) ==> final(self)@ == old(self)@,
    {
        let _ = ensure_signed(origin)?;
        let annual_allocation = AnnualAllocation { number: inner_number, hash, balance };
        self.annual_allocations_by_numbers.insert(inner_number, annual_allocation);
        self.events.push(Event::NewAnnualAllocation(inner_number, hash, balance));
        let apn_token = ApnToken { super_number, annual_allocation };
        self.apn_tokens_by_super_numbers.insert(super_number, apn_token);
        self.events.push(Event::NewApnTokenByNewAnnualAllocation(super_number, inner_number, hash, balance));
        Ok(())
    }

    /// The allocation stored under `number`, or the default one.
    pub fn annual_allocations_by_numbers(&self, number: u32) -> (r: AnnualAllocation)
        ensures
            r == allocation_at(self@, number),
    {
        match self.annual_allocations_by_numbers.get(&number) {
            Some(a) => *a,
            None => AnnualAllocation::default(),
        }
    }

    /// The token stored under `super_number`, or the default one.
    pub fn super_things_by_super_numbers(&self, super_number: u32) -> (r: ApnToken)
        ensures
            r == token_at(self@, super_number),
    {
        match self.apn_tokens_by_super_numbers.get(&super_number) {
            Some(t) => *t,
            None => ApnToken::default(),
        }
    }

    /// The events deposited so far, oldest first.
    pub fn events(&self) -> (r: &Vec<Event>)
        ensures
            r@ == self@.events,
    {
        &self.events
    }
}

} // verus!
