//! The loose-lookup pallet: marks an account whose two addresses name the same account.
use vstd::prelude::*;

use crate::primitives::{ensure_signed, signed, AccountId, DispatchError, MultiAddress, Origin, StaticLookup};
use crate::storage::StorageMap;

verus! {

/// The value stored for an account whose two addresses matched.
pub const MATCHED_MARK: u32 = 5588;

/// Errors that the pallet declares.
#[derive(Clone, Copy, Debug, PartialEq, Eq)]
pub enum Error {
    LookupErrorororor,
}

/// The pallet's storage.
pub struct Module {
    simple_map: StorageMap<AccountId, u32>,
}

impl View for Module {
    type V = Map<AccountId, u32>;

    closed spec fn view(&self) -> Map<AccountId, u32> {
        self.simple_map@
    }
}

/// The value that storage gives back for `who`: what was stored, else zero.
pub open spec fn mark_of(m: Map<AccountId, u32>, who: AccountId) -> u32 {
    if m.dom().contains(who) {
        m[who]
    } else {
        0
    }
}

/// The storage after a successful check: marked where both addresses name one account.
pub open spec fn after_check<L: StaticLookup>(
    m: Map<AccountId, u32>,
    lookie: &L,
    xxx: MultiAddress,
    account: MultiAddress,
) -> Map<AccountId, u32> {
    if lookie.lookup_spec(xxx)->Ok_0 == lookie.lookup_spec(account)->Ok_0 {
        m.insert(lookie.lookup_spec(account)->Ok_0, MATCHED_MARK)
    } else {
        m
    }
}

/// Whether both addresses name accounts.
pub open spec fn both_found<L: StaticLookup>(lookie: &L, xxx: MultiAddress, account: MultiAddress) -> bool {
    &&& lookie.lookup_spec(xxx) is Ok
    &&& lookie.lookup_spec(account) is Ok
}

/// After a check of two addresses that name accounts, an account is marked exactly when
/// both addresses name it, and every other account keeps its value.
pub proof fn lemma_check_marks_matching<L: StaticLookup>(
    m: Map<AccountId, u32>,
    lookie: &L,
    xxx: MultiAddress,
    account: MultiAddress,
    who: AccountId,
)
    requires
        both_found(lookie, xxx, account),
    ensures
        (lookie.lookup_spec(xxx) == lookie.lookup_spec(account) && lookie.lookup_spec(account)->Ok_0 == who)
            ==> mark_of(after_check(m, lookie, xxx, account), who) == MATCHED_MARK,
        lookie.lookup_spec(xxx) != lookie.lookup_spec(account) ==> after_check(m, lookie, xxx, account) == m,
        who != lookie.lookup_spec(account)->Ok_0 ==> mark_of(after_check(m, lookie, xxx, account), who)
            == mark_of(m, who),
{
}

impl Module {
    /// The pallet's storage at genesis: an empty map.
    pub fn new() -> (m: Self)
        ensures
            m@ == Map::<AccountId, u32>::empty(),
    {
        Module { simple_map: StorageMap::new() }
    }

    /// Looks both addresses up; where they name the same account, marks it.
    pub fn check_name<L: StaticLookup>(
        &mut self,
        lookie: &L,
        origin: &Origin,
        xxx: MultiAddress,
        account: MultiAddress,
    ) -> (r: Result<(), DispatchError>)
        ensures
            !signed(*origin) ==> r == Err::<(), DispatchError>(DispatchError::BadOrigin),
            !signed(*origin) ==> final(self)@ == old(self)@,
            signed(*origin) && !both_found(lookie, xxx, account) ==> r == Err::<(), DispatchError>(
                DispatchError::CannotLookup,
            ),
            signed(*origin) && !both_found(lookie, xxx, account) ==> final(self)@ == old(self)@,
            signed(*origin) && both_found(lookie, xxx, account) ==> r == Ok::<(), DispatchError>(()),
            signed(*origin) && both_found(lookie, xxx, account) ==> final(self)@ == after_check(
                old(self)@,
                lookie,
                xxx,
                account,
            ),
    {
        let _caller = ensure_signed(origin)?;
        let target_from_name = match lookie.lookup(xxx) {
            Ok(a) => a,
            Err(_) => return Err(DispatchError::CannotLookup),
        };
        let target_from_account = match lookie.lookup(account) {
            Ok(a) => a,
            Err(_) => return Err(DispatchError::CannotLookup),
        };
        if crate::storage::bytes32_eq(&target_from_name, &target_from_account) {
            self.simple_map.insert(target_from_account, MATCHED_MARK);
        }
        Ok(())
    }

    /// The value stored for `who`, zero where nothing was stored.
    pub fn simple_map(&self, who: &AccountId) -> (r: u32)
        ensures
            r == mark_of(self@, *who),
    {
        match self.simple_map.get(who) {
            Some(v) => *v,
            None => 0,
        }
    }
}

} // verus!
