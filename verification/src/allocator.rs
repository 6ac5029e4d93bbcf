//! The asset allocator pallet: balances of assets per account.
use vstd::prelude::*;

use crate::primitives::{ensure_signed, signed, AccountId, DispatchError, MultiAddress, Origin, StaticLookup};
use crate::storage::StorageMap;

verus! {

/// An asset identifier.
pub type AssetId = u32;

/// An amount of an asset.
pub type Balance1 = u128;

/// Events that the pallet declares.
#[derive(Clone, Copy, Debug, PartialEq, Eq)]
pub enum Event {
    /// An asset moved: asset, from, to, amount.
    Transferred(AssetId, AccountId, AccountId, Balance1),
    /// An asset was minted: asset, account, amount.
    Minted(AssetId, AccountId, Balance1),
    /// An asset was burned: asset, account, amount.
    Burned(AssetId, AccountId, Balance1),
}

/// The pallet's storage.
pub struct Module {
    next_asset_id: AssetId,
    balances: StorageMap<(AssetId, AccountId), Balance1>,
    total_supply: StorageMap<AssetId, Balance1>,
    queue_available: bool,
}

/// The pallet's storage as mathematical values.
pub struct AllocatorView {
    pub next_asset_id: AssetId,
    pub balances: Map<(AssetId, AccountId), Balance1>,
    pub total_supply: Map<AssetId, Balance1>,
    pub queue_available: bool,
}

impl AllocatorView {
    pub open spec fn with_balances(self, balances: Map<(AssetId, AccountId), Balance1>) -> AllocatorView {
        AllocatorView { balances, ..self }
    }

    pub open spec fn with_queue_available(self, queue_available: bool) -> AllocatorView {
        AllocatorView { queue_available, ..self }
    }
}

impl View for Module {
    type V = AllocatorView;

    closed spec fn view(&self) -> AllocatorView {
        AllocatorView {
            next_asset_id: self.next_asset_id,
            balances: self.balances@,
            total_supply: self.total_supply@,
            queue_available: self.queue_available,
        }
    }
}

/// The balance that storage gives back for `(asset, who)`: what was stored, else zero.
pub open spec fn balance_of(m: Map<(AssetId, AccountId), Balance1>, asset: AssetId, who: AccountId) -> Balance1 {
    if m.dom().contains((asset, who)) {
        m[(asset, who)]
    } else {
        0
    }
}

/// The balances after `amt` of `asset` moved from `from` to `to`; both read before either write.
pub open spec fn traded(
    m: Map<(AssetId, AccountId), Balance1>,
    asset: AssetId,
    from: AccountId,
    to: AccountId,
    amt: Balance1,
) -> Map<(AssetId, AccountId), Balance1> {
    m.insert((asset, from), (balance_of(m, asset, from) - amt) as Balance1).insert(
        (asset, to),
        (balance_of(m, asset, to) + amt) as Balance1,
    )
}

/// The balances after each listed account, in order, is given `amt` of `asset`.
pub open spec fn airdropped(
    m: Map<(AssetId, AccountId), Balance1>,
    asset: AssetId,
    accounts: Seq<AccountId>,
    amt: Balance1,
) -> Map<(AssetId, AccountId), Balance1>
    decreases accounts.len(),
{
    if accounts.len() == 0 {
        m
    } else {
        airdropped(m, asset, accounts.drop_last(), amt).insert((asset, accounts.last()), amt)
    }
}

/// Whether both addresses name accounts.
pub open spec fn both_found<L: StaticLookup>(lookie: &L, fromapn: MultiAddress, toapn: MultiAddress) -> bool {
    &&& lookie.lookup_spec(fromapn) is Ok
    &&& lookie.lookup_spec(toapn) is Ok
}

/// Whether a trade can run to its end without an arithmetic failure: once the origin
/// is signed and both addresses name accounts, the sender holds at least `amt` and the
/// receiver's balance stays within range.
pub open spec fn trade_fits<L: StaticLookup>(
    v: AllocatorView,
    lookie: &L,
    origin: Origin,
    asset: AssetId,
    fromapn: MultiAddress,
    toapn: MultiAddress,
    amt: Balance1,
) -> bool {
    (signed(origin) && both_found(lookie, fromapn, toapn)) ==> {
        let from = lookie.lookup_spec(fromapn)->Ok_0;
        let to = lookie.lookup_spec(toapn)->Ok_0;
        &&& balance_of(v.balances, asset, from) >= amt
        &&& balance_of(v.balances, asset, to) + amt <= Balance1::MAX
    }
}

/// An airdrop leaves every listed account with exactly `amt` of the asset and changes no
/// other entry of storage.
pub proof fn lemma_airdrop_effect(
    m: Map<(AssetId, AccountId), Balance1>,
    asset: AssetId,
    accounts: Seq<AccountId>,
    amt: Balance1,
)
    ensures
        forall|a: AccountId| #[trigger]
            accounts.contains(a) ==> balance_of(airdropped(m, asset, accounts, amt), asset, a) == amt,
        forall|k: (AssetId, AccountId)|
            !(k.0 == asset && accounts.contains(k.1)) ==> (#[trigger] airdropped(
                m,
                asset,
                accounts,
                amt,
            ).dom().contains(k) == m.dom().contains(k) && (m.dom().contains(k) ==> airdropped(
                m,
                asset,
                accounts,
                amt,
            )[k] == m[k])),
    decreases accounts.len(),
{
    if accounts.len() > 0 {
        let rest = accounts.drop_last();
        lemma_airdrop_effect(m, asset, rest, amt);
        assert forall|a: AccountId| #[trigger] accounts.contains(a) implies balance_of(
            airdropped(m, asset, accounts, amt),
            asset,
            a,
        ) == amt by {
            if a != accounts.last() {
                let i = choose|i: int| 0 <= i < accounts.len() && accounts[i] == a;
                assert(accounts[accounts.len() - 1] == accounts.last());
                assert(i < accounts.len() - 1);
                assert(rest[i] == a);
                assert(rest.contains(a));
            }
        }
        assert forall|k: (AssetId, AccountId)| !(k.0 == asset && accounts.contains(k.1)) implies (
        #[trigger] airdropped(m, asset, accounts, amt).dom().contains(k) == m.dom().contains(k)
            && (m.dom().contains(k) ==> airdropped(m, asset, accounts, amt)[k] == m[k])) by {
            assert(accounts[accounts.len() - 1] == accounts.last());
            if rest.contains(k.1) {
                let i = choose|i: int| 0 <= i < rest.len() && rest[i] == k.1;
                assert(accounts[i] == k.1);
            }
        }
    }
}

/// A trade between two different accounts moves `amt` from the sender to the receiver:
/// their sum is unchanged, and no other entry of storage changes.
pub proof fn lemma_trade_conserves(
    m: Map<(AssetId, AccountId), Balance1>,
    asset: AssetId,
    from: AccountId,
    to: AccountId,
    amt: Balance1,
)
    requires
        from != to,
        balance_of(m, asset, from) >= amt,
        balance_of(m, asset, to) + amt <= Balance1::MAX,
    ensures
        balance_of(traded(m, asset, from, to, amt), asset, from) == balance_of(m, asset, from) - amt,
        balance_of(traded(m, asset, from, to, amt), asset, to) == balance_of(m, asset, to) + amt,
        balance_of(traded(m, asset, from, to, amt), asset, from) + balance_of(
            traded(m, asset, from, to, amt),
            asset,
            to,
        ) == balance_of(m, asset, from) + balance_of(m, asset, to),
        forall|k: (AssetId, AccountId)|
            k != (asset, from) && k != (asset, to) ==> (#[trigger] traded(
                m,
                asset,
                from,
                to,
                amt,
            ).dom().contains(k) == m.dom().contains(k) && (m.dom().contains(k) ==> traded(
                m,
                asset,
                from,
                to,
                amt,
            )[k] == m[k])),
{
}

impl Module {
    /// The pallet's storage at genesis: every item at its default.
    pub fn new() -> (m: Self)
        ensures
            m@.next_asset_id == 0,
            m@.balances == Map::<(AssetId, AccountId), Balance1>::empty(),
            m@.total_supply == Map::<AssetId, Balance1>::empty(),
            !m@.queue_available,
    {
        Module {
            next_asset_id: 0,
            balances: StorageMap::new(),
            total_supply: StorageMap::new(),
            queue_available: false,
        }
    }

    /// Flags that a task is queued.
    pub fn insert_new_task(&mut self, origin: &Origin) -> (r: Result<(), DispatchError>)
        ensures
            signed(*origin) ==> r == Ok::<(), DispatchError>(()),
            signed(*origin) ==> final(self)@ == old(self)@.with_queue_available(true),
            !signed(*origin) ==> r == Err::<(), DispatchError>(DispatchError::BadOrigin),
            !signed(*origin) ==> final(self)@ == old(self)@,
    {
        let _ = ensure_signed(origin)?;
        self.queue_available = true;
        Ok(())
    }

    /// Moves `amt` of `asset_id` between the accounts that two addresses name.
    pub fn trade_tokens<L: StaticLookup>(
        &mut self,
        lookie: &L,
        origin: &Origin,
        asset_id: AssetId,
        fromapn: MultiAddress,
        toapn: MultiAddress,
        amt: Balance1,
    ) -> (r: Result<(), DispatchError>)
        requires
            trade_fits(old(self)@, lookie, *origin, asset_id, fromapn, toapn, amt),
        ensures
            !signed(*origin) ==> r == Err::<(), DispatchError>(DispatchError::BadOrigin),
            !signed(*origin) ==> final(self)@ == old(self)@,
            signed(*origin) && !both_found(lookie, fromapn, toapn) ==> r == Err::<(), DispatchError>(
                DispatchError::CannotLookup,
            ),
            signed(*origin) && !both_found(lookie, fromapn, toapn) ==> final(self)@ == old(self)@,
            signed(*origin) && both_found(lookie, fromapn, toapn) ==> r == Ok::<(), DispatchError>(()),
            signed(*origin) && both_found(lookie, fromapn, toapn) ==> final(self)@ == old(
                self,
            )@.with_balances(
                traded(
                    old(self)@.balances,
                    asset_id,
                    lookie.lookup_spec(fromapn)->Ok_0,
                    lookie.lookup_spec(toapn)->Ok_0,
                    amt,
                ),
            ),
    {
        let _sender = ensure_signed(origin)?;
        let target_from = match lookie.lookup(fromapn) {
            Ok(a) => a,
            Err(_) => return Err(DispatchError::CannotLookup),
        };
        let target_to = match lookie.lookup(toapn) {
            Ok(a) => a,
            Err(_) => return Err(DispatchError::CannotLookup),
        };
        let from_balance = self.balances(asset_id, &target_from);
        let to_balance = self.balances(asset_id, &target_to);
        let updated_from = from_balance - amt;
        let updated_to = to_balance + amt;
        self.balances.insert((asset_id, target_from), updated_from);
        self.balances.insert((asset_id, target_to), updated_to);
        Ok(())
    }

    /// Gives every listed account `atokens` of the next asset, overwriting what it held.
    pub fn issue_token_airdrop(&mut self, origin: &Origin, apn: Vec<AccountId>, atokens: Balance1) -> (r: Result<
        (),
        DispatchError,
    >)
        ensures
            !signed(*origin) ==> r == Err::<(), DispatchError>(DispatchError::BadOrigin),
            !signed(*origin) ==> final(self)@ == old(self)@,
            signed(*origin) ==> r == Ok::<(), DispatchError>(()),
            signed(*origin) ==> final(self)@ == old(self)@.with_balances(
                airdropped(old(self)@.balances, old(self)@.next_asset_id, apn@, atokens),
            ),
    {
        let _sender = ensure_signed(origin)?;
        let asset_id = self.next_asset_id;
        let ghost start = self.balances@;
        let mut i: usize = 0;
        while i < apn.len()
            invariant
                0 <= i <= apn@.len(),
                asset_id == self.next_asset_id,
                self.balances@ == airdropped(start, asset_id, apn@.take(i as int), atokens),
                self@ == old(self)@.with_balances(self.balances@),
            decreases apn@.len() - i,
        {
            proof {
                assert(apn@.take(i + 1).drop_last() =~= apn@.take(i as int));
            }
            self.balances.insert((asset_id, apn[i]), atokens);
            i = i + 1;
        }
        proof {
            assert(apn@.take(apn@.len() as int) =~= apn@);
        }
        Ok(())
    }

    /// The number of addresses in a list.
    pub fn calculate_length(vec_apn: &Vec<MultiAddress>) -> (r: usize)
        ensures
            r == vec_apn@.len(),
    {
        vec_apn.len()
    }

    /// The next available asset identifier.
    pub fn next_asset_id(&self) -> (r: AssetId)
        ensures
            r == self@.next_asset_id,
    {
        self.next_asset_id
    }

    /// The balance of `who` in `asset_id`, zero where nothing was stored.
    pub fn balances(&self, asset_id: AssetId, who: &AccountId) -> (r: Balance1)
        ensures
            r == balance_of(self@.balances, asset_id, *who),
    {
        match self.balances.get(&(asset_id, *who)) {
            Some(b) => *b,
            None => 0,
        }
    }

    /// The total supply of `asset_id`, zero where nothing was stored.
    pub fn total_supply(&self, asset_id: AssetId) -> (r: Balance1)
        ensures
            r == (if self@.total_supply.dom().contains(asset_id) {
                self@.total_supply[asset_id]
            } else {
                0
            }),
    {
        match self.total_supply.get(&asset_id) {
            Some(b) => *b,
            None => 0,
        }
    }

    /// Whether a task is queued.
    pub fn queue_available(&self) -> (r: bool)
        ensures
            r == self@.queue_available,
    {
        self.queue_available
    }
}

} // verus!
