//! The claimer pallet: a stakeholder claims an APN token by parcel number.
use vstd::prelude::*;
use vstd::utf8::*;

use crate::primitives::{
    ensure_signed, signed, AccountId, DispatchError, LookupError, MultiAddress, Name, Origin, StaticLookup,
    H256,
};
use crate::storage::StorageMap;
use crate::text::{decimal, decimal_string, utf8_or};

pub mod offchain;

verus! {

/// The index of a group.
pub type GroupIndex = u32;

/// Length of the number vectors that the pallet declares.
pub const NUM_VEC_LEN: usize = 10;

/// The water balance that a newly claimed token starts with.
pub const EMPTY_TANK: u64 = 200;

/// The annual water budget at genesis.
pub const DEFAULT_TOTAL_ANNUAL_BUDGET: u64 = 2100;

/// The task number under which the queued task is kept.
pub const QUEUED_TASK: u32 = 1;

/// Errors of the claimer pallet.
#[derive(Clone, Copy, Debug, PartialEq, Eq)]
pub enum ClaimerError {
    SignedSubmitNumberError,
    HttpFetchingError0,
    HttpFetchingError1,
    HttpFetchingError2,
    HttpFetchingError3,
    HttpFetchingError4,
    HttpFetchingError5,
    HttpFetchingError6,
    HttpFetchingError7,
    HttpFetchingError8,
    HttpFetchingError9,
    AlreadyFetched,
    ApnsDontMatch,
    UnexpectedState,
    InvalidName,
    InvalidBid,
    InvalidClaim,
    NotBidder,
    NotExpired,
    AlreadyAvailable,
    Permanent,
    NotOwner,
    NotAssigned,
    NoExtensions,
}

/// A basin and its owner.
#[derive(Clone, Copy, Debug, PartialEq, Eq)]
pub struct BasinOwnerId {
    pub owner: AccountId,
    pub basin_id: u32,
}

/// A claimed APN token.
#[derive(Clone, Debug, PartialEq, Eq)]
pub struct ApnToken {
    pub super_apn: u32,
    pub agency_name: Vec<u8>,
    pub area: u32,
    pub owner: AccountId,
}

/// Whether two tokens hold the same values.
pub open spec fn same_token(a: ApnToken, b: ApnToken) -> bool {
    &&& a.super_apn == b.super_apn
    &&& a.agency_name@ == b.agency_name@
    &&& a.area == b.area
    &&& a.owner == b.owner
}

/// Whether a token is the one that storage gives back where none was claimed.
pub open spec fn is_default_token(t: ApnToken) -> bool {
    &&& t.super_apn == 0
    &&& t.agency_name@.len() == 0
    &&& t.area == 0
    &&& t.owner == vstd::array::spec_array_fill_for_copy_type::<u8, 32>(0u8)
}

impl Default for ApnToken {
    fn default() -> (r: Self)
        ensures
            is_default_token(r),
    {
        ApnToken {
            super_apn: 0,
            agency_name: Vec::new(),
            area: 0,
            owner: vstd::array::array_fill_for_copy_types(0u8),
        }
    }
}

/// One year's allocation of an APN.
#[derive(Clone, Copy, Debug, PartialEq, Eq)]
pub struct AnnualAllocation {
    pub apn: u32,
    pub year: u32,
    pub hash: H256,
    pub current_years_allocation: u32,
}

/// Where and how to fetch a task's data.
#[derive(Clone, Debug, PartialEq, Eq)]
pub struct TaskQueue {
    pub http_remote_reqst: Vec<u8>,
    pub http_header_usr: Vec<u8>,
}

/// A queued task: the APN to fetch.
#[derive(Clone, Copy, Debug, PartialEq, Eq)]
pub struct TaskQueueTwo {
    pub apn: u32,
}

/// The parcel data that the off-chain worker fetches.
#[derive(Clone, Debug, PartialEq, Eq)]
pub struct GithubInfo {
    pub apn: u32,
    pub agencyname: Vec<u8>,
    pub shape_area: u32,
}

/// The text form of parcel data, where its agency name is UTF-8.
pub open spec fn described(info: GithubInfo) -> Seq<char> {
    "{ apn: "@ + decimal(info.apn as nat) + ", agencyname: "@ + decode_utf8(info.agencyname@)
        + ", shape_area: "@ + decimal(info.shape_area as nat) + " }"@
}

impl GithubInfo {
    /// The text form of the parcel data; nothing where the agency name is not UTF-8.
    pub fn describe(&self) -> (r: Option<String>)
        ensures
            valid_utf8(self.agencyname@) ==> r is Some && r->Some_0@ == described(*self),
            !valid_utf8(self.agencyname@) ==> r is None,
    {
        let name = match utf8_or(self.agencyname.as_slice(), ()) {
            Ok(n) => n,
            Err(()) => return None,
        };
        let mut out = String::from_str("{ apn: ");
        let apn = decimal_string(self.apn);
        out.append(apn.as_str());
        out.append(", agencyname: ");
        out.append(name.as_str());
        out.append(", shape_area: ");
        let area = decimal_string(self.shape_area);
        out.append(area.as_str());
        out.append(" }");
        Some(out)
    }
}

/// The bytes of a string, as a serde field reader hands them to the pallet.
pub fn de_string_to_bytes(s: &str) -> (r: Vec<u8>)
    ensures
        r@ == encode_utf8(s@),
{
    vstd::slice::slice_to_vec(s.as_bytes())
}

/// Events of the pallet.
#[derive(Clone, Copy, Debug, PartialEq, Eq)]
pub enum Event {
    NewMember(AccountId),
    /// A token was claimed: basin, APN.
    NewApnTokenClaimed(u32, u32),
    NameClaimed(Name, AccountId, u32),
    NameFreed(Name),
    NameSet(Name),
    NameAssigned(Name, AccountId),
    NameUnassigned(Name),
}

/// What the off-chain worker does in a run.
#[derive(Clone, Copy, Debug, PartialEq, Eq)]
pub enum OffchainTask {
    /// Fetch the queued task's data, where it was not fetched before.
    FetchIfNeeded,
    /// Submit the fetched data in a signed transaction.
    SignedSubmitApn,
}

/// The pallet's storage and the events it deposited; `S` is the status of a registered name.
pub struct Module<S> {
    registration: StorageMap<Name, S>,
    lookup: StorageMap<Name, AccountId>,
    apn_tokens_by_super_apns: StorageMap<u32, ApnToken>,
    water_balance_by_super_apns: StorageMap<u32, u64>,
    total_annual_budget: u64,
    balance_apntokens: StorageMap<(u32, AccountId), u32>,
    task_queue_by_number: StorageMap<u32, TaskQueueTwo>,
    queue_available: bool,
    task_number: u32,
    events: Vec<Event>,
}

/// The pallet's storage as mathematical values.
pub struct ClaimerView<S> {
    pub registration: Map<Name, S>,
    pub lookup: Map<Name, AccountId>,
    pub tokens: Map<u32, ApnToken>,
    pub water_balances: Map<u32, u64>,
    pub total_annual_budget: u64,
    pub balance_apntokens: Map<(u32, AccountId), u32>,
    pub task_queue: Map<u32, TaskQueueTwo>,
    pub queue_available: bool,
    pub task_number: u32,
    pub events: Seq<Event>,
}

impl<S> View for Module<S> {
    type V = ClaimerView<S>;

    closed spec fn view(&self) -> ClaimerView<S> {
        ClaimerView {
            registration: self.registration@,
            lookup: self.lookup@,
            tokens: self.apn_tokens_by_super_apns@,
            water_balances: self.water_balance_by_super_apns@,
            total_annual_budget: self.total_annual_budget,
            balance_apntokens: self.balance_apntokens@,
            task_queue: self.task_queue_by_number@,
            queue_available: self.queue_available,
            task_number: self.task_number,
            events: self.events@,
        }
    }
}

/// The APN of the queued task: what is stored under the queued task's number, else zero.
pub open spec fn queued_apn<S>(v: ClaimerView<S>) -> u32 {
    if v.task_queue.dom().contains(QUEUED_TASK) {
        v.task_queue[QUEUED_TASK].apn
    } else {
        0
    }
}

/// The water balance that storage gives back for an APN: what was stored, else zero.
pub open spec fn water_balance_of<S>(v: ClaimerView<S>, apn: u32) -> u64 {
    if v.water_balances.dom().contains(apn) {
        v.water_balances[apn]
    } else {
        0
    }
}

/// The account that an address names, by way of the name registry.
pub open spec fn lookup_in(names: Map<Name, AccountId>, a: MultiAddress) -> Result<AccountId, LookupError> {
    match a {
        MultiAddress::Id(id) => Ok(id),
        MultiAddress::Hash256(hash) => if names.dom().contains(hash) {
            Ok(names[hash])
        } else {
            Err(LookupError)
        },
        _ => Err(LookupError),
    }
}

/// Queueing a task for `apn`.
pub open spec fn after_insert_task<S>(v: ClaimerView<S>, apn: u32) -> ClaimerView<S> {
    ClaimerView {
        task_queue: v.task_queue.insert(QUEUED_TASK, TaskQueueTwo { apn }),
        queue_available: true,
        ..v
    }
}

/// Marking that no task is queued.
pub open spec fn after_empty_tasks<S>(v: ClaimerView<S>) -> ClaimerView<S> {
    ClaimerView { queue_available: false, ..v }
}

/// Registering a name's status.
pub open spec fn after_set_name<S>(v: ClaimerView<S>, name: Name, state: S) -> ClaimerView<S> {
    ClaimerView {
        registration: v.registration.insert(name, state),
        events: v.events.push(Event::NameSet(name)),
        ..v
    }
}

/// Claiming the token of `super_apn` for `who`.
pub open spec fn after_update_apn<S>(
    v: ClaimerView<S>,
    who: AccountId,
    basin_id: u32,
    super_apn: u32,
    agency_name: Vec<u8>,
    area: u32,
) -> ClaimerView<S> {
    ClaimerView {
        tokens: v.tokens.insert(super_apn, ApnToken { super_apn, agency_name, area, owner: who }),
        water_balances: v.water_balances.insert(super_apn, EMPTY_TANK),
        events: v.events.push(Event::NewApnTokenClaimed(basin_id, super_apn)),
        ..v
    }
}

/// An account looked up by the address that stands for it is that account.
pub proof fn lemma_lookup_unlookup(names: Map<Name, AccountId>, who: AccountId)
    ensures
        lookup_in(names, MultiAddress::Id(who)) == Ok::<AccountId, LookupError>(who),
{
}

/// Once a task for `apn` is queued, a claim of `apn` is accepted: the token is stored with
/// the claimant as owner, its water balance is the starting one, and nothing else changes
/// but the deposited event.
pub proof fn lemma_queued_task_is_claimable<S>(
    v: ClaimerView<S>,
    apn: u32,
    who: AccountId,
    basin_id: u32,
    agency_name: Vec<u8>,
    area: u32,
)
    ensures
        queued_apn(after_insert_task(v, apn)) == apn,
        after_update_apn(after_insert_task(v, apn), who, basin_id, apn, agency_name, area).tokens[apn] == (
        ApnToken { super_apn: apn, agency_name, area, owner: who }),
        water_balance_of(after_update_apn(after_insert_task(v, apn), who, basin_id, apn, agency_name, area), apn)
            == EMPTY_TANK,
        after_update_apn(after_insert_task(v, apn), who, basin_id, apn, agency_name, area).registration
            == v.registration,
        after_update_apn(after_insert_task(v, apn), who, basin_id, apn, agency_name, area).lookup == v.lookup,
{
}

/// A claim writes only its own APN: every other APN keeps its token and its water
/// balance, present or absent, and the registry, the names and the task queue are as
/// they were.
pub proof fn lemma_update_touches_only_its_apn<S>(
    v: ClaimerView<S>,
    who: AccountId,
    basin_id: u32,
    super_apn: u32,
    agency_name: Vec<u8>,
    area: u32,
    k: u32,
)
    requires
        k != super_apn,
    ensures
        after_update_apn(v, who, basin_id, super_apn, agency_name, area).tokens.dom().contains(k)
            == v.tokens.dom().contains(k),
        v.tokens.dom().contains(k) ==> after_update_apn(v, who, basin_id, super_apn, agency_name, area).tokens[k]
            == v.tokens[k],
        water_balance_of(after_update_apn(v, who, basin_id, super_apn, agency_name, area), k)
            == water_balance_of(v, k),
        after_update_apn(v, who, basin_id, super_apn, agency_name, area).water_balances.dom().contains(k)
            == v.water_balances.dom().contains(k),
        after_update_apn(v, who, basin_id, super_apn, agency_name, area).registration == v.registration,
        after_update_apn(v, who, basin_id, super_apn, agency_name, area).lookup == v.lookup,
        after_update_apn(v, who, basin_id, super_apn, agency_name, area).task_queue == v.task_queue,
        after_update_apn(v, who, basin_id, super_apn, agency_name, area).events.len() == v.events.len() + 1,
{
}

/// Setting a name's status makes the registry give back exactly that status, whatever the
/// name held before, and leaves every other name as it was.
pub proof fn lemma_set_name_overwrites<S>(v: ClaimerView<S>, name: Name, state: S, other: Name)
    ensures
        after_set_name(v, name, state).registration.dom().contains(name),
        after_set_name(v, name, state).registration[name] == state,
        other != name ==> after_set_name(v, name, state).registration.dom().contains(other)
            == v.registration.dom().contains(other),
        other != name && v.registration.dom().contains(other) ==> after_set_name(v, name, state).registration[other]
            == v.registration[other],
        after_set_name(v, name, state).tokens == v.tokens,
        after_set_name(v, name, state).lookup == v.lookup,
{
}

/// Emptying the task list only lowers the queue flag: tokens, balances, names, the queued
/// task and the events stay as they were.
pub proof fn lemma_empty_tasks_frame<S>(v: ClaimerView<S>)
    ensures
        !after_empty_tasks(v).queue_available,
        after_empty_tasks(v).tokens == v.tokens,
        after_empty_tasks(v).water_balances == v.water_balances,
        after_empty_tasks(v).registration == v.registration,
        after_empty_tasks(v).lookup == v.lookup,
        after_empty_tasks(v).task_queue == v.task_queue,
        after_empty_tasks(v).events == v.events,
{
}

/// A registered name's hash names the account it was registered for; a hash that was never
/// registered, and every address form other than an account or a name hash, names none.
pub proof fn lemma_name_lookup(names: Map<Name, AccountId>, hash: Name, who: AccountId, other: Name)
    ensures
        lookup_in(names.insert(hash, who), MultiAddress::Hash256(hash)) == Ok::<AccountId, LookupError>(who),
        !names.dom().contains(other) ==> lookup_in(names, MultiAddress::Hash256(other)) is Err,
        lookup_in(names.insert(hash, who), MultiAddress::Address32(hash)) is Err,
        lookup_in(names, MultiAddress::Id(who)) == Ok::<AccountId, LookupError>(who),
{
}

/// Queueing a task sets the queued APN and touches no token, balance or name.
pub proof fn lemma_insert_task_frame<S>(v: ClaimerView<S>, apn: u32)
    ensures
        queued_apn(after_insert_task(v, apn)) == apn,
        after_insert_task(v, apn).tokens == v.tokens,
        after_insert_task(v, apn).water_balances == v.water_balances,
        after_insert_task(v, apn).registration == v.registration,
        after_insert_task(v, apn).lookup == v.lookup,
        after_insert_task(v, apn).events == v.events,
{
}

/// A token is kept under its own APN, and that APN also keys its water balance.
pub open spec fn tokens_indexed_by_apn<S>(v: ClaimerView<S>) -> bool {
    forall|k: u32| #[trigger]
        v.tokens.dom().contains(k) ==> v.tokens[k].super_apn == k && v.water_balances.dom().contains(k)
}

/// Claiming a token keeps every token under its own APN, next to its water balance.
pub proof fn lemma_update_keeps_index<S>(
    v: ClaimerView<S>,
    who: AccountId,
    basin_id: u32,
    super_apn: u32,
    agency_name: Vec<u8>,
    area: u32,
)
    requires
        tokens_indexed_by_apn(v),
    ensures
        tokens_indexed_by_apn(after_update_apn(v, who, basin_id, super_apn, agency_name, area)),
{
    let w = after_update_apn(v, who, basin_id, super_apn, agency_name, area);
    assert forall|k: u32| #[trigger] w.tokens.dom().contains(k) implies w.tokens[k].super_apn == k
        && w.water_balances.dom().contains(k) by {
        if k != super_apn {
            assert(v.tokens.dom().contains(k));
        }
    }
}

/// A claim overwrites what was stored for its APN: the water balance starts again whatever
/// it held, and claiming twice with the same arguments leaves the same tokens and balances
/// as claiming once (each claim deposits its own event).
pub proof fn lemma_update_overwrites<S>(
    v: ClaimerView<S>,
    who: AccountId,
    basin_id: u32,
    super_apn: u32,
    agency_name: Vec<u8>,
    area: u32,
)
    ensures
        water_balance_of(after_update_apn(v, who, basin_id, super_apn, agency_name, area), super_apn)
            == EMPTY_TANK,
        after_update_apn(v, who, basin_id, super_apn, agency_name, area).tokens[super_apn] == (ApnToken {
            super_apn,
            agency_name,
            area,
            owner: who,
        }),
        after_update_apn(
            after_update_apn(v, who, basin_id, super_apn, agency_name, area),
            who,
            basin_id,
            super_apn,
            agency_name,
            area,
        ).tokens == after_update_apn(v, who, basin_id, super_apn, agency_name, area).tokens,
        after_update_apn(
            after_update_apn(v, who, basin_id, super_apn, agency_name, area),
            who,
            basin_id,
            super_apn,
            agency_name,
            area,
        ).water_balances == after_update_apn(v, who, basin_id, super_apn, agency_name, area).water_balances,
{
    let w = after_update_apn(v, who, basin_id, super_apn, agency_name, area);
    let t = ApnToken { super_apn, agency_name, area, owner: who };
    assert(w.tokens.insert(super_apn, t) =~= w.tokens);
    assert(w.water_balances.insert(super_apn, EMPTY_TANK) =~= w.water_balances);
}

/// Emptying the task list turns the off-chain worker to submitting, queueing a task turns
/// it to fetching.
pub proof fn lemma_queue_flag_steers_worker<S>(v: ClaimerView<S>, apn: u32)
    ensures
        !after_empty_tasks(v).queue_available,
        after_insert_task(v, apn).queue_available,
        queued_apn(after_empty_tasks(v)) == queued_apn(v),
{
}

impl<S> StaticLookup for Module<S> {
    open spec fn lookup_spec(&self, a: MultiAddress) -> Result<AccountId, LookupError> {
        lookup_in(self@.lookup, a)
    }

    open spec fn unlookup_spec(&self, t: AccountId) -> MultiAddress {
        MultiAddress::Id(t)
    }

    fn lookup(&self, a: MultiAddress) -> (r: Result<AccountId, LookupError>) {
        match a {
            MultiAddress::Id(id) => Ok(id),
            MultiAddress::Hash256(hash) => match self.lookup.get(&hash) {
                Some(who) => Ok(*who),
                None => Err(LookupError),
            },
            _ => Err(LookupError),
        }
    }

    fn unlookup(&self, t: AccountId) -> (r: MultiAddress) {
        MultiAddress::Id(t)
    }
}

impl<S> Module<S> {
    /// The pallet's storage at genesis: empty maps, no task, the default annual budget.
    pub fn new() -> (m: Self)
        ensures
            m@.registration == Map::<Name, S>::empty(),
            m@.lookup == Map::<Name, AccountId>::empty(),
            m@.tokens == Map::<u32, ApnToken>::empty(),
            m@.water_balances == Map::<u32, u64>::empty(),
            m@.total_annual_budget == DEFAULT_TOTAL_ANNUAL_BUDGET,
            m@.balance_apntokens == Map::<(u32, AccountId), u32>::empty(),
            m@.task_queue == Map::<u32, TaskQueueTwo>::empty(),
            !m@.queue_available,
            m@.task_number == 0,
            m@.events == Seq::<Event>::empty(),
    {
        Module {
            registration: StorageMap::new(),
            lookup: StorageMap::new(),
            apn_tokens_by_super_apns: StorageMap::new(),
            water_balance_by_super_apns: StorageMap::new(),
            total_annual_budget: DEFAULT_TOTAL_ANNUAL_BUDGET,
            balance_apntokens: StorageMap::new(),
            task_queue_by_number: StorageMap::new(),
            queue_available: false,
            task_number: 0,
            events: Vec::new(),
        }
    }

    /// Queues a task for `apn`; `amount` is not used.
    pub fn insert_new_task(&mut self, origin: &Origin, apn: u32, amount: u128) -> (r: Result<(), DispatchError>)
        ensures
            signed(*origin) ==> r == Ok::<(), DispatchError>(()),
            signed(*origin) ==> final(self)@ == after_insert_task(old(self)@, apn),
            !signed(*origin) ==> r == Err::<(), DispatchError>(DispatchError::BadOrigin),
            !signed(*origin) ==> final(self)@ == old(self)@,
    {
        let _ = ensure_signed(origin)?;
        let task_queue = TaskQueueTwo { apn };
        self.task_queue_by_number.insert(QUEUED_TASK, task_queue);
        self.queue_available = true;
        Ok(())
    }

    /// Marks that no task is queued, whatever the origin.
    pub fn empty_tasks(&mut self, origin: &Origin) -> (r: Result<(), DispatchError>)
        ensures
            r == Ok::<(), DispatchError>(()),
            final(self)@ == after_empty_tasks(old(self)@),
    {
        self.queue_available = false;
        Ok(())
    }

    /// Registers the status of a name.
    pub fn set_name(&mut self, origin: &Origin, name: Name, state: S) -> (r: Result<(), DispatchError>)
        ensures
            signed(*origin) ==> r == Ok::<(), DispatchError>(()),
            signed(*origin) ==> final(self)@ == after_set_name(old(self)@, name, state),
            !signed(*origin) ==> r == Err::<(), DispatchError>(DispatchError::BadOrigin),
            !signed(*origin) ==> final(self)@ == old(self)@,
    {
        let _who = ensure_signed(origin)?;
        self.registration.insert(name, state);
        self.events.push(Event::NameSet(name));
        Ok(())
    }

    /// Claims the token of `super_apn` for the signer, where it is the queued task's APN.
    pub fn submit_apn_signed(
        &mut self,
        origin: &Origin,
        basin_id: u32,
        super_apn: u32,
        agency_name: Vec<u8>,
        area: u32,
    ) -> (r: Result<(), DispatchError>)
        ensures
            !signed(*origin) ==> r == Err::<(), DispatchError>(DispatchError::BadOrigin),
            !signed(*origin) ==> final(self)@ == old(self)@,
            signed(*origin) && queued_apn(old(self)@) != super_apn ==> r == Err::<(), DispatchError>(
                DispatchError::Claimer(ClaimerError::ApnsDontMatch),
            ),
            signed(*origin) && queued_apn(old(self)@) != super_apn ==> final(self)@ == old(self)@,
            signed(*origin) && queued_apn(old(self)@) == super_apn ==> r == Ok::<(), DispatchError>(()),
            signed(*origin) && queued_apn(old(self)@) == super_apn ==> final(self)@ == after_update_apn(
                old(self)@,
                origin->Signed_0,
                basin_id,
                super_apn,
                agency_name,
                area,
            ),
    {
        let who = ensure_signed(origin)?;
        self.update_apn(who, basin_id, super_apn, agency_name, area)
    }

    /// Claims the token of `super_apn` for `who`, where it is the queued task's APN.
    pub fn update_apn(&mut self, who: AccountId, basin_id: u32, super_apn: u32, agency_name: Vec<u8>, area: u32) -> (r:
        Result<(), DispatchError>)
        ensures
            queued_apn(old(self)@) != super_apn ==> r == Err::<(), DispatchError>(
                DispatchError::Claimer(ClaimerError::ApnsDontMatch),
            ),
            queued_apn(old(self)@) != super_apn ==> final(self)@ == old(self)@,
            queued_apn(old(self)@) == super_apn ==> r == Ok::<(), DispatchError>(()),
            queued_apn(old(self)@) == super_apn ==> final(self)@ == after_update_apn(
                old(self)@,
                who,
                basin_id,
                super_apn,
                agency_name,
                area,
            ),
    {
        let task_queue_thing = self.task_queue_by_number(QUEUED_TASK);
        let apn_bytes = task_queue_thing.apn;
        if apn_bytes != super_apn {
            return Err(DispatchError::Claimer(ClaimerError::ApnsDontMatch));
        }
        let apn_token = ApnToken { super_apn, agency_name, area, owner: who };
        self.apn_tokens_by_super_apns.insert(super_apn, apn_token);
        self.events.push(Event::NewApnTokenClaimed(basin_id, super_apn));
        self.water_balance_by_super_apns.insert(super_apn, EMPTY_TANK);
        Ok(())
    }

    /// What the off-chain worker does at a block: fetch while a task is queued, else submit.
    pub fn offchain_worker(&self, block_number: u32) -> (r: OffchainTask)
        ensures
            self@.queue_available ==> r == OffchainTask::FetchIfNeeded,
            !self@.queue_available ==> r == OffchainTask::SignedSubmitApn,
    {
        if self.queue_available {
            OffchainTask::FetchIfNeeded
        } else {
            OffchainTask::SignedSubmitApn
        }
    }

    /// The task stored under `number`, or the default one.
    pub fn task_queue_by_number(&self, number: u32) -> (r: TaskQueueTwo)
        ensures
            r.apn == (if self@.task_queue.dom().contains(number) {
                self@.task_queue[number].apn
            } else {
                0
            }),
    {
        match self.task_queue_by_number.get(&number) {
            Some(t) => *t,
            None => TaskQueueTwo { apn: 0 },
        }
    }

    /// Whether a task is queued.
    pub fn queue_available(&self) -> (r: bool)
        ensures
            r == self@.queue_available,
    {
        self.queue_available
    }

    /// The task number.
    pub fn task_number(&self) -> (r: u32)
        ensures
            r == self@.task_number,
    {
        self.task_number
    }

    /// The annual water budget.
    pub fn total_annual_budget(&self) -> (r: u64)
        ensures
            r == self@.total_annual_budget,
    {
        self.total_annual_budget
    }

    /// The water balance of an APN, zero where nothing was stored.
    pub fn water_balance_by_super_apns(&self, apn: u32) -> (r: u64)
        ensures
            r == water_balance_of(self@, apn),
    {
        match self.water_balance_by_super_apns.get(&apn) {
            Some(b) => *b,
            None => 0,
        }
    }

    /// The token claimed for an APN, or the default token (all fields zero, no agency
    /// name) where none was claimed.
    pub fn super_things_by_super_apns(&self, apn: u32) -> (r: ApnToken)
        ensures
            self@.tokens.dom().contains(apn) ==> same_token(r, self@.tokens[apn]),
            !self@.tokens.dom().contains(apn) ==> is_default_token(r),
    {
        match self.apn_tokens_by_super_apns.get(&apn) {
            Some(t) => ApnToken {
                super_apn: t.super_apn,
                agency_name: t.agency_name.clone(),
                area: t.area,
                owner: t.owner,
            },
            None => ApnToken::default(),
        }
    }

    /// The number of tokens that an account holds in a basin, zero where nothing was stored.
    pub fn balance_apntokens(&self, basin_id: u32, who: &AccountId) -> (r: u32)
        ensures
            r == (if self@.balance_apntokens.dom().contains((basin_id, *who)) {
                self@.balance_apntokens[(basin_id, *who)]
            } else {
                0
            }),
    {
        match self.balance_apntokens.get(&(basin_id, *who)) {
            Some(b) => *b,
            None => 0,
        }
    }

    /// The status registered for a name, if any.
    pub fn registration(&self, name: &Name) -> (r: Option<&S>)
        ensures
            match r {
                Some(s) => self@.registration.dom().contains(*name) && *s == self@.registration[*name],
                None => !self@.registration.dom().contains(*name),
            },
    {
        self.registration.get(name)
    }

    /// Records that a name stands for an account.
    pub fn insert_lookup(&mut self, name: Name, who: AccountId)
        ensures
            final(self)@ == (ClaimerView { lookup: old(self)@.lookup.insert(name, who), ..old(self)@ }),
    {
        self.lookup.insert(name, who);
    }

    /// The events deposited so far, oldest first.
    pub fn events(&self) -> (r: &Vec<Event>)
        ensures
            r@ == self@.events,
    {
        &self.events
    }
}

} // verus!
