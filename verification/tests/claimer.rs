use blx_chain::claimer::offchain::{
    decode_cached_info, decode_github_info, decode_lock, encode_github_info, encode_lock, fetch_if_needed_step,
    remote_request, HttpRequest, HTTP_HEADER_USER_AGENT, HTTP_REMOTE_REQUEST, HTTP_TIMEOUT_MILLIS, http_outcome, lock_decision, parsed_info, request_strings, response_text,
    signed_submit_apn_step, FetchAction, FetchEvent, HttpOutcome, SubmitAction, SubmitApnCall, SubmitEvent,
};
use blx_chain::claimer::{
    de_string_to_bytes, GroupIndex, AnnualAllocation, ApnToken, BasinOwnerId, ClaimerError, Event, GithubInfo, Module,
    OffchainTask, TaskQueue, TaskQueueTwo, NUM_VEC_LEN,
};
use blx_chain::primitives::{DispatchError, LookupError, MultiAddress, Origin, StaticLookup};

const APN: u32 = 18102019;

fn info() -> GithubInfo {
    GithubInfo { apn: APN, agencyname: b"Sacramento".to_vec(), shape_area: 4500 }
}

#[test]
fn genesis_values() {
    let m: Module<u8> = Module::new();
    assert_eq!(m.total_annual_budget(), 2100);
    assert_eq!(m.task_number(), 0);
    assert!(!m.queue_available());
    assert_eq!(m.task_queue_by_number(1), TaskQueueTwo { apn: 0 });
    assert_eq!(m.balance_apntokens(2, &[1; 32]), 0);
    assert_eq!(NUM_VEC_LEN, 10);
}

#[test]
fn queued_task_can_be_claimed() {
    let mut m: Module<u8> = Module::new();
    let who = Origin::Signed([5; 32]);
    assert_eq!(m.insert_new_task(&who, APN, 0), Ok(()));
    assert!(m.queue_available());
    assert_eq!(m.task_queue_by_number(1), TaskQueueTwo { apn: APN });
    assert_eq!(m.submit_apn_signed(&who, 2, APN, b"Sacramento".to_vec(), 4500), Ok(()));
    assert_eq!(
        m.super_things_by_super_apns(APN),
        ApnToken { super_apn: APN, agency_name: b"Sacramento".to_vec(), area: 4500, owner: [5; 32] }
    );
    assert_eq!(m.water_balance_by_super_apns(APN), 200);
    assert_eq!(m.events(), &vec![Event::NewApnTokenClaimed(2, APN)]);
}

#[test]
fn claim_of_another_apn_is_refused() {
    let mut m: Module<u8> = Module::new();
    let who = Origin::Signed([5; 32]);
    m.insert_new_task(&who, APN, 0).unwrap();
    let r = m.submit_apn_signed(&who, 2, 7, vec![], 1);
    assert_eq!(r, Err(DispatchError::Claimer(ClaimerError::ApnsDontMatch)));
    assert_eq!(m.super_things_by_super_apns(7), ApnToken::default());
    assert_eq!(m.super_things_by_super_apns(7), ApnToken { super_apn: 0, agency_name: vec![], area: 0, owner: [0; 32] });
    assert_eq!(m.water_balance_by_super_apns(7), 0);
    assert!(m.events().is_empty());
}

#[test]
fn without_a_task_only_apn_zero_is_claimable() {
    let mut m: Module<u8> = Module::new();
    let who = Origin::Signed([5; 32]);
    assert_eq!(m.submit_apn_signed(&who, 2, 1, vec![], 1), Err(DispatchError::Claimer(ClaimerError::ApnsDontMatch)));
    assert_eq!(m.submit_apn_signed(&who, 2, 0, vec![], 1), Ok(()));
    assert_eq!(m.water_balance_by_super_apns(0), 200);
}

#[test]
fn unsigned_calls_are_refused() {
    let mut m: Module<u8> = Module::new();
    assert_eq!(m.insert_new_task(&Origin::Unsigned, APN, 0), Err(DispatchError::BadOrigin));
    assert_eq!(m.set_name(&Origin::Root, [1; 32], 3), Err(DispatchError::BadOrigin));
    assert_eq!(m.submit_apn_signed(&Origin::Unsigned, 2, 0, vec![], 1), Err(DispatchError::BadOrigin));
    assert!(!m.queue_available());
    assert_eq!(m.registration(&[1; 32]), None);
}

#[test]
fn empty_tasks_needs_no_signature() {
    let mut m: Module<u8> = Module::new();
    m.insert_new_task(&Origin::Signed([5; 32]), APN, 0).unwrap();
    assert_eq!(m.offchain_worker(1), OffchainTask::FetchIfNeeded);
    assert_eq!(m.empty_tasks(&Origin::Unsigned), Ok(()));
    assert!(!m.queue_available());
    assert_eq!(m.offchain_worker(2), OffchainTask::SignedSubmitApn);
    assert_eq!(m.task_queue_by_number(1), TaskQueueTwo { apn: APN });
}

#[test]
fn set_name_registers_status() {
    let mut m: Module<u8> = Module::new();
    assert_eq!(m.set_name(&Origin::Signed([5; 32]), [1; 32], 3), Ok(()));
    assert_eq!(m.registration(&[1; 32]), Some(&3));
    assert_eq!(m.events(), &vec![Event::NameSet([1; 32])]);
}

#[test]
fn lookup_of_addresses() {
    let mut m: Module<u8> = Module::new();
    assert_eq!(m.lookup(MultiAddress::Id([4; 32])), Ok([4; 32]));
    assert_eq!(m.lookup(MultiAddress::Hash256([6; 32])), Err(LookupError));
    m.insert_lookup([6; 32], [4; 32]);
    assert_eq!(m.lookup(MultiAddress::Hash256([6; 32])), Ok([4; 32]));
    // a raw 32-byte address is not looked up in the registry
    assert_eq!(m.lookup(MultiAddress::Address32([6; 32])), Err(LookupError));
    assert_eq!(m.lookup(MultiAddress::Index(1)), Err(LookupError));
    assert_eq!(m.lookup(MultiAddress::Raw(vec![6; 32])), Err(LookupError));
    assert_eq!(m.lookup(MultiAddress::Address20([6; 20])), Err(LookupError));
    let a = m.unlookup([9; 32]);
    assert_eq!(a, MultiAddress::Id([9; 32]));
    assert_eq!(m.lookup(a), Ok([9; 32]));
}

#[test]
fn lock_decisions() {
    assert_eq!(lock_decision(None), Ok(true));
    assert_eq!(lock_decision(Some(Some(false))), Ok(true));
    assert_eq!(lock_decision(Some(Some(true))), Err(ClaimerError::AlreadyFetched));
    assert_eq!(lock_decision(Some(None)), Err(ClaimerError::AlreadyFetched));
}

#[test]
fn fetch_steps() {
    assert_eq!(fetch_if_needed_step(FetchEvent::Start), FetchAction::ReadCache);
    assert_eq!(fetch_if_needed_step(FetchEvent::CacheRead(Some(Some(info())))), FetchAction::Finish(Ok(())));
    assert_eq!(fetch_if_needed_step(FetchEvent::CacheRead(Some(None))), FetchAction::TakeLock);
    assert_eq!(fetch_if_needed_step(FetchEvent::CacheRead(None)), FetchAction::TakeLock);
    assert_eq!(fetch_if_needed_step(FetchEvent::LockTaken(Ok(Ok(true)))), FetchAction::FetchAndParse);
    assert_eq!(fetch_if_needed_step(FetchEvent::LockTaken(Ok(Err(true)))), FetchAction::Finish(Ok(())));
    assert_eq!(
        fetch_if_needed_step(FetchEvent::LockTaken(Err(ClaimerError::AlreadyFetched))),
        FetchAction::Finish(Ok(()))
    );
    assert_eq!(fetch_if_needed_step(FetchEvent::Fetched(Ok(info()))), FetchAction::StoreAndRelease(info()));
    assert_eq!(
        fetch_if_needed_step(FetchEvent::Fetched(Err(ClaimerError::HttpFetchingError9))),
        FetchAction::ReleaseAndFail(ClaimerError::HttpFetchingError9)
    );
}

#[test]
fn response_errors() {
    assert_eq!(response_text(Err(ClaimerError::HttpFetchingError6)), Err(ClaimerError::HttpFetchingError0));
    assert_eq!(response_text(Ok(vec![0xff, 0xfe])), Err(ClaimerError::HttpFetchingError1));
    assert_eq!(response_text(Ok(b"{\"apn\": 1}".to_vec())), Ok("{\"apn\": 1}".to_string()));
    assert_eq!(response_text(Ok("Água".as_bytes().to_vec())), Ok("Água".to_string()));
    assert_eq!(parsed_info(None), Err(ClaimerError::HttpFetchingError2));
    assert_eq!(parsed_info(Some(info())), Ok(info()));
}

#[test]
fn request_strings_errors() {
    assert_eq!(
        request_strings(b"spencerbh", b"https://example.org/a.json"),
        Ok(("spencerbh".to_string(), "https://example.org/a.json".to_string()))
    );
    assert_eq!(request_strings(&[0xc3], b"x"), Err(ClaimerError::HttpFetchingError3));
    assert_eq!(request_strings(b"x", &[0x80]), Err(ClaimerError::HttpFetchingError4));
}

#[test]
fn http_outcomes() {
    assert_eq!(http_outcome(HttpOutcome::SendFailed), Err(ClaimerError::HttpFetchingError6));
    assert_eq!(http_outcome(HttpOutcome::DeadlineReached), Err(ClaimerError::HttpFetchingError7));
    assert_eq!(http_outcome(HttpOutcome::HttpError), Err(ClaimerError::HttpFetchingError8));
    assert_eq!(
        http_outcome(HttpOutcome::Response { code: 404, body: vec![1] }),
        Err(ClaimerError::HttpFetchingError9)
    );
    assert_eq!(http_outcome(HttpOutcome::Response { code: 200, body: vec![1, 2] }), Ok(vec![1, 2]));
}

#[test]
fn submit_steps() {
    assert_eq!(
        signed_submit_apn_step(SubmitEvent::Start(false)),
        SubmitAction::Finish(Err(ClaimerError::SignedSubmitNumberError))
    );
    assert_eq!(signed_submit_apn_step(SubmitEvent::Start(true)), SubmitAction::ReadCache);
    assert_eq!(
        signed_submit_apn_step(SubmitEvent::CacheRead(Some(Some(info())))),
        SubmitAction::Send(SubmitApnCall { basin_id: 2, super_apn: APN, agency_name: b"Sacramento".to_vec(), area: 4500 })
    );
    assert_eq!(signed_submit_apn_step(SubmitEvent::CacheRead(None)), SubmitAction::Finish(Ok(())));
    assert_eq!(signed_submit_apn_step(SubmitEvent::CacheRead(Some(None))), SubmitAction::Finish(Ok(())));
    assert_eq!(signed_submit_apn_step(SubmitEvent::Sent(vec![true, true])), SubmitAction::Finish(Ok(())));
    assert_eq!(signed_submit_apn_step(SubmitEvent::Sent(vec![])), SubmitAction::Finish(Ok(())));
    assert_eq!(
        signed_submit_apn_step(SubmitEvent::Sent(vec![true, false, true])),
        SubmitAction::Finish(Err(ClaimerError::SignedSubmitNumberError))
    );
}

#[test]
fn worker_submission_claims_the_fetched_parcel() {
    let mut m: Module<u8> = Module::new();
    let who = Origin::Signed([5; 32]);
    m.insert_new_task(&who, APN, 0).unwrap();
    let call = match signed_submit_apn_step(SubmitEvent::CacheRead(Some(Some(info())))) {
        SubmitAction::Send(call) => call,
        other => panic!("unexpected {:?}", other),
    };
    assert_eq!(m.submit_apn_signed(&who, call.basin_id, call.super_apn, call.agency_name, call.area), Ok(()));
    let token = m.super_things_by_super_apns(APN);
    assert_eq!(token.agency_name, b"Sacramento".to_vec());
    assert_eq!(token.area, 4500);
    assert_eq!(token.owner, [5; 32]);
}

#[test]
fn describe_parcel_data() {
    assert_eq!(info().describe(), Some("{ apn: 18102019, agencyname: Sacramento, shape_area: 4500 }".to_string()));
    let zero = GithubInfo { apn: 0, agencyname: vec![], shape_area: 4294967295 };
    assert_eq!(zero.describe(), Some("{ apn: 0, agencyname: , shape_area: 4294967295 }".to_string()));
    let bad = GithubInfo { apn: 1, agencyname: vec![0xff], shape_area: 2 };
    assert_eq!(bad.describe(), None);
}

#[test]
fn string_bytes() {
    assert_eq!(de_string_to_bytes("Sacramento"), b"Sacramento".to_vec());
    assert_eq!(de_string_to_bytes("Água"), vec![0xc3, 0x81, b'g', b'u', b'a']);
    assert_eq!(de_string_to_bytes(""), Vec::<u8>::new());
}

#[test]
fn plain_data_types() {
    let b = BasinOwnerId { owner: [1; 32], basin_id: 2 };
    assert_eq!(b.basin_id, 2);
    let a = AnnualAllocation { apn: 1, year: 2020, hash: [0; 32], current_years_allocation: 3 };
    assert_eq!(a.year, 2020);
    let t = TaskQueue { http_remote_reqst: b"u".to_vec(), http_header_usr: b"h".to_vec() };
    assert_eq!(t.http_header_usr, b"h".to_vec());
}

#[test]
fn cached_info_round_trip() {
    let bytes = encode_github_info(&info());
    let mut expected = APN.to_le_bytes().to_vec();
    expected.push(10 << 2);
    expected.extend_from_slice(b"Sacramento");
    expected.extend_from_slice(&4500u32.to_le_bytes());
    assert_eq!(bytes, expected);
    assert_eq!(decode_github_info(&bytes), Some(info()));
    assert_eq!(decode_cached_info(Some(bytes.clone())), Some(Some(info())));
    assert_eq!(decode_cached_info(None), None);
    assert_eq!(decode_cached_info(Some(bytes[..bytes.len() - 1].to_vec())), Some(None));
    assert_eq!(decode_github_info(&[1, 2, 3]), None);
    // what the worker caches is what it later submits
    let cached = decode_cached_info(Some(bytes));
    assert_eq!(
        signed_submit_apn_step(SubmitEvent::CacheRead(cached)),
        SubmitAction::Send(SubmitApnCall { basin_id: 2, super_apn: APN, agency_name: b"Sacramento".to_vec(), area: 4500 })
    );
}

#[test]
fn lock_codec() {
    assert_eq!(encode_lock(true), vec![1]);
    assert_eq!(encode_lock(false), vec![0]);
    assert_eq!(decode_lock(None), None);
    assert_eq!(decode_lock(Some(vec![1])), Some(Some(true)));
    assert_eq!(decode_lock(Some(vec![0, 7])), Some(Some(false)));
    assert_eq!(decode_lock(Some(vec![2])), Some(None));
    assert_eq!(decode_lock(Some(vec![])), Some(None));
    assert_eq!(lock_decision(decode_lock(Some(encode_lock(true)))), Err(ClaimerError::AlreadyFetched));
    assert_eq!(lock_decision(decode_lock(Some(encode_lock(false)))), Ok(true));
}

#[test]
fn the_remote_request() {
    use_request(remote_request());
}

fn use_request(r: Result<HttpRequest, ClaimerError>) {
    let req = r.unwrap();
    assert_eq!(req.url, "https://spencerbh.github.io/sandbox/18102019manualstrip.json");
    assert_eq!(req.user_agent, "spencerbh");
    assert_eq!(req.timeout_millis, 3000);
    assert_eq!(HTTP_REMOTE_REQUEST, req.url);
    assert_eq!(HTTP_HEADER_USER_AGENT, req.user_agent);
    assert_eq!(HTTP_TIMEOUT_MILLIS, 3000);
}

#[test]
fn claiming_twice_overwrites() {
    let mut m: Module<u8> = Module::new();
    let who = Origin::Signed([5; 32]);
    m.insert_new_task(&who, APN, 0).unwrap();
    m.submit_apn_signed(&who, 2, APN, b"A".to_vec(), 1).unwrap();
    m.submit_apn_signed(&Origin::Signed([6; 32]), 3, APN, b"B".to_vec(), 2).unwrap();
    let t = m.super_things_by_super_apns(APN);
    assert_eq!(t, ApnToken { super_apn: APN, agency_name: b"B".to_vec(), area: 2, owner: [6; 32] });
    assert_eq!(m.water_balance_by_super_apns(APN), 200);
    assert_eq!(m.events(), &vec![Event::NewApnTokenClaimed(2, APN), Event::NewApnTokenClaimed(3, APN)]);
}

#[test]
fn group_index_is_a_number() {
    let g: GroupIndex = 3;
    assert_eq!(g + 1, 4u32);
}

#[test]
fn compact_lengths_of_cached_names() {
    let long = GithubInfo { apn: 1, agencyname: vec![b'x'; 100], shape_area: 2 };
    let bytes = encode_github_info(&long);
    assert_eq!(&bytes[4..6], &[(100u16 << 2 | 1) as u8, ((100u16 << 2 | 1) >> 8) as u8]);
    assert_eq!(decode_github_info(&bytes), Some(long));
    let longer = GithubInfo { apn: 1, agencyname: vec![b'y'; 20000], shape_area: 2 };
    let bytes = encode_github_info(&longer);
    assert_eq!(&bytes[4..8], &((20000u32 << 2) | 2).to_le_bytes());
    assert_eq!(decode_github_info(&bytes), Some(longer));
    // a length written in a longer form than needed is refused
    let mut odd = 1u32.to_le_bytes().to_vec();
    odd.extend_from_slice(&[(3u16 << 2 | 1) as u8, 0]);
    odd.extend_from_slice(b"abc");
    odd.extend_from_slice(&2u32.to_le_bytes());
    assert_eq!(decode_github_info(&odd), None);
}
