//! The decisions of the claimer's off-chain worker. The worker's storage, keystore and
//! HTTP requests are performed by its host; each function here takes what the host
//! observed and says what it does next.
use vstd::prelude::*;
use vstd::string::*;
use vstd::utf8::*;

use super::{after_update_apn, queued_apn, water_balance_of, ApnToken, ClaimerError, ClaimerView, GithubInfo, EMPTY_TANK};
use crate::primitives::AccountId;
use crate::scale::{
    decode_bool, decode_byte_vec, decode_u32, encode_bool, encode_byte_vec, encode_u32, lemma_byte_vec_round_trip,
    lemma_u32_le_round_trip,
    le_u32, scale_byte_vec_decoding, scale_byte_vec_encoding, u32_le,
};
use crate::text::utf8_or;

verus! {

/// The basin that the worker's submissions name.
pub const SUBMISSION_BASIN_ID: u32 = 2;

/// The HTTP status of a successful response.
pub const HTTP_OK: u16 = 200;

/// The stored form of parcel data: its number, its agency name and its area, each in
/// SCALE encoding, one after the other.
pub open spec fn info_encoding(apn: u32, agencyname: Seq<u8>, shape_area: u32) -> Seq<u8> {
    u32_le(apn) + scale_byte_vec_encoding(agencyname) + u32_le(shape_area)
}

/// The parcel data that stored bytes begin with, as number, agency name and area;
/// nothing where they do not begin with parcel data.
pub open spec fn info_decoding(input: Seq<u8>) -> Option<(u32, Seq<u8>, u32)> {
    if input.len() < 4 {
        None
    } else {
        match scale_byte_vec_decoding(input.subrange(4, input.len() as int)) {
            Some((name, after)) => if after.len() < 4 {
                None
            } else {
                Some((le_u32(input), name, le_u32(after)))
            },
            None => None,
        }
    }
}

/// The stored form of parcel data; reading it back gives the same data.
pub fn encode_github_info(info: &GithubInfo) -> (r: Vec<u8>)
    requires
        info.agencyname@.len() <= u32::MAX,
    ensures
        r@ == info_encoding(info.apn, info.agencyname@, info.shape_area),
        info_decoding(r@) == Some((info.apn, info.agencyname@, info.shape_area)),
{
    let mut out = encode_u32(info.apn);
    let mut name = encode_byte_vec(info.agencyname.as_slice());
    let mut area = encode_u32(info.shape_area);
    let ghost name_bytes = name@;
    let ghost area_bytes = area@;
    out.append(&mut name);
    out.append(&mut area);
    proof {
        let tail = name_bytes + area_bytes;
        assert(out@ =~= u32_le(info.apn) + tail);
        lemma_u32_le_round_trip(info.apn, tail);
        lemma_byte_vec_round_trip(info.agencyname@, area_bytes);
        lemma_u32_le_round_trip(info.shape_area, Seq::empty());
        assert(area_bytes + Seq::<u8>::empty() =~= area_bytes);
    }
    out
}

/// The parcel data that stored bytes begin with, if they begin with parcel data.
pub fn decode_github_info(input: &[u8]) -> (r: Option<GithubInfo>)
    ensures
        match r {
            Some(info) => info_decoding(input@) == Some((info.apn, info.agencyname@, info.shape_area)),
            None => info_decoding(input@) is None,
        },
{
    let (apn, rest) = match decode_u32(input) {
        Some(p) => p,
        None => return None,
    };
    let (agencyname, rest) = match decode_byte_vec(rest) {
        Some(p) => p,
        None => return None,
    };
    let (shape_area, _) = match decode_u32(rest) {
        Some(p) => p,
        None => return None,
    };
    Some(GithubInfo { apn, agencyname, shape_area })
}

/// What the cache holds: nothing stored, stored bytes that are not parcel data, or the
/// parcel data they begin with.
pub fn decode_cached_info(stored: Option<Vec<u8>>) -> (r: Option<Option<GithubInfo>>)
    ensures
        stored is None ==> r is None,
        stored matches Some(bytes) ==> (r matches Some(inner) && match inner {
            Some(info) => info_decoding(bytes@) == Some((info.apn, info.agencyname@, info.shape_area)),
            None => info_decoding(bytes@) is None,
        }),
{
    match stored {
        None => None,
        Some(bytes) => Some(decode_github_info(bytes.as_slice())),
    }
}

/// What the lock holds: nothing stored, stored bytes that are not a flag, or the flag.
pub fn decode_lock(stored: Option<Vec<u8>>) -> (r: Option<Option<bool>>)
    ensures
        stored is None ==> r is None,
        stored matches Some(bytes) ==> r == Some(decode_lock_spec(bytes@)),
{
    match stored {
        None => None,
        Some(bytes) => Some(decode_bool(bytes.as_slice())),
    }
}

/// The stored form of the lock's flag; reading it back gives the flag.
pub fn encode_lock(held: bool) -> (r: Vec<u8>)
    ensures
        r@ == seq![if held { 1u8 } else { 0u8 }],
        decode_lock_spec(r@) == Some(held),
{
    encode_bool(held)
}

/// The flag that stored lock bytes hold, if any.
pub open spec fn decode_lock_spec(bytes: Seq<u8>) -> Option<bool> {
    if bytes.len() >= 1 && (bytes[0] == 0 || bytes[0] == 1) {
        Some(bytes[0] == 1)
    } else {
        None
    }
}

/// What the host observed while fetching the queued task's data.
pub enum FetchEvent {
    /// The run begins.
    Start,
    /// The cached parcel data: absent, present but undecodable, or decoded.
    CacheRead(Option<Option<GithubInfo>>),
    /// The outcome of taking the lock with [`lock_decision`]: the decision's error, or
    /// whether the value it chose was written (`Ok`) or overtaken by another writer (`Err`).
    LockTaken(Result<Result<bool, bool>, ClaimerError>),
    /// The outcome of fetching and parsing the data.
    Fetched(Result<GithubInfo, ClaimerError>),
}

/// What the host does next while fetching.
#[derive(Debug, PartialEq, Eq)]
pub enum FetchAction {
    /// Read the cached parcel data.
    ReadCache,
    /// Take the lock, deciding with [`lock_decision`].
    TakeLock,
    /// Fetch the data and parse it.
    FetchAndParse,
    /// Cache the data, release the lock and end the run with success.
    StoreAndRelease(GithubInfo),
    /// Release the lock and end the run with the error.
    ReleaseAndFail(ClaimerError),
    /// End the run.
    Finish(Result<(), ClaimerError>),
}

/// Whether the lock may be taken, from its stored value: absent or free takes it
/// (storing `true`), anything else means another run holds it.
pub fn lock_decision(s: Option<Option<bool>>) -> (r: Result<bool, ClaimerError>)
    ensures
        (s is None || s == Some(Some(false))) ==> r == Ok::<bool, ClaimerError>(true),
        !(s is None || s == Some(Some(false))) ==> r == Err::<bool, ClaimerError>(
            ClaimerError::AlreadyFetched,
        ),
{
    match s {
        None => Ok(true),
        Some(Some(false)) => Ok(true),
        _ => Err(ClaimerError::AlreadyFetched),
    }
}

/// Whether the lock was taken by this run.
pub open spec fn lock_won(res: Result<Result<bool, bool>, ClaimerError>) -> bool {
    res == Ok::<Result<bool, bool>, ClaimerError>(Ok::<bool, bool>(true))
}

/// The next step of fetching the queued task's data. Cached data ends the run; else the
/// lock is taken, and only a run that won it fetches; a fetched result is cached and the
/// lock released, a failed fetch releases the lock and ends the run with its error.
pub fn fetch_if_needed_step(event: FetchEvent) -> (r: FetchAction)
    ensures
        event is Start ==> r == FetchAction::ReadCache,
        event matches FetchEvent::CacheRead(c) ==> (c matches Some(Some(_)) ==> r == FetchAction::Finish(
            Ok(()),
        )) && (!(c matches Some(Some(_))) ==> r == FetchAction::TakeLock),
        event matches FetchEvent::LockTaken(res) ==> (lock_won(res) ==> r == FetchAction::FetchAndParse) && (
        !lock_won(res) ==> r == FetchAction::Finish(Ok(()))),
        event matches FetchEvent::Fetched(Ok(info)) ==> r == FetchAction::StoreAndRelease(info),
        event matches FetchEvent::Fetched(Err(e)) ==> r == FetchAction::ReleaseAndFail(e),
{
    match event {
        FetchEvent::Start => FetchAction::ReadCache,
        FetchEvent::CacheRead(Some(Some(_))) => FetchAction::Finish(Ok(())),
        FetchEvent::CacheRead(_) => FetchAction::TakeLock,
        FetchEvent::LockTaken(Ok(Ok(true))) => FetchAction::FetchAndParse,
        FetchEvent::LockTaken(_) => FetchAction::Finish(Ok(())),
        FetchEvent::Fetched(Ok(info)) => FetchAction::StoreAndRelease(info),
        FetchEvent::Fetched(Err(e)) => FetchAction::ReleaseAndFail(e),
    }
}

/// The response body as text: a failed fetch gives `HttpFetchingError0`, a body that is
/// not UTF-8 gives `HttpFetchingError1`.
pub fn response_text(fetched: Result<Vec<u8>, ClaimerError>) -> (r: Result<String, ClaimerError>)
    ensures
        fetched is Err ==> r == Err::<String, ClaimerError>(ClaimerError::HttpFetchingError0),
        fetched matches Ok(body) ==> (valid_utf8(body@) ==> r is Ok && r->Ok_0@ == decode_utf8(body@)) && (
        !valid_utf8(body@) ==> r == Err::<String, ClaimerError>(ClaimerError::HttpFetchingError1)),
{
    match fetched {
        Ok(body) => utf8_or(body.as_slice(), ClaimerError::HttpFetchingError1),
        Err(_) => Err(ClaimerError::HttpFetchingError0),
    }
}

/// The parsed parcel data: text that did not parse gives `HttpFetchingError2`.
pub fn parsed_info(parsed: Option<GithubInfo>) -> (r: Result<GithubInfo, ClaimerError>)
    ensures
        parsed matches Some(info) ==> r == Ok::<GithubInfo, ClaimerError>(info),
        parsed is None ==> r == Err::<GithubInfo, ClaimerError>(ClaimerError::HttpFetchingError2),
{
    match parsed {
        Some(info) => Ok(info),
        None => Err(ClaimerError::HttpFetchingError2),
    }
}

/// The user agent and the URL of the request as text. A user agent that is not UTF-8
/// gives `HttpFetchingError3`, a URL that is not UTF-8 gives `HttpFetchingError4`.
pub fn request_strings(user_agent: &[u8], remote_url: &[u8]) -> (r: Result<(String, String), ClaimerError>)
    ensures
        !valid_utf8(user_agent@) ==> r == Err::<(String, String), ClaimerError>(
            ClaimerError::HttpFetchingError3,
        ),
        valid_utf8(user_agent@) && !valid_utf8(remote_url@) ==> r == Err::<(String, String), ClaimerError>(
            ClaimerError::HttpFetchingError4,
        ),
        valid_utf8(user_agent@) && valid_utf8(remote_url@) ==> r is Ok && r->Ok_0.0@ == decode_utf8(
            user_agent@,
        ) && r->Ok_0.1@ == decode_utf8(remote_url@),
{
    let agent = utf8_or(user_agent, ClaimerError::HttpFetchingError3)?;
    let url = utf8_or(remote_url, ClaimerError::HttpFetchingError4)?;
    let header = utf8_or(user_agent, ClaimerError::HttpFetchingError5)?;
    Ok((header, url))
}

/// Where the parcel data is fetched from.
pub const HTTP_REMOTE_REQUEST: &'static str = "https://spencerbh.github.io/sandbox/18102019manualstrip.json";

/// The user agent of the request.
pub const HTTP_HEADER_USER_AGENT: &'static str = "spencerbh";

/// How long the worker waits for the response, in milliseconds.
pub const HTTP_TIMEOUT_MILLIS: u64 = 3000;

/// The request that fetches the parcel data: a GET of `url` with the `User-Agent` header
/// `user_agent`, whose deadline is `timeout_millis` after it is made.
#[derive(Clone, Debug, PartialEq, Eq)]
pub struct HttpRequest {
    pub url: String,
    pub user_agent: String,
    pub timeout_millis: u64,
}

/// The bytes of the request's URL and user agent are UTF-8.
pub proof fn lemma_request_bytes_are_utf8()
    ensures
        valid_utf8(HTTP_REMOTE_REQUEST.spec_bytes()),
        valid_utf8(HTTP_HEADER_USER_AGENT.spec_bytes()),
        decode_utf8(HTTP_REMOTE_REQUEST.spec_bytes()) == HTTP_REMOTE_REQUEST@,
        decode_utf8(HTTP_HEADER_USER_AGENT.spec_bytes()) == HTTP_HEADER_USER_AGENT@,
{
    encode_utf8_valid_utf8(HTTP_REMOTE_REQUEST@);
    encode_utf8_valid_utf8(HTTP_HEADER_USER_AGENT@);
    encode_utf8_decode_utf8(HTTP_REMOTE_REQUEST@);
    encode_utf8_decode_utf8(HTTP_HEADER_USER_AGENT@);
}

/// The request that fetches the parcel data. Its text is read from the bytes of the URL
/// and the user agent, which are UTF-8, so none of the text errors
/// (`HttpFetchingError3` to `HttpFetchingError5`) can come.
pub fn remote_request() -> (r: Result<HttpRequest, ClaimerError>)
    ensures
        r is Ok,
        r->Ok_0.url@ == HTTP_REMOTE_REQUEST@,
        r->Ok_0.user_agent@ == HTTP_HEADER_USER_AGENT@,
        r->Ok_0.timeout_millis == HTTP_TIMEOUT_MILLIS,
{
    proof {
        lemma_request_bytes_are_utf8();
    }
    let (user_agent, url) = request_strings(HTTP_HEADER_USER_AGENT.as_bytes(), HTTP_REMOTE_REQUEST.as_bytes())?;
    Ok(HttpRequest { url, user_agent, timeout_millis: HTTP_TIMEOUT_MILLIS })
}

/// How an HTTP request ended.
pub enum HttpOutcome {
    /// The request could not be sent.
    SendFailed,
    /// No response came before the deadline.
    DeadlineReached,
    /// The response failed.
    HttpError,
    /// A response came.
    Response { code: u16, body: Vec<u8> },
}

/// The body of a successful response, or the error for how the request ended.
pub fn http_outcome(outcome: HttpOutcome) -> (r: Result<Vec<u8>, ClaimerError>)
    ensures
        outcome is SendFailed ==> r == Err::<Vec<u8>, ClaimerError>(ClaimerError::HttpFetchingError6),
        outcome is DeadlineReached ==> r == Err::<Vec<u8>, ClaimerError>(ClaimerError::HttpFetchingError7),
        outcome is HttpError ==> r == Err::<Vec<u8>, ClaimerError>(ClaimerError::HttpFetchingError8),
        outcome matches HttpOutcome::Response { code, body } ==> (code != HTTP_OK ==> r == Err::<
            Vec<u8>,
            ClaimerError,
        >(ClaimerError::HttpFetchingError9)) && (code == HTTP_OK ==> r == Ok::<Vec<u8>, ClaimerError>(body)),
{
    match outcome {
        HttpOutcome::SendFailed => Err(ClaimerError::HttpFetchingError6),
        HttpOutcome::DeadlineReached => Err(ClaimerError::HttpFetchingError7),
        HttpOutcome::HttpError => Err(ClaimerError::HttpFetchingError8),
        HttpOutcome::Response { code, body } => {
            if code != HTTP_OK {
                Err(ClaimerError::HttpFetchingError9)
            } else {
                Ok(body)
            }
        },
    }
}

/// The call that submits parcel data on chain.
#[derive(Clone, Debug, PartialEq, Eq)]
pub struct SubmitApnCall {
    pub basin_id: u32,
    pub super_apn: u32,
    pub agency_name: Vec<u8>,
    pub area: u32,
}

/// The call that submits the given parcel data.
pub open spec fn submission_for(info: GithubInfo) -> SubmitApnCall {
    SubmitApnCall {
        basin_id: SUBMISSION_BASIN_ID,
        super_apn: info.apn,
        agency_name: info.agencyname,
        area: info.shape_area,
    }
}

/// The call that the worker sends for fetched parcel data, once dispatched by a signer
/// while the data's APN is the queued one, claims that APN's token for the signer with the
/// fetched agency name and area, and starts its water balance.
pub proof fn lemma_submission_claims<S>(v: ClaimerView<S>, info: GithubInfo, who: AccountId)
    requires
        queued_apn(v) == info.apn,
    ensures
        ({
            let call = submission_for(info);
            let w = after_update_apn(v, who, call.basin_id, call.super_apn, call.agency_name, call.area);
            &&& queued_apn(v) == call.super_apn
            &&& w.tokens[info.apn] == (ApnToken {
                super_apn: info.apn,
                agency_name: info.agencyname,
                area: info.shape_area,
                owner: who,
            })
            &&& water_balance_of(w, info.apn) == EMPTY_TANK
        }),
{
}

/// What the host observed while submitting the fetched data.
pub enum SubmitEvent {
    /// The run begins; whether some local account can sign.
    Start(bool),
    /// The cached parcel data: absent, present but undecodable, or decoded.
    CacheRead(Option<Option<GithubInfo>>),
    /// For each signing account, in order, whether its transaction was accepted.
    Sent(Vec<bool>),
}

/// What the host does next while submitting.
#[derive(Debug, PartialEq, Eq)]
pub enum SubmitAction {
    /// Read the cached parcel data.
    ReadCache,
    /// Send the call in a signed transaction from every local account.
    Send(SubmitApnCall),
    /// End the run.
    Finish(Result<(), ClaimerError>),
}

/// Whether every transaction was accepted.
pub open spec fn all_accepted(results: Seq<bool>) -> bool {
    forall|i: int| 0 <= i < results.len() ==> #[trigger] results[i]
}

/// A run fails as soon as any one account's transaction failed, the last one included,
/// and succeeds exactly when every one of them was accepted.
pub proof fn lemma_any_failure_fails(results: Seq<bool>, i: int)
    ensures
        0 <= i < results.len() && !results[i] ==> !all_accepted(results),
        all_accepted(results) && 0 <= i < results.len() ==> results[i],
        all_accepted(Seq::<bool>::empty()),
        !all_accepted(results.push(false)),
        all_accepted(results) ==> all_accepted(results.push(true)),
{
    if all_accepted(results) {
        assert forall|j: int| 0 <= j < results.push(true).len() implies #[trigger] results.push(true)[j] by {
            if j < results.len() {
                assert(results.push(true)[j] == results[j]);
            }
        }
    }
    assert(results.push(false)[results.len() as int] == false);
}

/// Whether every transaction was accepted.
fn all_true(results: &Vec<bool>) -> (r: bool)
    ensures
        r == all_accepted(results@),
{
    let mut i: usize = 0;
    while i < results.len()
        invariant
            0 <= i <= results@.len(),
            forall|j: int| 0 <= j < i ==> #[trigger] results@[j],
        decreases results@.len() - i,
    {
        if !results[i] {
            return false;
        }
        i = i + 1;
    }
    true
}

/// The next step of submitting the fetched data. Without a signing account the run fails;
/// without decoded cached data it ends with success; with it, the data is sent with the
/// submission basin, and the run fails where any account's transaction failed.
pub fn signed_submit_apn_step(event: SubmitEvent) -> (r: SubmitAction)
    ensures
        event == SubmitEvent::Start(false) ==> r == SubmitAction::Finish(
            Err(ClaimerError::SignedSubmitNumberError),
        ),
        event == SubmitEvent::Start(true) ==> r == SubmitAction::ReadCache,
        event matches SubmitEvent::CacheRead(Some(Some(info))) ==> r == SubmitAction::Send(
            submission_for(info),
        ),
        event matches SubmitEvent::CacheRead(c) ==> (!(c matches Some(Some(_))) ==> r
            == SubmitAction::Finish(Ok(()))),
        event matches SubmitEvent::Sent(results) ==> (all_accepted(results@) ==> r == SubmitAction::Finish(
            Ok(()),
        )) && (!all_accepted(results@) ==> r == SubmitAction::Finish(
            Err(ClaimerError::SignedSubmitNumberError),
        )),
{
    match event {
        SubmitEvent::Start(can_sign) => {
            if can_sign {
                SubmitAction::ReadCache
            } else {
                SubmitAction::Finish(Err(ClaimerError::SignedSubmitNumberError))
            }
        },
        SubmitEvent::CacheRead(Some(Some(info))) => SubmitAction::Send(
            SubmitApnCall {
                basin_id: SUBMISSION_BASIN_ID,
                super_apn: info.apn,
                agency_name: info.agencyname,
                area: info.shape_area,
            },
        ),
        SubmitEvent::CacheRead(_) => SubmitAction::Finish(Ok(())),
        SubmitEvent::Sent(results) => {
            if all_true(&results) {
                SubmitAction::Finish(Ok(()))
            } else {
                SubmitAction::Finish(Err(ClaimerError::SignedSubmitNumberError))
            }
        },
    }
}

} // verus!
