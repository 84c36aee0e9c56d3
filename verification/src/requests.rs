//! Network requests on their way to the app: their numbers, what is sent of
//! them, and who waits for which answer.
use std::collections::HashMap;

use vstd::prelude::*;
use vstd::string::*;

use crate::headers::{headers_of, json_object, parse_headers};

verus! {

broadcast use vstd::std_specs::hash::group_hash_axioms;

/// The method of a request that names none.
pub const DEFAULT_METHOD: &'static str = "GET";

/// A request as the caller has built it so far.
#[derive(Debug)]
pub struct RequestBuildingState {
    pub url: Option<String>,
    pub method: Option<String>,
    pub headers: HashMap<String, String>,
    pub body: Option<Vec<u8>>,
}

/// A request as the app gets to see it.
#[derive(Debug)]
pub struct PendingRequest {
    pub id: u64,
    pub url: String,
    pub method: String,
    pub headers: HashMap<String, String>,
    pub body: Option<Vec<u8>>,
}

/// The app's answer to a request.
#[derive(Debug)]
pub struct NetworkResponse {
    pub status_code: u16,
    pub headers: HashMap<String, String>,
    pub body: Option<Vec<u8>>,
}

/// The text in `given`, or `default` where there is none.
pub open spec fn text_or(given: Option<String>, default: Seq<char>) -> Seq<char> {
    match given {
        Some(text) => text@,
        None => default,
    }
}

/// The bytes in `body`, where there is one.
pub open spec fn body_bytes(body: Option<Vec<u8>>) -> Option<Seq<u8>> {
    match body {
        Some(bytes) => Some(bytes@),
        None => None,
    }
}

fn copy_body(body: &Option<Vec<u8>>) -> (copy: Option<Vec<u8>>)
    ensures
        body_bytes(copy) == body_bytes(*body),
{
    match body {
        Some(bytes) => {
            let copy = bytes.clone();
            assert(copy@ =~= bytes@);
            Some(copy)
        },
        None => None,
    }
}

/// `pending` is what is sent of `req` under the number `id`. A missing URL is
/// sent as an empty one, a missing method as `GET`.
pub open spec fn is_sent_as(
    req: RequestBuildingState,
    id: u64,
    pending: PendingRequest,
) -> bool {
    &&& pending.id == id
    &&& pending.url@ == text_or(req.url, Seq::empty())
    &&& pending.method@ == text_or(req.method, DEFAULT_METHOD@)
    &&& pending.headers@ == req.headers@
    &&& pending.headers.deep_view() == req.headers.deep_view()
    &&& body_bytes(pending.body) == body_bytes(req.body)
}

/// What is sent to the app of the request `req`, under the number `id`.
pub fn pending_request(id: u64, req: &RequestBuildingState) -> (pending: PendingRequest)
    ensures
        is_sent_as(*req, id, pending),
        pending.id == id,
        req.url matches Some(url) ==> pending.url@ == url@,
        req.url is None ==> pending.url@.len() == 0,
        req.method matches Some(method) ==> pending.method@ == method@,
        req.method is None ==> pending.method@ == "GET"@,
        pending.headers@ == req.headers@,
        pending.headers.deep_view() == req.headers.deep_view(),
        req.body matches Some(sent) ==> pending.body is Some && pending.body->0@ == sent@,
        req.body is None ==> pending.body is None,
{
    let url = match &req.url {
        Some(url) => url.clone(),
        None => String::new(),
    };
    let method = match &req.method {
        Some(method) => method.clone(),
        None => String::from_str(DEFAULT_METHOD),
    };
    let headers = req.headers.clone();
    proof {
        reveal(vstd::std_specs::hash::hash_map_deep_view_impl);
    }
    PendingRequest { id, url, method, headers, body: copy_body(&req.body) }
}

/// Two to the power of the number of bits in a request number.
pub open spec fn id_space() -> int {
    u64::MAX + 1
}

/// The signed number that stands for the request number `id` in the app.
pub open spec fn app_id(id: u64) -> int {
    if id <= i64::MAX {
        id as int
    } else {
        id - id_space()
    }
}

/// The request number for which the app's signed number `request_id` stands.
pub open spec fn request_key(request_id: i64) -> int {
    if request_id >= 0 {
        request_id as int
    } else {
        request_id + id_space()
    }
}

/// The request number `id` as it is passed to the app.
pub fn to_app_id(id: u64) -> (request_id: i64)
    ensures
        request_id == app_id(id),
        id <= 0x7fff_ffff_ffff_ffff ==> request_id == id,
        id > 0x7fff_ffff_ffff_ffff ==> request_id == id - 0x1_0000_0000_0000_0000,
{
    assert(id <= 0x7fff_ffff_ffff_ffff ==> (id as i64) == id) by (bit_vector);
    assert(id > 0x7fff_ffff_ffff_ffff ==> (id as i64) == id - 0x1_0000_0000_0000_0000)
        by (bit_vector);
    id as i64
}

/// The request number that the app passed back as `request_id`.
pub fn from_app_id(request_id: i64) -> (id: u64)
    ensures
        id == request_key(request_id),
        request_id >= 0 ==> id == request_id,
        request_id < 0 ==> id == request_id + 0x1_0000_0000_0000_0000,
{
    assert(request_id >= 0 ==> (request_id as u64) == request_id) by (bit_vector);
    assert(request_id < 0 ==> (request_id as u64) == request_id + 0x1_0000_0000_0000_0000)
        by (bit_vector);
    request_id as u64
}

/// The low sixteen bits of the app's status number.
pub open spec fn low_status(status_code: i32) -> int {
    status_code as int % 0x1_0000
}

fn to_status(status_code: i32) -> (status: u16)
    ensures
        status == low_status(status_code),
{
    assert(status_code >= 0 ==> (status_code as u16) == status_code % 0x1_0000) by (bit_vector);
    assert(status_code < 0 ==> (status_code as u16) == (status_code + 0x8000_0000) % 0x1_0000)
        by (bit_vector);
    status_code as u16
}

/// Hands out request numbers: consecutive from 1 on, and from 0 again after the
/// last.
pub struct RequestIds {
    next: u64,
}

impl View for RequestIds {
    type V = u64;

    closed spec fn view(&self) -> u64 {
        self.next
    }
}

/// The number that is handed out after `id`.
pub open spec fn following_id(id: u64) -> u64 {
    if id == u64::MAX {
        0
    } else {
        (id + 1) as u64
    }
}

/// The number that is handed out first.
pub fn request_ids() -> (ids: RequestIds)
    ensures
        ids@ == 1,
{
    RequestIds { next: 1 }
}

impl RequestIds {
    /// Hands out the next number.
    pub fn take_id(&mut self) -> (id: u64)
        ensures
            id == old(self)@,
            final(self)@ == following_id(old(self)@),
            old(self)@ < u64::MAX ==> final(self)@ == old(self)@ + 1,
            old(self)@ == u64::MAX ==> final(self)@ == 0,
    {
        let id = self.next;
        self.next = id.wrapping_add(1);
        id
    }
}

/// Who waits for the answer to which request. `T` is the way back to the waiter.
pub struct NetPending<T> {
    waiting: HashMap<u64, T>,
}

impl<T> View for NetPending<T> {
    type V = Map<u64, T>;

    closed spec fn view(&self) -> Map<u64, T> {
        self.waiting@
    }
}

/// Nobody waits for anything.
pub fn net_pending<T>() -> (pending: NetPending<T>)
    ensures
        pending@ == Map::<u64, T>::empty(),
{
    NetPending { waiting: HashMap::new() }
}

impl<T> NetPending<T> {
    /// Notes that `waiter` waits for the answer to the request `id`, and gives
    /// back the one who waited for that number before.
    pub fn register(&mut self, id: u64, waiter: T) -> (displaced: Option<T>)
        ensures
            final(self)@ == old(self)@.insert(id, waiter),
            displaced == (if old(self)@.contains_key(id) {
                Some(old(self)@[id])
            } else {
                None
            }),
    {
        self.waiting.insert(id, waiter)
    }

    /// Takes out the one who waits for the request that the app calls
    /// `request_id`.
    pub fn take(&mut self, request_id: i64) -> (waiter: Option<T>)
        ensures
            final(self)@ == old(self)@.remove(request_key(request_id) as u64),
            final(self)@ == old(self)@.remove(request_id as u64),
            waiter is Some <==> old(self)@.contains_key(request_id as u64),
            waiter matches Some(taken) ==> taken == old(self)@[request_id as u64],
            waiter == (if old(self)@.contains_key(request_key(request_id) as u64) {
                Some(old(self)@[request_key(request_id) as u64])
            } else {
                None
            }),
    {
        let id = from_app_id(request_id);
        proof {
            law_request_key_is_the_cast(request_id);
        }
        self.waiting.remove(&id)
    }
}

/// Begins a request: draws its number, puts together what is sent of it, and
/// notes that `waiter` waits for the answer. Gives the two arguments of the call
/// that tells the app of the request, so that they exist only once the waiter is
/// in place and even an answer from inside that call finds it. `waiting` is
/// `None` where it cannot be had; the waiter then comes back.
pub fn begin_request<T>(
    ids: &mut RequestIds,
    waiting: Option<&mut NetPending<T>>,
    waiter: T,
    req: &RequestBuildingState,
) -> (call: (i64, PendingRequest, Option<T>))
    ensures
        final(ids)@ == following_id(old(ids)@),
        old(ids)@ < u64::MAX ==> final(ids)@ == old(ids)@ + 1,
        old(ids)@ == u64::MAX ==> final(ids)@ == 0,
        call.1.id == old(ids)@,
        is_sent_as(*req, call.1.id, call.1),
        req.url matches Some(url) ==> call.1.url@ == url@,
        req.url is None ==> call.1.url@.len() == 0,
        req.method matches Some(method) ==> call.1.method@ == method@,
        req.method is None ==> call.1.method@ == "GET"@,
        call.1.headers@ == req.headers@,
        call.1.headers.deep_view() == req.headers.deep_view(),
        req.body matches Some(sent) ==> call.1.body is Some && call.1.body->0@ == sent@,
        req.body is None ==> call.1.body is None,
        call.0 == app_id(call.1.id),
        call.1.id <= 0x7fff_ffff_ffff_ffff ==> call.0 == call.1.id,
        call.1.id > 0x7fff_ffff_ffff_ffff ==> call.0 == call.1.id - 0x1_0000_0000_0000_0000,
        match waiting {
            Some(held) => {
                &&& final(held)@ == (*held)@.insert(call.1.id, waiter)
                &&& final(held)@.contains_key(request_key(call.0) as u64)
                &&& final(held)@[request_key(call.0) as u64] == waiter
                &&& call.2 is None
            },
            None => call.2 == Some(waiter),
        },
{
    let id = ids.take_id();
    let pending = pending_request(id, req);
    let left = match waiting {
        Some(held) => {
            let _ = held.register(id, waiter);
            None
        },
        None => Some(waiter),
    };
    (to_app_id(id), pending, left)
}

/// `response` is the answer with this status, these headers and this body. A
/// body is always present; where the app gave none it is empty.
pub open spec fn is_answer(
    response: NetworkResponse,
    status_code: i32,
    headers: Map<Seq<char>, Seq<char>>,
    body: Option<Vec<u8>>,
) -> bool {
    &&& response.status_code == low_status(status_code)
    &&& response.headers.deep_view() == headers
    &&& body_bytes(response.body) == Some(
        match body {
            Some(bytes) => bytes@,
            None => Seq::empty(),
        },
    )
}

/// Puts the app's answer together.
pub fn network_response(
    status_code: i32,
    headers: HashMap<String, String>,
    body: Option<Vec<u8>>,
) -> (response: NetworkResponse)
    ensures
        is_answer(response, status_code, headers.deep_view(), body),
        0 <= status_code <= u16::MAX ==> response.status_code == status_code,
        response.status_code == status_code as int % 0x1_0000,
        response.headers.deep_view() == headers.deep_view(),
        response.body is Some,
        body matches Some(bytes) ==> response.body->0@ == bytes@,
        body is None ==> response.body->0@.len() == 0,
{
    let bytes = match body {
        Some(bytes) => bytes,
        None => Vec::new(),
    };
    NetworkResponse { status_code: to_status(status_code), headers, body: Some(bytes) }
}

/// The app answers the request `request_id`. Gives the waiter and what to tell
/// it; `None` where nobody waits for that request.
pub fn send_network_response<T>(
    pending: &mut NetPending<T>,
    request_id: i64,
    status_code: i32,
    headers_json: &str,
    body: Option<Vec<u8>>,
) -> (delivery: Option<(T, Result<NetworkResponse, String>)>)
    ensures
        final(pending)@ == old(pending)@.remove(request_key(request_id) as u64),
        match delivery {
            Some((waiter, answer)) => {
                &&& old(pending)@.contains_key(request_key(request_id) as u64)
                &&& waiter == old(pending)@[request_key(request_id) as u64]
                &&& answer matches Ok(response) && is_answer(
                    response,
                    status_code,
                    headers_of(json_object(headers_json@)),
                    body,
                )
            },
            None => !old(pending)@.contains_key(request_key(request_id) as u64),
        },
        final(pending)@ == old(pending)@.remove(request_id as u64),
        delivery is Some <==> old(pending)@.contains_key(request_id as u64),
        delivery matches Some((waiter, answer)) ==> {
            &&& waiter == old(pending)@[request_id as u64]
            &&& answer is Ok
            &&& 0 <= status_code <= u16::MAX ==> answer->Ok_0.status_code == status_code
            &&& answer->Ok_0.status_code == status_code as int % 0x1_0000
            &&& json_object(headers_json@) matches Some(object) ==> answer->Ok_0.headers.deep_view()
                == object
            &&& json_object(headers_json@) is None ==> answer->Ok_0.headers.deep_view().is_empty()
            &&& answer->Ok_0.body is Some
            &&& body matches Some(bytes) ==> answer->Ok_0.body->0@ == bytes@
            &&& body is None ==> answer->Ok_0.body->0@.len() == 0
        },
{
    let headers = parse_headers(headers_json);
    match pending.take(request_id) {
        Some(waiter) => Some((waiter, Ok(network_response(status_code, headers, body)))),
        None => None,
    }
}

/// The app could not carry out the request `request_id`. Gives the waiter and
/// what to tell it; `None` where nobody waits for that request.
pub fn send_network_error<T>(
    pending: &mut NetPending<T>,
    request_id: i64,
    error_msg: String,
) -> (delivery: Option<(T, Result<NetworkResponse, String>)>)
    ensures
        final(pending)@ == old(pending)@.remove(request_key(request_id) as u64),
        match delivery {
            Some((waiter, answer)) => {
                &&& old(pending)@.contains_key(request_key(request_id) as u64)
                &&& waiter == old(pending)@[request_key(request_id) as u64]
                &&& answer == Err::<NetworkResponse, String>(error_msg)
            },
            None => !old(pending)@.contains_key(request_key(request_id) as u64),
        },
        final(pending)@ == old(pending)@.remove(request_id as u64),
        delivery is Some <==> old(pending)@.contains_key(request_id as u64),
        delivery matches Some((waiter, answer)) ==> waiter == old(pending)@[request_id as u64]
            && answer is Err && answer->Err_0@ == error_msg@,
{
    match pending.take(request_id) {
        Some(waiter) => Some((waiter, Err(error_msg))),
        None => None,
    }
}

/// The number handed out after `n` others, starting with `first`.
pub open spec fn nth_id(first: u64, n: nat) -> u64
    decreases n,
{
    if n == 0 {
        first
    } else {
        following_id(nth_id(first, (n - 1) as nat))
    }
}

/// The request numbers run through all of their range in turn.
pub proof fn law_ids_are_consecutive(first: u64, n: nat)
    ensures
        nth_id(first, n) == (first + n) % id_space(),
    decreases n,
{
    if n > 0 {
        law_ids_are_consecutive(first, (n - 1) as nat);
        vstd::arithmetic::div_mod::lemma_add_mod_noop(first + n - 1, 1, id_space());
        vstd::arithmetic::div_mod::lemma_small_mod(1, id_space() as nat);
        let before = nth_id(first, (n - 1) as nat);
        if before == u64::MAX {
            assert((before + 1) % id_space() == 0);
        } else {
            vstd::arithmetic::div_mod::lemma_small_mod((before + 1) as nat, id_space() as nat);
        }
    } else {
        vstd::arithmetic::div_mod::lemma_small_mod(first as nat, id_space() as nat);
    }
}

/// No request number comes twice before all the others have come.
pub proof fn law_ids_are_distinct(first: u64, m: nat, n: nat)
    requires
        m < n < m + id_space(),
    ensures
        nth_id(first, m) != nth_id(first, n),
{
    law_ids_are_consecutive(first, m);
    law_ids_are_consecutive(first, n);
    if nth_id(first, m) == nth_id(first, n) {
        vstd::arithmetic::div_mod::lemma_mod_equivalence(first + n, first + m, id_space());
        vstd::arithmetic::div_mod::lemma_small_mod((n - m) as nat, id_space() as nat);
    }
}

/// A request number survives the way to the app and back.
pub proof fn law_app_id_round_trip(id: u64)
    ensures
        i64::MIN <= app_id(id) <= i64::MAX,
        request_key(app_id(id) as i64) == id,
{
}

/// Each signed number of the app stands for one request number, and no two for
/// the same.
pub proof fn law_request_key_is_injective(one: i64, other: i64)
    requires
        request_key(one) == request_key(other),
    ensures
        one == other,
        0 <= request_key(one) < id_space(),
{
}

/// An answer to a registered request reaches the one who registered it, however
/// many others have registered since under other numbers.
pub proof fn law_answer_reaches_its_waiter<T>(
    pending: Map<u64, T>,
    later: Map<u64, T>,
    id: u64,
    waiter: T,
)
    requires
        !later.contains_key(id),
    ensures
        ({
            let waiting = pending.insert(id, waiter).union_prefer_right(later);
            let key = request_key(app_id(id) as i64) as u64;
            waiting.contains_key(key) && waiting[key] == waiter
        }),
{
    law_app_id_round_trip(id);
}

/// A request is answered at most once: after its waiter has been taken out,
/// nobody waits for it.
pub proof fn law_answered_once<T>(pending: Map<u64, T>, request_id: i64)
    ensures
        !pending.remove(request_key(request_id) as u64).contains_key(
            request_key(request_id) as u64,
        ),
{
}

/// Answering one request leaves every other waiter in place.
pub proof fn law_answer_leaves_the_others<T>(pending: Map<u64, T>, one: i64, other: i64)
    requires
        one != other,
        pending.contains_key(request_key(other) as u64),
    ensures
        pending.remove(request_key(one) as u64).contains_key(request_key(other) as u64),
        pending.remove(request_key(one) as u64)[request_key(other) as u64]
            == pending[request_key(other) as u64],
{
    if request_key(one) == request_key(other) {
        law_request_key_is_injective(one, other);
    }
}

/// All of a request is sent, each part by itself: the number, the URL and the
/// method as they were given, or an empty URL and `GET` where they were not, the
/// headers, and the body byte for byte.
pub proof fn law_request_is_sent_whole(req: RequestBuildingState, id: u64, pending: PendingRequest)
    requires
        is_sent_as(req, id, pending),
    ensures
        pending.id == id,
        req.url matches Some(url) ==> pending.url@ == url@,
        req.url is None ==> pending.url@.len() == 0,
        req.method matches Some(method) ==> pending.method@ == method@,
        req.method is None ==> pending.method@ == "GET"@,
        pending.headers@ == req.headers@,
        pending.headers.deep_view() == req.headers.deep_view(),
        req.body matches Some(sent) ==> pending.body is Some && pending.body->0@ == sent@,
        req.body is None ==> pending.body is None,
{
}

/// The app's number for a request is the request's number as long as it is not
/// too large for a signed one, and else lies one whole range below it.
pub proof fn law_app_id_wraps_around(id: u64)
    ensures
        id <= 0x7fff_ffff_ffff_ffff ==> app_id(id) == id,
        id > 0x7fff_ffff_ffff_ffff ==> app_id(id) == id - 0x1_0000_0000_0000_0000,
        id_space() == 0x1_0000_0000_0000_0000,
{
}

/// The request that the app means by a number is that with the same bits.
pub proof fn law_request_key_is_the_cast(request_id: i64)
    ensures
        request_key(request_id) == request_id as u64,
        request_id >= 0 ==> request_key(request_id) == request_id,
        request_id < 0 ==> request_key(request_id) == request_id + 0x1_0000_0000_0000_0000,
{
    assert(request_id >= 0 ==> (request_id as u64) == request_id) by (bit_vector);
    assert(request_id < 0 ==> (request_id as u64) == request_id + 0x1_0000_0000_0000_0000)
        by (bit_vector);
}

/// The number after the last is 0; every other is followed by the next.
pub proof fn law_next_id_is_one_up(id: u64)
    ensures
        id < u64::MAX ==> following_id(id) == id + 1,
        id == u64::MAX ==> following_id(id) == 0,
{
}

/// An answer holds what the app gave: the status number as it is where it fits
/// sixteen bits and its remainder where it does not, the headers, and the body
/// byte for byte, empty where there was none.
pub proof fn law_answer_is_whole(
    response: NetworkResponse,
    status_code: i32,
    headers: Map<Seq<char>, Seq<char>>,
    body: Option<Vec<u8>>,
)
    requires
        is_answer(response, status_code, headers, body),
    ensures
        0 <= status_code <= u16::MAX ==> response.status_code == status_code,
        response.status_code == status_code as int % 0x1_0000,
        response.headers.deep_view() == headers,
        response.body is Some,
        body matches Some(bytes) ==> response.body->0@ == bytes@,
        body is None ==> response.body->0@.len() == 0,
{
}

} // verus!
