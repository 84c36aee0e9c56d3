//! What a request comes back with: the app's answer, turned into the response
//! that the caller of the request gets.
use reqwest::header::HeaderMap;
use vstd::prelude::*;
use vstd::string::*;

use vstd::utf8::encode_utf8;

use crate::decimal::{decimal, decimal_text};
use crate::headers::{
    canonical_name, collected, enumerates, header_contents, is_usable,
    law_distinct_headers_all_stay, names_are_distinct, response_headers, usable_names, HEADER_ROOM,
};
use crate::requests::{body_bytes, is_answer, low_status, NetworkResponse};

verus! {

/// The response to a request.
#[derive(Debug)]
pub struct ResponseData {
    pub url: String,
    pub status_code: u16,
    pub headers: HeaderMap,
    pub body: Option<Vec<u8>>,
    pub bytes_read: usize,
}

/// Why a request has no response.
#[derive(Debug)]
pub enum BridgeError {
    /// The app could not be called at all.
    NotAttached(String),
    /// The way back from the app was closed without an answer.
    Dropped,
    /// The app reports that it could not carry out the request.
    Failed(String),
    /// The app sent more headers than a header map takes.
    TooManyHeaders,
    /// The request's URL is not one.
    InvalidUrl(String),
    /// The app's status number is no HTTP status.
    InvalidStatus(String),
}

pub const DROPPED_MESSAGE: &'static str = "Bridge dropped";

pub const TOO_MANY_HEADERS_MESSAGE: &'static str = "size overflows MAX_SIZE";

pub const INVALID_STATUS_MESSAGE: &'static str = "invalid status code";

impl BridgeError {
    /// The text of the error.
    pub open spec fn text(self) -> Seq<char> {
        match self {
            BridgeError::NotAttached(message) => message@,
            BridgeError::Dropped => DROPPED_MESSAGE@,
            BridgeError::Failed(message) => message@,
            BridgeError::TooManyHeaders => TOO_MANY_HEADERS_MESSAGE@,
            BridgeError::InvalidUrl(message) => message@,
            BridgeError::InvalidStatus(message) => message@,
        }
    }

    /// The text of the error.
    pub fn message(&self) -> (message: String)
        ensures
            message@ == self.text(),
            self is Dropped ==> message@ == "Bridge dropped"@,
            self is TooManyHeaders ==> message@ == "size overflows MAX_SIZE"@,
            self matches BridgeError::NotAttached(report) ==> message@ == report@,
            self matches BridgeError::Failed(report) ==> message@ == report@,
            self matches BridgeError::InvalidUrl(report) ==> message@ == report@,
            self matches BridgeError::InvalidStatus(report) ==> message@ == report@,
    {
        match self {
            BridgeError::NotAttached(message) => message.clone(),
            BridgeError::Dropped => String::from_str(DROPPED_MESSAGE),
            BridgeError::Failed(message) => message.clone(),
            BridgeError::TooManyHeaders => String::from_str(TOO_MANY_HEADERS_MESSAGE),
            BridgeError::InvalidUrl(message) => message.clone(),
            BridgeError::InvalidStatus(message) => message.clone(),
        }
    }
}

/// How the attempt to tell the app of a request went.
#[derive(Debug)]
pub enum AppCall {
    /// The app knows of the request.
    Made,
    /// The call into the app failed.
    Raised { report: String },
    /// The request could not be turned into a string of the app.
    NoString,
    /// The app's class is not known.
    NoClass,
    /// The app's virtual machine is not known.
    NoVm,
    /// The thread could not be attached to the app's virtual machine.
    NotAttached { report: String },
}

/// What to log after the attempt to tell the app of the request `id`. Only a
/// thread that cannot be attached ends the request; after any other failure it
/// is still waited for.
pub fn app_called(id: u64, call: AppCall) -> (outcome: Result<Option<String>, BridgeError>)
    ensures
        match call {
            AppCall::Made => outcome == Ok::<Option<String>, BridgeError>(None),
            AppCall::Raised { report } => outcome matches Ok(Some(message)) && message@
                == "failed to call onNetworkRequest: "@ + report@,
            AppCall::NoString => outcome matches Ok(Some(message)) && message@
                == "failed to create JString for request "@ + decimal(id as nat),
            AppCall::NoClass => outcome matches Ok(Some(message)) && message@
                == "SERVER_CLASS not initialized, cannot call Kotlin"@,
            AppCall::NoVm => outcome matches Ok(Some(message)) && message@
                == "JAVA_VM not initialized, cannot call Kotlin"@,
            AppCall::NotAttached { report } => outcome == Err::<Option<String>, BridgeError>(
                BridgeError::NotAttached(report),
            ),
        },
{
    match call {
        AppCall::Made => Ok(None),
        AppCall::Raised { report } => Ok(
            Some(String::from_str("failed to call onNetworkRequest: ").concat(report.as_str())),
        ),
        AppCall::NoString => Ok(
            Some(
                String::from_str("failed to create JString for request ").concat(
                    decimal_text(id as u128).as_str(),
                ),
            ),
        ),
        AppCall::NoClass => Ok(
            Some(String::from_str("SERVER_CLASS not initialized, cannot call Kotlin")),
        ),
        AppCall::NoVm => Ok(Some(String::from_str("JAVA_VM not initialized, cannot call Kotlin"))),
        AppCall::NotAttached { report } => Err(BridgeError::NotAttached(report)),
    }
}

/// `text` as a URL in its normal form, or why it is not a URL.
pub uninterp spec fn parsed_url(text: Seq<char>) -> Result<Seq<char>, Seq<char>>;

/// `Url::parse`: what it makes of a text, or the message with which it refuses
/// it, depends on the text alone. Which texts are URLs is not said here.
#[verifier::external_body]
fn parse_url(text: &str) -> (url: Result<String, String>)
    ensures
        match url {
            Ok(normal) => parsed_url(text@) == Ok::<Seq<char>, Seq<char>>(normal@),
            Err(message) => parsed_url(text@) == Err::<Seq<char>, Seq<char>>(message@),
        },
{
    match reqwest::Url::parse(text) {
        Ok(url) => Ok(url.to_string()),
        Err(error) => Err(error.to_string()),
    }
}

/// `code` is an HTTP status code.
pub open spec fn is_status(code: u16) -> bool {
    100 <= code <= 999
}

/// `StatusCode::from_u16`: accepts the numbers of three digits, as they are, and
/// refuses every other with the same message.
#[verifier::external_body]
fn parse_status(code: u16) -> (status: Result<u16, String>)
    ensures
        match status {
            Ok(number) => is_status(code) && number == code,
            Err(message) => !is_status(code) && message@ == INVALID_STATUS_MESSAGE@,
        },
{
    match reqwest::StatusCode::from_u16(code) {
        Ok(status) => Ok(status.as_u16()),
        Err(error) => Err(error.to_string()),
    }
}

/// Puts the response together; a bad URL is reported before a bad status.
pub fn assemble_response(
    url: Result<String, String>,
    status: Result<u16, String>,
    headers: HeaderMap,
    body: Option<Vec<u8>>,
) -> (response: Result<ResponseData, BridgeError>)
    ensures
        response == (match (url, status) {
            (Err(message), _) => Err(BridgeError::InvalidUrl(message)),
            (Ok(_), Err(message)) => Err(BridgeError::InvalidStatus(message)),
            (Ok(url), Ok(status_code)) => Ok(
                (ResponseData { url, status_code, headers, body, bytes_read: 0 }),
            ),
        }),
{
    let url = match url {
        Ok(url) => url,
        Err(message) => {
            return Err(BridgeError::InvalidUrl(message));
        },
    };
    let status_code = match status {
        Ok(status_code) => status_code,
        Err(message) => {
            return Err(BridgeError::InvalidStatus(message));
        },
    };
    Ok(ResponseData { url, status_code, headers, body, bytes_read: 0 })
}

/// `response` is what a request for `url` gets where the app answered `answer`.
pub open spec fn is_outcome(
    url: Seq<char>,
    answer: NetworkResponse,
    response: Result<ResponseData, BridgeError>,
) -> bool {
    match response {
        Ok(data) => {
            &&& parsed_url(url) == Ok::<Seq<char>, Seq<char>>(data.url@)
            &&& is_status(answer.status_code)
            &&& data.status_code == answer.status_code
            &&& exists|order: Seq<(Seq<char>, Seq<char>)>| #[trigger]
                enumerates(order, answer.headers.deep_view()) && header_contents(data.headers)
                    == collected(order)
            &&& data.body == answer.body
            &&& data.bytes_read == 0
        },
        Err(BridgeError::TooManyHeaders) => {
            &&& answer.headers.deep_view().len() > HEADER_ROOM
            &&& usable_names(answer.headers.deep_view()).len() >= HEADER_ROOM
        },
        Err(BridgeError::InvalidUrl(message)) => parsed_url(url) == Err::<Seq<char>, Seq<char>>(
            message@,
        ),
        Err(BridgeError::InvalidStatus(message)) => {
            &&& parsed_url(url) is Ok
            &&& !is_status(answer.status_code)
            &&& message@ == INVALID_STATUS_MESSAGE@
        },
        Err(_) => false,
    }
}

/// Ends a request for `url` with what came back from the app: `None` where the
/// way back was closed, else the app's answer or its report of a failure.
pub fn finish_request(url: &str, reply: Option<Result<NetworkResponse, String>>) -> (response:
    Result<ResponseData, BridgeError>)
    ensures
        match reply {
            None => response == Err::<ResponseData, BridgeError>(BridgeError::Dropped),
            Some(Err(message)) => response == Err::<ResponseData, BridgeError>(
                BridgeError::Failed(message),
            ),
            Some(Ok(answer)) => is_outcome(url@, answer, response),
        },
        reply matches Some(Ok(answer)) ==> match response {
            Ok(data) => {
                &&& parsed_url(url@) == Ok::<Seq<char>, Seq<char>>(data.url@)
                &&& 100 <= answer.status_code <= 999
                &&& data.status_code == answer.status_code
                &&& exists|order: Seq<(Seq<char>, Seq<char>)>| #[trigger]
                    enumerates(order, answer.headers.deep_view()) && header_contents(data.headers)
                        == collected(order)
                &&& data.body == answer.body
                &&& data.bytes_read == 0
            },
            Err(BridgeError::TooManyHeaders) => {
                &&& answer.headers.deep_view().len() > 6554
                &&& usable_names(answer.headers.deep_view()).len() >= 6554
            },
            Err(BridgeError::InvalidUrl(message)) => parsed_url(url@) == Err::<
                Seq<char>,
                Seq<char>,
            >(message@),
            Err(BridgeError::InvalidStatus(message)) => {
                &&& parsed_url(url@) is Ok
                &&& !(100 <= answer.status_code <= 999)
                &&& message@ == "invalid status code"@
            },
            Err(_) => false,
        },
{
    let answer = match reply {
        None => {
            return Err(BridgeError::Dropped);
        },
        Some(Err(message)) => {
            return Err(BridgeError::Failed(message));
        },
        Some(Ok(answer)) => answer,
    };
    match response_headers(answer.headers) {
        None => Err(BridgeError::TooManyHeaders),
        Some(headers) => assemble_response(
            parse_url(url),
            parse_status(answer.status_code),
            headers,
            answer.body,
        ),
    }
}

/// A request gets a response exactly where its URL is one and the app's status
/// number is an HTTP status. The headers, well formed or not, make no difference
/// as long as there is room for their usable names.
pub proof fn law_response_iff_valid(
    url: Seq<char>,
    answer: NetworkResponse,
    response: Result<ResponseData, BridgeError>,
)
    requires
        is_outcome(url, answer, response),
        usable_names(answer.headers.deep_view()).len() < HEADER_ROOM
            || answer.headers.deep_view().len() <= HEADER_ROOM,
    ensures
        response is Ok <==> parsed_url(url) is Ok && is_status(answer.status_code),
{
}

/// What the app answers is what the caller gets: the status number as far as it
/// fits sixteen bits, the body, and, where no two usable names differ in letter
/// case alone, each usable header.
pub proof fn law_answer_becomes_the_response(
    url: Seq<char>,
    status_code: i32,
    headers: Map<Seq<char>, Seq<char>>,
    body: Option<Vec<u8>>,
    answer: NetworkResponse,
    data: ResponseData,
)
    requires
        is_answer(answer, status_code, headers, body),
        is_outcome(url, answer, Ok(data)),
    ensures
        data.status_code == low_status(status_code),
        0 <= status_code <= u16::MAX ==> data.status_code == status_code,
        body_bytes(data.body) == Some(
            match body {
                Some(bytes) => bytes@,
                None => Seq::empty(),
            },
        ),
        names_are_distinct(headers) ==> forall|key: Seq<char>| #[trigger]
            headers.contains_key(key) && is_usable((key, headers[key])) ==> header_contents(
                data.headers,
            ).contains_key(canonical_name(key)) && header_contents(
                data.headers,
            )[canonical_name(key)] == seq![encode_utf8(headers[key])],
{
    let order = choose|order: Seq<(Seq<char>, Seq<char>)>| #[trigger]
        enumerates(order, answer.headers.deep_view()) && header_contents(data.headers) == collected(
            order,
        );
    if names_are_distinct(headers) {
        assert forall|key: Seq<char>| #[trigger]
            headers.contains_key(key) && is_usable((key, headers[key])) implies header_contents(
            data.headers,
        ).contains_key(canonical_name(key)) && header_contents(data.headers)[canonical_name(key)]
            == seq![encode_utf8(headers[key])] by {
            law_distinct_headers_all_stay(order, headers, key);
        }
    }
}

/// A response is for the URL of the request, all of it, in its normal form; it
/// has the answer's status, which is an HTTP status, the answer's headers as far
/// as they are usable, and the answer's body, and none of it has been read.
pub proof fn law_response_holds_the_answer(
    url: Seq<char>,
    answer: NetworkResponse,
    data: ResponseData,
)
    requires
        is_outcome(url, answer, Ok(data)),
    ensures
        parsed_url(url) == Ok::<Seq<char>, Seq<char>>(data.url@),
        100 <= answer.status_code <= 999,
        data.status_code == answer.status_code,
        data.body == answer.body,
        data.bytes_read == 0,
        exists|order: Seq<(Seq<char>, Seq<char>)>| #[trigger]
            enumerates(order, answer.headers.deep_view()) && header_contents(data.headers)
                == collected(order),
{
}

/// A refusal is for a reason, and names it: too many usable headers, a URL that
/// is none, with the parser's own message, or a good URL and a number that is no
/// HTTP status.
pub proof fn law_refusals_have_their_reason(
    url: Seq<char>,
    answer: NetworkResponse,
    error: BridgeError,
)
    requires
        is_outcome(url, answer, Err(error)),
    ensures
        match error {
            BridgeError::TooManyHeaders => {
                &&& answer.headers.deep_view().len() > 6554
                &&& usable_names(answer.headers.deep_view()).len() >= 6554
            },
            BridgeError::InvalidUrl(message) => parsed_url(url) == Err::<Seq<char>, Seq<char>>(
                message@,
            ),
            BridgeError::InvalidStatus(message) => {
                &&& parsed_url(url) is Ok
                &&& !(100 <= answer.status_code <= 999)
                &&& message@ == "invalid status code"@
            },
            _ => false,
        },
{
}

/// A good URL and a status of three digits are enough for a response, from the
/// app's number to the caller: with room for the headers, the caller gets one,
/// with that status, that URL and that body.
pub proof fn law_valid_answer_gets_a_response(
    url: Seq<char>,
    status_code: i32,
    headers: Map<Seq<char>, Seq<char>>,
    body: Option<Vec<u8>>,
    answer: NetworkResponse,
    response: Result<ResponseData, BridgeError>,
)
    requires
        is_answer(answer, status_code, headers, body),
        is_outcome(url, answer, response),
        parsed_url(url) is Ok,
        100 <= status_code <= 999,
        usable_names(headers).len() < 6554 || headers.len() <= 6554,
    ensures
        response is Ok,
        response->Ok_0.status_code == status_code,
        response->Ok_0.url@ == parsed_url(url)->Ok_0,
        response->Ok_0.body is Some,
        body matches Some(bytes) ==> response->Ok_0.body->0@ == bytes@,
        body is None ==> response->Ok_0.body->0@.len() == 0,
{
}

/// The numbers of three digits are the HTTP statuses.
pub proof fn law_statuses_have_three_digits(code: u16)
    ensures
        is_status(code) <==> 100 <= code <= 999,
{
}

/// An error that carries a report says just that report.
pub proof fn law_errors_speak_for_themselves(error: BridgeError)
    ensures
        error is Dropped ==> error.text() == "Bridge dropped"@,
        error is TooManyHeaders ==> error.text() == "size overflows MAX_SIZE"@,
        error matches BridgeError::NotAttached(report) ==> error.text() == report@,
        error matches BridgeError::Failed(report) ==> error.text() == report@,
        error matches BridgeError::InvalidUrl(report) ==> error.text() == report@,
        error matches BridgeError::InvalidStatus(report) ==> error.text() == report@,
{
}

} // verus!
