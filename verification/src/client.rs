//! The client: what is sent to the server, and what the replies come to.

use crate::cookies::{cookie_text, get_cookies_string};
use crate::error::Error;
use crate::text::{digits_of, number_to_string};
use vstd::prelude::*;
use vstd::utf8::encode_utf8;

verus! {

/// Some requests get a response with data at once
/// and some get a response with identifier of the answer.
#[derive(Debug, Copy, Clone, PartialEq, Eq, Structural)]
#[non_exhaustive]
pub enum RzdQueryType {
    Simple,
    WithId,
}

/// Identifier returned by the server in response to some requests.
#[derive(Debug, Copy, Clone, PartialEq, Eq, Structural)]
pub struct RzdRequestId(pub u64);

impl RzdRequestId {
    /// Creates an identifier from the digits.
    pub fn new(id: u64) -> (r: Self)
        ensures
            r.0 == id,
    {
        RzdRequestId(id)
    }

    /// Performs the conversion into digits.
    pub fn to_uint(&self) -> (r: u64)
        ensures
            r == self.0,
    {
        self.0
    }

    /// The identifier in decimal digits.
    pub fn to_string(&self) -> (r: String)
        ensures
            r@ == digits_of(self.0 as nat),
    {
        number_to_string(self.0)
    }
}

impl Default for RzdRequestId {
    fn default() -> (r: Self)
        ensures
            r.0 == 0,
    {
        RzdRequestId(0)
    }
}

/// What a search has to say for the client to run it: how it is asked, and
/// how its replies are read.
pub trait RzdClientInterface<T> {
    /// Whether the search is answered at once or after a request for an identifier.
    spec fn spec_query_type(&self) -> RzdQueryType;

    /// The request for an identifier.
    spec fn spec_request_id(&self) -> Seq<char>;

    /// The request for the data, which names the identifier where the search has one.
    spec fn spec_request_data(&self, id: RzdRequestId) -> Seq<char>;

    /// Whether `r` is what the reply `body` to the request for an identifier comes to.
    spec fn is_reply_id(&self, body: Seq<char>, r: Result<Option<RzdRequestId>, Error>) -> bool;

    /// Whether `r` is what the reply `body` to the request for the data comes to.
    spec fn is_reply_data(&self, body: Seq<char>, r: Result<Option<T>, Error>) -> bool;

    /// Whether the search is answered at once or after a request for an identifier.
    fn query_type(&self) -> (r: RzdQueryType)
        ensures
            r == self.spec_query_type(),
    ;

    /// The request for an identifier; empty where the search has none.
    fn request_id(&self) -> (r: String)
        ensures
            r@ == self.spec_request_id(),
    ;

    /// The request for the data. A search that is answered at once takes no
    /// notice of `id`.
    fn request_data(&self, id: RzdRequestId) -> (r: String)
        ensures
            r@ == self.spec_request_data(id),
    ;

    /// Reads the reply to the request for an identifier. `Ok(None)` says that
    /// the reply holds none.
    fn deserialize_reply_id(&self, body: &str) -> (r: Result<Option<RzdRequestId>, Error>)
        ensures
            self.is_reply_id(body@, r),
    ;

    /// Reads the reply to the request for the data. `Ok(None)` says that the
    /// reply holds no data; the error `RzdReplyNotReady` says that the server
    /// sent an identifier again because the answer is not ready. While the
    /// data are asked for by identifier, the client asks again after either.
    fn deserialize_reply_data(&self, body: &str) -> (r: Result<Option<T>, Error>)
        ensures
            self.is_reply_data(body@, r),
    ;
}

/// The header by which the client names itself.
pub const APP_USER_AGENT: &'static str = "rzd_trains 0.1.0";

/// The page that a request claims to come from; the server answers no
/// request without it.
pub const RZD_REFERER: &'static str = "rzd.ru";

/// How often the data are asked for by identifier before the server counts as
/// overloaded.
pub const POLL_ATTEMPTS: u8 = 3;

/// The milliseconds that a request for the data by identifier waits before it
/// is sent: the server needs them to get the answer ready.
pub const POLL_DELAY_MS: u64 = 1500;

/// A request to the server: a GET of `url` with the headers, sent after
/// `delay_ms` milliseconds.
#[derive(Debug, PartialEq)]
pub struct RzdRequest {
    pub url: String,
    pub headers: Vec<(String, String)>,
    pub delay_ms: u64,
}

/// A request by the characters of its texts.
pub struct RequestView {
    pub url: Seq<char>,
    pub headers: Seq<(Seq<char>, Seq<char>)>,
    pub delay_ms: u64,
}

/// Headers by the characters of their names and values.
pub open spec fn header_views(headers: Seq<(String, String)>) -> Seq<(Seq<char>, Seq<char>)> {
    Seq::new(headers.len(), |i: int| (headers[i].0@, headers[i].1@))
}

impl View for RzdRequest {
    type V = RequestView;

    open spec fn view(&self) -> RequestView {
        RequestView {
            url: self.url@,
            headers: header_views(self.headers@),
            delay_ms: self.delay_ms,
        }
    }
}

/// The headers that every request carries.
pub open spec fn default_headers() -> Seq<(Seq<char>, Seq<char>)> {
    seq![("user-agent"@, APP_USER_AGENT@), ("referer"@, RZD_REFERER@)]
}

/// The headers of a request that brings the cookies of a session back.
pub open spec fn session_headers(session: Seq<char>) -> Seq<(Seq<char>, Seq<char>)> {
    default_headers().push(("cookie"@, session))
}

/// The headers that every request carries.
pub fn request_headers_default() -> (r: Vec<(String, String)>)
    ensures
        header_views(r@) == default_headers(),
{
    let mut headers: Vec<(String, String)> = Vec::new();
    headers.push((String::from_str("user-agent"), String::from_str(APP_USER_AGENT)));
    headers.push((String::from_str("referer"), String::from_str(RZD_REFERER)));
    assert(header_views(headers@) =~= default_headers());
    headers
}

/// Whether a byte may stand in the value of a header: a tab may, and any byte
/// from 32 on but 127.
pub open spec fn is_header_byte(b: u8) -> bool {
    (b >= 32 && b != 127) || b == 9
}

/// Whether a text may be the value of a header: each byte of its UTF-8 may
/// stand there.
pub open spec fn is_header_value(s: Seq<char>) -> bool {
    let bytes = encode_utf8(s);
    forall|i: int| 0 <= i < bytes.len() ==> is_header_byte(#[trigger] bytes[i])
}

/// Asks reqwest's `HeaderValue::from_bytes` whether the bytes of `s` make the
/// value of a header. They do where each is a tab or a byte from 32 on other
/// than 127.
#[verifier::external_body]
fn header_value_exists(s: &str) -> (r: bool)
    ensures
        r == is_header_value(s@),
{
    reqwest::header::HeaderValue::from_bytes(s.as_bytes()).is_ok()
}

/// What a response of the server is, before its body is read.
#[derive(Debug, Copy, Clone, PartialEq, Eq, Structural)]
pub enum ResponseKind {
    /// The status says that the request failed.
    Failed,
    /// The response says that it has no body.
    Empty,
    /// The response has a body to read.
    Body,
}

/// What a response with this status and this length of its body is: failed
/// unless the status is one of 200 to 299, and then empty where the length is
/// given as 0.
pub open spec fn response_kind(status: u16, content_length: Option<u64>) -> ResponseKind {
    if !(200 <= status < 300) {
        ResponseKind::Failed
    } else if content_length == Some(0u64) {
        ResponseKind::Empty
    } else {
        ResponseKind::Body
    }
}

/// Says what a response with this status and this length of its body is.
pub fn classify_response(status: u16, content_length: Option<u64>) -> (r: ResponseKind)
    ensures
        r == response_kind(status, content_length),
{
    if !(200 <= status && status < 300) {
        return ResponseKind::Failed;
    }
    match content_length {
        Some(0) => ResponseKind::Empty,
        _ => ResponseKind::Body,
    }
}

/// What came back for a request.
#[derive(Debug, PartialEq)]
pub enum RzdResponse {
    /// A response with a body, and the cookies that it set, as names and values.
    Body { text: String, cookies: Vec<(String, String)> },
    /// A response without a body.
    Empty,
    /// A response whose status says that the request failed.
    Failed(u16),
    /// No response: the text says what went wrong on the way.
    Broken(String),
    /// A response whose body could not be read: the text says why.
    Unreadable(String),
}

impl RzdResponse {
    /// The body of the response; empty where it has none.
    pub open spec fn body(self) -> Seq<char> {
        match self {
            RzdResponse::Body { text, .. } => text@,
            _ => Seq::empty(),
        }
    }

    /// The value of the header that brings the cookies of the response back.
    pub open spec fn session(self) -> Seq<char> {
        match self {
            RzdResponse::Body { cookies, .. } => cookie_text(cookies@),
            _ => Seq::empty(),
        }
    }
}

/// Where a search stands while a request is out.
#[derive(Debug, Copy, Clone, PartialEq, Eq, Structural)]
pub enum RzdState {
    /// The data were asked for at once.
    Simple,
    /// An identifier was asked for.
    WaitingForId,
    /// The data were asked for by identifier, for the time of this number.
    Polling(u8),
}

/// A search with a request that is out, or has to go out next.
#[derive(Debug, PartialEq)]
pub struct RzdPending {
    pub request: RzdRequest,
    pub state: RzdState,
}

/// A search with a request that is out, by the characters of its texts.
pub struct PendingView {
    pub request: RequestView,
    pub state: RzdState,
}

impl View for RzdPending {
    type V = PendingView;

    open spec fn view(&self) -> PendingView {
        PendingView { request: self.request@, state: self.state }
    }
}

/// How a search goes on once a response has come.
#[derive(Debug)]
pub enum RzdStep<T> {
    /// The request of this search has to be sent.
    Send(RzdPending),
    /// The search has ended: this is what it found.
    Done(Result<Option<T>, Error>),
}

/// How a search goes on, by the characters of the texts of its request.
pub enum StepView<T> {
    Send(PendingView),
    Done(Result<Option<T>, Error>),
}

impl<T> View for RzdStep<T> {
    type V = StepView<T>;

    open spec fn view(&self) -> StepView<T> {
        match self {
            RzdStep::Send(p) => StepView::Send(p@),
            RzdStep::Done(r) => StepView::Done(*r),
        }
    }
}

/// What a response comes to for the search that waits for it, once the search
/// has read it.
pub enum Seen<T> {
    /// The response has no body.
    Empty,
    /// The request failed, with this error.
    Failed(Error),
    /// The reply to the request for an identifier: the value of the header
    /// that brings its cookies back, and what the search read in its body.
    Id { session: Seq<char>, read: Result<Option<RzdRequestId>, Error> },
    /// The reply to a request for the data: what the search read in its body.
    Data(Result<Option<T>, Error>),
}

/// Whether `e` is the error that a failed request comes to: a bad reply for a
/// status of failure, the error of the request where no response came, the
/// error of reading where the body could not be read.
pub open spec fn is_failure(response: RzdResponse, e: Error) -> bool {
    match response {
        RzdResponse::Failed(_) => e matches Error::FailRzdResponse,
        RzdResponse::Broken(m) => e == Error::ReqwestError(m),
        RzdResponse::Unreadable(m) => e == Error::DeserializeError(m),
        _ => false,
    }
}

/// Whether `seen` is what `response` comes to for `search` in this state. The
/// cookies are taken before the body is read.
pub open spec fn is_seen<T, U: RzdClientInterface<T>>(
    search: U,
    state: RzdState,
    response: RzdResponse,
    seen: Seen<T>,
) -> bool {
    match response {
        RzdResponse::Empty => seen is Empty,
        RzdResponse::Body { text, cookies } => match state {
            RzdState::WaitingForId => seen matches Seen::Id { session, read }
                && session == cookie_text(cookies@) && search.is_reply_id(text@, read),
            _ => seen matches Seen::Data(read) && search.is_reply_data(text@, read),
        },
        _ => seen matches Seen::Failed(e) && is_failure(response, e),
    }
}

/// The request for the data by identifier, with the cookies of the session.
pub open spec fn poll_request<T, U: RzdClientInterface<T>>(
    search: U,
    id: RzdRequestId,
    session: Seq<char>,
) -> RequestView {
    RequestView {
        url: search.spec_request_data(id),
        headers: session_headers(session),
        delay_ms: POLL_DELAY_MS,
    }
}

/// Whether what was read in a reply to a request for the data says that the
/// data have to be asked for again: the reply holds no data, or the server
/// sent an identifier again because the answer is not ready.
pub open spec fn asks_again<T>(read: Result<Option<T>, Error>) -> bool {
    read matches Ok(None) || read matches Err(Error::RzdReplyNotReady)
}

/// How a search goes on from the request that is out, given what the
/// response comes to.
///
/// A failed request ends the search with its error.
///
/// While an identifier is awaited, a response without a body is a bad reply.
/// An error that the search read in the reply ends the search with that
/// error; that the reply holds no identifier is a bad reply; cookies that
/// make no header are an error. With an identifier the data are asked for by
/// it, for the first time.
///
/// While the data are awaited, a response without a body ends the search with
/// nothing found. A search that asked at once ends with what was read, be it
/// data, nothing or an error. A search that asked by identifier ends with the
/// data that were read, or with the error that was read, unless what was read
/// says to ask again (see `asks_again`): then the same request goes out once
/// more, and after `POLL_ATTEMPTS` requests the search ends with the error of
/// an overloaded server.
///
/// What was read as the reply to a request that is not out is an unsupported
/// operation.
pub open spec fn spec_next<T, U: RzdClientInterface<T>>(
    search: U,
    pending: PendingView,
    seen: Seen<T>,
) -> StepView<T> {
    match seen {
        Seen::Failed(e) => StepView::Done(Err(e)),
        Seen::Empty => match pending.state {
            RzdState::WaitingForId => StepView::Done(Err(Error::FailRzdResponse)),
            _ => StepView::Done(Ok(None)),
        },
        Seen::Id { session, read } => match pending.state {
            RzdState::WaitingForId => match read {
                Err(e) => StepView::Done(Err(e)),
                Ok(None) => StepView::Done(Err(Error::FailRzdResponse)),
                Ok(Some(id)) => if is_header_value(session) {
                    StepView::Send(
                        PendingView {
                            request: poll_request(search, id, session),
                            state: RzdState::Polling(1),
                        },
                    )
                } else {
                    StepView::Done(Err(Error::ReqwestHeaderError))
                },
            },
            _ => StepView::Done(Err(Error::UnsupportedOperation)),
        },
        Seen::Data(read) => match pending.state {
            RzdState::WaitingForId => StepView::Done(Err(Error::UnsupportedOperation)),
            RzdState::Simple => match read {
                Err(e) => StepView::Done(Err(e)),
                Ok(found) => StepView::Done(Ok(found)),
            },
            RzdState::Polling(k) => if asks_again(read) {
                if 1 <= k < POLL_ATTEMPTS {
                    StepView::Send(
                        PendingView {
                            request: pending.request,
                            state: RzdState::Polling((k + 1) as u8),
                        },
                    )
                } else {
                    StepView::Done(Err(Error::RzdServerOverloaded))
                }
            } else {
                StepView::Done(read)
            },
        },
    }
}

/// The request with which a search begins: for the data where the search is
/// answered at once, for an identifier where it is not. It carries the
/// headers of every request and does not wait.
pub open spec fn spec_start<T, U: RzdClientInterface<T>>(search: U) -> PendingView {
    match search.spec_query_type() {
        RzdQueryType::Simple => PendingView {
            request: RequestView {
                url: search.spec_request_data(RzdRequestId(0)),
                headers: default_headers(),
                delay_ms: 0,
            },
            state: RzdState::Simple,
        },
        RzdQueryType::WithId => PendingView {
            request: RequestView {
                url: search.spec_request_id(),
                headers: default_headers(),
                delay_ms: 0,
            },
            state: RzdState::WaitingForId,
        },
    }
}

/// A search as far as it has run: the requests that were sent, and what it
/// found if it has ended.
pub struct Run<T> {
    pub sent: Seq<RequestView>,
    pub found: Option<Result<Option<T>, Error>>,
}

/// How a search runs from the request that is out, given what the responses
/// come to, one after the other. Responses after the end of the search are
/// not looked at.
pub open spec fn spec_run<T, U: RzdClientInterface<T>>(
    search: U,
    pending: PendingView,
    seen: Seq<Seen<T>>,
) -> Run<T>
    decreases seen.len(),
{
    if seen.len() == 0 {
        Run { sent: seq![pending.request], found: None }
    } else {
        match spec_next(search, pending, seen[0]) {
            StepView::Done(r) => Run { sent: seq![pending.request], found: Some(r) },
            StepView::Send(next) => {
                let rest = spec_run(search, next, seen.skip(1));
                Run { sent: seq![pending.request] + rest.sent, found: rest.found }
            },
        }
    }
}

/// A search that is answered at once and gets a response without a body has
/// found nothing, which is no error; it sent its one request.
pub proof fn lemma_simple_search_without_body<T, U: RzdClientInterface<T>>(
    search: U,
    seen: Seq<Seen<T>>,
)
    requires
        search.spec_query_type() == RzdQueryType::Simple,
        seen.len() > 0,
        seen[0] is Empty,
    ensures
        spec_run(search, spec_start(search), seen).found == Some(
            Ok::<Option<T>, Error>(None),
        ),
        spec_run(search, spec_start(search), seen).sent == seq![spec_start(search).request],
{
}

/// A search that asks for an identifier and reads an error in the reply ends
/// with that error, and has sent the request for the identifier only: the
/// data were never asked for.
pub proof fn lemma_error_in_place_of_identifier<T, U: RzdClientInterface<T>>(
    search: U,
    seen: Seq<Seen<T>>,
    e: Error,
)
    requires
        search.spec_query_type() == RzdQueryType::WithId,
        seen.len() > 0,
        seen[0] matches Seen::Id { read, .. } && read == Err::<Option<RzdRequestId>, Error>(e),
    ensures
        spec_run(search, spec_start(search), seen).found == Some(Err::<Option<T>, Error>(e)),
        spec_run(search, spec_start(search), seen).sent == seq![spec_start(search).request],
        spec_start(search).request.url == search.spec_request_id(),
{
}

/// A search that got its identifier and then reads in reply after reply that
/// the data have to be asked for again (no data, or an identifier again) ends
/// with the error of an overloaded server once it has asked for the data
/// `POLL_ATTEMPTS` times, each time with the same request; with the request
/// for the identifier that makes four requests.
pub proof fn lemma_polling_is_bounded<T, U: RzdClientInterface<T>>(
    search: U,
    seen: Seq<Seen<T>>,
    session: Seq<char>,
    id: RzdRequestId,
)
    requires
        search.spec_query_type() == RzdQueryType::WithId,
        seen.len() >= 4,
        seen[0] == (Seen::<T>::Id { session, read: Ok(Some(id)) }),
        is_header_value(session),
        forall|i: int|
            1 <= i < seen.len() ==> (#[trigger] seen[i] matches Seen::Data(read) && asks_again(read)),
    ensures
        spec_run(search, spec_start(search), seen).found == Some(
            Err::<Option<T>, Error>(Error::RzdServerOverloaded),
        ),
        spec_run(search, spec_start(search), seen).sent == seq![
            spec_start(search).request,
            poll_request(search, id, session),
            poll_request(search, id, session),
            poll_request(search, id, session),
        ],
{
    let request = poll_request(search, id, session);
    let p1 = PendingView { request, state: RzdState::Polling(1) };
    let p2 = PendingView { request, state: RzdState::Polling(2) };
    let p3 = PendingView { request, state: RzdState::Polling(3) };
    let s1 = seen.skip(1);
    let s2 = s1.skip(1);
    let s3 = s2.skip(1);
    assert(s1[0] == seen[1]);
    assert(s2[0] == seen[2]);
    assert(s3[0] == seen[3]);
    assert(spec_next(search, p3, s3[0]) == StepView::<T>::Done(Err(Error::RzdServerOverloaded)));
    assert(spec_run(search, p3, s3).sent == seq![request]);
    assert(spec_next(search, p2, s2[0]) == StepView::<T>::Send(p3));
    assert(spec_run(search, p2, s2).sent =~= seq![request, request]);
    assert(spec_next(search, p1, s1[0]) == StepView::<T>::Send(p2));
    assert(spec_run(search, p1, s1).sent =~= seq![request, request, request]);
    assert(spec_next(search, spec_start(search), seen[0]) == StepView::<T>::Send(p1));
    assert(spec_run(search, spec_start(search), seen).sent =~= seq![
        spec_start(search).request,
        request,
        request,
        request,
    ]);
}

/// A search that asks for the data by identifier for the time of the number
/// `k` ends after `POLL_ATTEMPTS - k` more responses at the latest.
pub proof fn lemma_polling_ends<T, U: RzdClientInterface<T>>(
    search: U,
    pending: PendingView,
    seen: Seq<Seen<T>>,
    k: u8,
)
    requires
        pending.state == RzdState::Polling(k),
        1 <= k <= POLL_ATTEMPTS,
        seen.len() > POLL_ATTEMPTS - k,
    ensures
        spec_run(search, pending, seen).found is Some,
        spec_run(search, pending, seen).sent.len() <= POLL_ATTEMPTS - k + 1,
    decreases POLL_ATTEMPTS - k,
{
    match spec_next(search, pending, seen[0]) {
        StepView::Done(_) => {},
        StepView::Send(next) => {
            lemma_polling_ends(search, next, seen.skip(1), (k + 1) as u8);
        },
    }
}

/// Every search ends: once as many responses have come as the data may be
/// asked for by identifier, and one more, the search has found something,
/// nothing, or an error, and it has sent no more requests than that.
pub proof fn lemma_search_ends<T, U: RzdClientInterface<T>>(search: U, seen: Seq<Seen<T>>)
    requires
        seen.len() > POLL_ATTEMPTS,
    ensures
        spec_run(search, spec_start(search), seen).found is Some,
        spec_run(search, spec_start(search), seen).sent.len() <= POLL_ATTEMPTS + 1,
{
    match spec_next(search, spec_start(search), seen[0]) {
        StepView::Done(_) => {},
        StepView::Send(next) => {
            lemma_polling_ends(search, next, seen.skip(1), 1);
        },
    }
}

/// The client gets data from the server.
///
/// It sends nothing itself. `get` runs a search to its end over a transport
/// that the caller brings: the transport sends each request after its delay
/// and says what came back. `start` and `next` are the single steps, for a
/// caller that runs the search itself: `start` says what has to be sent
/// first, and `next` says, for what came back, whether the search has ended
/// or what has to be sent then.
pub struct RzdClient<T> {
    _marker: core::marker::PhantomData<T>,
}

impl<T> RzdClient<T> {
    /// Whether a search that stands at `pending` ends with `r` after exactly
    /// `requests` requests, each made through `transport`: the request that
    /// is out goes to `transport`, what comes back is read, and the search
    /// ends there or goes on from the request that `spec_next` gives.
    pub open spec fn is_found<U: RzdClientInterface<T>, F: Fn(&RzdRequest) -> RzdResponse>(
        search: U,
        transport: F,
        pending: PendingView,
        requests: nat,
        r: Result<Option<T>, Error>,
    ) -> bool
        decreases requests,
    {
        requests > 0 && exists|request: RzdRequest, response: RzdResponse, seen: Seen<T>|
            #![trigger call_ensures(transport, (&request,), response), is_seen(search, pending.state, response, seen)]
            {
                &&& request@ == pending.request
                &&& call_ensures(transport, (&request,), response)
                &&& is_seen(search, pending.state, response, seen)
                &&& match spec_next(search, pending, seen) {
                    StepView::Done(found) => r == found && requests == 1,
                    StepView::Send(next) => Self::is_found(
                        search,
                        transport,
                        next,
                        (requests - 1) as nat,
                        r,
                    ),
                }
            }
    }

    /// Takes a search query and runs it to its end. Each request goes to
    /// `transport`, which has to send it after its delay and to say what came
    /// back. At least one request is made, and no more than
    /// `POLL_ATTEMPTS + 1`.
    ///
    /// # Errors
    ///
    /// The method fails if there was an error while processing a request
    /// or received data couldn't be deserialized.
    pub fn get<U, F>(search: &U, transport: F) -> (r: Result<Option<T>, Error>) where
        U: RzdClientInterface<T>,
        F: Fn(&RzdRequest) -> RzdResponse,

        requires
            forall|request: &RzdRequest| call_requires(transport, (request,)),
        ensures
            exists|requests: nat|
                1 <= requests <= POLL_ATTEMPTS + 1 && #[trigger] Self::is_found(
                    *search,
                    transport,
                    spec_start::<T, U>(*search),
                    requests,
                    r,
                ),
    {
        let mut pending = Self::start(search);
        let mut left: u8 = POLL_ATTEMPTS + 1;
        let ghost first = pending@;
        let ghost mut made: nat = 0;
        loop
            invariant
                forall|request: &RzdRequest| call_requires(transport, (request,)),
                first == spec_start::<T, U>(*search),
                made + left == POLL_ATTEMPTS + 1,
                match pending.state {
                    RzdState::Polling(k) => 1 <= k <= POLL_ATTEMPTS && left == POLL_ATTEMPTS + 1 - k,
                    _ => left == POLL_ATTEMPTS + 1,
                },
                forall|r: Result<Option<T>, Error>, n: nat| #[trigger]
                    Self::is_found(*search, transport, pending@, n, r) ==> Self::is_found(
                        *search,
                        transport,
                        first,
                        n + made,
                        r,
                    ),
            decreases left,
        {
            let response = transport(&pending.request);
            let ghost before = pending;
            let ghost got = response;
            let step = Self::next(search, pending, response);
            let ghost seen = choose|seen: Seen<T>| #[trigger]
                is_seen(*search, before.state, got, seen) && step@ == spec_next(
                    *search,
                    before@,
                    seen,
                );
            match step {
                RzdStep::Done(r) => {
                    proof {
                        assert(call_ensures(transport, (&before.request,), got));
                        assert(is_seen(*search, before@.state, got, seen));
                        assert(Self::is_found(*search, transport, before@, 1, r));
                        assert(Self::is_found(*search, transport, first, 1 + made, r));
                    }
                    return r;
                },
                RzdStep::Send(p) => {
                    proof {
                        assert forall|r: Result<Option<T>, Error>, n: nat| #[trigger]
                            Self::is_found(*search, transport, p@, n, r) implies Self::is_found(
                            *search,
                            transport,
                            first,
                            n + (made + 1),
                            r,
                        ) by {
                            assert(call_ensures(transport, (&before.request,), got));
                            assert(is_seen(*search, before@.state, got, seen));
                            assert(((n + 1) - 1) as nat == n);
                            assert(Self::is_found(*search, transport, before@, n + 1, r));
                            assert(n + 1 + made == n + (made + 1));
                        }
                        made = made + 1;
                    }
                    pending = p;
                    left = left - 1;
                },
            }
        }
    }

    /// A search that is answered at once and to whose request a response
    /// without a body comes back has found nothing, which is no error, after
    /// its one request.
    pub proof fn lemma_get_without_body<U: RzdClientInterface<T>, F: Fn(&RzdRequest) -> RzdResponse>(
        search: U,
        transport: F,
        requests: nat,
        r: Result<Option<T>, Error>,
    )
        requires
            Self::is_found(search, transport, spec_start::<T, U>(search), requests, r),
            search.spec_query_type() == RzdQueryType::Simple,
            forall|q: RzdRequest, out: RzdResponse|
                q@ == spec_start::<T, U>(search).request && #[trigger] call_ensures(
                    transport,
                    (&q,),
                    out,
                ) ==> out is Empty,
        ensures
            r == Ok::<Option<T>, Error>(None),
            requests == 1,
    {
        let pending = spec_start::<T, U>(search);
        let (request, response, seen) = choose|
            request: RzdRequest,
            response: RzdResponse,
            seen: Seen<T>,
        |
            #![trigger call_ensures(transport, (&request,), response), is_seen(search, pending.state, response, seen)]
            {
                &&& request@ == pending.request
                &&& call_ensures(transport, (&request,), response)
                &&& is_seen(search, pending.state, response, seen)
                &&& match spec_next(search, pending, seen) {
                    StepView::Done(found) => r == found && requests == 1,
                    StepView::Send(next) => Self::is_found(
                        search,
                        transport,
                        next,
                        (requests - 1) as nat,
                        r,
                    ),
                }
            };
        assert(response is Empty);
    }

    /// A search that asks for an identifier, gets a response with a body and
    /// reads the error `e` in it ends with that error after the one request
    /// for the identifier: the data are never asked for.
    pub proof fn lemma_get_error_in_place_of_identifier<
        U: RzdClientInterface<T>,
        F: Fn(&RzdRequest) -> RzdResponse,
    >(search: U, transport: F, requests: nat, r: Result<Option<T>, Error>, e: Error)
        requires
            Self::is_found(search, transport, spec_start::<T, U>(search), requests, r),
            search.spec_query_type() == RzdQueryType::WithId,
            forall|q: RzdRequest, out: RzdResponse|
                q@ == spec_start::<T, U>(search).request && #[trigger] call_ensures(
                    transport,
                    (&q,),
                    out,
                ) ==> out is Body,
            forall|q: RzdRequest, out: RzdResponse, read: Result<Option<RzdRequestId>, Error>|
                #![trigger call_ensures(transport, (&q,), out), search.is_reply_id(out.body(), read)]
                q@ == spec_start::<T, U>(search).request && call_ensures(transport, (&q,), out)
                    && search.is_reply_id(out.body(), read) ==> read == Err::<
                    Option<RzdRequestId>,
                    Error,
                >(e),
        ensures
            r == Err::<Option<T>, Error>(e),
            requests == 1,
            spec_start::<T, U>(search).request.url == search.spec_request_id(),
    {
        let pending = spec_start::<T, U>(search);
        let (request, response, seen) = choose|
            request: RzdRequest,
            response: RzdResponse,
            seen: Seen<T>,
        |
            #![trigger call_ensures(transport, (&request,), response), is_seen(search, pending.state, response, seen)]
            {
                &&& request@ == pending.request
                &&& call_ensures(transport, (&request,), response)
                &&& is_seen(search, pending.state, response, seen)
                &&& match spec_next(search, pending, seen) {
                    StepView::Done(found) => r == found && requests == 1,
                    StepView::Send(next) => Self::is_found(
                        search,
                        transport,
                        next,
                        (requests - 1) as nat,
                        r,
                    ),
                }
            };
        assert(response is Body);
        assert(seen matches Seen::Id { read, .. } && search.is_reply_id(response.body(), read));
    }

    /// A search that asks for the data by identifier for the time of the
    /// number `k`, and reads in every reply that the data have to be asked
    /// for again, ends with the error of an overloaded server once the data
    /// have been asked for `POLL_ATTEMPTS` times.
    pub proof fn lemma_get_polls<U: RzdClientInterface<T>, F: Fn(&RzdRequest) -> RzdResponse>(
        search: U,
        transport: F,
        pending: PendingView,
        k: u8,
        requests: nat,
        r: Result<Option<T>, Error>,
    )
        requires
            Self::is_found(search, transport, pending, requests, r),
            pending.state == RzdState::Polling(k),
            1 <= k <= POLL_ATTEMPTS,
            forall|q: RzdRequest, out: RzdResponse| #[trigger]
                call_ensures(transport, (&q,), out) ==> out is Body,
            forall|q: RzdRequest, out: RzdResponse, read: Result<Option<T>, Error>|
                #![trigger call_ensures(transport, (&q,), out), search.is_reply_data(out.body(), read)]
                call_ensures(transport, (&q,), out) && search.is_reply_data(out.body(), read)
                    ==> asks_again(read),
        ensures
            r == Err::<Option<T>, Error>(Error::RzdServerOverloaded),
            requests == POLL_ATTEMPTS + 1 - k,
        decreases POLL_ATTEMPTS - k,
    {
        let (request, response, seen) = choose|
            request: RzdRequest,
            response: RzdResponse,
            seen: Seen<T>,
        |
            #![trigger call_ensures(transport, (&request,), response), is_seen(search, pending.state, response, seen)]
            {
                &&& request@ == pending.request
                &&& call_ensures(transport, (&request,), response)
                &&& is_seen(search, pending.state, response, seen)
                &&& match spec_next(search, pending, seen) {
                    StepView::Done(found) => r == found && requests == 1,
                    StepView::Send(next) => Self::is_found(
                        search,
                        transport,
                        next,
                        (requests - 1) as nat,
                        r,
                    ),
                }
            };
        assert(response is Body);
        assert(seen matches Seen::Data(read) && search.is_reply_data(response.body(), read));
        match spec_next(search, pending, seen) {
            StepView::Done(_) => {},
            StepView::Send(next) => {
                Self::lemma_get_polls(
                    search,
                    transport,
                    next,
                    (k + 1) as u8,
                    (requests - 1) as nat,
                    r,
                );
            },
        }
    }

    /// A search that gets an identifier and then reads in every reply that
    /// the data have to be asked for again (the reply holds no data, or the
    /// server sent an identifier again) ends with the error of an overloaded
    /// server after `POLL_ATTEMPTS` requests for the data, which with the
    /// request for the identifier makes `POLL_ATTEMPTS + 1`.
    pub proof fn lemma_get_gives_up<U: RzdClientInterface<T>, F: Fn(&RzdRequest) -> RzdResponse>(
        search: U,
        transport: F,
        requests: nat,
        r: Result<Option<T>, Error>,
    )
        requires
            Self::is_found(search, transport, spec_start::<T, U>(search), requests, r),
            search.spec_query_type() == RzdQueryType::WithId,
            forall|q: RzdRequest, out: RzdResponse| #[trigger]
                call_ensures(transport, (&q,), out) ==> out is Body && is_header_value(
                    out.session(),
                ),
            forall|q: RzdRequest, out: RzdResponse, read: Result<Option<RzdRequestId>, Error>|
                #![trigger call_ensures(transport, (&q,), out), search.is_reply_id(out.body(), read)]
                call_ensures(transport, (&q,), out) && search.is_reply_id(out.body(), read)
                    ==> read matches Ok(Some(_)),
            forall|q: RzdRequest, out: RzdResponse, read: Result<Option<T>, Error>|
                #![trigger call_ensures(transport, (&q,), out), search.is_reply_data(out.body(), read)]
                call_ensures(transport, (&q,), out) && search.is_reply_data(out.body(), read)
                    ==> asks_again(read),
        ensures
            r == Err::<Option<T>, Error>(Error::RzdServerOverloaded),
            requests == POLL_ATTEMPTS + 1,
    {
        let pending = spec_start::<T, U>(search);
        let (request, response, seen) = choose|
            request: RzdRequest,
            response: RzdResponse,
            seen: Seen<T>,
        |
            #![trigger call_ensures(transport, (&request,), response), is_seen(search, pending.state, response, seen)]
            {
                &&& request@ == pending.request
                &&& call_ensures(transport, (&request,), response)
                &&& is_seen(search, pending.state, response, seen)
                &&& match spec_next(search, pending, seen) {
                    StepView::Done(found) => r == found && requests == 1,
                    StepView::Send(next) => Self::is_found(
                        search,
                        transport,
                        next,
                        (requests - 1) as nat,
                        r,
                    ),
                }
            };
        assert(response is Body && is_header_value(response.session()));
        assert(seen matches Seen::Id { session, read } && session == response.session()
            && search.is_reply_id(response.body(), read));
        match spec_next(search, pending, seen) {
            StepView::Done(_) => {},
            StepView::Send(next) => {
                Self::lemma_get_polls(search, transport, next, 1, (requests - 1) as nat, r);
            },
        }
    }

    /// The request with which a search begins.
    pub fn start<U: RzdClientInterface<T>>(search: &U) -> (r: RzdPending)
        ensures
            r@ == spec_start::<T, U>(*search),
    {
        match search.query_type() {
            RzdQueryType::Simple => RzdPending {
                request: RzdRequest {
                    url: search.request_data(RzdRequestId(0)),
                    headers: request_headers_default(),
                    delay_ms: 0,
                },
                state: RzdState::Simple,
            },
            RzdQueryType::WithId => RzdPending {
                request: RzdRequest {
                    url: search.request_id(),
                    headers: request_headers_default(),
                    delay_ms: 0,
                },
                state: RzdState::WaitingForId,
            },
        }
    }

    /// How the search goes on after the reply to the request for an
    /// identifier, in which the search read `read`; `session` is the value
    /// of the header that brings the cookies of the reply back.
    pub fn after_id<U: RzdClientInterface<T>>(
        search: &U,
        pending: RzdPending,
        session: String,
        read: Result<Option<RzdRequestId>, Error>,
    ) -> (r: RzdStep<T>)
        ensures
            r@ == spec_next::<T, U>(*search, pending@, Seen::Id { session: session@, read }),
    {
        match pending.state {
            RzdState::WaitingForId => {},
            _ => {
                return RzdStep::Done(Err(Error::UnsupportedOperation));
            },
        }
        match read {
            Err(e) => RzdStep::Done(Err(e)),
            Ok(None) => RzdStep::Done(Err(Error::FailRzdResponse)),
            Ok(Some(id)) => {
                if !header_value_exists(session.as_str()) {
                    return RzdStep::Done(Err(Error::ReqwestHeaderError));
                }
                let mut headers = request_headers_default();
                headers.push((String::from_str("cookie"), session));
                assert(header_views(headers@) =~= session_headers(session@));
                RzdStep::Send(
                    RzdPending {
                        request: RzdRequest {
                            url: search.request_data(id),
                            headers,
                            delay_ms: POLL_DELAY_MS,
                        },
                        state: RzdState::Polling(1),
                    },
                )
            },
        }
    }

    /// How the search goes on after a reply to a request for the data, in
    /// which the search read `read`.
    pub fn after_data<U: RzdClientInterface<T>>(
        search: &U,
        pending: RzdPending,
        read: Result<Option<T>, Error>,
    ) -> (r: RzdStep<T>)
        ensures
            r@ == spec_next::<T, U>(*search, pending@, Seen::Data(read)),
    {
        match pending.state {
            RzdState::WaitingForId => RzdStep::Done(Err(Error::UnsupportedOperation)),
            RzdState::Simple => RzdStep::Done(read),
            RzdState::Polling(k) => {
                let again = match &read {
                    Ok(None) => true,
                    Err(Error::RzdReplyNotReady) => true,
                    _ => false,
                };
                if !again {
                    RzdStep::Done(read)
                } else if 1 <= k && k < POLL_ATTEMPTS {
                    RzdStep::Send(
                        RzdPending { request: pending.request, state: RzdState::Polling(k + 1) },
                    )
                } else {
                    RzdStep::Done(Err(Error::RzdServerOverloaded))
                }
            },
        }
    }

    /// Whether `r` is how the search goes on from `pending` when `response`
    /// has come: as `spec_next` says for what the response comes to.
    pub open spec fn is_next<U: RzdClientInterface<T>>(
        search: U,
        pending: RzdPending,
        response: RzdResponse,
        r: RzdStep<T>,
    ) -> bool {
        exists|seen: Seen<T>| #[trigger]
            is_seen(search, pending.state, response, seen) && r@ == spec_next(search, pending@, seen)
    }

    /// How the search goes on from `pending` when `response` has come.
    pub fn next<U: RzdClientInterface<T>>(
        search: &U,
        pending: RzdPending,
        response: RzdResponse,
    ) -> (r: RzdStep<T>)
        ensures
            Self::is_next(*search, pending, response, r),
    {
        let ghost state = pending.state;
        match response {
            RzdResponse::Failed(_) => {
                assert(is_seen::<T, U>(
                    *search,
                    state,
                    response,
                    Seen::Failed(Error::FailRzdResponse),
                ));
                RzdStep::Done(Err(Error::FailRzdResponse))
            },
            RzdResponse::Broken(m) => {
                let e = Error::ReqwestError(m);
                assert(is_seen::<T, U>(*search, state, response, Seen::Failed(e)));
                RzdStep::Done(Err(e))
            },
            RzdResponse::Unreadable(m) => {
                let e = Error::DeserializeError(m);
                assert(is_seen::<T, U>(*search, state, response, Seen::Failed(e)));
                RzdStep::Done(Err(e))
            },
            RzdResponse::Empty => {
                assert(is_seen::<T, U>(*search, state, response, Seen::Empty));
                match pending.state {
                    RzdState::WaitingForId => RzdStep::Done(Err(Error::FailRzdResponse)),
                    _ => RzdStep::Done(Ok(None)),
                }
            },
            RzdResponse::Body { text, cookies } => match pending.state {
                RzdState::WaitingForId => {
                    let session = get_cookies_string(&cookies);
                    let read = search.deserialize_reply_id(text.as_str());
                    assert(is_seen::<T, U>(
                        *search,
                        state,
                        response,
                        Seen::Id { session: session@, read },
                    ));
                    Self::after_id(search, pending, session, read)
                },
                _ => {
                    let read = search.deserialize_reply_data(text.as_str());
                    assert(is_seen::<T, U>(*search, state, response, Seen::Data(read)));
                    Self::after_data(search, pending, read)
                },
            },
        }
    }
}

} // verus!
