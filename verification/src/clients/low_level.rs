//! The low-level client: which request each operation sends, and what each
//! response comes to.
//!
//! Sending is not done here. An operation is a pair of functions: one forms
//! the single request of the operation from a route, the other turns the
//! single response into the result. One request per call, no retry.

use crate::clients::routes::{KindRoute, ResourceRoute};
use crate::errors::{Error, ErrorKind, ErrorView};
use crate::json::{
    items_at, json_document, json_items_at, json_text, json_texts, parse_json, to_text,
};
use crate::location::{resolve, resolved};
use crate::resources::status::{decoded_status, Status};
use vstd::prelude::*;

verus! {

/// The verb of a request.
#[derive(Clone, Copy, Debug, PartialEq, Eq, Structural)]
pub enum Method {
    Get,
    Post,
    Put,
    Delete,
}

/// One request: a verb and the text of a URL. The body of a POST or a PUT
/// is the resource at hand; whoever sends the request attaches it.
#[derive(Clone, Debug)]
pub struct Request {
    pub method: Method,
    pub url: String,
}

/// One response: the status code and the bytes of the body.
#[derive(Clone, Debug)]
pub struct Response {
    pub status: u16,
    pub body: Vec<u8>,
}

/// The mathematical content of a [`Request`].
pub struct RequestView {
    pub method: Method,
    pub url: Seq<char>,
}

/// The mathematical content of a [`Response`].
pub struct ResponseView {
    pub status: u16,
    pub body: Seq<u8>,
}

impl View for Request {
    type V = RequestView;

    open spec fn view(&self) -> RequestView {
        RequestView { method: self.method, url: self.url@ }
    }
}

impl View for Response {
    type V = ResponseView;

    open spec fn view(&self) -> ResponseView {
        ResponseView { status: self.status, body: self.body@ }
    }
}

/// The name of a verb.
pub open spec fn method_name(method: Method) -> Seq<char> {
    match method {
        Method::Get => "GET"@,
        Method::Post => "POST"@,
        Method::Put => "PUT"@,
        Method::Delete => "DELETE"@,
    }
}

/// Whether a status code reports success: 200 to 299.
pub open spec fn success(status: u16) -> bool {
    200 <= status < 300
}

/// The status code of "not found".
pub const NOT_FOUND: u16 = 404;

impl RequestView {
    /// The context that a failure of this request passes through:
    /// `failed to GET <url>`, with the verb and the URL of the request.
    pub open spec fn failed(self) -> Seq<char> {
        "failed to "@ + method_name(self.method) + " "@ + self.url
    }
}

/// The error that a response outside 2xx stands for: an API error that
/// carries the `message` of the status in the body, word for word, or a
/// decode error where the body is no status.
pub open spec fn api_failure(body: Seq<u8>) -> ErrorView {
    match decoded_status(body) {
        Ok(status) => ErrorView::bare(ErrorKind::Api, status.message),
        Err(e) => e,
    }
}

/// What the response to an existence check comes to: `false` on 404 and on
/// no other status, `true` on 2xx, and on every other status the error of
/// the response. The body of a 2xx response is not read.
pub open spec fn exists_result(request: RequestView, response: ResponseView) -> Result<
    bool,
    ErrorView,
> {
    if response.status == NOT_FOUND {
        Ok(false)
    } else if success(response.status) {
        Ok(true)
    } else {
        Err(api_failure(response.body).within(request.failed()))
    }
}

/// What the response to any other request comes to: its body on 2xx, and on
/// every other status, 404 included, the error of the response.
pub open spec fn body_result(request: RequestView, response: ResponseView) -> Result<
    Seq<u8>,
    ErrorView,
> {
    if success(response.status) {
        Ok(response.body)
    } else {
        Err(api_failure(response.body).within(request.failed()))
    }
}

/// What the response to a request for a document comes to: on 2xx the
/// document that the body stands for, as its compact JSON text, or a decode
/// error where the body is not JSON; on every other status the error of the
/// response.
pub open spec fn document_result(request: RequestView, response: ResponseView) -> Result<
    Seq<char>,
    ErrorView,
> {
    if success(response.status) {
        match json_document(response.body) {
            Ok(doc) => Ok(doc),
            Err(complaint) => Err(
                ErrorView::bare(ErrorKind::Decode, complaint).within(request.failed()),
            ),
        }
    } else {
        Err(api_failure(response.body).within(request.failed()))
    }
}

/// The items of the list envelope with the compact text `doc`, each as its
/// JSON text, in the order in which the envelope holds them; a decode error
/// where the document holds no array `items`.
pub open spec fn envelope_items(doc: Seq<char>) -> Result<Seq<Seq<char>>, ErrorView> {
    match json_items_at(doc, "/items"@) {
        Some(items) => Ok(items),
        None => Err(
            ErrorView::bare(ErrorKind::Decode, "the list holds no array `items`"@).within(
                unwrapping_list(),
            ),
        ),
    }
}

/// The context that a failure to unwrap a list envelope passes through.
pub open spec fn unwrapping_list() -> Seq<char> {
    "failed to unwrap the list"@
}

/// What the response to a list request comes to.
pub open spec fn list_result(request: RequestView, response: ResponseView) -> Result<
    Seq<Seq<char>>,
    ErrorView,
> {
    match document_result(request, response) {
        Err(e) => Err(e),
        Ok(doc) => match envelope_items(doc) {
            Ok(items) => Ok(items),
            Err(e) => Err(e.within(request.failed())),
        },
    }
}

/// The request that an operation on a route sends, or the URL error of the
/// route.
pub open spec fn planned(method: Method, url: Result<Seq<char>, ErrorView>) -> Result<
    RequestView,
    ErrorView,
> {
    match url {
        Ok(url) => Ok(RequestView { method, url }),
        Err(e) => Err(e),
    }
}

/// Whether `r` is the outcome `expected`, value for value.
pub open spec fn request_outcome(
    r: Result<Request, Error>,
    expected: Result<RequestView, ErrorView>,
) -> bool {
    match r {
        Ok(request) => expected == Ok::<RequestView, ErrorView>(request@),
        Err(e) => expected == Err::<RequestView, ErrorView>(e@),
    }
}

/// The character views of a list of strings.
pub open spec fn texts(items: Seq<String>) -> Seq<Seq<char>> {
    items.map_values(|s: String| s@)
}

impl Request {
    /// The request with the given verb and URL.
    pub fn new(method: Method, url: String) -> (request: Request)
        ensures
            request.method == method,
            request.url == url,
    {
        Request { method, url }
    }

    /// A copy of this request.
    pub fn copy(&self) -> (request: Request)
        ensures
            request@ == self@,
    {
        Request { method: self.method, url: self.url.clone() }
    }

    /// The context that a failure of this request passes through.
    pub fn failed(&self) -> (context: String)
        ensures
            context@ == self@.failed(),
    {
        let mut context = String::from_str("failed to ");
        match self.method {
            Method::Get => context.append("GET"),
            Method::Post => context.append("POST"),
            Method::Put => context.append("PUT"),
            Method::Delete => context.append("DELETE"),
        }
        context.append(" ");
        context.append(self.url.as_str());
        context
    }

    /// The transport error for this request: the request could not be sent,
    /// or no response came. `complaint` says why.
    pub fn transport_failure(&self, complaint: &str) -> (e: Error)
        ensures
            e@ == ErrorView::bare(ErrorKind::Transport, complaint@).within(self@.failed()),
    {
        Error::transport(complaint).with_context(self.failed().as_str())
    }

    /// The decode error for the response to this request: the body of a 2xx
    /// response is not what was expected. `complaint` says why.
    pub fn decode_failure(&self, complaint: &str) -> (e: Error)
        ensures
            e@ == ErrorView::bare(ErrorKind::Decode, complaint@).within(self@.failed()),
    {
        Error::decode(complaint).with_context(self.failed().as_str())
    }
}

/// Whether a status code reports success.
pub fn is_success(status: u16) -> (ok: bool)
    ensures
        ok == success(status),
{
    200 <= status && status < 300
}

/// The error that a response outside 2xx to `request` stands for.
pub fn failure_of(request: &Request, body: &[u8]) -> (e: Error)
    ensures
        e@ == api_failure(body@).within(request@.failed()),
{
    let cause = match Status::decode(body) {
        Ok(status) => Error::api(status.message.as_str()),
        Err(e) => e,
    };
    cause.with_context(request.failed().as_str())
}

/// Turns the response to an existence check into its result.
pub fn exists_outcome(request: &Request, response: &Response) -> (r: Result<bool, Error>)
    ensures
        match r {
            Ok(found) => exists_result(request@, response@) == Ok::<bool, ErrorView>(found),
            Err(e) => exists_result(request@, response@) == Err::<bool, ErrorView>(e@),
        },
{
    if response.status == NOT_FOUND {
        Ok(false)
    } else if is_success(response.status) {
        Ok(true)
    } else {
        Err(failure_of(request, response.body.as_slice()))
    }
}

/// Turns a response into its body, or into the error that it reports.
pub fn body_outcome(request: &Request, response: Response) -> (r: Result<Vec<u8>, Error>)
    ensures
        match r {
            Ok(body) => body_result(request@, response@) == Ok::<Seq<u8>, ErrorView>(body@),
            Err(e) => body_result(request@, response@) == Err::<Seq<u8>, ErrorView>(e@),
        },
{
    if is_success(response.status) {
        Ok(response.body)
    } else {
        Err(failure_of(request, response.body.as_slice()))
    }
}

/// Turns the response to a delete request into its result: nothing on 2xx,
/// and the error of the response on every other status, 404 included.
pub fn delete_outcome(request: &Request, response: &Response) -> (r: Result<(), Error>)
    ensures
        match r {
            Ok(_) => success(response.status),
            Err(e) => !success(response.status) && e@ == api_failure(response.body@).within(
                request@.failed(),
            ),
        },
{
    if is_success(response.status) {
        Ok(())
    } else {
        Err(failure_of(request, response.body.as_slice()))
    }
}

/// Turns a response into the document that its body stands for.
pub fn document_outcome(request: &Request, response: &Response) -> (r: Result<
    serde_json::Value,
    Error,
>)
    ensures
        match r {
            Ok(doc) => document_result(request@, response@) == Ok::<Seq<char>, ErrorView>(
                json_text(doc),
            ),
            Err(e) => document_result(request@, response@) == Err::<Seq<char>, ErrorView>(e@),
        },
{
    if is_success(response.status) {
        match parse_json(response.body.as_slice()) {
            Ok(doc) => Ok(doc),
            Err(complaint) => Err(request.decode_failure(complaint.as_str())),
        }
    } else {
        Err(failure_of(request, response.body.as_slice()))
    }
}

/// Unwraps a list envelope: the JSON texts of its items, in the order in
/// which the server sent them.
pub fn list_items(doc: &serde_json::Value) -> (r: Result<Vec<String>, Error>)
    ensures
        match r {
            Ok(items) => envelope_items(json_text(*doc)) == Ok::<Seq<Seq<char>>, ErrorView>(
                texts(items@),
            ),
            Err(e) => envelope_items(json_text(*doc)) == Err::<Seq<Seq<char>>, ErrorView>(e@),
        },
{
    match items_at(doc, "/items") {
        None => Err(
            Error::decode("the list holds no array `items`").with_context(
                "failed to unwrap the list",
            ),
        ),
        Some(items) => {
            let mut out: Vec<String> = Vec::new();
            let mut i: usize = 0;
            while i < items.len()
                invariant
                    i <= items.len(),
                    out.len() == i,
                    forall|j: int| 0 <= j < i ==> (#[trigger] out@[j])@ == json_text(items@[j]),
                decreases items.len() - i,
            {
                out.push(to_text(&items[i]));
                i = i + 1;
            }
            proof {
                assert(texts(out@) =~= json_texts(items@));
            }
            Ok(out)
        },
    }
}

/// Turns the response to a list request into the JSON texts of the items.
pub fn list_outcome(request: &Request, response: &Response) -> (r: Result<Vec<String>, Error>)
    ensures
        match r {
            Ok(items) => list_result(request@, response@) == Ok::<Seq<Seq<char>>, ErrorView>(
                texts(items@),
            ),
            Err(e) => list_result(request@, response@) == Err::<Seq<Seq<char>>, ErrorView>(e@),
        },
{
    match document_outcome(request, response) {
        Err(e) => Err(e),
        Ok(doc) => match list_items(&doc) {
            Ok(items) => Ok(items),
            Err(e) => Err(e.with_context(request.failed().as_str())),
        },
    }
}

/// Whether the body of the health endpoint reports a healthy server: the
/// two bytes `ok` and nothing else.
pub fn is_healthy(body: &[u8]) -> (healthy: bool)
    ensures
        healthy == (body@ == seq![0x6fu8, 0x6bu8]),
{
    if body.len() == 2 && body[0] == 0x6f && body[1] == 0x6b {
        assert(body@ =~= seq![0x6fu8, 0x6bu8]);
        true
    } else {
        false
    }
}

/// The low-level client of one cluster: the base URL that every route is
/// resolved against.
#[derive(Clone, Debug)]
pub struct KubeLowLevel {
    base_url: String,
}

impl View for KubeLowLevel {
    type V = Seq<char>;

    closed spec fn view(&self) -> Seq<char> {
        self.base_url@
    }
}

impl KubeLowLevel {
    /// The client of the cluster at `base_url`.
    pub fn new(base_url: &str) -> (client: KubeLowLevel)
        ensures
            client@ == base_url@,
    {
        KubeLowLevel { base_url: String::from_str(base_url) }
    }

    /// The base URL of the cluster.
    pub fn base_url(&self) -> (url: &str)
        ensures
            url@ == self@,
    {
        self.base_url.as_str()
    }

    /// A copy of this client.
    pub fn copy(&self) -> (client: KubeLowLevel)
        ensures
            client@ == self@,
    {
        KubeLowLevel { base_url: self.base_url.clone() }
    }

    /// The request of a check at `route`, resolved against the base URL: a
    /// GET without a body.
    pub fn check_request(&self, route: &str) -> (r: Result<Request, Error>)
        ensures
            request_outcome(r, planned(Method::Get, resolved(self@, route@, None))),
    {
        match resolve(self.base_url.as_str(), route, &None) {
            Ok(url) => Ok(Request { method: Method::Get, url }),
            Err(e) => Err(e),
        }
    }

    /// The request of the health check: a GET of `healthz` below the base
    /// URL.
    pub fn health_request(&self) -> (r: Result<Request, Error>)
        ensures
            request_outcome(r, planned(Method::Get, resolved(self@, "healthz"@, None))),
    {
        self.check_request("healthz")
    }

    /// The request that checks whether a resource exists: a GET of its route.
    pub fn exists_request(&self, route: &ResourceRoute) -> (r: Result<Request, Error>)
        ensures
            request_outcome(
                r,
                planned(Method::Get, resolved(self@, route@.path(), route@.query)),
            ),
    {
        self.get_request(route)
    }

    /// The request that fetches a resource: a GET of its route.
    pub fn get_request(&self, route: &ResourceRoute) -> (r: Result<Request, Error>)
        ensures
            request_outcome(
                r,
                planned(Method::Get, resolved(self@, route@.path(), route@.query)),
            ),
    {
        match route.build(self.base_url.as_str()) {
            Ok(url) => Ok(Request { method: Method::Get, url }),
            Err(e) => Err(e),
        }
    }

    /// The request that lists the resources of a kind: a GET of its route.
    pub fn list_request(&self, route: &KindRoute) -> (r: Result<Request, Error>)
        ensures
            request_outcome(
                r,
                planned(Method::Get, resolved(self@, route@.path(), route@.query)),
            ),
    {
        match route.build(self.base_url.as_str()) {
            Ok(url) => Ok(Request { method: Method::Get, url }),
            Err(e) => Err(e),
        }
    }

    /// The request that creates a resource: a POST to the route of its kind.
    /// Its body is the full resource.
    pub fn apply_request(&self, route: &KindRoute) -> (r: Result<Request, Error>)
        ensures
            request_outcome(
                r,
                planned(Method::Post, resolved(self@, route@.path(), route@.query)),
            ),
    {
        match route.build(self.base_url.as_str()) {
            Ok(url) => Ok(Request { method: Method::Post, url }),
            Err(e) => Err(e),
        }
    }

    /// The request that replaces a resource, or a part of it: a PUT to its
    /// route. Its body is the full replacement.
    pub fn replace_request(&self, route: &ResourceRoute) -> (r: Result<Request, Error>)
        ensures
            request_outcome(
                r,
                planned(Method::Put, resolved(self@, route@.path(), route@.query)),
            ),
    {
        match route.build(self.base_url.as_str()) {
            Ok(url) => Ok(Request { method: Method::Put, url }),
            Err(e) => Err(e),
        }
    }

    /// The request that deletes a resource: a DELETE of its route.
    pub fn delete_request(&self, route: &ResourceRoute) -> (r: Result<Request, Error>)
        ensures
            request_outcome(
                r,
                planned(Method::Delete, resolved(self@, route@.path(), route@.query)),
            ),
    {
        match route.build(self.base_url.as_str()) {
            Ok(url) => Ok(Request { method: Method::Delete, url }),
            Err(e) => Err(e),
        }
    }
}


/// An existence check answers `false` on 404 and on nothing else. On 2xx it
/// answers `true` without reading the body, so no body of a 2xx response,
/// however malformed, is taken for absence. On every other status it fails,
/// with an API error that carries the server's message where the body is a
/// status, and with a decode error where it is not.
pub proof fn lemma_exists_false_only_on_not_found(request: RequestView, response: ResponseView)
    ensures
        exists_result(request, response) == Ok::<bool, ErrorView>(false) <==> response.status
            == NOT_FOUND,
        success(response.status) ==> exists_result(request, response) == Ok::<bool, ErrorView>(
            true,
        ),
        response.status != NOT_FOUND && !success(response.status) ==> exists_result(
            request,
            response,
        ) is Err,
        response.status != NOT_FOUND && !success(response.status) ==> (match decoded_status(
            response.body,
        ) {
            Ok(status) => {
                &&& exists_result(request, response)->Err_0.kind == ErrorKind::Api
                &&& exists_result(request, response)->Err_0.message == status.message
            },
            Err(e) => exists_result(request, response)->Err_0.kind == ErrorKind::Decode,
        }),
{
    if response.status != NOT_FOUND && !success(response.status) {
        lemma_api_failure_kind(response.body);
    }
}

/// A fetch of a resource that is missing is an error, not a boolean: on 404,
/// as on every status outside 2xx, the outcome is an API error whose message
/// is the `message` of the status in the body, word for word, or a decode
/// error where the body is no status. A body of a 2xx response that is not
/// JSON is a decode error, never an API error.
pub proof fn lemma_missing_resource_is_api_error(request: RequestView, response: ResponseView)
    ensures
        !success(response.status) ==> document_result(request, response) is Err && body_result(
            request,
            response,
        ) is Err,
        !success(response.status) ==> document_result(request, response)->Err_0 == body_result(
            request,
            response,
        )->Err_0,
        !success(response.status) ==> (match decoded_status(response.body) {
            Ok(status) => {
                &&& document_result(request, response)->Err_0.kind == ErrorKind::Api
                &&& document_result(request, response)->Err_0.message == status.message
            },
            Err(e) => document_result(request, response)->Err_0.kind == ErrorKind::Decode,
        }),
        success(response.status) && json_document(response.body) is Err ==> document_result(
            request,
            response,
        ) is Err && document_result(request, response)->Err_0.kind == ErrorKind::Decode,
{
    if !success(response.status) {
        lemma_api_failure_kind(response.body);
    }
}

/// The error of a response is an API error with the server's message where
/// the body is a status, and a decode error where it is not.
pub proof fn lemma_api_failure_kind(body: Seq<u8>)
    ensures
        match decoded_status(body) {
            Ok(status) => api_failure(body) == ErrorView::bare(ErrorKind::Api, status.message),
            Err(e) => api_failure(body) == e && e.kind == ErrorKind::Decode,
        },
{
}

} // verus!
