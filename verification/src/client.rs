//! The uniform request/response model, the transport contract, and the
//! execution pipeline that classifies every response as a success or a
//! structured error.

use crate::enums::RequestMethod;
use crate::errors::{ClientError, ClientErrorView};
use vstd::prelude::*;

verus! {

/// The `serde_json::Value` type, declared so that query parameters can carry
/// structured values. The pipeline never reads inside such a value; it only
/// hands it on to the transport.
#[verifier::external_type_specification]
#[verifier::external_body]
pub struct ExValue(serde_json::Value);

/// The lowest status code accepted as a success.
pub const HTTP_SUCCESS_LOW: u16 = 200;

/// The highest status code accepted as a success.
pub const HTTP_SUCCESS_HIGH: u16 = 208;

/// Whether a status code lies in the inclusive success range.
pub open spec fn is_success_code(code: u16) -> bool {
    HTTP_SUCCESS_LOW <= code && code <= HTTP_SUCCESS_HIGH
}

/// An HTTP request.
///
/// The caller constructs it fully resolved: the address is already fully
/// qualified, the body already serialized. The pipeline never changes a
/// request; it only reads it and hands it to the transport.
#[derive(Debug, Clone)]
pub struct Request {
    /// The fully qualified target address.
    pub url: String,
    /// The HTTP verb.
    pub method: RequestMethod,
    /// Query parameters in insertion order; some targets are order-sensitive.
    pub query: Vec<(String, serde_json::Value)>,
    /// Header name/value pairs in insertion order.
    pub headers: Vec<(String, String)>,
    /// The raw request body.
    pub body: Vec<u8>,
}

/// An HTTP response.
#[derive(Debug, Clone)]
pub struct Response {
    /// The address the response actually came from; it may differ from the
    /// request address after transport-level redirects.
    pub url: String,
    /// The numeric status code returned by the server.
    pub code: u16,
    /// The raw response body.
    pub body: Vec<u8>,
}

/// The mathematical value of a [`Response`]: its address as a sequence of
/// characters, its status code, and its body as a sequence of bytes.
pub struct ResponseView {
    pub url: Seq<char>,
    pub code: u16,
    pub body: Seq<u8>,
}

impl View for Response {
    type V = ResponseView;

    open spec fn view(&self) -> ResponseView {
        (ResponseView { url: self.url@, code: self.code, body: self.body@ })
    }
}

/// The text that a byte sequence decodes to under UTF-8, or nothing when the
/// bytes are not valid UTF-8. The decoding itself is performed by the
/// standard library; this names its result, which depends on the bytes alone.
pub uninterp spec fn utf8_decode(bytes: Seq<u8>) -> Option<Seq<char>>;

/// Relies on String::from_utf8: it returns the bytes decoded as UTF-8 text
/// exactly when they are valid UTF-8, and an error otherwise, from the bytes
/// alone.
#[verifier::external_body]
fn decode_utf8(bytes: Vec<u8>) -> (r: Option<String>)
    ensures
        (r matches Some(text) ==> utf8_decode(bytes@) == Some(text@)),
        (r is None ==> utf8_decode(bytes@) is None),
{
    String::from_utf8(bytes).ok()
}

/// How a single response is classified: a response whose status code lies in
/// the success range passes unchanged; any other response becomes a
/// [`ClientErrorView::ServerResponse`] carrying the responding address, the
/// status code, and the body decoded as text when the bytes allow it.
pub open spec fn classify(resp: ResponseView) -> Result<ResponseView, ClientErrorView> {
    if is_success_code(resp.code) {
        Ok(resp)
    } else {
        Err(
            (ClientErrorView::ServerResponse {
                url: resp.url,
                code: resp.code,
                content: utf8_decode(resp.body),
            }),
        )
    }
}

/// The whole pipeline as a function of the transport's outcome: a failure of
/// the send operation passes through verbatim; a response is classified by
/// [`classify`].
pub open spec fn pipeline(
    sent: Result<ResponseView, ClientErrorView>,
) -> Result<ResponseView, ClientErrorView> {
    match sent {
        Ok(resp) => classify(resp),
        Err(e) => Err(e),
    }
}

/// The mathematical value of an execution outcome.
pub open spec fn outcome_view(
    outcome: Result<Response, ClientError>,
) -> Result<ResponseView, ClientErrorView> {
    match outcome {
        Ok(resp) => Ok(resp@),
        Err(e) => Err(e@),
    }
}

/// Validates the outcome of a transport's send operation: exactly the
/// [`pipeline`] function, executed.
pub fn validate(sent: Result<Response, ClientError>) -> (r: Result<Response, ClientError>)
    ensures
        outcome_view(r) == pipeline(outcome_view(sent)),
{
    match sent {
        Err(e) => Err(e),
        Ok(resp) => {
            let Response { url, code, body } = resp;
            if HTTP_SUCCESS_LOW <= code && code <= HTTP_SUCCESS_HIGH {
                Ok(Response { url, code, body })
            } else {
                let content = decode_utf8(body);
                Err(ClientError::ServerResponseError { url, code, content })
            }
        },
    }
}

/// A blocking HTTP client: a transport that can synchronously exchange a
/// [`Request`] for a [`Response`], together with the shared execution
/// pipeline layered on top of it.
pub trait ClientBlocking {
    /// Sends the given request and returns a response. Implementations must
    /// consolidate every transport failure into [`ClientError`]; no
    /// implementation-specific error type may escape.
    fn send(&self, req: Request) -> (r: Result<Response, ClientError>);

    /// The base address the client was configured with, used by callers to
    /// build the fully qualified addresses of the requests they execute.
    fn base(&self) -> (r: &str);

    /// Executes a request: delegates to `send`, propagates its failure
    /// verbatim, and classifies its response by [`classify`]. A response
    /// handed back to the caller always has its status code in the success
    /// range; the caller never has to re-check it.
    fn execute(&self, req: Request) -> (r: Result<Response, ClientError>)
        ensures
            (r matches Ok(resp) ==> is_success_code(resp.code)),
    {
        validate(self.send(req))
    }
}

/// Every response whose status code lies in the success range leaves the
/// pipeline as a success, unchanged in address, code and body.
pub proof fn lemma_success_identity(resp: ResponseView)
    requires
        is_success_code(resp.code),
    ensures
        pipeline(Ok(resp)) == Ok::<ResponseView, ClientErrorView>(resp),
{
}

/// Every response whose status code lies outside the success range leaves
/// the pipeline as a server-response error carrying that response's address
/// text and status code.
pub proof fn lemma_failure_classified(resp: ResponseView)
    requires
        !is_success_code(resp.code),
    ensures
        (pipeline(Ok(resp)) matches Err(ClientErrorView::ServerResponse { url, code, .. })
            && url == resp.url && code == resp.code),
{
}

/// The error built for a failing response carries the body decoded as UTF-8
/// text exactly when the bytes are valid UTF-8, and no text otherwise.
pub proof fn lemma_failure_content(resp: ResponseView)
    requires
        !is_success_code(resp.code),
    ensures
        (pipeline(Ok(resp)) matches Err(ClientErrorView::ServerResponse { content, .. })
            && content == utf8_decode(resp.body)),
{
}

/// A failure of the underlying send operation leaves the pipeline verbatim:
/// no wrapping, no reclassification.
pub proof fn lemma_send_failure_verbatim(e: ClientErrorView)
    ensures
        pipeline(Err(e)) == Err::<ResponseView, ClientErrorView>(e),
{
}

} // verus!
