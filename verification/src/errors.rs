//! The closed error taxonomy surfaced to callers of the client.

use vstd::prelude::*;

verus! {

/// An error returned from executing a request.
///
/// The set is closed: a failure inside the transport's own send operation is
/// consolidated into `TransportError`, and a response whose status code lies
/// outside the accepted success range becomes `ServerResponseError`. Every
/// error is terminal for the single call that produced it; nothing at this
/// layer retries or reclassifies.
#[derive(Debug, Clone)]
pub enum ClientError {
    /// A failure that originated inside the transport's send operation:
    /// connection failures, malformed addresses, serialization faults, and
    /// any other implementation-specific error, consolidated into one opaque
    /// message.
    TransportError { message: String },
    /// A response arrived, but its status code lies outside the accepted
    /// success range. Carries the responding address as text, the numeric
    /// status code, and the response body decoded as text when the bytes are
    /// valid for that decoding.
    ServerResponseError { url: String, code: u16, content: Option<String> },
}

/// The mathematical value of a [`ClientError`]: the same two variants with
/// each text field taken as its sequence of characters.
pub enum ClientErrorView {
    Transport { message: Seq<char> },
    ServerResponse { url: Seq<char>, code: u16, content: Option<Seq<char>> },
}

impl View for ClientError {
    type V = ClientErrorView;

    open spec fn view(&self) -> ClientErrorView {
        match self {
            ClientError::TransportError { message } => ClientErrorView::Transport {
                message: message@,
            },
            ClientError::ServerResponseError { url, code, content } => (
                ClientErrorView::ServerResponse {
                    url: url@,
                    code: *code,
                    content: match content {
                        Some(text) => Some(text@),
                        None => None,
                    },
                }
            ),
        }
    }
}

} // verus!
