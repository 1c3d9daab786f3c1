//! The status exchange: the request that asks for a snapshot, the errors an
//! exchange ends in, and how whatever came back becomes a snapshot or an
//! error.
//!
//! The exchange itself (connect, send one text frame, wait for one frame,
//! decode it) is done by the caller, which reports what happened as a
//! [`Reply`].

use vstd::prelude::*;
use crate::snapcast::{SnapcastResponse, SnapcastStatus};

verus! {

/// A lowercase hexadecimal digit.
pub open spec fn is_lower_hex(c: char) -> bool {
    ('0' <= c && c <= '9') || ('a' <= c && c <= 'f')
}

/// A request id in hyphenated UUID form: 36 characters, lowercase hex digits
/// in groups of 8, 4, 4, 4 and 12, separated by hyphens.
pub open spec fn is_request_id(s: Seq<char>) -> bool {
    &&& s.len() == 36
    &&& forall|i: int|
        0 <= i < 36 ==> if i == 8 || i == 13 || i == 18 || i == 23 {
            #[trigger] s[i] == '-'
        } else {
            is_lower_hex(s[i])
        }
}

/// Characters that stand for themselves inside a JSON string: no quote, no
/// backslash, no control character.
pub open spec fn is_json_plain(s: Seq<char>) -> bool {
    forall|i: int| 0 <= i < s.len() ==> #[trigger] s[i] != '"' && s[i] != '\\' && s[i] >= ' '
}

/// The status query with request id `id`: a JSON-RPC 2 request (protocol tag
/// written `2`, dot, `0`) for the method `Server.GetStatus`.
pub open spec fn status_request_text(id: Seq<char>) -> Seq<char> {
    "{\"id\":\""@ + id + "\",\"jsonrpc\":\"2\u{2e}0\",\"method\":\"Server.GetStatus\"}"@
}

/// A request id is plain JSON string content, so the status query built on
/// it is a well-formed JSON document.
pub proof fn lemma_request_id_is_json_plain(id: Seq<char>)
    requires
        is_request_id(id),
    ensures
        is_json_plain(id),
{
    assert forall|i: int| 0 <= i < id.len() implies #[trigger] id[i] != '"' && id[i] != '\\' && id[i]
        >= ' ' by {
        if i == 8 || i == 13 || i == 18 || i == 23 {
            assert(id[i] == '-');
        } else {
            assert(is_lower_hex(id[i]));
        }
    }
}

/// Relies on uuid's `Uuid::new_v4` and its `Display` impl: a fresh random
/// UUID written in hyphenated lowercase form. (`new_v4` panics only when the
/// system's random source fails.)
#[verifier::external_body]
fn random_request_id() -> (r: String)
    ensures
        is_request_id(r@),
{
    uuid::Uuid::new_v4().to_string()
}

/// A status query ready to send, with the id it carries.
#[derive(Debug, Clone, PartialEq, Eq)]
pub struct StatusRequest {
    pub id: String,
    pub text: String,
}

/// The status query with request id `id`.
pub fn status_request(id: &str) -> (r: String)
    ensures
        r@ == status_request_text(id@),
{
    let mut text = String::from_str("{\"id\":\"");
    text.append(id);
    text.append("\",\"jsonrpc\":\"2\u{2e}0\",\"method\":\"Server.GetStatus\"}");
    text
}

/// A status query under a freshly generated request id.
pub fn new_status_request() -> (r: StatusRequest)
    ensures
        is_request_id(r.id@),
        is_json_plain(r.id@),
        r.text@ == status_request_text(r.id@),
{
    let id = random_request_id();
    proof {
        lemma_request_id_is_json_plain(id@);
    }
    let text = status_request(id.as_str());
    StatusRequest { id, text }
}

/// How a status exchange failed.
#[derive(Debug, Clone, PartialEq, Eq)]
pub enum ConnectError {
    /// Connecting, the handshake, sending or receiving failed.
    Transport(String),
    /// Something came back, but not a well-formed status reply.
    Protocol(String),
    /// Nothing came back within the time limit.
    Timeout,
}

/// The text that describes `e`.
pub open spec fn error_text(e: ConnectError) -> Seq<char> {
    match e {
        ConnectError::Transport(detail) => "transport error: "@ + detail@,
        ConnectError::Protocol(detail) => "protocol error: "@ + detail@,
        ConnectError::Timeout => "no reply within the time limit"@,
    }
}

impl ConnectError {
    /// The text that describes this error.
    pub fn describe(&self) -> (r: String)
        ensures
            r@ == error_text(*self),
    {
        match self {
            ConnectError::Transport(detail) => {
                let mut text = String::from_str("transport error: ");
                text.append(detail.as_str());
                text
            },
            ConnectError::Protocol(detail) => {
                let mut text = String::from_str("protocol error: ");
                text.append(detail.as_str());
                text
            },
            ConnectError::Timeout => String::from_str("no reply within the time limit"),
        }
    }
}

/// What one status exchange brought back.
#[derive(Debug, Clone, PartialEq, Eq)]
pub enum Reply {
    /// A text frame that decoded as a status reply.
    Document(SnapcastResponse),
    /// A text frame that did not decode; the decoder's message.
    Malformed(String),
    /// A frame, but not a text frame.
    NotText,
    /// The connection ended before any frame came: the server closed
    /// without answering.
    Closed,
    /// Connecting, sending or receiving failed; the transport's message.
    TransportFailed(String),
    /// No frame came within the time limit.
    TimedOut,
}

/// The snapshot that `reply` delivers, or the error it ends in: a decoded
/// reply with a `result` gives that snapshot; a reply without one, a frame
/// that does not decode, a frame that is not text, or no frame at all before
/// the connection ends is a protocol error; a connection that fails is a
/// transport error; silence is a timeout.
pub fn settle_reply(reply: Reply) -> (r: Result<SnapcastStatus, ConnectError>)
    ensures
        match reply {
            Reply::Document(response) => match response.result {
                Some(s) => r == Ok::<SnapcastStatus, ConnectError>(s),
                None => r matches Err(ConnectError::Protocol(m)) && m@ == "reply carries no result"@,
            },
            Reply::Malformed(detail) => r matches Err(ConnectError::Protocol(m)) && m@
                == "malformed reply: "@ + detail@,
            Reply::NotText => r matches Err(ConnectError::Protocol(m)) && m@
                == "reply is not a text frame"@,
            Reply::Closed => r matches Err(ConnectError::Protocol(m)) && m@
                == "connection closed before a reply"@,
            Reply::TransportFailed(detail) => r == Err::<SnapcastStatus, ConnectError>(
                ConnectError::Transport(detail),
            ),
            Reply::TimedOut => r == Err::<SnapcastStatus, ConnectError>(ConnectError::Timeout),
        },
{
    match reply {
        Reply::Document(response) => match response.result {
            Some(s) => Ok(s),
            None => Err(ConnectError::Protocol(String::from_str("reply carries no result"))),
        },
        Reply::Malformed(detail) => {
            let mut text = String::from_str("malformed reply: ");
            text.append(detail.as_str());
            Err(ConnectError::Protocol(text))
        },
        Reply::NotText => Err(ConnectError::Protocol(String::from_str("reply is not a text frame"))),
        Reply::Closed => Err(
            ConnectError::Protocol(String::from_str("connection closed before a reply")),
        ),
        Reply::TransportFailed(detail) => Err(ConnectError::Transport(detail)),
        Reply::TimedOut => Err(ConnectError::Timeout),
    }
}

} // verus!
