//! What goes back to the caller: error messages and documents, the
//! assembled batch array, and the cross-origin header value.

use vstd::prelude::*;
use vstd::string::StringExecFns;
use crate::gate::RpcError;
use crate::json::{json_text_of_str, quote_json_text};

verus! {

/// A response: HTTP status, headers (name and value bytes) and body.
#[derive(Clone, Debug)]
pub struct RpcResponse {
    pub status: u16,
    pub headers: Vec<(String, Vec<u8>)>,
    pub body: Vec<u8>,
}

/// The fixed human-readable message of each error; no message repeats the
/// credential that was sent.
pub open spec fn message_text(e: RpcError) -> Seq<char> {
    match e {
        RpcError::MalformedBody(d) => d@,
        RpcError::UnsupportedVerb => "Only POST requests are supported!"@,
        RpcError::LocalOnly => "Selected method can be called from localhost only!"@,
        RpcError::MissingCredential => "Userpass is not set!"@,
        RpcError::InvalidCredential => "Userpass is invalid!"@,
        RpcError::UnknownMethod(Option::Some(m)) => "No such method: "@ + m@,
        RpcError::UnknownMethod(Option::None) => "No such method: null"@,
        RpcError::HandlerFault(d) => d@,
    }
}

impl RpcError {
    /// The error's message.
    pub fn message(&self) -> (r: String)
        ensures
            r@ == message_text(*self),
    {
        match self {
            RpcError::MalformedBody(d) => d.clone(),
            RpcError::UnsupportedVerb => "Only POST requests are supported!".to_owned(),
            RpcError::LocalOnly => "Selected method can be called from localhost only!".to_owned(),
            RpcError::MissingCredential => "Userpass is not set!".to_owned(),
            RpcError::InvalidCredential => "Userpass is invalid!".to_owned(),
            RpcError::UnknownMethod(Option::Some(m)) => {
                let mut s = "No such method: ".to_owned();
                s.append(m.as_str());
                s
            },
            RpcError::UnknownMethod(Option::None) => "No such method: null".to_owned(),
            RpcError::HandlerFault(d) => d.clone(),
        }
    }
}

/// The bytes `{"error":` that open an error document.
pub open spec fn error_head() -> Seq<u8> {
    seq![123u8, 34u8, 101u8, 114u8, 114u8, 111u8, 114u8, 34u8, 58u8]
}

/// The bytes `null`.
pub open spec fn null_text() -> Seq<u8> {
    seq![110u8, 117u8, 108u8, 108u8]
}

/// The error document `{"error":<quoted>}`; where the message could not be
/// written as JSON, `{"error":null}`.
pub open spec fn error_document_of(quoted: Option<Seq<u8>>) -> Seq<u8> {
    match quoted {
        Option::Some(q) => error_head() + q + seq![125u8],
        Option::None => error_head() + null_text() + seq![125u8],
    }
}

pub open spec fn opt_bytes(o: Option<Vec<u8>>) -> Option<Seq<u8>> {
    match o {
        Option::Some(b) => Option::Some(b@),
        Option::None => Option::None,
    }
}

fn null_bytes() -> (r: Vec<u8>)
    ensures
        r@ == null_text(),
{
    let r = vec![110u8, 117u8, 108u8, 108u8];
    assert(r@ =~= null_text());
    r
}

/// Wraps the JSON text of a message into an error document.
pub fn error_document_from_quoted(quoted: Option<Vec<u8>>) -> (r: Vec<u8>)
    ensures
        r@ == error_document_of(opt_bytes(quoted)),
{
    let mut out = vec![123u8, 34u8, 101u8, 114u8, 114u8, 111u8, 114u8, 34u8, 58u8];
    assert(out@ =~= error_head());
    let ghost q_view = opt_bytes(quoted);
    let mut inner = match quoted {
        Option::Some(q) => q,
        Option::None => null_bytes(),
    };
    out.append(&mut inner);
    out.push(125u8);
    proof {
        match q_view {
            Option::Some(q) => assert(out@ =~= error_head() + q + seq![125u8]),
            Option::None => assert(out@ =~= error_head() + null_text() + seq![125u8]),
        }
    }
    out
}

/// The error document that carries `msg`.
pub fn error_document(msg: &str) -> (r: Vec<u8>)
    ensures
        r@ == error_document_of(json_text_of_str(msg@)),
{
    let quoted = quote_json_text(msg);
    error_document_from_quoted(quoted)
}

/// A failed request as the transport sends it: status 500 and the error
/// document of its message, with no headers of its own.
pub fn error_response(e: &RpcError) -> (r: RpcResponse)
    ensures
        r.status == 500,
        r.headers@.len() == 0,
        r.body@ == error_document_of(json_text_of_str(message_text(*e))),
{
    let msg = e.message();
    RpcResponse { status: 500, headers: Vec::new(), body: error_document(msg.as_str()) }
}

} // verus!
