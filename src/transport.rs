//! The decisions of the HTTP binding: reading a request body, choosing the
//! cross-origin header value, and the set-once lifecycle flags.

use vstd::prelude::*;
use vstd::utf8::encode_utf8;
use crate::gate::RpcError;
use crate::json::{describe_json_error, json_document_of, json_text_of_str, json_text_valid, parse_json};
use crate::request::{Incoming, RpcConfig};
use crate::response::{error_document_of, error_response, message_text, RpcResponse};

verus! {

/// The bytes an HTTP header value may hold: visible ASCII, tab, and bytes
/// from 128 up.
pub open spec fn header_byte_ok(b: u8) -> bool {
    (b >= 32 && b != 127) || b == 9
}

pub open spec fn header_text_ok(b: Seq<u8>) -> bool {
    forall|i: int| 0 <= i < b.len() ==> header_byte_ok(#[trigger] b[i])
}

/// Relies on `http::HeaderValue::from_bytes`, which accepts exactly the
/// byte strings whose every byte passes `header_byte_ok`.
#[verifier::external_body]
fn header_value_accepts(b: &[u8]) -> (r: bool)
    ensures
        r == header_text_ok(b@),
{
    http::HeaderValue::from_bytes(b).is_ok()
}

/// The origin sent when none is configured.
pub open spec fn default_origin() -> Seq<char> {
    "http://localhost:3000"@
}

/// The cross-origin header value: the configured one, or the default when
/// none is configured. `None` when the configured one cannot stand in a header.
pub fn cors_origin(cfg: &RpcConfig) -> (r: Option<String>)
    ensures
        match cfg.cors {
            Option::None => r is Some && r->Some_0@ == default_origin(),
            Option::Some(c) => if header_text_ok(encode_utf8(c@)) {
                r is Some && r->Some_0@ == c@
            } else {
                r is None
            },
        },
{
    match &cfg.cors {
        Option::None => Option::Some("http://localhost:3000".to_owned()),
        Option::Some(c) => {
            if header_value_accepts(c.as_str().as_bytes()) {
                Option::Some(c.clone())
            } else {
                Option::None
            }
        },
    }
}

/// Reads an HTTP request: the body must be a JSON document, and then the
/// verb must be POST.
pub fn read_http_request(is_post: bool, body: &[u8]) -> (r: Result<Incoming, RpcError>)
    ensures
        !json_text_valid(body@) ==> r matches Err(RpcError::MalformedBody(_)),
        json_text_valid(body@) && !is_post ==> r matches Err(RpcError::UnsupportedVerb),
        json_text_valid(body@) && is_post ==> r is Ok && r->Ok_0.read_from(json_document_of(body@)->Some_0),
{
    match parse_json(body) {
        Err(e) => Err(RpcError::MalformedBody(describe_json_error(&e))),
        Ok(v) => if is_post {
            Ok(Incoming::from_json(v))
        } else {
            Err(RpcError::UnsupportedVerb)
        },
    }
}

/// The response to a single request: the handler's own response, status and
/// headers included, or the error response of what went wrong.
pub fn single_response(r: Result<RpcResponse, RpcError>) -> (res: RpcResponse)
    ensures
        match r {
            Ok(resp) => res == resp,
            Err(e) => {
                &&& res.status == 500
                &&& res.headers@.len() == 0
                &&& res.body@ == error_document_of(json_text_of_str(message_text(e)))
            },
        },
{
    match r {
        Ok(resp) => resp,
        Err(e) => error_response(&e),
    }
}

/// What a batch member contributes: the body of its response, or the
/// message of its error.
pub fn member_outcome(r: Result<RpcResponse, RpcError>) -> (o: Result<Vec<u8>, String>)
    ensures
        match r {
            Ok(resp) => o == Ok::<Vec<u8>, String>(resp.body),
            Err(e) => o is Err && o->Err_0@ == message_text(e),
        },
{
    match r {
        Ok(resp) => Ok(resp.body),
        Err(e) => Err(e.message()),
    }
}

/// Setting a flag that was set already.
#[derive(PartialEq, Eq, Structural, Clone, Copy, Debug)]
pub struct AlreadySet;

/// A flag that is set at most once: the RPC-started mark, the registration of
/// the in-process request channel, and the firing of the shutdown signal.
#[derive(Debug)]
pub struct OnceFlag {
    set: bool,
}

impl OnceFlag {
    pub closed spec fn is_set_spec(&self) -> bool {
        self.set
    }

    pub fn new() -> (r: OnceFlag)
        ensures
            !r.is_set_spec(),
    {
        OnceFlag { set: false }
    }

    pub fn is_set(&self) -> (r: bool)
        ensures
            r == self.is_set_spec(),
    {
        self.set
    }

    /// Sets the flag. A second attempt is reported and changes nothing.
    pub fn pin(&mut self) -> (r: Result<(), AlreadySet>)
        ensures
            final(self).is_set_spec(),
            r is Ok == !old(self).is_set_spec(),
    {
        if self.set {
            Err(AlreadySet)
        } else {
            self.set = true;
            Ok(())
        }
    }
}

} // verus!
