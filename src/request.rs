//! Requests and the daemon configuration that this layer reads.

use vstd::prelude::*;
use crate::json::{array_items, bool_field, json_array_of, json_bool_field, json_text_field, text_field};
use crate::registry::opt_text;

verus! {

/// One request: its JSON document, beside the `method` and `userpass`
/// fields that the checks look at.
#[derive(Debug)]
pub struct RpcRequest {
    /// The request as received; handlers read their own parameters from it.
    pub json: serde_json::Value,
    /// The `method` field, when it is a string.
    pub method: Option<String>,
    /// The `userpass` field, when it is a string.
    pub userpass: Option<String>,
}

impl RpcRequest {
    /// Whether `method` and `userpass` are the string fields of the document.
    pub open spec fn fields_read(self) -> bool {
        &&& opt_text(self.method) == json_text_field(self.json, "method"@)
        &&& opt_text(self.userpass) == json_text_field(self.json, "userpass"@)
    }

    /// Builds a request from its document and the two fields read from it.
    pub fn new(json: serde_json::Value, method: Option<String>, userpass: Option<String>) -> (r: RpcRequest)
        ensures
            r.json == json,
            r.method == method,
            r.userpass == userpass,
    {
        RpcRequest { json, method, userpass }
    }

    /// Reads `method` and `userpass` out of a request document.
    pub fn from_json(json: serde_json::Value) -> (r: RpcRequest)
        ensures
            r.json == json,
            r.fields_read(),
    {
        let method = text_field(&json, "method");
        let userpass = text_field(&json, "userpass");
        RpcRequest::new(json, method, userpass)
    }
}

/// What the top level of a request body holds: one request, or a batch.
#[derive(Debug)]
pub enum Incoming {
    Single(RpcRequest),
    Batch(Vec<RpcRequest>),
}

impl Incoming {
    /// Whether this is how `json` reads: an array is the batch of its
    /// elements, in order; anything else is one request.
    pub open spec fn read_from(self, json: serde_json::Value) -> bool {
        match self {
            Incoming::Batch(rs) => {
                &&& json_array_of(json) is Some
                &&& rs@.len() == json_array_of(json)->Some_0.len()
                &&& forall|i: int| 0 <= i < rs@.len() ==> (#[trigger] rs@[i]).json == json_array_of(json)->Some_0[i]
                    && rs@[i].fields_read()
            },
            Incoming::Single(q) => json_array_of(json) is None && q.json == json && q.fields_read(),
        }
    }

    /// A JSON array is a batch of the requests it holds, in order; anything
    /// else is a single request.
    pub fn from_json(json: serde_json::Value) -> (r: Incoming)
        ensures
            r.read_from(json),
    {
        match array_items(&json) {
            Option::Some(items) => Incoming::Batch(requests_of(items)),
            Option::None => Incoming::Single(RpcRequest::from_json(json)),
        }
    }
}

/// One request per document, in the same order.
pub fn requests_of(items: Vec<serde_json::Value>) -> (r: Vec<RpcRequest>)
    ensures
        r@.len() == items@.len(),
        forall|i: int| 0 <= i < items@.len() ==> (#[trigger] r@[i]).json == items@[i] && r@[i].fields_read(),
{
    let mut out: Vec<RpcRequest> = Vec::new();
    let mut rest = items;
    let ghost orig = rest@;
    while rest.len() > 0
        invariant
            out@.len() + rest@.len() == orig.len(),
            rest@ == orig.subrange(out@.len() as int, orig.len() as int),
            forall|i: int| 0 <= i < out@.len() ==> (#[trigger] out@[i]).json == orig[i] && out@[i].fields_read(),
        decreases rest@.len(),
    {
        let item = rest.remove(0);
        out.push(RpcRequest::from_json(item));
    }
    out
}

/// The daemon settings that this layer consumes.
#[derive(Clone, Debug)]
pub struct RpcConfig {
    /// `rpc_password`: the credential that private methods require.
    pub password: Option<String>,
    /// `rpc_local_only`: whether private methods are limited to loopback callers.
    pub local_only: bool,
    /// `rpc_cors`: the cross-origin header value, when configured.
    pub cors: Option<String>,
}

impl RpcConfig {
    /// Settings from the configuration's fields; local-only mode is on unless
    /// it is switched off explicitly.
    pub fn from_fields(password: Option<String>, local_only: Option<bool>, cors: Option<String>) -> (r: RpcConfig)
        ensures
            r.password == password,
            r.local_only == match local_only {
                Option::Some(b) => b,
                Option::None => true,
            },
            r.cors == cors,
    {
        let local_only = match local_only {
            Option::Some(b) => b,
            Option::None => true,
        };
        RpcConfig { password, local_only, cors }
    }

    /// Settings read from the daemon's configuration document.
    pub fn from_conf(conf: &serde_json::Value) -> (r: RpcConfig)
        ensures
            opt_text(r.password) == json_text_field(*conf, "rpc_password"@),
            opt_text(r.cors) == json_text_field(*conf, "rpc_cors"@),
            r.local_only == match json_bool_field(*conf, "rpc_local_only"@) {
                Option::Some(b) => b,
                Option::None => true,
            },
    {
        let password = text_field(conf, "rpc_password");
        let local_only = bool_field(conf, "rpc_local_only");
        let cors = text_field(conf, "rpc_cors");
        RpcConfig::from_fields(password, local_only, cors)
    }
}

} // verus!
