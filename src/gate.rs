//! The credential check, the origin restriction, and the admission of one
//! request to its handler.

use vstd::prelude::*;
use crate::dispatch::{dispatcher, routes, DispatcherRes, Route};
use crate::registry::{is_public, is_public_method, offloaded_methods, opt_text, public_methods, registered_methods};
use crate::request::{RpcConfig, RpcRequest};

verus! {

/// Why the credential check refused a request.
#[derive(PartialEq, Eq, Structural, Clone, Copy, Debug)]
pub enum AuthError {
    /// A private method was called without a string `userpass`.
    MissingCredential,
    /// The `userpass` differs from the configured password.
    InvalidCredential,
}

/// The credential policy: public methods pass; others need a `userpass`
/// equal to the configured password.
pub open spec fn auth_decision(
    method: Option<Seq<char>>,
    userpass: Option<Seq<char>>,
    password: Option<Seq<char>>,
) -> Result<(), AuthError> {
    if is_public(method) {
        Ok(())
    } else {
        match userpass {
            Option::None => Err(AuthError::MissingCredential),
            Option::Some(u) => if password == Option::Some(u) {
                Ok(())
            } else {
                Err(AuthError::InvalidCredential)
            },
        }
    }
}

/// Decides whether the request's credential admits it.
pub fn auth(req: &RpcRequest, cfg: &RpcConfig) -> (r: Result<(), AuthError>)
    ensures
        r == auth_decision(opt_text(req.method), opt_text(req.userpass), opt_text(cfg.password)),
        is_public(opt_text(req.method)) ==> r is Ok,
        !is_public(opt_text(req.method)) && req.userpass is None ==> r == Err::<(), AuthError>(
            AuthError::MissingCredential,
        ),
        !is_public(opt_text(req.method)) && req.userpass is Some && opt_text(req.userpass)
            != opt_text(cfg.password) ==> r == Err::<(), AuthError>(AuthError::InvalidCredential),
{
    if is_public_method(&req.method) {
        return Ok(());
    }
    match &req.userpass {
        Option::None => Err(AuthError::MissingCredential),
        Option::Some(u) => {
            let matches = match &cfg.password {
                Option::Some(p) => *p == *u,
                Option::None => false,
            };
            if matches {
                Ok(())
            } else {
                Err(AuthError::InvalidCredential)
            }
        },
    }
}

/// Whether the origin restriction refuses a request: local-only mode is on,
/// the caller is not on the loopback interface, and the method is private.
pub open spec fn local_only_violation(local_only: bool, from_loopback: bool, method: Option<Seq<char>>) -> bool {
    local_only && !from_loopback && !is_public(method)
}

/// Why a request did not reach a handler, without the details.
#[derive(PartialEq, Eq, Structural, Clone, Copy, Debug)]
pub enum Refusal {
    LocalOnly,
    MissingCredential,
    InvalidCredential,
    UnknownMethod,
}

/// The order of the checks on one request: origin, then credential, then
/// routing. `None` means the request reaches its handler.
pub open spec fn admission(
    method: Option<Seq<char>>,
    userpass: Option<Seq<char>>,
    password: Option<Seq<char>>,
    local_only: bool,
    from_loopback: bool,
) -> Option<Refusal> {
    if local_only_violation(local_only, from_loopback, method) {
        Option::Some(Refusal::LocalOnly)
    } else {
        match auth_decision(method, userpass, password) {
            Err(AuthError::MissingCredential) => Option::Some(Refusal::MissingCredential),
            Err(AuthError::InvalidCredential) => Option::Some(Refusal::InvalidCredential),
            Ok(()) => if routes(method) {
                Option::None
            } else {
                Option::Some(Refusal::UnknownMethod)
            },
        }
    }
}

/// Every failure this layer reports for a request.
#[derive(Clone, Debug)]
pub enum RpcError {
    /// The body is not a JSON document; the parser's description.
    MalformedBody(String),
    /// The HTTP verb is not POST.
    UnsupportedVerb,
    /// A private method from a non-loopback caller in local-only mode.
    LocalOnly,
    MissingCredential,
    InvalidCredential,
    /// No handler for this method (absent when the field is not a string).
    UnknownMethod(Option<String>),
    /// The handler failed with this message.
    HandlerFault(String),
}

pub open spec fn refusal_of(e: RpcError) -> Option<Refusal> {
    match e {
        RpcError::LocalOnly => Option::Some(Refusal::LocalOnly),
        RpcError::MissingCredential => Option::Some(Refusal::MissingCredential),
        RpcError::InvalidCredential => Option::Some(Refusal::InvalidCredential),
        RpcError::UnknownMethod(_) => Option::Some(Refusal::UnknownMethod),
        _ => Option::None,
    }
}

/// Runs the origin restriction, the credential check and the dispatcher on
/// one request, in that order. On success the request comes back with the
/// route of its handler.
pub fn check_single_request(req: RpcRequest, cfg: &RpcConfig, from_loopback: bool) -> (r: Result<(Route, RpcRequest), RpcError>)
    ensures
        match r {
            Ok((route, back)) => {
                &&& admission(opt_text(req.method), opt_text(req.userpass), opt_text(cfg.password),
                    cfg.local_only, from_loopback) is None
                &&& back == req
                &&& req.method == Option::Some(route.method)
                &&& route.offload == offloaded_methods().contains(route.method@)
            },
            Err(e) => {
                &&& admission(opt_text(req.method), opt_text(req.userpass), opt_text(cfg.password),
                    cfg.local_only, from_loopback) == refusal_of(e)
                &&& refusal_of(e) is Some
                &&& (e is UnknownMethod ==> e == RpcError::UnknownMethod(req.method))
            },
        },
{
    if cfg.local_only && !from_loopback && !is_public_method(&req.method) {
        return Err(RpcError::LocalOnly);
    }
    match auth(&req, cfg) {
        Err(AuthError::MissingCredential) => return Err(RpcError::MissingCredential),
        Err(AuthError::InvalidCredential) => return Err(RpcError::InvalidCredential),
        Ok(()) => {},
    }
    match dispatcher(req) {
        DispatcherRes::Match(route, back) => Ok((route, back)),
        DispatcherRes::NoMatch(back) => {
            let method = back.method;
            Err(RpcError::UnknownMethod(method))
        },
    }
}

/// In local-only mode, a private method called from outside the loopback
/// interface is refused for its origin whatever credential it carries, so
/// the refusal tells nothing about the credential.
pub proof fn lemma_local_only_before_credentials(
    method: Option<Seq<char>>,
    userpass_a: Option<Seq<char>>,
    userpass_b: Option<Seq<char>>,
    password: Option<Seq<char>>,
)
    requires
        !is_public(method),
    ensures
        admission(method, userpass_a, password, true, false) == Option::Some(Refusal::LocalOnly),
        admission(method, userpass_a, password, true, false) == admission(
            method,
            userpass_b,
            password,
            true,
            false,
        ),
{
}

/// `version` is answered for every caller: from any origin, with or without
/// a credential, under any configuration, it reaches its handler.
pub proof fn lemma_version_always_admitted(
    userpass: Option<Seq<char>>,
    password: Option<Seq<char>>,
    local_only: bool,
    from_loopback: bool,
)
    ensures
        admission(Option::Some("version"@), userpass, password, local_only, from_loopback) is None,
{
    assert(public_methods()[15] == "version"@);
    assert(registered_methods()[49] == "version"@);
}

/// A method without a handler gets the not-found refusal, never an origin or
/// credential one, whatever credential it carries and wherever it comes from.
pub proof fn lemma_unknown_method_is_not_found(
    method: Seq<char>,
    userpass: Option<Seq<char>>,
    password: Option<Seq<char>>,
    local_only: bool,
    from_loopback: bool,
)
    requires
        !registered_methods().contains(method),
    ensures
        admission(Option::Some(method), userpass, password, local_only, from_loopback) == Option::Some(
            Refusal::UnknownMethod,
        ),
{
}

} // verus!
