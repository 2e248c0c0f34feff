//! Errors as the request front end reports them, with their status codes.
use vstd::prelude::*;
use vstd::string::*;

use crate::dispatch::{dispatch, dispatch_published, expected_dispatch, possible_dispatch, DispatchError, PluginCall};
use crate::manager::{PluginSystemReader, PluginSystemWriter, PluginView};
use crate::wasm::{callable_names, is_listed, wasm_exports, wasm_instantiates};

verus! {

/// An error answered to a request.
#[derive(Debug)]
pub enum RouterError {
    /// Not authorized, with a message for the client.
    Auth(String),
    /// Anything that is not the client's fault.
    InternalError,
    /// Something named in the request does not exist, with a message.
    NotFound(String),
    /// A token or a verification expired, with a message.
    Expired(String),
}

/// The status code of each kind of error.
pub open spec fn status_of(e: RouterError) -> u16 {
    match e {
        RouterError::Auth(_) => 401,
        RouterError::InternalError => 500,
        RouterError::NotFound(_) => 404,
        RouterError::Expired(_) => 410,
    }
}

/// How a dispatch failure is answered: the not-found kinds with a message
/// naming what was missing, every other kind as an internal error.
pub open spec fn routed(e: DispatchError, call: PluginCall, r: RouterError) -> bool {
    match e {
        DispatchError::PluginNotFound => r matches RouterError::NotFound(m)
            && m@ == "Plugin name "@ + call.name@ + " not found!"@,
        DispatchError::FunctionNotFound => r matches RouterError::NotFound(m)
            && m@ == "Function name "@ + call.function_name@ + " not found!"@,
        _ => r matches RouterError::InternalError,
    }
}

impl RouterError {
    /// The HTTP status code of the error.
    pub fn status_code(&self) -> (r: u16)
        ensures
            r == status_of(*self),
    {
        match self {
            RouterError::Auth(_) => 401,
            RouterError::InternalError => 500,
            RouterError::NotFound(_) => 404,
            RouterError::Expired(_) => 410,
        }
    }

    /// The text of the error: its message, or `InternalError`.
    pub fn message(&self) -> (r: String)
        ensures
            match self {
                RouterError::Auth(m) => r@ == m@,
                RouterError::NotFound(m) => r@ == m@,
                RouterError::Expired(m) => r@ == m@,
                RouterError::InternalError => r@ == "InternalError"@,
            },
    {
        match self {
            RouterError::Auth(m) => m.clone(),
            RouterError::NotFound(m) => m.clone(),
            RouterError::Expired(m) => m.clone(),
            RouterError::InternalError => String::from_str("InternalError"),
        }
    }

    /// The answer to a request whose dispatch failed with `e`.
    pub fn from_dispatch(e: DispatchError, call: &PluginCall) -> (r: RouterError)
        ensures
            routed(e, *call, r),
    {
        match e {
            DispatchError::PluginNotFound => {
                let mut m = String::from_str("Plugin name ");
                m.append(call.name.as_str());
                m.append(" not found!");
                RouterError::NotFound(m)
            },
            DispatchError::FunctionNotFound => {
                let mut m = String::from_str("Function name ");
                m.append(call.function_name.as_str());
                m.append(" not found!");
                RouterError::NotFound(m)
            },
            _ => RouterError::InternalError,
        }
    }
}

/// The answer to `call` given the dispatch result `d`.
pub open spec fn answered(d: Result<String, DispatchError>, call: PluginCall, r: Result<String, RouterError>) -> bool {
    match d {
        Ok(s) => r matches Ok(t) && t@ == s@,
        Err(e) => r matches Err(re) && routed(e, call, re),
    }
}

/// Runs the requested plugin function and returns its result as the response
/// text, or the error to answer with.
pub fn run_plugin_function(plugin_reader: &PluginSystemReader, req_json: &PluginCall) -> (r: Result<String, RouterError>)
    ensures
        exists|d: Result<String, DispatchError>|
            possible_dispatch(req_json.function_name@, d) && #[trigger] answered(d, *req_json, r),
{
    let d = dispatch(plugin_reader, &req_json.name, &req_json.function_name);
    let r = match d {
        Ok(s) => Ok(s),
        Err(e) => Err(RouterError::from_dispatch(e, req_json)),
    };
    assert(answered(d, *req_json, r));
    r
}

/// The answer to `call` when the dispatch gives the text outcome `e`.
pub open spec fn answer_for(e: Result<Seq<char>, DispatchError>, call: PluginCall, r: Result<String, RouterError>) -> bool {
    match e {
        Ok(s) => r matches Ok(t) && t@ == s,
        Err(err) => r matches Err(re) && routed(err, call, re),
    }
}

/// Answers `req_json` from the registry as published, seen through its
/// writer: exactly what a reader sees after the last publish.
pub fn run_published_function(writer: &PluginSystemWriter, req_json: &PluginCall) -> (r: Result<String, RouterError>)
    ensures
        writer.published().contains_key(req_json.name@) ==> answer_for(
            expected_dispatch(writer.published()[req_json.name@], req_json.function_name@),
            *req_json,
            r,
        ),
        !writer.published().contains_key(req_json.name@) ==> answer_for(
            Err(DispatchError::PluginNotFound),
            *req_json,
            r,
        ),
{
    let d = dispatch_published(writer, &req_json.name, &req_json.function_name);
    match d {
        Ok(s) => Ok(s),
        Err(e) => Err(RouterError::from_dispatch(e, req_json)),
    }
}

/// A published plugin whose module instantiates but exports no function is
/// answered with not-found (404) for every function name.
pub proof fn lemma_answer_without_exports(d: PluginView, call: PluginCall, r: Result<String, RouterError>)
    requires
        wasm_instantiates(d.source),
        callable_names(wasm_exports(d.source)).len() == 0,
        answer_for(expected_dispatch(d, call.function_name@), call, r),
    ensures
        r matches Err(e) && status_of(e) == 404,
{
}

/// For a published plugin whose module instantiates, the answer is the
/// function-not-found error exactly when no callable export equals the
/// requested name character for character.
pub proof fn lemma_answer_exact_names(d: PluginView, call: PluginCall, r: Result<String, RouterError>)
    requires
        wasm_instantiates(d.source),
        answer_for(expected_dispatch(d, call.function_name@), call, r),
    ensures
        (r matches Err(RouterError::NotFound(m)) && m@ == "Function name "@ + call.function_name@ + " not found!"@)
            <==> !is_listed(callable_names(wasm_exports(d.source)), call.function_name@),
{
    crate::dispatch::lemma_dispatch_exact_names(d, call.function_name@);
    reveal_strlit("Function name ");
    reveal_strlit("Plugin name ");
}

/// Every request for the same published plugin and function gets the same
/// answer: each dispatch runs a freshly initialised instance, and none sees
/// another's calls.
pub proof fn lemma_answers_are_independent(d: PluginView, call: PluginCall, r1: Result<String, RouterError>, r2: Result<String, RouterError>)
    requires
        answer_for(expected_dispatch(d, call.function_name@), call, r1),
        answer_for(expected_dispatch(d, call.function_name@), call, r2),
    ensures
        r1 is Ok <==> r2 is Ok,
        r1 matches Ok(t1) ==> (r2 matches Ok(t2) && t1@ == t2@),
        r1 matches Err(e1) ==> (r2 matches Err(e2) && status_of(e1) == status_of(e2)),
{
}

} // verus!
