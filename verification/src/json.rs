//! The JSON-RPC proxy: what is decided before a call is forwarded to the
//! runtime's local JSON-RPC endpoint, and after its result has come back.
//! The forwarding itself is the caller's.

use vstd::prelude::*;

verus! {

/// A JSON value of the `serde_json` crate. It is carried, never looked into.
#[verifier::external_type_specification]
#[verifier::external_body]
pub struct ExValue(serde_json::Value);

/// The error of the `serde_json` crate. It is carried, never looked into.
#[verifier::external_type_specification]
#[verifier::external_body]
pub struct ExError(serde_json::Error);

/// Why a call could not be forwarded, or its result not be handed on.
#[derive(Debug)]
pub enum JsonRpcError {
    /// The parameters are no JSON text, or the result cannot be written as
    /// one.
    ParseError(serde_json::Error),
}

/// The JSON value that the `serde_json` crate reads out of `text`; `None`
/// where the text is not one JSON value.
pub uninterp spec fn json_value(text: Seq<char>) -> Option<serde_json::Value>;

/// `serde_json::from_str`, asked for a `Value`. The contract only names the
/// outcome: the same text always gives the same value, or never any.
#[verifier::external_body]
pub(crate) fn parse_value(text: &str) -> (parsed: Result<serde_json::Value, serde_json::Error>)
    ensures
        match parsed {
            Ok(value) => json_value(text@) == Some(value),
            Err(_) => json_value(text@) is None,
        },
{
    serde_json::from_str(text)
}

/// What a JSON value holds, as the text that the `serde_json` crate writes
/// for it in its pretty-printed form.
pub uninterp spec fn json_text(value: serde_json::Value) -> Seq<char>;

/// `serde_json::to_string_pretty` on a `Value`. A `Value` can always be
/// written: its keys are strings, its numbers are written as they are held,
/// and the text is gathered in memory. The contract names the text: the
/// same value is always written the same way.
#[verifier::external_body]
pub(crate) fn pretty(value: &serde_json::Value) -> (text: Result<String, serde_json::Error>)
    ensures
        text is Ok,
        text matches Ok(written) ==> written@ == json_text(*value),
{
    serde_json::to_string_pretty(value)
}

/// An empty parameter string stands for "no parameters".
pub fn empty_as_none(value: &str) -> (params: Option<&str>)
    ensures
        params is Some <==> value@.len() > 0,
        params matches Some(text) ==> text@ == value@,
{
    if value.is_empty() {
        None
    } else {
        Some(value)
    }
}

/// A call as it is forwarded: where to, which method, and its parameters.
#[derive(Debug)]
pub struct JsonRpcCall {
    pub rpc_addr: String,
    pub method: String,
    pub params: Option<serde_json::Value>,
}

/// A proxy bound to the address of the runtime's JSON-RPC endpoint.
#[derive(Debug)]
pub struct JsonService {
    rpc_addr: String,
}

impl JsonService {
    /// The address this proxy forwards to.
    pub closed spec fn spec_rpc_addr(&self) -> Seq<char> {
        self.rpc_addr@
    }

    pub fn new(rpc_addr: String) -> (service: Self)
        ensures
            service.spec_rpc_addr() == rpc_addr@,
    {
        Self { rpc_addr }
    }

    pub fn rpc_addr(&self) -> (addr: &str)
        ensures
            addr@ == self.spec_rpc_addr(),
    {
        self.rpc_addr.as_str()
    }

    /// The call to forward, given what became of the parameters: `None`
    /// where there are none, else what parsing them gave. Parameters that do
    /// not parse end the call before anything is forwarded.
    pub fn call_with(
        &self,
        method: &str,
        parsed: Option<Result<serde_json::Value, serde_json::Error>>,
    ) -> (call: Result<JsonRpcCall, JsonRpcError>)
        ensures
            match parsed {
                None => call matches Ok(c) && c.params is None,
                Some(Ok(value)) => call matches Ok(c) && c.params == Some(value),
                Some(Err(error)) => call matches Err(e) && e == JsonRpcError::ParseError(error),
            },
            call matches Ok(c) ==> c.rpc_addr@ == self.spec_rpc_addr() && c.method@ == method@,
    {
        let params = match parsed {
            None => None,
            Some(Ok(value)) => Some(value),
            Some(Err(error)) => {
                return Err(JsonRpcError::ParseError(error));
            },
        };
        Ok(JsonRpcCall { rpc_addr: self.rpc_addr.clone(), method: method.to_owned(), params })
    }

    /// The call to forward for a method and its parameters as text. An empty
    /// text stands for no parameters; any other has to be JSON, and is
    /// forwarded as the value it reads as.
    pub fn call(&self, method: &str, params: &str) -> (call: Result<JsonRpcCall, JsonRpcError>)
        ensures
            call is Ok <==> params@.len() == 0 || json_value(params@) is Some,
            call matches Ok(c) ==> {
                &&& c.rpc_addr@ == self.spec_rpc_addr()
                &&& c.method@ == method@
                &&& params@.len() == 0 ==> c.params is None
                &&& params@.len() > 0 ==> c.params == json_value(params@)
            },
    {
        let parsed = match empty_as_none(params) {
            Some(text) => Some(parse_value(text)),
            None => None,
        };
        self.call_with(method, parsed)
    }

    /// What is handed back to the client, given what writing the result out
    /// gave.
    pub fn response_with(written: Result<String, serde_json::Error>) -> (response: Result<
        String,
        JsonRpcError,
    >)
        ensures
            match written {
                Ok(text) => response == Ok::<String, JsonRpcError>(text),
                Err(error) => response == Err::<String, JsonRpcError>(
                    JsonRpcError::ParseError(error),
                ),
            },
    {
        match written {
            Ok(text) => Ok(text),
            Err(error) => Err(JsonRpcError::ParseError(error)),
        }
    }

    /// The result of a call as it is handed back to the client: the text of
    /// the result, pretty-printed, and nothing else.
    pub fn response(result: &serde_json::Value) -> (response: Result<String, JsonRpcError>)
        ensures
            response matches Ok(text) && text@ == json_text(*result),
    {
        JsonService::response_with(pretty(result))
    }
}

} // verus!
