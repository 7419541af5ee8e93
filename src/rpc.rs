//! JSON-RPC 2.0 request framing and reply interpretation.
use vstd::prelude::*;
use crate::numeric::hex_char;

verus! {

#[verifier::external_type_specification]
#[verifier::external_body]
pub struct ExValue(serde_json::Value);

#[verifier::external_type_specification]
#[verifier::external_body]
pub struct ExJsonError(serde_json::Error);

/// The two methods that the inspector calls.
#[derive(Clone, Copy, Debug, PartialEq, Eq, Structural)]
pub enum Method {
    BlockNumber,
    GetBlockByNumber,
}

/// Why a call produced no result.
#[derive(Debug)]
pub enum RpcError {
    /// The reply body is not JSON.
    Json(serde_json::Error),
    /// The node answered with an `error` member; holds it serialised.
    Node(String),
}

pub open spec fn method_name(m: Method) -> Seq<char> {
    match m {
        Method::BlockNumber => "eth_blockNumber"@,
        Method::GetBlockByNumber => "eth_getBlockByNumber"@,
    }
}

/// The body of a JSON-RPC 2.0 request with the fixed id 1; `params` is the
/// JSON text of the parameter array.
pub open spec fn request_text(m: Method, params: Seq<char>) -> Seq<char> {
    "{\"jsonrpc\":\"2.0\",\"id\":1,\"method\":\""@ + method_name(m) + "\",\"params\":"@ + params
        + "}"@
}

/// The parameter array of a block fetch: the identifier's JSON text, then
/// `true` to ask for full transaction objects.
pub open spec fn fetch_params(id_json: Seq<char>) -> Seq<char> {
    "["@ + id_json + ",true]"@
}

/// How one character is written inside a JSON string: `"` and `\` are
/// escaped, backspace, tab, line feed, form feed and carriage return take
/// their short escapes, other control characters below 0x20 become `\u00XX`
/// in lowercase hex, and every other character stands for itself.
pub open spec fn escape_char(c: char) -> Seq<char> {
    let n = c as u32;
    if c == '"' {
        seq!['\\', '"']
    } else if c == '\\' {
        seq!['\\', '\\']
    } else if n == 8 {
        seq!['\\', 'b']
    } else if n == 9 {
        seq!['\\', 't']
    } else if n == 10 {
        seq!['\\', 'n']
    } else if n == 12 {
        seq!['\\', 'f']
    } else if n == 13 {
        seq!['\\', 'r']
    } else if n < 32 {
        seq!['\\', 'u', '0', '0', hex_char((n / 16) as nat), hex_char((n % 16) as nat)]
    } else {
        seq![c]
    }
}

/// The characters of `s`, each escaped for a JSON string.
pub open spec fn escaped(s: Seq<char>) -> Seq<char>
    decreases s.len(),
{
    if s.len() == 0 {
        Seq::empty()
    } else {
        escaped(s.drop_last()) + escape_char(s.last())
    }
}

/// The JSON string that holds `s`, quotes included.
pub open spec fn json_quoted(s: Seq<char>) -> Seq<char> {
    seq!['"'] + escaped(s) + seq!['"']
}

impl Method {
    /// The method's name on the wire.
    pub fn name(&self) -> (r: &'static str)
        ensures
            r@ == method_name(*self),
    {
        match self {
            Method::BlockNumber => "eth_blockNumber",
            Method::GetBlockByNumber => "eth_getBlockByNumber",
        }
    }
}

/// Frames a request for `method` whose parameter array has the JSON text `params`.
pub fn request_body(method: Method, params: &str) -> (r: String)
    ensures
        r@ == request_text(method, params@),
{
    let mut out = String::from_str("{\"jsonrpc\":\"2.0\",\"id\":1,\"method\":\"");
    out.append(method.name());
    out.append("\",\"params\":");
    out.append(params);
    out.append("}");
    out
}

/// The request that asks for the number of the newest block.
pub fn block_number_request() -> (r: String)
    ensures
        r@ == request_text(Method::BlockNumber, "[]"@),
{
    request_body(Method::BlockNumber, "[]")
}

/// Frames the fetch parameters around the JSON text of an identifier.
pub fn fetch_params_text(id_json: &str) -> (r: String)
    ensures
        r@ == fetch_params(id_json@),
{
    let mut out = String::from_str("[");
    out.append(id_json);
    out.append(",true]");
    out
}

/// Relies on `Display` for `serde_json::Value`: its compact JSON text.
#[verifier::external_body]
pub(crate) fn json_text(v: &serde_json::Value) -> (r: String) {
    v.to_string()
}

/// Relies on `Display` for `serde_json::Value` on a JSON string: `s` in
/// quotes, escaped by serde_json's compact formatter.
#[verifier::external_body]
pub(crate) fn quote_json(s: &str) -> (r: String)
    ensures
        r@ == json_quoted(s@),
{
    serde_json::Value::String(s.to_string()).to_string()
}

/// The outcome of a reply, given its serialised `error` member, if any, and
/// its `result` member: an error member wins over any result.
pub fn reply_outcome(error: Option<String>, result: serde_json::Value) -> (r: Result<
    serde_json::Value,
    RpcError,
>)
    ensures
        match error {
            Some(e) => r matches Err(RpcError::Node(m)) && m@ == e@,
            None => r == Ok::<serde_json::Value, RpcError>(result),
        },
{
    match error {
        Some(e) => Err(RpcError::Node(e)),
        None => Ok(result),
    }
}

} // verus!
