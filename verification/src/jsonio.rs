//! The trusted boundary to serde_json: the only place where the tool
//! process's reply text or the model's argument text, arbitrary JSON,
//! is parsed. Each parse is a function of the text alone, so each
//! wrapper's result is named and its contract stated over the name;
//! every decision on the copied-out values is made by verified code
//! elsewhere.

use vstd::prelude::*;
use crate::protocol::{
    InitializeResult, InitializeResultView, JsonRpcError, JsonRpcResponse, JsonRpcResponseView,
    ServerInfo, Tool, ToolView,
};

verus! {

/// Whether `s` is the text of one JSON document; a function of the
/// text alone.
pub uninterp spec fn is_json_doc(s: Seq<char>) -> bool;

/// The compact single-line rendering of the JSON document `s` holds;
/// meaningful only where `is_json_doc(s)`.
pub uninterp spec fn canon_of(s: Seq<char>) -> Seq<char>;

/// What one response line decodes to, if anything; a function of the
/// text alone.
pub uninterp spec fn response_of(s: Seq<char>) -> Option<JsonRpcResponseView>;

/// What a handshake result document decodes to, if anything; a
/// function of the text alone.
pub uninterp spec fn init_of(s: Seq<char>) -> Option<InitializeResultView>;

/// What a tool-listing result document declares, if anything; a
/// function of the text alone.
pub uninterp spec fn tools_of(s: Seq<char>) -> Option<Seq<ToolView>>;

/// Relies on serde_json::from_str to parse one document and on
/// serde_json::Value's Display to re-render it: the compact form is a
/// function of the text alone, succeeds exactly when the text parses,
/// and — since the compact formatter writes no whitespace between
/// tokens and escapes every control character inside strings — never
/// holds a raw newline or carriage return.
#[verifier::external_body]
pub(crate) fn canonical_json(s: &str) -> (r: Option<String>)
    ensures
        r is Some <==> is_json_doc(s@),
        r matches Some(t) ==> t@ == canon_of(s@),
        r matches Some(t) ==> forall|i: int|
            0 <= i < t@.len() ==> t@[i] != '\n' && t@[i] != '\r',
{
    serde_json::from_str::<serde_json::Value>(s).ok().map(|v| v.to_string())
}

/// Relies on serde_json::from_str to parse one response line, and on
/// serde_json::Value's accessors (get, as_i64, as_str, as_u64,
/// to_string) to copy the id, the error object's parts, and the
/// result document's text out as plain values. A line that is not a
/// JSON document, or whose version tag or error object has the wrong
/// shape, yields nothing.
#[verifier::external_body]
pub(crate) fn parse_response_value(s: &str) -> (r: Option<JsonRpcResponse>)
    ensures
        r matches Some(resp) ==> response_of(s@) == Some(resp@),
        r is None ==> response_of(s@) is None,
{
    let v: serde_json::Value = serde_json::from_str(s).ok()?;
    v.get("jsonrpc")?.as_str()?;
    let error = match v.get("error").filter(|e| !e.is_null()) {
        None => None,
        Some(e) => Some(JsonRpcError {
            code: e.get("code")?.as_i64()?,
            message: e.get("message")?.as_str()?.to_owned(),
            data: e.get("data").filter(|d| !d.is_null()).map(|d| d.to_string()),
        }),
    };
    let result = v.get("result").filter(|t| !t.is_null()).map(|t| t.to_string());
    Some(JsonRpcResponse { result, error, id: v.get("id").and_then(|i| i.as_u64()) })
}

/// Relies on serde_json::from_str to read a handshake result
/// document, and on serde_json::Value's accessors to copy the
/// version, the capability document's text, and the server identity
/// out as plain values.
#[verifier::external_body]
pub(crate) fn parse_initialize_value(s: &str) -> (r: Option<InitializeResult>)
    ensures
        r matches Some(init) ==> init_of(s@) == Some(init@),
        r is None ==> init_of(s@) is None,
{
    let v: serde_json::Value = serde_json::from_str(s).ok()?;
    let si = v.get("serverInfo")?;
    Some(InitializeResult {
        protocol_version: v.get("protocolVersion")?.as_str()?.to_owned(),
        capabilities: v.get("capabilities")?.to_string(),
        server_info: ServerInfo {
            name: si.get("name")?.as_str()?.to_owned(),
            version: si.get("version")?.as_str()?.to_owned(),
        },
    })
}

/// Relies on serde_json::from_str to read a tool-listing result
/// document, and on serde_json::Value's accessors to copy each
/// declared tool's name, optional description, and input schema text
/// out as plain values, keeping the declared order.
#[verifier::external_body]
pub(crate) fn parse_tools_value(s: &str) -> (r: Option<Vec<Tool>>)
    ensures
        r matches Some(ts) ==> tools_of(s@) == Some(ts@.map_values(|t: Tool| t@)),
        r is None ==> tools_of(s@) is None,
{
    let v: serde_json::Value = serde_json::from_str(s).ok()?;
    let mut tools: Vec<Tool> = Vec::new();
    for t in v.get("tools")?.as_array()? {
        tools.push(Tool {
            name: t.get("name")?.as_str()?.to_owned(),
            description: t.get("description").and_then(|d| d.as_str()).map(|d| d.to_owned()),
            input_schema: t.get("inputSchema")?.to_string(),
        });
    }
    Some(tools)
}

} // verus!
