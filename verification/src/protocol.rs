//! The protocol's data model: decoded responses, discovered tools,
//! and the handshake shapes, as plain values the proofs can speak of.

use vstd::prelude::*;
use crate::errors::McpError;

verus! {

/// The error object a response may carry.
pub struct JsonRpcError {
    pub code: i64,
    pub message: String,
    pub data: Option<String>,
}

/// One decoded response line: the raw result text if any, the error
/// object if any, and the echoed id if any.
pub struct JsonRpcResponse {
    pub result: Option<String>,
    pub error: Option<JsonRpcError>,
    pub id: Option<u64>,
}

/// The client's identity declared during the handshake.
pub struct ClientInfo {
    pub name: String,
    pub version: String,
}

/// The server's identity decoded from the handshake reply.
pub struct ServerInfo {
    pub name: String,
    pub version: String,
}

/// The decoded handshake result. `capabilities` is kept as raw text:
/// nothing downstream reads inside it.
pub struct InitializeResult {
    pub protocol_version: String,
    pub capabilities: String,
    pub server_info: ServerInfo,
}

/// One discovered tool. `input_schema` is kept as raw text: it is
/// only handed on to the completion service.
pub struct Tool {
    pub name: String,
    pub description: Option<String>,
    pub input_schema: String,
}

#[verifier::ext_equal]
pub struct JsonRpcErrorView {
    pub code: i64,
    pub message: Seq<char>,
    pub data: Option<Seq<char>>,
}

#[verifier::ext_equal]
pub struct JsonRpcResponseView {
    pub result: Option<Seq<char>>,
    pub error: Option<JsonRpcErrorView>,
    pub id: Option<u64>,
}

#[verifier::ext_equal]
pub struct ServerInfoView {
    pub name: Seq<char>,
    pub version: Seq<char>,
}

#[verifier::ext_equal]
pub struct InitializeResultView {
    pub protocol_version: Seq<char>,
    pub capabilities: Seq<char>,
    pub server_info: ServerInfoView,
}

#[verifier::ext_equal]
pub struct ToolView {
    pub name: Seq<char>,
    pub description: Option<Seq<char>>,
    pub input_schema: Seq<char>,
}

impl View for JsonRpcError {
    type V = JsonRpcErrorView;

    open spec fn view(&self) -> JsonRpcErrorView {
        JsonRpcErrorView {
            code: self.code,
            message: self.message@,
            data: match self.data {
                Some(d) => Some(d@),
                None => None,
            },
        }
    }
}

impl View for JsonRpcResponse {
    type V = JsonRpcResponseView;

    open spec fn view(&self) -> JsonRpcResponseView {
        JsonRpcResponseView {
            result: match self.result {
                Some(t) => Some(t@),
                None => None,
            },
            error: match self.error {
                Some(e) => Some(e@),
                None => None,
            },
            id: self.id,
        }
    }
}

impl View for ServerInfo {
    type V = ServerInfoView;

    open spec fn view(&self) -> ServerInfoView {
        ServerInfoView { name: self.name@, version: self.version@ }
    }
}

impl View for InitializeResult {
    type V = InitializeResultView;

    open spec fn view(&self) -> InitializeResultView {
        InitializeResultView {
            protocol_version: self.protocol_version@,
            capabilities: self.capabilities@,
            server_info: self.server_info@,
        }
    }
}

impl View for Tool {
    type V = ToolView;

    open spec fn view(&self) -> ToolView {
        ToolView {
            name: self.name@,
            description: match self.description {
                Some(d) => Some(d@),
                None => None,
            },
            input_schema: self.input_schema@,
        }
    }
}

impl ClientInfo {
    /// The identity this client declares.
    pub fn this_client() -> (c: ClientInfo)
        ensures
            c.name@ == "AETHER"@,
            c.version@ == "0.1.0"@,
    {
        ClientInfo { name: "AETHER".to_owned(), version: "0.1.0".to_owned() }
    }
}

impl JsonRpcResponse {
    /// Splits a decoded response the way the handshake and discovery
    /// replies are read: an error object wins, then a present result,
    /// and a response with neither is a protocol violation. A response
    /// carrying only an error never yields a result value.
    pub fn into_result(self) -> (r: Result<String, McpError>)
        ensures
            self.error matches Some(e) ==> (r matches Err(f) && f matches McpError::ProtocolError {
                code,
                message,
            } && code == e.code && message == e.message),
            self.error is None ==> (self.result matches Some(t) ==> r == Ok::<String, McpError>(t)),
            self.error is None && self.result is None ==> r == Err::<String, McpError>(
                McpError::EmptyResult,
            ),
    {
        match self.error {
            Some(e) => Err(McpError::ProtocolError { code: e.code, message: e.message }),
            None => match self.result {
                Some(t) => Ok(t),
                None => Err(McpError::EmptyResult),
            },
        }
    }

    /// Splits a decoded response the way a tool-invocation reply is
    /// read: an error object means the callee reported a failed run.
    /// A response carrying only an error never yields a result value.
    pub fn into_call_result(self) -> (r: Result<String, McpError>)
        ensures
            self.error matches Some(e) ==> (r matches Err(f) && f
                matches McpError::ToolExecutionError { message } && message == e.message),
            self.error is None ==> (self.result matches Some(t) ==> r == Ok::<String, McpError>(t)),
            self.error is None && self.result is None ==> r == Err::<String, McpError>(
                McpError::EmptyResult,
            ),
    {
        match self.error {
            Some(e) => Err(McpError::ToolExecutionError { message: e.message }),
            None => match self.result {
                Some(t) => Ok(t),
                None => Err(McpError::EmptyResult),
            },
        }
    }
}

} // verus!
