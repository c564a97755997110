//! The protocol client: request-id bookkeeping, the security gate
//! consulted before every tool invocation, the framing of each
//! operation's request line, and the reading of each reply.
//!
//! The transport itself (the child process and its pipes) lives
//! outside; each operation here either frames the line to write or
//! decodes the line that was read.

use vstd::prelude::*;
use vstd::string::StringSliceAdditionalSpecFns;
use crate::errors::McpError;
use crate::jsonio::{init_of, parse_initialize_value, parse_response_value, parse_tools_value, response_of, tools_of};
use crate::protocol::{InitializeResult, JsonRpcResponse, Tool};
use crate::security::{spec_permits, SecurityConfig};
use crate::wire::{
    call_params, call_params_spec, clean_bytes, encode_request, encode_spec, initialize_params,
    initialize_params_bytes, method_initialize, method_initialize_bytes, method_tools_call,
    lemma_call_line_single, method_tools_call_bytes, method_tools_list, method_tools_list_bytes,
    JsonRpcRequest, ReqModel,
};

verus! {

/// The client's state: the monotonically increasing request id and
/// the policy consulted before every tool invocation.
pub struct McpClient {
    pub request_id_counter: u64,
    pub security: SecurityConfig,
}

impl McpClient {
    /// A fresh client; ids start above zero.
    pub fn new(security: SecurityConfig) -> (c: Self)
        ensures
            c.request_id_counter == 0,
            c.security == security,
    {
        McpClient { request_id_counter: 0, security }
    }

    /// The next request id: the counter moves up by one and the new
    /// value is used.
    fn next_id(&mut self) -> (id: u64)
        requires
            old(self).request_id_counter < u64::MAX,
        ensures
            final(self).request_id_counter == old(self).request_id_counter + 1,
            final(self).security == old(self).security,
            id == final(self).request_id_counter,
    {
        self.request_id_counter = self.request_id_counter + 1;
        self.request_id_counter
    }

    /// Frames the handshake request: the fixed params document under
    /// the next id.
    pub fn prepare_initialize(&mut self) -> (line: Vec<u8>)
        requires
            old(self).request_id_counter < u64::MAX,
        ensures
            final(self).security == old(self).security,
            final(self).request_id_counter == old(self).request_id_counter + 1,
            line@ == encode_spec(
                (ReqModel {
                    method: method_initialize_bytes(),
                    params: Some(initialize_params_bytes()),
                    id: (old(self).request_id_counter + 1) as u64,
                }),
            ),
    {
        let id = self.next_id();
        let req = JsonRpcRequest::new(method_initialize(), Some(initialize_params()), id);
        encode_request(&req)
    }

    /// Frames the tool-discovery request: no params, the next id.
    pub fn prepare_list_tools(&mut self) -> (line: Vec<u8>)
        requires
            old(self).request_id_counter < u64::MAX,
        ensures
            final(self).security == old(self).security,
            final(self).request_id_counter == old(self).request_id_counter + 1,
            line@ == encode_spec(
                (ReqModel {
                    method: method_tools_list_bytes(),
                    params: None,
                    id: (old(self).request_id_counter + 1) as u64,
                }),
            ),
    {
        let id = self.next_id();
        let req = JsonRpcRequest::new(method_tools_list(), None, id);
        encode_request(&req)
    }

    /// Frames a tool invocation — but first consults the security
    /// gate. On denial nothing is framed: there is no line to write,
    /// the id counter does not move, and the error names the tool.
    /// When the argument text holds no newline, neither does the
    /// framed line: it stays one physical line on the wire.
    pub fn prepare_call_tool(&mut self, tool_name: &str, arguments: &str) -> (r: Result<
        Vec<u8>,
        McpError,
    >)
        requires
            old(self).request_id_counter < u64::MAX,
        ensures
            !spec_permits(old(self).security, tool_name@) ==> (r matches Err(e) && e
                matches McpError::PermissionDenied { tool } && tool@ == tool_name@ && *final(self)
                == *old(self)),
            spec_permits(old(self).security, tool_name@) ==> (final(self).security == old(
                self,
            ).security && final(self).request_id_counter == old(self).request_id_counter + 1 && (
            r matches Ok(line) && line@ == encode_spec(
                (ReqModel {
                    method: method_tools_call_bytes(),
                    params: Some(call_params_spec(tool_name.spec_bytes(), arguments.spec_bytes())),
                    id: (old(self).request_id_counter + 1) as u64,
                }),
            ))),
            (spec_permits(old(self).security, tool_name@) && (forall|i: int|
                0 <= i < arguments@.len() ==> arguments@[i] != '\n' && arguments@[i] != '\r'))
                ==> (r matches Ok(line) && clean_bytes(line@)),
    {
        if !self.security.check_permission(tool_name) {
            return Err(McpError::PermissionDenied { tool: tool_name.to_owned() });
        }
        let params = call_params(tool_name, arguments);
        let id = self.next_id();
        let req = JsonRpcRequest::new(method_tools_call(), Some(params), id);
        proof {
            if forall|i: int| 0 <= i < arguments@.len() ==> arguments@[i] != '\n'
                && arguments@[i] != '\r' {
                lemma_call_line_single(tool_name@, arguments@, id);
            }
        }
        Ok(encode_request(&req))
    }
}

/// Reads a handshake reply line, exactly as the decoded line
/// dictates: no parse is a decode failure; an error object is a
/// protocol failure with that object's code and message; neither
/// result nor error is a protocol violation; a result of the wrong
/// shape is a decode failure; a well-shaped result is returned
/// decoded, and only then.
pub fn handle_initialize_reply(line: &str) -> (r: Result<InitializeResult, McpError>)
    ensures
        response_of(line@) is None ==> (r matches Err(e) && e matches McpError::DecodeError(c)
            && c@ == "Failed to parse init response from tool"@),
        response_of(line@) matches Some(resp) ==> {
            &&& (resp.error matches Some(err) ==> (r matches Err(e) && e
                matches McpError::ProtocolError { code, message } && code == err.code && message@
                == err.message))
            &&& (resp.error is None && resp.result is None ==> r == Err::<
                InitializeResult,
                McpError,
            >(McpError::EmptyResult))
            &&& (resp.error is None ==> (resp.result matches Some(t) ==> {
                &&& (init_of(t) is None ==> (r matches Err(e) && e matches McpError::DecodeError(
                    c,
                ) && c@ == "Tool sent invalid initialize result format"@))
                &&& (init_of(t) matches Some(iv) ==> (r matches Ok(init) && init@ == iv))
            }))
        },
{
    let resp = match parse_response_value(line) {
        Some(resp) => resp,
        None => {
            return Err(McpError::DecodeError("Failed to parse init response from tool".to_owned()),
            );
        },
    };
    match resp.into_result() {
        Ok(text) => match parse_initialize_value(text.as_str()) {
            Some(init) => Ok(init),
            None => Err(
                McpError::DecodeError("Tool sent invalid initialize result format".to_owned()),
            ),
        },
        Err(e) => Err(e),
    }
}

/// Reads a tool-discovery reply line, failing the same way the
/// handshake does; a well-shaped result yields exactly the declared
/// tool array — same order, each descriptor kept whole — and only
/// then.
pub fn handle_tools_reply(line: &str) -> (r: Result<Vec<Tool>, McpError>)
    ensures
        response_of(line@) is None ==> (r matches Err(e) && e matches McpError::DecodeError(c)
            && c@ == "Failed to parse tools/list response"@),
        response_of(line@) matches Some(resp) ==> {
            &&& (resp.error matches Some(err) ==> (r matches Err(e) && e
                matches McpError::ProtocolError { code, message } && code == err.code && message@
                == err.message))
            &&& (resp.error is None && resp.result is None ==> r == Err::<Vec<Tool>, McpError>(
                McpError::EmptyResult,
            ))
            &&& (resp.error is None ==> (resp.result matches Some(t) ==> {
                &&& (tools_of(t) is None ==> (r matches Err(e) && e matches McpError::DecodeError(
                    c,
                ) && c@ == "Invalid tools list format"@))
                &&& (tools_of(t) matches Some(tvs) ==> (r matches Ok(ts) && ts@.map_values(
                    |x: Tool| x@,
                ) == tvs))
            }))
        },
{
    let resp = match parse_response_value(line) {
        Some(resp) => resp,
        None => {
            return Err(McpError::DecodeError("Failed to parse tools/list response".to_owned()));
        },
    };
    match resp.into_result() {
        Ok(text) => match parse_tools_value(text.as_str()) {
            Some(tools) => Ok(tools),
            None => Err(McpError::DecodeError("Invalid tools list format".to_owned())),
        },
        Err(e) => Err(e),
    }
}

/// Reads a tool-invocation reply line, exactly as the decoded line
/// dictates: no parse is a decode failure; an error object means the
/// callee reported a failed run, with that object's message; neither
/// result nor error is a protocol violation; a present result is
/// returned as exactly its raw text, and only then.
pub fn handle_call_reply(line: &str) -> (r: Result<String, McpError>)
    ensures
        response_of(line@) is None ==> (r matches Err(e) && e matches McpError::DecodeError(c)
            && c@ == "Failed to parse tool call response"@),
        response_of(line@) matches Some(resp) ==> {
            &&& (resp.error matches Some(err) ==> (r matches Err(e) && e
                matches McpError::ToolExecutionError { message } && message@ == err.message))
            &&& (resp.error is None && resp.result is None ==> r == Err::<String, McpError>(
                McpError::EmptyResult,
            ))
            &&& (resp.error is None ==> (resp.result matches Some(t) ==> (r matches Ok(text)
                && text@ == t)))
        },
{
    let resp = match parse_response_value(line) {
        Some(resp) => resp,
        None => {
            return Err(McpError::DecodeError("Failed to parse tool call response".to_owned()));
        },
    };
    resp.into_call_result()
}

} // verus!
