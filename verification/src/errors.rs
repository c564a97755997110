//! The failure taxonomy of the protocol client and the agent, and the
//! human-readable text each failure is surfaced as.

use vstd::prelude::*;
use crate::text::{dec_int_chars, i64_to_string};

verus! {

/// Everything that can go wrong between the agent and a tool process
/// or the completion service.
#[derive(Debug)]
pub enum McpError {
    /// A pipe write or read failed, or the process could not be
    /// spawned; carries the underlying description.
    TransportIo(String),
    /// The stream reached end-of-stream before a full line arrived.
    TransportClosed,
    /// The response carried an error object.
    ProtocolError { code: i64, message: String },
    /// The response could not be parsed, or its result had the wrong
    /// shape; carries which expectation was broken.
    DecodeError(String),
    /// The response carried neither result nor error.
    EmptyResult,
    /// The security gate refused the named tool.
    PermissionDenied { tool: String },
    /// The callee reported that the tool run itself failed.
    ToolExecutionError { message: String },
    /// The completion service failed; carries its description.
    CompletionServiceError(String),
}

/// The text an error is surfaced as.
pub open spec fn spec_error_text(e: McpError) -> Seq<char> {
    match e {
        McpError::TransportIo(detail) => "Transport failure: "@ + detail@,
        McpError::TransportClosed => "Process closed the connection (EOF)"@,
        McpError::ProtocolError { code, message } => "MCP Init Error: "@ + message@ + " (Code: "@
            + dec_int_chars(code as int) + ")"@,
        McpError::DecodeError(context) => context@,
        McpError::EmptyResult => "Tool returned no result"@,
        McpError::PermissionDenied { tool } => "SECURITY ALERT: Tool '"@ + tool@
            + "' is blocked by permissions.json"@,
        McpError::ToolExecutionError { message } => "Tool Execution Error: "@ + message@,
        McpError::CompletionServiceError(detail) => "API Error: "@ + detail@,
    }
}

impl McpError {
    /// Renders the error for the display surface.
    pub fn text(&self) -> (t: String)
        ensures
            t@ == spec_error_text(*self),
    {
        match self {
            McpError::TransportIo(detail) => {
                let s: String = "Transport failure: ".to_owned();
                s.concat(detail.as_str())
            },
            McpError::TransportClosed => "Process closed the connection (EOF)".to_owned(),
            McpError::ProtocolError { code, message } => {
                let s: String = "MCP Init Error: ".to_owned();
                let s = s.concat(message.as_str());
                let s = s.concat(" (Code: ");
                let rendered = i64_to_string(*code);
                let s = s.concat(rendered.as_str());
                let s = s.concat(")");
                proof {
                    assert(s@ =~= spec_error_text(*self));
                }
                s
            },
            McpError::DecodeError(context) => context.clone(),
            McpError::EmptyResult => "Tool returned no result".to_owned(),
            McpError::PermissionDenied { tool } => {
                let s: String = "SECURITY ALERT: Tool '".to_owned();
                let s = s.concat(tool.as_str());
                let s = s.concat("' is blocked by permissions.json");
                proof {
                    assert(s@ =~= spec_error_text(*self));
                }
                s
            },
            McpError::ToolExecutionError { message } => {
                let s: String = "Tool Execution Error: ".to_owned();
                s.concat(message.as_str())
            },
            McpError::CompletionServiceError(detail) => {
                let s: String = "API Error: ".to_owned();
                s.concat(detail.as_str())
            },
        }
    }
}

} // verus!
