//! The conversation data model: transcript messages, tool-call
//! requests carried inside them, and the events sent to the display
//! surface.

use vstd::prelude::*;

verus! {

/// Who speaks a transcript entry. A closed enumeration, so that
/// handling is exhaustive.
#[derive(Clone, Copy, PartialEq, Eq, Structural, Debug)]
pub enum Role {
    System,
    User,
    Assistant,
    Tool,
}

/// The function part of a tool-call request: the tool's name and its
/// arguments as raw JSON text (opaque until the callee parses it).
pub struct FunctionCall {
    pub name: String,
    pub arguments: String,
}

/// One tool-call request from a completion reply: the call id the
/// reply correlates results by, and the function to invoke.
pub struct ToolCall {
    pub id: String,
    pub function: FunctionCall,
}

/// One transcript entry. A `tool` entry carries the id of the call it
/// answers in `tool_call_id`.
pub struct Message {
    pub role: Role,
    pub content: Option<String>,
    pub tool_calls: Option<Vec<ToolCall>>,
    pub tool_call_id: Option<String>,
}

/// An event sent from the agent to the display surface.
pub enum UiMessage {
    User(String),
    Ai(String),
    Log(String),
    Error(String),
}

#[verifier::ext_equal]
pub struct FunctionCallView {
    pub name: Seq<char>,
    pub arguments: Seq<char>,
}

#[verifier::ext_equal]
pub struct ToolCallView {
    pub id: Seq<char>,
    pub function: FunctionCallView,
}

#[verifier::ext_equal]
pub struct MessageView {
    pub role: Role,
    pub content: Option<Seq<char>>,
    pub tool_calls: Option<Seq<ToolCallView>>,
    pub tool_call_id: Option<Seq<char>>,
}

impl View for FunctionCall {
    type V = FunctionCallView;

    open spec fn view(&self) -> FunctionCallView {
        FunctionCallView { name: self.name@, arguments: self.arguments@ }
    }
}

impl View for ToolCall {
    type V = ToolCallView;

    open spec fn view(&self) -> ToolCallView {
        ToolCallView { id: self.id@, function: self.function@ }
    }
}

impl View for Message {
    type V = MessageView;

    open spec fn view(&self) -> MessageView {
        MessageView {
            role: self.role,
            content: match self.content {
                Some(c) => Some(c@),
                None => None,
            },
            tool_calls: match self.tool_calls {
                Some(cs) => Some(cs@.map_values(|c: ToolCall| c@)),
                None => None,
            },
            tool_call_id: match self.tool_call_id {
                Some(i) => Some(i@),
                None => None,
            },
        }
    }
}

/// A user transcript entry carrying `text`.
pub open spec fn user_msg(text: Seq<char>) -> MessageView {
    MessageView { role: Role::User, content: Some(text), tool_calls: None, tool_call_id: None }
}

/// A tool transcript entry: the result text for the call named by
/// `id`.
pub open spec fn tool_msg(id: Seq<char>, text: Seq<char>) -> MessageView {
    MessageView { role: Role::Tool, content: Some(text), tool_calls: None, tool_call_id: Some(id) }
}

/// The fixed system prompt that opens every conversation.
pub open spec fn system_msg() -> MessageView {
    MessageView {
        role: Role::System,
        content: Some("You are AETHER. Be concise. Use tools wisely."@),
        tool_calls: None,
        tool_call_id: None,
    }
}

/// The text a reply is displayed as: its content, or a fixed marker
/// when the reply carries none.
pub open spec fn spec_reply_text(m: MessageView) -> Seq<char> {
    match m.content {
        Some(c) => c,
        None => "No content"@,
    }
}

impl Message {
    /// Builds the user entry for one turn of input.
    pub fn user(text: String) -> (m: Message)
        ensures
            m@ == user_msg(text@),
    {
        Message { role: Role::User, content: Some(text), tool_calls: None, tool_call_id: None }
    }

    /// Builds the tool entry that answers the call named by `id` with
    /// `text`.
    pub fn tool(id: String, text: String) -> (m: Message)
        ensures
            m@ == tool_msg(id@, text@),
    {
        Message {
            role: Role::Tool,
            content: Some(text),
            tool_calls: None,
            tool_call_id: Some(id),
        }
    }

    /// Builds the system entry that opens every conversation.
    pub fn system() -> (m: Message)
        ensures
            m@ == system_msg(),
    {
        Message {
            role: Role::System,
            content: Some("You are AETHER. Be concise. Use tools wisely.".to_owned()),
            tool_calls: None,
            tool_call_id: None,
        }
    }

    /// The text this reply is displayed as.
    pub fn reply_text(&self) -> (t: String)
        ensures
            t@ == spec_reply_text(self@),
    {
        match &self.content {
            Some(c) => c.clone(),
            None => "No content".to_owned(),
        }
    }
}

impl ToolCall {
    /// A field-for-field copy; the views agree.
    pub fn duplicate(&self) -> (c: ToolCall)
        ensures
            c@ == self@,
    {
        ToolCall {
            id: self.id.clone(),
            function: FunctionCall {
                name: self.function.name.clone(),
                arguments: self.function.arguments.clone(),
            },
        }
    }
}

/// Copies a list of tool calls; the element views agree.
pub fn duplicate_calls(calls: &Vec<ToolCall>) -> (r: Vec<ToolCall>)
    ensures
        r@.map_values(|c: ToolCall| c@) =~= calls@.map_values(|c: ToolCall| c@),
{
    let mut out: Vec<ToolCall> = Vec::new();
    let n = calls.len();
    let mut i: usize = 0;
    while i < n
        invariant
            n == calls@.len(),
            i <= n,
            out@.map_values(|c: ToolCall| c@) =~= calls@.map_values(|c: ToolCall| c@).take(
                i as int,
            ),
        decreases n - i,
    {
        let ghost prev = out@;
        out.push(calls[i].duplicate());
        proof {
            assert(out@ =~= prev.push(out@.last()));
            assert(out@.map_values(|c: ToolCall| c@) =~= prev.map_values(|c: ToolCall| c@).push(
                out@.last()@,
            ));
        }
        i += 1;
    }
    out
}

} // verus!
