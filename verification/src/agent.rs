//! The orchestrator's decisions: the append-only transcript, the
//! branch a completion reply selects, and the degraded handling of
//! malformed tool arguments. The loop that waits for input, calls the
//! completion service, and runs the transport lives outside; every
//! decision it acts on is made here.

use vstd::prelude::*;
use crate::errors::{spec_error_text, McpError};
use crate::jsonio::{canon_of, canonical_json, is_json_doc};
use crate::messages::{
    duplicate_calls, spec_reply_text, system_msg, tool_msg, user_msg, Message, MessageView, Role,
    ToolCall, ToolCallView,
};
use crate::protocol::Tool;

verus! {

/// What one completion reply asks the loop to do next: answer the
/// user directly, or run these tool calls in order first.
pub enum TurnAction {
    Respond(String),
    RunTools(Vec<ToolCall>),
}

#[verifier::ext_equal]
pub enum TurnActionView {
    Respond(Seq<char>),
    RunTools(Seq<ToolCallView>),
}

impl View for TurnAction {
    type V = TurnActionView;

    open spec fn view(&self) -> TurnActionView {
        match self {
            TurnAction::Respond(t) => TurnActionView::Respond(t@),
            TurnAction::RunTools(cs) => TurnActionView::RunTools(
                cs@.map_values(|c: ToolCall| c@),
            ),
        }
    }
}

/// The action a reply selects: any tool-call list present — even an
/// empty one — selects the tool branch; otherwise the reply's text is
/// the direct answer.
pub open spec fn turn_action_of(reply: MessageView) -> TurnActionView {
    match reply.tool_calls {
        Some(cs) => TurnActionView::RunTools(cs),
        None => TurnActionView::Respond(spec_reply_text(reply)),
    }
}

/// The tool entries one turn appends: for each call, in order, a tool
/// message carrying that call's id and its result text.
pub open spec fn tool_results_msgs(calls: Seq<ToolCallView>, texts: Seq<Seq<char>>) -> Seq<
    MessageView,
>
    recommends
        calls.len() == texts.len(),
{
    Seq::new(calls.len(), |i: int| tool_msg(calls[i].id, texts[i]))
}

/// The orchestrator's state: the append-only conversation transcript.
/// Nothing is ever removed or rewritten.
pub struct Agent {
    pub history: Vec<Message>,
}

impl Agent {
    /// The transcript as the contracts see it.
    pub open spec fn transcript(&self) -> Seq<MessageView> {
        self.history@.map_values(|m: Message| m@)
    }

    /// A fresh conversation: the system prompt alone.
    pub fn new() -> (a: Agent)
        ensures
            a.transcript() =~= seq![system_msg()],
    {
        let mut history: Vec<Message> = Vec::new();
        history.push(Message::system());
        let a = Agent { history };
        proof {
            assert(a.transcript() =~= seq![system_msg()]);
        }
        a
    }

    /// One turn begins: the user's text is appended, and nothing
    /// else changes.
    pub fn note_user(&mut self, text: String)
        ensures
            final(self).transcript() =~= old(self).transcript().push(user_msg(text@)),
    {
        let ghost before = self.transcript();
        self.history.push(Message::user(text));
        proof {
            assert(self.transcript() =~= before.push(self.history@.last()@));
        }
    }

    /// The completion reply is appended — exactly one new entry — and
    /// the branch it selects is handed back: the direct answer, or
    /// the calls to run, in the order received.
    pub fn apply_completion(&mut self, reply: Message) -> (act: TurnAction)
        ensures
            final(self).transcript() =~= old(self).transcript().push(reply@),
            act@ == turn_action_of(reply@),
    {
        let ghost before = self.transcript();
        let act = match &reply.tool_calls {
            Some(calls) => TurnAction::RunTools(duplicate_calls(calls)),
            None => TurnAction::Respond(reply.reply_text()),
        };
        proof {
            assert(act@ =~= turn_action_of(reply@));
        }
        self.history.push(reply);
        proof {
            assert(self.transcript() =~= before.push(self.history@.last()@));
        }
        act
    }

    /// One tool call's outcome is recorded: exactly one appended tool
    /// entry carrying the id of the call it answers and the result text.
    pub fn record_tool_result(&mut self, call_id: String, text: String)
        ensures
            final(self).transcript() =~= old(self).transcript().push(tool_msg(call_id@, text@)),
    {
        let ghost before = self.transcript();
        self.history.push(Message::tool(call_id, text));
        proof {
            assert(self.transcript() =~= before.push(self.history@.last()@));
        }
    }

    /// The final natural-language reply of a tool turn is appended —
    /// exactly one entry — and its text handed back for display.
    pub fn apply_final(&mut self, reply: Message) -> (text: String)
        ensures
            final(self).transcript() =~= old(self).transcript().push(reply@),
            text@ == spec_reply_text(reply@),
    {
        let ghost before = self.transcript();
        let text = reply.reply_text();
        self.history.push(reply);
        proof {
            assert(self.transcript() =~= before.push(self.history@.last()@));
        }
        text
    }
}

/// The argument text actually sent for a call: the single-line
/// compact rendering when the raw text is one JSON document, else the
/// empty document — a malformed argument never aborts the turn, and
/// what goes to the wire never holds a raw newline.
pub fn tool_arguments(raw: &str) -> (args: String)
    ensures
        is_json_doc(raw@) ==> args@ == canon_of(raw@),
        !is_json_doc(raw@) ==> args@ == "{}"@,
        forall|i: int| 0 <= i < args@.len() ==> args@[i] != '\n' && args@[i] != '\r',
{
    match canonical_json(raw) {
        Some(t) => t,
        None => {
            let empty: String = "{}".to_owned();
            proof {
                reveal_strlit("{}");
                assert(empty@.len() == 2);
                assert(empty@[0] == '{' && empty@[1] == '}');
                assert forall|i: int| 0 <= i < empty@.len() implies empty@[i] != '\n'
                    && empty@[i] != '\r' by {
                    if i == 0 {
                    } else {
                        assert(i == 1);
                    }
                }
            }
            empty
        },
    }
}

/// The text recorded for one tool call's outcome: the result text as
/// is, or the failure rendered behind an "Error: " marker.
pub fn tool_outcome_text(outcome: Result<String, McpError>) -> (t: String)
    ensures
        outcome matches Ok(s) ==> t == s,
        outcome matches Err(e) ==> t@ == "Error: "@ + spec_error_text(e),
{
    match outcome {
        Ok(s) => s,
        Err(e) => {
            let mut t: String = "Error: ".to_owned();
            let detail = e.text();
            t.append(detail.as_str());
            t
        },
    }
}

/// The tool list for the final completion of a tool turn: empty, so
/// the reply can only be natural language.
pub fn final_answer_tools() -> (ts: Vec<Tool>)
    ensures
        ts@.len() == 0,
{
    Vec::new()
}

/// A turn whose reply carries no tool calls: the transcript gains
/// exactly that one entry, everything before it unchanged, and the
/// selected action is a single direct answer carrying the reply's
/// text — so the loop sends exactly one display event and writes
/// nothing to the transport.
pub proof fn lemma_direct_reply_turn(h: Seq<MessageView>, reply: MessageView)
    requires
        reply.tool_calls is None,
    ensures
        h.push(reply).len() == h.len() + 1,
        h.push(reply).last() == reply,
        forall|i: int| 0 <= i < h.len() ==> h.push(reply)[i] == h[i],
        turn_action_of(reply) == TurnActionView::Respond(spec_reply_text(reply)),
{
}

/// A turn whose reply carries `k` tool calls: after the reply, one
/// tool entry per call — in the order received, each carrying that
/// call's id — and then the one final reply; nothing else is added
/// and nothing before the turn changes.
pub proof fn lemma_tool_turn_transcript(
    h: Seq<MessageView>,
    reply: MessageView,
    texts: Seq<Seq<char>>,
    fin: MessageView,
)
    requires
        reply.tool_calls matches Some(cs) && texts.len() == cs.len(),
    ensures
        ({
            let cs = reply.tool_calls.unwrap();
            let after = h.push(reply) + tool_results_msgs(cs, texts) + seq![fin];
            &&& turn_action_of(reply) == TurnActionView::RunTools(cs)
            &&& after.len() == h.len() + 2 + cs.len()
            &&& (forall|i: int| 0 <= i < h.len() ==> after[i] == h[i])
            &&& after[h.len() as int] == reply
            &&& (forall|i: int|
                0 <= i < cs.len() ==> after[h.len() + 1 + i] == tool_msg(cs[i].id, texts[i]))
            &&& (forall|i: int|
                0 <= i < cs.len() ==> after[h.len() + 1 + i].role == Role::Tool && after[h.len() + 1
                    + i].tool_call_id == Some(cs[i].id))
            &&& after.last() == fin
        }),
{
    let cs = reply.tool_calls.unwrap();
    let after = h.push(reply) + tool_results_msgs(cs, texts) + seq![fin];
    assert forall|i: int| 0 <= i < cs.len() implies after[h.len() + 1 + i] == tool_msg(
        cs[i].id,
        texts[i],
    ) by {
        assert(after[h.len() + 1 + i] == tool_results_msgs(cs, texts)[i]);
    }
}

} // verus!
