//! Rendering of numbers and of the fixed log texts the agent emits.

use vstd::prelude::*;

verus! {

/// The decimal digit character for `d`.
pub open spec fn digit_char(d: nat) -> char
    recommends
        d < 10,
{
    ((48 + d) as u8) as char
}

/// The decimal rendering of `n`, most significant digit first.
pub open spec fn dec_chars(n: nat) -> Seq<char>
    decreases n,
{
    if n < 10 {
        seq![digit_char(n)]
    } else {
        dec_chars(n / 10) + seq![digit_char(n % 10)]
    }
}

/// A one-character string holding the digit for `d`.
fn digit_string(d: u64) -> (s: String)
    requires
        d < 10,
    ensures
        s@ =~= seq![digit_char(d as nat)],
{
    let s: String = match d {
        0 => "0".to_owned(),
        1 => "1".to_owned(),
        2 => "2".to_owned(),
        3 => "3".to_owned(),
        4 => "4".to_owned(),
        5 => "5".to_owned(),
        6 => "6".to_owned(),
        7 => "7".to_owned(),
        8 => "8".to_owned(),
        _ => "9".to_owned(),
    };
    proof {
        reveal_strlit("0");
        reveal_strlit("1");
        reveal_strlit("2");
        reveal_strlit("3");
        reveal_strlit("4");
        reveal_strlit("5");
        reveal_strlit("6");
        reveal_strlit("7");
        reveal_strlit("8");
        reveal_strlit("9");
    }
    s
}

/// Renders `n` in decimal.
pub fn u64_to_string(n: u64) -> (s: String)
    ensures
        s@ == dec_chars(n as nat),
    decreases n,
{
    if n < 10 {
        digit_string(n)
    } else {
        let mut s = u64_to_string(n / 10);
        let d = digit_string(n % 10);
        s.append(d.as_str());
        proof {
            assert(s@ =~= dec_chars((n / 10) as nat) + seq![digit_char((n % 10) as nat)]);
        }
        s
    }
}

/// The decimal rendering of a possibly negative code.
pub open spec fn dec_int_chars(c: int) -> Seq<char> {
    if c >= 0 {
        dec_chars(c as nat)
    } else {
        seq!['-'] + dec_chars((-c) as nat)
    }
}

/// Renders `c` in decimal, with a leading minus sign when negative.
pub fn i64_to_string(c: i64) -> (s: String)
    ensures
        s@ == dec_int_chars(c as int),
{
    if c >= 0 {
        u64_to_string(c as u64)
    } else {
        // -(c + 1) stays within the signed range even for the least value.
        let mag: u64 = ((-(c + 1)) as u64) + 1;
        assert(mag as int == -(c as int));
        let mut s: String = "-".to_owned();
        let d = u64_to_string(mag);
        s.append(d.as_str());
        proof {
            reveal_strlit("-");
            assert(s@ =~= seq!['-'] + dec_chars((-(c as int)) as nat));
        }
        s
    }
}

/// `prefix + middle`: glue for the fixed log texts.
fn glue2(prefix: &str, middle: &str) -> (s: String)
    ensures
        s@ == prefix@ + middle@,
{
    let s: String = prefix.to_owned();
    s.concat(middle)
}

/// The startup log line.
pub fn startup_text() -> (s: String)
    ensures
        s@ == "Agent System Online."@,
{
    "Agent System Online.".to_owned()
}

/// The log line emitted while a completion is pending.
pub fn thinking_text() -> (s: String)
    ensures
        s@ == "Thinking..."@,
{
    "Thinking...".to_owned()
}

/// The log line for a finished tool discovery.
pub fn tools_discovered_text(n: u64) -> (s: String)
    ensures
        s@ == "Tools Discovered: "@ + dec_chars(n as nat),
{
    let count = u64_to_string(n);
    glue2("Tools Discovered: ", count.as_str())
}

/// The log line for a reply that requests tool calls.
pub fn tools_requested_text(n: u64) -> (s: String)
    ensures
        s@ == "Tools Requested: "@ + dec_chars(n as nat),
{
    let count = u64_to_string(n);
    glue2("Tools Requested: ", count.as_str())
}

/// The log line for one tool invocation.
pub fn exec_text(name: &str, args: &str) -> (s: String)
    ensures
        s@ == "EXEC: "@ + name@ + "("@ + args@ + ")"@,
{
    let s: String = "EXEC: ".to_owned();
    let s = s.concat(name);
    let s = s.concat("(");
    let s = s.concat(args);
    let s = s.concat(")");
    proof {
        assert(s@ =~= "EXEC: "@ + name@ + "("@ + args@ + ")"@);
    }
    s
}

/// The log line for one tool result.
pub fn result_text(text: &str) -> (s: String)
    ensures
        s@ == "RESULT: "@ + text@,
{
    glue2("RESULT: ", text)
}

/// The error event for a failed conversation turn.
pub fn cycle_error_text(detail: &str) -> (s: String)
    ensures
        s@ == "Cycle Error: "@ + detail@,
{
    glue2("Cycle Error: ", detail)
}

/// The error event for a failed tool discovery at startup.
pub fn critical_failure_text(detail: &str) -> (s: String)
    ensures
        s@ == "Critical Tool Failure: "@ + detail@,
{
    glue2("Critical Tool Failure: ", detail)
}

} // verus!
