//! The lines that the tools print.
use vstd::prelude::*;
use vstd::string::StringExecFns;

verus! {

/// What every line reporting a call result starts with.
pub const RESPONSE_PREFIX: &'static str = "\t - Proxy response: ";

/// The rule drawn above and below a tool's title.
pub const RULE: &'static str = "|||||||||||||||||||||||||||||||||||||||||||||||||";

/// The character of a decimal digit.
pub open spec fn digit_char(d: nat) -> char {
    (('0' as u32) + d) as char
}

/// The decimal representation of a number, without leading zeros.
pub open spec fn decimal(n: nat) -> Seq<char>
    decreases n,
{
    if n < 10 {
        seq![digit_char(n)]
    } else {
        decimal(n / 10).push(digit_char(n % 10))
    }
}

/// How a boolean is printed.
pub open spec fn bool_text(b: bool) -> Seq<char> {
    if b {
        "true"@
    } else {
        "false"@
    }
}

/// The heading a tool prints before anything else.
pub open spec fn banner(title: Seq<char>) -> Seq<char> {
    "\n"@ + RULE@ + "\n-|- "@ + title + " -|-\n"@ + RULE@
}

/// The line reporting a failed call, with the error's message.
pub open spec fn error_line(message: Seq<char>) -> Seq<char> {
    RESPONSE_PREFIX@ + "Error "@ + message
}

/// The line reporting the target's version.
pub open spec fn version_line(version: u64) -> Seq<char> {
    RESPONSE_PREFIX@ + "target contract version "@ + decimal(version as nat)
}

/// The line reporting whether the target is paused.
pub open spec fn paused_line(paused: bool) -> Seq<char> {
    RESPONSE_PREFIX@ + "target paused = "@ + bool_text(paused)
}

/// The line reporting a byte that the target returned.
pub open spec fn value_line(value: u8) -> Seq<char> {
    RESPONSE_PREFIX@ + decimal(value as nat)
}

/// A single decimal digit as text.
fn digit_str(d: u64) -> (r: &'static str)
    requires
        d < 10,
    ensures
        r@ == seq![digit_char(d as nat)],
{
    proof {
        reveal_strlit("0");
        reveal_strlit("1");
        reveal_strlit("2");
        reveal_strlit("3");
        reveal_strlit("4");
        reveal_strlit("5");
        reveal_strlit("6");
        reveal_strlit("7");
        reveal_strlit("8");
        reveal_strlit("9");
    }
    let r = match d {
        0 => "0",
        1 => "1",
        2 => "2",
        3 => "3",
        4 => "4",
        5 => "5",
        6 => "6",
        7 => "7",
        8 => "8",
        _ => "9",
    };
    assert(r@ =~= seq![digit_char(d as nat)]);
    r
}

/// The decimal representation of `n`.
pub fn decimal_text(n: u64) -> (r: String)
    ensures
        r@ == decimal(n as nat),
    decreases n,
{
    if n < 10 {
        String::from_str(digit_str(n))
    } else {
        let mut s = decimal_text(n / 10);
        s.append(digit_str(n % 10));
        s
    }
}

/// How `b` is printed.
pub fn bool_str(b: bool) -> (r: &'static str)
    ensures
        r@ == bool_text(b),
{
    if b {
        "true"
    } else {
        "false"
    }
}

/// The heading of a tool with the given title.
pub fn banner_text(title: &str) -> (r: String)
    ensures
        r@ == banner(title@),
{
    let mut s = String::from_str("\n");
    s.append(RULE);
    s.append("\n-|- ");
    s.append(title);
    s.append(" -|-\n");
    s.append(RULE);
    s
}

/// The line reporting a failed call with the given message.
pub fn error_line_text(message: &str) -> (r: String)
    ensures
        r@ == error_line(message@),
{
    let mut s = String::from_str(RESPONSE_PREFIX);
    s.append("Error ");
    s.append(message);
    s
}

/// The line reporting the target's version.
pub fn version_line_text(version: u64) -> (r: String)
    ensures
        r@ == version_line(version),
{
    let mut s = String::from_str(RESPONSE_PREFIX);
    s.append("target contract version ");
    let digits = decimal_text(version);
    s.append(digits.as_str());
    s
}

/// The line reporting whether the target is paused.
pub fn paused_line_text(paused: bool) -> (r: String)
    ensures
        r@ == paused_line(paused),
{
    let mut s = String::from_str(RESPONSE_PREFIX);
    s.append("target paused = ");
    s.append(bool_str(paused));
    s
}

/// The line reporting a byte that the target returned.
pub fn value_line_text(value: u8) -> (r: String)
    ensures
        r@ == value_line(value),
{
    let mut s = String::from_str(RESPONSE_PREFIX);
    let digits = decimal_text(value as u64);
    s.append(digits.as_str());
    s
}

} // verus!
