//! Diagnostic lines emitted around the supervised process's lifecycle, and
//! the decimal rendering of its PID that they embed.

use vstd::prelude::*;
use vstd::string::StringExecFns;

verus! {

/// The character for a single decimal digit.
pub open spec fn digit_char(d: nat) -> char {
    if d == 0 {
        '0'
    } else if d == 1 {
        '1'
    } else if d == 2 {
        '2'
    } else if d == 3 {
        '3'
    } else if d == 4 {
        '4'
    } else if d == 5 {
        '5'
    } else if d == 6 {
        '6'
    } else if d == 7 {
        '7'
    } else if d == 8 {
        '8'
    } else {
        '9'
    }
}

/// The decimal rendering of a number, most significant digit first and
/// without leading zeros (a lone zero for zero itself).
pub open spec fn decimal_digits(n: nat) -> Seq<char>
    decreases n,
{
    if n < 10 {
        seq![digit_char(n)]
    } else {
        decimal_digits(n / 10) + seq![digit_char(n % 10)]
    }
}

/// The one-character string for a single decimal digit.
fn digit_str(d: u32) -> (s: &'static str)
    requires
        d < 10,
    ensures
        s@ == seq![digit_char(d as nat)],
{
    proof {
        reveal_strlit("0");
        reveal_strlit("1");
        reveal_strlit("2");
        reveal_strlit("3");
        reveal_strlit("4");
        reveal_strlit("5");
        reveal_strlit("6");
        reveal_strlit("7");
        reveal_strlit("8");
        reveal_strlit("9");
    }
    let s: &'static str = match d {
        0 => "0",
        1 => "1",
        2 => "2",
        3 => "3",
        4 => "4",
        5 => "5",
        6 => "6",
        7 => "7",
        8 => "8",
        _ => "9",
    };
    proof {
        assert(s@ =~= seq![digit_char(d as nat)]);
    }
    s
}

/// Render a number in decimal, as [`decimal_digits`] describes it.
pub fn u32_decimal(n: u32) -> (s: String)
    ensures
        s@ == decimal_digits(n as nat),
    decreases n,
{
    if n < 10 {
        String::from_str(digit_str(n))
    } else {
        let prefix = u32_decimal(n / 10);
        prefix.concat(digit_str(n % 10))
    }
}

/// The announcement printed before the spawn attempt, with the resolved path.
pub open spec fn spec_startup_line(path: Seq<char>) -> Seq<char> {
    "Starting Node API server at: "@ + path
}

/// The success announcement, with the child's PID in decimal.
pub open spec fn spec_success_line(pid: u32) -> Seq<char> {
    "Node API server started successfully (PID: "@ + decimal_digits(pid as nat) + ")"@
}

/// The failure announcement, with the spawn error's own text.
pub open spec fn spec_failure_line(detail: Seq<char>) -> Seq<char> {
    "Failed to start Node API server: "@ + detail
}

/// The announcement for a second start attempt while a child is tracked.
pub open spec fn spec_rejected_line(pid: u32) -> Seq<char> {
    "Duplicate API server start rejected (PID: "@ + decimal_digits(pid as nat) + ")"@
}

/// The relative path of the server entry script.
pub open spec fn spec_server_script_path() -> Seq<char> {
    "./server/crm-export-server.cjs"@
}

pub fn startup_line(path: &str) -> (s: String)
    ensures
        s@ == spec_startup_line(path@),
{
    let mut s = String::from_str("Starting Node API server at: ");
    s.append(path);
    s
}

pub fn success_line(pid: u32) -> (s: String)
    ensures
        s@ == spec_success_line(pid),
{
    let mut s = String::from_str("Node API server started successfully (PID: ");
    let digits = u32_decimal(pid);
    s.append(digits.as_str());
    s.append(")");
    s
}

pub fn failure_line(detail: &str) -> (s: String)
    ensures
        s@ == spec_failure_line(detail@),
{
    let mut s = String::from_str("Failed to start Node API server: ");
    s.append(detail);
    s
}

pub fn rejected_line(pid: u32) -> (s: String)
    ensures
        s@ == spec_rejected_line(pid),
{
    let mut s = String::from_str("Duplicate API server start rejected (PID: ");
    let digits = u32_decimal(pid);
    s.append(digits.as_str());
    s.append(")");
    s
}

/// The announcement emitted when the main window is closing.
pub fn close_line() -> (s: String)
    ensures
        s@ == "Window closing, cleaning up API server..."@,
{
    String::from_str("Window closing, cleaning up API server...")
}

/// Resolve the server entry script for the given build mode. Debug and
/// release builds currently resolve to the same relative path, so the result
/// does not depend on the mode; keeping the flag in the signature makes the
/// resolution strategy explicit.
pub fn resolve_server_path(debug_mode: bool) -> (s: String)
    ensures
        s@ == spec_server_script_path(),
{
    if debug_mode {
        String::from_str("./server/crm-export-server.cjs")
    } else {
        String::from_str("./server/crm-export-server.cjs")
    }
}

} // verus!
