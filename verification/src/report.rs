//! The text of the report: one header, one line per test.

use crate::classify::{Classification, Ruling, Verdict};
use crate::text::{decimal, render_decimal};
use vstd::prelude::*;
use vstd::string::*;

verus! {

/// The colour code in front of the marker of a test that passed.
pub open spec fn pass_code() -> Seq<char> {
    "\x1b[34m"@
}

/// The colour code in front of the marker of a test that failed.
pub open spec fn fail_code() -> Seq<char> {
    "\x1b[31m"@
}

/// The colour code in front of the marker of a test that was skipped.
pub open spec fn skip_code() -> Seq<char> {
    "\x1b[33m"@
}

/// The code that ends a coloured stretch.
pub open spec fn reset_code() -> Seq<char> {
    "\x1b[0m"@
}

/// A marker, wrapped in a colour code and the reset code where colour is
/// asked for.
pub open spec fn paint(colored: bool, code: Seq<char>, marker: Seq<char>) -> Seq<char> {
    if colored {
        code + marker + reset_code()
    } else {
        marker
    }
}

/// The line that opens the report: how many tests the run counts.
pub open spec fn header(total: nat) -> Seq<char> {
    "running "@ + decimal(total) + " tests\n"@
}

/// The start of a test's line: its name and the dots that lead to the marker.
pub open spec fn prefix(name: Seq<char>) -> Seq<char> {
    name + " ... "@
}

/// The marker of a test that was invoked: `OK` or `FAIL`, then the message
/// where there is one.
pub open spec fn verdict_marker(ruling: Ruling) -> Seq<char> {
    let word = match ruling.verdict {
        Verdict::Pass => "OK"@,
        Verdict::Fail => "FAIL"@,
    };
    match ruling.message {
        Some(message) => word + ": "@ + message,
        None => word,
    }
}

/// The colour code that goes with a verdict.
pub open spec fn verdict_code(verdict: Verdict) -> Seq<char> {
    match verdict {
        Verdict::Pass => pass_code(),
        Verdict::Fail => fail_code(),
    }
}

/// What follows the prefix on the line of a test that was invoked: the
/// marker and the end of the line.
pub open spec fn verdict_tail(ruling: Ruling, colored: bool) -> Seq<char> {
    paint(colored, verdict_code(ruling.verdict), verdict_marker(ruling)) + "\n"@
}

/// The whole line of a test that was invoked.
pub open spec fn verdict_line(name: Seq<char>, ruling: Ruling, colored: bool) -> Seq<char> {
    prefix(name) + verdict_tail(ruling, colored)
}

/// The marker of a skipped test: `Skipped`, then the reason where one was
/// given.
pub open spec fn skip_marker(reason: Option<Seq<char>>) -> Seq<char> {
    match reason {
        Some(reason) => "Skipped: "@ + reason,
        None => "Skipped"@,
    }
}

/// The whole line of a skipped test.
pub open spec fn skip_line(name: Seq<char>, reason: Option<Seq<char>>, colored: bool) -> Seq<
    char,
> {
    prefix(name) + paint(colored, skip_code(), skip_marker(reason)) + "\n"@
}

/// Appends a marker to `line`, in colour where asked for.
fn push_painted(line: &mut String, colored: bool, code: &str, marker: &str)
    ensures
        final(line)@ == old(line)@ + paint(colored, code@, marker@),
{
    if colored {
        line.append(code);
        line.append(marker);
        line.append("\x1b[0m");
        assert(line@ =~= old(line)@ + paint(colored, code@, marker@));
    } else {
        line.append(marker);
    }
}

/// Renders the line that opens the report.
pub fn render_header(total: usize) -> (s: String)
    ensures
        s@ == header(total as nat),
{
    let mut s = String::from_str("running ");
    s.append(render_decimal(total).as_str());
    s.append(" tests\n");
    s
}

/// Renders the start of a test's line.
pub fn render_prefix(name: &str) -> (s: String)
    ensures
        s@ == prefix(name@),
{
    let mut s = String::from_str(name);
    s.append(" ... ");
    s
}

/// Renders what follows the prefix on the line of a test that was invoked.
pub fn render_verdict_tail(classification: &Classification, colored: bool) -> (s: String)
    ensures
        s@ == verdict_tail(classification@, colored),
{
    let mut marker = String::from_str(
        match classification.verdict {
            Verdict::Pass => "OK",
            Verdict::Fail => "FAIL",
        },
    );
    match &classification.message {
        Some(message) => {
            marker.append(": ");
            marker.append(message.as_str());
        },
        None => {},
    }
    assert(marker@ == verdict_marker(classification@));
    let code = match classification.verdict {
        Verdict::Pass => "\x1b[34m",
        Verdict::Fail => "\x1b[31m",
    };
    let mut s = String::new();
    push_painted(&mut s, colored, code, marker.as_str());
    s.append("\n");
    assert(s@ =~= verdict_tail(classification@, colored));
    s
}

/// Renders the whole line of a skipped test.
pub fn render_skip_line(name: &str, reason: Option<&str>, colored: bool) -> (s: String)
    ensures
        s@ == skip_line(
            name@,
            match reason {
                Some(reason) => Some(reason@),
                None => None,
            },
            colored,
        ),
{
    let mut marker = String::from_str("Skipped");
    match reason {
        Some(reason) => {
            marker.append(": ");
            marker.append(reason);
            proof {
                reveal_strlit("Skipped");
                reveal_strlit(": ");
                reveal_strlit("Skipped: ");
                assert(marker@ =~= "Skipped: "@ + reason@);
            }
        },
        None => {},
    }
    let mut s = render_prefix(name);
    push_painted(&mut s, colored, "\x1b[33m", marker.as_str());
    s.append("\n");
    s
}

} // verus!
