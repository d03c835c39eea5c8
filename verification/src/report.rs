//! How a failed transfer is judged, and the words in which the end of a
//! session is reported.

use vstd::prelude::*;
use vstd::string::StringExecFns;
use crate::render::RenderError;

verus! {

/// The number of the operating system's error that a read from the
/// pseudo-terminal fails with once the process behind it has ended.
pub const OS_IO_ERROR: i32 = 5;

/// The kind of a failed read or write, as far as the loop tells kinds apart.
#[derive(Clone, Copy, Debug, PartialEq, Eq, Structural)]
pub enum IoKind {
    /// The call was interrupted before it transferred anything.
    Interrupted,
    /// The call would have had to wait.
    WouldBlock,
    /// Any other kind.
    Unlisted,
}

/// A failed read or write: its kind, the number of the operating system's
/// error if there is one, and the kind and the error in words.
#[derive(Clone, Debug, PartialEq, Eq)]
pub struct IoFailure {
    pub kind: IoKind,
    pub os_error: Option<i32>,
    pub kind_text: String,
    pub message: String,
}

/// What a failed transfer means to the loop.
#[derive(Clone, Copy, Debug, PartialEq, Eq, Structural)]
pub enum IoClass {
    /// The process behind the pseudo-terminal has ended: the session ends
    /// without a report.
    ChildExited,
    /// Nothing was transferred this time: the loop goes on.
    Transient,
    /// The session ends with a report of the failure.
    Fatal,
}

/// The meaning of a failed read: the designated error number says that
/// the process has ended, whatever the kind; an interrupted read or one
/// that would wait is passed over; everything else is fatal.
pub open spec fn read_class_of(kind: IoKind, os_error: Option<i32>) -> IoClass {
    if os_error == Some(OS_IO_ERROR) {
        IoClass::ChildExited
    } else if kind == IoKind::Interrupted || kind == IoKind::WouldBlock {
        IoClass::Transient
    } else {
        IoClass::Fatal
    }
}

/// The meaning of a failed write: an interrupted write or one that would
/// wait is tried again; everything else is fatal.
pub open spec fn write_class_of(kind: IoKind) -> IoClass {
    if kind == IoKind::Interrupted || kind == IoKind::WouldBlock {
        IoClass::Transient
    } else {
        IoClass::Fatal
    }
}

/// Judges a failed read from the pseudo-terminal.
pub fn classify_read_error(kind: IoKind, os_error: Option<i32>) -> (class: IoClass)
    ensures
        class == read_class_of(kind, os_error),
{
    let child_exited = match os_error {
        Some(code) => code == OS_IO_ERROR,
        None => false,
    };
    if child_exited {
        IoClass::ChildExited
    } else {
        match kind {
            IoKind::Interrupted => IoClass::Transient,
            IoKind::WouldBlock => IoClass::Transient,
            IoKind::Unlisted => IoClass::Fatal,
        }
    }
}

/// Judges a failed write to the pseudo-terminal.
pub fn classify_write_error(kind: IoKind) -> (class: IoClass)
    ensures
        class == write_class_of(kind),
        class != IoClass::ChildExited,
{
    match kind {
        IoKind::Interrupted => IoClass::Transient,
        IoKind::WouldBlock => IoClass::Transient,
        IoKind::Unlisted => IoClass::Fatal,
    }
}

/// The character of a decimal digit.
pub open spec fn digit_char(d: int) -> char
    recommends
        0 <= d < 10,
{
    "0123456789"@[d]
}

/// A natural number in decimal digits, without leading zeros.
pub open spec fn decimal_of(n: nat) -> Seq<char>
    decreases n,
{
    if n < 10 {
        seq![digit_char(n as int)]
    } else {
        decimal_of(n / 10).push(digit_char((n % 10) as int))
    }
}

/// A number in decimal digits, behind a minus sign where it is negative.
pub open spec fn signed_decimal_of(n: int) -> Seq<char> {
    if n < 0 {
        seq!['-'] + decimal_of((-n) as nat)
    } else {
        decimal_of(n as nat)
    }
}

/// An optional error number in words: `Some(5)` for the number 5, `None`
/// for none.
pub open spec fn os_error_text(code: Option<i32>) -> Seq<char> {
    match code {
        Some(n) => "Some("@ + signed_decimal_of(n as int) + ")"@,
        None => "None"@,
    }
}

/// The text of one decimal digit.
fn digit_text(d: u32) -> (text: &'static str)
    requires
        d < 10,
    ensures
        text@ == seq![digit_char(d as int)],
{
    proof {
        reveal_strlit("0123456789");
        reveal_strlit("0");
        reveal_strlit("1");
        reveal_strlit("2");
        reveal_strlit("3");
        reveal_strlit("4");
        reveal_strlit("5");
        reveal_strlit("6");
        reveal_strlit("7");
        reveal_strlit("8");
        reveal_strlit("9");
    }
    let text = match d {
        0 => "0",
        1 => "1",
        2 => "2",
        3 => "3",
        4 => "4",
        5 => "5",
        6 => "6",
        7 => "7",
        8 => "8",
        _ => "9",
    };
    assert(text@ =~= seq![digit_char(d as int)]);
    text
}

/// Writes a natural number in decimal digits.
pub fn decimal_text(n: u32) -> (text: String)
    ensures
        text@ == decimal_of(n as nat),
    decreases n,
{
    if n < 10 {
        String::from_str(digit_text(n))
    } else {
        let mut text = decimal_text(n / 10);
        text.append(digit_text(n % 10));
        assert(text@ =~= decimal_of(n as nat));
        text
    }
}

/// Writes an optional error number in words.
pub fn describe_os_error(code: Option<i32>) -> (text: String)
    ensures
        text@ == os_error_text(code),
{
    match code {
        Some(n) => {
            let mut text = String::from_str("Some(");
            if n < 0 {
                text.append("-");
                proof {
                    reveal_strlit("-");
                }
                assert("-"@ =~= seq!['-']);
            }
            let magnitude: u32 = if n < 0 {
                (-(n as i64)) as u32
            } else {
                n as u32
            };
            let digits = decimal_text(magnitude);
            text.append(digits.as_str());
            text.append(")");
            assert(text@ =~= os_error_text(code));
            text
        },
        None => String::from_str("None"),
    }
}

/// The word for the kind of colour that a cell was refused for.
pub open spec fn colour_kind_word(err: RenderError) -> Seq<char> {
    match err {
        RenderError::ColourSpecFound => "specification"@,
        RenderError::ColourIndexFound => "index"@,
    }
}

/// The report of a frame that could not be painted.
pub open spec fn colour_report(err: RenderError) -> Seq<char> {
    "encountered a colour "@ + colour_kind_word(err) + ", which isn't currently supported"@
}

/// The report of a failed transfer, from the kind, the error number and
/// the error, each in words.
pub open spec fn failure_report(kind_text: Seq<char>, os_text: Seq<char>, message: Seq<char>) -> Seq<
    char,
> {
    "couldn't read from PTY (error kind: "@ + kind_text + ", os error: "@ + os_text + "): "@
        + message
}

/// The report of a failed transfer.
pub open spec fn io_report(failure: &IoFailure) -> Seq<char> {
    failure_report(failure.kind_text@, os_error_text(failure.os_error), failure.message@)
}

/// The report of a write that accepted nothing.
pub open spec fn stalled_report() -> Seq<char> {
    "PTY is unable to accept bytes"@
}

/// The report of an input that the loop has no use for.
pub open spec fn input_report(description: Seq<char>) -> Seq<char> {
    "unhandled input: "@ + description
}

/// The line that is printed for a session that ended with a report.
pub open spec fn farewell_of(reason: Seq<char>) -> Seq<char> {
    "process exited: "@ + reason
}

/// Words the report of a frame that could not be painted.
pub fn describe_colour_error(err: RenderError) -> (text: String)
    ensures
        text@ == colour_report(err),
{
    let colour_type = match err {
        RenderError::ColourSpecFound => "specification",
        RenderError::ColourIndexFound => "index",
    };
    let mut text = String::from_str("encountered a colour ");
    text.append(colour_type);
    text.append(", which isn't currently supported");
    text
}

/// Words the report of a failed transfer from its parts.
pub fn compose_failure_report(kind_text: &str, os_text: &str, message: &str) -> (text: String)
    ensures
        text@ == failure_report(kind_text@, os_text@, message@),
{
    let mut text = String::from_str("couldn't read from PTY (error kind: ");
    text.append(kind_text);
    text.append(", os error: ");
    text.append(os_text);
    text.append("): ");
    text.append(message);
    text
}

/// Words the report of a failed transfer.
pub fn describe_io_failure(failure: &IoFailure) -> (text: String)
    ensures
        text@ == io_report(failure),
{
    let os_text = describe_os_error(failure.os_error);
    compose_failure_report(failure.kind_text.as_str(), os_text.as_str(), failure.message.as_str())
}

/// Words the report of a write that accepted nothing.
pub fn describe_stalled_write() -> (text: String)
    ensures
        text@ == stalled_report(),
{
    String::from_str("PTY is unable to accept bytes")
}

/// Words the report of an input that the loop has no use for.
pub fn describe_unhandled_input(description: &str) -> (text: String)
    ensures
        text@ == input_report(description@),
{
    let mut text = String::from_str("unhandled input: ");
    text.append(description);
    text
}

/// Words the line that is printed for a session that ended with a report.
pub fn farewell(reason: &str) -> (text: String)
    ensures
        text@ == farewell_of(reason@),
{
    let mut text = String::from_str("process exited: ");
    text.append(reason);
    text
}

} // verus!
