//! The driver's diagnostic messages: what to call their source, type and
//! severity, how loud to log them, and the line that is logged.

use vstd::prelude::*;
use vstd::string::StringExecFns;

verus! {

/// `GL_DEBUG_SOURCE_API`.
pub const DEBUG_SOURCE_API: u32 = 0x8246;

/// `GL_DEBUG_SOURCE_WINDOW_SYSTEM`.
pub const DEBUG_SOURCE_WINDOW_SYSTEM: u32 = 0x8247;

/// `GL_DEBUG_SOURCE_SHADER_COMPILER`.
pub const DEBUG_SOURCE_SHADER_COMPILER: u32 = 0x8248;

/// `GL_DEBUG_SOURCE_THIRD_PARTY`.
pub const DEBUG_SOURCE_THIRD_PARTY: u32 = 0x8249;

/// `GL_DEBUG_SOURCE_APPLICATION`.
pub const DEBUG_SOURCE_APPLICATION: u32 = 0x824A;

/// `GL_DEBUG_SOURCE_OTHER`.
pub const DEBUG_SOURCE_OTHER: u32 = 0x824B;

/// `GL_DEBUG_TYPE_ERROR`.
pub const DEBUG_TYPE_ERROR: u32 = 0x824C;

/// `GL_DEBUG_TYPE_DEPRECATED_BEHAVIOR`.
pub const DEBUG_TYPE_DEPRECATED_BEHAVIOR: u32 = 0x824D;

/// `GL_DEBUG_TYPE_UNDEFINED_BEHAVIOR`.
pub const DEBUG_TYPE_UNDEFINED_BEHAVIOR: u32 = 0x824E;

/// `GL_DEBUG_TYPE_PORTABILITY`.
pub const DEBUG_TYPE_PORTABILITY: u32 = 0x824F;

/// `GL_DEBUG_TYPE_PERFORMANCE`.
pub const DEBUG_TYPE_PERFORMANCE: u32 = 0x8250;

/// `GL_DEBUG_TYPE_MARKER`.
pub const DEBUG_TYPE_MARKER: u32 = 0x8268;

/// `GL_DEBUG_TYPE_PUSH_GROUP`.
pub const DEBUG_TYPE_PUSH_GROUP: u32 = 0x8269;

/// `GL_DEBUG_TYPE_POP_GROUP`.
pub const DEBUG_TYPE_POP_GROUP: u32 = 0x826A;

/// `GL_DEBUG_SEVERITY_HIGH`.
pub const DEBUG_SEVERITY_HIGH: u32 = 0x9146;

/// `GL_DEBUG_SEVERITY_MEDIUM`.
pub const DEBUG_SEVERITY_MEDIUM: u32 = 0x9147;

/// `GL_DEBUG_SEVERITY_LOW`.
pub const DEBUG_SEVERITY_LOW: u32 = 0x9148;

/// `GL_DEBUG_SEVERITY_NOTIFICATION`.
pub const DEBUG_SEVERITY_NOTIFICATION: u32 = 0x826B;

/// How loud a line is logged.
#[derive(Clone, Copy, Debug, PartialEq, Eq, Structural)]
pub enum Level {
    Error,
    Warn,
    Info,
    Debug,
}

/// A line for the log.
#[derive(Debug, PartialEq, Eq)]
pub struct Record {
    /// How loud the line is logged.
    pub level: Level,
    /// The line.
    pub text: String,
}

/// The name of a message's source.
pub open spec fn source_text(source: u32) -> Seq<char> {
    if source == DEBUG_SOURCE_API {
        "API"@
    } else if source == DEBUG_SOURCE_APPLICATION {
        "APPLICATION"@
    } else if source == DEBUG_SOURCE_SHADER_COMPILER {
        "SHADER_COMPILER"@
    } else if source == DEBUG_SOURCE_THIRD_PARTY {
        "THIRD_PARTY"@
    } else if source == DEBUG_SOURCE_WINDOW_SYSTEM {
        "WINDOW_SYSTEM"@
    } else if source == DEBUG_SOURCE_OTHER {
        "OTHER"@
    } else {
        "!UNKNOWN"@
    }
}

/// The name of a message's type.
pub open spec fn kind_text(kind: u32) -> Seq<char> {
    if kind == DEBUG_TYPE_DEPRECATED_BEHAVIOR {
        "DEPRECATED_BEHAVIOR"@
    } else if kind == DEBUG_TYPE_ERROR {
        "ERROR"@
    } else if kind == DEBUG_TYPE_MARKER {
        "MARKER"@
    } else if kind == DEBUG_TYPE_PERFORMANCE {
        "PERFORMANCE"@
    } else if kind == DEBUG_TYPE_PORTABILITY {
        "PORTABILITY"@
    } else if kind == DEBUG_TYPE_PUSH_GROUP {
        "PUSH_GROUP"@
    } else if kind == DEBUG_TYPE_POP_GROUP {
        "POP_GROUP"@
    } else if kind == DEBUG_TYPE_UNDEFINED_BEHAVIOR {
        "UNDEFINED_BEHAVIOR"@
    } else {
        "!UNKNOWN"@
    }
}

/// The name of a message's severity.
pub open spec fn severity_text(severity: u32) -> Seq<char> {
    if severity == DEBUG_SEVERITY_HIGH {
        "HIGH"@
    } else if severity == DEBUG_SEVERITY_MEDIUM {
        "MEDIUM"@
    } else if severity == DEBUG_SEVERITY_LOW {
        "LOW"@
    } else if severity == DEBUG_SEVERITY_NOTIFICATION {
        "NOTIFICATION"@
    } else {
        "!UNKNOWN"@
    }
}

/// How loud a message of a severity is logged: high as an error, medium and
/// low as a warning, a notification as information, anything else for
/// debugging.
pub open spec fn severity_level(severity: u32) -> Level {
    if severity == DEBUG_SEVERITY_HIGH {
        Level::Error
    } else if severity == DEBUG_SEVERITY_MEDIUM || severity == DEBUG_SEVERITY_LOW {
        Level::Warn
    } else if severity == DEBUG_SEVERITY_NOTIFICATION {
        Level::Info
    } else {
        Level::Debug
    }
}

/// The character of a decimal digit.
pub open spec fn digit(d: nat) -> char {
    if d == 0 {
        '0'
    } else if d == 1 {
        '1'
    } else if d == 2 {
        '2'
    } else if d == 3 {
        '3'
    } else if d == 4 {
        '4'
    } else if d == 5 {
        '5'
    } else if d == 6 {
        '6'
    } else if d == 7 {
        '7'
    } else if d == 8 {
        '8'
    } else {
        '9'
    }
}

/// A number in decimal, without leading zeros.
pub open spec fn decimal(n: nat) -> Seq<char>
    decreases n,
{
    if n < 10 {
        seq![digit(n)]
    } else {
        decimal(n / 10).push(digit(n % 10))
    }
}

/// The line that is logged for a message.
pub open spec fn message_text(
    source: u32,
    kind: u32,
    id: u32,
    severity: u32,
    message: Seq<char>,
) -> Seq<char> {
    "OpenGL: [source: "@ + source_text(source) + "][type: "@ + kind_text(kind) + "][severity: "@
        + severity_text(severity) + "][id: "@ + decimal(id as nat) + "] "@ + message
}

/// The line that is logged for a message that cannot be read.
pub open spec fn unreadable_text() -> Seq<char> {
    "OpenGL: Failed to convert message from pointer to str"@
}

/// The name of a message's source; `!UNKNOWN` for a code that is none.
pub fn source_name(source: u32) -> (name: &'static str)
    ensures
        name@ == source_text(source),
{
    if source == DEBUG_SOURCE_API {
        "API"
    } else if source == DEBUG_SOURCE_APPLICATION {
        "APPLICATION"
    } else if source == DEBUG_SOURCE_SHADER_COMPILER {
        "SHADER_COMPILER"
    } else if source == DEBUG_SOURCE_THIRD_PARTY {
        "THIRD_PARTY"
    } else if source == DEBUG_SOURCE_WINDOW_SYSTEM {
        "WINDOW_SYSTEM"
    } else if source == DEBUG_SOURCE_OTHER {
        "OTHER"
    } else {
        "!UNKNOWN"
    }
}

/// The name of a message's type; `!UNKNOWN` for a code that has no name here.
pub fn kind_name(kind: u32) -> (name: &'static str)
    ensures
        name@ == kind_text(kind),
{
    if kind == DEBUG_TYPE_DEPRECATED_BEHAVIOR {
        "DEPRECATED_BEHAVIOR"
    } else if kind == DEBUG_TYPE_ERROR {
        "ERROR"
    } else if kind == DEBUG_TYPE_MARKER {
        "MARKER"
    } else if kind == DEBUG_TYPE_PERFORMANCE {
        "PERFORMANCE"
    } else if kind == DEBUG_TYPE_PORTABILITY {
        "PORTABILITY"
    } else if kind == DEBUG_TYPE_PUSH_GROUP {
        "PUSH_GROUP"
    } else if kind == DEBUG_TYPE_POP_GROUP {
        "POP_GROUP"
    } else if kind == DEBUG_TYPE_UNDEFINED_BEHAVIOR {
        "UNDEFINED_BEHAVIOR"
    } else {
        "!UNKNOWN"
    }
}

/// The name of a message's severity; `!UNKNOWN` for a code that is none.
pub fn severity_name(severity: u32) -> (name: &'static str)
    ensures
        name@ == severity_text(severity),
{
    if severity == DEBUG_SEVERITY_HIGH {
        "HIGH"
    } else if severity == DEBUG_SEVERITY_MEDIUM {
        "MEDIUM"
    } else if severity == DEBUG_SEVERITY_LOW {
        "LOW"
    } else if severity == DEBUG_SEVERITY_NOTIFICATION {
        "NOTIFICATION"
    } else {
        "!UNKNOWN"
    }
}

/// How loud a message of a severity is logged.
pub fn level(severity: u32) -> (level: Level)
    ensures
        level == severity_level(severity),
{
    if severity == DEBUG_SEVERITY_HIGH {
        Level::Error
    } else if severity == DEBUG_SEVERITY_MEDIUM || severity == DEBUG_SEVERITY_LOW {
        Level::Warn
    } else if severity == DEBUG_SEVERITY_NOTIFICATION {
        Level::Info
    } else {
        Level::Debug
    }
}

/// The text of a decimal digit.
fn digit_str(d: u32) -> (text: &'static str)
    requires
        d < 10,
    ensures
        text@ == seq![digit(d as nat)],
{
    proof {
        reveal_strlit("0");
        reveal_strlit("1");
        reveal_strlit("2");
        reveal_strlit("3");
        reveal_strlit("4");
        reveal_strlit("5");
        reveal_strlit("6");
        reveal_strlit("7");
        reveal_strlit("8");
        reveal_strlit("9");
    }
    let text = if d == 0 {
        "0"
    } else if d == 1 {
        "1"
    } else if d == 2 {
        "2"
    } else if d == 3 {
        "3"
    } else if d == 4 {
        "4"
    } else if d == 5 {
        "5"
    } else if d == 6 {
        "6"
    } else if d == 7 {
        "7"
    } else if d == 8 {
        "8"
    } else {
        "9"
    };
    assert(text@ =~= seq![digit(d as nat)]);
    text
}

/// Appends a number in decimal to a text.
fn push_decimal(text: &mut String, n: u32)
    ensures
        final(text)@ == old(text)@ + decimal(n as nat),
    decreases n,
{
    if n >= 10 {
        push_decimal(text, n / 10);
    }
    text.append(digit_str(n % 10));
    assert(text@ =~= old(text)@ + decimal(n as nat));
}

/// Makes the log line for a diagnostic message of the driver.
///
/// A message that could be read is logged with the names of its source, type
/// and severity and with its number, as loud as its severity asks for. A
/// message that could not be read gives an error line that says so.
pub fn gl_debug_callback(
    source: u32,
    type_: u32,
    id: u32,
    severity: u32,
    message: Option<&str>,
) -> (record: Record)
    ensures
        match message {
            Some(message) => record.level == severity_level(severity) && record.text@
                == message_text(source, type_, id, severity, message@),
            None => record.level == Level::Error && record.text@ == unreadable_text(),
        },
{
    match message {
        Some(message) => {
            let mut text = String::from_str("OpenGL: [source: ");
            text.append(source_name(source));
            text.append("][type: ");
            text.append(kind_name(type_));
            text.append("][severity: ");
            text.append(severity_name(severity));
            text.append("][id: ");
            push_decimal(&mut text, id);
            text.append("] ");
            text.append(message);
            assert(text@ =~= message_text(source, type_, id, severity, message@));
            Record { level: level(severity), text }
        },
        None => Record {
            level: Level::Error,
            text: String::from_str("OpenGL: Failed to convert message from pointer to str"),
        },
    }
}

} // verus!
