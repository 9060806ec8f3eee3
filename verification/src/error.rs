//! The diagnostics record: what a menu reports when its selection has no
//! button, and how such a record reads as one line of text.

use vstd::prelude::*;
use vstd::string::StringExecFns;

verus! {

/// How severe a diagnostics record is. None of them stops the frame.
#[derive(Clone, Copy, Debug, PartialEq, Eq, Structural)]
pub enum ErrorLevel {
    Error,
    Warning,
    Info,
    Debug,
}

impl ErrorLevel {
    /// The level's name in capitals.
    pub open spec fn label(self) -> Seq<char> {
        match self {
            ErrorLevel::Error => "ERROR"@,
            ErrorLevel::Warning => "WARNING"@,
            ErrorLevel::Info => "INFO"@,
            ErrorLevel::Debug => "DEBUG"@,
        }
    }

    /// The level's name in capitals, as it stands in a record's line.
    pub fn to_string(&self) -> (text: String)
        ensures
            text@ == self.label(),
    {
        match self {
            ErrorLevel::Error => String::from_str("ERROR"),
            ErrorLevel::Warning => String::from_str("WARNING"),
            ErrorLevel::Info => String::from_str("INFO"),
            ErrorLevel::Debug => String::from_str("DEBUG"),
        }
    }
}

/// Whether `id` carries the marks of a randomly drawn identifier: version 4
/// in bits 76 to 79, and the variant `10` in bits 62 and 63.
pub open spec fn is_random_id(id: u128) -> bool {
    id & 0x0000_0000_0000_f000_c000_0000_0000_0000 == 0x0000_0000_0000_4000_8000_0000_0000_0000
}

/// The sixteen lower-case hexadecimal digits, by value.
pub open spec fn hex_digits() -> Seq<char> {
    seq!['0', '1', '2', '3', '4', '5', '6', '7', '8', '9', 'a', 'b', 'c', 'd', 'e', 'f']
}

/// The character at place `i` of an identifier's text: a hyphen at the
/// places 8, 13, 18 and 23, and elsewhere the next hexadecimal digit of `id`,
/// the most significant first.
pub open spec fn hyphenated_char(id: u128, i: int) -> char {
    if i == 8 || i == 13 || i == 18 || i == 23 {
        '-'
    } else {
        let digit = if i < 8 {
            i
        } else if i < 13 {
            i - 1
        } else if i < 18 {
            i - 2
        } else if i < 23 {
            i - 3
        } else {
            i - 4
        };
        hex_digits()[((id >> ((4 * (31 - digit)) as u128)) & 0xf) as int]
    }
}

/// An identifier's text: its 32 hexadecimal digits in lower case, in groups
/// of 8, 4, 4, 4 and 12 with a hyphen between two groups.
pub open spec fn hyphenated_text(id: u128) -> Seq<char> {
    Seq::new(36, |i: int| hyphenated_char(id, i))
}

/// The text of a randomly drawn identifier shows its marks: the third group
/// starts with `4`, and the fourth with `8`, `9`, `a` or `b`.
pub proof fn lemma_random_id_shows_in_text(id: u128)
    requires
        is_random_id(id),
    ensures
        hyphenated_text(id).len() == 36,
        hyphenated_text(id)[14] == '4',
        hyphenated_text(id)[19] == '8' || hyphenated_text(id)[19] == '9' || hyphenated_text(id)[19]
            == 'a' || hyphenated_text(id)[19] == 'b',
{
    assert(id & 0x0000_0000_0000_f000_c000_0000_0000_0000 == 0x0000_0000_0000_4000_8000_0000_0000_0000
        ==> (id >> 76) & 0xf == 4 && 8 <= (id >> 60) & 0xf <= 11) by (bit_vector);
}

/// Draws a fresh identifier with `uuid::Uuid::new_v4` and hands it out as its
/// 128-bit value (`Uuid::as_u128`). Not proved: that the outside function
/// sets the version to 4 and the variant to `10`, whatever the random bits
/// are. The outside function panics when the operating system gives no
/// random bytes.
#[verifier::external_body]
fn random_id() -> (id: u128)
    ensures
        is_random_id(id),
{
    uuid::Uuid::new_v4().as_u128()
}

/// Writes an identifier out through the `Display` of `uuid::Uuid`, made from
/// its 128-bit value with `Uuid::from_u128`. Not proved: that the outside
/// crate writes the hyphenated lower-case form that `hyphenated_text` states.
#[verifier::external_body]
fn hyphenated(id: u128) -> (text: String)
    ensures
        text@ == hyphenated_text(id),
{
    uuid::Uuid::from_u128(id).to_string()
}

/// Reads the clock with `chrono::Utc::now` and writes the moment out with
/// `DateTime::to_rfc3339`. Nothing is claimed of the text: it depends on the
/// clock. The outside function panics when the clock stands before 1970.
#[verifier::external_body]
fn now_rfc3339() -> (text: String) {
    chrono::Utc::now().to_rfc3339()
}

/// Captures the call stack with `std::backtrace::Backtrace::force_capture`
/// and writes it out. Nothing is claimed of the text: it depends on the
/// caller and on the machine.
#[verifier::external_body]
fn capture_backtrace() -> (text: String) {
    format!("{}", std::backtrace::Backtrace::force_capture())
}

/// A diagnostics record. It is made once and then only read.
#[derive(Debug)]
pub struct Error {
    /// The record's identifier, as a 128-bit value.
    pub id: u128,
    /// The moment the record was made, as RFC 3339 text.
    pub timestamp: String,
    pub level: ErrorLevel,
    pub message: String,
    /// What the causing error says of itself, if another error caused this one.
    pub source: Option<String>,
    /// The call stack at the moment the record was made, as text.
    pub backtrace: String,
}

impl Error {
    /// What a record's line says of its cause.
    pub open spec fn source_text(&self) -> Seq<char> {
        match self.source {
            Some(cause) => cause@,
            None => "No source provided"@,
        }
    }

    /// A record's line of text.
    pub open spec fn text(&self) -> Seq<char> {
        "["@ + self.timestamp@ + "] ["@ + self.level.label() + "] ["@ + hyphenated_text(self.id)
            + "] "@ + self.message@ + " | Source: "@ + self.source_text() + " | Backtrace: "@
            + self.backtrace@
    }

    /// Makes a record of the given level, message and cause, with a fresh
    /// random identifier, the current time and the current call stack.
    pub fn new(level: ErrorLevel, message: &str, source: Option<String>) -> (err: Error)
        ensures
            err.level == level,
            err.message@ == message@,
            err.source == source,
            is_random_id(err.id),
    {
        Error {
            id: random_id(),
            timestamp: now_rfc3339(),
            level,
            message: String::from_str(message),
            source,
            backtrace: capture_backtrace(),
        }
    }

    /// The record as one line of text.
    pub fn to_string(&self) -> (line: String)
        ensures
            line@ == self.text(),
    {
        let mut line = String::from_str("[");
        line.append(self.timestamp.as_str());
        line.append("] [");
        line.append(self.level.to_string().as_str());
        line.append("] [");
        line.append(hyphenated(self.id).as_str());
        line.append("] ");
        line.append(self.message.as_str());
        line.append(" | Source: ");
        match &self.source {
            Some(cause) => line.append(cause.as_str()),
            None => line.append("No source provided"),
        }
        line.append(" | Backtrace: ");
        line.append(self.backtrace.as_str());
        line
    }
}

} // verus!
