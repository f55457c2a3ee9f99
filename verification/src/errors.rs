//! Typed errors, and the translation of a native failure into one.

use vstd::prelude::*;
use vstd::string::*;

verus! {

/// What went wrong.
#[derive(Debug, PartialEq)]
pub enum ErrorKind {
    /// A condition detected by this layer, in words.
    Message(String),
    /// A failure of the native engine that callers are not expected to branch on.
    Osrmc { code: String, message: String },
    /// No path exists between the requested points.
    NoRoute,
    /// A coordinate lies outside the valid geographic range.
    InvalidCoordinate,
    /// A path holds a NUL byte, at `position`.
    FfiNul { position: usize },
}

/// The mathematical value of an [`ErrorKind`].
pub enum KindModel {
    Message(Seq<char>),
    Osrmc { code: Seq<char>, message: Seq<char> },
    NoRoute,
    InvalidCoordinate,
    FfiNul { position: nat },
}

impl View for ErrorKind {
    type V = KindModel;

    open spec fn view(&self) -> KindModel {
        match *self {
            ErrorKind::Message(text) => KindModel::Message(text@),
            ErrorKind::Osrmc { code, message } => KindModel::Osrmc { code: code@, message: message@ },
            ErrorKind::NoRoute => KindModel::NoRoute,
            ErrorKind::InvalidCoordinate => KindModel::InvalidCoordinate,
            ErrorKind::FfiNul { position } => KindModel::FfiNul { position: position as nat },
        }
    }
}

impl Clone for ErrorKind {
    fn clone(&self) -> (r: ErrorKind)
        ensures
            r@ == self@,
    {
        match self {
            ErrorKind::Message(text) => ErrorKind::Message(text.clone()),
            ErrorKind::Osrmc { code, message } => ErrorKind::Osrmc {
                code: code.clone(),
                message: message.clone(),
            },
            ErrorKind::NoRoute => ErrorKind::NoRoute,
            ErrorKind::InvalidCoordinate => ErrorKind::InvalidCoordinate,
            ErrorKind::FfiNul { position } => ErrorKind::FfiNul { position: *position },
        }
    }
}

/// The kind that a native failure with the given code and message stands for.
///
/// Two codes are given a kind of their own; every other code is kept as it is.
pub open spec fn classify(code: Seq<char>, message: Seq<char>) -> KindModel {
    if code == "NoRoute"@ {
        KindModel::NoRoute
    } else if code == "InvalidValue"@ {
        KindModel::InvalidCoordinate
    } else {
        KindModel::Osrmc { code, message }
    }
}

/// The decimal digits of `n`.
pub open spec fn decimal(n: nat) -> Seq<char>
    decreases n,
{
    if n < 10 {
        digit(n)
    } else {
        decimal(n / 10) + digit(n % 10)
    }
}

/// The one character that writes a number below ten.
pub open spec fn digit(d: nat) -> Seq<char> {
    if d == 0 {
        "0"@
    } else if d == 1 {
        "1"@
    } else if d == 2 {
        "2"@
    } else if d == 3 {
        "3"@
    } else if d == 4 {
        "4"@
    } else if d == 5 {
        "5"@
    } else if d == 6 {
        "6"@
    } else if d == 7 {
        "7"@
    } else if d == 8 {
        "8"@
    } else {
        "9"@
    }
}

/// The text that describes a kind of error.
pub open spec fn kind_text(kind: KindModel) -> Seq<char> {
    match kind {
        KindModel::Message(text) => text,
        KindModel::Osrmc { code, message } => "Osrmc: "@ + code + ": "@ + message,
        KindModel::NoRoute => "Impossible route between points"@,
        KindModel::InvalidCoordinate => "Invalid coordinate value"@,
        KindModel::FfiNul { position } => "nul byte found in provided data at position: "@
            + decimal(position),
    }
}

/// The text that describes an error: the text of its kind behind a fixed prefix.
pub open spec fn error_text(kind: KindModel) -> Seq<char> {
    "osrm-rs: "@ + kind_text(kind)
}

fn digit_str(d: usize) -> (r: &'static str)
    requires
        d < 10,
    ensures
        r@ == digit(d as nat),
{
    if d == 0 {
        "0"
    } else if d == 1 {
        "1"
    } else if d == 2 {
        "2"
    } else if d == 3 {
        "3"
    } else if d == 4 {
        "4"
    } else if d == 5 {
        "5"
    } else if d == 6 {
        "6"
    } else if d == 7 {
        "7"
    } else if d == 8 {
        "8"
    } else {
        "9"
    }
}

fn append_decimal(text: &mut String, n: usize)
    ensures
        final(text)@ == old(text)@ + decimal(n as nat),
    decreases n,
{
    if n < 10 {
        text.append(digit_str(n));
    } else {
        append_decimal(text, n / 10);
        text.append(digit_str(n % 10));
    }
}

impl ErrorKind {
    /// The text that describes this kind of error.
    pub fn describe(&self) -> (r: String)
        ensures
            r@ == kind_text(self@),
    {
        match self {
            ErrorKind::Message(text) => text.clone(),
            ErrorKind::Osrmc { code, message } => {
                let mut text = String::from_str("Osrmc: ");
                text.append(code.as_str());
                text.append(": ");
                text.append(message.as_str());
                text
            },
            ErrorKind::NoRoute => String::from_str("Impossible route between points"),
            ErrorKind::InvalidCoordinate => String::from_str("Invalid coordinate value"),
            ErrorKind::FfiNul { position } => {
                let mut text = String::from_str("nul byte found in provided data at position: ");
                append_decimal(&mut text, *position);
                text
            },
        }
    }
}

/// An error of this layer.
#[derive(Debug, PartialEq)]
pub struct Error {
    kind: ErrorKind,
}

impl View for Error {
    type V = KindModel;

    closed spec fn view(&self) -> KindModel {
        self.kind@
    }
}

impl Error {
    /// A copy of the error's kind.
    pub fn kind(&self) -> (r: ErrorKind)
        ensures
            r@ == self@,
    {
        self.kind.clone()
    }

    /// The error that a native failure stands for, from the code and the
    /// message read off the native error object.
    pub fn from_native(code: String, message: String) -> (r: Error)
        ensures
            r@ == classify(code@, message@),
    {
        let no_route = String::from_str("NoRoute");
        let invalid_value = String::from_str("InvalidValue");
        let kind = if code.eq(&no_route) {
            ErrorKind::NoRoute
        } else if code.eq(&invalid_value) {
            ErrorKind::InvalidCoordinate
        } else {
            ErrorKind::Osrmc { code, message }
        };
        Error { kind }
    }

    /// The error of the given kind.
    pub fn from_kind(kind: ErrorKind) -> (r: Error)
        ensures
            r@ == kind@,
    {
        Error { kind }
    }

    /// The error that `Error::from` makes of a text.
    pub closed spec fn spec_message(text: String) -> Error {
        Error { kind: ErrorKind::Message(text) }
    }

    /// The error made from a text says that text and nothing else.
    pub proof fn lemma_message_view(text: String)
        ensures
            Error::spec_message(text)@ == KindModel::Message(text@),
    {
    }

    /// The error for a condition detected by this layer, described by `text`.
    pub fn message(text: &str) -> (r: Error)
        ensures
            r@ == KindModel::Message(text@),
    {
        Error { kind: ErrorKind::Message(String::from_str(text)) }
    }

    /// The error for a NUL byte found at `position` of a path.
    pub fn from_nul(position: usize) -> (r: Error)
        ensures
            r@ == (KindModel::FfiNul { position: position as nat }),
    {
        Error { kind: ErrorKind::FfiNul { position } }
    }

    /// The text that describes this error.
    pub fn describe(&self) -> (r: String)
        ensures
            r@ == error_text(self@),
    {
        let mut text = String::from_str("osrm-rs: ");
        let inner = self.kind.describe();
        text.append(inner.as_str());
        text
    }
}

impl From<String> for Error {
    fn from(other: String) -> (r: Error) {
        Error { kind: ErrorKind::Message(other) }
    }
}

impl vstd::std_specs::convert::FromSpecImpl<String> for Error {
    open spec fn obeys_from_spec() -> bool {
        true
    }

    open spec fn from_spec(other: String) -> Error {
        Error::spec_message(other)
    }
}

} // verus!
