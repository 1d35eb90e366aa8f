//! The error type of the library.

use vstd::prelude::*;

verus! {

/// What went wrong, as far as a caller can act on it.
#[derive(Debug, Clone, Copy, PartialEq, Eq, Structural)]
#[non_exhaustive]
pub enum ErrorKind {
    /// The data of the table is not valid.
    DataInvalid,
}

/// An error: its kind and a message for people.
#[derive(Debug)]
pub struct Error {
    kind: ErrorKind,
    message: String,
}

/// The model of an [`Error`].
pub struct ErrorView {
    pub kind: ErrorKind,
    pub message: Seq<char>,
}

impl View for Error {
    type V = ErrorView;

    closed spec fn view(&self) -> ErrorView {
        ErrorView { kind: self.kind, message: self.message@ }
    }
}

impl Error {
    /// Makes an error of the given kind with the given message.
    pub fn new(kind: ErrorKind, message: String) -> (error: Self)
        ensures
            error@ == (ErrorView { kind, message: message@ }),
    {
        Error { kind, message }
    }

    /// The kind of the error.
    pub fn kind(&self) -> (kind: ErrorKind)
        ensures
            kind == self@.kind,
    {
        self.kind
    }

    /// The message of the error.
    pub fn message(&self) -> (message: &str)
        ensures
            message@ == self@.message,
    {
        self.message.as_str()
    }
}

/// The character of a decimal digit.
pub open spec fn digit(value: int) -> char
    recommends
        0 <= value < 10,
{
    ('0' as int + value) as char
}

/// The decimal digits of a natural number, without leading zeros.
pub open spec fn decimal_digits(value: nat) -> Seq<char>
    decreases value,
{
    if value < 10 {
        seq![digit(value as int)]
    } else {
        decimal_digits(value / 10).push(digit(value as int % 10))
    }
}

/// An integer in decimal notation, with a leading minus sign where it is negative.
pub open spec fn decimal(value: int) -> Seq<char> {
    if value < 0 {
        seq!['-'] + decimal_digits((-value) as nat)
    } else {
        decimal_digits(value as nat)
    }
}

fn digit_text(value: u64) -> (text: &'static str)
    requires
        value < 10,
    ensures
        text@ == seq![digit(value as int)],
{
    proof {
        reveal_strlit("0");
        reveal_strlit("1");
        reveal_strlit("2");
        reveal_strlit("3");
        reveal_strlit("4");
        reveal_strlit("5");
        reveal_strlit("6");
        reveal_strlit("7");
        reveal_strlit("8");
        reveal_strlit("9");
    }
    match value {
        0 => "0",
        1 => "1",
        2 => "2",
        3 => "3",
        4 => "4",
        5 => "5",
        6 => "6",
        7 => "7",
        8 => "8",
        _ => "9",
    }
}

fn append_decimal_digits(text: &mut String, value: u64)
    ensures
        final(text)@ == old(text)@ + decimal_digits(value as nat),
    decreases value,
{
    if value >= 10 {
        append_decimal_digits(text, value / 10);
    }
    text.append(digit_text(value % 10));
}

/// Appends an integer in decimal notation to a text.
pub(crate) fn append_decimal(text: &mut String, value: i64)
    ensures
        final(text)@ == old(text)@ + decimal(value as int),
{
    if value < 0 {
        proof {
            reveal_strlit("-");
        }
        text.append("-");
        append_decimal_digits(text, (-(value as i128)) as u64);
    } else {
        append_decimal_digits(text, value as u64);
    }
}

} // verus!
