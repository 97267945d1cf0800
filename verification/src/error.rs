//! Error codes of lwIP and the errors that callers see.
use vstd::prelude::*;

verus! {

/// No error.
pub const ERR_OK: i8 = 0;

/// Out of memory.
pub const ERR_MEM: i8 = -1;

/// Not connected.
pub const ERR_CONN: i8 = -11;

/// The class of an [`Error`].
#[derive(Clone, Copy, Debug, PartialEq, Eq, Structural)]
pub enum ErrorKind {
    ConnectionRefused,
    Interrupted,
    Other,
    TimedOut,
    UnexpectedEof,
    WouldBlock,
}

/// An error as the caller sees it.
#[derive(Debug)]
pub struct Error {
    pub kind: ErrorKind,
    pub message: String,
}

/// The character of a decimal digit.
pub open spec fn digit(d: nat) -> char
    recommends
        d < 10,
{
    (48 + d) as char
}

/// The decimal digits of `n`, without leading zeros.
pub open spec fn digits(n: nat) -> Seq<char>
    decreases n,
{
    if n < 10 {
        seq![digit(n)]
    } else {
        digits(n / 10).push(digit(n % 10))
    }
}

/// `n` in decimal, with a minus sign in front where it is negative.
pub open spec fn decimal(n: int) -> Seq<char> {
    if n < 0 {
        seq!['-'] + digits((-n) as nat)
    } else {
        digits(n as nat)
    }
}

impl Error {
    /// Whether this error has the given kind and text.
    pub open spec fn says(self, kind: ErrorKind, message: Seq<char>) -> bool {
        &&& self.kind == kind
        &&& self.message@ == message
    }

    /// An error with the given text.
    pub fn new(kind: ErrorKind, message: &str) -> (r: Error)
        ensures
            r.says(kind, message@),
    {
        Error { kind, message: message.to_owned() }
    }

    /// An error whose text is `what` followed by the code `err` in decimal.
    pub fn with_code(kind: ErrorKind, what: &str, err: i8) -> (r: Error)
        ensures
            r.says(kind, what@ + decimal(err as int)),
    {
        let mut message = what.to_owned();
        let code = code_text(err);
        message.append(code.as_str());
        Error { kind, message }
    }
}

/// The text of one digit.
fn digit_text(d: u8) -> (r: &'static str)
    requires
        d < 10,
    ensures
        r@ == seq![digit(d as nat)],
{
    proof {
        reveal_strlit("0");
        reveal_strlit("1");
        reveal_strlit("2");
        reveal_strlit("3");
        reveal_strlit("4");
        reveal_strlit("5");
        reveal_strlit("6");
        reveal_strlit("7");
        reveal_strlit("8");
        reveal_strlit("9");
    }
    match d {
        0 => "0",
        1 => "1",
        2 => "2",
        3 => "3",
        4 => "4",
        5 => "5",
        6 => "6",
        7 => "7",
        8 => "8",
        _ => "9",
    }
}

/// The text of a number of up to three digits.
fn digits_text(n: u8) -> (r: String)
    ensures
        r@ == digits(n as nat),
    decreases n,
{
    if n < 10 {
        digit_text(n).to_owned()
    } else {
        let mut text = digits_text(n / 10);
        text.append(digit_text(n % 10));
        text
    }
}

/// The text of an lwIP error code.
pub fn code_text(err: i8) -> (r: String)
    ensures
        r@ == decimal(err as int),
{
    if err < 0 {
        proof {
            reveal_strlit("-");
        }
        let magnitude: u8 = (-(err as i16)) as u8;
        let mut text = "-".to_owned();
        let rest = digits_text(magnitude);
        text.append(rest.as_str());
        text
    } else {
        digits_text(err as u8)
    }
}

} // verus!
