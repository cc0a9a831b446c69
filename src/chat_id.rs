use vstd::prelude::*;
use vstd::string::StrSliceExecFns;

verus! {

/// Identifies a chat the bot can post to: a numeric chat handle or a
/// channel username (written with its leading `@`).
#[derive(Debug)]
pub enum ChatIdentifier {
    Id(i64),
    ChannelUsername(String),
}

/// The mathematical value of a [`ChatIdentifier`]. Two identifiers are equal
/// exactly when their variants and payloads are equal: a numeric handle never
/// equals a channel name.
pub enum ChatRef {
    Id(i64),
    Channel(Seq<char>),
}

impl View for ChatIdentifier {
    type V = ChatRef;

    open spec fn view(&self) -> ChatRef {
        match self {
            ChatIdentifier::Id(n) => ChatRef::Id(*n),
            ChatIdentifier::ChannelUsername(s) => ChatRef::Channel(s@),
        }
    }
}

impl Clone for ChatIdentifier {
    fn clone(&self) -> (r: Self)
        ensures
            r@ == self@,
    {
        match self {
            ChatIdentifier::Id(n) => ChatIdentifier::Id(*n),
            ChatIdentifier::ChannelUsername(s) => ChatIdentifier::ChannelUsername(s.clone()),
        }
    }
}

impl PartialEq for ChatIdentifier {
    fn eq(&self, other: &ChatIdentifier) -> (r: bool)
        ensures
            r == (self@ == other@),
    {
        match (self, other) {
            (ChatIdentifier::Id(a), ChatIdentifier::Id(b)) => *a == *b,
            (ChatIdentifier::ChannelUsername(a), ChatIdentifier::ChannelUsername(b)) => a.eq(b),
            _ => false,
        }
    }
}

impl vstd::std_specs::cmp::PartialEqSpecImpl for ChatIdentifier {
    open spec fn obeys_eq_spec() -> bool {
        true
    }

    open spec fn eq_spec(&self, other: &ChatIdentifier) -> bool {
        self@ == other@
    }
}

impl Eq for ChatIdentifier {

}

/// Whether every character of `d` is an ASCII decimal digit.
pub open spec fn all_digits(d: Seq<char>) -> bool {
    forall|i: int| 0 <= i < d.len() ==> '0' <= #[trigger] d[i] <= '9'
}

/// The value of a string of decimal digits.
pub open spec fn digits_value(d: Seq<char>) -> nat
    decreases d.len(),
{
    if d.len() == 0 {
        0
    } else {
        digits_value(d.drop_last()) * 10 + (d.last() as nat - '0' as nat) as nat
    }
}

/// What `i64::from_str` accepts: an optional `+` or `-`, then one or more
/// decimal digits, with a value that fits in an `i64`.
pub open spec fn decimal_i64(s: Seq<char>) -> Option<i64> {
    let neg = s.len() > 0 && s[0] == '-';
    let d = if s.len() > 0 && (s[0] == '-' || s[0] == '+') {
        s.drop_first()
    } else {
        s
    };
    let v: int = if neg {
        -digits_value(d)
    } else {
        digits_value(d) as int
    };
    if d.len() > 0 && all_digits(d) && i64::MIN <= v <= i64::MAX {
        Some(v as i64)
    } else {
        None
    }
}

/// Relies on `str::parse::<i64>`, documented to accept an optional sign
/// followed by decimal digits and to fail on anything else or on overflow.
#[verifier::external_body]
fn parse_i64(s: &str) -> (r: Option<i64>)
    ensures
        r == decimal_i64(s@),
{
    s.parse::<i64>().ok()
}

/// Why a command argument does not name a chat.
#[derive(Debug, PartialEq, Eq, Clone, Copy)]
pub enum TargetError {
    /// The argument neither starts with `@` nor is a valid integer.
    NotAChat,
}

/// The chat that a command argument names: nothing for an empty argument, a
/// channel for one that starts with `@`, and otherwise a numeric handle.
pub open spec fn target_of(s: Seq<char>) -> Result<Option<ChatRef>, TargetError> {
    if s.len() == 0 {
        Ok(None)
    } else if s[0] == '@' {
        Ok(Some(ChatRef::Channel(s)))
    } else {
        match decimal_i64(s) {
            Some(n) => Ok(Some(ChatRef::Id(n))),
            None => Err(TargetError::NotAChat),
        }
    }
}

/// Reads the optional target of a command such as `/start @channel`.
pub fn parse_target(arg: &str) -> (r: Result<Option<ChatIdentifier>, TargetError>)
    ensures
        match r {
            Ok(Some(id)) => target_of(arg@) == Ok::<Option<ChatRef>, TargetError>(Some(id@)),
            Ok(None) => target_of(arg@) == Ok::<Option<ChatRef>, TargetError>(None),
            Err(e) => target_of(arg@) == Err::<Option<ChatRef>, TargetError>(e),
        },
{
    if arg.unicode_len() == 0 {
        return Ok(None);
    }
    if arg.get_char(0) == '@' {
        return Ok(Some(ChatIdentifier::ChannelUsername(arg.to_owned())));
    }
    match parse_i64(arg) {
        Some(n) => Ok(Some(ChatIdentifier::Id(n))),
        None => Err(TargetError::NotAChat),
    }
}

/// Relies on `i64`'s `Display` (through `to_string`): the decimal digits of
/// the number, with a `-` when it is negative, which `str::parse` reads
/// back as the same number.
#[verifier::external_body]
fn i64_text(n: i64) -> (r: String)
    ensures
        decimal_i64(r@) == Some(n),
{
    n.to_string()
}

impl ChatIdentifier {
    /// The text that names this chat to a user: the channel name, or the
    /// number in decimal.
    pub fn to_text(&self) -> (r: String)
        ensures
            match self@ {
                ChatRef::Channel(s) => r@ == s,
                ChatRef::Id(n) => decimal_i64(r@) == Some(n),
            },
    {
        match self {
            ChatIdentifier::Id(n) => i64_text(*n),
            ChatIdentifier::ChannelUsername(s) => s.clone(),
        }
    }
}

} // verus!
