use vstd::prelude::*;
use crate::content::{Content, DeError, Expected, ParseFailure};
use crate::de::DeserializeAs;

verus! {

/// Strategy: read a text token and parse it with the type's text parser.
pub struct DisplayFromStr;

/// Strategy: read a text token; the empty token is absent, any other is
/// present and kept as it is.
pub struct NoneAsEmptyString;

pub open spec fn is_decimal_digit(c: char) -> bool {
    '0' <= c && c <= '9'
}

/// The value of a string of decimal digits.
pub open spec fn decimal_value(d: Seq<char>) -> nat
    decreases d.len(),
{
    if d.len() == 0 {
        0
    } else {
        decimal_value(d.drop_last()) * 10 + ((d.last() as int) - ('0' as int)) as nat
    }
}

/// A text token with one leading `+` taken off, if it has one.
pub open spec fn unsigned_digits(s: Seq<char>) -> Seq<char> {
    if s.len() > 0 && s[0] == '+' {
        s.drop_first()
    } else {
        s
    }
}

/// The number an unsigned decimal token denotes, when it is one that fits.
pub open spec fn u64_text_value(s: Seq<char>) -> Option<u64> {
    let d = unsigned_digits(s);
    if d.len() > 0 && (forall|i: int| 0 <= i < d.len() ==> is_decimal_digit(#[trigger] d[i]))
        && decimal_value(d) <= u64::MAX {
        Some(decimal_value(d) as u64)
    } else {
        None
    }
}

/// The number a signed decimal token denotes, when it is one that fits: an
/// optional `+` or `-` and then decimal digits only.
pub open spec fn i64_text_value(s: Seq<char>) -> Option<i64> {
    let negative = s.len() > 0 && s[0] == '-';
    let d = if negative {
        s.drop_first()
    } else {
        unsigned_digits(s)
    };
    let value: int = if negative {
        -(decimal_value(d) as int)
    } else {
        decimal_value(d) as int
    };
    if d.len() > 0 && (forall|i: int| 0 <= i < d.len() ==> is_decimal_digit(#[trigger] d[i]))
        && i64::MIN <= value <= i64::MAX {
        Some(value as i64)
    } else {
        None
    }
}

/// The boolean a token denotes: only `true` and `false` do.
pub open spec fn bool_text_value(s: Seq<char>) -> Option<bool> {
    if s == seq!['t', 'r', 'u', 'e'] {
        Some(true)
    } else if s == seq!['f', 'a', 'l', 's', 'e'] {
        Some(false)
    } else {
        None
    }
}

/// The kind of error that parsing a rejected token as an integer reports.
pub uninterp spec fn int_parse_failure(s: Seq<char>) -> ParseFailure;

/// The kind of error that parsing a rejected token as a signed integer
/// reports.
pub uninterp spec fn signed_parse_failure(s: Seq<char>) -> ParseFailure;

/// Relies on `i64::from_str`: an optional `+` or `-` and then decimal digits
/// only, whose value fits, parse to that value; anything else is an error
/// whose kind (`IntErrorKind`) is kept. An empty token reports `Empty`.
#[verifier::external_body]
fn parse_i64(s: &str) -> (r: Result<i64, ParseFailure>)
    ensures
        r is Ok ==> i64_text_value(s@) == Some(r->Ok_0),
        r is Err ==> i64_text_value(s@) is None && r->Err_0 == signed_parse_failure(s@),
        s@.len() == 0 ==> (r matches Err(ParseFailure::Empty)),
{
    match s.parse::<i64>() {
        Ok(n) => Ok(n),
        Err(e) => Err(
            match e.kind() {
                std::num::IntErrorKind::Empty => ParseFailure::Empty,
                std::num::IntErrorKind::PosOverflow => ParseFailure::Overflow,
                std::num::IntErrorKind::NegOverflow => ParseFailure::Underflow,
                _ => ParseFailure::InvalidDigit,
            },
        ),
    }
}

/// Relies on `u64::from_str`: an optional `+` and then decimal digits only,
/// whose value fits, parse to that value; anything else is an error whose
/// kind (`IntErrorKind`) is kept. An empty token reports `Empty`.
#[verifier::external_body]
fn parse_u64(s: &str) -> (r: Result<u64, ParseFailure>)
    ensures
        r is Ok ==> u64_text_value(s@) == Some(r->Ok_0),
        r is Err ==> u64_text_value(s@) is None && r->Err_0 == int_parse_failure(s@),
        s@.len() == 0 ==> (r matches Err(ParseFailure::Empty)),
{
    match s.parse::<u64>() {
        Ok(n) => Ok(n),
        Err(e) => Err(
            match e.kind() {
                std::num::IntErrorKind::Empty => ParseFailure::Empty,
                std::num::IntErrorKind::PosOverflow => ParseFailure::Overflow,
                _ => ParseFailure::InvalidDigit,
            },
        ),
    }
}

/// Relies on `bool::from_str`: only `true` and `false` are accepted.
#[verifier::external_body]
fn parse_bool(s: &str) -> (r: Option<bool>)
    ensures
        r == bool_text_value(s@),
{
    s.parse::<bool>().ok()
}

impl DeserializeAs<u64> for DisplayFromStr {
    open spec fn spec_deserialize_as(c: Content) -> Result<u64, DeError> {
        match c {
            Content::Str(s) => match u64_text_value(s@) {
                Some(n) => Ok(n),
                None => Err(DeError::Parse(int_parse_failure(s@))),
            },
            _ => Err(DeError::InvalidType(Expected::Str)),
        }
    }

    open spec fn lawful() -> bool {
        true
    }

    fn deserialize_as(c: &Content) -> (r: Result<u64, DeError>) {
        match c {
            Content::Str(s) => match parse_u64(s.as_str()) {
                Ok(n) => Ok(n),
                Err(k) => Err(DeError::Parse(k)),
            },
            _ => Err(DeError::InvalidType(Expected::Str)),
        }
    }
}

impl DeserializeAs<i64> for DisplayFromStr {
    open spec fn spec_deserialize_as(c: Content) -> Result<i64, DeError> {
        match c {
            Content::Str(s) => match i64_text_value(s@) {
                Some(n) => Ok(n),
                None => Err(DeError::Parse(signed_parse_failure(s@))),
            },
            _ => Err(DeError::InvalidType(Expected::Str)),
        }
    }

    open spec fn lawful() -> bool {
        true
    }

    fn deserialize_as(c: &Content) -> (r: Result<i64, DeError>) {
        match c {
            Content::Str(s) => match parse_i64(s.as_str()) {
                Ok(n) => Ok(n),
                Err(k) => Err(DeError::Parse(k)),
            },
            _ => Err(DeError::InvalidType(Expected::Str)),
        }
    }
}

impl DeserializeAs<bool> for DisplayFromStr {
    open spec fn spec_deserialize_as(c: Content) -> Result<bool, DeError> {
        match c {
            Content::Str(s) => match bool_text_value(s@) {
                Some(b) => Ok(b),
                None => Err(DeError::Parse(ParseFailure::NotBool)),
            },
            _ => Err(DeError::InvalidType(Expected::Str)),
        }
    }

    open spec fn lawful() -> bool {
        true
    }

    fn deserialize_as(c: &Content) -> (r: Result<bool, DeError>) {
        match c {
            Content::Str(s) => match parse_bool(s.as_str()) {
                Some(b) => Ok(b),
                None => Err(DeError::Parse(ParseFailure::NotBool)),
            },
            _ => Err(DeError::InvalidType(Expected::Str)),
        }
    }
}

impl DeserializeAs<Option<String>> for NoneAsEmptyString {
    open spec fn spec_deserialize_as(c: Content) -> Result<Option<Seq<char>>, DeError> {
        match c {
            Content::Str(s) => if s@.len() == 0 {
                Ok(None)
            } else {
                Ok(Some(s@))
            },
            _ => Err(DeError::InvalidType(Expected::AnyString)),
        }
    }

    open spec fn lawful() -> bool {
        true
    }

    fn deserialize_as(c: &Content) -> (r: Result<Option<String>, DeError>) {
        match c {
            Content::Str(s) => if s.as_str().is_empty() {
                Ok(None)
            } else {
                Ok(Some(s.clone()))
            },
            _ => Err(DeError::InvalidType(Expected::AnyString)),
        }
    }
}

/// The empty token decodes to `None`; any other token `s` decodes to
/// `Some` of exactly the characters of `s`.
pub proof fn lemma_empty_string_is_absent(s: String)
    ensures
        s@.len() == 0 ==> <NoneAsEmptyString as DeserializeAs<Option<String>>>::spec_deserialize_as(
            Content::Str(s),
        ) == Ok::<Option<Seq<char>>, DeError>(None),
        s@.len() > 0 ==> <NoneAsEmptyString as DeserializeAs<Option<String>>>::spec_deserialize_as(
            Content::Str(s),
        ) == Ok::<Option<Seq<char>>, DeError>(Some(s@)),
{
}

} // verus!
