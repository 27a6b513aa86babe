//! Configuration values that may come as themselves or as their text.

use vstd::prelude::*;

use crate::text::chars_of;

verus! {

/// A truth value, or a text that should name one.
#[derive(Debug)]
pub enum BoolOrString {
    Bool(bool),
    Str(String),
}

/// A 32-bit integer, or a text that should write one.
#[derive(Debug)]
pub enum I32OrString {
    Integer(i32),
    Str(String),
}

/// An unsigned 16-bit integer, or a text that should write one.
#[derive(Debug)]
pub enum U16OrString {
    Integer(u16),
    Str(String),
}

/// An unsigned 64-bit integer, or a text that should write one.
#[derive(Debug)]
pub enum Unsigned64OrString {
    Integer(u64),
    Str(String),
}

/// Why a text could not be taken for a value.
#[derive(Clone, Copy, Debug, PartialEq, Eq, Structural)]
pub enum CoercionError {
    /// The text is neither `true` nor `false`.
    NotBool,
    /// The text is not a decimal number of the type asked for.
    NotNumber,
}

/// One of the ten decimal digits.
pub open spec fn is_digit(c: char) -> bool {
    '0' <= c && c <= '9'
}

/// Whether the text consists of decimal digits only.
pub open spec fn all_digits(text: Seq<char>) -> bool {
    forall|i: int| 0 <= i < text.len() ==> is_digit(#[trigger] text[i])
}

/// The number that a sequence of decimal digits writes.
pub open spec fn digits_value(text: Seq<char>) -> nat
    decreases text.len(),
{
    if text.len() == 0 {
        0
    } else {
        digits_value(text.drop_last()) * 10 + (text.last() as u32 - '0' as u32) as nat
    }
}

/// Whether the text opens with a sign that the type accepts: a plus for every
/// type, a minus for signed ones.
pub open spec fn has_sign(text: Seq<char>, signed: bool) -> bool {
    text.len() > 0 && (text[0] == '+' || (signed && text[0] == '-'))
}

/// The digits of a number text: the text without its sign.
pub open spec fn unsigned_part(text: Seq<char>, signed: bool) -> Seq<char> {
    if has_sign(text, signed) {
        text.skip(1)
    } else {
        text
    }
}

/// The integer that a text writes in decimal, if it writes one: an optional
/// sign followed by at least one digit and nothing else.
pub open spec fn number_of(text: Seq<char>, signed: bool) -> Option<int> {
    let body = unsigned_part(text, signed);
    if body.len() == 0 || !all_digits(body) {
        None
    } else if has_sign(text, signed) && text[0] == '-' {
        Some(-(digits_value(body) as int))
    } else {
        Some(digits_value(body) as int)
    }
}

/// The number that the text writes, if it writes one between `low` and `high`.
pub open spec fn number_within(text: Seq<char>, signed: bool, low: int, high: int) -> Option<int> {
    match number_of(text, signed) {
        Some(value) if low <= value <= high => Some(value),
        _ => None,
    }
}

/// The truth value that a text names.
pub open spec fn bool_of(text: Seq<char>) -> Option<bool> {
    if text == "true"@ {
        Some(true)
    } else if text == "false"@ {
        Some(false)
    } else {
        None
    }
}

/// A longer sequence of digits never writes a smaller number than its
/// beginning.
proof fn value_grows(text: Seq<char>, length: int)
    requires
        0 <= length <= text.len(),
    ensures
        digits_value(text.take(length)) <= digits_value(text),
    decreases text.len(),
{
    if length == text.len() {
        assert(text.take(length) =~= text);
    } else {
        value_grows(text.drop_last(), length);
        assert(text.drop_last().take(length) =~= text.take(length));
    }
}

/// The number that the digits from position `from` on write, if there are
/// digits only, at least one, and the number fits 64 bits.
fn magnitude(chars: &Vec<char>, from: usize) -> (value: Option<u64>)
    requires
        from <= chars.len(),
    ensures
        value is Some <==> chars@.skip(from as int).len() > 0 && all_digits(
            chars@.skip(from as int),
        ) && digits_value(chars@.skip(from as int)) <= u64::MAX,
        value matches Some(value) ==> value == digits_value(chars@.skip(from as int)),
{
    let ghost body = chars@.skip(from as int);
    if from == chars.len() {
        return None;
    }
    let mut value: u64 = 0;
    let mut i: usize = from;
    assert(body.take(0) =~= Seq::<char>::empty());
    while i < chars.len()
        invariant
            from <= i <= chars.len(),
            body == chars@.skip(from as int),
            all_digits(body.take(i - from)),
            value == digits_value(body.take(i - from)),
        decreases chars.len() - i,
    {
        let c = chars[i];
        assert(body[i - from] == c);
        if !(c >= '0' && c <= '9') {
            assert(!is_digit(body[i - from]));
            return None;
        }
        let digit = (c as u32 - '0' as u32) as u64;
        proof {
            let longer = body.take(i - from + 1);
            assert(longer.drop_last() =~= body.take(i - from));
            assert(longer.last() == c);
            assert forall|j: int| 0 <= j < longer.len() implies is_digit(#[trigger] longer[j]) by {
                if j < i - from {
                    assert(body.take(i - from)[j] == longer[j]);
                }
            }
            assert(digits_value(longer) == value * 10 + digit);
            value_grows(body, i - from + 1);
        }
        if value > (u64::MAX - digit) / 10 {
            return None;
        }
        value = value * 10 + digit;
        i = i + 1;
    }
    assert(body.take(body.len() as int) =~= body);
    Some(value)
}

/// Reads a decimal number: whether it is negative, and its magnitude.
fn signed_magnitude(text: &str, signed: bool) -> (parts: Option<(bool, u64)>)
    ensures
        parts is Some <==> number_of(text@, signed) is Some && digits_value(
            unsigned_part(text@, signed),
        ) <= u64::MAX,
        parts matches Some((negative, value)) ==> value == digits_value(
            unsigned_part(text@, signed),
        ) && negative == (has_sign(text@, signed) && text@[0] == '-'),
{
    let chars = chars_of(text);
    let mut from: usize = 0;
    let mut negative = false;
    if chars.len() > 0 {
        if chars[0] == '+' {
            from = 1;
        } else if signed && chars[0] == '-' {
            from = 1;
            negative = true;
        }
    }
    assert(chars@.skip(0) =~= chars@);
    match magnitude(&chars, from) {
        Some(value) => Some((negative, value)),
        None => None,
    }
}

/// The truth value itself, or the one that the text names.
pub fn bool_or_string(value: BoolOrString) -> (result: Result<bool, CoercionError>)
    ensures
        result == match value {
            BoolOrString::Bool(v) => Ok::<bool, CoercionError>(v),
            BoolOrString::Str(v) => match bool_of(v@) {
                Some(v) => Ok(v),
                None => Err(CoercionError::NotBool),
            },
        },
{
    match value {
        BoolOrString::Bool(v) => Ok(v),
        BoolOrString::Str(v) => {
            if v == "true".to_owned() {
                Ok(true)
            } else if v == "false".to_owned() {
                Ok(false)
            } else {
                Err(CoercionError::NotBool)
            }
        },
    }
}

/// The integer itself, or the one that the text writes.
pub fn i32_or_string(value: I32OrString) -> (result: Result<i32, CoercionError>)
    ensures
        result == match value {
            I32OrString::Integer(v) => Ok::<i32, CoercionError>(v),
            I32OrString::Str(v) => match number_within(v@, true, i32::MIN as int, i32::MAX as int) {
                Some(v) => Ok(v as i32),
                None => Err(CoercionError::NotNumber),
            },
        },
{
    match value {
        I32OrString::Integer(v) => Ok(v),
        I32OrString::Str(v) => match signed_magnitude(v.as_str(), true) {
            Some((negative, magnitude)) => {
                if negative {
                    if magnitude <= 2_147_483_647 {
                        Ok(-(magnitude as i32))
                    } else if magnitude == 2_147_483_648 {
                        Ok(i32::MIN)
                    } else {
                        Err(CoercionError::NotNumber)
                    }
                } else if magnitude <= 2_147_483_647 {
                    Ok(magnitude as i32)
                } else {
                    Err(CoercionError::NotNumber)
                }
            },
            None => Err(CoercionError::NotNumber),
        },
    }
}

/// The integer itself, or the one that the text writes.
pub fn u16_or_string(value: U16OrString) -> (result: Result<u16, CoercionError>)
    ensures
        result == match value {
            U16OrString::Integer(v) => Ok::<u16, CoercionError>(v),
            U16OrString::Str(v) => match number_within(v@, false, 0, u16::MAX as int) {
                Some(v) => Ok(v as u16),
                None => Err(CoercionError::NotNumber),
            },
        },
{
    match value {
        U16OrString::Integer(v) => Ok(v),
        U16OrString::Str(v) => match signed_magnitude(v.as_str(), false) {
            Some((_, magnitude)) => {
                if magnitude <= 65_535 {
                    Ok(magnitude as u16)
                } else {
                    Err(CoercionError::NotNumber)
                }
            },
            None => Err(CoercionError::NotNumber),
        },
    }
}

/// The integer itself, or the one that the text writes.
pub fn u64_or_string(value: Unsigned64OrString) -> (result: Result<u64, CoercionError>)
    ensures
        result == match value {
            Unsigned64OrString::Integer(v) => Ok::<u64, CoercionError>(v),
            Unsigned64OrString::Str(v) => match number_within(v@, false, 0, u64::MAX as int) {
                Some(v) => Ok(v as u64),
                None => Err(CoercionError::NotNumber),
            },
        },
{
    match value {
        Unsigned64OrString::Integer(v) => Ok(v),
        Unsigned64OrString::Str(v) => match signed_magnitude(v.as_str(), false) {
            Some((_, magnitude)) => Ok(magnitude),
            None => Err(CoercionError::NotNumber),
        },
    }
}

/// The integer where the value is one or writes one, and nothing where the
/// value is missing, of another shape or not a number. Never an error.
pub fn option_i32_or_string(value: Option<I32OrString>) -> (result: Result<
    Option<i32>,
    CoercionError,
>)
    ensures
        result == Ok::<Option<i32>, CoercionError>(
            match value {
                Some(I32OrString::Integer(v)) => Some(v),
                Some(I32OrString::Str(v)) => match number_within(
                    v@,
                    true,
                    i32::MIN as int,
                    i32::MAX as int,
                ) {
                    Some(v) => Some(v as i32),
                    None => None,
                },
                None => None,
            },
        ),
{
    match value {
        Some(value) => match i32_or_string(value) {
            Ok(value) => Ok(Some(value)),
            _ => Ok(None),
        },
        None => Ok(None),
    }
}

/// The integer where the value is one or writes one, and nothing where the
/// value is missing, of another shape or not a number. Never an error.
pub fn option_u64_or_string(value: Option<Unsigned64OrString>) -> (result: Result<
    Option<u64>,
    CoercionError,
>)
    ensures
        result == Ok::<Option<u64>, CoercionError>(
            match value {
                Some(Unsigned64OrString::Integer(v)) => Some(v),
                Some(Unsigned64OrString::Str(v)) => match number_within(
                    v@,
                    false,
                    0,
                    u64::MAX as int,
                ) {
                    Some(v) => Some(v as u64),
                    None => None,
                },
                None => None,
            },
        ),
{
    match value {
        Some(value) => match u64_or_string(value) {
            Ok(value) => Ok(Some(value)),
            _ => Ok(None),
        },
        None => Ok(None),
    }
}

} // verus!
