//! Properties of fields: shifted pointers.

use crate::ir::term::Term;
use crate::ir::types::Type;
use regex::Regex;
use std::num::ParseIntError;
use std::str::FromStr;
use vstd::prelude::*;

verus! {

/// What a field declares of its type: that it is a pointer which points some
/// bytes into its target, either a given number or one pointer's size, before
/// the target's start if `true`.
#[derive(Clone, Copy, Debug, PartialEq, Eq)]
pub enum Property {
    ShiftedPointer(i64),
    ShiftedPointerUsize(bool),
}

/// `std::num::ParseIntError`: why a text is no integer.
#[verifier::external_type_specification]
#[verifier::external_body]
pub struct ExParseIntError(std::num::ParseIntError);

/// Why a text is no property.
#[derive(Debug)]
pub enum PropertyParseError {
    ParseIntProperty(ParseIntError),
    UnexpectedProperty,
}

/// A pointer shifted by a number of bytes.
pub const SHIFTED_POINTER: &'static str = r"^__shifted\(\s*([-+]?[0-9]+)\s*\)$";

/// A pointer shifted by the size of a pointer.
pub const SHIFTED_POINTER_PSIZE: &'static str = r"^__shifted\(\s*([-+])pointer-size\s*\)$";

/// Whether a character has Unicode's property `White_Space`.
pub open spec fn is_space(c: char) -> bool {
    let code = c as int;
    ||| 0x9 <= code <= 0xd
    ||| code == 0x20 || code == 0x85 || code == 0xa0 || code == 0x1680
    ||| 0x2000 <= code <= 0x200a
    ||| code == 0x2028 || code == 0x2029 || code == 0x202f || code == 0x205f || code == 0x3000
}

/// A text without the white space at its start.
pub open spec fn trim_start(text: Seq<char>) -> Seq<char>
    decreases text.len(),
{
    if text.len() > 0 && is_space(text[0]) {
        trim_start(text.drop_first())
    } else {
        text
    }
}

/// A text without the white space at its end.
pub open spec fn trim_end(text: Seq<char>) -> Seq<char>
    decreases text.len(),
{
    if text.len() > 0 && is_space(text.last()) {
        trim_end(text.drop_last())
    } else {
        text
    }
}

/// What stands between the brackets of `__shifted(..)`, without the white
/// space around it, if that is what the text is.
pub open spec fn shifted_operand(text: Seq<char>) -> Option<Seq<char>> {
    let open = "__shifted("@;
    if text.len() > open.len() && text.take(open.len() as int) == open && text.last() == ')' {
        Some(trim_end(trim_start(text.subrange(open.len() as int, text.len() - 1))))
    } else {
        None
    }
}

/// A text without the sign in front of it.
pub open spec fn unsigned_part(text: Seq<char>) -> Seq<char> {
    if text.len() > 0 && (text[0] == '-' || text[0] == '+') {
        text.drop_first()
    } else {
        text
    }
}

/// Whether a text is a decimal number, with or without a sign.
pub open spec fn is_decimal(text: Seq<char>) -> bool {
    let digits = unsigned_part(text);
    digits.len() > 0 && forall|i: int| 0 <= i < digits.len() ==> '0' <= #[trigger] digits[i] <= '9'
}

/// The number that a row of decimal digits stands for.
pub open spec fn digits_value(digits: Seq<char>) -> int
    decreases digits.len(),
{
    if digits.len() == 0 {
        0
    } else {
        digits_value(digits.drop_last()) * 10 + (digits.last() as int - '0' as int)
    }
}

/// The number that a decimal text stands for.
pub open spec fn decimal_value(text: Seq<char>) -> int {
    let value = digits_value(unsigned_part(text));
    if text.len() > 0 && text[0] == '-' {
        -value
    } else {
        value
    }
}

/// The number in `__shifted(number)`, as text.
pub open spec fn shift_number(text: Seq<char>) -> Option<Seq<char>> {
    match shifted_operand(text) {
        Some(operand) if is_decimal(operand) => Some(operand),
        _ => None,
    }
}

/// The sign in `__shifted(-pointer-size)` and `__shifted(+pointer-size)`, as
/// text.
pub open spec fn shift_sign(text: Seq<char>) -> Option<Seq<char>> {
    match shifted_operand(text) {
        Some(operand) if operand == "-pointer-size"@ || operand == "+pointer-size"@ => Some(
            operand.take(1),
        ),
        _ => None,
    }
}

/// Whether `property` is what a text is read as: a shift by the number in
/// `__shifted(number)`, which is an error out of the range of `i64`; a shift by
/// a pointer's size; or an error for any other text.
pub open spec fn reads_as(
    text: Seq<char>,
    property: Result<Property, PropertyParseError>,
) -> bool {
    match shift_number(text) {
        Some(number) => if i64::MIN <= decimal_value(number) <= i64::MAX {
            property == Ok::<Property, PropertyParseError>(
                Property::ShiftedPointer(decimal_value(number) as i64),
            )
        } else {
            property matches Err(PropertyParseError::ParseIntProperty(_))
        },
        None => match shift_sign(text) {
            Some(sign) => property == Ok::<Property, PropertyParseError>(
                Property::ShiftedPointerUsize(sign == seq!['-']),
            ),
            None => property matches Err(PropertyParseError::UnexpectedProperty),
        },
    }
}

/// Compiles a pattern with `regex::Regex::new` and calls
/// `regex::Regex::captures`. Claims, of the two patterns of this module alone,
/// that the text of the first group comes back exactly if the whole text
/// matches: the anchors hold at the two ends of the text, `\s` stands for
/// Unicode white space and `[0-9]` for the ten ASCII digits.
#[verifier::external_body]
pub(crate) fn first_group(pattern: &str, text: &str) -> (group: Option<String>)
    requires
        pattern@ == SHIFTED_POINTER@ || pattern@ == SHIFTED_POINTER_PSIZE@,
    ensures
        pattern@ == SHIFTED_POINTER@ ==> match group {
            Some(g) => shift_number(text@) == Some(g@),
            None => shift_number(text@) is None,
        },
        pattern@ == SHIFTED_POINTER_PSIZE@ ==> match group {
            Some(g) => shift_sign(text@) == Some(g@),
            None => shift_sign(text@) is None,
        },
{
    Regex::new(pattern).unwrap().captures(text).map(|groups| groups[1].to_string())
}

/// Calls `i64::from_str`. Claims that it takes a decimal text, with or without
/// a sign, whose value is in the range of `i64`, and nothing else.
#[verifier::external_body]
pub(crate) fn parse_i64(text: &str) -> (value: Result<i64, ParseIntError>)
    ensures
        match value {
            Ok(v) => is_decimal(text@) && decimal_value(text@) == v,
            Err(_) => is_decimal(text@) ==> !(i64::MIN <= decimal_value(text@) <= i64::MAX),
        },
{
    i64::from_str(text)
}

impl Property {
    /// Reads `__shifted(number)`, `__shifted(+pointer-size)` and
    /// `__shifted(-pointer-size)`, with white space around the operand.
    pub fn from_str(s: &str) -> (property: Result<Property, PropertyParseError>)
        ensures
            reads_as(s@, property),
    {
        if let Some(number) = first_group(SHIFTED_POINTER, s) {
            match parse_i64(number.as_str()) {
                Ok(value) => Ok(Property::ShiftedPointer(value)),
                Err(error) => Err(PropertyParseError::ParseIntProperty(error)),
            }
        } else if let Some(sign) = first_group(SHIFTED_POINTER_PSIZE, s) {
            proof {
                reveal_strlit("-pointer-size");
                reveal_strlit("+pointer-size");
                assert(sign@.len() == 1 && sign@ =~= seq![sign@[0]]);
            }
            let negative = sign.as_str().get_char(0) == '-';
            Ok(Property::ShiftedPointerUsize(negative))
        } else {
            Err(PropertyParseError::UnexpectedProperty)
        }
    }

    /// The number of bytes that the property shifts a pointer of `bits` bits.
    pub open spec fn shift(self, bits: u32) -> int {
        match self {
            Property::ShiftedPointer(shift) => shift as int,
            Property::ShiftedPointerUsize(negative) => if negative {
                -(bits as int / 8)
            } else {
                bits as int / 8
            },
        }
    }

    /// Shifts a pointer type. A type that is no pointer stays as it is, and so
    /// does a pointer whose shift would leave the range of `i64`.
    pub fn apply(&self, bits: u32, t: Term<Type>) -> (typ: Term<Type>)
        ensures
            *typ == t.shifted(self.shift(bits)),
    {
        match self {
            Property::ShiftedPointer(shift) if t.is_pointer() => match t.apply_shift(*shift) {
                Some(shifted) => shifted,
                None => t,
            },
            Property::ShiftedPointerUsize(negative) if t.is_pointer() => {
                let bytes: i64 = (bits / 8) as i64;
                let shift: i64 = if *negative {
                    -bytes
                } else {
                    bytes
                };
                match t.apply_shift(shift) {
                    Some(shifted) => shifted,
                    None => t,
                }
            },
            _ => t,
        }
    }
}

impl FromStr for Property {
    type Err = PropertyParseError;

    fn from_str(s: &str) -> (property: Result<Property, PropertyParseError>)
        ensures
            reads_as(s@, property),
    {
        Property::from_str(s)
    }
}

} // verus!
