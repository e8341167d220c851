//! What holds of the texts of properties.

use crate::cio::laws::{all_space, digits_of, law_property_spaces, lemma_digits_of};
use crate::cio::property::{
    decimal_value, digits_value, is_decimal, is_space, reads_as, shift_number, shift_sign,
    shifted_operand, trim_end, trim_start, unsigned_part, Property, PropertyParseError,
};
use vstd::prelude::*;

verus! {

/// The white space of Unicode, and nothing else, is white space: a space, the
/// tabs, line and page breaks, and the spaces and separators outside ASCII.
/// Digits, signs, letters and brackets are none.
pub proof fn law_white_space(c: char)
    ensures
        is_space(' ') && is_space('\t') && is_space('\n') && is_space('\r'),
        '!' <= c <= '~' ==> !is_space(c),
        c < ' ' ==> (is_space(c) <==> '\t' <= c <= '\r'),
        c > '~' ==> (is_space(c) <==> (c == '\u{85}' || c == '\u{a0}' || c == '\u{1680}' || ('\u{2000}' <= c
            && c <= '\u{200a}') || c == '\u{2028}' || c == '\u{2029}' || c == '\u{202f}' || c
            == '\u{205f}' || c == '\u{3000}')),
{
}

/// Whether a text is `__shifted(..)` around an operand, with white space around
/// that.
pub open spec fn is_shifted(
    text: Seq<char>,
    before: Seq<char>,
    operand: Seq<char>,
    after: Seq<char>,
) -> bool {
    &&& text == "__shifted("@ + before + operand + after + seq![')']
    &&& all_space(before)
    &&& all_space(after)
}

/// Whether a text is a row of digits, one at least, with or without a sign in
/// front.
pub open spec fn is_number(text: Seq<char>) -> bool {
    exists|sign: Seq<char>, digits: Seq<char>|
        text == #[trigger] (sign + digits) && (sign.len() == 0 || sign == seq!['-'] || sign
            == seq!['+']) && digits.len() > 0 && forall|i: int|
            0 <= i < digits.len() ==> '0' <= #[trigger] digits[i] <= '9'
}

proof fn lemma_zeros(zeros: Seq<char>, digits: Seq<char>)
    requires
        forall|i: int| 0 <= i < zeros.len() ==> #[trigger] zeros[i] == '0',
    ensures
        digits_value(zeros) == 0,
        digits_value(zeros + digits) == digits_value(digits),
    decreases zeros.len() + digits.len(),
{
    if digits.len() > 0 {
        assert((zeros + digits).drop_last() =~= zeros + digits.drop_last());
        lemma_zeros(zeros, digits.drop_last());
    } else {
        assert(zeros + digits =~= zeros);
        if zeros.len() > 0 {
            assert(zeros[zeros.len() - 1] == '0');
            lemma_zeros(zeros.drop_last(), digits);
        }
    }
}

proof fn lemma_number(text: Seq<char>)
    ensures
        is_number(text) <==> is_decimal(text),
        is_number(text) ==> text.len() > 0 && !is_space(text[0]) && !is_space(text.last()),
{
    if is_decimal(text) {
        let digits = unsigned_part(text);
        if text[0] == '-' || text[0] == '+' {
            assert(text =~= seq![text[0]] + digits);
        } else {
            assert(text =~= Seq::<char>::empty() + digits);
        }
        assert(text.last() == digits[digits.len() - 1]);
    }
    if is_number(text) {
        let (sign, digits) = choose|sign: Seq<char>, digits: Seq<char>|
            text == #[trigger] (sign + digits) && (sign.len() == 0 || sign == seq!['-'] || sign
                == seq!['+']) && digits.len() > 0 && forall|i: int|
                0 <= i < digits.len() ==> '0' <= #[trigger] digits[i] <= '9';
        assert('0' <= digits[0] <= '9');
        if sign.len() == 0 {
            assert(text =~= digits);
            assert(unsigned_part(text) =~= digits);
        } else {
            assert(text[0] == sign[0]);
            assert(unsigned_part(text) =~= digits);
        }
        assert(text.last() == digits[digits.len() - 1]);
    }
}

/// `__shifted(..)` around a number is a shift by that number, with or without a
/// sign, zeros in front and white space around it. It is an error where the
/// number is out of range, and it is never anything else.
pub proof fn law_number_is_read(
    value: nat,
    sign: Seq<char>,
    zeros: Seq<char>,
    before: Seq<char>,
    after: Seq<char>,
    property: Result<Property, PropertyParseError>,
)
    requires
        sign.len() == 0 || sign == seq!['-'] || sign == seq!['+'],
        forall|i: int| 0 <= i < zeros.len() ==> #[trigger] zeros[i] == '0',
        all_space(before),
        all_space(after),
    ensures
        ({
            let text = "__shifted("@ + before + (sign + zeros + digits_of(value)) + after + seq![
                ')',
            ];
            let number = if sign == seq!['-'] {
                -value
            } else {
                value as int
            };
            reads_as(text, property) <==> if i64::MIN <= number <= i64::MAX {
                property matches Ok(Property::ShiftedPointer(shift)) && shift == number
            } else {
                property matches Err(PropertyParseError::ParseIntProperty(_))
            }
        }),
{
    let digits = zeros + digits_of(value);
    let operand = sign + zeros + digits_of(value);
    lemma_digits_of(value);
    lemma_zeros(zeros, digits_of(value));
    assert(operand =~= sign + digits);
    assert forall|i: int| 0 <= i < digits.len() implies '0' <= #[trigger] digits[i] <= '9' by {
        if i < zeros.len() {
            assert(digits[i] == zeros[i]);
        } else {
            assert(digits[i] == digits_of(value)[i - zeros.len()]);
        }
    }
    assert(digits[0] == digits[0]);
    assert(is_number(operand));
    lemma_number(operand);
    if sign.len() == 0 {
        assert(operand =~= digits);
        assert('0' <= digits[0] <= '9');
        assert(unsigned_part(operand) =~= digits);
    } else {
        assert(operand[0] == sign[0]);
        assert(unsigned_part(operand) =~= digits);
        assert(seq!['-'][0] == '-' && seq!['+'][0] == '+');
    }
    law_property_spaces(before, operand, after);
}

/// `__shifted(..)` around a sign and `pointer-size` is a shift by a pointer's
/// size, backwards for a minus, and never anything else.
pub proof fn law_pointer_size_is_read(
    before: Seq<char>,
    after: Seq<char>,
    property: Result<Property, PropertyParseError>,
)
    requires
        all_space(before),
        all_space(after),
    ensures
        reads_as("__shifted("@ + before + "-pointer-size"@ + after + seq![')'], property)
            <==> property == Ok::<Property, PropertyParseError>(
            Property::ShiftedPointerUsize(true),
        ),
        reads_as("__shifted("@ + before + "+pointer-size"@ + after + seq![')'], property)
            <==> property == Ok::<Property, PropertyParseError>(
            Property::ShiftedPointerUsize(false),
        ),
{
    reveal_strlit("-pointer-size");
    reveal_strlit("+pointer-size");
    law_property_spaces(before, "-pointer-size"@, after);
    law_property_spaces(before, "+pointer-size"@, after);
    assert(unsigned_part("-pointer-size"@)[0] == 'p');
    assert(unsigned_part("+pointer-size"@)[0] == 'p');
    assert("-pointer-size"@.take(1) =~= seq!['-']);
    assert("+pointer-size"@.take(1)[0] == '+');
    assert(seq!['-'][0] == '-');
}

proof fn lemma_trimmed_start(text: Seq<char>) -> (count: int)
    ensures
        0 <= count <= text.len(),
        all_space(text.take(count)),
        trim_start(text) == text.skip(count),
    decreases text.len(),
{
    if text.len() > 0 && is_space(text[0]) {
        let rest = lemma_trimmed_start(text.drop_first());
        assert(text.skip(rest + 1) =~= text.drop_first().skip(rest));
        assert forall|i: int| 0 <= i < rest + 1 implies is_space(
            #[trigger] text.take(rest + 1)[i],
        ) by {
            if i > 0 {
                assert(text.take(rest + 1)[i] == text.drop_first().take(rest)[i - 1]);
            }
        }
        rest + 1
    } else {
        assert(text.skip(0) =~= text);
        0
    }
}

proof fn lemma_trimmed_end(text: Seq<char>) -> (count: int)
    ensures
        0 <= count <= text.len(),
        all_space(text.skip(count)),
        trim_end(text) == text.take(count),
    decreases text.len(),
{
    if text.len() > 0 && is_space(text.last()) {
        let count = lemma_trimmed_end(text.drop_last());
        assert(text.take(count) =~= text.drop_last().take(count));
        assert forall|i: int| 0 <= i < text.skip(count).len() implies is_space(
            #[trigger] text.skip(count)[i],
        ) by {
            if i < text.skip(count).len() - 1 {
                assert(text.skip(count)[i] == text.drop_last().skip(count)[i]);
            }
        }
        count
    } else {
        assert(text.take(text.len() as int) =~= text);
        text.len() as int
    }
}

proof fn lemma_operand(text: Seq<char>)
    requires
        shifted_operand(text) is Some,
    ensures
        exists|before: Seq<char>, after: Seq<char>| #[trigger]
            is_shifted(text, before, shifted_operand(text)->0, after),
{
    let open = "__shifted("@;
    let inner = text.subrange(open.len() as int, text.len() - 1);
    let first = lemma_trimmed_start(inner);
    let rest = inner.skip(first);
    let last = lemma_trimmed_end(rest);
    assert(text =~= open + inner.take(first) + rest.take(last) + rest.skip(last) + seq![')']);
    assert(is_shifted(text, inner.take(first), shifted_operand(text)->0, rest.skip(last)));
}

/// What is read was written: a shift by a number comes from `__shifted(..)`
/// around a number, one by a pointer's size from `pointer-size` with the sign,
/// and an error of a number from a number that is out of range. Any other text
/// is unexpected, and only such a one is.
pub proof fn law_read_was_written(text: Seq<char>, property: Result<Property, PropertyParseError>)
    requires
        reads_as(text, property),
    ensures
        match property {
            Ok(Property::ShiftedPointer(shift)) => exists|
                before: Seq<char>,
                operand: Seq<char>,
                after: Seq<char>,
            | #[trigger]
                is_shifted(text, before, operand, after) && is_number(operand) && decimal_value(
                    operand,
                ) == shift,
            Ok(Property::ShiftedPointerUsize(negative)) => exists|
                before: Seq<char>,
                operand: Seq<char>,
                after: Seq<char>,
            | #[trigger]
                is_shifted(text, before, operand, after) && operand == if negative {
                    "-pointer-size"@
                } else {
                    "+pointer-size"@
                },
            Err(PropertyParseError::ParseIntProperty(_)) => exists|
                before: Seq<char>,
                operand: Seq<char>,
                after: Seq<char>,
            | #[trigger]
                is_shifted(text, before, operand, after) && is_number(operand) && !(i64::MIN
                    <= decimal_value(operand) <= i64::MAX),
            Err(PropertyParseError::UnexpectedProperty) => forall|
                before: Seq<char>,
                operand: Seq<char>,
                after: Seq<char>,
            | #[trigger]
                is_shifted(text, before, operand, after) ==> !is_number(operand) && operand
                    != "-pointer-size"@ && operand != "+pointer-size"@,
        },
{
    reveal_strlit("-pointer-size");
    reveal_strlit("+pointer-size");
    assert("-pointer-size"@.take(1) =~= seq!['-']);
    assert("+pointer-size"@.take(1)[0] == '+');
    assert(seq!['-'][0] == '-');
    if let Some(operand) = shifted_operand(text) {
        lemma_number(operand);
        lemma_operand(text);
    }
    assert forall|before: Seq<char>, operand: Seq<char>, after: Seq<char>| #[trigger]
        is_shifted(text, before, operand, after) && (is_number(operand) || operand
            == "-pointer-size"@ || operand == "+pointer-size"@) implies shifted_operand(text)
        == Some(operand) by {
        lemma_number(operand);
        law_property_spaces(before, operand, after);
    }
    assert forall|before: Seq<char>, operand: Seq<char>, after: Seq<char>| #[trigger]
        is_shifted(text, before, operand, after) && is_number(operand) implies shift_number(text)
        == Some(operand) by {
        lemma_number(operand);
    }
    assert forall|before: Seq<char>, operand: Seq<char>, after: Seq<char>| #[trigger]
        is_shifted(text, before, operand, after) && (operand == "-pointer-size"@ || operand
            == "+pointer-size"@) implies shift_sign(text) is Some by {
        assert(shifted_operand(text) == Some(operand));
    }
}

} // verus!
