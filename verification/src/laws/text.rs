//! Numerals, white space and segments.
use crate::text::{
    after_last, decimal, i64_value, integer_value, join, lowercase, number_text, number_value,
    trim, trim_end, trim_start, unsigned_value,
};
use vstd::prelude::*;
use vstd::utf8::is_ascii_chars;

verus! {

/// Whether `s` is a non-empty row of the digits `0` to `9`.
pub open spec fn is_row_of_digits(s: Seq<char>) -> bool {
    s.len() > 0 && forall|i: int| 0 <= i < s.len() ==> '0' <= #[trigger] s[i] <= '9'
}

/// A digit behind a row of digits makes it denote ten times as much and the digit
/// besides; and a number is written with its last digit behind what ten goes into
/// it.
pub proof fn law_appending_a_digit(s: Seq<char>, c: char, n: nat, d: nat)
    requires
        '0' <= c <= '9',
        d < 10,
    ensures
        number_value(Seq::empty()) == 0,
        number_value(s.push(c)) == 10 * number_value(s) + (c as int - 48),
        number_text(d) == seq![(48 + d) as char],
        n > 0 ==> number_text(10 * n + d) == number_text(n).push((48 + d) as char),
{
    assert(s.push(c).drop_last() =~= s);
    assert((10 * n + d) / 10 == n);
    assert((10 * n + d) % 10 == d);
}

/// The decimal notation of a number that is not negative is a row of digits that
/// begins with `0` for zero only; that of a negative number is that of its
/// opposite behind a `-`.
pub proof fn law_decimal_form(n: int)
    ensures
        n >= 0 ==> is_row_of_digits(decimal(n)),
        n > 0 ==> decimal(n)[0] != '0',
        n < 0 ==> decimal(n) == seq!['-'] + decimal(-n),
    decreases n,
{
    if n >= 10 {
        law_decimal_form(n / 10);
    }
}

/// A row of digits denotes its number, with a `+` before it the same, and with a
/// `-` the opposite.
pub proof fn law_signs(s: Seq<char>)
    requires
        is_row_of_digits(s),
    ensures
        integer_value(s) == Some(number_value(s)),
        integer_value(seq!['+'] + s) == Some(number_value(s)),
        integer_value(seq!['-'] + s) == Some(-number_value(s)),
{
    assert((seq!['+'] + s).skip(1) =~= s);
    assert((seq!['-'] + s).skip(1) =~= s);
    assert(!crate::text::is_digit((seq!['+'] + s)[0]));
    assert(!crate::text::is_digit((seq!['-'] + s)[0]));
}

/// Nothing but a row of digits behind at most one sign denotes an integer.
pub proof fn law_only_numerals_are_read(s: Seq<char>)
    requires
        integer_value(s) is Some,
    ensures
        is_row_of_digits(s) || (s.len() > 0 && (s[0] == '+' || s[0] == '-') && is_row_of_digits(
            s.skip(1),
        )),
{
    if crate::text::is_number(s) {
        assert forall|i: int| 0 <= i < s.len() implies '0' <= #[trigger] s[i] <= '9' by {
            assert(crate::text::is_digit(s[i]));
        }
    } else {
        let rest = s.skip(1);
        assert forall|i: int| 0 <= i < rest.len() implies '0' <= #[trigger] rest[i] <= '9' by {
            assert(crate::text::is_digit(rest[i]));
        }
    }
}

/// An `i64` is read where the integer that a text denotes is one, and only there;
/// an unsigned number up to `max` where it is at most that and has no `-`.
pub proof fn law_numbers_in_range_are_read(s: Seq<char>, n: int, max: int)
    requires
        integer_value(s) == Some(n),
    ensures
        -0x8000_0000_0000_0000 <= n <= 0x7fff_ffff_ffff_ffff ==> i64_value(s) == Some(n as i64),
        n < -0x8000_0000_0000_0000 || n > 0x7fff_ffff_ffff_ffff ==> i64_value(s) is None,
        s[0] != '-' && n <= max ==> unsigned_value(s, max) == Some(n),
        s[0] == '-' || n > max ==> unsigned_value(s, max) is None,
{
}

/// What denotes no integer is read as no number.
pub proof fn law_other_texts_are_not_read(s: Seq<char>, max: int)
    requires
        integer_value(s) is None,
    ensures
        i64_value(s) is None,
        unsigned_value(s, max) is None,
{
}

/// Of a text of white space nothing is left.
pub proof fn law_blank_text_is_trimmed_away(s: Seq<char>)
    requires
        forall|i: int| 0 <= i < s.len() ==> crate::text::is_white_space(#[trigger] s[i]),
    ensures
        trim(s) == Seq::<char>::empty(),
    decreases s.len(),
{
    if s.len() > 0 {
        let rest = s.skip(1);
        assert forall|i: int| 0 <= i < rest.len() implies crate::text::is_white_space(
            #[trigger] rest[i],
        ) by {
            assert(rest[i] == s[i + 1]);
        }
        assert(crate::text::is_white_space(s[0]));
        law_blank_text_is_trimmed_away(rest);
        assert(trim_start(s) == trim_start(rest));
    } else {
        assert(trim_end(trim_start(s)) =~= s);
    }
}

/// Two lists are joined as one with the separator between the two; a list of one
/// is joined to its part, and an empty one to nothing.
pub proof fn law_join(
    first: Seq<Seq<char>>,
    second: Seq<Seq<char>>,
    part: Seq<char>,
    separator: Seq<char>,
)
    ensures
        join(Seq::empty(), separator) == Seq::<char>::empty(),
        join(seq![part], separator) == part,
        first.len() > 0 && second.len() > 0 ==> join(first + second, separator) == join(
            first,
            separator,
        ) + separator + join(second, separator),
    decreases second.len(),
{
    if first.len() > 0 && second.len() > 0 {
        let shorter = second.drop_last();
        assert((first + second).drop_last() =~= first + shorter);
        assert((first + second).last() == second.last());
        if second.len() > 1 {
            law_join(first, shorter, part, separator);
            assert(join(first + second, separator) =~= join(first, separator) + separator + join(
                second,
                separator,
            ));
        } else {
            assert(first + shorter =~= first);
        }
    }
}

/// What follows the last mark is all that counts.
pub proof fn law_after_the_last_mark(before: Seq<char>, rest: Seq<char>, mark: char)
    requires
        !rest.contains(mark),
    ensures
        after_last(before + seq![mark] + rest, mark) == rest,
    decreases rest.len(),
{
    let whole = before + seq![mark] + rest;
    if rest.len() == 0 {
        assert(whole.last() == mark);
    } else {
        let shorter = rest.drop_last();
        assert(rest.contains(rest.last()));
        assert forall|c: char| shorter.contains(c) implies rest.contains(c) by {
            let i = shorter.index_of(c);
            assert(rest[i] == c);
        }
        assert(whole.drop_last() =~= before + seq![mark] + shorter);
        law_after_the_last_mark(before, shorter, mark);
        assert(shorter.push(rest.last()) =~= rest);
    }
}

/// A text without a mark is one segment.
pub proof fn law_without_a_mark(text: Seq<char>, mark: char)
    requires
        !text.contains(mark),
    ensures
        after_last(text, mark) == text,
    decreases text.len(),
{
    if text.len() > 0 {
        let shorter = text.drop_last();
        assert(text.contains(text.last()));
        assert forall|c: char| shorter.contains(c) implies text.contains(c) by {
            let i = shorter.index_of(c);
            assert(text[i] == c);
        }
        law_without_a_mark(shorter, mark);
        assert(shorter.push(text.last()) =~= text);
    }
}

/// In lowercase an ASCII text keeps its length and every character but the
/// capitals, which become the small letters 32 places on.
pub proof fn law_ascii_lowercase(s: Seq<char>, i: int)
    requires
        is_ascii_chars(s),
        0 <= i < s.len(),
    ensures
        lowercase(s).len() == s.len(),
        'A' <= s[i] <= 'Z' ==> lowercase(s)[i] as int == s[i] as int + 32,
        !('A' <= s[i] <= 'Z') ==> lowercase(s)[i] == s[i],
{
}

}
