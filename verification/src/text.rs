//! Text as a sequence of characters: decimal numbers, white space, prefixes
//! and suffixes, joining.
use vstd::prelude::*;
use vstd::utf8::is_ascii_chars;

verus! {

// ---------------------------------------------------------------------------
// Building text
// ---------------------------------------------------------------------------

/// `String::push` appends the given character at the end of the string.
pub assume_specification[ String::push ](text: &mut String, c: char)
    ensures
        final(text)@ == old(text)@.push(c),
;

/// The characters of `text`, in order.
pub fn chars_of(text: &str) -> (chars: Vec<char>)
    ensures
        chars@ == text@,
{
    let mut chars: Vec<char> = Vec::new();
    for c in iter: text.chars()
        invariant
            iter.seq() == text@,
            chars@ == text@.take(iter.index() as int),
    {
        chars.push(c);
        assert(text@.take(iter.index() as int).push(c) =~= text@.take(iter.index() + 1));
    }
    assert(text@.take(text@.len() as int) =~= text@);
    chars
}

/// The text made of the characters `chars[from..to]`.
pub fn text_of(chars: &Vec<char>, from: usize, to: usize) -> (text: String)
    requires
        from <= to <= chars@.len(),
    ensures
        text@ == chars@.subrange(from as int, to as int),
{
    let mut text = String::new();
    let mut i: usize = from;
    while i < to
        invariant
            from <= i <= to <= chars@.len(),
            text@ == chars@.subrange(from as int, i as int),
        decreases to - i,
    {
        text.push(chars[i]);
        assert(chars@.subrange(from as int, i as int).push(chars@[i as int])
            =~= chars@.subrange(from as int, i + 1));
        i = i + 1;
    }
    text
}

/// `text` between `before` and `after`.
pub fn between(before: &str, text: &String, after: &str) -> (whole: String)
    ensures
        whole@ == before@ + text@ + after@,
{
    let mut whole = before.to_owned();
    whole.append(text.as_str());
    whole.append(after);
    whole
}

/// Whether two texts hold the same characters.
pub fn same_text(a: &str, b: &str) -> (same: bool)
    ensures
        same == (a@ == b@),
{
    a.to_owned() == b.to_owned()
}

/// Whether two optional texts are both missing, or hold the same characters.
pub fn same_optional_text(a: &Option<String>, b: &Option<String>) -> (same: bool)
    ensures
        same == (optional_view(*a) == optional_view(*b)),
{
    match (a, b) {
        (Some(x), Some(y)) => *x == *y,
        (None, None) => true,
        _ => false,
    }
}

/// The view of an optional text.
pub open spec fn optional_view(text: Option<String>) -> Option<Seq<char>> {
    match text {
        Some(t) => Some(t@),
        None => None,
    }
}

/// The views of a list of texts.
pub open spec fn texts_view(texts: Seq<String>) -> Seq<Seq<char>> {
    texts.map_values(|t: String| t@)
}

// ---------------------------------------------------------------------------
// Decimal numbers
// ---------------------------------------------------------------------------

/// Whether `c` is one of the digits `0` to `9`.
pub open spec fn is_digit(c: char) -> bool {
    '0' <= c <= '9'
}

/// The digit that stands for `d`, for `d` below ten.
pub open spec fn digit(d: int) -> char {
    ('0' as int + d) as char
}

/// Whether `s` is a non-empty row of digits.
pub open spec fn is_number(s: Seq<char>) -> bool {
    &&& s.len() > 0
    &&& forall|i: int| 0 <= i < s.len() ==> is_digit(#[trigger] s[i])
}

/// The number that a row of digits denotes in base ten.
pub open spec fn number_value(s: Seq<char>) -> int
    decreases s.len(),
{
    if s.len() == 0 {
        0
    } else {
        number_value(s.drop_last()) * 10 + (s.last() as int - '0' as int)
    }
}

/// The shortest row of digits that denotes `n`.
pub open spec fn number_text(n: nat) -> Seq<char>
    decreases n,
{
    if n < 10 {
        seq![digit(n as int)]
    } else {
        number_text(n / 10).push(digit((n % 10) as int))
    }
}

/// The decimal notation of `n`, with a leading `-` where `n` is negative.
pub open spec fn decimal(n: int) -> Seq<char> {
    if n < 0 {
        seq!['-'] + number_text((-n) as nat)
    } else {
        number_text(n as nat)
    }
}

/// The integer that `s` denotes: a row of digits behind an optional sign.
/// `None` for any other text.
pub open spec fn integer_value(s: Seq<char>) -> Option<int> {
    if is_number(s) {
        Some(number_value(s))
    } else if s.len() > 0 && s[0] == '+' && is_number(s.skip(1)) {
        Some(number_value(s.skip(1)))
    } else if s.len() > 0 && s[0] == '-' && is_number(s.skip(1)) {
        Some(-number_value(s.skip(1)))
    } else {
        None
    }
}

/// The `i64` that `s` denotes, if it denotes one.
pub open spec fn i64_value(s: Seq<char>) -> Option<i64> {
    match integer_value(s) {
        Some(v) => if i64::MIN <= v <= i64::MAX {
            Some(v as i64)
        } else {
            None
        },
        None => None,
    }
}

/// The number in `0..=max` that `s` denotes, if it denotes one. An unsigned
/// number has no `-`, not even before a zero.
pub open spec fn unsigned_value(s: Seq<char>, max: int) -> Option<int> {
    match integer_value(s) {
        Some(v) => if s[0] != '-' && v <= max {
            Some(v)
        } else {
            None
        },
        None => None,
    }
}

/// The row of digits of `n`.
pub fn u64_text(n: u64) -> (text: String)
    ensures
        text@ == number_text(n as nat),
    decreases n,
{
    let last: u8 = (n % 10) as u8;
    let c: char = (48u8 + last) as char;
    if n < 10 {
        let mut text = String::new();
        text.push(c);
        assert(text@ =~= number_text(n as nat));
        text
    } else {
        let mut text = u64_text(n / 10);
        text.push(c);
        text
    }
}

/// The decimal notation of `n`.
pub fn i64_text(n: i64) -> (text: String)
    ensures
        text@ == decimal(n as int),
{
    if n < 0 {
        let magnitude: u64 = (-(n as i128)) as u64;
        let mut text = String::new();
        text.push('-');
        let digits = u64_text(magnitude);
        text.append(digits.as_str());
        assert(text@ =~= seq!['-'] + number_text((-n) as nat));
        text
    } else {
        u64_text(n as u64)
    }
}

/// A row of digits denotes a number that only grows as the row is read.
proof fn lemma_number_value_monotone(s: Seq<char>, i: int)
    requires
        is_number(s),
        0 <= i <= s.len(),
    ensures
        0 <= number_value(s.take(i)) <= number_value(s),
    decreases s.len() - i,
{
    lemma_number_value_nonnegative(s.take(i));
    if i < s.len() {
        lemma_number_value_monotone(s, i + 1);
        assert(s.take(i + 1).drop_last() =~= s.take(i));
        assert(is_digit(s[i]));
    } else {
        assert(s.take(i) =~= s);
    }
}

proof fn lemma_number_value_nonnegative(s: Seq<char>)
    requires
        forall|i: int| 0 <= i < s.len() ==> is_digit(#[trigger] s[i]),
    ensures
        0 <= number_value(s),
    decreases s.len(),
{
    if s.len() > 0 {
        assert(is_digit(s.last()));
        lemma_number_value_nonnegative(s.drop_last());
    }
}

/// Reads `chars[from..]` as a row of digits. `None` where it is none, or
/// where it denotes more than `max`.
fn parse_number(chars: &Vec<char>, from: usize, max: u64) -> (value: Option<u64>)
    requires
        from <= chars@.len(),
        max <= 0x7fff_ffff_ffff_ffff + 1,
    ensures
        value matches Some(v) ==> is_number(chars@.skip(from as int)) && v == number_value(
            chars@.skip(from as int),
        ) && v <= max,
        value is None ==> !is_number(chars@.skip(from as int)) || number_value(
            chars@.skip(from as int),
        ) > max,
{
    let ghost row = chars@.skip(from as int);
    if from == chars.len() {
        return None;
    }
    let mut value: u64 = 0;
    let mut i: usize = from;
    assert(row.take(0) =~= Seq::<char>::empty());
    while i < chars.len()
        invariant
            from <= i <= chars@.len(),
            row == chars@.skip(from as int),
            forall|j: int| 0 <= j < i - from ==> is_digit(#[trigger] row[j]),
            value == number_value(row.take(i - from)),
            value <= max <= 0x7fff_ffff_ffff_ffff + 1,
        decreases chars@.len() - i,
    {
        let c = chars[i];
        assert(row[i - from] == c);
        if c < '0' || c > '9' {
            return None;
        }
        let d: u64 = (c as u32 - 48) as u64;
        assert(row.take(i - from + 1).drop_last() =~= row.take(i - from));
        if d > max || value > (max - d) / 10 {
            proof {
                if is_number(row) {
                    lemma_number_value_monotone(row, i - from + 1);
                }
            }
            return None;
        }
        value = value * 10 + d;
        i = i + 1;
    }
    assert(row.take(i - from) =~= row);
    Some(value)
}

/// Reads `text` as an `i64` in decimal notation, behind an optional sign.
pub fn parse_i64(text: &str) -> (value: Option<i64>)
    ensures
        value == i64_value(text@),
{
    let chars = chars_of(text);
    if chars.len() == 0 {
        return None;
    }
    assert(chars@.skip(0) =~= chars@);
    if chars[0] == '-' {
        assert(!is_digit(chars@[0]));
        match parse_number(&chars, 1, 0x8000_0000_0000_0000) {
            Some(v) => Some((-(v as i128)) as i64),
            None => None,
        }
    } else if chars[0] == '+' {
        assert(!is_digit(chars@[0]));
        match parse_number(&chars, 1, 0x7fff_ffff_ffff_ffff) {
            Some(v) => Some(v as i64),
            None => None,
        }
    } else {
        match parse_number(&chars, 0, 0x7fff_ffff_ffff_ffff) {
            Some(v) => Some(v as i64),
            None => None,
        }
    }
}

/// Reads `text` as a number in `0..=max`, behind an optional `+`.
pub fn parse_unsigned(text: &str, max: u32) -> (value: Option<u32>)
    ensures
        value is Some == unsigned_value(text@, max as int) is Some,
        value matches Some(v) ==> unsigned_value(text@, max as int) == Some(v as int),
{
    let chars = chars_of(text);
    if chars.len() == 0 {
        return None;
    }
    assert(chars@.skip(0) =~= chars@);
    let from: usize = if chars[0] == '+' {
        1
    } else {
        0
    };
    assert(chars@[0] == '+' || chars@[0] == '-' ==> !is_digit(chars@[0]));
    match parse_number(&chars, from, max as u64) {
        Some(v) => Some(v as u32),
        None => None,
    }
}

proof fn lemma_number_text_value(n: nat)
    ensures
        is_number(number_text(n)),
        number_value(number_text(n)) == n,
    decreases n,
{
    reveal_with_fuel(number_value, 2);
    if n < 10 {
        assert(number_text(n).drop_last() =~= Seq::<char>::empty());
    } else {
        lemma_number_text_value(n / 10);
        assert(number_text(n).drop_last() =~= number_text(n / 10));
    }
}

/// Decimal notation holds nothing but a sign and digits.
pub(crate) proof fn lemma_decimal_is_graphic(n: int)
    ensures
        decimal(n).len() > 0,
        forall|i: int| 0 <= i < decimal(n).len() ==> '-' <= #[trigger] decimal(n)[i] <= '9',
        n >= 0 ==> is_number(decimal(n)),
{
    if n < 0 {
        lemma_number_text_value((-n) as nat);
        assert forall|i: int| 0 <= i < decimal(n).len() implies '-' <= #[trigger] decimal(
            n,
        )[i] <= '9' by {
            if i > 0 {
                assert(is_digit(number_text((-n) as nat)[i - 1]));
            }
        }
    } else {
        lemma_number_text_value(n as nat);
    }
}

/// The decimal notation of an integer denotes that integer.
pub proof fn law_decimal_denotes(n: int)
    ensures
        integer_value(decimal(n)) == Some(n),
{
    if n < 0 {
        lemma_number_text_value((-n) as nat);
        assert(decimal(n).skip(1) =~= number_text((-n) as nat));
        assert(!is_digit(decimal(n)[0]));
    } else {
        lemma_number_text_value(n as nat);
    }
}

/// Two integers with the same decimal notation are the same integer.
pub proof fn law_decimal_injective(a: int, b: int)
    requires
        decimal(a) == decimal(b),
    ensures
        a == b,
{
    law_decimal_denotes(a);
    law_decimal_denotes(b);
}

// ---------------------------------------------------------------------------
// White space
// ---------------------------------------------------------------------------

/// Whether `c` has the Unicode property `White_Space`.
pub open spec fn is_white_space(c: char) -> bool {
    ||| '\u{9}' <= c <= '\u{d}'
    ||| c == ' '
    ||| c == '\u{85}'
    ||| c == '\u{a0}'
    ||| c == '\u{1680}'
    ||| '\u{2000}' <= c <= '\u{200a}'
    ||| c == '\u{2028}'
    ||| c == '\u{2029}'
    ||| c == '\u{202f}'
    ||| c == '\u{205f}'
    ||| c == '\u{3000}'
}

/// `s` without the white space at its beginning.
pub open spec fn trim_start(s: Seq<char>) -> Seq<char>
    decreases s.len(),
{
    if s.len() > 0 && is_white_space(s[0]) {
        trim_start(s.skip(1))
    } else {
        s
    }
}

/// `s` without the white space at both ends.
pub open spec fn trim(s: Seq<char>) -> Seq<char> {
    trim_end(trim_start(s))
}

/// `s` without the white space at its end.
pub open spec fn trim_end(s: Seq<char>) -> Seq<char>
    decreases s.len(),
{
    if s.len() > 0 && is_white_space(s.last()) {
        trim_end(s.drop_last())
    } else {
        s
    }
}

/// Whether `c` has the Unicode property `White_Space`.
pub fn white_space(c: char) -> (b: bool)
    ensures
        b == is_white_space(c),
{
    ('\u{9}' <= c && c <= '\u{d}') || c == ' ' || c == '\u{85}' || c == '\u{a0}' || c == '\u{1680}'
        || ('\u{2000}' <= c && c <= '\u{200a}') || c == '\u{2028}' || c == '\u{2029}' || c
        == '\u{202f}' || c == '\u{205f}' || c == '\u{3000}'
}

/// Cuts the white space off both ends of `text`.
pub fn trimmed(text: &str) -> (rest: String)
    ensures
        rest@ == trim(text@),
{
    let chars = chars_of(text);
    let mut from: usize = 0;
    assert(chars@.skip(0) =~= chars@);
    while from < chars.len() && white_space(chars[from])
        invariant
            from <= chars@.len(),
            trim_start(chars@.skip(from as int)) == trim_start(chars@),
        decreases chars@.len() - from,
    {
        assert(chars@.skip(from as int).skip(1) =~= chars@.skip(from + 1));
        from = from + 1;
    }
    let ghost start = chars@.skip(from as int);
    let mut to: usize = chars.len();
    assert(chars@.subrange(from as int, to as int) =~= start);
    while to > from && white_space(chars[to - 1])
        invariant
            from <= to <= chars@.len(),
            trim_end(chars@.subrange(from as int, to as int)) == trim_end(start),
        decreases to,
    {
        assert(chars@.subrange(from as int, to as int).drop_last() =~= chars@.subrange(
            from as int,
            to - 1,
        ));
        assert(chars@.subrange(from as int, to as int).last() == chars@[to - 1]);
        to = to - 1;
    }
    assert(from < to ==> chars@.subrange(from as int, to as int).last() == chars@[to - 1]);
    text_of(&chars, from, to)
}

/// White space around a text that neither begins nor ends with any is what
/// `trim` cuts off, and all it cuts off.
pub proof fn law_trim_cuts_white_space(before: Seq<char>, core: Seq<char>, after: Seq<char>)
    requires
        forall|i: int| 0 <= i < before.len() ==> is_white_space(#[trigger] before[i]),
        forall|i: int| 0 <= i < after.len() ==> is_white_space(#[trigger] after[i]),
        core.len() > 0,
        !is_white_space(core[0]),
        !is_white_space(core.last()),
    ensures
        trim(before + core + after) == core,
    decreases before.len() + after.len(),
{
    let whole = before + core + after;
    if before.len() > 0 {
        assert(whole[0] == before[0]);
        assert(whole.skip(1) =~= before.skip(1) + core + after);
        law_trim_cuts_white_space(before.skip(1), core, after);
    } else {
        assert(whole =~= core + after);
        assert(whole[0] == core[0]);
        if after.len() > 0 {
            assert(whole.last() == after.last());
            assert(whole.drop_last() =~= core + after.drop_last());
            law_trim_cuts_white_space(before, core, after.drop_last());
            assert(before + core + after.drop_last() =~= core + after.drop_last());
            assert((core + after.drop_last())[0] == core[0]);
        } else {
            assert(whole =~= core);
        }
    }
}

// ---------------------------------------------------------------------------
// Prefixes, suffixes, segments
// ---------------------------------------------------------------------------

/// Whether `text` begins with the characters of `prefix`.
pub fn begins_with(text: &str, prefix: &str) -> (b: bool)
    ensures
        b == prefix@.is_prefix_of(text@),
{
    let n = prefix.unicode_len();
    if n > text.unicode_len() {
        return false;
    }
    let head = text.substring_char(0, n);
    assert(text@.subrange(0, n as int) =~= text@.take(n as int));
    same_text(head, prefix)
}

/// What follows `prefix` in `text`. `None` where `text` does not begin with it.
pub fn without_prefix(text: &str, prefix: &str) -> (rest: Option<String>)
    ensures
        prefix@.is_prefix_of(text@) ==> (rest matches Some(r) && r@ == text@.skip(
            prefix@.len() as int,
        )),
        !prefix@.is_prefix_of(text@) ==> rest is None,
{
    if begins_with(text, prefix) {
        let rest = text.substring_char(prefix.unicode_len(), text.unicode_len());
        assert(text@.subrange(prefix@.len() as int, text@.len() as int) =~= text@.skip(
            prefix@.len() as int,
        ));
        Some(rest.to_owned())
    } else {
        None
    }
}

/// Whether `text` ends with the characters of `suffix`.
pub fn ends_with(text: &str, suffix: &str) -> (b: bool)
    ensures
        b == suffix@.is_suffix_of(text@),
{
    let n = text.unicode_len();
    let k = suffix.unicode_len();
    if k > n {
        return false;
    }
    let tail = text.substring_char(n - k, n);
    assert(text@.subrange(n - k, n as int) =~= text@.skip(n - k));
    same_text(tail, suffix)
}

/// The characters of `s` behind the last `mark`; all of `s` where it holds none.
pub open spec fn after_last(s: Seq<char>, mark: char) -> Seq<char>
    decreases s.len(),
{
    if s.len() == 0 || s.last() == mark {
        Seq::empty()
    } else {
        after_last(s.drop_last(), mark).push(s.last())
    }
}

/// The segment of `text` behind the last `mark`.
pub fn last_segment(text: &str, mark: char) -> (segment: String)
    ensures
        segment@ == after_last(text@, mark),
{
    let chars = chars_of(text);
    let n: usize = chars.len();
    let mut from: usize = n;
    assert(chars@.take(n as int) =~= chars@);
    assert(chars@.skip(n as int) =~= Seq::<char>::empty());
    while from > 0 && chars[from - 1] != mark
        invariant
            from <= n == chars@.len(),
            after_last(chars@, mark) =~= after_last(chars@.take(from as int), mark) + chars@.skip(
                from as int,
            ),
        decreases from,
    {
        assert(chars@.take(from as int).drop_last() =~= chars@.take(from - 1));
        assert(chars@.skip(from - 1) =~= seq![chars@[from - 1]] + chars@.skip(from as int));
        from = from - 1;
    }
    assert(from > 0 ==> chars@.take(from as int).last() == chars@[from - 1]);
    assert(chars@.subrange(from as int, n as int) =~= chars@.skip(from as int));
    text_of(&chars, from, n)
}

/// The texts of `parts` in order, with `separator` between two neighbours.
pub open spec fn join(parts: Seq<Seq<char>>, separator: Seq<char>) -> Seq<char>
    decreases parts.len(),
{
    if parts.len() == 0 {
        Seq::empty()
    } else if parts.len() == 1 {
        parts[0]
    } else {
        join(parts.drop_last(), separator) + separator + parts.last()
    }
}

/// Joins `parts`, with `separator` between two neighbours.
pub fn joined(parts: &Vec<String>, separator: &str) -> (text: String)
    ensures
        text@ == join(texts_view(parts@), separator@),
{
    let mut text = String::new();
    let ghost views = texts_view(parts@);
    let mut i: usize = 0;
    while i < parts.len()
        invariant
            i <= parts@.len(),
            views == texts_view(parts@),
            text@ == join(views.take(i as int), separator@),
        decreases parts@.len() - i,
    {
        if i > 0 {
            text.append(separator);
        }
        text.append(parts[i].as_str());
        assert(views.take(i + 1).drop_last() =~= views.take(i as int));
        assert(i == 0 ==> text@ =~= parts@[0]@);
        i = i + 1;
    }
    assert(views.take(i as int) =~= views);
    text
}

// ---------------------------------------------------------------------------
// Letters
// ---------------------------------------------------------------------------

/// The lowercase form of an ASCII character.
pub open spec fn ascii_lowercase(c: char) -> char {
    if 'A' <= c <= 'Z' {
        (c as int + 32) as char
    } else {
        c
    }
}

/// What `str::to_lowercase` gives for a text that is not all ASCII.
pub uninterp spec fn unicode_lowercase(s: Seq<char>) -> Seq<char>;

/// The lowercase form of a text.
pub open spec fn lowercase(s: Seq<char>) -> Seq<char> {
    if is_ascii_chars(s) {
        s.map_values(|c: char| ascii_lowercase(c))
    } else {
        unicode_lowercase(s)
    }
}

/// `str::to_lowercase`: an ASCII text keeps every character but `A` to `Z`,
/// which become `a` to `z`; any other text is mapped by the Unicode tables,
/// whose result is only named.
pub assume_specification[ str::to_lowercase ](text: &str) -> (lower: String)
    ensures
        is_ascii_chars(text@) ==> lower@ == text@.map_values(|c: char| ascii_lowercase(c)),
        !is_ascii_chars(text@) ==> lower@ == unicode_lowercase(text@),
;

/// Whether `char::is_alphanumeric` holds of a character that is not ASCII.
pub uninterp spec fn unicode_alphanumeric(c: char) -> bool;

/// Whether `c` is a letter or a number.
pub open spec fn is_letter_or_number(c: char) -> bool {
    if (c as u32) < 128 {
        is_digit(c) || 'a' <= c <= 'z' || 'A' <= c <= 'Z'
    } else {
        unicode_alphanumeric(c)
    }
}

/// `char::is_alphanumeric`: of the ASCII characters it holds of the digits and
/// of the letters `a` to `z` and `A` to `Z`; of the others it is decided by the
/// Unicode tables, whose answer is only named.
pub assume_specification[ char::is_alphanumeric ](c: char) -> (b: bool)
    ensures
        (c as u32) < 128 ==> b == (is_digit(c) || 'a' <= c <= 'z' || 'A' <= c <= 'Z'),
        (c as u32) >= 128 ==> b == unicode_alphanumeric(c),
;

/// The letters and numbers of `text`, in order.
pub fn alphanumeric_only(text: &str) -> (kept: String)
    ensures
        kept@ == text@.filter(|c: char| is_letter_or_number(c)),
{
    let ghost wanted = |c: char| is_letter_or_number(c);
    let mut kept = String::new();
    assert(text@.take(0).filter(wanted) =~= Seq::<char>::empty()) by {
        reveal(Seq::filter);
    }
    for c in iter: text.chars()
        invariant
            iter.seq() == text@,
            wanted == (|c: char| is_letter_or_number(c)),
            kept@ == text@.take(iter.index() as int).filter(wanted),
    {
        proof {
            reveal(Seq::filter);
            assert(text@.take(iter.index() + 1).drop_last() =~= text@.take(iter.index() as int));
            assert(text@.take(iter.index() + 1).last() == c);
        }
        if c.is_alphanumeric() {
            kept.push(c);
        }
    }
    assert(text@.take(text@.len() as int) =~= text@);
    kept
}

}
