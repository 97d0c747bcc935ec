//! Character-level text operations with exact specifications: whitespace, words, decimal
//! numbers, ASCII case, substring search and replacement.
use vstd::prelude::*;
use vstd::utf8::{decode_utf8, valid_utf8};

verus! {

/// The Unicode `White_Space` property.
pub open spec fn whitespace(c: char) -> bool {
    ||| '\u{9}' <= c <= '\u{d}'
    ||| c == ' '
    ||| c == '\u{85}'
    ||| c == '\u{a0}'
    ||| c == '\u{1680}'
    ||| '\u{2000}' <= c <= '\u{200a}'
    ||| c == '\u{2028}'
    ||| c == '\u{2029}'
    ||| c == '\u{202f}'
    ||| c == '\u{205f}'
    ||| c == '\u{3000}'
}

/// `s` without its leading whitespace.
pub open spec fn skip_whitespace(s: Seq<char>) -> Seq<char>
    decreases s.len(),
{
    if s.len() > 0 && whitespace(s[0]) {
        skip_whitespace(s.skip(1))
    } else {
        s
    }
}

/// `s` without its trailing whitespace.
pub open spec fn drop_whitespace(s: Seq<char>) -> Seq<char>
    decreases s.len(),
{
    if s.len() > 0 && whitespace(s.last()) {
        drop_whitespace(s.drop_last())
    } else {
        s
    }
}

/// `s` without its leading and trailing whitespace.
pub open spec fn trim(s: Seq<char>) -> Seq<char> {
    drop_whitespace(skip_whitespace(s))
}

/// The longest prefix of `s` that holds no whitespace.
pub open spec fn leading_word(s: Seq<char>) -> Seq<char>
    decreases s.len(),
{
    if s.len() > 0 && !whitespace(s[0]) {
        seq![s[0]] + leading_word(s.skip(1))
    } else {
        Seq::empty()
    }
}

/// The first whitespace-separated word of `s`, empty when `s` is blank.
pub open spec fn first_word(s: Seq<char>) -> Seq<char> {
    leading_word(skip_whitespace(s))
}

/// What follows the first whitespace-separated word of `s`.
pub open spec fn after_first_word(s: Seq<char>) -> Seq<char> {
    let start = skip_whitespace(s);
    start.skip(leading_word(start).len() as int)
}

/// The index of the first occurrence of `x` in `s`, or the length of `s` when there is none.
pub open spec fn position<T>(s: Seq<T>, x: T) -> int
    decreases s.len(),
{
    if s.len() == 0 || s[0] == x {
        0
    } else {
        1 + position(s.skip(1), x)
    }
}

/// The ASCII lower-case form of `c`.
pub open spec fn ascii_lower(c: char) -> char {
    if 'A' <= c <= 'Z' {
        ((c as u32 + 32) as u32) as char
    } else {
        c
    }
}

/// `s` with every ASCII letter in lower case.
pub open spec fn lower(s: Seq<char>) -> Seq<char> {
    Seq::new(s.len(), |i: int| ascii_lower(s[i]))
}

/// `needle` occurs in `hay` at index `at`.
pub open spec fn occurs_at(hay: Seq<char>, needle: Seq<char>, at: int) -> bool {
    0 <= at && at + needle.len() <= hay.len() && hay.subrange(at, at + needle.len()) == needle
}

/// `needle` occurs somewhere in `hay`.
pub open spec fn occurs(hay: Seq<char>, needle: Seq<char>) -> bool {
    exists|at: int| occurs_at(hay, needle, at)
}

/// `s` with each occurrence of `c` replaced by `with`.
pub open spec fn replace_char(s: Seq<char>, c: char, with: Seq<char>) -> Seq<char>
    decreases s.len(),
{
    if s.len() == 0 {
        Seq::empty()
    } else {
        replace_char(s.drop_last(), c, with) + (if s.last() == c {
            with
        } else {
            seq![s.last()]
        })
    }
}

/// `c` is one of the ten ASCII digits.
pub open spec fn is_digit(c: char) -> bool {
    '0' <= c <= '9'
}

/// The value of a sequence of decimal digits.
pub open spec fn decimal_value(s: Seq<char>) -> nat
    decreases s.len(),
{
    if s.len() == 0 {
        0
    } else {
        decimal_value(s.drop_last()) * 10 + (s.last() as u32 - '0' as u32) as nat
    }
}

/// The decimal digits of `n`, without leading zeros.
pub open spec fn decimal_digits(n: nat) -> Seq<char>
    decreases n,
{
    let digit = (('0' as u32 + (n % 10)) as u32) as char;
    if n < 10 {
        seq![digit]
    } else {
        decimal_digits(n / 10).push(digit)
    }
}

/// `s` without one leading plus sign.
pub open spec fn without_plus(s: Seq<char>) -> Seq<char> {
    if s.len() > 0 && s[0] == '+' {
        s.skip(1)
    } else {
        s
    }
}

/// The unsigned number that `s` spells, if it spells one that is at most `max`: an optional plus
/// sign and at least one decimal digit, nothing else.
pub open spec fn unsigned_value(s: Seq<char>, max: nat) -> Option<nat> {
    let digits = without_plus(s);
    if digits.len() > 0 && (forall|i: int| 0 <= i < digits.len() ==> is_digit(#[trigger] digits[i]))
        && decimal_value(digits) <= max {
        Some(decimal_value(digits))
    } else {
        None
    }
}

/// Decodes UTF-8 with `core::str::from_utf8` and copies the text out. Claimed of it: it accepts
/// exactly the valid UTF-8 sequences, and the text holds the characters that the bytes encode.
#[verifier::external_body]
pub(crate) fn utf8_text(bytes: &[u8]) -> (text: Option<String>)
    ensures
        match text {
            Some(text) => valid_utf8(bytes@) && text@ == decode_utf8(bytes@),
            None => !valid_utf8(bytes@),
        },
{
    match std::str::from_utf8(bytes) {
        Ok(text) => Some(text.to_owned()),
        Err(_) => None,
    }
}

/// `String::push`. Claimed of it: it appends the character to the end of the string.
pub assume_specification[ String::push ](text: &mut String, c: char)
    ensures
        final(text)@ == old(text)@.push(c),
;

/// The characters of `text`.
pub fn chars_of(text: &str) -> (chars: Vec<char>)
    ensures
        chars@ == text@,
{
    let mut chars: Vec<char> = Vec::new();
    for c in it: text.chars()
        invariant
            it.seq() == text@,
            chars@ == it.seq().take(it.index() as int),
    {
        chars.push(c);
    }
    chars
}

/// Whether two texts are equal.
pub fn same_text(left: &str, right: &str) -> (same: bool)
    ensures
        same == (left@ == right@),
{
    left.to_owned() == right.to_owned()
}

/// The characters in `chars[from..to]` as a string.
pub fn text_of(chars: &Vec<char>, from: usize, to: usize) -> (text: String)
    requires
        from <= to <= chars@.len(),
    ensures
        text@ == chars@.subrange(from as int, to as int),
{
    let mut text = String::new();
    let mut at: usize = from;
    while at < to
        invariant
            from <= at <= to <= chars@.len(),
            text@ == chars@.subrange(from as int, at as int),
        decreases to - at,
    {
        text.push(chars[at]);
        at = at + 1;
    }
    text
}

/// Whether `c` is whitespace.
pub fn is_whitespace(c: char) -> (result: bool)
    ensures
        result == whitespace(c),
{
    ('\u{9}' <= c && c <= '\u{d}') || c == ' ' || c == '\u{85}' || c == '\u{a0}' || c == '\u{1680}'
        || ('\u{2000}' <= c && c <= '\u{200a}') || c == '\u{2028}' || c == '\u{2029}' || c
        == '\u{202f}' || c == '\u{205f}' || c == '\u{3000}'
}

/// The index at or after `from` where the whitespace ends.
pub fn whitespace_end(chars: &Vec<char>, from: usize) -> (end: usize)
    requires
        from <= chars@.len(),
    ensures
        from <= end <= chars@.len(),
        skip_whitespace(chars@.skip(from as int)) == chars@.skip(end as int),
{
    let mut end: usize = from;
    while end < chars.len() && is_whitespace(chars[end])
        invariant
            from <= end <= chars@.len(),
            skip_whitespace(chars@.skip(from as int)) == skip_whitespace(chars@.skip(end as int)),
        decreases chars@.len() - end,
    {
        assert(chars@.skip(end as int).skip(1) == chars@.skip(end + 1));
        end = end + 1;
    }
    end
}

/// The index at or after `from` where the word ends.
pub fn word_end(chars: &Vec<char>, from: usize) -> (end: usize)
    requires
        from <= chars@.len(),
    ensures
        from <= end <= chars@.len(),
        leading_word(chars@.skip(from as int)) == chars@.subrange(from as int, end as int),
{
    let mut end: usize = from;
    while end < chars.len() && !is_whitespace(chars[end])
        invariant
            from <= end <= chars@.len(),
            leading_word(chars@.skip(from as int)) == chars@.subrange(from as int, end as int)
                + leading_word(chars@.skip(end as int)),
        decreases chars@.len() - end,
    {
        assert(chars@.skip(end as int).skip(1) == chars@.skip(end + 1));
        assert(chars@.subrange(from as int, end + 1) == chars@.subrange(from as int, end as int)
            + seq![chars@[end as int]]);
        end = end + 1;
    }
    end
}

/// Whether `chars[from..to]` spells `literal`.
pub fn range_is(chars: &Vec<char>, from: usize, to: usize, literal: &str) -> (same: bool)
    requires
        from <= to <= chars@.len(),
    ensures
        same == (chars@.subrange(from as int, to as int) == literal@),
{
    same_text(text_of(chars, from, to).as_str(), literal)
}

/// The text without its leading and trailing whitespace.
pub fn trimmed(text: &str) -> (result: String)
    ensures
        result@ == trim(text@),
{
    let chars = chars_of(text);
    assert(chars@.skip(0) == chars@);
    let from = whitespace_end(&chars, 0);
    let mut to: usize = chars.len();
    assert(chars@.subrange(from as int, to as int) == chars@.skip(from as int));
    while to > from && is_whitespace(chars[to - 1])
        invariant
            from <= to <= chars@.len(),
            drop_whitespace(chars@.skip(from as int)) == drop_whitespace(
                chars@.subrange(from as int, to as int),
            ),
        decreases to,
    {
        assert(chars@.subrange(from as int, to as int).drop_last() == chars@.subrange(
            from as int,
            to - 1,
        ));
        to = to - 1;
    }
    text_of(&chars, from, to)
}

/// The text with every ASCII letter in lower case.
pub fn lowercase(text: &str) -> (result: String)
    ensures
        result@ == lower(text@),
{
    let chars = chars_of(text);
    let mut result = String::new();
    let mut at: usize = 0;
    while at < chars.len()
        invariant
            at <= chars@.len(),
            result@ == lower(chars@.take(at as int)),
        decreases chars@.len() - at,
    {
        result.push(lowercase_char(chars[at]));
        at = at + 1;
        assert(result@ =~= lower(chars@.take(at as int)));
    }
    assert(chars@.take(at as int) == chars@);
    result
}

fn lowercase_char(c: char) -> (result: char)
    ensures
        result == ascii_lower(c),
{
    if 'A' <= c && c <= 'Z' {
        (c as u8 + 32) as char
    } else {
        c
    }
}

/// Whether two texts are equal when the case of ASCII letters is ignored.
pub fn same_text_ignoring_case(left: &str, right: &str) -> (same: bool)
    ensures
        same == (lower(left@) == lower(right@)),
{
    same_text(lowercase(left).as_str(), lowercase(right).as_str())
}

/// Whether `needle` occurs in `hay`.
pub fn contains_text(hay: &str, needle: &str) -> (found: bool)
    ensures
        found == occurs(hay@, needle@),
{
    let hay_chars = chars_of(hay);
    let length: usize = chars_of(needle).len();
    let total: usize = hay_chars.len();
    if length > total {
        return false;
    }
    let last: usize = total - length;
    let mut at: usize = 0;
    while at <= last
        invariant
            hay_chars@ == hay@,
            length == needle@.len(),
            total == hay@.len(),
            last == total - length,
            at <= last + 1,
            forall|k: int| 0 <= k < at ==> !occurs_at(hay@, needle@, k),
        decreases last + 1 - at,
    {
        if range_is(&hay_chars, at, at + length, needle) {
            assert(occurs_at(hay@, needle@, at as int));
            return true;
        }
        if at == last {
            return false;
        }
        at = at + 1;
    }
    false
}

/// The text with each occurrence of `c` replaced by `with`.
pub fn replaced(text: &str, c: char, with: &str) -> (result: String)
    ensures
        result@ == replace_char(text@, c, with@),
{
    let chars = chars_of(text);
    let mut result = String::new();
    let mut at: usize = 0;
    while at < chars.len()
        invariant
            at <= chars@.len(),
            result@ == replace_char(chars@.take(at as int), c, with@),
        decreases chars@.len() - at,
    {
        if chars[at] == c {
            result.append(with);
        } else {
            result.push(chars[at]);
        }
        assert(chars@.take(at + 1).drop_last() == chars@.take(at as int));
        at = at + 1;
    }
    assert(chars@.take(at as int) == chars@);
    result
}

proof fn lemma_decimal_value_grows(s: Seq<char>, k: int)
    requires
        0 <= k <= s.len(),
    ensures
        decimal_value(s.take(k)) <= decimal_value(s) || exists|i: int|
            0 <= i < s.len() && !is_digit(s[i]),
    decreases s.len() - k,
{
    if k == s.len() {
        assert(s.take(k) == s);
    } else {
        lemma_decimal_value_grows(s, k + 1);
        assert(s.take(k + 1).drop_last() == s.take(k));
        assert(s.take(k + 1).last() == s[k]);
    }
}

/// Parses an unsigned decimal number that is at most `max`.
pub fn parse_unsigned(text: &str, max: u64) -> (value: Option<u64>)
    ensures
        match value {
            Some(value) => unsigned_value(text@, max as nat) == Some(value as nat),
            None => unsigned_value(text@, max as nat) is None,
        },
{
    let chars = chars_of(text);
    let from: usize = if chars.len() > 0 && chars[0] == '+' {
        1
    } else {
        0
    };
    let ghost digits = without_plus(text@);
    assert(digits == chars@.skip(from as int));
    if from == chars.len() {
        return None;
    }
    let mut value: u64 = 0;
    let mut at: usize = from;
    while at < chars.len()
        invariant
            from <= at <= chars@.len(),
            digits == chars@.skip(from as int),
            digits == without_plus(text@),
            forall|i: int| 0 <= i < at - from ==> is_digit(#[trigger] digits[i]),
            value == decimal_value(digits.take(at - from)),
            value <= max,
        decreases chars@.len() - at,
    {
        let c = chars[at];
        assert(digits[at - from] == c);
        if !('0' <= c && c <= '9') {
            return None;
        }
        let digit: u64 = (c as u32 - '0' as u32) as u64;
        proof {
            assert(digits.take(at - from + 1).drop_last() == digits.take(at - from));
            lemma_decimal_value_grows(digits, at - from + 1);
        }
        let next: u128 = value as u128 * 10 + digit as u128;
        if next > max as u128 {
            return None;
        }
        value = next as u64;
        at = at + 1;
    }
    assert(digits.take(at - from) == digits);
    Some(value)
}

proof fn lemma_decimal_digits(n: nat)
    ensures
        decimal_digits(n).len() > 0,
        forall|i: int|
            0 <= i < decimal_digits(n).len() ==> is_digit(#[trigger] decimal_digits(n)[i]),
        decimal_value(decimal_digits(n)) == n,
    decreases n,
{
    let digit = (('0' as u32 + (n % 10)) as u32) as char;
    assert(is_digit(digit) && digit as u32 - '0' as u32 == n % 10);
    if n < 10 {
        assert(seq![digit].drop_last() == Seq::<char>::empty());
        assert(decimal_value(Seq::<char>::empty()) == 0);
    } else {
        lemma_decimal_digits(n / 10);
        assert(decimal_digits(n).drop_last() == decimal_digits(n / 10));
    }
}

/// Reading back a formatted number gives the number.
pub proof fn decimal_round_trip(n: nat, max: nat)
    requires
        n <= max,
    ensures
        unsigned_value(decimal_digits(n), max) == Some(n),
{
    lemma_decimal_digits(n);
    assert(is_digit(decimal_digits(n)[0]));
}

/// A formatted number has no whitespace to trim.
pub proof fn decimal_is_trimmed(n: nat)
    ensures
        trim(decimal_digits(n)) == decimal_digits(n),
{
    lemma_decimal_digits(n);
    assert(is_digit(decimal_digits(n)[0]));
    assert(is_digit(decimal_digits(n)[decimal_digits(n).len() - 1]));
}

/// White space after a formatted number is trimmed.
pub proof fn decimal_line_is_trimmed(n: nat, end: char)
    requires
        whitespace(end),
    ensures
        trim(decimal_digits(n).push(end)) == decimal_digits(n),
{
    let digits = decimal_digits(n);
    lemma_decimal_digits(n);
    assert(is_digit(digits[0]));
    assert(is_digit(digits[digits.len() - 1]));
    assert(digits.push(end)[0] == digits[0]);
    assert(digits.push(end).drop_last() == digits);
    assert(drop_whitespace(digits) == digits);
}

/// The decimal digits of `value`.
pub fn format_unsigned(value: u64) -> (text: String)
    ensures
        text@ == decimal_digits(value as nat),
    decreases value,
{
    let digit = (0x30u8 + (value % 10) as u8) as char;
    let mut text = if value < 10 {
        String::new()
    } else {
        format_unsigned(value / 10)
    };
    text.push(digit);
    text
}

/// The concatenation of three texts.
pub fn joined(first: &str, second: &str, third: &str) -> (text: String)
    ensures
        text@ == first@ + second@ + third@,
{
    let mut text = first.to_owned();
    text.append(second);
    text.append(third);
    text
}

/// `s` is made of whitespace alone.
pub open spec fn blank(s: Seq<char>) -> bool {
    forall|i: int| 0 <= i < s.len() ==> whitespace(#[trigger] s[i])
}

/// `s` holds no whitespace.
pub open spec fn solid(s: Seq<char>) -> bool {
    forall|i: int| 0 <= i < s.len() ==> !whitespace(#[trigger] s[i])
}

/// Blanks, tabs and line ends are whitespace; the visible ASCII characters are not.
pub proof fn visible_characters_are_no_whitespace(c: char)
    ensures
        whitespace(' ') && whitespace('\t') && whitespace('\n') && whitespace('\r'),
        '!' <= c <= '~' ==> !whitespace(c),
        c < '\u{80}' ==> (whitespace(c) <==> c == ' ' || '\t' <= c <= '\r'),
{
}

proof fn lemma_skip_blank(before: Seq<char>, rest: Seq<char>)
    requires
        blank(before),
        rest.len() > 0 ==> !whitespace(rest[0]),
    ensures
        skip_whitespace(before + rest) == rest,
    decreases before.len(),
{
    if before.len() == 0 {
        assert(before + rest =~= rest);
    } else {
        assert(whitespace(before[0]));
        assert((before + rest).skip(1) =~= before.skip(1) + rest);
        assert forall|i: int| 0 <= i < before.skip(1).len() implies whitespace(
            #[trigger] before.skip(1)[i],
        ) by {
            assert(whitespace(before[i + 1]));
        }
        lemma_skip_blank(before.skip(1), rest);
    }
}

proof fn lemma_drop_blank(kept: Seq<char>, after: Seq<char>)
    requires
        blank(after),
        kept.len() > 0 ==> !whitespace(kept.last()),
    ensures
        drop_whitespace(kept + after) == kept,
    decreases after.len(),
{
    if after.len() == 0 {
        assert(kept + after =~= kept);
    } else {
        assert(whitespace(after[after.len() - 1]));
        assert((kept + after).drop_last() =~= kept + after.drop_last());
        assert forall|i: int| 0 <= i < after.drop_last().len() implies whitespace(
            #[trigger] after.drop_last()[i],
        ) by {
            assert(whitespace(after[i]));
        }
        lemma_drop_blank(kept, after.drop_last());
    }
}

/// Trimming takes off the whitespace at both ends, all of it, and nothing else.
pub proof fn trim_takes_whitespace_off_both_ends(
    before: Seq<char>,
    kept: Seq<char>,
    after: Seq<char>,
)
    requires
        blank(before),
        blank(after),
        kept.len() > 0 ==> !whitespace(kept[0]) && !whitespace(kept.last()),
    ensures
        trim(before + kept + after) == kept,
{
    if kept.len() == 0 {
        let all = before + kept + after;
        assert forall|i: int| 0 <= i < all.len() implies whitespace(#[trigger] all[i]) by {
            if i < before.len() {
                assert(whitespace(before[i]));
            } else {
                assert(whitespace(after[i - before.len()]));
            }
        }
        lemma_skip_blank(all, kept);
        assert(all + kept =~= all);
        assert(drop_whitespace(kept) == kept);
    } else {
        assert(before + kept + after =~= before + (kept + after));
        assert((kept + after)[0] == kept[0]);
        lemma_skip_blank(before, kept + after);
        lemma_drop_blank(kept, after);
    }
}

proof fn lemma_leading_word(word: Seq<char>, rest: Seq<char>)
    requires
        solid(word),
        rest.len() > 0 ==> whitespace(rest[0]),
    ensures
        leading_word(word + rest) == word,
    decreases word.len(),
{
    if word.len() == 0 {
        assert(word + rest =~= rest);
        assert(leading_word(rest) =~= word);
    } else {
        assert(!whitespace(word[0]));
        assert((word + rest).skip(1) =~= word.skip(1) + rest);
        assert forall|i: int| 0 <= i < word.skip(1).len() implies !whitespace(
            #[trigger] word.skip(1)[i],
        ) by {
            assert(!whitespace(word[i + 1]));
        }
        lemma_leading_word(word.skip(1), rest);
        assert(seq![word[0]] + word.skip(1) =~= word);
        assert((word + rest)[0] == word[0]);
    }
}

/// The first word of a text is what stands between the whitespace in front of it and the whitespace
/// behind it, and the rest is left.
pub proof fn first_word_stands_between_whitespace(
    before: Seq<char>,
    word: Seq<char>,
    rest: Seq<char>,
)
    requires
        blank(before),
        solid(word),
        word.len() > 0,
        rest.len() > 0 ==> whitespace(rest[0]),
    ensures
        first_word(before + word + rest) == word,
        after_first_word(before + word + rest) == rest,
{
    assert(!whitespace(word[0]));
    assert(before + word + rest =~= before + (word + rest));
    assert((word + rest)[0] == word[0]);
    lemma_skip_blank(before, word + rest);
    lemma_leading_word(word, rest);
    assert((word + rest).skip(word.len() as int) =~= rest);
}

/// The position of an element is that of its first occurrence.
pub proof fn position_is_the_first_occurrence<T>(before: Seq<T>, x: T, after: Seq<T>)
    requires
        !before.contains(x),
    ensures
        position(before, x) == before.len(),
        position(before.push(x) + after, x) == before.len(),
    decreases before.len(),
{
    if before.len() > 0 {
        assert(before.contains(before[0]));
        let shorter = before.skip(1);
        if shorter.contains(x) {
            let at = choose|i: int| 0 <= i < shorter.len() && shorter[i] == x;
            assert(before[at + 1] == x);
        }
        position_is_the_first_occurrence(shorter, x, after);
        assert((before.push(x) + after).skip(1) =~= shorter.push(x) + after);
        assert((before.push(x) + after)[0] == before[0]);
    }
}

/// Lower case changes the letters from A to Z into those from a to z, one for one, and nothing else;
/// texts that differ in the case of such letters alone become the same.
pub proof fn lower_case_changes_letters_only(s: Seq<char>, i: int)
    requires
        0 <= i < s.len(),
    ensures
        lower(s).len() == s.len(),
        'A' <= s[i] <= 'Z' ==> lower(s)[i] as u32 == s[i] as u32 + 32 && 'a' <= lower(s)[i] <= 'z',
        !('A' <= s[i] <= 'Z') ==> lower(s)[i] == s[i],
        lower(lower(s)) == lower(s),
{
    assert(lower(lower(s)) =~= lower(s));
}

/// Replacing goes letter by letter.
pub proof fn replacing_goes_letter_by_letter(
    first: Seq<char>,
    second: Seq<char>,
    c: char,
    with: Seq<char>,
    other: char,
)
    requires
        other != c,
    ensures
        replace_char(first + second, c, with) == replace_char(first, c, with) + replace_char(
            second,
            c,
            with,
        ),
        replace_char(seq![c], c, with) == with,
        replace_char(seq![other], c, with) == seq![other],
    decreases second.len(),
{
    assert(seq![c].drop_last() =~= Seq::<char>::empty());
    assert(seq![other].drop_last() =~= Seq::<char>::empty());
    assert(replace_char(Seq::empty(), c, with) =~= Seq::empty());
    assert(Seq::<char>::empty() + with =~= with);
    assert(Seq::<char>::empty() + seq![other] =~= seq![other]);
    if second.len() == 0 {
        assert(first + second =~= first);
        assert(replace_char(first, c, with) + replace_char(second, c, with) =~= replace_char(
            first,
            c,
            with,
        ));
    } else {
        replacing_goes_letter_by_letter(first, second.drop_last(), c, with, other);
        assert((first + second).drop_last() =~= first + second.drop_last());
        assert((first + second).last() == second.last());
        assert(replace_char(first + second, c, with) =~= replace_char(first, c, with)
            + replace_char(second, c, with));
    }
}

/// A text occurs wherever it stands between two others, and nowhere else.
pub proof fn occurrence_splits_a_text(hay: Seq<char>, needle: Seq<char>)
    ensures
        occurs(hay, needle) <==> exists|before: Seq<char>, after: Seq<char>|
            hay == #[trigger] (before + needle + after),
{
    if occurs(hay, needle) {
        let at = choose|at: int| occurs_at(hay, needle, at);
        let (before, after) = (hay.take(at), hay.skip(at + needle.len()));
        assert(hay =~= before + needle + after);
    }
    if exists|before: Seq<char>, after: Seq<char>| hay == #[trigger] (before + needle + after) {
        let (before, after) = choose|before: Seq<char>, after: Seq<char>|
            hay == #[trigger] (before + needle + after);
        assert(hay.subrange(before.len() as int, (before.len() + needle.len()) as int) =~= needle);
        assert(occurs_at(hay, needle, before.len() as int));
    }
}

/// A number is spelled by decimal digits alone, at least one, with one plus sign in front at most,
/// and it is not larger than is allowed. Each digit counts ten times as much as the one behind it.
pub proof fn numbers_are_spelled_in_decimal(s: Seq<char>, digit: char, max: nat)
    ensures
        unsigned_value(Seq::empty(), max) is None,
        unsigned_value(seq!['+'], max) is None,
        !is_digit(digit) && s.len() > 0 ==> unsigned_value(s.push(digit), max) is None,
        unsigned_value(s, max) matches Some(n) ==> n <= max,
        is_digit(digit) && s.len() > 0 && s != seq!['+'] ==> unsigned_value(s.push(digit), max) == (
        match unsigned_value(s, max) {
            Some(n) if n * 10 + (digit as u32 - '0' as u32) <= max => Some(
                (n * 10 + (digit as u32 - '0' as u32)) as nat,
            ),
            _ => None,
        }),
        '0' <= digit <= '9' <==> is_digit(digit),
{
    assert(without_plus(seq!['+']) =~= Seq::empty());
    if s.len() > 0 {
        let digits = without_plus(s);
        let longer = without_plus(s.push(digit));
        assert(longer =~= digits.push(digit));
        assert(longer.drop_last() =~= digits);
        assert(longer[longer.len() - 1] == digit);
        if s != seq!['+'] {
            if digits.len() == 0 {
                assert(s =~= seq!['+']);
            }
            if forall|i: int| 0 <= i < longer.len() ==> is_digit(#[trigger] longer[i]) {
                assert forall|i: int| 0 <= i < digits.len() implies is_digit(
                    #[trigger] digits[i],
                ) by {
                    assert(is_digit(longer[i]));
                }
            }
            if is_digit(digit) && forall|i: int|
                0 <= i < digits.len() ==> is_digit(#[trigger] digits[i]) {
                assert forall|i: int| 0 <= i < longer.len() implies is_digit(
                    #[trigger] longer[i],
                ) by {
                    if i < digits.len() {
                        assert(is_digit(digits[i]));
                    }
                }
            }
        }
    }
}

/// A single digit spells its value, with or without a plus sign.
pub proof fn digit_spells_its_value(digit: char, max: nat)
    requires
        '0' <= digit <= '9',
        max >= 9,
    ensures
        unsigned_value(seq![digit], max) == Some((digit as u32 - '0' as u32) as nat),
        unsigned_value(seq!['+', digit], max) == Some((digit as u32 - '0' as u32) as nat),
{
    assert(seq![digit].drop_last() =~= Seq::<char>::empty());
    assert(decimal_value(Seq::empty()) == 0);
    assert(without_plus(seq!['+', digit]) =~= seq![digit]);
}

/// A formatted number holds no whitespace, and is not empty.
pub proof fn decimal_is_solid(n: nat)
    ensures
        solid(decimal_digits(n)),
        decimal_digits(n).len() > 0,
{
    lemma_decimal_digits(n);
    assert forall|i: int| 0 <= i < decimal_digits(n).len() implies !whitespace(
        #[trigger] decimal_digits(n)[i],
    ) by {
        assert(is_digit(decimal_digits(n)[i]));
    }
}

/// Beyond ASCII, whitespace is the next line, the no-break space, the Ogham space mark, the eleven
/// spaces from the en quad to the hair space, the two separators, the narrow no-break space, the
/// mathematical space and the ideographic space.
pub proof fn spaces_beyond_ascii(c: char)
    requires
        c as u32 >= 128,
    ensures
        whitespace(c) <==> (c as u32 == 0x85 || c as u32 == 0xa0 || c as u32 == 0x1680 || (0x2000
            <= c as u32 && c as u32 - 0x2000 < 11) || c as u32 == 0x2028 || c as u32 == 0x2029
            || c as u32 == 0x202f || c as u32 == 0x205f || c as u32 == 0x3000),
{
}

} // verus!
