//! Text helpers shared by the translator and the session manager: comparing
//! strings, lowercasing, reading decimal integers, and taking text apart into
//! lines and fields.

use vstd::prelude::*;
use vstd::string::*;
use vstd::utf8::*;

verus! {

/// Largest magnitude that [`parse_integer`] reports.
pub const INTEGER_LIMIT: i64 = 0x1_0000_0000;

/// Whether two strings hold the same characters.
pub fn str_equals(left: &str, right: &str) -> (same: bool)
    ensures
        same == (left@ == right@),
{
    let a = left.as_bytes();
    let b = right.as_bytes();
    proof {
        encode_utf8_decode_utf8(left@);
        encode_utf8_decode_utf8(right@);
    }
    if a.len() != b.len() {
        return false;
    }
    let mut i: usize = 0;
    while i < a.len()
        invariant
            i <= a@.len(),
            a@.len() == b@.len(),
            a@ == encode_utf8(left@),
            b@ == encode_utf8(right@),
            forall|j: int| 0 <= j < i ==> a@[j] == b@[j],
        decreases a.len() - i,
    {
        if a[i] != b[i] {
            return false;
        }
        i = i + 1;
    }
    assert(a@ =~= b@);
    true
}

/// What `str::to_lowercase` of std makes of `text`.
pub uninterp spec fn lowercased(text: Seq<char>) -> Seq<char>;

/// `str::to_lowercase` of std: the lowercase equivalent of `text` by the
/// Unicode rules, which depends on `text` alone.
#[verifier::external_body]
pub(crate) fn to_lowercase(text: &str) -> (lower: String)
    ensures
        lower@ == lowercased(text@),
{
    text.to_lowercase()
}

/// Whether `c` is one of the ten ASCII digits.
pub open spec fn is_digit(c: char) -> bool {
    '0' <= c <= '9'
}

/// Whether every character of `text` is an ASCII digit.
pub open spec fn all_digits(text: Seq<char>) -> bool {
    forall|i: int| 0 <= i < text.len() ==> is_digit(#[trigger] text[i])
}

/// The number that the digits of `text` write in base ten.
pub open spec fn decimal_value(text: Seq<char>) -> nat
    decreases text.len(),
{
    if text.len() == 0 {
        0
    } else {
        (decimal_value(text.drop_last()) * 10 + (text.last() as int - '0' as int)) as nat
    }
}

/// The integer that `text` writes: an optional sign, `+` or `-`, then one or
/// more ASCII digits and nothing else. There is no limit on its size.
pub open spec fn spec_parse_integer(text: Seq<char>) -> Option<int> {
    let signed = text.len() > 0 && (text[0] == '-' || text[0] == '+');
    let digits = if signed {
        text.subrange(1, text.len() as int)
    } else {
        text
    };
    if digits.len() == 0 || !all_digits(digits) {
        None
    } else if text[0] == '-' {
        Some(-(decimal_value(digits) as int))
    } else {
        Some(decimal_value(digits) as int)
    }
}

/// The value of `text` as a signed 32-bit integer, where it writes one.
pub open spec fn spec_parse_i32(text: Seq<char>) -> Option<i32> {
    match spec_parse_integer(text) {
        Some(v) if i32::MIN <= v <= i32::MAX => Some(v as i32),
        _ => None,
    }
}

/// The value of `text` as an unsigned 32-bit integer, where it writes one.
/// A minus sign is refused, also before zero.
pub open spec fn spec_parse_u32(text: Seq<char>) -> Option<u32> {
    match spec_parse_integer(text) {
        Some(v) if 0 <= v <= u32::MAX && text[0] != '-' => Some(v as u32),
        _ => None,
    }
}

/// A longer run of digits writes no smaller number than its beginning.
proof fn lemma_decimal_value_grows(text: Seq<char>, k: int)
    requires
        0 <= k <= text.len(),
        all_digits(text),
    ensures
        decimal_value(text.subrange(0, k)) <= decimal_value(text),
    decreases text.len() - k,
{
    if k == text.len() {
        assert(text.subrange(0, k) =~= text);
    } else {
        let longer = text.subrange(0, k + 1);
        assert(longer.drop_last() =~= text.subrange(0, k));
        assert(is_digit(text[k]));
        assert(longer.last() == text[k]);
        lemma_decimal_value_grows(text, k + 1);
    }
}

/// Reads `text` as a decimal integer with an optional sign. The result is the
/// integer where `text` writes one of magnitude up to [`INTEGER_LIMIT`], and
/// `None` in every other case.
pub fn parse_integer(text: &str) -> (value: Option<i64>)
    ensures
        value == match spec_parse_integer(text@) {
            Some(v) if -INTEGER_LIMIT <= v <= INTEGER_LIMIT => Some(v as i64),
            _ => None::<i64>,
        },
{
    if !text.is_ascii() {
        proof {
            lemma_not_ascii_not_integer(text@);
        }
        return None;
    }
    let bytes = text.as_bytes();
    proof {
        is_ascii_chars_encode_utf8(text@);
    }
    let n: usize = bytes.len();
    if n == 0 {
        return None;
    }
    let negative: bool = bytes[0] == 0x2d;
    let start: usize = if bytes[0] == 0x2d || bytes[0] == 0x2b {
        1
    } else {
        0
    };
    let ghost digits = text@.subrange(start as int, n as int);
    assert(bytes@[0] == text@[0] as u8 && '\0' <= text@[0] <= '\u{7f}');
    assert(text@.subrange(0, n as int) =~= text@);
    if start == n {
        return None;
    }
    let mut magnitude: i64 = 0;
    let mut i: usize = start;
    while i < n
        invariant
            start <= i <= n,
            n == text@.len(),
            negative == (text@[0] == '-'),
            start == if text@[0] == '-' || text@[0] == '+' {
                1int
            } else {
                0int
            },
            n == bytes@.len(),
            forall|j: int| 0 <= j < n ==> #[trigger] bytes@[j] == text@[j] as u8,
            is_ascii_chars(text@),
            digits == text@.subrange(start as int, n as int),
            start == 0 ==> digits == text@,
            all_digits(digits.subrange(0, i - start)),
            magnitude == decimal_value(digits.subrange(0, i - start)),
            0 <= magnitude <= INTEGER_LIMIT,
        decreases n - i,
    {
        let b: u8 = bytes[i];
        let ghost shorter = digits.subrange(0, i - start);
        let ghost longer = digits.subrange(0, i - start + 1);
        assert(longer.drop_last() =~= shorter);
        assert(longer.last() == text@[i as int]);
        assert(digits[i - start] == text@[i as int]);
        assert(b == bytes@[i as int] && '\0' <= text@[i as int] <= '\u{7f}');
        if b < 0x30 || b > 0x39 {
            assert(!is_digit(digits[i - start]));
            return None;
        }
        magnitude = magnitude * 10 + (b - 0x30) as i64;
        assert(all_digits(longer)) by {
            assert forall|j: int| 0 <= j < longer.len() implies is_digit(#[trigger] longer[j]) by {
                if j < shorter.len() {
                    assert(longer[j] == shorter[j]);
                }
            }
        }
        if magnitude > INTEGER_LIMIT {
            proof {
                if all_digits(digits) {
                    lemma_decimal_value_grows(digits, i - start + 1);
                }
            }
            return None;
        }
        i = i + 1;
    }
    assert(digits.subrange(0, n - start) =~= digits);
    if negative {
        Some(-magnitude)
    } else {
        Some(magnitude)
    }
}

/// Text with a character outside ASCII writes no integer.
proof fn lemma_not_ascii_not_integer(text: Seq<char>)
    requires
        !is_ascii_chars(text),
    ensures
        spec_parse_integer(text) is None,
{
    if spec_parse_integer(text) is Some {
        let signed = text.len() > 0 && (text[0] == '-' || text[0] == '+');
        assert forall|i: int| 0 <= i < text.len() implies '\0' <= #[trigger] text[i] <= '\u{7f}' by {
            if signed {
                let digits = text.subrange(1, text.len() as int);
                if i >= 1 {
                    assert(is_digit(digits[i - 1]));
                }
            } else {
                assert(is_digit(text[i]));
            }
        }
    }
}

/// Reads `text` as a signed 32-bit decimal integer.
pub fn parse_i32(text: &str) -> (value: Option<i32>)
    ensures
        value == spec_parse_i32(text@),
{
    match parse_integer(text) {
        Some(v) => {
            if v >= -0x8000_0000 && v <= 0x7fff_ffff {
                Some(v as i32)
            } else {
                None
            }
        },
        None => None,
    }
}

/// Reads `text` as an unsigned 32-bit decimal integer.
pub fn parse_u32(text: &str) -> (value: Option<u32>)
    ensures
        value == spec_parse_u32(text@),
{
    match parse_integer(text) {
        Some(v) => {
            if v < 0 || v > 0xffff_ffff {
                return None;
            }
            if text.unicode_len() > 0 && text.get_char(0) == '-' {
                return None;
            }
            Some(v as u32)
        },
        None => None,
    }
}

/// Where the first `mark` of `text` stands, or the length of `text` where it
/// has none.
pub open spec fn first_of(text: Seq<char>, mark: char) -> int
    decreases text.len(),
{
    if text.len() == 0 || text[0] == mark {
        0
    } else {
        1 + first_of(text.drop_first(), mark)
    }
}

/// The first `mark` stands after `run` characters, where none of these is the
/// mark and the text ends there or has the mark there.
proof fn lemma_first_of(text: Seq<char>, mark: char, run: int)
    requires
        0 <= run <= text.len(),
        forall|j: int| 0 <= j < run ==> text[j] != mark,
        run < text.len() ==> text[run] == mark,
    ensures
        first_of(text, mark) == run,
    decreases run,
{
    if run > 0 {
        lemma_first_of(text.drop_first(), mark, run - 1);
    }
}

/// A line without the carriage return at its end, if it has one there.
pub open spec fn without_return(line: Seq<char>) -> Seq<char> {
    if line.len() > 0 && line.last() == '\r' {
        line.drop_last()
    } else {
        line
    }
}

/// The lines of `text`. A line ends at a line feed; neither the line feed nor
/// a carriage return directly before it belongs to the line. What follows the
/// last line feed is a line too, as it stands, unless nothing follows it.
pub open spec fn text_lines(text: Seq<char>) -> Seq<Seq<char>>
    decreases text.len(),
{
    let at = first_of(text, '\n');
    if text.len() == 0 {
        Seq::<Seq<char>>::empty()
    } else if 0 <= at < text.len() {
        seq![without_return(text.subrange(0, at))] + text_lines(
            text.subrange(at + 1, text.len() as int),
        )
    } else {
        seq![text]
    }
}

/// Takes `text` apart into its lines.
pub fn lines_of(text: &str) -> (lines: Vec<String>)
    ensures
        lines.deep_view() == text_lines(text@),
{
    let length: usize = text.unicode_len();
    let mut lines: Vec<String> = Vec::new();
    let mut start: usize = 0;
    let mut i: usize = 0;
    assert(text@.subrange(0, length as int) =~= text@);
    assert(lines.deep_view() + text_lines(text@) =~= text_lines(text@));
    while i < length
        invariant
            start <= i <= length,
            length == text@.len(),
            forall|j: int| start <= j < i ==> text@[j] != '\n',
            lines.deep_view() + text_lines(text@.subrange(start as int, length as int))
                == text_lines(text@),
        decreases length - i,
    {
        if text.get_char(i) == '\n' {
            let end: usize = if i > start && text.get_char(i - 1) == '\r' {
                i - 1
            } else {
                i
            };
            let ghost rest = text@.subrange(start as int, length as int);
            let ghost before = lines.deep_view();
            let ghost line = text@.subrange(start as int, end as int);
            let ghost after = text@.subrange(i + 1, length as int);
            proof {
                lemma_first_of(rest, '\n', i - start);
                assert(rest.subrange(0, i - start) =~= text@.subrange(start as int, i as int));
                assert(without_return(text@.subrange(start as int, i as int)) =~= line);
                assert(rest.subrange(i - start + 1, rest.len() as int) =~= after);
            }
            lines.push(text.substring_char(start, end).to_owned());
            start = i + 1;
            assert(lines.deep_view() =~= before + seq![line]);
            assert(before + seq![line] + text_lines(after) =~= before + (seq![line] + text_lines(
                after,
            )));
        }
        i = i + 1;
    }
    if start < length {
        let ghost rest = text@.subrange(start as int, length as int);
        let ghost before = lines.deep_view();
        proof {
            lemma_first_of(rest, '\n', rest.len() as int);
        }
        lines.push(text.substring_char(start, length).to_owned());
        assert(lines.deep_view() =~= before + seq![rest]);
    } else {
        assert(lines.deep_view() + Seq::<Seq<char>>::empty() =~= lines.deep_view());
    }
    lines
}

/// Whether `c` is whitespace: a character with the Unicode property
/// White_Space.
pub open spec fn is_space(c: char) -> bool {
    ('\u{9}' <= c <= '\u{d}') || c == ' ' || c == '\u{85}' || c == '\u{a0}' || c == '\u{1680}' || (
    '\u{2000}' <= c <= '\u{200a}') || c == '\u{2028}' || c == '\u{2029}' || c == '\u{202f}' || c
        == '\u{205f}' || c == '\u{3000}'
}

/// Whether `c` is whitespace.
pub fn is_whitespace(c: char) -> (space: bool)
    ensures
        space == is_space(c),
{
    ('\u{9}' <= c && c <= '\u{d}') || c == ' ' || c == '\u{85}' || c == '\u{a0}' || c == '\u{1680}'
        || ('\u{2000}' <= c && c <= '\u{200a}') || c == '\u{2028}' || c == '\u{2029}' || c
        == '\u{202f}' || c == '\u{205f}' || c == '\u{3000}'
}

/// Where the first whitespace of `text` stands, or the length of `text` where
/// it has none.
pub open spec fn first_space(text: Seq<char>) -> int
    decreases text.len(),
{
    if text.len() == 0 || is_space(text[0]) {
        0
    } else {
        1 + first_space(text.drop_first())
    }
}

/// The first whitespace stands after `run` characters, where none of these is
/// whitespace and the text ends there or has whitespace there.
proof fn lemma_first_space(text: Seq<char>, run: int)
    requires
        0 <= run <= text.len(),
        forall|j: int| 0 <= j < run ==> !is_space(text[j]),
        run < text.len() ==> is_space(text[run]),
    ensures
        first_space(text) == run,
    decreases run,
{
    if run > 0 {
        lemma_first_space(text.drop_first(), run - 1);
    }
}

/// The fields of `line`: its longest runs of characters that are not
/// whitespace, in their order. None of them is empty.
pub open spec fn whitespace_fields(line: Seq<char>) -> Seq<Seq<char>>
    decreases line.len(),
{
    let end = first_space(line);
    if line.len() == 0 {
        Seq::<Seq<char>>::empty()
    } else if 0 < end <= line.len() {
        seq![line.subrange(0, end)] + whitespace_fields(line.subrange(end, line.len() as int))
    } else {
        whitespace_fields(line.drop_first())
    }
}

/// Takes `line` apart into its fields.
pub fn fields_of(line: &str) -> (fields: Vec<String>)
    ensures
        fields.deep_view() == whitespace_fields(line@),
{
    let length: usize = line.unicode_len();
    let mut fields: Vec<String> = Vec::new();
    let mut i: usize = 0;
    assert(line@.subrange(0, length as int) =~= line@);
    assert(fields.deep_view() + whitespace_fields(line@) =~= whitespace_fields(line@));
    while i < length
        invariant
            i <= length,
            length == line@.len(),
            fields.deep_view() + whitespace_fields(line@.subrange(i as int, length as int))
                == whitespace_fields(line@),
        decreases length - i,
    {
        let ghost rest = line@.subrange(i as int, length as int);
        if is_whitespace(line.get_char(i)) {
            proof {
                lemma_first_space(rest, 0);
                assert(rest.drop_first() =~= line@.subrange(i + 1, length as int));
            }
            i = i + 1;
        } else {
            let start: usize = i;
            i = i + 1;
            while i < length && !is_whitespace(line.get_char(i))
                invariant
                    start < i <= length,
                    length == line@.len(),
                    forall|j: int| start <= j < i ==> !is_space(line@[j]),
                decreases length - i,
            {
                i = i + 1;
            }
            let ghost before = fields.deep_view();
            let ghost field = line@.subrange(start as int, i as int);
            let ghost after = line@.subrange(i as int, length as int);
            proof {
                lemma_first_space(rest, i - start);
                assert(rest.subrange(0, i - start) =~= field);
                assert(rest.subrange(i - start, rest.len() as int) =~= after);
            }
            fields.push(line.substring_char(start, i).to_owned());
            assert(fields.deep_view() =~= before + seq![field]);
            assert(before + seq![field] + whitespace_fields(after) =~= before + (seq![field]
                + whitespace_fields(after)));
        }
    }
    assert(fields.deep_view() + Seq::<Seq<char>>::empty() =~= fields.deep_view());
    fields
}

/// Whether `needle` occurs in `haystack` as a run of consecutive characters.
pub open spec fn contains_text(haystack: Seq<char>, needle: Seq<char>) -> bool {
    exists|i: int|
        0 <= i <= haystack.len() - needle.len() && #[trigger] haystack.subrange(
            i,
            i + needle.len(),
        ) == needle
}

/// Says whether `needle` occurs in `haystack`.
pub fn text_contains(haystack: &str, needle: &str) -> (found: bool)
    ensures
        found == contains_text(haystack@, needle@),
{
    let length: usize = haystack.unicode_len();
    let width: usize = needle.unicode_len();
    if width > length {
        return false;
    }
    let last: usize = length - width;
    let mut i: usize = 0;
    while i <= last
        invariant
            i <= last + 1,
            last == length - width,
            length == haystack@.len(),
            width == needle@.len(),
            forall|k: int| 0 <= k < i ==> #[trigger] haystack@.subrange(k, k + width) != needle@,
        decreases last + 1 - i,
    {
        let mut j: usize = 0;
        while j < width && haystack.get_char(i + j) == needle.get_char(j)
            invariant
                j <= width,
                i <= last,
                last == length - width,
                length == haystack@.len(),
                width == needle@.len(),
                forall|t: int| 0 <= t < j ==> haystack@[i + t] == needle@[t],
            decreases width - j,
        {
            j = j + 1;
        }
        if j == width {
            assert(haystack@.subrange(i as int, i + width) =~= needle@);
            return true;
        }
        assert(haystack@.subrange(i as int, i + width)[j as int] != needle@[j as int]);
        i = i + 1;
    }
    false
}

/// The parts of `text` between its colons, empty ones included: the text up
/// to the first colon, then the parts of what follows that colon. Text
/// without a colon is one part, the empty text too.
pub open spec fn colon_parts(text: Seq<char>) -> Seq<Seq<char>>
    decreases text.len(),
{
    let at = first_of(text, ':');
    if 0 <= at < text.len() {
        seq![text.subrange(0, at)] + colon_parts(text.subrange(at + 1, text.len() as int))
    } else {
        seq![text]
    }
}

/// Takes `text` apart at its colons.
pub fn split_at_colons(text: &str) -> (parts: Vec<String>)
    ensures
        parts.deep_view() == colon_parts(text@),
{
    let length: usize = text.unicode_len();
    let mut parts: Vec<String> = Vec::new();
    let mut start: usize = 0;
    let mut i: usize = 0;
    assert(text@.subrange(0, length as int) =~= text@);
    assert(parts.deep_view() + colon_parts(text@) =~= colon_parts(text@));
    while i < length
        invariant
            start <= i <= length,
            length == text@.len(),
            forall|j: int| start <= j < i ==> text@[j] != ':',
            parts.deep_view() + colon_parts(text@.subrange(start as int, length as int))
                == colon_parts(text@),
        decreases length - i,
    {
        if text.get_char(i) == ':' {
            let ghost rest = text@.subrange(start as int, length as int);
            let ghost before = parts.deep_view();
            let ghost part = text@.subrange(start as int, i as int);
            proof {
                lemma_first_of(rest, ':', i - start);
                assert(rest.subrange(0, i - start) =~= part);
                assert(rest.subrange(i - start + 1, rest.len() as int) =~= text@.subrange(
                    i + 1,
                    length as int,
                ));
            }
            parts.push(text.substring_char(start, i).to_owned());
            start = i + 1;
            assert(parts.deep_view() =~= before + seq![part]);
            assert(before + seq![part] + colon_parts(text@.subrange(start as int, length as int))
                =~= before + (seq![part] + colon_parts(
                text@.subrange(start as int, length as int),
            )));
        }
        i = i + 1;
    }
    let ghost rest = text@.subrange(start as int, length as int);
    let ghost before = parts.deep_view();
    proof {
        lemma_first_of(rest, ':', rest.len() as int);
    }
    parts.push(text.substring_char(start, length).to_owned());
    assert(parts.deep_view() =~= before + seq![rest]);
    parts
}

} // verus!
