//! Text as Verus sees it: a `str` is viewed as its sequence of characters,
//! while positions handed around between the scanner and the rewriting passes
//! are byte offsets into the UTF-8 encoding of that sequence.

use vstd::prelude::*;
use vstd::utf8::*;
use vstd::string::*;

verus! {

/// The length in bytes of the UTF-8 encoding of `text`.
pub open spec fn byte_len(text: Seq<char>) -> nat {
    encode_utf8(text).len()
}

/// Whether `at` is a byte offset of `text` that does not fall inside the
/// encoding of a character.
pub open spec fn on_boundary(text: Seq<char>, at: int) -> bool {
    0 <= at <= byte_len(text) && is_char_boundary(encode_utf8(text), at)
}

/// Whether the byte range `start..end` can be cut out of `text`.
pub open spec fn valid_range(text: Seq<char>, start: int, end: int) -> bool {
    start <= end && on_boundary(text, start) && on_boundary(text, end)
}

/// The characters of `text` whose encodings occupy the bytes `start..end`.
pub open spec fn slice(text: Seq<char>, start: int, end: int) -> Seq<char> {
    decode_utf8(encode_utf8(text).subrange(start, end))
}

/// Slicing a text from its first to its last byte gives the text back.
pub proof fn lemma_slice_all(text: Seq<char>)
    ensures
        slice(text, 0, byte_len(text) as int) == text,
        valid_range(text, 0, byte_len(text) as int),
{
    let bytes = encode_utf8(text);
    assert(bytes.subrange(0, bytes.len() as int) =~= bytes);
    encode_utf8_decode_utf8(text);
    encode_utf8_valid_utf8(text);
    is_char_boundary_start_end_of_seq(bytes);
}

/// A slice from an offset to the same offset holds nothing.
pub proof fn lemma_slice_empty(text: Seq<char>, at: int)
    requires
        0 <= at <= byte_len(text),
    ensures
        slice(text, at, at) == Seq::<char>::empty(),
{
    assert(encode_utf8(text).subrange(at, at) =~= Seq::<u8>::empty());
    assert(decode_utf8(Seq::<u8>::empty()) =~= Seq::<char>::empty());
}

/// Two adjacent slices join into the slice that covers both.
pub proof fn lemma_slice_join(text: Seq<char>, a: int, b: int, c: int)
    requires
        valid_range(text, a, b),
        valid_range(text, b, c),
    ensures
        slice(text, a, b) + slice(text, b, c) == slice(text, a, c),
{
    let bytes = encode_utf8(text);
    encode_utf8_valid_utf8(text);
    lemma_range_is_utf8(text, a, c);
    let part = bytes.subrange(a, c);
    lemma_boundary_inside(text, a, c, b);
    decode_utf8_split(part, b - a);
    assert(part.subrange(0, b - a) =~= bytes.subrange(a, b));
    assert(part.subrange(b - a, part.len() as int) =~= bytes.subrange(b, c));
}

/// The bytes of a valid range are themselves well-formed UTF-8.
pub proof fn lemma_range_is_utf8(text: Seq<char>, start: int, end: int)
    requires
        valid_range(text, start, end),
    ensures
        valid_utf8(encode_utf8(text).subrange(start, end)),
{
    let bytes = encode_utf8(text);
    encode_utf8_valid_utf8(text);
    valid_utf8_split(bytes, end);
    let head = bytes.subrange(0, end);
    lemma_boundary_in_prefix(bytes, start, end);
    valid_utf8_split(head, start);
    assert(head.subrange(start, head.len() as int) =~= bytes.subrange(start, end));
}

/// A boundary of a byte string is a boundary of each prefix that reaches it.
proof fn lemma_boundary_in_prefix(bytes: Seq<u8>, at: int, end: int)
    requires
        valid_utf8(bytes),
        0 <= at <= end <= bytes.len(),
        is_char_boundary(bytes, at),
        is_char_boundary(bytes, end),
    ensures
        valid_utf8(bytes.subrange(0, end)),
        is_char_boundary(bytes.subrange(0, end), at),
{
    valid_utf8_split(bytes, end);
    let head = bytes.subrange(0, end);
    if at < end {
        is_char_boundary_iff_not_is_continuation_byte(bytes, at);
        is_char_boundary_iff_not_is_continuation_byte(head, at);
    } else {
        is_char_boundary_start_end_of_seq(head);
    }
}

/// A boundary of a text that lies within a valid range is a boundary of the
/// bytes of that range.
proof fn lemma_boundary_inside(text: Seq<char>, start: int, end: int, at: int)
    requires
        valid_range(text, start, end),
        start <= at <= end,
        on_boundary(text, at),
    ensures
        is_char_boundary(encode_utf8(text).subrange(start, end), at - start),
{
    let bytes = encode_utf8(text);
    encode_utf8_valid_utf8(text);
    lemma_range_is_utf8(text, start, end);
    let part = bytes.subrange(start, end);
    if at < end {
        is_char_boundary_iff_not_is_continuation_byte(bytes, at);
        is_char_boundary_iff_not_is_continuation_byte(part, at - start);
    } else {
        is_char_boundary_start_end_of_seq(part);
    }
}

/// Every character boundary of a well-formed byte string lies within it.
proof fn lemma_boundary_in_bounds(bytes: Seq<u8>, at: int)
    requires
        valid_utf8(bytes),
        is_char_boundary(bytes, at),
    ensures
        0 <= at <= bytes.len(),
    decreases bytes.len(),
{
    if at != 0 && 0 <= at <= bytes.len() && bytes.len() > 0 {
        lemma_boundary_in_bounds(pop_first_scalar(bytes), at - length_of_first_scalar(bytes));
    }
}

/// Tests whether `at` is a byte offset of `s` between two characters.
pub fn is_on_boundary(s: &str, at: usize) -> (b: bool)
    ensures
        b == on_boundary(s@, at as int),
{
    proof {
        encode_utf8_valid_utf8(s@);
        if is_char_boundary(s.spec_bytes(), at as int) {
            lemma_boundary_in_bounds(s.spec_bytes(), at as int);
        }
    }
    s.is_char_boundary(at)
}

/// Tests whether the byte range `start..end` can be cut out of `s`.
pub fn is_valid_range(s: &str, start: usize, end: usize) -> (b: bool)
    ensures
        b == valid_range(s@, start as int, end as int),
{
    start <= end && is_on_boundary(s, start) && is_on_boundary(s, end)
}

/// The part of a text that a byte range covers, where the range can be cut
/// out of the text.
pub open spec fn part(text: Seq<char>, start: int, end: int) -> Option<Seq<char>> {
    if valid_range(text, start, end) {
        Some(slice(text, start, end))
    } else {
        None
    }
}

/// Cuts the byte range `start..end` out of `s`, where it can be cut out.
pub fn cut<'a>(s: &'a str, start: usize, end: usize) -> (out: Option<&'a str>)
    ensures
        out.deep_view() == part(s@, start as int, end as int),
{
    if is_valid_range(s, start, end) {
        Some(cut_valid(s, start, end))
    } else {
        None
    }
}

/// Cuts the byte range `start..end` out of `s`.
pub(crate) fn cut_valid<'a>(s: &'a str, start: usize, end: usize) -> (part: &'a str)
    requires
        valid_range(s@, start as int, end as int),
    ensures
        part@ == slice(s@, start as int, end as int),
{
    proof {
        encode_utf8_valid_utf8(s@);
        lemma_boundary_in_prefix(s.spec_bytes(), start as int, end as int);
    }
    let (head, _) = s.split_at(end);
    let (_, part) = head.split_at(start);
    proof {
        assert(part.spec_bytes() =~= s.spec_bytes().subrange(start as int, end as int));
        encode_utf8_decode_utf8(part@);
    }
    part
}

/// `unit` written `count` times in a row.
pub open spec fn repeated(unit: Seq<char>, count: nat) -> Seq<char>
    decreases count,
{
    if count == 0 {
        Seq::empty()
    } else {
        repeated(unit, (count - 1) as nat) + unit
    }
}

/// Appends `unit` to `out` as many times as `count` says; a count below one
/// appends nothing.
pub fn push_repeated(out: &mut String, unit: &str, count: i64)
    ensures
        final(out)@ == old(out)@ + repeated(unit@, if count > 0 { count as nat } else { 0 }),
{
    let mut done: i64 = 0;
    while done < count
        invariant
            0 <= done,
            done <= count || done == 0,
            out@ =~= old(out)@ + repeated(unit@, done as nat),
        decreases count - done,
    {
        out.append(unit);
        done = done + 1;
        assert(out@ == old(out)@ + repeated(unit@, done as nat)) by {
            assert(repeated(unit@, done as nat) == repeated(unit@, (done - 1) as nat) + unit@);
            assert(out@ =~= old(out)@ + (repeated(unit@, (done - 1) as nat) + unit@));
        }
    }
}

/// The character that writes the digit `d`.
pub open spec fn digit_char(d: nat) -> char {
    if d == 0 {
        '0'
    } else if d == 1 {
        '1'
    } else if d == 2 {
        '2'
    } else if d == 3 {
        '3'
    } else if d == 4 {
        '4'
    } else if d == 5 {
        '5'
    } else if d == 6 {
        '6'
    } else if d == 7 {
        '7'
    } else if d == 8 {
        '8'
    } else {
        '9'
    }
}

/// The decimal numeral of `n`, without sign or leading zeros.
pub open spec fn decimal(n: nat) -> Seq<char>
    decreases n,
{
    if n < 10 {
        seq![digit_char(n)]
    } else {
        decimal(n / 10).push(digit_char(n % 10))
    }
}

/// The one-character string that writes the digit `d`.
fn digit_str(d: usize) -> (s: &'static str)
    requires
        d < 10,
    ensures
        s@ == seq![digit_char(d as nat)],
{
    proof {
        reveal_strlit("0");
        reveal_strlit("1");
        reveal_strlit("2");
        reveal_strlit("3");
        reveal_strlit("4");
        reveal_strlit("5");
        reveal_strlit("6");
        reveal_strlit("7");
        reveal_strlit("8");
        reveal_strlit("9");
    }
    let s = if d == 0 {
        "0"
    } else if d == 1 {
        "1"
    } else if d == 2 {
        "2"
    } else if d == 3 {
        "3"
    } else if d == 4 {
        "4"
    } else if d == 5 {
        "5"
    } else if d == 6 {
        "6"
    } else if d == 7 {
        "7"
    } else if d == 8 {
        "8"
    } else {
        "9"
    };
    assert(s@ =~= seq![digit_char(d as nat)]);
    s
}

/// Writes `n` as a decimal numeral.
pub fn decimal_string(n: usize) -> (out: String)
    ensures
        out@ == decimal(n as nat),
    decreases n,
{
    if n < 10 {
        String::from_str(digit_str(n))
    } else {
        let mut out = decimal_string(n / 10);
        out.append(digit_str(n % 10));
        assert(out@ =~= decimal(n as nat));
        out
    }
}

/// The characters of `s`, one by one.
pub fn chars_of(s: &str) -> (out: Vec<char>)
    ensures
        out@ == s@,
{
    let mut out: Vec<char> = Vec::new();
    for c in it: s.chars()
        invariant
            it.seq() == s@,
            out@ == s@.take(it.index() as int),
    {
        out.push(c);
        assert(out@ =~= s@.take(it.index() + 1));
    }
    assert(out@ =~= s@);
    out
}

/// Whether `c` is one of the ten decimal digits.
pub open spec fn is_digit(c: char) -> bool {
    '0' <= c <= '9'
}

/// Tests whether `c` is a decimal digit.
pub fn char_is_digit(c: char) -> (b: bool)
    ensures
        b == is_digit(c),
{
    '0' <= c && c <= '9'
}

/// Whether every character of `text` is a decimal digit.
pub open spec fn all_digits(text: Seq<char>) -> bool {
    forall|i: int| 0 <= i < text.len() ==> is_digit(#[trigger] text[i])
}

/// The number that the digit `c` writes.
pub open spec fn digit_value(c: char) -> nat {
    (c as nat - '0' as nat) as nat
}

/// The number that a decimal numeral writes; the empty numeral writes zero.
pub open spec fn decimal_value(digits: Seq<char>) -> nat
    decreases digits.len(),
{
    if digits.len() == 0 {
        0
    } else {
        decimal_value(digits.drop_last()) * 10 + digit_value(digits.last())
    }
}

/// Ten to the power `n`.
pub open spec fn pow10(n: nat) -> nat
    decreases n,
{
    if n == 0 {
        1
    } else {
        10 * pow10((n - 1) as nat)
    }
}

/// The number that two numerals write when set side by side is the first
/// number, shifted by the length of the second, plus the second.
pub proof fn lemma_decimal_value_concat(high: Seq<char>, low: Seq<char>)
    ensures
        decimal_value(high + low) == decimal_value(high) * pow10(low.len()) + decimal_value(low),
    decreases low.len(),
{
    if low.len() == 0 {
        assert(high + low =~= high);
        assert(pow10(0) == 1);
        assert(decimal_value(high) * 1 == decimal_value(high)) by (nonlinear_arith);
    } else {
        lemma_decimal_value_concat(high, low.drop_last());
        assert((high + low).drop_last() =~= high + low.drop_last());
        assert((high + low).last() == low.last());
        let h = decimal_value(high) as int;
        let p = pow10((low.len() - 1) as nat) as int;
        let l = decimal_value(low.drop_last()) as int;
        assert(pow10(low.len()) == 10 * p);
        assert((h * p + l) * 10 == h * (10 * p) + l * 10) by (nonlinear_arith);
        assert(decimal_value(high + low) == (h * p + l) * 10 + digit_value(low.last()));
        assert(decimal_value(low) == l * 10 + digit_value(low.last()));
    }
}

/// How many decimal digits stand at the end of `text`.
pub open spec fn trailing_digits(text: Seq<char>) -> nat
    decreases text.len(),
{
    if text.len() == 0 || !is_digit(text.last()) {
        0
    } else {
        1 + trailing_digits(text.drop_last())
    }
}

/// The digits that stand at the end of `text`: its longest suffix that holds
/// nothing but digits.
pub open spec fn digit_run(text: Seq<char>) -> Seq<char> {
    text.skip(text.len() - trailing_digits(text))
}

/// The run at the end of a text lies within the text and holds digits only,
/// and the character before it, if any, is no digit.
pub proof fn lemma_trailing_digits(text: Seq<char>)
    ensures
        trailing_digits(text) <= text.len(),
        all_digits(digit_run(text)),
        trailing_digits(text) < text.len() ==> !is_digit(
            text[text.len() - trailing_digits(text) - 1],
        ),
    decreases text.len(),
{
    if text.len() == 0 || !is_digit(text.last()) {
    } else {
        let shorter = text.drop_last();
        lemma_trailing_digits(shorter);
        let run = digit_run(text);
        assert forall|i: int| 0 <= i < run.len() implies is_digit(#[trigger] run[i]) by {
            if i < run.len() - 1 {
                assert(run[i] == digit_run(shorter)[i]);
            }
        }
    }
}

/// A text of digits only is its own trailing run.
pub proof fn lemma_all_digits_run(text: Seq<char>)
    requires
        all_digits(text),
    ensures
        trailing_digits(text) == text.len(),
        digit_run(text) == text,
    decreases text.len(),
{
    if text.len() > 0 {
        assert(is_digit(text[text.len() - 1]));
        lemma_all_digits_run(text.drop_last());
    }
    assert(text.skip(0) =~= text);
}

/// Counts the decimal digits that stand at the end of `text`.
pub fn count_trailing_digits(text: &Vec<char>) -> (count: usize)
    ensures
        count == trailing_digits(text@),
{
    let mut count: usize = 0;
    assert(text@.take(text.len() as int) =~= text@);
    while count < text.len() && char_is_digit(text[text.len() - 1 - count])
        invariant
            count <= text.len(),
            trailing_digits(text@) == count + trailing_digits(text@.take(text.len() - count)),
        decreases text.len() - count,
    {
        let ghost rest = text@.take(text.len() - count);
        assert(rest.last() == text@[text.len() - 1 - count]);
        assert(rest.drop_last() =~= text@.take(text.len() - count - 1));
        count = count + 1;
    }
    proof {
        let rest = text@.take(text.len() - count);
        if count < text.len() {
            assert(rest.last() == text@[text.len() - 1 - count]);
        }
    }
    count
}

/// The pieces into which the separator `sep` cuts `text`: one more than it
/// has separators, each possibly empty.
pub open spec fn split(text: Seq<char>, sep: char) -> Seq<Seq<char>>
    decreases text.len(),
{
    if text.len() == 0 {
        seq![Seq::empty()]
    } else {
        let before = split(text.drop_last(), sep);
        if text.last() == sep {
            before.push(Seq::empty())
        } else {
            before.update(before.len() - 1, before.last().push(text.last()))
        }
    }
}

/// Cuts `text` at each `sep`.
pub fn split_at_char(text: &str, sep: char) -> (out: Vec<String>)
    ensures
        out.deep_view() == split(text@, sep),
{
    let chars = chars_of(text);
    let mut out: Vec<String> = Vec::new();
    let mut start: usize = 0;
    let mut index: usize = 0;
    assert(text@.take(0) =~= Seq::<char>::empty());
    assert(text@.subrange(0, 0) =~= Seq::<char>::empty());
    assert(out.deep_view().push(Seq::<char>::empty()) =~= seq![Seq::<char>::empty()]);
    while index < chars.len()
        invariant
            chars@ == text@,
            start <= index <= chars.len(),
            out.deep_view().push(text@.subrange(start as int, index as int)) =~= split(
                text@.take(index as int),
                sep,
            ),
        decreases chars.len() - index,
    {
        let ghost seen = text@.take(index as int + 1);
        assert(seen.drop_last() =~= text@.take(index as int));
        assert(seen.last() == text@[index as int]);
        let ghost before = out.deep_view();
        if chars[index] == sep {
            let piece = String::from_str(text.substring_char(start, index));
            out.push(piece);
            assert(out.deep_view() =~= before.push(piece@));
            start = index + 1;
            assert(text@.subrange(start as int, index as int + 1) =~= Seq::<char>::empty());
        } else {
            assert(text@.subrange(start as int, index as int + 1) =~= text@.subrange(
                start as int,
                index as int,
            ).push(text@[index as int]));
        }
        index = index + 1;
        assert(out.deep_view().push(text@.subrange(start as int, index as int)) =~= split(
            seen,
            sep,
        ));
    }
    let ghost before = out.deep_view();
    let piece = String::from_str(text.substring_char(start, chars.len()));
    out.push(piece);
    assert(out.deep_view() =~= before.push(piece@));
    assert(text@.take(index as int) =~= text@);
    out
}

/// A line without the carriage return that ends it, if one does.
pub open spec fn without_return(line: Seq<char>) -> Seq<char> {
    if line.len() > 0 && line.last() == '\r' {
        line.drop_last()
    } else {
        line
    }
}

/// The lines of `text`. A line ends with a line feed, or with a carriage
/// return and a line feed, neither of which belongs to the line; what stands
/// behind the last line feed is a line too, unless it is empty.
pub open spec fn lines_of(text: Seq<char>) -> Seq<Seq<char>> {
    let pieces = split(text, '\n');
    let ended = Seq::new(
        (pieces.len() - 1) as nat,
        |i: int| without_return(pieces[i]),
    );
    if pieces.last().len() == 0 {
        ended
    } else {
        ended.push(pieces.last())
    }
}

/// Cuts `text` into its lines.
pub fn lines(text: &str) -> (out: Vec<String>)
    ensures
        out.deep_view() == lines_of(text@),
{
    let pieces = split_at_char(text, '\n');
    proof {
        lemma_split_is_not_empty(text@, '\n');
    }
    let mut out: Vec<String> = Vec::new();
    let mut index: usize = 0;
    while index + 1 < pieces.len()
        invariant
            pieces.len() >= 1,
            index + 1 <= pieces.len(),
            out.deep_view() =~= Seq::new(
                index as nat,
                |i: int| without_return(pieces.deep_view()[i]),
            ),
        decreases pieces.len() - index,
    {
        let piece = pieces[index].as_str();
        let chars = chars_of(piece);
        let ghost before = out.deep_view();
        let line = if chars.len() > 0 && chars[chars.len() - 1] == '\r' {
            let line = String::from_str(piece.substring_char(0, chars.len() - 1));
            assert(line@ =~= piece@.drop_last());
            line
        } else {
            String::from_str(piece)
        };
        out.push(line);
        assert(out.deep_view() =~= before.push(line@));
        index = index + 1;
    }
    let last = pieces[pieces.len() - 1].as_str();
    if !last.is_empty() {
        let ghost before = out.deep_view();
        let line = String::from_str(last);
        out.push(line);
        assert(out.deep_view() =~= before.push(line@));
    }
    out
}

/// Cutting a text leaves at least one piece.
proof fn lemma_split_is_not_empty(text: Seq<char>, sep: char)
    ensures
        split(text, sep).len() >= 1,
    decreases text.len(),
{
    if text.len() > 0 {
        lemma_split_is_not_empty(text.drop_last(), sep);
    }
}

} // verus!
