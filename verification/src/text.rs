//! Text helpers: comparison, splitting, numerals.

use vstd::prelude::*;
use vstd::utf8::{decode_utf8, encode_utf8};

verus! {

/// Whether two strings are the same text.
pub fn same(a: &str, b: &str) -> (result: bool)
    ensures
        result == (a@ == b@),
{
    broadcast use vstd::utf8::encode_utf8_decode_utf8;

    let left = a.as_bytes();
    let right = b.as_bytes();
    proof {
        assert(decode_utf8(encode_utf8(a@)) == a@);
        assert(decode_utf8(encode_utf8(b@)) == b@);
    }
    if left.len() != right.len() {
        return false;
    }
    let mut i: usize = 0;
    while i < left.len()
        invariant
            left@ == encode_utf8(a@),
            right@ == encode_utf8(b@),
            left@.len() == right@.len(),
            i <= left@.len(),
            forall|j: int| 0 <= j < i ==> left@[j] == right@[j],
        decreases left@.len() - i,
    {
        if left[i] != right[i] {
            return false;
        }
        i = i + 1;
    }
    proof {
        assert(left@ =~= right@);
    }
    true
}

/// The characters of a string.
pub fn characters(text: &str) -> (chars: Vec<char>)
    ensures
        chars@ == text@,
{
    let mut chars: Vec<char> = Vec::new();
    for c in it: text.chars()
        invariant
            it.seq() == text@,
            chars@ == text@.take(it.index() as int),
    {
        chars.push(c);
    }
    assert(text@.take(text@.len() as int) =~= text@);
    chars
}

/// Whether `text` begins with `prefix`.
pub open spec fn begins_with(text: Seq<char>, prefix: Seq<char>) -> bool {
    prefix.len() <= text.len() && text.take(prefix.len() as int) == prefix
}

/// Whether `text` ends with `suffix`.
pub open spec fn finishes_with(text: Seq<char>, suffix: Seq<char>) -> bool {
    suffix.len() <= text.len() && text.skip(text.len() - suffix.len()) == suffix
}

/// The stretch of `text` from `at` on that is as long as `part` equals `part`.
fn has_at(text: &Vec<char>, at: usize, part: &Vec<char>) -> (result: bool)
    requires
        at + part@.len() <= text@.len(),
    ensures
        result == (text@.subrange(at as int, at + part@.len()) == part@),
{
    let length: usize = text.len();
    let mut i: usize = 0;
    while i < part.len()
        invariant
            i <= part@.len(),
            length == text@.len(),
            at + part@.len() <= length,
            forall|j: int| 0 <= j < i ==> text@[at + j] == part@[j],
        decreases part@.len() - i,
    {
        if text[at + i] != part[i] {
            proof {
                assert(text@.subrange(at as int, at + part@.len())[i as int] != part@[i as int]);
            }
            return false;
        }
        i = i + 1;
    }
    assert(text@.subrange(at as int, at + part@.len()) =~= part@);
    true
}

pub fn starts_with(text: &str, prefix: &str) -> (result: bool)
    ensures
        result == begins_with(text@, prefix@),
{
    let whole = characters(text);
    let part = characters(prefix);
    if part.len() > whole.len() {
        return false;
    }
    assert(text@.take(prefix@.len() as int) == text@.subrange(0, 0 + prefix@.len() as int));
    has_at(&whole, 0, &part)
}

pub fn ends_with(text: &str, suffix: &str) -> (result: bool)
    ensures
        result == finishes_with(text@, suffix@),
{
    let whole = characters(text);
    let part = characters(suffix);
    if part.len() > whole.len() {
        return false;
    }
    let at: usize = whole.len() - part.len();
    assert(text@.skip(text@.len() - suffix@.len()) =~= text@.subrange(
        at as int,
        at + suffix@.len() as int,
    ));
    has_at(&whole, at, &part)
}

/// The pieces of `text` between occurrences of `separator`, from `from` on; `start` is where the
/// piece that holds position `from` begins.
pub open spec fn pieces_from(text: Seq<char>, separator: char, start: int, from: int) -> Seq<
    Seq<char>,
>
    decreases text.len() - from,
{
    if from >= text.len() {
        seq![text.subrange(start, text.len() as int)]
    } else if text[from] == separator {
        seq![text.subrange(start, from)] + pieces_from(text, separator, from + 1, from + 1)
    } else {
        pieces_from(text, separator, start, from + 1)
    }
}

/// The pieces of `text` between occurrences of `separator`.
pub open spec fn pieces(text: Seq<char>, separator: char) -> Seq<Seq<char>> {
    pieces_from(text, separator, 0, 0)
}

/// The views of a list of strings.
pub open spec fn texts(list: Seq<String>) -> Seq<Seq<char>> {
    list.map_values(|text: String| text@)
}

/// Splits `text` at every `separator`.
pub fn split(text: &str, separator: char) -> (list: Vec<String>)
    ensures
        texts(list@) == pieces(text@, separator),
{
    let chars = characters(text);
    let mut list: Vec<String> = Vec::new();
    let mut start: usize = 0;
    let mut i: usize = 0;
    assert(texts(list@) + pieces_from(text@, separator, 0, 0) =~= pieces(text@, separator));
    while i < chars.len()
        invariant
            chars@ == text@,
            start <= i <= chars@.len(),
            texts(list@) + pieces_from(text@, separator, start as int, i as int) == pieces(
                text@,
                separator,
            ),
        decreases chars@.len() - i,
    {
        if chars[i] == separator {
            let ghost before = list@;
            let piece = text.substring_char(start, i).to_owned();
            list.push(piece);
            proof {
                assert(texts(list@) =~= texts(before).push(piece@));
                assert(texts(list@) + pieces_from(text@, separator, i + 1, i + 1) =~= texts(before)
                    + pieces_from(text@, separator, start as int, i as int));
            }
            start = i + 1;
        }
        i = i + 1;
    }
    let ghost before = list@;
    let last = text.substring_char(start, chars.len()).to_owned();
    list.push(last);
    proof {
        assert(texts(list@) =~= texts(before).push(last@));
        assert(texts(list@) =~= texts(before) + pieces_from(
            text@,
            separator,
            start as int,
            i as int,
        ));
    }
    list
}

/// Where the letters of a text are lowered before or after it is split makes no difference, as
/// long as the separator is no letter.
pub proof fn pieces_of_lowered(text: Seq<char>, separator: char, start: int, from: int)
    requires
        0 <= start <= from <= text.len(),
        !('A' <= separator && separator <= 'Z'),
        !('a' <= separator && separator <= 'z'),
    ensures
        pieces_from(ascii_lowered(text), separator, start, from) == pieces_from(
            text,
            separator,
            start,
            from,
        ).map_values(|piece: Seq<char>| ascii_lowered(piece)),
    decreases text.len() - from,
{
    let lowered = ascii_lowered(text);
    let lower = |piece: Seq<char>| ascii_lowered(piece);
    if from >= text.len() {
        assert(lowered.subrange(start, text.len() as int) =~= ascii_lowered(
            text.subrange(start, text.len() as int),
        ));
        assert(pieces_from(lowered, separator, start, from) =~= pieces_from(
            text,
            separator,
            start,
            from,
        ).map_values(lower));
    } else if text[from] == separator {
        pieces_of_lowered(text, separator, from + 1, from + 1);
        assert(lowered.subrange(start, from) =~= ascii_lowered(text.subrange(start, from)));
        assert(pieces_from(lowered, separator, start, from) =~= pieces_from(
            text,
            separator,
            start,
            from,
        ).map_values(lower));
    } else {
        pieces_of_lowered(text, separator, start, from + 1);
    }
}

/// The pieces of an ASCII text are ASCII texts.
pub proof fn pieces_of_ascii(text: Seq<char>, separator: char, start: int, from: int, i: int)
    requires
        vstd::utf8::is_ascii_chars(text),
        0 <= start <= from <= text.len(),
        0 <= i < pieces_from(text, separator, start, from).len(),
    ensures
        vstd::utf8::is_ascii_chars(pieces_from(text, separator, start, from)[i]),
    decreases text.len() - from,
{
    if from < text.len() {
        if text[from] == separator {
            if i > 0 {
                pieces_of_ascii(text, separator, from + 1, from + 1, i - 1);
            }
        } else {
            pieces_of_ascii(text, separator, start, from + 1, i);
        }
    }
}

/// Splitting leaves at least one piece.
pub proof fn pieces_are_never_empty(text: Seq<char>, separator: char, start: int, from: int)
    ensures
        pieces_from(text, separator, start, from).len() > 0,
    decreases text.len() - from,
{
    if from < text.len() {
        if text[from] == separator {
            pieces_are_never_empty(text, separator, from + 1, from + 1);
        } else {
            pieces_are_never_empty(text, separator, start, from + 1);
        }
    }
}

/// The decimal digit that stands for a number below ten.
pub open spec fn digit_char(digit: int) -> char {
    (('0' as u32) + digit) as char
}

/// The decimal numeral of a number, without leading zeros.
pub open spec fn numeral(number: nat) -> Seq<char>
    decreases number,
{
    if number < 10 {
        seq![digit_char(number as int)]
    } else {
        numeral(number / 10).push(digit_char((number % 10) as int))
    }
}

fn digit_text(digit: u32) -> (text: &'static str)
    requires
        digit < 10,
    ensures
        text@ == seq![digit_char(digit as int)],
{
    proof {
        reveal_strlit("0");
        reveal_strlit("1");
        reveal_strlit("2");
        reveal_strlit("3");
        reveal_strlit("4");
        reveal_strlit("5");
        reveal_strlit("6");
        reveal_strlit("7");
        reveal_strlit("8");
        reveal_strlit("9");
    }
    let text = match digit {
        0 => "0",
        1 => "1",
        2 => "2",
        3 => "3",
        4 => "4",
        5 => "5",
        6 => "6",
        7 => "7",
        8 => "8",
        _ => "9",
    };
    assert(text@ =~= seq![digit_char(digit as int)]);
    text
}

/// Writes a number in decimal.
pub fn decimal(number: u32) -> (text: String)
    ensures
        text@ == numeral(number as nat),
    decreases number,
{
    if number < 10 {
        digit_text(number).to_owned()
    } else {
        let mut text = decimal(number / 10);
        text.append(digit_text(number % 10));
        assert(text@ =~= numeral(number as nat));
        text
    }
}

/// Different numbers have different numerals.
pub proof fn numerals_are_distinct(a: nat, b: nat)
    requires
        numeral(a) == numeral(b),
    ensures
        a == b,
    decreases a,
{
    let left = numeral(a);
    let right = numeral(b);
    numeral_is_not_empty(a / 10);
    numeral_is_not_empty(b / 10);
    assert(left.last() == right.last());
    assert(left.last() == digit_char((a % 10) as int));
    assert(right.last() == digit_char((b % 10) as int));
    if a >= 10 && b >= 10 {
        assert(left.drop_last() =~= numeral(a / 10));
        assert(right.drop_last() =~= numeral(b / 10));
        numerals_are_distinct(a / 10, b / 10);
    }
}

proof fn numeral_is_not_empty(number: nat)
    ensures
        numeral(number).len() > 0,
{
}

/// The value of an ASCII digit in the given radix.
pub open spec fn digit_value(byte: u8, radix: int) -> Option<int> {
    let value = if 0x30 <= byte <= 0x39 {
        byte - 0x30
    } else if 0x61 <= byte <= 0x7a {
        byte - 0x61 + 10
    } else if 0x41 <= byte <= 0x5a {
        byte - 0x41 + 10
    } else {
        radix
    };
    if value < radix {
        Some(value)
    } else {
        None
    }
}

/// The number that a run of digits stands for, if every byte is a digit.
pub open spec fn digits_value(digits: Seq<u8>, radix: int) -> Option<int>
    decreases digits.len(),
{
    if digits.len() == 0 {
        Some(0)
    } else {
        match (digits_value(digits.drop_last(), radix), digit_value(digits.last(), radix)) {
            (Some(high), Some(low)) => Some(high * radix + low),
            _ => None,
        }
    }
}

/// The digits of a numeral: what follows an optional plus sign.
pub open spec fn without_sign(bytes: Seq<u8>) -> Seq<u8> {
    if bytes.len() > 0 && bytes[0] == 0x2b {
        bytes.skip(1)
    } else {
        bytes
    }
}

/// The unsigned number that a numeral stands for: an optional plus sign, then at least one digit
/// and nothing else, with a value of at most `limit`.
pub open spec fn unsigned_value(bytes: Seq<u8>, radix: int, limit: int) -> Option<int> {
    let digits = without_sign(bytes);
    if digits.len() == 0 {
        None
    } else {
        match digits_value(digits, radix) {
            Some(value) => if value <= limit {
                Some(value)
            } else {
                None
            },
            None => None,
        }
    }
}

/// The value of a digit.
pub fn digit(byte: u8, radix: u32) -> (value: Option<u32>)
    requires
        2 <= radix <= 36,
    ensures
        value is Some <==> digit_value(byte, radix as int) is Some,
        value matches Some(v) ==> digit_value(byte, radix as int) == Some(v as int) && v < radix,
{
    let value: u32 = if 0x30 <= byte && byte <= 0x39 {
        (byte - 0x30) as u32
    } else if 0x61 <= byte && byte <= 0x7a {
        (byte - 0x61) as u32 + 10
    } else if 0x41 <= byte && byte <= 0x5a {
        (byte - 0x41) as u32 + 10
    } else {
        radix
    };
    if value < radix {
        Some(value)
    } else {
        None
    }
}

/// More digits never make a number smaller.
proof fn prefix_is_no_larger(digits: Seq<u8>, radix: int, count: int)
    requires
        2 <= radix <= 36,
        0 <= count <= digits.len(),
        digits_value(digits, radix) is Some,
    ensures
        digits_value(digits.take(count), radix) is Some,
        0 <= digits_value(digits.take(count), radix)->0 <= digits_value(digits, radix)->0,
    decreases digits.len() - count,
{
    if count == digits.len() {
        assert(digits.take(count) =~= digits);
        value_is_not_negative(digits, radix);
    } else {
        prefix_is_no_larger(digits, radix, count + 1);
        let longer = digits.take(count + 1);
        assert(longer.drop_last() =~= digits.take(count));
        value_is_not_negative(digits.take(count), radix);
        let high = digits_value(digits.take(count), radix)->0;
        assert(high * radix >= high) by (nonlinear_arith)
            requires
                high >= 0,
                radix >= 2,
        ;
    }
}

proof fn value_is_not_negative(digits: Seq<u8>, radix: int)
    requires
        radix >= 2,
        digits_value(digits, radix) is Some,
    ensures
        digits_value(digits, radix)->0 >= 0,
    decreases digits.len(),
{
    if digits.len() > 0 {
        value_is_not_negative(digits.drop_last(), radix);
        let high = digits_value(digits.drop_last(), radix)->0;
        assert(high * radix >= 0) by (nonlinear_arith)
            requires
                high >= 0,
                radix >= 2,
        ;
    }
}

/// Reads an unsigned number of at most `limit` in the given radix.
pub fn parse_unsigned(bytes: &[u8], radix: u32, limit: u32) -> (number: Option<u32>)
    requires
        2 <= radix <= 36,
    ensures
        number is Some <==> unsigned_value(bytes@, radix as int, limit as int) is Some,
        number matches Some(n) ==> unsigned_value(bytes@, radix as int, limit as int) == Some(
            n as int,
        ),
{
    let length: usize = bytes.len();
    let start: usize = if length > 0 && bytes[0] == 0x2b {
        1
    } else {
        0
    };
    let ghost digits = without_sign(bytes@);
    assert(digits =~= bytes@.skip(start as int));
    if start == length {
        return None;
    }
    let mut number: u32 = 0;
    let mut i: usize = start;
    assert(digits.take(0) =~= Seq::<u8>::empty());
    while i < length
        invariant
            2 <= radix <= 36,
            length == bytes@.len(),
            start <= i <= length,
            start < length,
            digits == bytes@.skip(start as int),
            digits == without_sign(bytes@),
            number <= limit,
            digits_value(digits.take(i - start), radix as int) == Some(number as int),
        decreases length - i,
    {
        proof {
            assert(digits.take(i - start + 1).drop_last() =~= digits.take(i - start));
            assert(digits.take(i - start + 1).last() == bytes@[i as int]);
            if digits_value(digits, radix as int) is Some {
                prefix_is_no_larger(digits, radix as int, i - start + 1);
            }
            assert(number * radix <= u32::MAX * 36) by (nonlinear_arith)
                requires
                    number <= u32::MAX,
                    radix <= 36,
            ;
        }
        match digit(bytes[i], radix) {
            None => {
                return None;
            },
            Some(low) => {
                let next: u64 = number as u64 * radix as u64 + low as u64;
                if next > limit as u64 {
                    return None;
                }
                number = next as u32;
            },
        }
        i = i + 1;
    }
    assert(digits.take(length - start) =~= digits);
    Some(number)
}

/// What `str::to_lowercase` makes of a text.
pub uninterp spec fn lowercase(text: Seq<char>) -> Seq<char>;

/// The lower case of an ASCII character.
pub open spec fn ascii_lower(c: char) -> char {
    if 'A' <= c && c <= 'Z' {
        ((c as u32) + 32) as char
    } else {
        c
    }
}

/// A text with the letters `A` to `Z` in lower case.
pub open spec fn ascii_lowered(text: Seq<char>) -> Seq<char> {
    text.map_values(|c: char| ascii_lower(c))
}

/// Calls `str::to_lowercase`, which replaces every character by its Unicode lower case. Two things
/// are claimed of it: its result depends on the text alone, and on ASCII text it lowers the
/// letters `A` to `Z` and keeps every other character.
#[verifier::external_body]
pub(crate) fn to_lowercase(text: &str) -> (lower: String)
    ensures
        lower@ == lowercase(text@),
        vstd::utf8::is_ascii_chars(text@) ==> lower@ == ascii_lowered(text@),
{
    text.to_lowercase()
}

proof fn pieces_do_not_see_what_is_before(
    front: Seq<char>,
    text: Seq<char>,
    separator: char,
    start: int,
    from: int,
)
    requires
        0 <= start <= from <= text.len(),
    ensures
        pieces_from(front + text, separator, front.len() + start, front.len() + from) == pieces_from(
            text,
            separator,
            start,
            from,
        ),
    decreases text.len() - from,
{
    let whole = front + text;
    let shift = front.len() as int;
    if from >= text.len() {
        assert(whole.subrange(shift + start, whole.len() as int) =~= text.subrange(
            start,
            text.len() as int,
        ));
    } else {
        assert(whole[shift + from] == text[from]);
        if text[from] == separator {
            pieces_do_not_see_what_is_before(front, text, separator, from + 1, from + 1);
            assert(whole.subrange(shift + start, shift + from) =~= text.subrange(start, from));
        } else {
            pieces_do_not_see_what_is_before(front, text, separator, start, from + 1);
        }
    }
}

proof fn pieces_end_at_separators(
    piece: Seq<char>,
    rest: Seq<char>,
    separator: char,
    from: int,
)
    requires
        !piece.contains(separator),
        0 <= from <= piece.len(),
    ensures
        pieces_from(piece + seq![separator] + rest, separator, 0, from) == seq![piece] + pieces(
            rest,
            separator,
        ),
        pieces_from(piece, separator, 0, from) == seq![piece],
    decreases piece.len() - from,
{
    let front = piece + seq![separator];
    let text = front + rest;
    if from < piece.len() {
        assert(piece.contains(piece[from]));
        assert(text[from] == piece[from]);
        pieces_end_at_separators(piece, rest, separator, from + 1);
    } else {
        assert(text[from] == separator);
        pieces_do_not_see_what_is_before(front, rest, separator, 0, 0);
        assert(text.subrange(0, from) =~= piece);
        assert(piece.subrange(0, piece.len() as int) =~= piece);
    }
}

/// A text without the separator is one piece. The first piece of a text ends where the separator is for
/// the first time, and what follows that separator is split like a text of its own.
pub proof fn texts_are_split_at_separators(piece: Seq<char>, rest: Seq<char>, separator: char)
    requires
        !piece.contains(separator),
    ensures
        pieces(piece, separator) == seq![piece],
        pieces(piece + seq![separator] + rest, separator) == seq![piece] + pieces(rest, separator),
{
    pieces_end_at_separators(piece, rest, separator, 0);
}

/// A text begins with its front and ends with its back, and with nothing else of that length.
pub proof fn texts_begin_and_end(front: Seq<char>, back: Seq<char>, other: Seq<char>)
    ensures
        begins_with(front + back, front),
        finishes_with(front + back, back),
        other.len() == front.len() && other != front ==> !begins_with(front + back, other),
        other.len() == back.len() && other != back ==> !finishes_with(front + back, other),
        other.len() > front.len() + back.len() ==> !begins_with(front + back, other)
            && !finishes_with(front + back, other),
{
    assert((front + back).take(front.len() as int) =~= front);
    assert((front + back).skip(front.len() as int) =~= back);
}

/// Digits count from zero; letters go on from ten, in either case. What is not below the radix is no
/// digit.
pub proof fn digits_count_up(place: int, radix: int)
    requires
        2 <= radix <= 36,
    ensures
        0 <= place < 10 ==> digit_value((0x30 + place) as u8, radix) == if place < radix {
            Some(place)
        } else {
            None
        },
        0 <= place < 26 ==> digit_value((0x61 + place) as u8, radix) == if place + 10 < radix {
            Some(place + 10)
        } else {
            None
        },
        0 <= place < 26 ==> digit_value((0x41 + place) as u8, radix) == digit_value(
            (0x61 + place) as u8,
            radix,
        ),
        0 <= place < 0x30 || 0x3a <= place < 0x41 || 0x5b <= place < 0x61 || 0x7b <= place < 0x100
            ==> digit_value(place as u8, radix) is None,
{
}

proof fn numeral_digits(number: nat)
    ensures
        vstd::utf8::is_ascii_chars(numeral(number)),
        forall|i: int|
            0 <= i < numeral(number).len() ==> '0' <= #[trigger] numeral(number)[i] && numeral(
                number,
            )[i] <= '9',
    decreases number,
{
    if number >= 10 {
        numeral_digits(number / 10);
    }
}

proof fn numerals_have_their_value(number: nat, bytes: Seq<u8>)
    requires
        bytes.len() == numeral(number).len(),
        forall|i: int| 0 <= i < bytes.len() ==> #[trigger] bytes[i] == numeral(number)[i] as u8,
    ensures
        digits_value(bytes, 10) == Some(number as int),
    decreases number,
{
    let text = numeral(number);
    numeral_digits(number);
    assert(bytes.last() == text.last() as u8);
    assert(text.last() == digit_char((number % 10) as int));
    assert(digit_value(bytes.last(), 10) == Some((number % 10) as int));
    if number >= 10 {
        let higher = numeral(number / 10);
        assert(text.drop_last() =~= higher);
        let shorter = bytes.drop_last();
        assert forall|i: int| 0 <= i < shorter.len() implies #[trigger] shorter[i] == higher[i] as u8 by {
            assert(bytes[i] == text[i] as u8);
        }
        numerals_have_their_value(number / 10, shorter);
    } else {
        reveal_with_fuel(digits_value, 2);
        assert(bytes.drop_last() =~= Seq::<u8>::empty());
    }
}

/// A number that is written in decimal is read back as itself, also with a plus sign in front, as long
/// as it is not over the limit; over the limit it is refused.
pub proof fn numbers_are_read_back(number: nat, limit: int)
    ensures
        unsigned_value(vstd::utf8::encode_utf8(numeral(number)), 10, limit) == if number <= limit {
            Some(number as int)
        } else {
            None
        },
        unsigned_value(
            seq![0x2bu8] + vstd::utf8::encode_utf8(numeral(number)),
            10,
            limit,
        ) == unsigned_value(vstd::utf8::encode_utf8(numeral(number)), 10, limit),
{
    let text = numeral(number);
    let bytes = vstd::utf8::encode_utf8(text);
    numeral_digits(number);
    vstd::utf8::is_ascii_chars_encode_utf8(text);
    assert forall|i: int| 0 <= i < bytes.len() implies #[trigger] bytes[i] == text[i] as u8 by {
        assert(text[i] as u8 == bytes[i]);
    }
    numerals_have_their_value(number, bytes);
    numeral_is_not_empty(number);
    assert('0' <= text[0] && text[0] <= '9');
    assert(bytes[0] == text[0] as u8);
    assert(bytes[0] != 0x2b);
    assert((seq![0x2bu8] + bytes).skip(1) =~= bytes);
}

/// A text that holds anything but digits, behind at most one plus sign, is no number; neither is one
/// without digits.
pub proof fn only_digits_are_numbers(bytes: Seq<u8>, i: int, radix: int, limit: int)
    requires
        2 <= radix <= 36,
        0 < i < bytes.len(),
        digit_value(bytes[i], radix) is None,
    ensures
        unsigned_value(bytes, radix, limit) is None,
        unsigned_value(Seq::<u8>::empty(), radix, limit) is None,
        unsigned_value(seq![0x2bu8], radix, limit) is None,
{
    let digits = without_sign(bytes);
    let k = if bytes[0] == 0x2b {
        i - 1
    } else {
        i
    };
    assert(digits[k] == bytes[i]);
    strangers_spoil_numbers(digits, k, radix);
}

proof fn strangers_spoil_numbers(digits: Seq<u8>, i: int, radix: int)
    requires
        0 <= i < digits.len(),
        digit_value(digits[i], radix) is None,
    ensures
        digits_value(digits, radix) is None,
    decreases digits.len(),
{
    if i < digits.len() - 1 {
        strangers_spoil_numbers(digits.drop_last(), i, radix);
    }
}

/// Each digit that is appended counts once, and the ones before it count the radix as often.
pub proof fn digits_are_positional(digits: Seq<u8>, byte: u8, radix: int)
    ensures
        digits_value(digits.push(byte), radix) == match (
            digits_value(digits, radix),
            digit_value(byte, radix),
        ) {
            (Some(higher), Some(low)) => Some(higher * radix + low),
            _ => None,
        },
        digits_value(Seq::<u8>::empty(), radix) == Some(0int),
{
    assert(digits.push(byte).drop_last() =~= digits);
}

/// Decimal numerals have no leading zeros, and nothing but digits.
pub proof fn numerals_are_plain(number: nat)
    ensures
        numeral(number).len() > 0,
        number > 0 ==> numeral(number)[0] != '0',
        number == 0 ==> numeral(number) == seq!['0'],
        forall|i: int|
            0 <= i < numeral(number).len() ==> '0' <= #[trigger] numeral(number)[i] && numeral(
                number,
            )[i] <= '9',
    decreases number,
{
    numeral_digits(number);
    numeral_is_not_empty(number);
    if number >= 10 {
        numerals_are_plain(number / 10);
        assert(numeral(number)[0] == numeral(number / 10)[0]);
    }
}

/// Lowering a text moves its letters from `A` to `Z` to `a` to `z` and keeps everything else.
pub proof fn letters_are_lowered(text: Seq<char>, i: int)
    requires
        0 <= i < text.len(),
    ensures
        ascii_lowered(text).len() == text.len(),
        'A' <= text[i] && text[i] <= 'Z' ==> ascii_lowered(text)[i] as int - 'a' as int
            == text[i] as int - 'A' as int,
        !('A' <= text[i] && text[i] <= 'Z') ==> ascii_lowered(text)[i] == text[i],
{
}

} // verus!
