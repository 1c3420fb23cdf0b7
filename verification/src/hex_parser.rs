//! The text form of a program: hexadecimal tokens separated by white space.

use vstd::prelude::*;
use vstd::slice::slice_subrange;
use vstd::string::StringSliceAdditionalSpecFns;
use vstd::utf8::{
    encode_scalar, encode_utf8, last_continuation_byte, leading_byte_width_1, leading_byte_width_2,
    leading_byte_width_3, leading_byte_width_4, second_last_continuation_byte,
    third_last_continuation_byte,
};

verus! {

/// The error type of the `hex` crate's decoder, carried through unread.
#[verifier::external_type_specification]
#[verifier::external_body]
pub struct ExFromHexError(hex::FromHexError);

/// Whether the character with the code `code` is white space: a tab, a
/// line feed, a vertical tab, a form feed, a carriage return, a space,
/// or one of the white-space characters beyond ASCII (U+0085, U+00A0,
/// U+1680, U+2000 to U+200A, U+2028, U+2029, U+202F, U+205F, U+3000).
pub open spec fn is_white_space(code: u32) -> bool {
    (0x09 <= code <= 0x0D) || code == 0x20 || code == 0x85 || code == 0xA0 || code == 0x1680 || (
    0x2000 <= code <= 0x200A) || code == 0x2028 || code == 0x2029 || code == 0x202F || code
        == 0x205F || code == 0x3000
}

/// Whether `byte` is a white-space character of ASCII.
pub open spec fn is_ascii_white_space(byte: u8) -> bool {
    byte == 0x20 || (0x09 <= byte <= 0x0D)
}

/// Whether `first`, `second` are the two bytes of a white-space character
/// in UTF-8: U+0085 or U+00A0.
pub open spec fn is_two_byte_white_space(first: u8, second: u8) -> bool {
    first == 0xC2 && (second == 0x85 || second == 0xA0)
}

/// Whether `first`, `second`, `third` are the three bytes of a white-space
/// character in UTF-8: U+1680, U+2000 to U+200A, U+2028, U+2029, U+202F,
/// U+205F or U+3000.
pub open spec fn is_three_byte_white_space(first: u8, second: u8, third: u8) -> bool {
    ||| first == 0xE1 && second == 0x9A && third == 0x80
    ||| first == 0xE2 && second == 0x80 && ((0x80 <= third <= 0x8A) || third == 0xA8 || third
        == 0xA9 || third == 0xAF)
    ||| first == 0xE2 && second == 0x81 && third == 0x9F
    ||| first == 0xE3 && second == 0x80 && third == 0x80
}

/// The number of bytes that the white-space character takes with which
/// `text` begins, in UTF-8; zero where `text` begins with none.
pub open spec fn separator_len(text: Seq<u8>) -> nat {
    if text.len() >= 1 && is_ascii_white_space(text[0]) {
        1
    } else if text.len() >= 2 && is_two_byte_white_space(text[0], text[1]) {
        2
    } else if text.len() >= 3 && is_three_byte_white_space(text[0], text[1], text[2]) {
        3
    } else {
        0
    }
}

/// The bytes of a white-space character in UTF-8 are those that
/// `separator_len` looks for.
proof fn lemma_white_space_bytes(code: u32)
    by (bit_vector)
    requires
        is_white_space(code),
    ensures
        code <= 0x7F ==> is_ascii_white_space(leading_byte_width_1(code)),
        0x80 <= code <= 0x7FF ==> is_two_byte_white_space(
            leading_byte_width_2(code),
            last_continuation_byte(code),
        ),
        0x800 <= code ==> code <= 0xFFFF && !(0xD800 <= code <= 0xDFFF)
            && is_three_byte_white_space(
            leading_byte_width_3(code),
            second_last_continuation_byte(code),
            last_continuation_byte(code),
        ),
{
}

/// The bytes of a character that is no white space are not those that
/// `separator_len` looks for, and every byte behind the first is a
/// continuation byte, from 0x80 to 0xBF.
proof fn lemma_other_bytes(code: u32)
    by (bit_vector)
    requires
        !is_white_space(code),
        code <= 0x10_FFFF,
    ensures
        code <= 0x7F ==> leading_byte_width_1(code) <= 0x7F && !is_ascii_white_space(
            leading_byte_width_1(code),
        ),
        0x80 <= code <= 0x7FF ==> 0xC0 <= leading_byte_width_2(code) <= 0xDF
            && !is_two_byte_white_space(leading_byte_width_2(code), last_continuation_byte(code)),
        0x800 <= code <= 0xFFFF ==> 0xE0 <= leading_byte_width_3(code) <= 0xEF
            && !is_three_byte_white_space(
            leading_byte_width_3(code),
            second_last_continuation_byte(code),
            last_continuation_byte(code),
        ),
        0x1_0000 <= code ==> 0xF0 <= leading_byte_width_4(code),
        0x80 <= last_continuation_byte(code) <= 0xBF,
        0x80 <= second_last_continuation_byte(code) <= 0xBF,
        0x80 <= third_last_continuation_byte(code) <= 0xBF,
{
}

/// The character that three bytes spell in UTF-8.
pub open spec fn three_byte_code(first: u8, second: u8, third: u8) -> u32 {
    ((first as u32 & 0x0F) << 12) | ((second as u32 & 0x3F) << 6) | (third as u32 & 0x3F)
}

/// Three bytes that `separator_len` looks for are the bytes of a
/// white-space character in UTF-8.
proof fn lemma_three_bytes_are_white_space(first: u8, second: u8, third: u8)
    by (bit_vector)
    requires
        is_three_byte_white_space(first, second, third),
    ensures
        is_white_space(three_byte_code(first, second, third)),
        0x800 <= three_byte_code(first, second, third) <= 0xFFFF,
        !(0xD800 <= three_byte_code(first, second, third) <= 0xDFFF),
        leading_byte_width_3(three_byte_code(first, second, third)) == first,
        second_last_continuation_byte(three_byte_code(first, second, third)) == second,
        last_continuation_byte(three_byte_code(first, second, third)) == third,
{
}

/// A text that begins with the UTF-8 form of a white-space character
/// begins with a separator of that many bytes.
pub proof fn lemma_white_space_separates(code: u32, rest: Seq<u8>)
    requires
        is_white_space(code),
    ensures
        separator_len(encode_scalar(code) + rest) == encode_scalar(code).len(),
        encode_scalar(code).len() > 0,
{
    lemma_white_space_bytes(code);
}

/// A text that begins with the UTF-8 form of a character that is no white
/// space begins with no separator.
pub proof fn lemma_other_character_separates_nothing(c: char, rest: Seq<u8>)
    requires
        !is_white_space(c as u32),
    ensures
        separator_len(encode_scalar(c as u32) + rest) == 0,
{
    lemma_other_bytes(c as u32);
}

/// A separator is the UTF-8 form of a white-space character.
pub proof fn lemma_separator_is_white_space(text: Seq<u8>)
    requires
        separator_len(text) > 0,
    ensures
        exists|code: u32|
            is_white_space(code) && text.take(separator_len(text) as int) == #[trigger] encode_scalar(
                code,
            ),
{
    let n = separator_len(text);
    if n == 1 {
        let byte: u8 = text[0];
        let code = byte as u32;
        assert(leading_byte_width_1(code) == byte) by (bit_vector)
            requires
                code == byte as u32,
                byte <= 0x20,
        ;
        assert(text.take(1) =~= encode_scalar(code));
    } else if n == 2 {
        let byte: u8 = text[1];
        let code = byte as u32;
        assert(leading_byte_width_2(code) == 0xC2 && last_continuation_byte(code) == byte)
            by (bit_vector)
            requires
                code == byte as u32,
                byte == 0x85 || byte == 0xA0,
        ;
        assert(text.take(2) =~= encode_scalar(code));
    } else {
        lemma_three_bytes_are_white_space(text[0], text[1], text[2]);
        let code = three_byte_code(text[0], text[1], text[2]);
        assert(text.take(3) =~= encode_scalar(code));
    }
}

/// Whether `byte` is a hexadecimal digit in ASCII, of either case.
pub open spec fn is_hex_digit(byte: u8) -> bool {
    (0x30 <= byte <= 0x39) || (0x41 <= byte <= 0x46) || (0x61 <= byte <= 0x66)
}

/// The value of the hexadecimal digit `byte`.
pub open spec fn hex_digit_value(byte: u8) -> int
    recommends
        is_hex_digit(byte),
{
    if byte <= 0x39 {
        byte - 0x30
    } else if byte <= 0x46 {
        byte - 0x41 + 10
    } else {
        byte - 0x61 + 10
    }
}

/// Whether `digits` is six hexadecimal digits.
pub open spec fn is_hex_triplet(digits: Seq<u8>) -> bool {
    digits.len() == 6 && forall|i: int| 0 <= i < 6 ==> is_hex_digit(#[trigger] digits[i])
}

/// The three bytes that six hexadecimal digits spell, two digits to a byte.
pub open spec fn triplet_value(digits: Seq<u8>) -> Seq<u8>
    recommends
        is_hex_triplet(digits),
{
    seq![
        (16 * hex_digit_value(digits[0]) + hex_digit_value(digits[1])) as u8,
        (16 * hex_digit_value(digits[2]) + hex_digit_value(digits[3])) as u8,
        (16 * hex_digit_value(digits[4]) + hex_digit_value(digits[5])) as u8,
    ]
}

/// Calls `from_hex` of the `hex` crate for an array of three bytes. It
/// succeeds exactly on six hexadecimal digits, of either case, and then
/// gives the bytes they spell, two digits to a byte, the first digit of
/// each pair being the higher one.
#[verifier::external_body]
fn decode_triplet(digits: &[u8]) -> (decoded: Result<[u8; 3], hex::FromHexError>)
    ensures
        decoded is Ok <==> is_hex_triplet(digits@),
        decoded matches Ok(bytes) ==> bytes@ == triplet_value(digits@),
{
    hex::FromHex::from_hex(digits)
}

/// The number of bytes of `text` before its first white-space character:
/// the length of the token that `text` begins with.
pub open spec fn token_len(text: Seq<u8>) -> nat
    decreases text.len(),
{
    if text.len() == 0 || separator_len(text) > 0 {
        0
    } else {
        1 + token_len(text.drop_first())
    }
}

/// `token` with the digit zero in front until it is six bytes long.
pub open spec fn padded_token(token: Seq<u8>) -> Seq<u8>
    recommends
        token.len() <= 6,
{
    Seq::new((6 - token.len()) as nat, |i: int| 0x30u8) + token
}

/// The three bytes that `token` stands for: a token of one to six
/// hexadecimal digits is a number of 24 bits, written out with its most
/// significant byte first. Every other token stands for nothing.
pub open spec fn token_word(token: Seq<u8>) -> Option<Seq<u8>> {
    if 1 <= token.len() <= 6 && is_hex_triplet(padded_token(token)) {
        Some(triplet_value(padded_token(token)))
    } else {
        None
    }
}

/// The words of a program text, in order: the text is cut at white-space
/// characters into tokens, each token that stands for three bytes gives
/// them, and every other token is skipped.
pub open spec fn hex_words(text: Seq<u8>) -> Seq<Seq<u8>>
    decreases text.len(),
{
    if text.len() == 0 {
        Seq::empty()
    } else if separator_len(text) > 0 {
        hex_words(text.skip(separator_len(text) as int))
    } else {
        let n = token_len(text);
        if 0 < n <= text.len() {
            let rest = hex_words(text.skip(n as int));
            match token_word(text.take(n as int)) {
                Some(word) => seq![word] + rest,
                None => rest,
            }
        } else {
            Seq::empty()
        }
    }
}

/// The number of tokens of a program text that are skipped: those that
/// stand for no three bytes.
pub open spec fn skipped_tokens(text: Seq<u8>) -> nat
    decreases text.len(),
{
    if text.len() == 0 {
        0
    } else if separator_len(text) > 0 {
        skipped_tokens(text.skip(separator_len(text) as int))
    } else {
        let n = token_len(text);
        if 0 < n <= text.len() {
            let rest = skipped_tokens(text.skip(n as int));
            match token_word(text.take(n as int)) {
                Some(_) => rest,
                None => 1 + rest,
            }
        } else {
            0
        }
    }
}

/// What reading a program text gave.
pub struct HexText {
    /// The words of the text, in order.
    pub words: Vec<[u8; 3]>,
    /// How many tokens were skipped because they are no words.
    pub skipped: usize,
}

/// The byte sequences of a list of three-byte words.
pub open spec fn triplets_of(words: Seq<[u8; 3]>) -> Seq<Seq<u8>> {
    Seq::new(words.len(), |i: int| words[i]@)
}

/// A text in which no white-space character begins within the first `n`
/// bytes, and that ends there or goes on with a white-space character,
/// begins with a token of `n` bytes.
pub proof fn lemma_token_len(text: Seq<u8>, n: nat)
    requires
        n <= text.len(),
        forall|j: int| 0 <= j < n ==> separator_len(#[trigger] text.skip(j)) == 0,
        n == text.len() || separator_len(text.skip(n as int)) > 0,
    ensures
        token_len(text) == n,
    decreases n,
{
    assert(text.skip(0) =~= text);
    if n > 0 {
        let rest = text.drop_first();
        assert forall|j: int| 0 <= j < n - 1 implies separator_len(#[trigger] rest.skip(j))
            == 0 by {
            assert(rest.skip(j) =~= text.skip(j + 1));
        }
        assert(rest.skip(n - 1) =~= text.skip(n as int));
        lemma_token_len(rest, (n - 1) as nat);
    }
}

/// The number of characters of `chars` before its first white-space
/// character: the length of the token that `chars` begins with.
pub open spec fn token_chars(chars: Seq<char>) -> nat
    decreases chars.len(),
{
    if chars.len() == 0 || is_white_space(chars[0] as u32) {
        0
    } else {
        1 + token_chars(chars.drop_first())
    }
}

/// The words of a program text given as characters, in order: the text is
/// cut at white-space characters into tokens, each token that stands for
/// three bytes gives them, and every other token is skipped.
pub open spec fn hex_words_of_chars(chars: Seq<char>) -> Seq<Seq<u8>>
    decreases chars.len(),
{
    if chars.len() == 0 {
        Seq::empty()
    } else if is_white_space(chars[0] as u32) {
        hex_words_of_chars(chars.drop_first())
    } else {
        let n = token_chars(chars);
        if 0 < n <= chars.len() {
            let rest = hex_words_of_chars(chars.skip(n as int));
            match token_word(encode_utf8(chars.take(n as int))) {
                Some(word) => seq![word] + rest,
                None => rest,
            }
        } else {
            Seq::empty()
        }
    }
}

/// The number of tokens of a program text given as characters that are
/// skipped: those that stand for no three bytes.
pub open spec fn skipped_tokens_of_chars(chars: Seq<char>) -> nat
    decreases chars.len(),
{
    if chars.len() == 0 {
        0
    } else if is_white_space(chars[0] as u32) {
        skipped_tokens_of_chars(chars.drop_first())
    } else {
        let n = token_chars(chars);
        if 0 < n <= chars.len() {
            let rest = skipped_tokens_of_chars(chars.skip(n as int));
            match token_word(encode_utf8(chars.take(n as int))) {
                Some(_) => rest,
                None => 1 + rest,
            }
        } else {
            0
        }
    }
}

/// The token that a text begins with lies within the text, holds no
/// white-space character, and ends at the end of the text or before a
/// white-space character.
pub proof fn lemma_token_chars(chars: Seq<char>)
    ensures
        token_chars(chars) <= chars.len(),
        forall|k: int| 0 <= k < token_chars(chars) ==> !is_white_space(#[trigger] chars[k] as u32),
        token_chars(chars) == chars.len() || is_white_space(
            chars[token_chars(chars) as int] as u32,
        ),
        chars.len() > 0 && !is_white_space(chars[0] as u32) ==> token_chars(chars) > 0,
    decreases chars.len(),
{
    if chars.len() > 0 && !is_white_space(chars[0] as u32) {
        let rest = chars.drop_first();
        lemma_token_chars(rest);
        assert forall|k: int| 0 <= k < token_chars(chars) implies !is_white_space(
            #[trigger] chars[k] as u32,
        ) by {
            if k > 0 {
                assert(chars[k] == rest[k - 1]);
            }
        }
    }
}

/// The UTF-8 form of a text is the UTF-8 form of its first `n` characters
/// followed by that of the others.
pub proof fn lemma_encode_utf8_split(chars: Seq<char>, n: int)
    requires
        0 <= n <= chars.len(),
    ensures
        encode_utf8(chars) == encode_utf8(chars.take(n)) + encode_utf8(chars.skip(n)),
    decreases n,
{
    if n == 0 {
        assert(chars.skip(0) =~= chars);
        assert(encode_utf8(chars.take(0)) =~= Seq::<u8>::empty());
        assert(encode_utf8(chars) =~= encode_utf8(chars.take(n)) + encode_utf8(chars.skip(n)));
    } else {
        let rest = chars.drop_first();
        lemma_encode_utf8_split(rest, n - 1);
        assert(chars.take(n).drop_first() =~= rest.take(n - 1));
        assert(chars.skip(n) =~= rest.skip(n - 1));
        assert(chars.take(n)[0] == chars[0]);
        assert(encode_utf8(chars) =~= encode_utf8(chars.take(n)) + encode_utf8(chars.skip(n)));
    }
}

/// A character takes at least one byte in UTF-8.
pub proof fn lemma_encode_utf8_len(chars: Seq<char>)
    ensures
        encode_utf8(chars).len() >= chars.len(),
    decreases chars.len(),
{
    if chars.len() > 0 {
        lemma_encode_utf8_len(chars.drop_first());
    }
}

/// In the UTF-8 form of characters that are no white space, no separator
/// begins at any byte, whatever follows them.
pub proof fn lemma_no_separator_within(chars: Seq<char>, rest: Seq<u8>, j: int)
    requires
        forall|k: int| 0 <= k < chars.len() ==> !is_white_space(#[trigger] chars[k] as u32),
        0 <= j < encode_utf8(chars).len(),
    ensures
        separator_len((encode_utf8(chars) + rest).skip(j)) == 0,
    decreases chars.len(),
{
    assert(chars.len() > 0) by {
        if chars.len() == 0 {
            assert(encode_utf8(chars).len() == 0);
        }
    }
    vstd::utf8::char_is_scalar(chars[0]);
    let first = encode_scalar(chars[0] as u32);
    let others = chars.drop_first();
    let all = encode_utf8(chars) + rest;
    let behind = encode_utf8(others) + rest;
    assert(all =~= first + behind);
    lemma_other_bytes(chars[0] as u32);
    if j == 0 {
        lemma_other_character_separates_nothing(chars[0], behind);
        assert(all.skip(0) =~= all);
    } else if j < first.len() {
        assert(all.skip(j)[0] == first[j]);
    } else {
        assert forall|k: int| 0 <= k < others.len() implies !is_white_space(
            #[trigger] others[k] as u32,
        ) by {
            assert(others[k] == chars[k + 1]);
        }
        lemma_no_separator_within(others, rest, j - first.len());
        assert(all.skip(j) =~= behind.skip(j - first.len()));
    }
}

/// The token that the UTF-8 form of a text begins with is the UTF-8 form
/// of the token that the text begins with.
pub proof fn lemma_token_len_of_chars(chars: Seq<char>)
    requires
        chars.len() > 0,
        !is_white_space(chars[0] as u32),
    ensures
        0 < token_chars(chars) <= chars.len(),
        token_len(encode_utf8(chars)) == encode_utf8(chars.take(token_chars(chars) as int)).len(),
        0 < token_len(encode_utf8(chars)) <= encode_utf8(chars).len(),
        encode_utf8(chars).take(token_len(encode_utf8(chars)) as int) == encode_utf8(
            chars.take(token_chars(chars) as int),
        ),
        encode_utf8(chars).skip(token_len(encode_utf8(chars)) as int) == encode_utf8(
            chars.skip(token_chars(chars) as int),
        ),
        separator_len(encode_utf8(chars)) == 0,
{
    lemma_token_chars(chars);
    let n = token_chars(chars) as int;
    let token = chars.take(n);
    let after = chars.skip(n);
    let bytes = encode_utf8(chars);
    let head = encode_utf8(token);
    let tail = encode_utf8(after);
    lemma_encode_utf8_split(chars, n);
    lemma_encode_utf8_len(token);
    let m = head.len();
    assert(bytes == head + tail);
    assert forall|j: int| 0 <= j < m implies separator_len(#[trigger] bytes.skip(j)) == 0 by {
        lemma_no_separator_within(token, tail, j);
    }
    assert(bytes.skip(m as int) =~= tail);
    assert(bytes.take(m as int) =~= head);
    if n < chars.len() {
        lemma_white_space_separates(after[0] as u32, encode_utf8(after.drop_first()));
    } else {
        assert(tail =~= Seq::<u8>::empty());
    }
    lemma_token_len(bytes, m);
    assert(bytes.skip(0) =~= bytes);
}

/// Cutting the UTF-8 form of a text at separators gives the words, and
/// skips the tokens, that cutting the text at its white-space characters
/// gives and skips.
pub proof fn lemma_words_of_chars(chars: Seq<char>)
    ensures
        hex_words(encode_utf8(chars)) == hex_words_of_chars(chars),
        skipped_tokens(encode_utf8(chars)) == skipped_tokens_of_chars(chars),
    decreases chars.len(),
{
    let bytes = encode_utf8(chars);
    if chars.len() == 0 {
    } else if is_white_space(chars[0] as u32) {
        let rest = chars.drop_first();
        lemma_white_space_separates(chars[0] as u32, encode_utf8(rest));
        let gap = encode_scalar(chars[0] as u32).len();
        assert(bytes.skip(gap as int) =~= encode_utf8(rest));
        lemma_words_of_chars(rest);
    } else {
        lemma_token_len_of_chars(chars);
        lemma_words_of_chars(chars.skip(token_chars(chars) as int));
    }
}

/// Tells whether `byte` is a white-space character of ASCII.
pub fn is_ascii_white_space_byte(byte: u8) -> (white: bool)
    ensures
        white == is_ascii_white_space(byte),
{
    byte == 0x20 || (0x09 <= byte && byte <= 0x0D)
}

/// The number of bytes that the white-space character takes that begins
/// at the byte `at` of `text`; zero where none begins there.
pub fn separator_len_at(text: &[u8], at: usize) -> (len: usize)
    requires
        at <= text@.len(),
    ensures
        len == separator_len(text@.skip(at as int)),
        at + len <= text@.len(),
{
    let left: usize = text.len() - at;
    if left >= 1 && is_ascii_white_space_byte(text[at]) {
        1
    } else if left >= 2 && text[at] == 0xC2 && (text[at + 1] == 0x85 || text[at + 1] == 0xA0) {
        2
    } else if left >= 3 {
        let first: u8 = text[at];
        let second: u8 = text[at + 1];
        let third: u8 = text[at + 2];
        let white: bool = (first == 0xE1 && second == 0x9A && third == 0x80) || (first == 0xE2
            && second == 0x80 && ((0x80 <= third && third <= 0x8A) || third == 0xA8 || third
            == 0xA9 || third == 0xAF)) || (first == 0xE2 && second == 0x81 && third == 0x9F) || (
        first == 0xE3 && second == 0x80 && third == 0x80);
        if white {
            3
        } else {
            0
        }
    } else {
        0
    }
}

/// The three bytes that `token` stands for, or `None` where it stands for
/// nothing: where it is empty, longer than six bytes, or holds a byte that
/// is no hexadecimal digit.
pub fn decode_token(token: &[u8]) -> (word: Option<[u8; 3]>)
    ensures
        word matches Some(bytes) ==> token_word(token@) == Some(bytes@),
        word is None ==> token_word(token@) is None,
{
    let len: usize = token.len();
    if len == 0 || len > 6 {
        return None;
    }
    let mut padded: [u8; 6] = [0x30u8;6];
    let mut j: usize = 0;
    while j < len
        invariant
            j <= len,
            len == token@.len(),
            1 <= len <= 6,
            forall|k: int| 0 <= k < 6 - len ==> padded@[k] == 0x30u8,
            forall|k: int| 0 <= k < j ==> padded@[6 - len + k] == token@[k],
        decreases len - j,
    {
        padded[6 - len + j] = token[j];
        j = j + 1;
    }
    assert(padded@ =~= padded_token(token@));
    match decode_triplet(padded.as_slice()) {
        Ok(bytes) => Some(bytes),
        Err(_) => None,
    }
}

/// Reads a program text: tokens of one to six hexadecimal digits,
/// separated by white space, which is every white-space character of
/// Unicode in its UTF-8 form. Each token gives the three bytes of its
/// number, most significant byte first. A token that is no such number is
/// skipped and counted.
pub fn parse_hex_bytes(text: &[u8]) -> (parsed: HexText)
    ensures
        triplets_of(parsed.words@) == hex_words(text@),
        parsed.skipped == skipped_tokens(text@),
{
    let mut words: Vec<[u8; 3]> = Vec::new();
    let mut skipped: usize = 0;
    let mut i: usize = 0;
    assert(text@.skip(0) =~= text@);
    while i < text.len()
        invariant
            i <= text@.len(),
            skipped <= i,
            triplets_of(words@) + hex_words(text@.skip(i as int)) == hex_words(text@),
            skipped + skipped_tokens(text@.skip(i as int)) == skipped_tokens(text@),
        decreases text@.len() - i,
    {
        let ghost tail = text@.skip(i as int);
        let gap: usize = separator_len_at(text, i);
        if gap > 0 {
            assert(tail.skip(gap as int) =~= text@.skip(i + gap));
            i = i + gap;
        } else {
            let start: usize = i;
            let mut end: usize = i + 1;
            while end < text.len() && separator_len_at(text, end) == 0
                invariant
                    start < end <= text@.len(),
                    forall|j: int|
                        start <= j < end ==> separator_len(#[trigger] text@.skip(j)) == 0,
                decreases text@.len() - end,
            {
                end = end + 1;
            }
            let token = slice_subrange(text, start, end);
            proof {
                let n = (end - start) as nat;
                assert forall|j: int| 0 <= j < n implies separator_len(#[trigger] tail.skip(j))
                    == 0 by {
                    assert(tail.skip(j) =~= text@.skip(start + j));
                }
                assert(tail.skip(n as int) =~= text@.skip(end as int));
                lemma_token_len(tail, n);
                assert(tail.take(n as int) =~= token@);
            }
            let ghost before = words@;
            match decode_token(token) {
                Some(bytes) => {
                    words.push(bytes);
                    assert(triplets_of(words@) =~= triplets_of(before) + seq![bytes@]);
                    assert(triplets_of(words@) + hex_words(text@.skip(end as int)) =~= triplets_of(
                        before,
                    ) + (seq![bytes@] + hex_words(text@.skip(end as int))));
                },
                None => {
                    skipped = skipped + 1;
                },
            }
            i = end;
        }
    }
    assert(text@.skip(i as int) =~= Seq::<u8>::empty());
    assert(triplets_of(words@) + Seq::<Seq<u8>>::empty() =~= triplets_of(words@));
    HexText { words, skipped }
}

/// Reads a program text from a string: tokens of one to six hexadecimal
/// digits, separated by white-space characters. Each token gives the
/// three bytes of its number, most significant byte first. A token that is
/// no such number is skipped and counted.
pub fn parse_hextext(text: &str) -> (parsed: HexText)
    ensures
        triplets_of(parsed.words@) == hex_words_of_chars(text@),
        parsed.skipped == skipped_tokens_of_chars(text@),
        triplets_of(parsed.words@) == hex_words(text.spec_bytes()),
        parsed.skipped == skipped_tokens(text.spec_bytes()),
{
    proof {
        lemma_words_of_chars(text@);
    }
    parse_hex_bytes(text.as_bytes())
}

/// The words of a program text, as `parse_hex_bytes` reads them.
pub fn bytevec_from_hex_bytes(text: &[u8]) -> (words: Vec<[u8; 3]>)
    ensures
        triplets_of(words@) == hex_words(text@),
{
    parse_hex_bytes(text).words
}

/// The words of a program text in a string, as `parse_hextext` reads them.
pub fn bytevec_from_hextext(text: &str) -> (words: Vec<[u8; 3]>)
    ensures
        triplets_of(words@) == hex_words_of_chars(text@),
        triplets_of(words@) == hex_words(text.spec_bytes()),
{
    parse_hextext(text).words
}

} // verus!
