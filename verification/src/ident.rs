//! Session identifiers: how the server draws them and how the client checks them.

use vstd::prelude::*;
use vstd::utf8::{encode_scalar, encode_utf8, is_ascii_chars, is_ascii_chars_encode_utf8};

use crate::constants::{ID_SIZE_ASCII_HEX, ID_SIZE_BINARY};
use rand_core::RngCore;

verus! {

/// The lower-case hexadecimal digit of a value below sixteen.
pub open spec fn hex_digit(value: int) -> char {
    seq!['0', '1', '2', '3', '4', '5', '6', '7', '8', '9', 'a', 'b', 'c', 'd', 'e', 'f'][value]
}

/// Whether a character is a lower-case hexadecimal digit.
pub open spec fn is_hex_digit(c: char) -> bool {
    '0' <= c <= '9' || 'a' <= c <= 'f'
}

/// The text of an identifier: two digits for each byte, the high one first.
pub open spec fn id_text(bytes: Seq<u8>) -> Seq<char> {
    Seq::new(
        2 * bytes.len(),
        |i: int|
            if i % 2 == 0 {
                hex_digit(bytes[i / 2] as int / 16)
            } else {
                hex_digit(bytes[i / 2] as int % 16)
            },
    )
}

/// Whether a text has the form of a session identifier.
pub open spec fn is_session_id(text: Seq<char>) -> bool {
    &&& text.len() == ID_SIZE_ASCII_HEX
    &&& forall|i: int| 0 <= i < text.len() ==> is_hex_digit(#[trigger] text[i])
}

/// Whether `text` holds, from position `at` on, `count` hexadecimal digits in a row.
pub open spec fn hex_run_at(text: Seq<char>, at: int, count: int) -> bool {
    &&& 0 <= at <= text.len() - count
    &&& forall|i: int| at <= i < at + count ==> is_hex_digit(#[trigger] text[i])
}

/// `String::push` puts one character at the end of the string.
pub assume_specification[ String::push ](s: &mut String, ch: char)
    ensures
        final(s)@ == old(s)@.push(ch),
;

/// Fills `dest` with bytes from `rand::thread_rng()`, by `RngCore::fill_bytes`.
///
/// The bytes are random: nothing is claimed of their values, only that there are as many of them
/// as before.
#[verifier::external_body]
fn fill_random(dest: &mut Vec<u8>)
    ensures
        final(dest)@.len() == old(dest)@.len(),
{
    rand::thread_rng().fill_bytes(dest)
}

/// Searches `text` for the regular expression `pattern`, with `regex::Regex::new` and
/// `regex::Regex::is_match`.
///
/// For the one pattern admitted, `[0-9a-f]{32}`, `Regex::new` succeeds and `is_match` tells
/// whether thirty-two lower-case hexadecimal digits stand in a row anywhere in `text`.
#[verifier::external_body]
fn regex_is_match(pattern: &str, text: &str) -> (found: bool)
    requires
        pattern@ == "[0-9a-f]{32}"@,
    ensures
        found == exists|at: int| hex_run_at(text@, at, 32),
{
    regex::Regex::new(pattern).expect("initialising regex").is_match(text)
}

/// Gives the hexadecimal digit of a value below sixteen.
fn digit(value: u8) -> (c: char)
    requires
        value < 16,
    ensures
        c == hex_digit(value as int),
        is_hex_digit(c),
{
    match value {
        0 => '0',
        1 => '1',
        2 => '2',
        3 => '3',
        4 => '4',
        5 => '5',
        6 => '6',
        7 => '7',
        8 => '8',
        9 => '9',
        10 => 'a',
        11 => 'b',
        12 => 'c',
        13 => 'd',
        14 => 'e',
        _ => 'f',
    }
}

/// Writes bytes as lower-case hexadecimal digits, two for each byte.
pub fn encode_id(bytes: &Vec<u8>) -> (text: String)
    ensures
        text@ == id_text(bytes@),
{
    let mut text = String::new();
    let mut i: usize = 0;
    while i < bytes.len()
        invariant
            i <= bytes@.len(),
            text@ == id_text(bytes@.take(i as int)),
        decreases bytes@.len() - i,
    {
        let byte = bytes[i];
        text.push(digit(byte / 16));
        text.push(digit(byte % 16));
        i += 1;
        assert(text@ =~= id_text(bytes@.take(i as int)));
    }
    assert(bytes@.take(i as int) =~= bytes@);
    text
}

/// Draws at random the bytes that the identifier of a new session is made of.
pub fn draw_id_bytes() -> (bytes: Vec<u8>)
    ensures
        bytes@.len() == ID_SIZE_BINARY,
{
    let mut bytes: Vec<u8> = Vec::new();
    while bytes.len() < ID_SIZE_BINARY
        invariant
            bytes@.len() <= ID_SIZE_BINARY,
        decreases ID_SIZE_BINARY - bytes@.len(),
    {
        bytes.push(0);
    }
    fill_random(&mut bytes);
    bytes
}

/// A text has at least as many bytes as characters.
proof fn lemma_utf8_not_shorter(text: Seq<char>)
    ensures
        encode_utf8(text).len() >= text.len(),
    decreases text.len(),
{
    if text.len() > 0 {
        lemma_utf8_not_shorter(text.drop_first());
        assert(encode_scalar(text[0] as u32).len() >= 1);
    }
}

/// Tests whether a text that the server sent has the form of a session identifier.
pub fn check_session_id(id: &str) -> (valid: bool)
    ensures
        valid == is_session_id(id@),
{
    let size: usize = id.as_bytes().len();
    let found = regex_is_match("[0-9a-f]{32}", id);
    proof {
        lemma_utf8_not_shorter(id@);
        if is_session_id(id@) {
            assert(is_ascii_chars(id@));
            is_ascii_chars_encode_utf8(id@);
            assert(hex_run_at(id@, 0, 32));
        }
        if size == ID_SIZE_ASCII_HEX && found {
            let at = choose|at: int| hex_run_at(id@, at, 32);
            assert(at == 0);
        }
    }
    size == ID_SIZE_ASCII_HEX && found
}

/// Every identifier that the server can draw has the form that the client accepts.
pub proof fn law_issued_ids_are_well_formed(bytes: Seq<u8>)
    requires
        bytes.len() == ID_SIZE_BINARY,
    ensures
        is_session_id(id_text(bytes)),
{
}

/// Different random bytes give different identifiers.
pub proof fn law_ids_are_distinct(left: Seq<u8>, right: Seq<u8>)
    requires
        id_text(left) == id_text(right),
    ensures
        left == right,
{
    assert(id_text(left).len() == 2 * left.len());
    assert(id_text(right).len() == 2 * right.len());
    assert forall|i: int| 0 <= i < left.len() implies left[i] == right[i] by {
        let high = id_text(left)[2 * i];
        let low = id_text(left)[2 * i + 1];
        assert(high == id_text(right)[2 * i]);
        assert(low == id_text(right)[2 * i + 1]);
        assert((2 * i) / 2 == i && (2 * i + 1) / 2 == i);
        assert(left[i] as int / 16 == right[i] as int / 16);
        assert(left[i] as int % 16 == right[i] as int % 16);
    }
    assert(left =~= right);
}

} // verus!
