//! The hex encoder: two lowercase hex digits for every byte.

use crate::types::EncodeError;
use std::fmt::Write;
use vstd::prelude::*;

verus! {

/// The sixteen lowercase hex digits, in order of their value.
pub open spec fn hex_digits() -> Seq<char> {
    seq!['0', '1', '2', '3', '4', '5', '6', '7', '8', '9', 'a', 'b', 'c', 'd', 'e', 'f']
}

/// Whether `c` is one of the sixteen lowercase hex digits.
pub open spec fn is_hex_digit(c: char) -> bool {
    ('0' <= c && c <= '9') || ('a' <= c && c <= 'f')
}

/// The two digits that stand for `byte`: the high half first.
pub open spec fn hex_pair(byte: u8) -> Seq<char> {
    seq![hex_digits()[byte as int / 16], hex_digits()[byte as int % 16]]
}

/// The hex rendering of `bytes`: the digit at position `i` belongs to the
/// byte at `i / 2`, and shows its high half where `i` is even, its low half
/// where `i` is odd.
pub open spec fn hex_string(bytes: Seq<u8>) -> Seq<char> {
    Seq::new(
        2 * bytes.len(),
        |i: int|
            if i % 2 == 0 {
                hex_digits()[bytes[i / 2] as int / 16]
            } else {
                hex_digits()[bytes[i / 2] as int % 16]
            },
    )
}

/// Each of the sixteen digits is a lowercase hex digit.
pub proof fn lemma_hex_digits_are_digits()
    ensures
        hex_digits().len() == 16,
        forall|n: int| 0 <= n < 16 ==> is_hex_digit(#[trigger] hex_digits()[n]),
{
}

/// Rendering one more byte appends that byte's two digits.
pub proof fn lemma_hex_string_push(bytes: Seq<u8>, byte: u8)
    ensures
        hex_string(bytes.push(byte)) == hex_string(bytes) + hex_pair(byte),
{
    assert(hex_string(bytes.push(byte)) =~= hex_string(bytes) + hex_pair(byte));
}

/// A rendering has two characters per byte, and each is a lowercase hex digit.
pub proof fn lemma_hex_string_digits(bytes: Seq<u8>)
    ensures
        hex_string(bytes).len() == 2 * bytes.len(),
        forall|i: int| 0 <= i < hex_string(bytes).len() ==> is_hex_digit(#[trigger] hex_string(bytes)[i]),
{
    assert forall|i: int| 0 <= i < hex_string(bytes).len() implies is_hex_digit(
        #[trigger] hex_string(bytes)[i],
    ) by {
        let b = bytes[i / 2] as int;
        let n = if i % 2 == 0 { b / 16 } else { b % 16 };
        assert(0 <= n < 16 && hex_digits()[n] == hex_string(bytes)[i]);
        lemma_hex_digits_are_digits();
    }
}

/// The rendering of the first `n` bytes is the first `2 * n` characters of the
/// rendering of them all.
pub proof fn lemma_hex_string_take(bytes: Seq<u8>, n: int)
    requires
        0 <= n <= bytes.len(),
    ensures
        hex_string(bytes.take(n)) == hex_string(bytes).take(2 * n),
{
    assert(hex_string(bytes.take(n)) =~= hex_string(bytes).take(2 * n));
}

/// std's `core::fmt::Error`, the error that a formatting call reports. It
/// holds nothing, and nothing is assumed of it.
#[verifier::external_type_specification]
#[verifier::external_body]
pub struct ExFmtError(core::fmt::Error);

/// Appends `byte` to `out` in the format `{:02x}`.
///
/// This is one call of std's `write!` on a `String`. The contract is not
/// proved. It states what std documents: that format gives lowercase hex,
/// padded with zeros to a width of two, so a `u8` gives exactly its two
/// digits; formatting reports an error only where the writer does, and a
/// `String` as writer never does, so the call succeeds.
#[verifier::external_body]
fn write_hex_byte(out: &mut String, byte: u8) -> (res: Result<(), core::fmt::Error>)
    ensures
        res is Ok,
        final(out)@ == old(out)@ + hex_pair(byte),
{
    write!(out, "{:02x}", byte)
}

/// Renders `bytes` as lowercase hex, two digits per byte, in byte order.
///
/// The digits are written by std's formatting machinery, one byte at a time.
/// The result of each write is looked at, and a reported failure would end the
/// rendering with an [`EncodeError`]; writing into a `String` reports none, so
/// the result is always the full rendering.
pub fn encode_hex(bytes: &[u8]) -> (res: Result<String, EncodeError>)
    ensures
        res matches Ok(s) && s@ == hex_string(bytes@),
{
    let mut out = String::new();
    let mut i: usize = 0;
    while i < bytes.len()
        invariant
            i <= bytes.len(),
            out@ == hex_string(bytes@.take(i as int)),
        decreases bytes.len() - i,
    {
        match write_hex_byte(&mut out, bytes[i]) {
            Ok(()) => {},
            Err(_) => {
                return Err(EncodeError);
            },
        }
        proof {
            lemma_hex_string_push(bytes@.take(i as int), bytes@[i as int]);
            assert(bytes@.take(i + 1) =~= bytes@.take(i as int).push(bytes@[i as int]));
        }
        i += 1;
    }
    proof {
        assert(bytes@.take(i as int) =~= bytes@);
    }
    Ok(out)
}

} // verus!
