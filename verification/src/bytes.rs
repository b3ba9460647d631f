//! The bytes that go up to the device.
//!
//! Buffers are uploaded as the machine holds them in memory, so the byte
//! order is the machine's own. The contracts here say what holds on either
//! kind of machine: every item is laid out little-endian, or every item is
//! laid out big-endian.

use vstd::prelude::*;

verus! {

/// The 32-bit value that the four bytes from `4 * i` on spell, least
/// significant byte first.
pub open spec fn word_le(bytes: Seq<u8>, i: int) -> int {
    bytes[4 * i] + 0x100 * bytes[4 * i + 1] + 0x1_0000 * bytes[4 * i + 2] + 0x100_0000 * bytes[4
        * i + 3]
}

/// The 32-bit value that the four bytes from `4 * i` on spell, most
/// significant byte first.
pub open spec fn word_be(bytes: Seq<u8>, i: int) -> int {
    0x100_0000 * bytes[4 * i] + 0x1_0000 * bytes[4 * i + 1] + 0x100 * bytes[4 * i + 2] + bytes[4
        * i + 3]
}

/// The 16-bit value that the two bytes from `2 * i` on spell, least
/// significant byte first.
pub open spec fn half_le(bytes: Seq<u8>, i: int) -> int {
    bytes[2 * i] + 0x100 * bytes[2 * i + 1]
}

/// The 16-bit value that the two bytes from `2 * i` on spell, most
/// significant byte first.
pub open spec fn half_be(bytes: Seq<u8>, i: int) -> int {
    0x100 * bytes[2 * i] + bytes[2 * i + 1]
}

/// `bytes` holds `words` in order, four bytes each, in one byte order
/// throughout.
pub open spec fn holds_words(words: Seq<u32>, bytes: Seq<u8>) -> bool {
    &&& bytes.len() == 4 * words.len()
    &&& {
        ||| forall|i: int| 0 <= i < words.len() ==> word_le(bytes, i) == #[trigger] words[i]
        ||| forall|i: int| 0 <= i < words.len() ==> word_be(bytes, i) == #[trigger] words[i]
    }
}

/// `bytes` holds `halves` in order, two bytes each, in one byte order
/// throughout.
pub open spec fn holds_halves(halves: Seq<u16>, bytes: Seq<u8>) -> bool {
    &&& bytes.len() == 2 * halves.len()
    &&& {
        ||| forall|i: int| 0 <= i < halves.len() ==> half_le(bytes, i) == #[trigger] halves[i]
        ||| forall|i: int| 0 <= i < halves.len() ==> half_be(bytes, i) == #[trigger] halves[i]
    }
}

/// `bytemuck::cast_slice` from `u32` to `u8`: the same memory, seen as
/// bytes. A byte has no alignment to miss and four bytes make a word, so the
/// cast cannot fail; the result is four times as long and spells each word
/// in the machine's byte order.
#[verifier::external_body]
pub(crate) fn words_as_bytes(words: &[u32]) -> (bytes: &[u8])
    ensures
        holds_words(words@, bytes@),
{
    bytemuck::cast_slice::<u32, u8>(words)
}

/// `bytemuck::cast_slice` from `u16` to `u8`: the same memory, seen as
/// bytes. The cast cannot fail; the result is twice as long and spells each
/// item in the machine's byte order.
#[verifier::external_body]
pub(crate) fn halves_as_bytes(halves: &[u16]) -> (bytes: &[u8])
    ensures
        holds_halves(halves@, bytes@),
{
    bytemuck::cast_slice::<u16, u8>(halves)
}

} // verus!
