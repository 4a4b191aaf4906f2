//! How a buffer's contents lie in memory: byte order, and the bytes of 16-bit
//! and 32-bit words as the GPU reads them.

use vstd::prelude::*;

verus! {

/// The order in which a machine stores the bytes of a word.
#[derive(Clone, Copy, Debug, PartialEq, Eq, Structural)]
pub enum ByteOrder {
    /// Least significant byte first.
    Little,
    /// Most significant byte first.
    Big,
}

/// The two bytes of `half`, least significant first.
pub open spec fn half_le(half: u16) -> Seq<u8> {
    seq![(half % 256) as u8, (half / 256) as u8]
}

/// The four bytes of `word`, least significant first.
pub open spec fn word_le(word: u32) -> Seq<u8> {
    seq![
        (word % 256) as u8,
        (word / 256 % 256) as u8,
        (word / 65536 % 256) as u8,
        (word / 16777216) as u8,
    ]
}

/// The bytes of `half` in the given order.
pub open spec fn half_bytes(order: ByteOrder, half: u16) -> Seq<u8> {
    match order {
        ByteOrder::Little => half_le(half),
        ByteOrder::Big => half_le(half).reverse(),
    }
}

/// The bytes of `word` in the given order.
pub open spec fn word_bytes(order: ByteOrder, word: u32) -> Seq<u8> {
    match order {
        ByteOrder::Little => word_le(word),
        ByteOrder::Big => word_le(word).reverse(),
    }
}

/// The bytes of a run of 16-bit values, one after the other, each in the
/// given order.
pub open spec fn halves_bytes(order: ByteOrder, halves: Seq<u16>) -> Seq<u8> {
    Seq::new(2 * halves.len(), |i: int| half_bytes(order, halves[i / 2])[i % 2])
}

/// The bytes of a run of 32-bit words, one after the other, each in the given
/// order.
pub open spec fn words_bytes(order: ByteOrder, words: Seq<u32>) -> Seq<u8> {
    Seq::new(4 * words.len(), |i: int| word_bytes(order, words[i / 4])[i % 4])
}

/// `bytes` is the memory image of `halves` on some machine.
pub open spec fn is_image_of_halves(bytes: Seq<u8>, halves: Seq<u16>) -> bool {
    bytes == halves_bytes(ByteOrder::Little, halves) || bytes == halves_bytes(
        ByteOrder::Big,
        halves,
    )
}

/// `bytes` is the memory image of `words` on some machine.
pub open spec fn is_image_of_words(bytes: Seq<u8>, words: Seq<u32>) -> bool {
    bytes == words_bytes(ByteOrder::Little, words) || bytes == words_bytes(ByteOrder::Big, words)
}

/// `bytemuck::cast_slice` from `u16` to `u8`, copied into a vector. The cast
/// reinterprets the slice's memory, so the result holds the two bytes of each
/// value in the machine's byte order, the values in sequence. Going from a
/// wider to a narrower element, the cast cannot fail.
#[verifier::external_body]
pub(crate) fn cast_halves(halves: &Vec<u16>) -> (bytes: Vec<u8>)
    ensures
        is_image_of_halves(bytes@, halves@),
{
    bytemuck::cast_slice::<u16, u8>(halves.as_slice()).to_vec()
}

/// `bytemuck::cast_slice` from `u32` to `u8`, copied into a vector. The cast
/// reinterprets the slice's memory, so the result holds the four bytes of
/// each word in the machine's byte order, the words in sequence. Going from a
/// wider to a narrower element, the cast cannot fail.
#[verifier::external_body]
pub(crate) fn cast_words(words: &Vec<u32>) -> (bytes: Vec<u8>)
    ensures
        is_image_of_words(bytes@, words@),
{
    bytemuck::cast_slice::<u32, u8>(words.as_slice()).to_vec()
}

} // verus!
