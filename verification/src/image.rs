use vstd::prelude::*;

verus! {

/// The 32-bit word encoded big-endian by four consecutive bytes.
pub open spec fn be_word(b0: u8, b1: u8, b2: u8, b3: u8) -> u32 {
    ((b0 as u32) << 24) | ((b1 as u32) << 16) | ((b2 as u32) << 8) | (b3 as u32)
}

/// Decodes a program image, a sequence of 32-bit big-endian words, into
/// instruction words; bytes after the last whole word are ignored.
pub fn words_from_bytes(bytes: &[u8]) -> (words: Vec<u32>)
    ensures
        words@.len() == bytes@.len() / 4,
        forall|i: int|
            0 <= i < words@.len() ==> words@[i] == be_word(
                bytes@[4 * i],
                bytes@[4 * i + 1],
                bytes@[4 * i + 2],
                bytes@[4 * i + 3],
            ),
{
    let mut words: Vec<u32> = Vec::new();
    let blen = bytes.len();
    let count = blen / 4;
    let mut i: usize = 0;
    while i < count
        invariant
            blen == bytes@.len(),
            count == bytes@.len() / 4,
            i <= count,
            words@.len() == i,
            forall|j: int|
                0 <= j < i ==> words@[j] == be_word(
                    bytes@[4 * j],
                    bytes@[4 * j + 1],
                    bytes@[4 * j + 2],
                    bytes@[4 * j + 3],
                ),
        decreases count - i,
    {
        proof {
            assert(4 * (bytes@.len() / 4) <= bytes@.len());
            assert(4 * i + 3 < bytes@.len());
        }
        let w = ((bytes[4 * i] as u32) << 24) | ((bytes[4 * i + 1] as u32) << 16) | ((bytes[4 * i
            + 2] as u32) << 8) | (bytes[4 * i + 3] as u32);
        words.push(w);
        i += 1;
    }
    words
}

} // verus!
