//! Preparing a received display frame for drawing.
//!
//! A frame is a buffer of packed 32-bit pixels whose fourth byte carries no
//! meaningful alpha. It is reinterpreted as bytes and every fourth byte, the
//! alpha channel, is forced to opaque, so that the image is visible.

use vstd::prelude::*;

verus! {

/// Byte `k` (0 to 3, least significant first) of a word.
pub open spec fn word_byte(w: u32, k: int) -> u8 {
    if k == 0 {
        (w % 256) as u8
    } else if k == 1 {
        ((w / 256) % 256) as u8
    } else if k == 2 {
        ((w / 65536) % 256) as u8
    } else {
        ((w / 16777216) % 256) as u8
    }
}

/// `bytes` lays out the words of `words` least significant byte first.
pub open spec fn little_endian_bytes(words: Seq<u32>, bytes: Seq<u8>) -> bool {
    &&& bytes.len() == 4 * words.len()
    &&& forall|i: int, k: int|
        0 <= i < words.len() && 0 <= k < 4 ==> #[trigger] bytes[4 * i + k] == word_byte(words[i], k)
}

/// `bytes` lays out the words of `words` most significant byte first.
pub open spec fn big_endian_bytes(words: Seq<u32>, bytes: Seq<u8>) -> bool {
    &&& bytes.len() == 4 * words.len()
    &&& forall|i: int, k: int|
        0 <= i < words.len() && 0 <= k < 4 ==> #[trigger] bytes[4 * i + k] == word_byte(words[i], 3 - k)
}

/// `bytes` is the in-memory layout of `words` on a machine of either byte
/// order.
pub open spec fn memory_bytes(words: Seq<u32>, bytes: Seq<u8>) -> bool {
    little_endian_bytes(words, bytes) || big_endian_bytes(words, bytes)
}

/// Whether byte `i` of an RGBA buffer is an alpha byte.
pub open spec fn is_alpha_index(i: int) -> bool {
    i % 4 == 3
}

/// The buffer with every alpha byte set to opaque.
pub open spec fn opaque(bytes: Seq<u8>) -> Seq<u8> {
    Seq::new(bytes.len(), |i: int| if is_alpha_index(i) { 0xFFu8 } else { bytes[i] })
}

/// Reinterprets pixel words as their bytes in memory, by
/// `bytemuck::cast_slice` and `to_vec`. The contract states that the bytes
/// are those of the words in memory, in the byte order of the machine; which
/// order that is, is left open.
#[verifier::external_body]
fn pixel_bytes(words: &[u32]) -> (bytes: Vec<u8>)
    ensures
        memory_bytes(words@, bytes@),
{
    bytemuck::cast_slice::<u32, u8>(words).to_vec()
}

/// Sets every fourth byte, starting with byte 3, to 0xFF and leaves the
/// other bytes as they were.
pub fn force_opaque_alpha(rgba: &mut Vec<u8>)
    ensures
        final(rgba)@ == opaque(old(rgba)@),
        final(rgba)@.len() == old(rgba)@.len(),
        forall|i: int| 0 <= i < final(rgba)@.len() && i % 4 == 3 ==> #[trigger] final(rgba)@[i] == 0xFFu8,
        forall|i: int| 0 <= i < final(rgba)@.len() && i % 4 != 3 ==> #[trigger] final(rgba)@[i] == old(rgba)@[i],
{
    let n: usize = rgba.len() / 4;
    let mut j: usize = 0;
    while j < n
        invariant
            n == old(rgba)@.len() / 4,
            rgba@.len() == old(rgba)@.len(),
            j <= n,
            forall|k: int|
                0 <= k < rgba@.len() ==> #[trigger] rgba@[k] == (if is_alpha_index(k) && k < 4 * j {
                    0xFFu8
                } else {
                    old(rgba)@[k]
                }),
        decreases n - j,
    {
        let len: usize = rgba.len();
        assert(4 * j + 3 < len) by (nonlinear_arith)
            requires
                j < n,
                n == len / 4,
        ;
        let idx: usize = 4 * j + 3;
        rgba.set(idx, 0xFF);
        j += 1;
    }
    assert(rgba@ =~= opaque(old(rgba)@));
}

/// The RGBA bytes to draw for a frame buffer: the buffer's bytes in memory
/// with every alpha byte made opaque.
pub fn frame_rgba(buffer: &[u32]) -> (rgba: Vec<u8>)
    ensures
        rgba@.len() == 4 * buffer@.len(),
        exists|raw: Seq<u8>| memory_bytes(buffer@, raw) && rgba@ == opaque(raw),
        forall|i: int| 0 <= i < rgba@.len() && i % 4 == 3 ==> #[trigger] rgba@[i] == 0xFFu8,
{
    let mut rgba = pixel_bytes(buffer);
    force_opaque_alpha(&mut rgba);
    rgba
}


/// Making a buffer opaque twice is the same as once; colour bytes are never
/// touched and the length is kept.
pub proof fn lemma_opaque_idempotent(bytes: Seq<u8>)
    ensures
        opaque(opaque(bytes)) == opaque(bytes),
        opaque(bytes).len() == bytes.len(),
        forall|i: int| 0 <= i < bytes.len() && !is_alpha_index(i) ==> #[trigger] opaque(bytes)[i] == bytes[i],
{
    assert(opaque(opaque(bytes)) =~= opaque(bytes));
}


/// Every alpha byte (index 3 modulo 4) of an opaque buffer is 0xFF and
/// every other byte is the buffer's own, at any length.
pub proof fn lemma_opaque_bytes(bytes: Seq<u8>)
    ensures
        opaque(bytes).len() == bytes.len(),
        forall|i: int| 0 <= i < bytes.len() && i % 4 == 3 ==> #[trigger] opaque(bytes)[i] == 0xFFu8,
        forall|i: int| 0 <= i < bytes.len() && i % 4 != 3 ==> #[trigger] opaque(bytes)[i] == bytes[i],
{
}

} // verus!
