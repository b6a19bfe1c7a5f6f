//! The triangle's vertex data and the constants describing its layout.
//!
//! Vertex positions are 32-bit floats on the GPU, but the library never
//! computes with them: each component is carried as its IEEE 754 binary32 bit
//! pattern, and what is uploaded to the vertex buffer is the little-endian
//! byte image of those patterns. This keeps the byte layout exact and
//! checkable without any floating-point arithmetic.

use vstd::prelude::*;
use vstd::bytes::{spec_u32_to_le_bytes, u32_to_le_bytes, lemma_auto_spec_u32_to_from_le_bytes};

verus! {

/// Number of vertices drawn for the triangle.
pub const VERTEX_COUNT: u32 = 3;

/// Number of position components stored per vertex (x, y, z).
pub const COMPONENTS_PER_VERTEX: u32 = 3;

/// Size in bytes of one 32-bit float component.
pub const BYTES_PER_COMPONENT: u32 = 4;

/// Distance in bytes between the starts of consecutive vertices in the
/// buffer: three tightly packed 4-byte components.
pub const VERTEX_STRIDE_BYTES: u32 = 12;

/// Attribute slot that carries the vertex positions.
pub const POSITION_ATTRIB_SLOT: u32 = 0;

/// Byte offset of the first component inside the buffer.
pub const POSITION_ATTRIB_OFFSET: u32 = 0;

/// binary32 bit pattern of the background red channel, 0.1.
pub const CLEAR_RED_BITS: u32 = 0x3DCC_CCCD;

/// binary32 bit pattern of the background green channel, 0.2.
pub const CLEAR_GREEN_BITS: u32 = 0x3E4C_CCCD;

/// binary32 bit pattern of the background blue channel, 0.3.
pub const CLEAR_BLUE_BITS: u32 = 0x3E99_999A;

/// binary32 bit pattern of the background alpha channel, 1.0 (opaque).
pub const CLEAR_ALPHA_BITS: u32 = 0x3F80_0000;

/// binary32 bit pattern of -0.5.
pub const NEG_HALF_BITS: u32 = 0xBF00_0000;

/// binary32 bit pattern of 0.5.
pub const POS_HALF_BITS: u32 = 0x3F00_0000;

/// binary32 bit pattern of 0.0.
pub const ZERO_BITS: u32 = 0x0000_0000;

/// The nine position components of the triangle as binary32 bit patterns, in
/// upload order: (-0.5, -0.5, 0.0), (0.5, -0.5, 0.0), (0.0, 0.5, 0.0).
pub open spec fn triangle_vertex_words() -> Seq<u32> {
    seq![
        NEG_HALF_BITS, NEG_HALF_BITS, ZERO_BITS,
        POS_HALF_BITS, NEG_HALF_BITS, ZERO_BITS,
        ZERO_BITS, POS_HALF_BITS, ZERO_BITS,
    ]
}

/// Concatenation of the little-endian 4-byte encodings of `words`.
pub open spec fn le_bytes_of_words(words: Seq<u32>) -> Seq<u8>
    decreases words.len(),
{
    if words.len() == 0 {
        Seq::empty()
    } else {
        le_bytes_of_words(words.drop_last()) + spec_u32_to_le_bytes(words.last())
    }
}

/// The exact byte image uploaded to the vertex buffer: the nine vertex
/// words, each encoded little-endian, 36 bytes in all.
pub open spec fn triangle_vertex_bytes() -> Seq<u8> {
    le_bytes_of_words(triangle_vertex_words())
}

/// Each word contributes exactly 4 bytes to the encoding.
pub proof fn lemma_le_bytes_of_words_len(words: Seq<u32>)
    ensures
        le_bytes_of_words(words).len() == 4 * words.len(),
    decreases words.len(),
{
    lemma_auto_spec_u32_to_from_le_bytes();
    if words.len() > 0 {
        lemma_le_bytes_of_words_len(words.drop_last());
    }
}

/// The vertex components as binary32 bit patterns, in upload order.
pub fn vertex_words() -> (words: Vec<u32>)
    ensures
        words@ == triangle_vertex_words(),
{
    let mut words: Vec<u32> = Vec::new();
    words.push(NEG_HALF_BITS);
    words.push(NEG_HALF_BITS);
    words.push(ZERO_BITS);
    words.push(POS_HALF_BITS);
    words.push(NEG_HALF_BITS);
    words.push(ZERO_BITS);
    words.push(ZERO_BITS);
    words.push(POS_HALF_BITS);
    words.push(ZERO_BITS);
    proof {
        assert(words@ =~= triangle_vertex_words());
    }
    words
}

/// The exact bytes to upload to the vertex buffer: the little-endian byte
/// image of the nine vertex words.
pub fn vertex_bytes() -> (bytes: Vec<u8>)
    ensures
        bytes@ == triangle_vertex_bytes(),
        bytes@.len() == 36,
{
    let words = vertex_words();
    let mut bytes: Vec<u8> = Vec::new();
    let mut i: usize = 0;
    while i < words.len()
        invariant
            i <= words@.len(),
            words@ == triangle_vertex_words(),
            bytes@ == le_bytes_of_words(words@.take(i as int)),
        decreases words@.len() - i,
    {
        let mut encoded = u32_to_le_bytes(words[i]);
        bytes.append(&mut encoded);
        proof {
            assert(words@.take(i + 1).drop_last() =~= words@.take(i as int));
            assert(words@.take(i + 1).last() == words@[i as int]);
        }
        i = i + 1;
    }
    proof {
        assert(words@.take(words@.len() as int) =~= words@);
        lemma_le_bytes_of_words_len(triangle_vertex_words());
    }
    bytes
}

} // verus!
