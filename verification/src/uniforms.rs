//! The uniform state buffer: a small fixed-layout value `{width, height}`
//! written by byte-copy into GPU-visible memory exactly once at renderer
//! construction, and treated as immutable afterward.

use vstd::prelude::*;

verus! {

/// Size in bytes of the byte image of [`Uniforms`]: two 32-bit words.
pub const UNIFORMS_BYTE_SIZE: u64 = 8;

/// Per-frame constant parameters of the display pipeline, currently the
/// pixel dimensions of the render target. The fragment stage reads these
/// through a uniform-buffer binding.
#[derive(Clone, Copy, PartialEq, Eq, Structural, Debug)]
pub struct Uniforms {
    pub width: u32,
    pub height: u32,
}

/// The four bytes of `x`, least significant first.
pub open spec fn u32_le_bytes(x: u32) -> Seq<u8> {
    seq![
        (x % 256) as u8,
        ((x / 256) % 256) as u8,
        ((x / 65536) % 256) as u8,
        ((x / 16777216) % 256) as u8,
    ]
}

/// The 32-bit word encoded by four bytes, least significant first.
pub open spec fn u32_from_le_bytes(b0: u8, b1: u8, b2: u8, b3: u8) -> u32 {
    (b0 + 256 * b1 + 65536 * b2 + 16777216 * b3) as u32
}

impl Uniforms {
    /// The exact byte image written into the GPU-visible buffer:
    /// `width` then `height`, each as four little-endian bytes.
    pub open spec fn spec_bytes(self) -> Seq<u8> {
        u32_le_bytes(self.width) + u32_le_bytes(self.height)
    }

    /// The value read back from a byte image of the fixed layout.
    pub open spec fn spec_from_bytes(b: Seq<u8>) -> Uniforms
        recommends
            b.len() == UNIFORMS_BYTE_SIZE,
    {
        Uniforms {
            width: u32_from_le_bytes(b[0], b[1], b[2], b[3]),
            height: u32_from_le_bytes(b[4], b[5], b[6], b[7]),
        }
    }

    /// Serializes the value for the mapped write at buffer creation.
    pub fn to_bytes(&self) -> (bytes: Vec<u8>)
        ensures
            bytes@ == self.spec_bytes(),
            bytes@.len() == UNIFORMS_BYTE_SIZE,
    {
        let mut bytes: Vec<u8> = Vec::new();
        bytes.push((self.width % 256) as u8);
        bytes.push(((self.width / 256) % 256) as u8);
        bytes.push(((self.width / 65536) % 256) as u8);
        bytes.push(((self.width / 16777216) % 256) as u8);
        bytes.push((self.height % 256) as u8);
        bytes.push(((self.height / 256) % 256) as u8);
        bytes.push(((self.height / 65536) % 256) as u8);
        bytes.push(((self.height / 16777216) % 256) as u8);
        proof {
            assert(bytes@ =~= self.spec_bytes());
        }
        bytes
    }

    /// Reads a value back from a byte image of the fixed layout.
    pub fn from_bytes(bytes: &Vec<u8>) -> (u: Uniforms)
        requires
            bytes@.len() == UNIFORMS_BYTE_SIZE,
        ensures
            u == Uniforms::spec_from_bytes(bytes@),
    {
        let width = bytes[0] as u32
            + 256 * (bytes[1] as u32)
            + 65536 * (bytes[2] as u32)
            + 16777216 * (bytes[3] as u32);
        let height = bytes[4] as u32
            + 256 * (bytes[5] as u32)
            + 65536 * (bytes[6] as u32)
            + 16777216 * (bytes[7] as u32);
        Uniforms { width, height }
    }
}

/// Law: the byte image round-trips. Whatever dimensions are written into
/// the GPU-visible buffer, reading the buffer back yields the same value.
pub proof fn lemma_uniforms_byte_round_trip(u: Uniforms)
    ensures
        Uniforms::spec_from_bytes(u.spec_bytes()) == u,
{
    let w = u.width;
    let h = u.height;
    assert(w % 256 + 256 * ((w / 256) % 256) + 65536 * ((w / 65536) % 256)
        + 16777216 * ((w / 16777216) % 256) == w) by (bit_vector);
    assert(h % 256 + 256 * ((h / 256) % 256) + 65536 * ((h / 65536) % 256)
        + 16777216 * ((h / 16777216) % 256) == h) by (bit_vector);
}

} // verus!
