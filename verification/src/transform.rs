//! Bit-level support for the coordinate transform that produces the
//! positions a mesh is built from.
//!
//! The matrix arithmetic itself is floating point and runs outside this
//! crate; here live the exact pieces of the transform: the fixed clip-space
//! conversion matrix, reproduced bit for bit, and the test that a
//! perspective-divide weight is zero, decided on the bit pattern.

use vstd::prelude::*;

verus! {

/// A 4x4 matrix as the bit patterns of sixteen single-precision floats,
/// named by column then row: `cNrM` is row `M` of column `N`.
#[derive(Clone, Copy, PartialEq, Eq, Structural, Debug)]
pub struct Mat4Bits {
    pub c0r0: u32,
    pub c0r1: u32,
    pub c0r2: u32,
    pub c0r3: u32,
    pub c1r0: u32,
    pub c1r1: u32,
    pub c1r2: u32,
    pub c1r3: u32,
    pub c2r0: u32,
    pub c2r1: u32,
    pub c2r2: u32,
    pub c2r3: u32,
    pub c3r0: u32,
    pub c3r1: u32,
    pub c3r2: u32,
    pub c3r3: u32,
}

/// Bit pattern of single-precision 1.0.
pub open spec fn one_bits() -> u32 {
    0x3F800000
}

/// Bit pattern of single-precision 0.5.
pub open spec fn half_bits() -> u32 {
    0x3F000000
}

/// The fixed clip-space conversion matrix: identity on x, y and w, and
/// `z' = 0.5 z + 0.5`, converting a z range of [-1, 1] into [0, 1].
/// Column-major, it is diag(1, 1, 0.5, 1) with 0.5 in row 2 of column 3.
pub open spec fn spec_clip_matrix() -> Mat4Bits {
    Mat4Bits {
        c0r0: one_bits(),
        c0r1: 0,
        c0r2: 0,
        c0r3: 0,
        c1r0: 0,
        c1r1: one_bits(),
        c1r2: 0,
        c1r3: 0,
        c2r0: 0,
        c2r1: 0,
        c2r2: half_bits(),
        c2r3: 0,
        c3r0: 0,
        c3r1: 0,
        c3r2: half_bits(),
        c3r3: one_bits(),
    }
}

/// The clip-space conversion matrix, bit for bit.
pub fn clip_conversion_matrix() -> (m: Mat4Bits)
    ensures
        m == spec_clip_matrix(),
{
    Mat4Bits {
        c0r0: 0x3F800000,
        c0r1: 0,
        c0r2: 0,
        c0r3: 0,
        c1r0: 0,
        c1r1: 0x3F800000,
        c1r2: 0,
        c1r3: 0,
        c2r0: 0,
        c2r1: 0,
        c2r2: 0x3F000000,
        c2r3: 0,
        c3r0: 0,
        c3r1: 0,
        c3r2: 0x3F000000,
        c3r3: 0x3F800000,
    }
}

/// Whether a single-precision bit pattern denotes zero (of either sign):
/// exactly the two patterns whose exponent and mantissa bits are all clear.
pub open spec fn spec_weight_is_zero(bits: u32) -> bool {
    bits == 0u32 || bits == 0x80000000u32
}

/// Decides whether a perspective-divide weight is zero, so that a divide by
/// it must be rejected as degenerate.
pub fn weight_bits_is_zero(bits: u32) -> (r: bool)
    ensures
        r == spec_weight_is_zero(bits),
{
    bits == 0 || bits == 0x80000000
}

} // verus!
