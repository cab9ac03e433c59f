//! Single-precision numbers carried by their bit patterns.
//!
//! The renderer moves matrices and vectors from the scene into uniform
//! blocks and never computes with them, so a number is held as the 32 bits
//! of its IEEE 754 encoding.

use vstd::prelude::*;

verus! {

/// Bit pattern of `0.0`.
pub const ZERO_BITS: u32 = 0;

/// Bit pattern of `1.0`.
pub const ONE_BITS: u32 = 0x3f80_0000;

/// Bit pattern of `0.75`.
pub const THREE_QUARTERS_BITS: u32 = 0x3f40_0000;

/// Bit pattern of `0.5`.
pub const HALF_BITS: u32 = 0x3f00_0000;

/// A vector of three numbers.
#[derive(Clone, Copy, Debug, PartialEq, Eq, Structural)]
pub struct Vec3 {
    pub x: u32,
    pub y: u32,
    pub z: u32,
}

impl Vec3 {
    pub fn new(x: u32, y: u32, z: u32) -> (v: Vec3)
        ensures
            v == (Vec3 { x, y, z }),
    {
        Vec3 { x, y, z }
    }
}

/// A 4x4 matrix in column-major order: `cells[4 * column + row]`.
#[derive(Clone, Copy, Debug, PartialEq, Eq)]
pub struct Mat4 {
    pub cells: [u32; 16],
}

impl Mat4 {
    /// The cells of the identity matrix.
    pub open spec fn spec_identity_cells() -> Seq<u32> {
        Seq::new(16, |i: int| if i % 5 == 0 { ONE_BITS } else { ZERO_BITS })
    }

    /// The identity matrix.
    pub fn identity() -> (m: Mat4)
        ensures
            m.cells@ == Self::spec_identity_cells(),
    {
        let m = Mat4 {
            cells: [
                ONE_BITS, ZERO_BITS, ZERO_BITS, ZERO_BITS,
                ZERO_BITS, ONE_BITS, ZERO_BITS, ZERO_BITS,
                ZERO_BITS, ZERO_BITS, ONE_BITS, ZERO_BITS,
                ZERO_BITS, ZERO_BITS, ZERO_BITS, ONE_BITS,
            ],
        };
        assert(m.cells@ =~= Self::spec_identity_cells());
        m
    }

    /// The matrix with the given cells.
    pub fn from_cells(cells: [u32; 16]) -> (m: Mat4)
        ensures
            m.cells == cells,
    {
        Mat4 { cells }
    }
}

} // verus!
