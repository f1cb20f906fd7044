//! Vectors and matrices whose components are IEEE-754 bit patterns.
use vstd::prelude::*;

verus! {

/// A pair of single-precision values, as bit patterns.
#[derive(Debug, Clone, Copy, PartialEq, Eq, Structural)]
pub struct Vec2 {
    pub x: u32,
    pub y: u32,
}

/// A triple of single-precision values, as bit patterns.
#[derive(Debug, Clone, Copy, PartialEq, Eq, Structural)]
pub struct Vec3 {
    pub x: u32,
    pub y: u32,
    pub z: u32,
}

/// A quadruple of single-precision values, as bit patterns.
#[derive(Debug, Clone, Copy, PartialEq, Eq, Structural)]
pub struct Vec4 {
    pub x: u32,
    pub y: u32,
    pub z: u32,
    pub w: u32,
}

impl Vec2 {
    pub fn new(x: u32, y: u32) -> (r: Self)
        ensures
            r == (Vec2 { x, y }),
    {
        Vec2 { x, y }
    }
}

impl Vec3 {
    pub fn new(x: u32, y: u32, z: u32) -> (r: Self)
        ensures
            r == (Vec3 { x, y, z }),
    {
        Vec3 { x, y, z }
    }
}

impl Vec4 {
    pub fn new(x: u32, y: u32, z: u32, w: u32) -> (r: Self)
        ensures
            r == (Vec4 { x, y, z, w }),
    {
        Vec4 { x, y, z, w }
    }
}

/// The bits of the double `1`.
pub const ONE_BITS: u64 = 0x3FF0_0000_0000_0000;

/// The bits of the double `0`.
pub const ZERO_BITS: u64 = 0;

/// A 4x4 matrix of double-precision values (as bit patterns), row-major.
#[derive(Debug, Clone, Copy)]
pub struct Mat4 {
    pub row0: [u64; 4],
    pub row1: [u64; 4],
    pub row2: [u64; 4],
    pub row3: [u64; 4],
}

/// The entry of the identity matrix at row `i`, column `j`.
pub open spec fn identity_entry(i: int, j: int) -> u64 {
    if i == j {
        ONE_BITS
    } else {
        ZERO_BITS
    }
}

impl Mat4 {
    /// Row `i`.
    pub open spec fn row(self, i: int) -> Seq<u64> {
        if i == 0 {
            self.row0@
        } else if i == 1 {
            self.row1@
        } else if i == 2 {
            self.row2@
        } else {
            self.row3@
        }
    }

    /// The entry at row `i`, column `j`.
    pub open spec fn entry(self, i: int, j: int) -> u64 {
        self.row(i)[j]
    }

    pub fn new(row0: [u64; 4], row1: [u64; 4], row2: [u64; 4], row3: [u64; 4]) -> (r: Self)
        ensures
            r.row0@ == row0@,
            r.row1@ == row1@,
            r.row2@ == row2@,
            r.row3@ == row3@,
    {
        Mat4 { row0, row1, row2, row3 }
    }

    pub fn identity() -> (r: Self)
        ensures
            forall|i: int, j: int| 0 <= i < 4 && 0 <= j < 4 ==> #[trigger] r.entry(i, j) == identity_entry(i, j),
    {
        Mat4 {
            row0: [ONE_BITS, ZERO_BITS, ZERO_BITS, ZERO_BITS],
            row1: [ZERO_BITS, ONE_BITS, ZERO_BITS, ZERO_BITS],
            row2: [ZERO_BITS, ZERO_BITS, ONE_BITS, ZERO_BITS],
            row3: [ZERO_BITS, ZERO_BITS, ZERO_BITS, ONE_BITS],
        }
    }

    /// The matrix whose sixteen entries `m` lists column by column: row `i`
    /// is `(m[i], m[4 + i], m[8 + i], m[12 + i])`.
    pub fn from_column_major(m: &Vec<u64>) -> (r: Self)
        requires
            m@.len() == 16,
        ensures
            forall|i: int, j: int| 0 <= i < 4 && 0 <= j < 4 ==> #[trigger] r.entry(i, j) == m@[4 * j + i],
    {
        Mat4 {
            row0: [m[0], m[4], m[8], m[12]],
            row1: [m[1], m[5], m[9], m[13]],
            row2: [m[2], m[6], m[10], m[14]],
            row3: [m[3], m[7], m[11], m[15]],
        }
    }
}

} // verus!
