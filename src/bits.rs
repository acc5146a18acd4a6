//! Plain-integer carriers for the single-precision vectors and matrices that
//! the camera hands to the GPU. Each `u32` is the IEEE-754 bit pattern of one
//! `f32` component; the library moves these patterns around exactly and never
//! does arithmetic on them.
use vstd::prelude::*;

verus! {

/// Bit patterns of a 3-component single-precision vector.
#[derive(Clone, Copy, Debug, PartialEq, Eq, Structural)]
pub struct Vec3Bits {
    pub x: u32,
    pub y: u32,
    pub z: u32,
}

/// Bit patterns of a 4-component single-precision vector.
#[derive(Clone, Copy, Debug, PartialEq, Eq, Structural)]
pub struct Vec4Bits {
    pub x: u32,
    pub y: u32,
    pub z: u32,
    pub w: u32,
}

/// A 3-component signed integer vector (a world cell).
#[derive(Clone, Copy, Debug, PartialEq, Eq, Structural)]
pub struct IVec3 {
    pub x: i32,
    pub y: i32,
    pub z: i32,
}

/// Bit patterns of a 3x3 single-precision matrix, stored by columns.
#[derive(Clone, Copy, Debug, PartialEq, Eq, Structural)]
pub struct Mat3Bits {
    pub x_axis: Vec3Bits,
    pub y_axis: Vec3Bits,
    pub z_axis: Vec3Bits,
}

/// Bit patterns of a 4x4 single-precision matrix, stored by columns.
#[derive(Clone, Copy, Debug, PartialEq, Eq, Structural)]
pub struct Mat4Bits {
    pub x_axis: Vec4Bits,
    pub y_axis: Vec4Bits,
    pub z_axis: Vec4Bits,
    pub w_axis: Vec4Bits,
}

impl Vec3Bits {
    /// The components in memory order.
    pub open spec fn words(self) -> Seq<u32> {
        seq![self.x, self.y, self.z]
    }

    /// Component `i` (0, 1 or 2).
    pub open spec fn at(self, i: int) -> u32 {
        if i == 0 {
            self.x
        } else if i == 1 {
            self.y
        } else {
            self.z
        }
    }
}

impl Vec4Bits {
    /// The components in memory order.
    pub open spec fn words(self) -> Seq<u32> {
        seq![self.x, self.y, self.z, self.w]
    }
}

impl IVec3 {
    /// The components in memory order, each as its two's-complement word.
    pub open spec fn words(self) -> Seq<u32> {
        seq![self.x as u32, self.y as u32, self.z as u32]
    }
}

impl Mat3Bits {
    /// Column `c` (0, 1 or 2).
    pub open spec fn col(self, c: int) -> Vec3Bits {
        if c == 0 {
            self.x_axis
        } else if c == 1 {
            self.y_axis
        } else {
            self.z_axis
        }
    }

    /// The entry in column `c`, row `r`.
    pub open spec fn entry(self, c: int, r: int) -> u32 {
        self.col(c).at(r)
    }

    pub open spec fn transpose_spec(self) -> Mat3Bits {
        Mat3Bits {
            x_axis: Vec3Bits { x: self.x_axis.x, y: self.y_axis.x, z: self.z_axis.x },
            y_axis: Vec3Bits { x: self.x_axis.y, y: self.y_axis.y, z: self.z_axis.y },
            z_axis: Vec3Bits { x: self.x_axis.z, y: self.y_axis.z, z: self.z_axis.z },
        }
    }

    /// The transpose: rows become columns, every bit pattern kept as it is.
    /// For a rotation this is its exact inverse.
    pub fn transpose(&self) -> (r: Mat3Bits)
        ensures
            r == self.transpose_spec(),
            forall|c: int, row: int|
                0 <= c < 3 && 0 <= row < 3 ==> #[trigger] r.entry(c, row) == self.entry(row, c),
    {
        Mat3Bits {
            x_axis: Vec3Bits { x: self.x_axis.x, y: self.y_axis.x, z: self.z_axis.x },
            y_axis: Vec3Bits { x: self.x_axis.y, y: self.y_axis.y, z: self.z_axis.y },
            z_axis: Vec3Bits { x: self.x_axis.z, y: self.y_axis.z, z: self.z_axis.z },
        }
    }
}

/// Transposing twice gives back the matrix.
pub proof fn lemma_transpose_involution(m: Mat3Bits)
    ensures
        m.transpose_spec().transpose_spec() == m,
{
}

} // verus!
