//! A 4x4 homogeneous transformation matrix over IEEE 754 binary32 bit
//! patterns.
//!
//! Every scalar is carried as the `u32` bit pattern of a binary32 value, so
//! the matrix layout, the rotation sign conventions and the transposed
//! uniform layout are stated and checked exactly, entry by entry.  The
//! numeric matrix product itself is binary32 arithmetic and is performed by
//! the rendering side, which feeds the result back in through
//! [`Transformation::from_rows`].

use vstd::prelude::*;

verus! {

/// Bit pattern of positive zero in IEEE 754 binary32.
pub const ZERO_BITS: u32 = 0x0000_0000;

/// Bit pattern of one in IEEE 754 binary32.
pub const ONE_BITS: u32 = 0x3F80_0000;

/// The sign bit of an IEEE 754 binary32 value.
pub const SIGN_MASK: u32 = 0x8000_0000;

/// Negation of an IEEE 754 binary32 value: the sign bit inverted, every
/// other bit kept.
pub open spec fn flip_sign_spec(b: u32) -> u32 {
    b ^ SIGN_MASK
}

/// Inverts the sign bit of a binary32 bit pattern, which negates the value
/// it encodes.
pub fn flip_sign(b: u32) -> (r: u32)
    ensures
        r == flip_sign_spec(b),
{
    b ^ SIGN_MASK
}

/// The entry of the 4x4 identity matrix at row `r`, column `c`: one on the
/// diagonal, zero elsewhere.
pub open spec fn identity_entry(r: int, c: int) -> u32 {
    if r == c {
        ONE_BITS
    } else {
        ZERO_BITS
    }
}

/// The entry at row `r`, column `c` of the elementary translation matrix by
/// `(x, y, z)`: the identity with the offsets in the last column.
pub open spec fn translation_entry(x: u32, y: u32, z: u32, r: int, c: int) -> u32 {
    if r == 0 && c == 3 {
        x
    } else if r == 1 && c == 3 {
        y
    } else if r == 2 && c == 3 {
        z
    } else {
        identity_entry(r, c)
    }
}

/// The entry at row `r`, column `c` of the elementary scaling matrix by
/// `(x, y, z)`: the factors on the diagonal, one in the homogeneous slot.
pub open spec fn scaling_entry(x: u32, y: u32, z: u32, r: int, c: int) -> u32 {
    if r == 0 && c == 0 {
        x
    } else if r == 1 && c == 1 {
        y
    } else if r == 2 && c == 2 {
        z
    } else {
        identity_entry(r, c)
    }
}

/// The entry at row `r`, column `c` of the elementary rotation matrix about
/// the X axis, given the cosine and sine of the angle: the right-handed
/// convention that carries the Y axis toward Z for a positive angle.
pub open spec fn rotation_x_entry(cos_b: u32, sin_b: u32, r: int, c: int) -> u32 {
    if r == 1 && c == 1 {
        cos_b
    } else if r == 1 && c == 2 {
        flip_sign_spec(sin_b)
    } else if r == 2 && c == 1 {
        sin_b
    } else if r == 2 && c == 2 {
        cos_b
    } else {
        identity_entry(r, c)
    }
}

/// The entry at row `r`, column `c` of the elementary rotation matrix about
/// the Y axis, given the cosine and sine of the angle: the right-handed
/// convention that carries the Z axis toward X for a positive angle.
pub open spec fn rotation_y_entry(cos_b: u32, sin_b: u32, r: int, c: int) -> u32 {
    if r == 0 && c == 0 {
        cos_b
    } else if r == 0 && c == 2 {
        sin_b
    } else if r == 2 && c == 0 {
        flip_sign_spec(sin_b)
    } else if r == 2 && c == 2 {
        cos_b
    } else {
        identity_entry(r, c)
    }
}

/// The entry at row `r`, column `c` of the elementary rotation matrix about
/// the Z axis, given the cosine and sine of the angle: the right-handed
/// convention that carries the X axis toward Y for a positive angle.
pub open spec fn rotation_z_entry(cos_b: u32, sin_b: u32, r: int, c: int) -> u32 {
    if r == 0 && c == 0 {
        cos_b
    } else if r == 0 && c == 1 {
        flip_sign_spec(sin_b)
    } else if r == 1 && c == 0 {
        sin_b
    } else if r == 1 && c == 1 {
        cos_b
    } else {
        identity_entry(r, c)
    }
}

/// A 4x4 matrix in homogeneous coordinates, stored row-major as binary32
/// bit patterns: entry `m[r][c]` is row `r`, column `c` of the mathematical
/// matrix.
pub struct Transformation {
    m: [[u32; 4]; 4],
}

impl Transformation {
    /// Row `r`, column `c` of the stored matrix.
    pub closed spec fn entry(self, r: int, c: int) -> u32
        recommends
            0 <= r < 4,
            0 <= c < 4,
    {
        self.m[r][c]
    }

    /// The matrix is the identity, entry for entry.
    pub open spec fn is_identity(self) -> bool {
        forall|r: int, c: int|
            0 <= r < 4 && 0 <= c < 4 ==> #[trigger] self.entry(r, c) == identity_entry(r, c)
    }

    /// The last row is `[0, 0, 0, 1]`: the matrix is an affine transform in
    /// homogeneous coordinates.
    pub open spec fn is_affine(self) -> bool {
        &&& self.entry(3, 0) == ZERO_BITS
        &&& self.entry(3, 1) == ZERO_BITS
        &&& self.entry(3, 2) == ZERO_BITS
        &&& self.entry(3, 3) == ONE_BITS
    }

    /// The identity transformation, the starting point of every chain of
    /// operations.
    pub fn new() -> (t: Transformation)
        ensures
            t.is_identity(),
            t.is_affine(),
    {
        let t = Transformation {
            m: [
                [ONE_BITS, ZERO_BITS, ZERO_BITS, ZERO_BITS],
                [ZERO_BITS, ONE_BITS, ZERO_BITS, ZERO_BITS],
                [ZERO_BITS, ZERO_BITS, ONE_BITS, ZERO_BITS],
                [ZERO_BITS, ZERO_BITS, ZERO_BITS, ONE_BITS],
            ],
        };
        t
    }

    /// The elementary translation by `(x, y, z)`, each offset a binary32
    /// bit pattern.  Right-multiplying it onto a matrix moves the geometry
    /// by the offsets, in the frame the earlier operations set up.
    pub fn translation(x: u32, y: u32, z: u32) -> (t: Transformation)
        ensures
            forall|r: int, c: int|
                0 <= r < 4 && 0 <= c < 4 ==> #[trigger] t.entry(r, c) == translation_entry(
                    x,
                    y,
                    z,
                    r,
                    c,
                ),
            t.is_affine(),
    {
        Transformation {
            m: [
                [ONE_BITS, ZERO_BITS, ZERO_BITS, x],
                [ZERO_BITS, ONE_BITS, ZERO_BITS, y],
                [ZERO_BITS, ZERO_BITS, ONE_BITS, z],
                [ZERO_BITS, ZERO_BITS, ZERO_BITS, ONE_BITS],
            ],
        }
    }

    /// The elementary scaling by `(x, y, z)`, each factor a binary32 bit
    /// pattern.  A zero factor is accepted and yields a singular matrix.
    pub fn scaling(x: u32, y: u32, z: u32) -> (t: Transformation)
        ensures
            forall|r: int, c: int|
                0 <= r < 4 && 0 <= c < 4 ==> #[trigger] t.entry(r, c) == scaling_entry(
                    x,
                    y,
                    z,
                    r,
                    c,
                ),
            t.is_affine(),
    {
        Transformation {
            m: [
                [x, ZERO_BITS, ZERO_BITS, ZERO_BITS],
                [ZERO_BITS, y, ZERO_BITS, ZERO_BITS],
                [ZERO_BITS, ZERO_BITS, z, ZERO_BITS],
                [ZERO_BITS, ZERO_BITS, ZERO_BITS, ONE_BITS],
            ],
        }
    }

    /// The elementary rotation about the X axis, from the cosine and sine
    /// of the angle as binary32 bit patterns: for a positive angle the Y
    /// axis turns toward Z.
    pub fn rotation_x(cos_b: u32, sin_b: u32) -> (t: Transformation)
        ensures
            forall|r: int, c: int|
                0 <= r < 4 && 0 <= c < 4 ==> #[trigger] t.entry(r, c) == rotation_x_entry(
                    cos_b,
                    sin_b,
                    r,
                    c,
                ),
            t.is_affine(),
    {
        let neg_sin = flip_sign(sin_b);
        Transformation {
            m: [
                [ONE_BITS, ZERO_BITS, ZERO_BITS, ZERO_BITS],
                [ZERO_BITS, cos_b, neg_sin, ZERO_BITS],
                [ZERO_BITS, sin_b, cos_b, ZERO_BITS],
                [ZERO_BITS, ZERO_BITS, ZERO_BITS, ONE_BITS],
            ],
        }
    }

    /// The elementary rotation about the Y axis, from the cosine and sine
    /// of the angle as binary32 bit patterns: for a positive angle the Z
    /// axis turns toward X.
    pub fn rotation_y(cos_b: u32, sin_b: u32) -> (t: Transformation)
        ensures
            forall|r: int, c: int|
                0 <= r < 4 && 0 <= c < 4 ==> #[trigger] t.entry(r, c) == rotation_y_entry(
                    cos_b,
                    sin_b,
                    r,
                    c,
                ),
            t.is_affine(),
    {
        let neg_sin = flip_sign(sin_b);
        Transformation {
            m: [
                [cos_b, ZERO_BITS, sin_b, ZERO_BITS],
                [ZERO_BITS, ONE_BITS, ZERO_BITS, ZERO_BITS],
                [neg_sin, ZERO_BITS, cos_b, ZERO_BITS],
                [ZERO_BITS, ZERO_BITS, ZERO_BITS, ONE_BITS],
            ],
        }
    }

    /// The elementary rotation about the Z axis, from the cosine and sine
    /// of the angle as binary32 bit patterns: for a positive angle the X
    /// axis turns toward Y.
    pub fn rotation_z(cos_b: u32, sin_b: u32) -> (t: Transformation)
        ensures
            forall|r: int, c: int|
                0 <= r < 4 && 0 <= c < 4 ==> #[trigger] t.entry(r, c) == rotation_z_entry(
                    cos_b,
                    sin_b,
                    r,
                    c,
                ),
            t.is_affine(),
    {
        let neg_sin = flip_sign(sin_b);
        Transformation {
            m: [
                [cos_b, neg_sin, ZERO_BITS, ZERO_BITS],
                [sin_b, cos_b, ZERO_BITS, ZERO_BITS],
                [ZERO_BITS, ZERO_BITS, ONE_BITS, ZERO_BITS],
                [ZERO_BITS, ZERO_BITS, ZERO_BITS, ONE_BITS],
            ],
        }
    }

    /// Wraps a row-major grid of binary32 bit patterns as a transformation,
    /// entry for entry.  This is how a numerically computed matrix product
    /// re-enters the builder.
    pub fn from_rows(m: [[u32; 4]; 4]) -> (t: Transformation)
        ensures
            forall|r: int, c: int|
                0 <= r < 4 && 0 <= c < 4 ==> #[trigger] t.entry(r, c) == m[r][c],
    {
        Transformation { m }
    }

    /// The stored matrix, row-major: `r[i][j]` is row `i`, column `j`.
    pub fn rows(&self) -> (r: [[u32; 4]; 4])
        ensures
            forall|i: int, j: int|
                #![trigger r[i][j]]
                #![trigger self.entry(i, j)]
                0 <= i < 4 && 0 <= j < 4 ==> r[i][j] == self.entry(i, j),
    {
        self.m
    }

    /// The transpose of the stored matrix, as the fixed-layout grid a shader
    /// uniform consumes: `r[i][j]` equals the stored entry at row `j`,
    /// column `i`, for every `i` and `j`.  The internal matrix is row-major
    /// while the uniform layout is column-major, so the transpose is what
    /// makes `uniform * vector` apply the intended transform.
    pub fn get(&self) -> (r: [[u32; 4]; 4])
        ensures
            forall|i: int, j: int|
                #![trigger r[i][j]]
                #![trigger self.entry(j, i)]
                0 <= i < 4 && 0 <= j < 4 ==> r[i][j] == self.entry(j, i),
    {
        [
            [self.m[0][0], self.m[1][0], self.m[2][0], self.m[3][0]],
            [self.m[0][1], self.m[1][1], self.m[2][1], self.m[3][1]],
            [self.m[0][2], self.m[1][2], self.m[2][2], self.m[3][2]],
            [self.m[0][3], self.m[1][3], self.m[2][3], self.m[3][3]],
        ]
    }
}

} // verus!


