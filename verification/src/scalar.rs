//! Raw 32-bit scalar, vector and matrix values.
//!
//! The core copies these values between the configuration, the camera
//! snapshot and the uniform block without ever interpreting them: each scalar
//! is the bit pattern of the host's single-precision value. Equality of bit
//! patterns is therefore an exact statement of the copy contract.

use vstd::prelude::*;

verus! {

/// One 32-bit scalar, carried as its raw bit pattern.
#[derive(Clone, Copy, PartialEq, Eq, Structural, Debug)]
pub struct ScalarBits {
    pub bits: u32,
}

/// A two-component vector of raw scalars.
#[derive(Clone, Copy, PartialEq, Eq, Structural, Debug)]
pub struct Vec2Bits {
    pub x: ScalarBits,
    pub y: ScalarBits,
}

/// A three-component vector of raw scalars.
#[derive(Clone, Copy, PartialEq, Eq, Structural, Debug)]
pub struct Vec3Bits {
    pub x: ScalarBits,
    pub y: ScalarBits,
    pub z: ScalarBits,
}

/// A four-component vector of raw scalars.
#[derive(Clone, Copy, PartialEq, Eq, Structural, Debug)]
pub struct Vec4Bits {
    pub x: ScalarBits,
    pub y: ScalarBits,
    pub z: ScalarBits,
    pub w: ScalarBits,
}

/// A column-major 4x4 matrix of raw scalars.
#[derive(Clone, Copy, PartialEq, Eq, Structural, Debug)]
pub struct Mat4Bits {
    pub x_axis: Vec4Bits,
    pub y_axis: Vec4Bits,
    pub z_axis: Vec4Bits,
    pub w_axis: Vec4Bits,
}

/// Bit pattern of the scalar zero.
pub const ZERO_BITS: u32 = 0x0000_0000;

/// Bit pattern of the scalar one.
pub const ONE_BITS: u32 = 0x3F80_0000;

impl ScalarBits {
    /// The scalar with the given bit pattern.
    pub open spec fn spec_new(bits: u32) -> ScalarBits {
        ScalarBits { bits }
    }

    /// The scalar zero.
    pub open spec fn spec_zero() -> ScalarBits {
        ScalarBits { bits: ZERO_BITS }
    }

    /// The scalar one.
    pub open spec fn spec_one() -> ScalarBits {
        ScalarBits { bits: ONE_BITS }
    }

    /// Wraps a bit pattern.
    #[verifier::when_used_as_spec(spec_new)]
    pub fn new(bits: u32) -> (s: ScalarBits)
        ensures
            s == ScalarBits::spec_new(bits),
    {
        ScalarBits { bits }
    }

    /// The scalar zero.
    #[verifier::when_used_as_spec(spec_zero)]
    pub fn zero() -> (s: ScalarBits)
        ensures
            s == ScalarBits::spec_zero(),
    {
        ScalarBits { bits: ZERO_BITS }
    }
}

impl Vec2Bits {
    /// The vector with the given component bit patterns.
    pub open spec fn spec_new(x: u32, y: u32) -> Vec2Bits {
        Vec2Bits { x: ScalarBits { bits: x }, y: ScalarBits { bits: y } }
    }

    /// Builds a vector from component bit patterns.
    #[verifier::when_used_as_spec(spec_new)]
    pub fn new(x: u32, y: u32) -> (v: Vec2Bits)
        ensures
            v == Vec2Bits::spec_new(x, y),
    {
        Vec2Bits { x: ScalarBits::new(x), y: ScalarBits::new(y) }
    }
}

impl Vec3Bits {
    /// The vector with the given component bit patterns.
    pub open spec fn spec_new(x: u32, y: u32, z: u32) -> Vec3Bits {
        Vec3Bits {
            x: ScalarBits { bits: x },
            y: ScalarBits { bits: y },
            z: ScalarBits { bits: z },
        }
    }

    /// The zero vector.
    pub open spec fn spec_zero() -> Vec3Bits {
        Vec3Bits::spec_new(ZERO_BITS, ZERO_BITS, ZERO_BITS)
    }

    /// Builds a vector from component bit patterns.
    #[verifier::when_used_as_spec(spec_new)]
    pub fn new(x: u32, y: u32, z: u32) -> (v: Vec3Bits)
        ensures
            v == Vec3Bits::spec_new(x, y, z),
    {
        Vec3Bits { x: ScalarBits::new(x), y: ScalarBits::new(y), z: ScalarBits::new(z) }
    }

    /// The zero vector.
    #[verifier::when_used_as_spec(spec_zero)]
    pub fn zero() -> (v: Vec3Bits)
        ensures
            v == Vec3Bits::spec_zero(),
    {
        Vec3Bits::new(ZERO_BITS, ZERO_BITS, ZERO_BITS)
    }
}

impl Vec4Bits {
    /// The vector with the given component bit patterns.
    pub open spec fn spec_new(x: u32, y: u32, z: u32, w: u32) -> Vec4Bits {
        Vec4Bits {
            x: ScalarBits { bits: x },
            y: ScalarBits { bits: y },
            z: ScalarBits { bits: z },
            w: ScalarBits { bits: w },
        }
    }

    /// The zero vector.
    pub open spec fn spec_zero() -> Vec4Bits {
        Vec4Bits::spec_new(ZERO_BITS, ZERO_BITS, ZERO_BITS, ZERO_BITS)
    }

    /// Builds a vector from component bit patterns.
    #[verifier::when_used_as_spec(spec_new)]
    pub fn new(x: u32, y: u32, z: u32, w: u32) -> (v: Vec4Bits)
        ensures
            v == Vec4Bits::spec_new(x, y, z, w),
    {
        Vec4Bits {
            x: ScalarBits::new(x),
            y: ScalarBits::new(y),
            z: ScalarBits::new(z),
            w: ScalarBits::new(w),
        }
    }

    /// The zero vector.
    #[verifier::when_used_as_spec(spec_zero)]
    pub fn zero() -> (v: Vec4Bits)
        ensures
            v == Vec4Bits::spec_zero(),
    {
        Vec4Bits::new(ZERO_BITS, ZERO_BITS, ZERO_BITS, ZERO_BITS)
    }
}

impl Mat4Bits {
    /// The identity matrix: ones on the diagonal, zeros elsewhere.
    pub open spec fn spec_identity() -> Mat4Bits {
        Mat4Bits {
            x_axis: Vec4Bits::spec_new(ONE_BITS, ZERO_BITS, ZERO_BITS, ZERO_BITS),
            y_axis: Vec4Bits::spec_new(ZERO_BITS, ONE_BITS, ZERO_BITS, ZERO_BITS),
            z_axis: Vec4Bits::spec_new(ZERO_BITS, ZERO_BITS, ONE_BITS, ZERO_BITS),
            w_axis: Vec4Bits::spec_new(ZERO_BITS, ZERO_BITS, ZERO_BITS, ONE_BITS),
        }
    }

    /// The identity matrix.
    #[verifier::when_used_as_spec(spec_identity)]
    pub fn identity() -> (m: Mat4Bits)
        ensures
            m == Mat4Bits::spec_identity(),
    {
        Mat4Bits {
            x_axis: Vec4Bits::new(ONE_BITS, ZERO_BITS, ZERO_BITS, ZERO_BITS),
            y_axis: Vec4Bits::new(ZERO_BITS, ONE_BITS, ZERO_BITS, ZERO_BITS),
            z_axis: Vec4Bits::new(ZERO_BITS, ZERO_BITS, ONE_BITS, ZERO_BITS),
            w_axis: Vec4Bits::new(ZERO_BITS, ZERO_BITS, ZERO_BITS, ONE_BITS),
        }
    }
}

} // verus!
