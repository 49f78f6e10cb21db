//! Shared value types: player identity and the bit-pattern scalars and
//! vectors that kinematic state is made of, together with the tolerant
//! comparison used to decide whether two states agree.

use vstd::prelude::*;

verus! {

/// A player identity.
#[derive(Clone, Copy, Debug, PartialEq, Eq, Structural, Hash)]
pub struct Id(pub u32);

/// How far apart, in units in the last place, two scalar components may lie
/// and still count as equal. Repeated transforms accumulate rounding drift;
/// anything within this distance is treated as agreement, anything beyond it
/// as true divergence.
pub const MAX_ULPS: u32 = 1000;

/// One kinematic scalar, carried as the raw bit pattern of the 32-bit
/// floating-point value the surrounding simulation computes with. The library
/// stores, compares and replays these values; it never does arithmetic on
/// them.
#[derive(Clone, Copy, Debug, PartialEq, Eq, Structural)]
pub struct Scalar(pub u32);

/// The order-preserving integer image of a scalar's bit pattern: bit patterns
/// with the sign bit set (negative values) are mapped, largest magnitude
/// first, below the non-negative ones. Adjacent representable values are
/// adjacent integers, so the distance between two images is the number of
/// units in the last place between the values.
pub open spec fn scalar_rank(bits: u32) -> int {
    if bits >= 0x8000_0000 {
        0xFFFF_FFFF - bits
    } else {
        bits + 0x8000_0000
    }
}

/// Two scalars agree when their rank images differ by at most `MAX_ULPS`.
pub open spec fn ulps_close(a: u32, b: u32) -> bool {
    -(MAX_ULPS as int) <= scalar_rank(a) - scalar_rank(b) <= MAX_ULPS as int
}

impl Scalar {
    /// What this scalar's agreement with `other` means.
    pub open spec fn close_to(self, other: Scalar) -> bool {
        ulps_close(self.0, other.0)
    }

    /// Tolerant equality: at most `MAX_ULPS` units in the last place apart.
    pub fn approx_eq(self, other: Scalar) -> (r: bool)
        ensures
            r == self.close_to(other),
    {
        let ra: u32 = if self.0 >= 0x8000_0000 {
            0xFFFF_FFFF - self.0
        } else {
            self.0 + 0x8000_0000
        };
        let rb: u32 = if other.0 >= 0x8000_0000 {
            0xFFFF_FFFF - other.0
        } else {
            other.0 + 0x8000_0000
        };
        if ra >= rb {
            ra - rb <= MAX_ULPS
        } else {
            rb - ra <= MAX_ULPS
        }
    }
}

/// A two-component vector of bit-pattern scalars (mouse deltas).
#[derive(Clone, Copy, Debug, PartialEq, Eq, Structural)]
pub struct Vec2 {
    pub x: Scalar,
    pub y: Scalar,
}

/// A three-component vector of bit-pattern scalars (positions, velocities).
#[derive(Clone, Copy, Debug, PartialEq, Eq, Structural)]
pub struct Vec3 {
    pub x: Scalar,
    pub y: Scalar,
    pub z: Scalar,
}

/// Componentwise agreement of two vectors.
pub open spec fn vec3_close(a: Vec3, b: Vec3) -> bool {
    &&& a.x.close_to(b.x)
    &&& a.y.close_to(b.y)
    &&& a.z.close_to(b.z)
}

impl Vec3 {
    pub fn new(x: Scalar, y: Scalar, z: Scalar) -> (r: Vec3)
        ensures
            r == (Vec3 { x, y, z }),
    {
        Vec3 { x, y, z }
    }

    /// Tolerant equality, component by component.
    pub fn approx_eq(&self, other: &Vec3) -> (r: bool)
        ensures
            r == vec3_close(*self, *other),
    {
        self.x.approx_eq(other.x) && self.y.approx_eq(other.y) && self.z.approx_eq(other.z)
    }
}

} // verus!
