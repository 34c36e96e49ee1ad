//! Local-space transforms.
//!
//! A `Transform` places an object relative to its parent: a position,
//! a uniform scale and an orientation. Each scalar is carried as the
//! raw bit pattern of an IEEE 754 single-precision number, so that the
//! library compares and stores them as plain words; the caller encodes
//! and decodes the numbers at the boundary. Equality is structural,
//! and a transform is the identity exactly when it equals the default
//! value.

use vstd::prelude::*;

verus! {

/// The bit pattern of the single-precision number zero.
pub const SCALAR_ZERO: u32 = 0x0000_0000;

/// The bit pattern of the single-precision number one.
pub const SCALAR_ONE: u32 = 0x3F80_0000;

/// A three-component vector; each component is the bit pattern of a
/// single-precision number.
#[derive(Clone, Copy, Debug, PartialEq, Eq, Structural)]
pub struct Vec3 {
    pub x: u32,
    pub y: u32,
    pub z: u32,
}

/// A quaternion with scalar part `s`; each component is the bit
/// pattern of a single-precision number.
#[derive(Clone, Copy, Debug, PartialEq, Eq, Structural)]
pub struct Quat {
    pub s: u32,
    pub x: u32,
    pub y: u32,
    pub z: u32,
}

/// A local-space placement: position, uniform scale and orientation.
#[derive(Clone, Copy, Debug, PartialEq, Eq, Structural)]
pub struct Transform {
    pub position: Vec3,
    pub scale: u32,
    pub orientation: Quat,
}

/// The identity transform: position zero, scale one, orientation the
/// identity quaternion.
pub open spec fn identity_transform() -> Transform {
    Transform {
        position: Vec3 { x: SCALAR_ZERO, y: SCALAR_ZERO, z: SCALAR_ZERO },
        scale: SCALAR_ONE,
        orientation: Quat { s: SCALAR_ONE, x: SCALAR_ZERO, y: SCALAR_ZERO, z: SCALAR_ZERO },
    }
}

impl Vec3 {
    /// The zero vector.
    pub fn zero() -> (v: Vec3)
        ensures
            v == (Vec3 { x: SCALAR_ZERO, y: SCALAR_ZERO, z: SCALAR_ZERO }),
    {
        Vec3 { x: SCALAR_ZERO, y: SCALAR_ZERO, z: SCALAR_ZERO }
    }

    /// A vector from its three components.
    pub fn new(x: u32, y: u32, z: u32) -> (v: Vec3)
        ensures
            v == (Vec3 { x, y, z }),
    {
        Vec3 { x, y, z }
    }
}

impl Quat {
    /// The identity quaternion: scalar part one, vector part zero.
    pub fn identity() -> (q: Quat)
        ensures
            q == (Quat { s: SCALAR_ONE, x: SCALAR_ZERO, y: SCALAR_ZERO, z: SCALAR_ZERO }),
    {
        Quat { s: SCALAR_ONE, x: SCALAR_ZERO, y: SCALAR_ZERO, z: SCALAR_ZERO }
    }
}

impl Transform {
    /// Whether this transform is the identity value. Committing an
    /// identity transform to a scene allocates no node.
    pub fn is_identity(&self) -> (r: bool)
        ensures
            r == (*self == identity_transform()),
    {
        self.position.x == SCALAR_ZERO && self.position.y == SCALAR_ZERO
            && self.position.z == SCALAR_ZERO && self.scale == SCALAR_ONE
            && self.orientation.s == SCALAR_ONE && self.orientation.x == SCALAR_ZERO
            && self.orientation.y == SCALAR_ZERO && self.orientation.z == SCALAR_ZERO
    }
}

impl Default for Transform {
    /// The default transform is the identity: position zero, scale
    /// one, orientation the identity quaternion.
    fn default() -> (t: Transform)
        ensures
            t == identity_transform(),
    {
        Transform {
            position: Vec3 { x: SCALAR_ZERO, y: SCALAR_ZERO, z: SCALAR_ZERO },
            scale: SCALAR_ONE,
            orientation: Quat { s: SCALAR_ONE, x: SCALAR_ZERO, y: SCALAR_ZERO, z: SCALAR_ZERO },
        }
    }
}

/// Law: a freshly constructed transform equals the value built by
/// explicit construction with position zero, scale one and the
/// identity orientation.
pub proof fn lemma_default_is_explicit_identity(t: Transform)
    requires
        t == identity_transform(),
    ensures
        t.position == (Vec3 { x: SCALAR_ZERO, y: SCALAR_ZERO, z: SCALAR_ZERO }),
        t.scale == SCALAR_ONE,
        t.orientation == (Quat { s: SCALAR_ONE, x: SCALAR_ZERO, y: SCALAR_ZERO, z: SCALAR_ZERO }),
{
}

} // verus!
