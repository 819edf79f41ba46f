//! Where an object stands, how it is turned and how large it is drawn.
use vstd::prelude::*;
use crate::units::UNIT;

verus! {

/// Three counts, one per axis: `x` runs to the right, `y` upwards and `z`
/// out of the screen.
#[derive(Clone, Copy, Debug, PartialEq, Eq, Structural)]
pub struct Vec3 {
    pub x: i64,
    pub y: i64,
    pub z: i64,
}

/// Position, rotation and scale of one object.
///
/// `rotation` is the angle of a turn about the depth axis, in millionths of a
/// radian. `scale` holds one factor per axis, in millionths.
#[derive(Clone, Copy, Debug, PartialEq, Eq, Structural)]
pub struct Transform {
    pub translation: Vec3,
    pub rotation: i64,
    pub scale: Vec3,
}

impl Vec3 {
    /// The point from which positions are measured.
    pub open spec fn zero() -> Vec3 {
        Vec3 { x: 0, y: 0, z: 0 }
    }

    /// The factor that leaves every axis as it is.
    pub open spec fn one() -> Vec3 {
        Vec3 { x: UNIT, y: UNIT, z: UNIT }
    }

    /// The three counts as one value.
    pub fn new(x: i64, y: i64, z: i64) -> (v: Vec3)
        ensures
            v == (Vec3 { x, y, z }),
    {
        Vec3 { x, y, z }
    }
}

impl Transform {
    /// The transform of an object that sits at the origin, unturned and at
    /// its natural size.
    pub open spec fn identity_spec() -> Transform {
        Transform { translation: Vec3::zero(), rotation: 0, scale: Vec3::one() }
    }

    /// The identity, moved to `translation`.
    pub open spec fn at(translation: Vec3) -> Transform {
        Transform { translation, ..Transform::identity_spec() }
    }

    /// The transform of an object at the origin, unturned and at its natural
    /// size.
    #[verifier::when_used_as_spec(identity_spec)]
    pub fn identity() -> (t: Transform)
        ensures
            t == Transform::identity_spec(),
    {
        Transform {
            translation: Vec3 { x: 0, y: 0, z: 0 },
            rotation: 0,
            scale: Vec3 { x: UNIT, y: UNIT, z: UNIT },
        }
    }

    /// The transform of an object at `translation`, unturned and at its
    /// natural size.
    pub fn from_translation(translation: Vec3) -> (t: Transform)
        ensures
            t == Transform::at(translation),
    {
        Transform { translation, rotation: 0, scale: Vec3 { x: UNIT, y: UNIT, z: UNIT } }
    }
}

} // verus!
