//! The three animation channels and what each makes of a phase.
use vstd::prelude::*;
use crate::units::{UNIT, within_one};
use crate::transform::{Transform, Vec3};
use crate::phase::Phase;

verus! {

/// Which part of an object's transform a frame rewrites, if any.
#[derive(Clone, Copy, Debug, PartialEq, Eq, Structural)]
pub enum AnimationChannel {
    /// The object circles: `x` and `y` of its position are rewritten.
    Translation,
    /// The object swings: its rotation is rewritten.
    Rotation,
    /// The object pulses: `x` and `y` of its scale are rewritten.
    Scale,
    /// The object carries no tag and stays as it was made.
    Untagged,
}

/// Radius of the orbit, in scene units.
pub const ORBIT_RADIUS: i64 = 100;

/// Where the centre of the orbit lies on the `x` axis: 400 units to the left.
pub const ORBIT_CENTER_X: i64 = -400_000_000;

/// What is added to the sine before it is doubled: one and a tenth.
pub const PULSE_OFFSET: i64 = 1_100_000;

/// The smallest scale factor a pulse reaches: a fifth.
pub const PULSE_MIN: i64 = 200_000;

/// The largest scale factor a pulse reaches: four and a fifth.
pub const PULSE_MAX: i64 = 4_200_000;

/// `x` of a point on the orbit: a hundred times the sine, 400 units to the
/// left.
pub open spec fn orbit_x(sine: int) -> int {
    ORBIT_RADIUS * sine + ORBIT_CENTER_X
}

/// `y` of a point on the orbit: a hundred times the cosine.
pub open spec fn orbit_y(cosine: int) -> int {
    ORBIT_RADIUS * cosine
}

/// The angle of a swing: the cosine itself, read as radians. The angle goes
/// back and forth; it does not grow with time.
pub open spec fn swing_angle(cosine: int) -> int {
    cosine
}

/// The factor of a pulse: the sine plus one and a tenth, doubled.
pub open spec fn pulse_factor(sine: int) -> int {
    (sine + PULSE_OFFSET) * 2
}

impl AnimationChannel {
    /// The transform that a frame at `phase` gives an object of this channel
    /// whose transform was `before`. What the channel does not rewrite is
    /// kept: depth, and the parts that belong to the other channels.
    pub open spec fn drive(self, before: Transform, phase: Phase) -> Transform {
        match self {
            AnimationChannel::Translation => Transform {
                translation: Vec3 {
                    x: orbit_x(phase.sine()) as i64,
                    y: orbit_y(phase.cosine()) as i64,
                    z: before.translation.z,
                },
                ..before
            },
            AnimationChannel::Rotation => Transform {
                rotation: swing_angle(phase.cosine()) as i64,
                ..before
            },
            AnimationChannel::Scale => Transform {
                scale: Vec3 {
                    x: pulse_factor(phase.sine()) as i64,
                    y: pulse_factor(phase.sine()) as i64,
                    z: before.scale.z,
                },
                ..before
            },
            AnimationChannel::Untagged => before,
        }
    }
}

/// Position on the orbit at `phase`: `x`, then `y`.
pub fn translation_at(phase: Phase) -> (at: (i64, i64))
    ensures
        phase.wf(),
        at.0 == orbit_x(phase.sine()),
        at.1 == orbit_y(phase.cosine()),
        ORBIT_CENTER_X - ORBIT_RADIUS * UNIT <= at.0 <= ORBIT_CENTER_X + ORBIT_RADIUS * UNIT,
        -ORBIT_RADIUS * UNIT <= at.1 <= ORBIT_RADIUS * UNIT,
{
    let sin: i64 = phase.sin();
    let cos: i64 = phase.cos();
    (ORBIT_RADIUS * sin + ORBIT_CENTER_X, ORBIT_RADIUS * cos)
}

/// Angle of the swing at `phase`, in millionths of a radian.
pub fn rotation_at(phase: Phase) -> (angle: i64)
    ensures
        phase.wf(),
        angle == swing_angle(phase.cosine()),
        within_one(angle as int),
{
    phase.cos()
}

/// Scale factor of the pulse at `phase`, in millionths.
pub fn scale_at(phase: Phase) -> (factor: i64)
    ensures
        phase.wf(),
        factor == pulse_factor(phase.sine()),
        PULSE_MIN <= factor <= PULSE_MAX,
{
    let sin: i64 = phase.sin();
    (sin + PULSE_OFFSET) * 2
}

} // verus!
