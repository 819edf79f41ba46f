//! The per-frame step: every tagged object gets the transform that its
//! channel makes of the frame's phase.
use vstd::prelude::*;
use crate::phase::Phase;
use crate::channel::{
    orbit_x, orbit_y, pulse_factor, rotation_at, scale_at, swing_angle, translation_at,
    AnimationChannel,
};
use crate::object::RenderObject;

verus! {

/// `object` after a frame at `phase`: its transform driven by its own
/// channel, and nothing else touched.
pub open spec fn animated(object: RenderObject, phase: Phase) -> RenderObject {
    RenderObject { transform: object.channel.drive(object.transform, phase), ..object }
}

/// `object` after one channel alone has run: animated where it carries that
/// channel's tag, untouched where it does not.
pub open spec fn animated_by(
    object: RenderObject,
    channel: AnimationChannel,
    phase: Phase,
) -> RenderObject {
    if object.channel == channel {
        animated(object, phase)
    } else {
        object
    }
}

/// The scene after one channel has run over it.
pub open spec fn channel_pass(
    scene: Seq<RenderObject>,
    channel: AnimationChannel,
    phase: Phase,
) -> Seq<RenderObject> {
    Seq::new(scene.len(), |i: int| animated_by(scene[i], channel, phase))
}

/// The scene after a whole frame: each object animated by its own channel.
pub open spec fn tick_spec(scene: Seq<RenderObject>, phase: Phase) -> Seq<RenderObject> {
    Seq::new(scene.len(), |i: int| animated(scene[i], phase))
}

/// The scene after one frame for each phase of `phases`, first to last.
pub open spec fn after_frames(scene: Seq<RenderObject>, phases: Seq<Phase>) -> Seq<RenderObject>
    decreases phases.len(),
{
    if phases.len() == 0 {
        scene
    } else {
        tick_spec(after_frames(scene, phases.drop_last()), phases.last())
    }
}

/// Puts every object tagged `Translation` on the orbit, at the point that
/// belongs to `phase`. Its depth stays.
pub fn animate_translation(objects: &mut Vec<RenderObject>, phase: Phase)
    ensures
        phase.wf(),
        final(objects)@ == channel_pass(old(objects)@, AnimationChannel::Translation, phase),
{
    let at: (i64, i64) = translation_at(phase);
    let n: usize = objects.len();
    let mut i: usize = 0;
    while i < n
        invariant
            i <= n,
            objects@.len() == n,
            old(objects)@.len() == n,
            at.0 == orbit_x(phase.sine()),
            at.1 == orbit_y(phase.cosine()),
            forall|j: int|
                0 <= j < i ==> #[trigger] objects@[j] == animated_by(
                    old(objects)@[j],
                    AnimationChannel::Translation,
                    phase,
                ),
            forall|j: int| i <= j < n ==> #[trigger] objects@[j] == old(objects)@[j],
        decreases n - i,
    {
        if objects[i].channel == AnimationChannel::Translation {
            objects[i].transform.translation.x = at.0;
            objects[i].transform.translation.y = at.1;
        }
        i += 1;
    }
}

/// Turns every object tagged `Rotation` about the depth axis, by the angle
/// that belongs to `phase`.
pub fn animate_rotation(objects: &mut Vec<RenderObject>, phase: Phase)
    ensures
        phase.wf(),
        final(objects)@ == channel_pass(old(objects)@, AnimationChannel::Rotation, phase),
{
    let angle: i64 = rotation_at(phase);
    let n: usize = objects.len();
    let mut i: usize = 0;
    while i < n
        invariant
            i <= n,
            objects@.len() == n,
            old(objects)@.len() == n,
            angle == swing_angle(phase.cosine()),
            forall|j: int|
                0 <= j < i ==> #[trigger] objects@[j] == animated_by(
                    old(objects)@[j],
                    AnimationChannel::Rotation,
                    phase,
                ),
            forall|j: int| i <= j < n ==> #[trigger] objects@[j] == old(objects)@[j],
        decreases n - i,
    {
        if objects[i].channel == AnimationChannel::Rotation {
            objects[i].transform.rotation = angle;
        }
        i += 1;
    }
}

/// Scales every object tagged `Scale` by the factor that belongs to `phase`,
/// the same across and upwards. Its scale in depth stays.
pub fn animate_scale(objects: &mut Vec<RenderObject>, phase: Phase)
    ensures
        phase.wf(),
        final(objects)@ == channel_pass(old(objects)@, AnimationChannel::Scale, phase),
{
    let factor: i64 = scale_at(phase);
    let n: usize = objects.len();
    let mut i: usize = 0;
    while i < n
        invariant
            i <= n,
            objects@.len() == n,
            old(objects)@.len() == n,
            factor == pulse_factor(phase.sine()),
            forall|j: int|
                0 <= j < i ==> #[trigger] objects@[j] == animated_by(
                    old(objects)@[j],
                    AnimationChannel::Scale,
                    phase,
                ),
            forall|j: int| i <= j < n ==> #[trigger] objects@[j] == old(objects)@[j],
        decreases n - i,
    {
        if objects[i].channel == AnimationChannel::Scale {
            objects[i].transform.scale.x = factor;
            objects[i].transform.scale.y = factor;
        }
        i += 1;
    }
}

/// One frame: runs the three channels over the scene, all on the same
/// phase. Objects without a tag come out as they went in.
pub fn tick(objects: &mut Vec<RenderObject>, phase: Phase)
    ensures
        phase.wf(),
        final(objects)@ == tick_spec(old(objects)@, phase),
{
    animate_translation(objects, phase);
    animate_rotation(objects, phase);
    animate_scale(objects, phase);
}

} // verus!
