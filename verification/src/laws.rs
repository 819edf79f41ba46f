//! What holds of every scene and every phase.
use vstd::prelude::*;
use crate::units::UNIT;
use crate::phase::Phase;
use crate::channel::{
    orbit_x, orbit_y, pulse_factor, swing_angle, AnimationChannel, ORBIT_CENTER_X, ORBIT_RADIUS,
    PULSE_MAX, PULSE_MIN,
};
use crate::object::{scene_view, scene_wf, ObjectModel, RenderObject};
use crate::animator::{after_frames, animated, channel_pass, tick_spec};

verus! {

/// The square of a count.
pub open spec fn square(count: int) -> int {
    count * count
}

/// A point of the orbit lies a hundred times as far from the orbit's centre
/// as the phase lies from the origin: the squared distances differ by the
/// factor ten thousand, whatever the phase.
pub proof fn lemma_orbit_radius(phase: Phase)
    ensures
        square(orbit_x(phase.sine()) - ORBIT_CENTER_X) + square(orbit_y(phase.cosine()))
            == square(ORBIT_RADIUS as int) * (square(phase.sine()) + square(phase.cosine())),
{
    let s = phase.sine();
    let c = phase.cosine();
    assert((100 * s) * (100 * s) + (100 * c) * (100 * c) == (100 * 100) * (s * s + c * c))
        by (nonlinear_arith);
}

/// After a frame whose phase lies on the unit circle, every object tagged
/// `Translation` stands exactly on the circle of radius 100 about the point
/// 400 units left of the origin, however many objects the scene holds.
pub proof fn lemma_orbit_is_circle(scene: Seq<RenderObject>, phase: Phase, i: int)
    requires
        phase.wf(),
        phase.on_unit_circle(),
        0 <= i < scene.len(),
        scene[i].channel == AnimationChannel::Translation,
    ensures
        square(tick_spec(scene, phase)[i].transform.translation.x + 400 * UNIT) + square(
            tick_spec(scene, phase)[i].transform.translation.y as int,
        ) == square(100 * UNIT),
{
    lemma_orbit_radius(phase);
    let s = phase.sine();
    let c = phase.cosine();
    assert((100 * 100) * (s * s + c * c) == (100 * UNIT) * (100 * UNIT)) by (nonlinear_arith)
        requires
            s * s + c * c == UNIT * UNIT,
    ;
}

/// After a frame, the rotation of every object tagged `Rotation` is the
/// cosine of the phase, read as an angle: never more than one radian either
/// way.
pub proof fn lemma_swing_is_cosine(scene: Seq<RenderObject>, phase: Phase, i: int)
    requires
        phase.wf(),
        0 <= i < scene.len(),
        scene[i].channel == AnimationChannel::Rotation,
    ensures
        tick_spec(scene, phase)[i].transform.rotation == swing_angle(phase.cosine()),
        swing_angle(phase.cosine()) == phase.cosine(),
        -UNIT <= tick_spec(scene, phase)[i].transform.rotation <= UNIT,
{
}

/// The angle of a swing depends on the phase through its cosine alone: two
/// phases of one cosine turn an object alike.
pub proof fn lemma_swing_repeats_with_cosine(
    scene: Seq<RenderObject>,
    first: Phase,
    second: Phase,
    i: int,
)
    requires
        first.cosine() == second.cosine(),
        0 <= i < scene.len(),
        scene[i].channel == AnimationChannel::Rotation,
    ensures
        tick_spec(scene, first)[i] == tick_spec(scene, second)[i],
{
}

/// After a frame, every object tagged `Scale` is scaled alike across and
/// upwards, by a factor between a fifth and four and a fifth. The factor is
/// a fifth exactly where the sine is minus one, and four and a fifth exactly
/// where it is one.
pub proof fn lemma_pulse_range(scene: Seq<RenderObject>, phase: Phase, i: int)
    requires
        phase.wf(),
        0 <= i < scene.len(),
        scene[i].channel == AnimationChannel::Scale,
    ensures
        tick_spec(scene, phase)[i].transform.scale.x == pulse_factor(phase.sine()),
        tick_spec(scene, phase)[i].transform.scale.y == pulse_factor(phase.sine()),
        PULSE_MIN <= pulse_factor(phase.sine()) <= PULSE_MAX,
        pulse_factor(phase.sine()) == PULSE_MIN <==> phase.sine() == -UNIT,
        pulse_factor(phase.sine()) == PULSE_MAX <==> phase.sine() == UNIT,
{
}

/// An object without a tag is the same after any number of frames as
/// before them.
pub proof fn lemma_untagged_never_moves(scene: Seq<RenderObject>, phases: Seq<Phase>, i: int)
    requires
        0 <= i < scene.len(),
        scene[i].channel == AnimationChannel::Untagged,
    ensures
        after_frames(scene, phases).len() == scene.len(),
        after_frames(scene, phases)[i] == scene[i],
    decreases phases.len(),
{
    if phases.len() > 0 {
        lemma_untagged_never_moves(scene, phases.drop_last(), i);
    }
}

/// A frame is a function of the scene and the phase, and it keeps no count
/// of its own: a second frame at the same phase changes nothing.
pub proof fn lemma_tick_repeatable(scene: Seq<RenderObject>, phase: Phase)
    ensures
        tick_spec(tick_spec(scene, phase), phase) == tick_spec(scene, phase),
{
    assert(tick_spec(tick_spec(scene, phase), phase) =~= tick_spec(scene, phase));
}

/// A frame leaves no trace in the next: whatever phase came before, the
/// scene after a frame at `later` is what that frame alone would have made.
pub proof fn lemma_tick_forgets(scene: Seq<RenderObject>, earlier: Phase, later: Phase)
    ensures
        tick_spec(tick_spec(scene, earlier), later) == tick_spec(scene, later),
{
    assert(tick_spec(tick_spec(scene, earlier), later) =~= tick_spec(scene, later));
}

/// What a frame makes of an object depends on that object and the phase
/// alone. Two scenes that hold the same object at place `i` hold the same
/// object there after a frame, whatever else they hold and however their
/// other objects are tagged.
pub proof fn lemma_channel_isolation(
    scene: Seq<RenderObject>,
    other: Seq<RenderObject>,
    phase: Phase,
    i: int,
)
    requires
        0 <= i < scene.len(),
        0 <= i < other.len(),
        scene[i] == other[i],
    ensures
        tick_spec(scene, phase)[i] == tick_spec(other, phase)[i],
{
}

/// Giving the object at place `j` another tag changes nothing for the
/// object at any other place `i`.
pub proof fn lemma_retag_leaves_others(
    scene: Seq<RenderObject>,
    phase: Phase,
    j: int,
    tag: AnimationChannel,
    i: int,
)
    requires
        0 <= i < scene.len(),
        0 <= j < scene.len(),
        i != j,
    ensures
        tick_spec(scene.update(j, (RenderObject { channel: tag, ..scene[j] })), phase)[i]
            == tick_spec(scene, phase)[i],
{
}

/// One channel's pass touches only the objects that carry its tag, and
/// makes of them what the whole frame makes of them.
pub proof fn lemma_pass_is_confined(
    scene: Seq<RenderObject>,
    channel: AnimationChannel,
    phase: Phase,
    i: int,
)
    requires
        0 <= i < scene.len(),
    ensures
        scene[i].channel != channel ==> channel_pass(scene, channel, phase)[i] == scene[i],
        scene[i].channel == channel ==> channel_pass(scene, channel, phase)[i] == tick_spec(
            scene,
            phase,
        )[i],
{
}

/// The passes of two channels may run in either order.
pub proof fn lemma_passes_commute(
    scene: Seq<RenderObject>,
    first: AnimationChannel,
    second: AnimationChannel,
    phase: Phase,
)
    ensures
        channel_pass(channel_pass(scene, first, phase), second, phase) == channel_pass(
            channel_pass(scene, second, phase),
            first,
            phase,
        ),
{
    assert(channel_pass(channel_pass(scene, first, phase), second, phase) =~= channel_pass(
        channel_pass(scene, second, phase),
        first,
        phase,
    ));
}

/// A frame is the three passes, one after another.
pub proof fn lemma_tick_is_three_passes(scene: Seq<RenderObject>, phase: Phase)
    ensures
        tick_spec(scene, phase) == channel_pass(
            channel_pass(
                channel_pass(scene, AnimationChannel::Translation, phase),
                AnimationChannel::Rotation,
                phase,
            ),
            AnimationChannel::Scale,
            phase,
        ),
{
    assert(tick_spec(scene, phase) =~= channel_pass(
        channel_pass(
            channel_pass(scene, AnimationChannel::Translation, phase),
            AnimationChannel::Rotation,
            phase,
        ),
        AnimationChannel::Scale,
        phase,
    ));
}

/// A frame rewrites transforms and nothing else: every object keeps its
/// text, style, layout, extent, parent and tag, and the scene its length and
/// its order.
pub proof fn lemma_tick_keeps_the_rest(scene: Seq<RenderObject>, phase: Phase)
    ensures
        tick_spec(scene, phase).len() == scene.len(),
        forall|i: int|
            0 <= i < scene.len() ==> #[trigger] scene_view(tick_spec(scene, phase))[i] == (
            ObjectModel {
                transform: scene[i].channel.drive(scene[i].transform, phase),
                ..scene_view(scene)[i]
            }),
        scene_wf(scene_view(scene)) ==> scene_wf(scene_view(tick_spec(scene, phase))),
{
    assert forall|i: int| 0 <= i < scene.len() implies #[trigger] scene_view(
        tick_spec(scene, phase),
    )[i] == (ObjectModel {
        transform: scene[i].channel.drive(scene[i].transform, phase),
        ..scene_view(scene)[i]
    }) by {
        assert(tick_spec(scene, phase)[i] == animated(scene[i], phase));
    }
    if scene_wf(scene_view(scene)) {
        assert forall|i: int| 0 <= i < scene_view(tick_spec(scene, phase)).len() implies (
        #[trigger] scene_view(tick_spec(scene, phase))[i].parent matches Some(p) ==> p < i) by {
            assert(scene_view(scene)[i].parent == scene_view(tick_spec(scene, phase))[i].parent);
        }
    }
}

} // verus!
