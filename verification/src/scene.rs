//! The scene as it stands before the first frame.
use vstd::prelude::*;
use vstd::string::StringExecFns;
use crate::units::UNIT;
use crate::transform::{Transform, Vec3};
use crate::channel::AnimationChannel;
use crate::object::{
    scene_view, scene_wf, Anchor, Color, Justify, Layout, LineBreak, ObjectModel, RenderObject, Size,
    Style,
};

verus! {

/// Font size of the three animated labels: 50 units.
pub const LABEL_FONT_SIZE: i64 = 50_000_000;

/// Font size of every other text: 35 units.
pub const NOTE_FONT_SIZE: i64 = 35_000_000;

/// How many objects the scene holds.
pub const SCENE_LEN: usize = 12;

/// The word that an animated label shows: the name of its channel.
pub open spec fn channel_word(channel: AnimationChannel) -> Seq<char> {
    match channel {
        AnimationChannel::Translation => "translation"@,
        AnimationChannel::Rotation => "rotation"@,
        AnimationChannel::Scale => "scale"@,
        AnimationChannel::Untagged => ""@,
    }
}

/// Where an animated label is put: the `Scale` label 400 units to the right,
/// the others at the origin.
pub open spec fn label_origin(channel: AnimationChannel) -> Vec3 {
    match channel {
        AnimationChannel::Scale => Vec3 { x: 400_000_000, y: 0, z: 0 },
        _ => Vec3::zero(),
    }
}

/// The label of one channel: the channel's name in the large font, its
/// lines centred, tagged with the channel.
pub open spec fn channel_label(channel: AnimationChannel) -> ObjectModel {
    ObjectModel {
        transform: Transform::at(label_origin(channel)),
        layout: Layout { justify: Justify::Center, line_break: LineBreak::WordBoundary },
        channel,
        ..ObjectModel::plain_text(channel_word(channel), LABEL_FONT_SIZE)
    }
}

/// Size of both backdrops: 300 units wide, 200 high.
pub open spec fn box_size() -> Size {
    Size { width: 300_000_000, height: 200_000_000 }
}

/// A backdrop: a rectangle of the common box size, its centre at `x`,
/// 250 units below the origin.
pub open spec fn backdrop(color: Color, x: i64) -> ObjectModel {
    ObjectModel {
        transform: Transform::at(Vec3 { x, y: -250_000_000i64, z: 0 }),
        ..ObjectModel::rectangle(color, box_size())
    }
}

/// The text that lies on the backdrop at place `parent`: one unit in front
/// of it, wrapped in its box, its lines broken as `line_break` says.
pub open spec fn wrapped_note(
    content: Seq<char>,
    line_break: LineBreak,
    parent: usize,
) -> ObjectModel {
    ObjectModel {
        transform: Transform::at(Vec3 { x: 0, y: 0, z: UNIT }),
        layout: Layout { justify: Justify::Left, line_break },
        extent: Some(box_size()),
        parent: Some(parent),
        ..ObjectModel::plain_text(content, NOTE_FONT_SIZE)
    }
}

/// The text that shows unsmoothed glyphs: lower left, its lines centred.
pub open spec fn unsmoothed_note() -> ObjectModel {
    let plain = ObjectModel::plain_text(
        "this text has\nFontSmoothing::None\nand JustifyText::Center"@,
        NOTE_FONT_SIZE,
    );
    ObjectModel {
        transform: Transform::at(Vec3 { x: -400_000_000i64, y: -250_000_000i64, z: 0 }),
        style: Style { smoothing: false, ..plain.style },
        layout: Layout { justify: Justify::Center, line_break: LineBreak::WordBoundary },
        ..plain
    }
}

/// The four corners, in the order in which their marks stand in the scene.
pub open spec fn corner(k: int) -> Anchor {
    if k == 0 {
        Anchor::TopLeft
    } else if k == 1 {
        Anchor::TopRight
    } else if k == 2 {
        Anchor::BottomRight
    } else {
        Anchor::BottomLeft
    }
}

/// The colour of a corner's mark: red, lime, blue and yellow, going round
/// from the top left. The centre has none of its own.
pub open spec fn corner_color_spec(anchor: Anchor) -> Color {
    match anchor {
        Anchor::TopLeft => Color { red: UNIT, green: 0, blue: 0, alpha: UNIT },
        Anchor::TopRight => Color { red: 0, green: UNIT, blue: 0, alpha: UNIT },
        Anchor::BottomRight => Color { red: 0, green: 0, blue: UNIT, alpha: UNIT },
        Anchor::BottomLeft => Color { red: UNIT, green: UNIT, blue: 0, alpha: UNIT },
        Anchor::Center => Color::white(),
    }
}

/// What a corner's mark says: the anchor's name behind `Anchor::`, with a
/// blank on either side.
pub open spec fn corner_words(anchor: Anchor) -> Seq<char> {
    " Anchor::"@ + anchor.name_spec() + " "@
}

/// The mark of one corner: its words in its colour, anchored at that
/// corner, 250 units above the origin. All four marks share this point, so
/// the anchor alone decides where each is seen.
pub open spec fn corner_mark(anchor: Anchor) -> ObjectModel {
    let plain = ObjectModel::plain_text(corner_words(anchor), NOTE_FONT_SIZE);
    ObjectModel {
        transform: Transform::at(Vec3 { x: 0, y: 250_000_000, z: 0 }),
        style: Style { color: corner_color_spec(anchor), anchor, ..plain.style },
        ..plain
    }
}

/// The whole scene: the three labels, the two backdrops each with its
/// text, the unsmoothed text, and the four corner marks.
pub open spec fn initial_scene() -> Seq<ObjectModel> {
    seq![
        channel_label(AnimationChannel::Translation),
        channel_label(AnimationChannel::Rotation),
        channel_label(AnimationChannel::Scale),
        backdrop(Color { red: 250_000, green: 250_000, blue: 750_000, alpha: UNIT }, 0),
        wrapped_note(
            "this text wraps in teh box\n(Unicode linebreaks"@,
            LineBreak::WordBoundary,
            3,
        ),
        backdrop(Color { red: 200_000, green: 300_000, blue: 700_000, alpha: UNIT }, 320_000_000),
        wrapped_note(
            "this text wraps in teh box\n(AnyCharacter linebreaks)"@,
            LineBreak::AnyCharacter,
            5,
        ),
        unsmoothed_note(),
        corner_mark(corner(0)),
        corner_mark(corner(1)),
        corner_mark(corner(2)),
        corner_mark(corner(3)),
    ]
}

/// The colour of a corner's mark.
pub fn corner_color(anchor: Anchor) -> (color: Color)
    ensures
        color == corner_color_spec(anchor),
{
    match anchor {
        Anchor::TopLeft => Color::rgb(UNIT, 0, 0),
        Anchor::TopRight => Color::rgb(0, UNIT, 0),
        Anchor::BottomRight => Color::rgb(0, 0, UNIT),
        Anchor::BottomLeft => Color::rgb(UNIT, UNIT, 0),
        Anchor::Center => Color::rgb(UNIT, UNIT, UNIT),
    }
}

/// The label of `channel`.
pub fn make_label(channel: AnimationChannel) -> (object: RenderObject)
    ensures
        object@ == channel_label(channel),
{
    let word: &str = match channel {
        AnimationChannel::Translation => "translation",
        AnimationChannel::Rotation => "rotation",
        AnimationChannel::Scale => "scale",
        AnimationChannel::Untagged => "",
    };
    let origin = match channel {
        AnimationChannel::Scale => Vec3::new(400_000_000, 0, 0),
        _ => Vec3::new(0, 0, 0),
    };
    let mut object = RenderObject::text(word, LABEL_FONT_SIZE);
    object.transform = Transform::from_translation(origin);
    object.layout.justify = Justify::Center;
    object.channel = channel;
    object
}

/// A backdrop with the text that lies on it, appended to `objects`.
fn push_wrapping_group(
    objects: &mut Vec<RenderObject>,
    color: Color,
    x: i64,
    content: &str,
    line_break: LineBreak,
)
    ensures
        scene_view(final(objects)@) == scene_view(old(objects)@).push(backdrop(color, x)).push(
            wrapped_note(content@, line_break, old(objects)@.len() as usize),
        ),
{
    let size = Size { width: 300_000_000, height: 200_000_000 };
    let parent: usize = objects.len();
    let mut back = RenderObject::rectangle(color, size);
    back.transform = Transform::from_translation(Vec3::new(x, -250_000_000, 0));
    let mut note = RenderObject::text(content, NOTE_FONT_SIZE);
    note.transform = Transform::from_translation(Vec3::new(0, 0, UNIT));
    note.layout.line_break = line_break;
    note.extent = Some(size);
    note.parent = Some(parent);
    objects.push(back);
    objects.push(note);
    assert(scene_view(objects@) =~= scene_view(old(objects)@).push(backdrop(color, x)).push(
        wrapped_note(content@, line_break, old(objects)@.len() as usize),
    ));
}

/// The mark of one corner.
pub fn make_corner_mark(anchor: Anchor) -> (object: RenderObject)
    ensures
        object@ == corner_mark(anchor),
{
    let words = String::from_str(" Anchor::").concat(anchor.name()).concat(" ");
    let mut object = RenderObject::text(words.as_str(), NOTE_FONT_SIZE);
    object.transform = Transform::from_translation(Vec3::new(0, 250_000_000, 0));
    object.style.color = corner_color(anchor);
    object.style.anchor = anchor;
    object
}

/// Builds the scene. Only the three labels carry a tag, one channel each;
/// nothing else in the scene ever moves.
pub fn setup() -> (objects: Vec<RenderObject>)
    ensures
        objects@.len() == SCENE_LEN,
        scene_view(objects@) == initial_scene(),
{
    let mut objects: Vec<RenderObject> = Vec::new();
    objects.push(make_label(AnimationChannel::Translation));
    objects.push(make_label(AnimationChannel::Rotation));
    objects.push(make_label(AnimationChannel::Scale));
    push_wrapping_group(
        &mut objects,
        Color::rgb(250_000, 250_000, 750_000),
        0,
        "this text wraps in teh box\n(Unicode linebreaks",
        LineBreak::WordBoundary,
    );
    push_wrapping_group(
        &mut objects,
        Color::rgb(200_000, 300_000, 700_000),
        320_000_000,
        "this text wraps in teh box\n(AnyCharacter linebreaks)",
        LineBreak::AnyCharacter,
    );
    let mut note = RenderObject::text(
        "this text has\nFontSmoothing::None\nand JustifyText::Center",
        NOTE_FONT_SIZE,
    );
    note.transform = Transform::from_translation(Vec3::new(-400_000_000, -250_000_000, 0));
    note.style.smoothing = false;
    note.layout.justify = Justify::Center;
    let ghost seven = scene_view(objects@);
    objects.push(note);
    assert(scene_view(objects@) =~= seven.push(unsmoothed_note()));
    assert(scene_view(objects@) =~= initial_scene().take(8));
    let corners: [Anchor; 4] =
        [Anchor::TopLeft, Anchor::TopRight, Anchor::BottomRight, Anchor::BottomLeft];
    let mut k: usize = 0;
    while k < 4
        invariant
            k <= 4,
            forall|j: int| 0 <= j < 4 ==> corners@[j] == corner(j),
            scene_view(objects@) == initial_scene().take(8 + k),
        decreases 4 - k,
    {
        let ghost before = scene_view(objects@);
        objects.push(make_corner_mark(corners[k]));
        assert(scene_view(objects@) =~= before.push(corner_mark(corner(k as int))));
        assert(scene_view(objects@) =~= initial_scene().take(8 + k + 1));
        k += 1;
    }
    objects
}

/// The scene holds one object for each channel, and these come first: no
/// other object carries a tag.
pub proof fn lemma_scene_tags()
    ensures
        initial_scene().len() == SCENE_LEN,
        initial_scene()[0].channel == AnimationChannel::Translation,
        initial_scene()[1].channel == AnimationChannel::Rotation,
        initial_scene()[2].channel == AnimationChannel::Scale,
        forall|i: int|
            3 <= i < SCENE_LEN ==> (#[trigger] initial_scene()[i]).channel
                == AnimationChannel::Untagged,
{
}

/// The two backdrops are the scene's only rectangles. Each is followed by
/// its text, which is attached to it and wrapped in a box of its size; the
/// two texts differ in where their lines may break. Nothing else in the
/// scene is attached to anything.
pub proof fn lemma_scene_groups()
    ensures
        scene_wf(initial_scene()),
        forall|i: int|
            0 <= i < SCENE_LEN ==> ((#[trigger] initial_scene()[i]).text is None <==> i == 3 || i
                == 5),
        forall|i: int|
            0 <= i < SCENE_LEN ==> ((#[trigger] initial_scene()[i]).parent is Some <==> i == 4 || i
                == 6),
        initial_scene()[4].parent == Some(3usize),
        initial_scene()[6].parent == Some(5usize),
        initial_scene()[4].extent == initial_scene()[3].extent,
        initial_scene()[6].extent == initial_scene()[5].extent,
        initial_scene()[3].style.color != initial_scene()[5].style.color,
        initial_scene()[4].layout.line_break == LineBreak::WordBoundary,
        initial_scene()[6].layout.line_break == LineBreak::AnyCharacter,
{
}

/// The four corner marks stand at one point. No two of them share an anchor
/// or a colour.
pub proof fn lemma_scene_corners()
    ensures
        forall|i: int, j: int|
            8 <= i < j < SCENE_LEN ==> {
                let first = #[trigger] initial_scene()[i];
                let second = #[trigger] initial_scene()[j];
                &&& first.transform == second.transform
                &&& first.style.anchor != second.style.anchor
                &&& first.style.color != second.style.color
            },
{
}

} // verus!
