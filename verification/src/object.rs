//! What the scene is made of.
use vstd::prelude::*;
use crate::units::UNIT;
use crate::transform::Transform;
use crate::channel::AnimationChannel;

verus! {

/// A colour in sRGB with its opacity, each channel in millionths of full
/// strength.
#[derive(Clone, Copy, Debug, PartialEq, Eq, Structural)]
pub struct Color {
    pub red: i64,
    pub green: i64,
    pub blue: i64,
    pub alpha: i64,
}

/// The point of an object's own box that is put on its position.
#[derive(Clone, Copy, Debug, PartialEq, Eq, Structural)]
pub enum Anchor {
    Center,
    TopLeft,
    TopRight,
    BottomRight,
    BottomLeft,
}

/// How the lines of a text are set against each other.
#[derive(Clone, Copy, Debug, PartialEq, Eq, Structural)]
pub enum Justify {
    Left,
    Center,
}

/// Where a line that is too long for its box may be broken.
#[derive(Clone, Copy, Debug, PartialEq, Eq, Structural)]
pub enum LineBreak {
    /// Between words only.
    WordBoundary,
    /// After any character.
    AnyCharacter,
}

/// Width and height of a box, in millionths of a scene unit.
#[derive(Clone, Copy, Debug, PartialEq, Eq, Structural)]
pub struct Size {
    pub width: i64,
    pub height: i64,
}

/// How an object looks. A rectangle has a colour and an anchor; the font
/// size and the smoothing flag matter to text alone.
#[derive(Clone, Copy, Debug, PartialEq, Eq, Structural)]
pub struct Style {
    /// Height of the font, in millionths of a scene unit.
    pub font_size: i64,
    pub color: Color,
    /// Whether the edges of the glyphs are smoothed.
    pub smoothing: bool,
    pub anchor: Anchor,
}

/// How the lines of a text are laid out.
#[derive(Clone, Copy, Debug, PartialEq, Eq, Structural)]
pub struct Layout {
    pub justify: Justify,
    pub line_break: LineBreak,
}

/// One item of the scene: a text, or a plain rectangle where `text` is
/// absent.
#[derive(Clone, Debug, PartialEq, Eq)]
pub struct RenderObject {
    pub text: Option<String>,
    pub transform: Transform,
    pub style: Style,
    pub layout: Layout,
    /// Of a rectangle, its size; of a text, the box in which its lines are
    /// wrapped, or nothing where they run free.
    pub extent: Option<Size>,
    /// The place in the scene of the object that this one is attached to.
    /// The transform of an attached object is measured from that object.
    pub parent: Option<usize>,
    pub channel: AnimationChannel,
}

/// A [`RenderObject`] with its text as a sequence of characters.
pub struct ObjectModel {
    pub text: Option<Seq<char>>,
    pub transform: Transform,
    pub style: Style,
    pub layout: Layout,
    pub extent: Option<Size>,
    pub parent: Option<usize>,
    pub channel: AnimationChannel,
}

impl View for RenderObject {
    type V = ObjectModel;

    open spec fn view(&self) -> ObjectModel {
        ObjectModel {
            text: match self.text {
                Some(s) => Some(s@),
                None => None,
            },
            transform: self.transform,
            style: self.style,
            layout: self.layout,
            extent: self.extent,
            parent: self.parent,
            channel: self.channel,
        }
    }
}

/// The models of the objects of a scene, in order.
pub open spec fn scene_view(scene: Seq<RenderObject>) -> Seq<ObjectModel> {
    Seq::new(scene.len(), |i: int| scene[i]@)
}

/// Every attached object comes after the object it is attached to.
pub open spec fn scene_wf(scene: Seq<ObjectModel>) -> bool {
    forall|i: int|
        0 <= i < scene.len() ==> (#[trigger] scene[i].parent matches Some(p) ==> p < i)
}

impl Color {
    /// Full strength in every channel.
    pub open spec fn white() -> Color {
        Color { red: UNIT, green: UNIT, blue: UNIT, alpha: UNIT }
    }

    /// A colour without transparency.
    pub fn rgb(red: i64, green: i64, blue: i64) -> (c: Color)
        ensures
            c == (Color { red, green, blue, alpha: UNIT }),
    {
        Color { red, green, blue, alpha: UNIT }
    }
}

impl Anchor {
    /// The characters of the anchor's name.
    pub open spec fn name_spec(self) -> Seq<char> {
        match self {
            Anchor::Center => "Center"@,
            Anchor::TopLeft => "TopLeft"@,
            Anchor::TopRight => "TopRight"@,
            Anchor::BottomRight => "BottomRight"@,
            Anchor::BottomLeft => "BottomLeft"@,
        }
    }

    /// The anchor's name, as it is written in a program.
    pub fn name(self) -> (name: &'static str)
        ensures
            name@ == self.name_spec(),
    {
        match self {
            Anchor::Center => "Center",
            Anchor::TopLeft => "TopLeft",
            Anchor::TopRight => "TopRight",
            Anchor::BottomRight => "BottomRight",
            Anchor::BottomLeft => "BottomLeft",
        }
    }
}

impl ObjectModel {
    /// A text as it stands before anything is said of it: white, smoothed,
    /// centred on its position, its lines set to the left and broken
    /// between words, unwrapped, unattached, untagged, at the origin.
    pub open spec fn plain_text(content: Seq<char>, font_size: i64) -> ObjectModel {
        ObjectModel {
            text: Some(content),
            transform: Transform::identity_spec(),
            style: Style {
                font_size,
                color: Color::white(),
                smoothing: true,
                anchor: Anchor::Center,
            },
            layout: Layout { justify: Justify::Left, line_break: LineBreak::WordBoundary },
            extent: None,
            parent: None,
            channel: AnimationChannel::Untagged,
        }
    }

    /// A rectangle of one colour, centred on the origin, unattached and
    /// untagged.
    pub open spec fn rectangle(color: Color, size: Size) -> ObjectModel {
        ObjectModel {
            text: None,
            transform: Transform::identity_spec(),
            style: Style { font_size: 0, color, smoothing: true, anchor: Anchor::Center },
            layout: Layout { justify: Justify::Left, line_break: LineBreak::WordBoundary },
            extent: Some(size),
            parent: None,
            channel: AnimationChannel::Untagged,
        }
    }
}

impl RenderObject {
    /// A text of the given font size, with everything else as
    /// [`ObjectModel::plain_text`] has it.
    pub fn text(content: &str, font_size: i64) -> (object: RenderObject)
        ensures
            object@ == ObjectModel::plain_text(content@, font_size),
    {
        RenderObject {
            text: Some(content.to_owned()),
            transform: Transform::identity(),
            style: Style {
                font_size,
                color: Color::rgb(UNIT, UNIT, UNIT),
                smoothing: true,
                anchor: Anchor::Center,
            },
            layout: Layout { justify: Justify::Left, line_break: LineBreak::WordBoundary },
            extent: None,
            parent: None,
            channel: AnimationChannel::Untagged,
        }
    }

    /// A rectangle of the given colour and size, with everything else as
    /// [`ObjectModel::rectangle`] has it.
    pub fn rectangle(color: Color, size: Size) -> (object: RenderObject)
        ensures
            object@ == ObjectModel::rectangle(color, size),
    {
        RenderObject {
            text: None,
            transform: Transform::identity(),
            style: Style { font_size: 0, color, smoothing: true, anchor: Anchor::Center },
            layout: Layout { justify: Justify::Left, line_break: LineBreak::WordBoundary },
            extent: Some(size),
            parent: None,
            channel: AnimationChannel::Untagged,
        }
    }
}

} // verus!
