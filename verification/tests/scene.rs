use scene_animator::animator::tick as advance;
use scene_animator::channel::AnimationChannel;
use scene_animator::object::{
    Anchor, Color, Justify, Layout, LineBreak, RenderObject as Object, Size, Style,
};
use scene_animator::phase::Phase;
use scene_animator::scene::{
    corner_color, make_corner_mark, make_label, setup, LABEL_FONT_SIZE, NOTE_FONT_SIZE, SCENE_LEN,
};
use scene_animator::transform::{Transform, Vec3};
use scene_animator::units::UNIT;

fn at(x: i64, y: i64, z: i64) -> Transform {
    Transform {
        translation: Vec3 { x, y, z },
        rotation: 0,
        scale: Vec3 { x: UNIT, y: UNIT, z: UNIT },
    }
}

fn white() -> Color {
    Color { red: UNIT, green: UNIT, blue: UNIT, alpha: UNIT }
}

#[test]
fn identity_transform_has_unit_scale() {
    assert_eq!(Transform::identity(), at(0, 0, 0));
    assert_eq!(Transform::from_translation(Vec3::new(1, -2, 3)), at(1, -2, 3));
}

#[test]
fn plain_text_has_the_default_look() {
    let object = Object::text("hello", 20 * UNIT);
    assert_eq!(
        object,
        Object {
            text: Some("hello".to_string()),
            transform: at(0, 0, 0),
            style: Style {
                font_size: 20 * UNIT,
                color: white(),
                smoothing: true,
                anchor: Anchor::Center
            },
            layout: Layout { justify: Justify::Left, line_break: LineBreak::WordBoundary },
            extent: None,
            parent: None,
            channel: AnimationChannel::Untagged,
        }
    );
}

#[test]
fn rectangle_has_no_text() {
    let color = Color::rgb(1, 2, 3);
    let size = Size { width: 4, height: 5 };
    let object = Object::rectangle(color, size);
    assert_eq!(object.text, None);
    assert_eq!(object.style.color, Color { red: 1, green: 2, blue: 3, alpha: UNIT });
    assert_eq!(object.extent, Some(size));
    assert_eq!(object.transform, at(0, 0, 0));
    assert_eq!(object.parent, None);
    assert_eq!(object.channel, AnimationChannel::Untagged);
}

#[test]
fn anchor_names() {
    assert_eq!(Anchor::Center.name(), "Center");
    assert_eq!(Anchor::TopLeft.name(), "TopLeft");
    assert_eq!(Anchor::TopRight.name(), "TopRight");
    assert_eq!(Anchor::BottomRight.name(), "BottomRight");
    assert_eq!(Anchor::BottomLeft.name(), "BottomLeft");
}

#[test]
fn scene_has_twelve_objects() {
    assert_eq!(SCENE_LEN, 12);
    assert_eq!(setup().len(), SCENE_LEN);
}

#[test]
fn one_label_for_each_channel() {
    let scene = setup();
    let words = ["translation", "rotation", "scale"];
    let tags =
        [AnimationChannel::Translation, AnimationChannel::Rotation, AnimationChannel::Scale];
    for k in 0..3 {
        assert_eq!(scene[k].text.as_deref(), Some(words[k]));
        assert_eq!(scene[k].channel, tags[k]);
        assert_eq!(scene[k].style.font_size, 50_000_000);
        assert_eq!(scene[k].style.font_size, LABEL_FONT_SIZE);
        assert_eq!(scene[k].style.color, white());
        assert!(scene[k].style.smoothing);
        assert_eq!(scene[k].style.anchor, Anchor::Center);
        assert_eq!(scene[k].layout.justify, Justify::Center);
        assert_eq!(scene[k].extent, None);
        assert_eq!(scene[k].parent, None);
        assert_eq!(scene[k], make_label(tags[k]));
    }
    for tag in tags {
        assert_eq!(scene.iter().filter(|o| o.channel == tag).count(), 1);
    }
    assert_eq!(scene.iter().filter(|o| o.channel == AnimationChannel::Untagged).count(), 9);
}

#[test]
fn scale_label_starts_on_the_right() {
    let scene = setup();
    assert_eq!(scene[0].transform, at(0, 0, 0));
    assert_eq!(scene[1].transform, at(0, 0, 0));
    assert_eq!(scene[2].transform, at(400_000_000, 0, 0));
}

#[test]
fn two_wrapping_groups() {
    let scene = setup();
    let size = Size { width: 300_000_000, height: 200_000_000 };

    assert_eq!(scene[3].text, None);
    assert_eq!(scene[3].style.color, Color::rgb(250_000, 250_000, 750_000));
    assert_eq!(scene[3].extent, Some(size));
    assert_eq!(scene[3].transform, at(0, -250_000_000, 0));
    assert_eq!(scene[3].parent, None);

    assert_eq!(
        scene[4].text.as_deref(),
        Some("this text wraps in teh box\n(Unicode linebreaks")
    );
    assert_eq!(scene[4].parent, Some(3));
    assert_eq!(scene[4].extent, Some(size));
    assert_eq!(scene[4].transform, at(0, 0, UNIT));
    assert_eq!(
        scene[4].layout,
        Layout { justify: Justify::Left, line_break: LineBreak::WordBoundary }
    );
    assert_eq!(scene[4].style.font_size, 35_000_000);

    assert_eq!(scene[5].text, None);
    assert_eq!(scene[5].style.color, Color::rgb(200_000, 300_000, 700_000));
    assert_eq!(scene[5].extent, Some(size));
    assert_eq!(scene[5].transform, at(320_000_000, -250_000_000, 0));
    assert_eq!(scene[5].parent, None);

    assert_eq!(
        scene[6].text.as_deref(),
        Some("this text wraps in teh box\n(AnyCharacter linebreaks)")
    );
    assert_eq!(scene[6].parent, Some(5));
    assert_eq!(scene[6].extent, Some(size));
    assert_eq!(scene[6].transform, at(0, 0, UNIT));
    assert_eq!(
        scene[6].layout,
        Layout { justify: Justify::Left, line_break: LineBreak::AnyCharacter }
    );
    assert_eq!(scene[6].style.font_size, NOTE_FONT_SIZE);
}

#[test]
fn unsmoothed_note_is_centred_and_untagged() {
    let scene = setup();
    assert_eq!(
        scene[7].text.as_deref(),
        Some("this text has\nFontSmoothing::None\nand JustifyText::Center")
    );
    assert!(!scene[7].style.smoothing);
    assert_eq!(scene[7].layout.justify, Justify::Center);
    assert_eq!(scene[7].transform, at(-400_000_000, -250_000_000, 0));
    assert_eq!(scene[7].style.font_size, 35_000_000);
    assert_eq!(scene[7].channel, AnimationChannel::Untagged);
    for (k, object) in scene.iter().enumerate() {
        assert_eq!(object.style.smoothing, k != 7);
    }
}

#[test]
fn four_corner_marks_share_one_point() {
    let scene = setup();
    let corners =
        [Anchor::TopLeft, Anchor::TopRight, Anchor::BottomRight, Anchor::BottomLeft];
    let words =
        [" Anchor::TopLeft ", " Anchor::TopRight ", " Anchor::BottomRight ", " Anchor::BottomLeft "];
    let colors = [
        Color::rgb(UNIT, 0, 0),
        Color::rgb(0, UNIT, 0),
        Color::rgb(0, 0, UNIT),
        Color::rgb(UNIT, UNIT, 0),
    ];
    for k in 0..4 {
        let mark = &scene[8 + k];
        assert_eq!(mark.text.as_deref(), Some(words[k]));
        assert_eq!(mark.style.anchor, corners[k]);
        assert_eq!(mark.style.color, colors[k]);
        assert_eq!(corner_color(corners[k]), colors[k]);
        assert_eq!(mark.transform, at(0, 250_000_000, 0));
        assert_eq!(mark.style.font_size, 35_000_000);
        assert_eq!(mark.channel, AnimationChannel::Untagged);
        assert_eq!(mark.parent, None);
        assert_eq!(mark.extent, None);
        assert_eq!(*mark, make_corner_mark(corners[k]));
    }
    for i in 0..4 {
        for j in 0..4 {
            if i != j {
                assert_ne!(scene[8 + i].style.anchor, scene[8 + j].style.anchor);
                assert_ne!(scene[8 + i].style.color, scene[8 + j].style.color);
            }
        }
    }
}

#[test]
fn centre_mark_is_white() {
    assert_eq!(corner_color(Anchor::Center), white());
    assert_eq!(make_corner_mark(Anchor::Center).text.as_deref(), Some(" Anchor::Center "));
}

#[test]
fn untagged_label_is_empty() {
    let label = make_label(AnimationChannel::Untagged);
    assert_eq!(label.text.as_deref(), Some(""));
    assert_eq!(label.channel, AnimationChannel::Untagged);
    assert_eq!(label.transform, at(0, 0, 0));
}

#[test]
fn every_parent_comes_first() {
    let scene = setup();
    for (k, object) in scene.iter().enumerate() {
        if let Some(parent) = object.parent {
            assert!(parent < k);
            assert_eq!(scene[parent].text, None);
        }
    }
}

#[test]
fn setup_is_the_same_each_time() {
    assert_eq!(setup(), setup());
}

#[test]
fn first_frame_of_the_scene() {
    let before = setup();
    let mut scene = before.clone();
    advance(&mut scene, Phase::new(0, UNIT).unwrap());
    assert_eq!(
        scene[0].transform.translation,
        Vec3 { x: -400_000_000, y: 100_000_000, z: 0 }
    );
    assert_eq!(scene[1].transform.rotation, 1_000_000);
    assert_eq!(scene[2].transform.scale, Vec3 { x: 2_200_000, y: 2_200_000, z: UNIT });
    assert_eq!(scene[2].transform.translation, Vec3 { x: 400_000_000, y: 0, z: 0 });
    assert_eq!(scene[3..], before[3..]);
}

#[test]
fn rest_of_the_scene_stays_through_many_frames() {
    let before = setup();
    let mut scene = before.clone();
    let mut sin = -UNIT;
    while sin <= UNIT {
        advance(&mut scene, Phase::new(sin, -sin).unwrap());
        assert_eq!(scene[3..], before[3..]);
        assert_eq!(scene.len(), 12);
        sin += 250_000;
    }
}
