//! A small scene of text and rectangles, and the animator that moves it.
//!
//! The scene is an owned list of [`RenderObject`]s. Each object carries one
//! [`AnimationChannel`], which says whether a frame moves it on a circle,
//! swings it about the depth axis, makes it pulse, or leaves it alone. A frame
//! is driven by a [`Phase`]: the sine and cosine of the time that has passed.
//!
//! Every number is an integer count of millionths ([`UNIT`] of them make one),
//! so each formula is exact and each bound is proved.
pub mod units;
pub mod transform;
pub mod phase;
pub mod channel;
pub mod object;
pub mod animator;
pub mod scene;
pub mod laws;

pub use units::UNIT;
pub use transform::{Transform, Vec3};
pub use phase::Phase;
pub use channel::{rotation_at, scale_at, translation_at, AnimationChannel};
pub use object::{Anchor, Color, Justify, Layout, LineBreak, RenderObject, Size, Style};
pub use animator::{animate_rotation, animate_scale, animate_translation, tick};
pub use scene::setup;
