use vstd::prelude::*;
use crate::color::Rgba;

verus! {

/// A two-dimensional vector of signed screen coordinates.
#[derive(Clone, Copy, Debug, PartialEq, Eq, Structural)]
pub struct Vec2i {
    pub x: i32,
    pub y: i32,
}

impl Vec2i {
    pub fn new(x: i32, y: i32) -> (v: Vec2i)
        ensures
            v == (Vec2i { x, y }),
    {
        Vec2i { x, y }
    }
}

/// A two-dimensional size in pixels.
#[derive(Clone, Copy, Debug, PartialEq, Eq, Structural)]
pub struct Vec2u {
    pub x: u32,
    pub y: u32,
}

impl Vec2u {
    pub fn new(x: u32, y: u32) -> (v: Vec2u)
        ensures
            v == (Vec2u { x, y }),
    {
        Vec2u { x, y }
    }
}

/// A sub-rectangle of a texture atlas: top-left corner and extent.
#[derive(Clone, Copy, Debug, PartialEq, Eq, Structural)]
pub struct SubRect {
    pub x: u32,
    pub y: u32,
    pub width: u32,
    pub height: u32,
}

/// Screen-space top-left anchor of an entity.
#[derive(Clone, Copy, Debug, PartialEq, Eq, Structural)]
pub struct Position {
    pub x: i32,
    pub y: i32,
}

/// Bounding box size used for hit-testing and outline/fill drawing.
#[derive(Clone, Copy, Debug, PartialEq, Eq, Structural)]
pub struct Rectangle {
    pub width: i32,
    pub height: i32,
}

/// Render gate of an entity: a manual visibility flag and a layer bitmask.
#[derive(Clone, Copy, Debug, PartialEq, Eq, Structural)]
pub struct Renderable {
    pub visible: bool,
    pub layer: u32,
}

impl Renderable {
    pub fn new(visible: bool, layer: u32) -> (r: Renderable)
        ensures
            r == (Renderable { visible, layer }),
    {
        Renderable { visible, layer }
    }
}

impl Default for Renderable {
    /// A fresh renderable is visible on layer zero.
    fn default() -> (r: Renderable)
        ensures
            r == (Renderable { visible: true, layer: 0u32 }),
    {
        Renderable { visible: true, layer: 0 }
    }
}

/// Fill or outline tint of an entity.
#[derive(Clone, Copy, Debug, PartialEq, Eq, Structural)]
pub struct Colored {
    pub color: Rgba,
}

/// A drawable texture reference, optionally restricted to a source sub-rect.
#[derive(Clone, Debug, PartialEq)]
pub struct Sprite {
    /// Name of the texture to render.
    pub name: String,
    /// Part of the texture to draw; `None` draws the full texture.
    pub source_rect: Option<SubRect>,
    /// On-screen size of the drawn sprite.
    pub size: Vec2u,
    pub visible: bool,
}

/// A text label drawn relative to the entity's position.
#[derive(Clone, Debug, PartialEq)]
pub struct Text {
    pub text: String,
    pub color: Rgba,
    pub visible: bool,
    /// Offset from the Position component applied when drawing.
    pub offset: Vec2i,
}

/// A straight-line movement of an entity between two locations.
#[derive(Clone, Copy, Debug, PartialEq, Eq, Structural)]
pub struct AnimationData {
    pub finished: bool,
    pub end_location: Vec2i,
    pub start_location: Vec2i,
    pub direction: Vec2i,
    pub animation_speed_modifier: i32,
}

/// The setting written into the shared settings store when this entity's
/// button is clicked.
#[derive(Clone, Debug, PartialEq)]
pub struct SettingsValue {
    pub name: String,
    pub value: i32,
}

/// Marks a label entity that mirrors the current value of a named setting.
#[derive(Clone, Debug, PartialEq)]
pub struct SettingsValueDisplay {
    pub name: String,
}

} // verus!
