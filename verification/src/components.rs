//! The attributes a stat bar is made of.

use crate::color::{black, dark_gray, identity_rotation, white};
use bevy::color::Color;
use bevy::math::Quat;
use vstd::prelude::*;

verus! {

/// The stat value of a full bar: values count thousandths.
pub const VALUE_ONE: i32 = 1000;

/// The depth at which a bar is drawn when it names none.
pub const DEFAULT_BAR_Z_DEPTH: i32 = 950;

/// Ticks in one layout unit: twice `VALUE_ONE`, so that half of a length
/// times a stat value is a whole number of ticks.
pub const TICKS_PER_UNIT: i64 = 2000;

/// A place or a displacement in the plane, in ticks.
#[derive(Clone, Copy, Debug, PartialEq, Eq, Structural)]
pub struct Offset {
    pub x: i32,
    pub y: i32,
}

impl Offset {
    /// No displacement at all.
    pub fn zero() -> (offset: Offset)
        ensures
            offset == (Offset { x: 0, y: 0 }),
    {
        Offset { x: 0, y: 0 }
    }
}

/// The frame drawn around a bar, `thickness` layout units larger than the bar
/// along each axis.
#[derive(Clone, Copy, Debug, PartialEq)]
pub struct StatBarBorder {
    pub color: Color,
    pub thickness: i32,
}

impl Default for StatBarBorder {
    /// A dark gray border two units thick.
    fn default() -> (border: Self)
        ensures
            border.thickness == 2,
    {
        StatBarBorder { color: dark_gray(), thickness: 2 }
    }
}

/// The rotation of a bar. No rule reads it yet.
#[derive(Clone, Copy, Debug, PartialEq)]
pub struct StatBarOrientation {
    pub quat: Quat,
}

impl Default for StatBarOrientation {
    /// No rotation.
    fn default() -> (orientation: Self) {
        StatBarOrientation { quat: identity_rotation() }
    }
}

/// How full a bar is, in thousandths of a full bar. The value is stored as
/// given: it may be negative or exceed `VALUE_ONE`.
#[derive(Clone, Copy, Debug, PartialEq, Eq, Structural)]
pub struct StatBarValue(pub i32);

impl Default for StatBarValue {
    /// A full bar.
    fn default() -> (value: Self)
        ensures
            value == StatBarValue(VALUE_ONE),
    {
        StatBarValue(VALUE_ONE)
    }
}

/// The color of the filled part of a bar.
#[derive(Clone, Copy, Debug, PartialEq)]
pub struct StatBarColor(pub Color);

impl Default for StatBarColor {
    /// White.
    fn default() -> (color: Self) {
        StatBarColor(white())
    }
}

/// The point of a bar that sits on its anchor, as thousandths of the bar's
/// extent along each axis. No rule reads it yet.
#[derive(Clone, Copy, Debug, PartialEq, Eq, Structural)]
pub struct StatBarAlignment {
    pub x: i32,
    pub y: i32,
}

impl Default for StatBarAlignment {
    /// The middle of the bar.
    fn default() -> (alignment: Self)
        ensures
            alignment == (StatBarAlignment { x: 500, y: 500 }),
    {
        StatBarAlignment { x: VALUE_ONE / 2, y: VALUE_ONE / 2 }
    }
}

/// The extent of a bar in layout units: `full_length` along the axis that
/// fills, `thickness` across it.
#[derive(Clone, Copy, Debug, PartialEq, Eq, Structural)]
pub struct StatBarSize {
    pub full_length: i32,
    pub thickness: i32,
}

impl Default for StatBarSize {
    /// A hundred units long and ten thick.
    fn default() -> (size: Self)
        ensures
            size == (StatBarSize { full_length: 100, thickness: 10 }),
    {
        StatBarSize { full_length: 100, thickness: 10 }
    }
}

/// The depth at which the filled part of a bar is drawn.
#[derive(Clone, Copy, Debug, PartialEq, Eq, Structural)]
pub struct StatBarZDepth(pub i32);

impl Default for StatBarZDepth {
    /// `DEFAULT_BAR_Z_DEPTH`.
    fn default() -> (depth: Self)
        ensures
            depth == StatBarZDepth(DEFAULT_BAR_Z_DEPTH),
    {
        StatBarZDepth(DEFAULT_BAR_Z_DEPTH)
    }
}

/// The color behind the filled part of a bar.
#[derive(Clone, Copy, Debug, PartialEq)]
pub struct StatBarEmptyColor(pub Color);

impl Default for StatBarEmptyColor {
    /// Black.
    fn default() -> (color: Self) {
        StatBarEmptyColor(black())
    }
}

/// The entity a bar belongs to, by its identifier in the entity store.
#[derive(Clone, Copy, Debug, PartialEq, Eq, Structural)]
pub struct StatBarSubject(pub u64);

/// Where a bar sits relative to its subject, in ticks.
#[derive(Clone, Copy, Debug, PartialEq, Eq, Structural)]
pub struct StatBarPosition(pub Offset);

} // verus!
