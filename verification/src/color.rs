//! The outside value types that bars carry, and the fixed values of their
//! defaults.

use bevy::color::palettes::css;
use bevy::color::Color;
use bevy::math::Quat;
use vstd::prelude::*;

verus! {

/// `bevy::color::Color`, carried through from a bar's attributes to the
/// rectangles drawn for it. Nothing here looks inside a color.
#[verifier::external_type_specification]
#[verifier::external_body]
pub struct ExColor(Color);

/// `bevy::math::Quat`, held by a bar's orientation and never read.
#[verifier::external_type_specification]
#[verifier::external_body]
pub struct ExQuat(Quat);

/// The constant `Color::WHITE`. Nothing is claimed of it.
#[verifier::external_body]
pub(crate) fn white() -> Color {
    Color::WHITE
}

/// The constant `Color::BLACK`. Nothing is claimed of it.
#[verifier::external_body]
pub(crate) fn black() -> Color {
    Color::BLACK
}

/// `Color::from` applied to `palettes::css::DARK_GRAY`. Nothing is claimed
/// of the color that comes back.
#[verifier::external_body]
pub(crate) fn dark_gray() -> Color {
    Color::from(css::DARK_GRAY)
}

/// The constant `Quat::IDENTITY`. Nothing is claimed of it.
#[verifier::external_body]
pub(crate) fn identity_rotation() -> Quat {
    Quat::IDENTITY
}

} // verus!
