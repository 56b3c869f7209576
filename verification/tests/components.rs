use bevy::color::palettes::css;
use bevy::color::Color;
use bevy::math::Quat;
use bevy_simple_stat_bars::components::{
    Offset, StatBarAlignment, StatBarBorder, StatBarColor, StatBarEmptyColor, StatBarOrientation,
    StatBarSize, StatBarValue, StatBarZDepth, TICKS_PER_UNIT, VALUE_ONE,
};

#[test]
fn default_border_is_dark_gray_and_two_thick() {
    let border = StatBarBorder::default();
    assert_eq!(border.color, Color::from(css::DARK_GRAY));
    assert_ne!(border.color, Color::BLACK);
    assert_eq!(border.thickness, 2);
}

#[test]
fn default_value_is_a_full_bar() {
    assert_eq!(StatBarValue::default(), StatBarValue(1000));
    assert_eq!(VALUE_ONE, 1000);
}

#[test]
fn default_colors_are_white_on_black() {
    assert_eq!(StatBarColor::default().0, Color::WHITE);
    assert_eq!(StatBarEmptyColor::default().0, Color::BLACK);
    assert_ne!(StatBarColor::default().0, StatBarEmptyColor::default().0);
}

#[test]
fn default_size_is_a_hundred_by_ten() {
    assert_eq!(StatBarSize::default(), StatBarSize { full_length: 100, thickness: 10 });
}

#[test]
fn default_depth_is_950() {
    assert_eq!(StatBarZDepth::default(), StatBarZDepth(950));
}

#[test]
fn default_alignment_is_the_middle() {
    assert_eq!(StatBarAlignment::default(), StatBarAlignment { x: 500, y: 500 });
}

#[test]
fn default_orientation_is_no_rotation() {
    assert_eq!(StatBarOrientation::default().quat, Quat::IDENTITY);
}

#[test]
fn zero_offset_is_zero() {
    assert_eq!(Offset::zero(), Offset { x: 0, y: 0 });
}

#[test]
fn a_unit_is_two_ticks_for_each_thousandth() {
    assert_eq!(TICKS_PER_UNIT, 2 * VALUE_ONE as i64);
}
