//! The names most callers need, in one place.

pub use crate::bundles::{StatBarBundle, StatBarRequiredBundle};
pub use crate::components::{
    Offset, StatBarAlignment, StatBarBorder, StatBarColor, StatBarEmptyColor, StatBarOrientation,
    StatBarPosition, StatBarSize, StatBarSubject, StatBarValue, StatBarZDepth,
    DEFAULT_BAR_Z_DEPTH, TICKS_PER_UNIT, VALUE_ONE,
};
pub use crate::observers::component_observer;
