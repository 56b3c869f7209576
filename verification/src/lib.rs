//! Stat bars anchored to moving subjects: the rules that keep a bar's value in
//! step with its subject, remove bars whose subject is gone, and turn a bar's
//! attributes into the rectangles that draw it.
//!
//! Every scalar is a whole number. A bar's lengths count layout units, its
//! depth counts depth units, and stat values count thousandths of a full
//! bar. Places, and the rectangles that come out, are measured in ticks, a
//! unit fine enough that no product of a length and a value needs rounding.

pub mod bundles;
pub mod color;
pub mod components;
pub mod despawn;
pub mod observers;
pub mod prelude;
pub mod render;
