//! The sets of attributes a bar is created with.

use crate::components::{
    StatBarBorder, StatBarColor, StatBarEmptyColor, StatBarPosition, StatBarSize, StatBarSubject,
    StatBarValue,
};
use crate::render::BarSnapshot;
use vstd::prelude::*;

verus! {

/// The attributes that every stat bar needs.
#[derive(Clone, Copy, Debug, PartialEq)]
pub struct StatBarRequiredBundle {
    pub color: StatBarColor,
    pub value: StatBarValue,
    pub size: StatBarSize,
    pub subject: StatBarSubject,
}

/// The attributes of a bar with a background, a border and a place of its
/// own.
#[derive(Clone, Copy, Debug, PartialEq)]
pub struct StatBarBundle {
    pub color: StatBarColor,
    pub empty_color: StatBarEmptyColor,
    pub border: StatBarBorder,
    pub value: StatBarValue,
    pub size: StatBarSize,
    pub subject: StatBarSubject,
    pub position: StatBarPosition,
}

impl StatBarRequiredBundle {
    /// The bar as a frame's snapshot holds it right after its creation:
    /// without border or background, on its subject, at the default depth,
    /// its visibility left open.
    pub fn snapshot(&self) -> (bar: BarSnapshot)
        ensures
            bar == (BarSnapshot {
                color: self.color,
                empty_color: None,
                border: None,
                value: self.value,
                size: self.size,
                subject: self.subject,
                position: None,
                z_depth: None,
                visibility: None,
            }),
    {
        BarSnapshot {
            color: self.color,
            empty_color: None,
            border: None,
            value: self.value,
            size: self.size,
            subject: self.subject,
            position: None,
            z_depth: None,
            visibility: None,
        }
    }
}

impl StatBarBundle {
    /// The bar as a frame's snapshot holds it right after its creation: at
    /// the default depth, its visibility left open.
    pub fn snapshot(&self) -> (bar: BarSnapshot)
        ensures
            bar == (BarSnapshot {
                color: self.color,
                empty_color: Some(self.empty_color),
                border: Some(self.border),
                value: self.value,
                size: self.size,
                subject: self.subject,
                position: Some(self.position),
                z_depth: None,
                visibility: None,
            }),
    {
        BarSnapshot {
            color: self.color,
            empty_color: Some(self.empty_color),
            border: Some(self.border),
            value: self.value,
            size: self.size,
            subject: self.subject,
            position: Some(self.position),
            z_depth: None,
            visibility: None,
        }
    }
}

} // verus!
