//! From a frame's snapshot of bars and subjects to the rectangles that draw
//! the bars.
//!
//! A bar is drawn as up to three rectangles, always in the order border,
//! background, fill, each one depth unit in front of the one before it. The
//! rectangles are measured in ticks, as places are, so that the fill
//! rectangle, whose width is a length times a stat value and whose centre is
//! half of such a product away from the anchor, is described without
//! rounding.

use crate::components::{
    Offset, StatBarBorder, StatBarColor, StatBarEmptyColor, StatBarPosition, StatBarSize,
    StatBarSubject, StatBarValue, StatBarZDepth, DEFAULT_BAR_Z_DEPTH, TICKS_PER_UNIT, VALUE_ONE,
};
use bevy::color::Color;
use std::collections::HashMap;
use vstd::prelude::*;

verus! {

broadcast use vstd::std_specs::hash::group_hash_axioms;

/// Whether a bar is to be drawn, as its owner set it.
#[derive(Clone, Copy, Debug, PartialEq, Eq, Structural)]
pub enum StatBarVisibility {
    Inherited,
    Hidden,
    Visible,
}

/// The stages of a frame in which this library has work to do.
#[derive(Clone, Copy, Debug, Hash, PartialEq, Eq)]
pub enum StatBarSystem {
    ExtractStatBars,
}

/// The attributes of one bar as a frame's snapshot holds them.
#[derive(Clone, Copy, Debug, PartialEq)]
pub struct BarSnapshot {
    pub color: StatBarColor,
    pub empty_color: Option<StatBarEmptyColor>,
    pub border: Option<StatBarBorder>,
    pub value: StatBarValue,
    pub size: StatBarSize,
    pub subject: StatBarSubject,
    pub position: Option<StatBarPosition>,
    pub z_depth: Option<StatBarZDepth>,
    pub visibility: Option<StatBarVisibility>,
}

/// One rectangle to draw. `center_x`, `center_y`, `width` and `height` are in
/// ticks, `depth` in depth units; `subject` is the entity the bar belongs to.
#[derive(Clone, Copy, Debug, PartialEq)]
pub struct ExtractedRect {
    pub subject: u64,
    pub center_x: i64,
    pub center_y: i64,
    pub depth: i64,
    pub width: i64,
    pub height: i64,
    pub color: Color,
}

impl BarSnapshot {
    /// The bar's displacement from its subject: none where it names none.
    pub open spec fn spec_position(self) -> Offset {
        match self.position {
            Some(position) => position.0,
            None => Offset { x: 0, y: 0 },
        }
    }

    /// The depth of the bar's fill: `DEFAULT_BAR_Z_DEPTH` where it names none.
    pub open spec fn spec_depth(self) -> int {
        match self.z_depth {
            Some(depth) => depth.0 as int,
            None => DEFAULT_BAR_Z_DEPTH as int,
        }
    }

    /// Where the bar is anchored, in ticks, for a subject at `translation`.
    pub open spec fn spec_anchor_x(self, translation: Offset) -> int {
        translation.x + self.spec_position().x
    }

    pub open spec fn spec_anchor_y(self, translation: Offset) -> int {
        translation.y + self.spec_position().y
    }

    /// The bar's stat value held to the range from empty to full.
    pub open spec fn spec_clamped_value(self) -> int {
        if self.value.0 < 0 {
            0
        } else if self.value.0 > VALUE_ONE {
            VALUE_ONE as int
        } else {
            self.value.0 as int
        }
    }

    /// The width of the fill in ticks: the clamped value times the full
    /// length, at two ticks to the thousandth of a layout unit.
    pub open spec fn spec_fill_width(self) -> int {
        2 * (self.spec_clamped_value() * self.size.full_length)
    }

    /// The centre of the fill in ticks. It lies half the full length times
    /// the value's distance from full away from the anchor, by the value as
    /// stored, not clamped: a thousandth of half a layout unit is one tick.
    pub open spec fn spec_fill_center_x(self, translation: Offset) -> int {
        self.spec_anchor_x(translation) + self.size.full_length * (self.value.0 - VALUE_ONE)
    }

    /// The border rectangle of a bar with border `border`: centred on the
    /// anchor, two depth units behind the fill, larger than the bar by the
    /// border's thickness along both axes.
    pub open spec fn spec_border_rect(self, border: StatBarBorder, translation: Offset) -> ExtractedRect {
        ExtractedRect {
            subject: self.subject.0,
            center_x: self.spec_anchor_x(translation) as i64,
            center_y: self.spec_anchor_y(translation) as i64,
            depth: (self.spec_depth() - 2) as i64,
            width: (TICKS_PER_UNIT * (self.size.full_length + border.thickness)) as i64,
            height: (TICKS_PER_UNIT * (self.size.thickness + border.thickness)) as i64,
            color: border.color,
        }
    }

    /// The background rectangle of a bar with background `empty_color`:
    /// centred on the anchor, one depth unit behind the fill, of the bar's
    /// own size.
    pub open spec fn spec_background_rect(
        self,
        empty_color: StatBarEmptyColor,
        translation: Offset,
    ) -> ExtractedRect {
        ExtractedRect {
            subject: self.subject.0,
            center_x: self.spec_anchor_x(translation) as i64,
            center_y: self.spec_anchor_y(translation) as i64,
            depth: (self.spec_depth() - 1) as i64,
            width: (TICKS_PER_UNIT * self.size.full_length) as i64,
            height: (TICKS_PER_UNIT * self.size.thickness) as i64,
            color: empty_color.0,
        }
    }

    /// The fill rectangle of a bar.
    pub open spec fn spec_fill_rect(self, translation: Offset) -> ExtractedRect {
        ExtractedRect {
            subject: self.subject.0,
            center_x: self.spec_fill_center_x(translation) as i64,
            center_y: self.spec_anchor_y(translation) as i64,
            depth: self.spec_depth() as i64,
            width: self.spec_fill_width() as i64,
            height: (TICKS_PER_UNIT * self.size.thickness) as i64,
            color: self.color.0,
        }
    }

    /// The border of the bar as a list: one rectangle where the bar has a
    /// border, none where it has not.
    pub open spec fn spec_border_layer(self, translation: Offset) -> Seq<ExtractedRect> {
        match self.border {
            Some(border) => seq![self.spec_border_rect(border, translation)],
            None => Seq::empty(),
        }
    }

    /// The background of the bar as a list, likewise.
    pub open spec fn spec_background_layer(self, translation: Offset) -> Seq<ExtractedRect> {
        match self.empty_color {
            Some(empty_color) => seq![self.spec_background_rect(empty_color, translation)],
            None => Seq::empty(),
        }
    }

    /// The fill of the bar as a list: one rectangle where the value is above
    /// zero, none otherwise.
    pub open spec fn spec_fill_layer(self, translation: Offset) -> Seq<ExtractedRect> {
        if self.value.0 > 0 {
            seq![self.spec_fill_rect(translation)]
        } else {
            Seq::empty()
        }
    }

    /// Whether the bar is set to hidden.
    pub open spec fn spec_hidden(self) -> bool {
        self.visibility == Some(StatBarVisibility::Hidden)
    }

    /// The rectangles drawn for the bar in a frame in which its subject is at
    /// `translation`, or has no place where that is `None`: nothing for a
    /// hidden bar or a subject without a place, else border, background and
    /// fill in this order.
    pub open spec fn spec_rects(self, translation: Option<Offset>) -> Seq<ExtractedRect> {
        match translation {
            Some(translation) if !self.spec_hidden() => self.spec_border_layer(translation)
                + self.spec_background_layer(translation) + self.spec_fill_layer(translation),
            _ => Seq::empty(),
        }
    }
}

/// Where a frame's snapshot places the subject `subject`, if anywhere.
pub open spec fn spec_translation(subjects: Map<u64, Offset>, subject: u64) -> Option<Offset> {
    if subjects.contains_key(subject) {
        Some(subjects[subject])
    } else {
        None
    }
}

/// The rectangles drawn for a list of bars: those of each bar, bar after bar.
pub open spec fn spec_extract(bars: Seq<BarSnapshot>, subjects: Map<u64, Offset>) -> Seq<
    ExtractedRect,
>
    decreases bars.len(),
{
    if bars.len() == 0 {
        Seq::empty()
    } else {
        spec_extract(bars.drop_last(), subjects) + bars.last().spec_rects(
            spec_translation(subjects, bars.last().subject.0),
        )
    }
}

impl ExtractedRect {
    /// Twice the x of the rectangle's left edge, in ticks: the doubled centre
    /// less the width.
    pub open spec fn spec_doubled_left_edge(self) -> int {
        2 * self.center_x - self.width
    }
}

/// A product of a clamped value and a length, and of a length and a value's
/// distance from full, stay far inside the range of ticks.
proof fn lemma_product_bounds(clamped: int, length: int, value: int)
    by (nonlinear_arith)
    requires
        0 <= clamped <= 1000,
        -0x8000_0000 <= length < 0x8000_0000,
        -0x8000_0000 <= value < 0x8000_0000,
    ensures
        -0x8000_0000 * 1000 <= clamped * length <= 0x8000_0000 * 1000,
        -0x8000_0000 * 0x8000_0400 <= length * (value - 1000) <= 0x8000_0000 * 0x8000_0400,
{
}

impl BarSnapshot {
    /// Appends to `extracted` the rectangles that draw this bar, for a
    /// subject at `translation`.
    pub fn extract(&self, extracted: &mut Vec<ExtractedRect>, translation: Option<Offset>)
        ensures
            final(extracted)@ == old(extracted)@ + self.spec_rects(translation),
    {
        if let Some(StatBarVisibility::Hidden) = self.visibility {
            return;
        }
        let position = match self.position {
            Some(StatBarPosition(p)) => p,
            None => Offset::zero(),
        };
        let z_depth: i64 = match self.z_depth {
            Some(StatBarZDepth(z)) => z as i64,
            None => DEFAULT_BAR_Z_DEPTH as i64,
        };
        if let Some(translation) = translation {
            let center_x: i64 = translation.x as i64 + position.x as i64;
            let center_y: i64 = translation.y as i64 + position.y as i64;
            let full_length: i64 = self.size.full_length as i64;
            let thickness: i64 = self.size.thickness as i64;
            let ghost start = extracted@;

            if let Some(border) = self.border {
                extracted.push(
                    ExtractedRect {
                        subject: self.subject.0,
                        center_x,
                        center_y,
                        depth: z_depth - 2,
                        width: TICKS_PER_UNIT * (full_length + border.thickness as i64),
                        height: TICKS_PER_UNIT * (thickness + border.thickness as i64),
                        color: border.color,
                    },
                );
            }

            if let Some(empty_color) = self.empty_color {
                extracted.push(
                    ExtractedRect {
                        subject: self.subject.0,
                        center_x,
                        center_y,
                        depth: z_depth - 1,
                        width: TICKS_PER_UNIT * full_length,
                        height: TICKS_PER_UNIT * thickness,
                        color: empty_color.0,
                    },
                );
            }

            let value: i64 = self.value.0 as i64;
            if 0 < value {
                let clamped_value: i64 = if value > VALUE_ONE as i64 {
                    VALUE_ONE as i64
                } else {
                    value
                };
                proof {
                    lemma_product_bounds(clamped_value as int, full_length as int, value as int);
                }
                let bar_width: i64 = 2 * (clamped_value * full_length);
                let bar_center_x: i64 = center_x + full_length * (value - VALUE_ONE as i64);
                extracted.push(
                    ExtractedRect {
                        subject: self.subject.0,
                        center_x: bar_center_x,
                        center_y,
                        depth: z_depth,
                        width: bar_width,
                        height: TICKS_PER_UNIT * thickness,
                        color: self.color.0,
                    },
                );
            }
            assert(extracted@ == start + (self.spec_border_layer(translation)
                + self.spec_background_layer(translation) + self.spec_fill_layer(translation)));
        }
    }
}

/// Appends to `extracted_sprites` the rectangles that draw the bars of
/// `status_bars`, bar after bar, each placed by where `subjects` has its
/// subject. A hidden bar, and one whose subject `subjects` does not place,
/// adds nothing.
pub fn extract_status_bars(
    extracted_sprites: &mut Vec<ExtractedRect>,
    subjects: &HashMap<u64, Offset>,
    status_bars: &Vec<BarSnapshot>,
)
    ensures
        final(extracted_sprites)@ == old(extracted_sprites)@ + spec_extract(
            status_bars@,
            subjects@,
        ),
{
    let ghost start = extracted_sprites@;
    let mut i: usize = 0;
    while i < status_bars.len()
        invariant
            i <= status_bars.len(),
            extracted_sprites@ == start + spec_extract(status_bars@.take(i as int), subjects@),
        decreases status_bars.len() - i,
    {
        let bar = &status_bars[i];
        let translation = match subjects.get(&bar.subject.0) {
            Some(translation) => Some(*translation),
            None => None,
        };
        assert(translation == spec_translation(subjects@, bar.subject.0));
        proof {
            let next = status_bars@.take(i + 1);
            assert(next.drop_last() == status_bars@.take(i as int));
            assert(next.last() == status_bars@[i as int]);
        }
        bar.extract(extracted_sprites, translation);
        i = i + 1;
    }
    assert(status_bars@.take(i as int) == status_bars@);
}

/// For a bar whose value lies above zero and at most at `VALUE_ONE`, the fill
/// rectangle is as wide as the value times the full length, as high as the
/// bar is thick, and its left edge lies half a full length left of the
/// anchor, whatever the value.
pub proof fn lemma_fill_keeps_left_edge(bar: BarSnapshot, translation: Offset)
    requires
        0 < bar.value.0 <= VALUE_ONE,
    ensures
        bar.spec_fill_layer(translation) == seq![bar.spec_fill_rect(translation)],
        !bar.spec_hidden() ==> bar.spec_rects(Some(translation)).last() == bar.spec_fill_rect(
            translation,
        ),
        bar.spec_fill_rect(translation).width * VALUE_ONE == TICKS_PER_UNIT * (bar.value.0
            * bar.size.full_length),
        bar.spec_fill_rect(translation).height == TICKS_PER_UNIT * bar.size.thickness,
        bar.spec_fill_rect(translation).spec_doubled_left_edge() == 2 * bar.spec_anchor_x(
            translation,
        ) - TICKS_PER_UNIT * bar.size.full_length,
{
    let value = bar.value.0 as int;
    let length = bar.size.full_length as int;
    lemma_product_bounds(value, length, value);
    assert(bar.spec_clamped_value() == value);
    assert(length * (value - 1000) == value * length - 1000 * length) by (nonlinear_arith);
    assert((2 * (value * length)) * 1000 == 2000 * (value * length));
}

/// A bar whose value is zero or less has no fill rectangle, and its border
/// and background are those of the same bar at any other value.
pub proof fn lemma_no_fill_without_value(
    bar: BarSnapshot,
    translation: Offset,
    other: StatBarValue,
)
    requires
        bar.value.0 <= 0,
    ensures
        bar.spec_fill_layer(translation) == Seq::<ExtractedRect>::empty(),
        !bar.spec_hidden() ==> bar.spec_rects(Some(translation)) == bar.spec_border_layer(
            translation,
        ) + bar.spec_background_layer(translation),
        bar.spec_border_layer(translation) == (BarSnapshot { value: other, ..bar }).spec_border_layer(
            translation,
        ),
        bar.spec_background_layer(translation) == (BarSnapshot {
            value: other,
            ..bar
        }).spec_background_layer(translation),
{
}

/// A bar is drawn as at most three rectangles, each in front of the one
/// before it: drawn in the order of the list, the fill ends up on top of the
/// background, and the background on top of the border.
pub proof fn lemma_layers_rise_in_depth(bar: BarSnapshot, translation: Option<Offset>)
    ensures
        bar.spec_rects(translation).len() <= 3,
        forall|i: int, j: int|
            0 <= i < j < bar.spec_rects(translation).len() ==> bar.spec_rects(translation)[i].depth
                < bar.spec_rects(translation)[j].depth,
{
}

/// Two extractions from the same bars and subjects, appended to the same
/// list, give the same list.
pub proof fn lemma_extraction_repeats(
    start: Seq<ExtractedRect>,
    bars: Seq<BarSnapshot>,
    subjects: Map<u64, Offset>,
    first: Seq<ExtractedRect>,
    second: Seq<ExtractedRect>,
)
    requires
        first == start + spec_extract(bars, subjects),
        second == start + spec_extract(bars, subjects),
    ensures
        first == second,
{
}

} // verus!
