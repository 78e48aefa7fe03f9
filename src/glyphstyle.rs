//! Latin typeface styles.
use vstd::prelude::*;
use crate::fonts::{small, REGULAR_MAX_HEIGHT};

verus! {

/// Style options for Latin script fonts.
#[derive(Copy, Clone, Debug, PartialEq, Eq, Structural)]
pub enum GlyphStyle {
    Small,
    Regular,
    Bold,
}

/// Style for a number passed through a register: 0, 1, 2 are Small, Regular,
/// Bold; any other number means Regular.
pub open spec fn style_of_code(code: usize) -> GlyphStyle {
    if code == 0 {
        GlyphStyle::Small
    } else if code == 2 {
        GlyphStyle::Bold
    } else {
        GlyphStyle::Regular
    }
}

/// Number of a style for register-based message passing.
pub open spec fn code_of_style(g: GlyphStyle) -> usize {
    match g {
        GlyphStyle::Small => 0,
        GlyphStyle::Regular => 1,
        GlyphStyle::Bold => 2,
    }
}

impl From<usize> for GlyphStyle {
    fn from(gs: usize) -> GlyphStyle {
        match gs {
            0 => GlyphStyle::Small,
            1 => GlyphStyle::Regular,
            2 => GlyphStyle::Bold,
            _ => GlyphStyle::Regular,
        }
    }
}

impl vstd::std_specs::convert::FromSpecImpl<usize> for GlyphStyle {
    open spec fn obeys_from_spec() -> bool {
        true
    }

    open spec fn from_spec(v: usize) -> GlyphStyle {
        style_of_code(v)
    }
}

impl From<GlyphStyle> for usize {
    fn from(g: GlyphStyle) -> usize {
        match g {
            GlyphStyle::Small => 0,
            GlyphStyle::Regular => 1,
            GlyphStyle::Bold => 2,
        }
    }
}

impl vstd::std_specs::convert::FromSpecImpl<GlyphStyle> for usize {
    open spec fn obeys_from_spec() -> bool {
        true
    }

    open spec fn from_spec(v: GlyphStyle) -> usize {
        code_of_style(v)
    }
}

/// Encoding a style as a number and decoding it gives the style back, and a
/// number outside the three codes decodes to Regular.
pub proof fn lemma_style_code_round_trip(g: GlyphStyle, n: usize)
    ensures
        style_of_code(code_of_style(g)) == g,
        n > 2 ==> style_of_code(n) == GlyphStyle::Regular,
{
}

/// Estimated line height of Latin text in the given style.
pub fn glyph_to_height_hint(g: GlyphStyle) -> (r: usize)
    ensures
        r == (match g {
            GlyphStyle::Small => small::MAX_HEIGHT as usize,
            _ => REGULAR_MAX_HEIGHT as usize,
        }),
{
    match g {
        GlyphStyle::Small => small::MAX_HEIGHT as usize,
        GlyphStyle::Regular => REGULAR_MAX_HEIGHT as usize,
        GlyphStyle::Bold => REGULAR_MAX_HEIGHT as usize,
    }
}

} // verus!
