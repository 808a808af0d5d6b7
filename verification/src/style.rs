//! The read-only computed-style view a box consumes during paint: position
//! mode, absolute offsets, background color and border.  Style resolution
//! itself is an external collaborator; only its output slice is modeled here.

use crate::geometry::MAX_AU;
use vstd::prelude::*;

verus! {

/// An RGBA color; `alpha` is coverage from 0 (fully transparent) to 255 (opaque).
#[derive(Clone, Copy, PartialEq, Eq, Structural, Debug)]
pub struct Color {
    pub red: u8,
    pub green: u8,
    pub blue: u8,
    pub alpha: u8,
}

/// A fully opaque color.
pub fn rgb(red: u8, green: u8, blue: u8) -> (c: Color)
    ensures
        c == (Color { red, green, blue, alpha: 255u8 }),
{
    Color { red, green, blue, alpha: 255 }
}

pub fn rgba(red: u8, green: u8, blue: u8, alpha: u8) -> (c: Color)
    ensures
        c == (Color { red, green, blue, alpha }),
{
    Color { red, green, blue, alpha }
}

/// The CSS position mode of a box.
#[derive(Clone, Copy, PartialEq, Eq, Structural, Debug)]
pub enum CssPosition {
    PosStatic,
    PosAbsolute,
}

/// A resolved background-color value: a specified color, an explicit
/// `transparent`, or no value at all.  The latter two paint nothing.
#[derive(Clone, Copy, Debug)]
pub enum BackgroundColor {
    BgSpecified(Color),
    BgTransparent,
    BgUnspecified,
}

/// The computed style values box painting reads.  Lengths are in app units;
/// `None` stands for an unspecified value, which resolves to a documented
/// default rather than an error.
#[derive(Clone, Copy, Debug)]
pub struct ComputedStyle {
    pub position: CssPosition,
    pub left: Option<i64>,
    pub top: Option<i64>,
    pub background_color: BackgroundColor,
    pub border_width: Option<i64>,
    pub border_color: Option<Color>,
}

/// Machine bound on the lengths a style may carry, so that positioning and
/// border expansion stay inside `i64`.
pub open spec fn style_in_bounds(s: ComputedStyle) -> bool {
    &&& (s.left matches Some(x) ==> -MAX_AU <= x <= MAX_AU)
    &&& (s.top matches Some(y) ==> -MAX_AU <= y <= MAX_AU)
    &&& (s.border_width matches Some(w) ==> 0 <= w <= MAX_AU)
}

} // verus!
