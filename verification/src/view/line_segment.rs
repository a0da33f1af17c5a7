//! One colored run of text within a display line.

use crate::display::display_color::DisplayColor;
use vstd::prelude::*;
use vstd::string::*;

verus! {

/// Mathematical model of a `LineSegment`.
#[verifier::ext_equal]
pub struct SegV {
    pub text: Seq<char>,
    pub color: DisplayColor,
}

/// A run of text painted in one color.
#[derive(Debug)]
pub struct LineSegment {
    pub text: String,
    pub color: DisplayColor,
}

impl View for LineSegment {
    type V = SegV;

    open spec fn view(&self) -> SegV {
        SegV { text: self.text@, color: self.color }
    }
}

impl LineSegment {
    /// A segment in the normal color.
    pub fn new(text: &str) -> (r: Self)
        ensures
            r@ == (SegV { text: text@, color: DisplayColor::Normal }),
    {
        LineSegment { text: String::from_str(text), color: DisplayColor::Normal }
    }

    /// A segment in the given color.
    pub fn new_with_color(text: &str, color: DisplayColor) -> (r: Self)
        ensures
            r@ == (SegV { text: text@, color }),
    {
        LineSegment { text: String::from_str(text), color }
    }

    /// The segment's text.
    pub fn get_content(&self) -> (r: &str)
        ensures
            r@ == self@.text,
    {
        self.text.as_str()
    }

    /// The segment's color.
    pub fn get_color(&self) -> (r: DisplayColor)
        ensures
            r == self@.color,
    {
        self.color
    }
}

} // verus!
