//! One terminal row: an ordered list of colored segments, measured in
//! grapheme units.

use crate::unicode::{count_graphemes, grapheme_count};
use crate::view::line_segment::{LineSegment, SegV};
use vstd::prelude::*;
use vstd::string::*;

verus! {

/// The whole text of a line: its segments' texts, concatenated.
pub open spec fn segs_text(segs: Seq<SegV>) -> Seq<char>
    decreases segs.len(),
{
    if segs.len() == 0 {
        Seq::empty()
    } else {
        segs_text(segs.drop_last()) + segs.last().text
    }
}

/// The models of a list of segments.
pub open spec fn seg_views(segs: Seq<LineSegment>) -> Seq<SegV> {
    segs.map_values(|s: LineSegment| s@)
}

/// The display length of a line: the grapheme count of its whole text.
pub open spec fn spec_line_length(segs: Seq<SegV>) -> nat {
    grapheme_count(segs_text(segs))
}

/// One rendered display line.
#[derive(Debug)]
pub struct ViewLine {
    pub segments: Vec<LineSegment>,
}

impl View for ViewLine {
    type V = Seq<SegV>;

    open spec fn view(&self) -> Seq<SegV> {
        seg_views(self.segments@)
    }
}

impl ViewLine {
    /// A line made of the given segments.
    pub fn new(segments: Vec<LineSegment>) -> (r: Self)
        ensures
            r@ == seg_views(segments@),
    {
        ViewLine { segments }
    }

    /// The line's segments, in order.
    pub fn get_segments(&self) -> (r: &Vec<LineSegment>)
        ensures
            seg_views(r@) == self@,
    {
        &self.segments
    }

    /// The line's display length in grapheme units.
    pub fn get_length(&self) -> (r: usize)
        ensures
            r == spec_line_length(self@),
    {
        let mut text = String::new();
        let mut i: usize = 0;
        proof {
            assert(text@ =~= segs_text(self@.take(0)));
        }
        while i < self.segments.len()
            invariant
                i <= self.segments.len(),
                self@.len() == self.segments.len(),
                text@ == segs_text(self@.take(i as int)),
            decreases self.segments.len() - i,
        {
            text.append(self.segments[i].text.as_str());
            proof {
                assert(self@.take(i + 1).drop_last() =~= self@.take(i as int));
                assert(self@.take(i + 1).last() == self@[i as int]);
                assert(self@[i as int].text == self.segments@[i as int]@.text);
            }
            i = i + 1;
        }
        proof {
            assert(self@.take(self.segments@.len() as int) =~= self@);
        }
        count_graphemes(text.as_str())
    }
}

} // verus!
