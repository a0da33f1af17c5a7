//! One contiguous hunk of changed lines, with its header context and its
//! old/new ranges.

use crate::commit::diff_line::{DiffLine, DiffLineV};
use vstd::prelude::*;
use vstd::string::*;

verus! {

/// Mathematical model of a `Delta`.
#[verifier::ext_equal]
pub struct DeltaV {
    pub old_start: u32,
    pub old_lines: u32,
    pub new_start: u32,
    pub new_lines: u32,
    pub context: Seq<char>,
    pub lines: Seq<DiffLineV>,
}

impl DeltaV {
    /// The model of a freshly reset accumulator.
    pub open spec fn empty() -> DeltaV {
        DeltaV {
            old_start: 0,
            old_lines: 0,
            new_start: 0,
            new_lines: 0,
            context: Seq::empty(),
            lines: Seq::empty(),
        }
    }
}

/// One hunk of a file's diff.
#[derive(Debug)]
pub struct Delta {
    pub old_start: u32,
    pub old_lines: u32,
    pub new_start: u32,
    pub new_lines: u32,
    pub context: String,
    pub lines: Vec<DiffLine>,
}

impl View for Delta {
    type V = DeltaV;

    open spec fn view(&self) -> DeltaV {
        DeltaV {
            old_start: self.old_start,
            old_lines: self.old_lines,
            new_start: self.new_start,
            new_lines: self.new_lines,
            context: self.context@,
            lines: self.lines@.map_values(|l: DiffLine| l@),
        }
    }
}

impl Delta {
    /// An empty accumulator, before any hunk boundary has been seen.
    pub fn new() -> (r: Self)
        ensures
            r@ == DeltaV::empty(),
    {
        let r = Delta {
            old_start: 0,
            old_lines: 0,
            new_start: 0,
            new_lines: 0,
            context: String::new(),
            lines: Vec::new(),
        };
        proof {
            assert(r@.lines =~= Seq::<DiffLineV>::empty());
            assert(r@.context =~= Seq::<char>::empty());
        }
        r
    }

    /// Copy an accumulator into an immutable snapshot.
    pub fn new_from_existing(existing: &Self) -> (r: Self)
        ensures
            r@ == existing@,
    {
        let mut lines: Vec<DiffLine> = Vec::new();
        let mut i: usize = 0;
        while i < existing.lines.len()
            invariant
                i <= existing.lines.len(),
                lines@.len() == i,
                forall|k: int| 0 <= k < i ==> (#[trigger] lines@[k])@ == existing.lines@[k]@,
            decreases existing.lines.len() - i,
        {
            lines.push(DiffLine::new_from_existing(&existing.lines[i]));
            i = i + 1;
        }
        let r = Delta {
            old_start: existing.old_start,
            old_lines: existing.old_lines,
            new_start: existing.new_start,
            new_lines: existing.new_lines,
            context: existing.context.clone(),
            lines,
        };
        proof {
            assert(r@.lines =~= existing@.lines);
        }
        r
    }

    /// Clear the accumulator back to its empty state.
    pub fn reset(&mut self)
        ensures
            final(self)@ == DeltaV::empty(),
    {
        self.old_start = 0;
        self.old_lines = 0;
        self.new_start = 0;
        self.new_lines = 0;
        self.context = String::new();
        self.lines = Vec::new();
        proof {
            assert(self@.lines =~= Seq::<DiffLineV>::empty());
            assert(self@.context =~= Seq::<char>::empty());
        }
    }

    /// The hunk's trailing header annotation, already trimmed.
    pub fn context(&self) -> (r: &str)
        ensures
            r@ == self@.context,
    {
        self.context.as_str()
    }

    /// Record the ranges and header context of a fresh hunk; accumulated
    /// lines are untouched.
    pub fn set_context(
        &mut self,
        header: &str,
        old_start: u32,
        new_start: u32,
        old_lines: u32,
        new_lines: u32,
    )
        ensures
            final(self)@ == (DeltaV {
                old_start,
                old_lines,
                new_start,
                new_lines,
                context: header@,
                lines: old(self)@.lines,
            }),
    {
        self.old_start = old_start;
        self.new_start = new_start;
        self.old_lines = old_lines;
        self.new_lines = new_lines;
        self.context = String::from_str(header);
    }

    /// The hunk's lines, in arrival order.
    pub fn lines(&self) -> (r: &Vec<DiffLine>)
        ensures
            r@.map_values(|l: DiffLine| l@) == self@.lines,
    {
        &self.lines
    }

    /// Append one line; nothing already recorded moves.
    pub fn add_line(&mut self, diff_line: DiffLine)
        ensures
            final(self)@ == (DeltaV { lines: old(self)@.lines.push(diff_line@), ..old(self)@ }),
    {
        let ghost prev = self.lines@;
        self.lines.push(diff_line);
        proof {
            assert(self.lines@.map_values(|l: DiffLine| l@) =~= prev.map_values(|l: DiffLine| l@)
                .push(self.lines@.last()@));
        }
    }

    /// Start of the hunk's old-side range.
    pub fn old_start(&self) -> (r: u32)
        ensures
            r == self@.old_start,
    {
        self.old_start
    }

    /// Length of the hunk's old-side range.
    pub fn old_lines(&self) -> (r: u32)
        ensures
            r == self@.old_lines,
    {
        self.old_lines
    }

    /// Start of the hunk's new-side range.
    pub fn new_start(&self) -> (r: u32)
        ensures
            r == self@.new_start,
    {
        self.new_start
    }

    /// Length of the hunk's new-side range.
    pub fn new_lines(&self) -> (r: u32)
        ensures
            r == self@.new_lines,
    {
        self.new_lines
    }
}

} // verus!
