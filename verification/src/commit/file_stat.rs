//! The per-file change summary: status, rename/copy-aware names, the largest
//! line numbers its hunks reach, and the hunks themselves.

use crate::commit::delta::{Delta, DeltaV};
use crate::commit::status::Status;
use vstd::prelude::*;

verus! {

/// Mathematical model of a `FileStat`.
#[verifier::ext_equal]
pub struct FileStatV {
    pub status: Status,
    pub to_name: Seq<char>,
    pub from_name: Seq<char>,
    pub largest_old_line_number: u32,
    pub largest_new_line_number: u32,
    pub deltas: Seq<DeltaV>,
}

/// The largest old-side line number any of these hunks reaches
/// (`old_start + old_lines`, maximized; 0 with no hunks).
pub open spec fn spec_max_old(deltas: Seq<DeltaV>) -> int
    decreases deltas.len(),
{
    if deltas.len() == 0 {
        0
    } else {
        let m = spec_max_old(deltas.drop_last());
        let v = deltas.last().old_start + deltas.last().old_lines;
        if m < v {
            v
        } else {
            m
        }
    }
}

/// The largest new-side line number any of these hunks reaches.
pub open spec fn spec_max_new(deltas: Seq<DeltaV>) -> int
    decreases deltas.len(),
{
    if deltas.len() == 0 {
        0
    } else {
        let m = spec_max_new(deltas.drop_last());
        let v = deltas.last().new_start + deltas.last().new_lines;
        if m < v {
            v
        } else {
            m
        }
    }
}

/// A file statistic is well formed when its recorded largest line numbers are
/// exactly the maxima over its hunks' ranges.
pub open spec fn stat_wf(st: FileStatV) -> bool {
    &&& st.largest_old_line_number == spec_max_old(st.deltas)
    &&& st.largest_new_line_number == spec_max_new(st.deltas)
}

/// Represents a file change within the repository.
#[derive(Debug)]
pub struct FileStat {
    pub status: Status,
    pub to_name: String,
    pub from_name: String,
    pub largest_old_line_number: u32,
    pub largest_new_line_number: u32,
    pub deltas: Vec<Delta>,
}

impl View for FileStat {
    type V = FileStatV;

    open spec fn view(&self) -> FileStatV {
        FileStatV {
            status: self.status,
            to_name: self.to_name@,
            from_name: self.from_name@,
            largest_old_line_number: self.largest_old_line_number,
            largest_new_line_number: self.largest_new_line_number,
            deltas: self.deltas@.map_values(|d: Delta| d@),
        }
    }
}

impl FileStatV {
    /// The model of a fresh accumulator with the given names and status.
    pub open spec fn fresh(from_name: Seq<char>, to_name: Seq<char>, status: Status) -> FileStatV {
        FileStatV {
            status,
            to_name,
            from_name,
            largest_old_line_number: 0,
            largest_new_line_number: 0,
            deltas: Seq::empty(),
        }
    }

    /// The model of `add_delta`: append the hunk and raise the maxima.
    pub open spec fn with_delta(self, d: DeltaV) -> FileStatV {
        FileStatV {
            largest_old_line_number: if self.largest_old_line_number < d.old_start + d.old_lines {
                (d.old_start + d.old_lines) as u32
            } else {
                self.largest_old_line_number
            },
            largest_new_line_number: if self.largest_new_line_number < d.new_start + d.new_lines {
                (d.new_start + d.new_lines) as u32
            } else {
                self.largest_new_line_number
            },
            deltas: self.deltas.push(d),
            ..self
        }
    }
}

/// Appending a hunk keeps a statistic well formed: the new maxima are the
/// maxima over the extended hunk list.
pub proof fn lemma_with_delta_wf(st: FileStatV, d: DeltaV)
    requires
        stat_wf(st),
        d.old_start + d.old_lines <= u32::MAX,
        d.new_start + d.new_lines <= u32::MAX,
    ensures
        stat_wf(st.with_delta(d)),
{
    assert(st.deltas.push(d).drop_last() =~= st.deltas);
    assert(st.deltas.push(d).last() == d);
}

impl FileStat {
    /// Create a new FileStat.
    pub fn new(from_name: String, to_name: String, status: Status) -> (r: Self)
        ensures
            r@ == FileStatV::fresh(from_name@, to_name@, status),
            stat_wf(r@),
    {
        let r = FileStat {
            status,
            to_name,
            from_name,
            largest_old_line_number: 0,
            largest_new_line_number: 0,
            deltas: Vec::new(),
        };
        proof {
            assert(r@.deltas =~= Seq::<DeltaV>::empty());
        }
        r
    }

    /// Clear the accumulator for the next file: fresh names and status, no
    /// hunks, zero maxima.
    pub fn reset(&mut self, from_name: String, to_name: String, status: Status)
        ensures
            final(self)@ == FileStatV::fresh(from_name@, to_name@, status),
            stat_wf(final(self)@),
    {
        self.status = status;
        self.from_name = from_name;
        self.to_name = to_name;
        self.largest_old_line_number = 0;
        self.largest_new_line_number = 0;
        self.deltas = Vec::new();
        proof {
            assert(self@.deltas =~= Seq::<DeltaV>::empty());
        }
    }

    /// Copy an accumulator into an immutable snapshot.
    pub fn new_from_existing(existing: &Self) -> (r: Self)
        ensures
            r@ == existing@,
    {
        let mut deltas: Vec<Delta> = Vec::new();
        let mut i: usize = 0;
        while i < existing.deltas.len()
            invariant
                i <= existing.deltas.len(),
                deltas@.len() == i,
                forall|k: int| 0 <= k < i ==> (#[trigger] deltas@[k])@ == existing.deltas@[k]@,
            decreases existing.deltas.len() - i,
        {
            deltas.push(Delta::new_from_existing(&existing.deltas[i]));
            i = i + 1;
        }
        let r = FileStat {
            status: existing.status,
            to_name: existing.to_name.clone(),
            from_name: existing.from_name.clone(),
            largest_old_line_number: existing.largest_old_line_number,
            largest_new_line_number: existing.largest_new_line_number,
            deltas,
        };
        proof {
            assert(r@.deltas =~= existing@.deltas);
        }
        r
    }

    /// Append a snapshot of the hunk and raise the recorded maxima to cover
    /// its ranges.
    pub fn add_delta(&mut self, delta: &Delta)
        requires
            delta@.old_start + delta@.old_lines <= u32::MAX,
            delta@.new_start + delta@.new_lines <= u32::MAX,
        ensures
            final(self)@ == old(self)@.with_delta(delta@),
            stat_wf(old(self)@) ==> stat_wf(final(self)@),
    {
        let last_old_line_number = delta.old_start() + delta.old_lines();
        if self.largest_old_line_number < last_old_line_number {
            self.largest_old_line_number = last_old_line_number;
        }
        let last_new_line_number = delta.new_start() + delta.new_lines();
        if self.largest_new_line_number < last_new_line_number {
            self.largest_new_line_number = last_new_line_number;
        }
        let ghost prev = self.deltas@;
        self.deltas.push(Delta::new_from_existing(delta));
        proof {
            assert(self.deltas@.map_values(|d: Delta| d@) =~= prev.map_values(|d: Delta| d@).push(
                delta@,
            ));
            if stat_wf(old(self)@) {
                lemma_with_delta_wf(old(self)@, delta@);
            }
        }
    }

    /// Get the status of this file change.
    pub fn get_status(&self) -> (r: &Status)
        ensures
            *r == self@.status,
    {
        &self.status
    }

    /// Get the destination file name for this change.
    pub fn get_to_name(&self) -> (r: &String)
        ensures
            r@ == self@.to_name,
    {
        &self.to_name
    }

    /// Get the source file name for this change.
    pub fn get_from_name(&self) -> (r: &String)
        ensures
            r@ == self@.from_name,
    {
        &self.from_name
    }

    /// The largest old-side line number any hunk reaches.
    pub fn largest_old_line_number(&self) -> (r: u32)
        ensures
            r == self@.largest_old_line_number,
    {
        self.largest_old_line_number
    }

    /// The hunks of this file, in arrival order.
    pub fn deltas(&self) -> (r: &Vec<Delta>)
        ensures
            r@.map_values(|d: Delta| d@) == self@.deltas,
    {
        &self.deltas
    }

    /// The largest new-side line number any hunk reaches.
    pub fn largest_new_line_number(&self) -> (r: u32)
        ensures
            r == self@.largest_new_line_number,
    {
        self.largest_new_line_number
    }
}

} // verus!
