//! The builder state machine that folds the diff walk's flat event stream —
//! file boundaries, hunk boundaries, lines — into finished per-file
//! statistics, and the assembly of a loaded commit.

use crate::commit::delta::{Delta, DeltaV};
use crate::commit::diff_line::{
    is_eof_marker, is_origin_char, spec_origin_of_char, DiffLine, DiffLineV, Origin,
};
use crate::commit::file_stat::{lemma_with_delta_wf, stat_wf, FileStat, FileStatV};
use crate::commit::status::{spec_status_of_kind, ChangeKind, Status};
use crate::commit::user::{User, UserV};
use crate::commit::{spec_stats_view, Commit, CommitV};
use crate::strutil::{after_last_at, spec_after_last_at, spec_trim, trim_str};
use vstd::prelude::*;

verus! {

/// One event of the diff walk, as the engine delivers it.
pub enum DiffEvent {
    File { old_path: Seq<char>, new_path: Seq<char>, kind: ChangeKind },
    Hunk { header: Seq<char>, old_start: u32, old_lines: u32, new_start: u32, new_lines: u32 },
    Line { origin: char, content: Seq<char>, old_line: Option<u32>, new_line: Option<u32> },
}

/// What the machine accepts of one event: hunk ranges that fit, and a line
/// origin marker from one of the two marker sets.
pub open spec fn event_wf(e: DiffEvent) -> bool {
    match e {
        DiffEvent::File { .. } => true,
        DiffEvent::Hunk { old_start, old_lines, new_start, new_lines, .. } => old_start + old_lines
            <= u32::MAX && new_start + new_lines <= u32::MAX,
        DiffEvent::Line { origin, .. } => is_origin_char(origin),
    }
}

pub open spec fn events_wf(events: Seq<DiffEvent>) -> bool {
    forall|i: int| 0 <= i < events.len() ==> event_wf(#[trigger] events[i])
}

/// The fold's whole state: finished statistics plus the two accumulators.
#[verifier::ext_equal]
pub struct FoldState {
    pub stats: Seq<FileStatV>,
    pub cur_stat: FileStatV,
    pub cur_delta: DeltaV,
    pub delta_recorded: bool,
    pub started: bool,
}

/// The state before any event: empty accumulators, nothing produced.
pub open spec fn initial_fold_state() -> FoldState {
    FoldState {
        stats: Seq::empty(),
        cur_stat: FileStatV::fresh(Seq::empty(), Seq::empty(), Status::Other),
        cur_delta: DeltaV::empty(),
        delta_recorded: false,
        started: false,
    }
}

/// The current statistic with any recorded hunk finalized into it.
pub open spec fn finalized_stat(s: FoldState) -> FileStatV {
    if s.delta_recorded {
        s.cur_stat.with_delta(s.cur_delta)
    } else {
        s.cur_stat
    }
}

/// The context string a hunk header carries: the part after its last `@`
/// marker, trimmed of surrounding whitespace.
pub open spec fn spec_hunk_context(header: Seq<char>) -> Seq<char> {
    spec_trim(spec_after_last_at(header))
}

/// The diff line a line event records.
pub open spec fn spec_line_of_event(
    origin: char,
    content: Seq<char>,
    old_line: Option<u32>,
    new_line: Option<u32>,
) -> DiffLineV {
    DiffLineV {
        end_of_file: is_eof_marker(origin),
        line: content,
        new_line_number: new_line,
        old_line_number: old_line,
        origin: spec_origin_of_char(origin),
    }
}

/// One step of the fold. An unmodified file is ignored entirely; any other
/// file boundary finalizes and appends the current statistic and starts a
/// fresh one; a hunk boundary finalizes the recorded hunk and starts a fresh
/// one; a line is appended to the current hunk.
pub open spec fn fold_step(s: FoldState, e: DiffEvent) -> FoldState {
    match e {
        DiffEvent::File { old_path, new_path, kind } => {
            if kind == ChangeKind::Unmodified {
                s
            } else {
                FoldState {
                    stats: if s.started {
                        s.stats.push(finalized_stat(s))
                    } else {
                        s.stats
                    },
                    cur_stat: FileStatV::fresh(old_path, new_path, spec_status_of_kind(kind)),
                    cur_delta: DeltaV::empty(),
                    delta_recorded: false,
                    started: true,
                }
            }
        },
        DiffEvent::Hunk { header, old_start, old_lines, new_start, new_lines } => {
            FoldState {
                stats: s.stats,
                cur_stat: finalized_stat(s),
                cur_delta: DeltaV {
                    old_start,
                    old_lines,
                    new_start,
                    new_lines,
                    context: spec_hunk_context(header),
                    lines: Seq::empty(),
                },
                delta_recorded: true,
                started: s.started,
            }
        },
        DiffEvent::Line { origin, content, old_line, new_line } => {
            FoldState {
                cur_delta: DeltaV {
                    lines: s.cur_delta.lines.push(
                        spec_line_of_event(origin, content, old_line, new_line),
                    ),
                    ..s.cur_delta
                },
                ..s
            }
        },
    }
}

/// The fold of a whole event sequence from the initial state.
pub open spec fn fold_events(events: Seq<DiffEvent>) -> FoldState
    decreases events.len(),
{
    if events.len() == 0 {
        initial_fold_state()
    } else {
        fold_step(fold_events(events.drop_last()), events.last())
    }
}

/// The statistics a finished walk yields: the stream's end finalizes the last
/// hunk and appends the last statistic; the initial empty accumulator is
/// never appended.
pub open spec fn finish_stats(s: FoldState) -> Seq<FileStatV> {
    if s.started {
        s.stats.push(finalized_stat(s))
    } else {
        s.stats
    }
}

pub proof fn lemma_fold_push(events: Seq<DiffEvent>, e: DiffEvent)
    ensures
        fold_events(events.push(e)) == fold_step(fold_events(events), e),
{
    assert(events.push(e).drop_last() =~= events);
    assert(events.push(e).last() == e);
}

/// Over a well-formed event stream, the current hunk's ranges always fit.
pub proof fn lemma_fold_delta_bounds(events: Seq<DiffEvent>)
    requires
        events_wf(events),
    ensures
        fold_events(events).cur_delta.old_start + fold_events(events).cur_delta.old_lines
            <= u32::MAX,
        fold_events(events).cur_delta.new_start + fold_events(events).cur_delta.new_lines
            <= u32::MAX,
    decreases events.len(),
{
    if events.len() > 0 {
        assert(events_wf(events.drop_last())) by {
            assert(forall|i: int|
                0 <= i < events.len() - 1 ==> events.drop_last()[i] == events[i]);
        }
        lemma_fold_delta_bounds(events.drop_last());
        assert(event_wf(events[events.len() - 1]));
    }
}

/// Every statistic the fold has produced — and the current accumulator —
/// records as its largest line numbers exactly the maxima over its hunks.
pub proof fn lemma_fold_stats_wf(events: Seq<DiffEvent>)
    requires
        events_wf(events),
    ensures
        forall|j: int|
            0 <= j < fold_events(events).stats.len() ==> stat_wf(
                #[trigger] fold_events(events).stats[j],
            ),
        stat_wf(fold_events(events).cur_stat),
    decreases events.len(),
{
    if events.len() == 0 {
        assert(stat_wf(initial_fold_state().cur_stat));
    } else {
        let prefix = events.drop_last();
        let e = events.last();
        assert(events_wf(prefix)) by {
            assert(forall|i: int| 0 <= i < prefix.len() ==> prefix[i] == events[i]);
        }
        lemma_fold_stats_wf(prefix);
        lemma_fold_delta_bounds(prefix);
        let s = fold_events(prefix);
        if s.delta_recorded {
            lemma_with_delta_wf(s.cur_stat, s.cur_delta);
        }
        match e {
            DiffEvent::File { old_path, new_path, kind } => {
                if kind != ChangeKind::Unmodified {
                    assert(stat_wf(
                        FileStatV::fresh(old_path, new_path, spec_status_of_kind(kind)),
                    ));
                }
            },
            DiffEvent::Hunk { .. } => {},
            DiffEvent::Line { .. } => {},
        }
    }
}

/// Law: for a walk over well-formed events, every produced statistic's
/// recorded largest old- and new-side line numbers are exactly the maxima
/// over its hunks of range start plus range length.
pub proof fn lemma_finish_stats_wf(events: Seq<DiffEvent>)
    requires
        events_wf(events),
    ensures
        forall|j: int|
            0 <= j < finish_stats(fold_events(events)).len() ==> stat_wf(
                #[trigger] finish_stats(fold_events(events))[j],
            ),
{
    lemma_fold_stats_wf(events);
    lemma_fold_delta_bounds(events);
    let s = fold_events(events);
    if s.delta_recorded {
        lemma_with_delta_wf(s.cur_stat, s.cur_delta);
    }
}

/// A statistic whose names and status some file-boundary event with a change
/// kind other than unmodified supplied.
pub open spec fn stat_originates(st: FileStatV, events: Seq<DiffEvent>) -> bool {
    exists|i: int|
        0 <= i < events.len() && match #[trigger] events[i] {
            DiffEvent::File { old_path, new_path, kind } => kind != ChangeKind::Unmodified
                && st.from_name == old_path && st.to_name == new_path && st.status
                == spec_status_of_kind(kind),
            _ => false,
        }
}

proof fn lemma_originates_extend(st: FileStatV, events: Seq<DiffEvent>, e: DiffEvent)
    requires
        stat_originates(st, events),
    ensures
        stat_originates(st, events.push(e)),
{
    let i = choose|i: int|
        0 <= i < events.len() && match #[trigger] events[i] {
            DiffEvent::File { old_path, new_path, kind } => kind != ChangeKind::Unmodified
                && st.from_name == old_path && st.to_name == new_path && st.status
                == spec_status_of_kind(kind),
            _ => false,
        };
    assert(events.push(e)[i] == events[i]);
}

proof fn lemma_fold_stats_originate(events: Seq<DiffEvent>)
    ensures
        forall|j: int|
            0 <= j < fold_events(events).stats.len() ==> stat_originates(
                #[trigger] fold_events(events).stats[j],
                events,
            ),
        fold_events(events).started ==> stat_originates(fold_events(events).cur_stat, events),
    decreases events.len(),
{
    if events.len() > 0 {
        let prefix = events.drop_last();
        let e = events.last();
        lemma_fold_stats_originate(prefix);
        let s = fold_events(prefix);
        assert(prefix.push(e) =~= events);
        assert forall|j: int| 0 <= j < s.stats.len() implies stat_originates(
            s.stats[j],
            events,
        ) by {
            lemma_originates_extend(s.stats[j], prefix, e);
        }
        if s.started {
            lemma_originates_extend(s.cur_stat, prefix, e);
            assert(stat_originates(finalized_stat(s), events)) by {
                assert(finalized_stat(s).from_name == s.cur_stat.from_name);
                assert(finalized_stat(s).to_name == s.cur_stat.to_name);
                assert(finalized_stat(s).status == s.cur_stat.status);
            }
        }
        match e {
            DiffEvent::File { old_path, new_path, kind } => {
                if kind != ChangeKind::Unmodified {
                    let st = FileStatV::fresh(old_path, new_path, spec_status_of_kind(kind));
                    assert(events[events.len() - 1] == e);
                    assert(stat_originates(st, events));
                }
            },
            DiffEvent::Hunk { .. } => {},
            DiffEvent::Line { .. } => {},
        }
    }
}

/// Law: the statistic list of a finished walk holds no leftover placeholder
/// and no unmodified entry: every element took its names and status from some
/// file-boundary event whose change kind was not unmodified.
pub proof fn lemma_no_placeholder(events: Seq<DiffEvent>)
    ensures
        forall|j: int|
            0 <= j < finish_stats(fold_events(events)).len() ==> stat_originates(
                #[trigger] finish_stats(fold_events(events))[j],
                events,
            ),
{
    lemma_fold_stats_originate(events);
    let s = fold_events(events);
    if s.started {
        assert(finalized_stat(s).from_name == s.cur_stat.from_name);
        assert(finalized_stat(s).to_name == s.cur_stat.to_name);
        assert(finalized_stat(s).status == s.cur_stat.status);
    }
}

/// Law: a line event only appends: the current hunk keeps its lines in
/// arrival order and gains the new line at the end, and nothing already
/// produced changes.
pub proof fn lemma_line_event_appends(
    events: Seq<DiffEvent>,
    origin: char,
    content: Seq<char>,
    old_line: Option<u32>,
    new_line: Option<u32>,
)
    ensures
        fold_events(
            events.push(DiffEvent::Line { origin, content, old_line, new_line }),
        ).cur_delta.lines == fold_events(events).cur_delta.lines.push(
            spec_line_of_event(origin, content, old_line, new_line),
        ),
        fold_events(events.push(DiffEvent::Line { origin, content, old_line, new_line })).stats
            == fold_events(events).stats,
        fold_events(
            events.push(DiffEvent::Line { origin, content, old_line, new_line }),
        ).cur_stat.deltas == fold_events(events).cur_stat.deltas,
{
    lemma_fold_push(events, DiffEvent::Line { origin, content, old_line, new_line });
}

/// Law: a hunk event never reorders: produced statistics stay as they are,
/// and the current file's hunk list either stays or gains the finalized hunk
/// at its end.
pub proof fn lemma_hunk_event_appends(
    events: Seq<DiffEvent>,
    header: Seq<char>,
    old_start: u32,
    old_lines: u32,
    new_start: u32,
    new_lines: u32,
)
    ensures
        fold_events(
            events.push(DiffEvent::Hunk { header, old_start, old_lines, new_start, new_lines }),
        ).stats == fold_events(events).stats,
        fold_events(
            events.push(DiffEvent::Hunk { header, old_start, old_lines, new_start, new_lines }),
        ).cur_stat.deltas == if fold_events(events).delta_recorded {
            fold_events(events).cur_stat.deltas.push(fold_events(events).cur_delta)
        } else {
            fold_events(events).cur_stat.deltas
        },
{
    lemma_fold_push(
        events,
        DiffEvent::Hunk { header, old_start, old_lines, new_start, new_lines },
    );
}

/// Law: a file event preserves every already-produced statistic: the new list
/// is the old one, extended by at most the finished statistic at its end (and
/// an unmodified entry changes nothing at all).
pub proof fn lemma_file_event_appends(
    events: Seq<DiffEvent>,
    old_path: Seq<char>,
    new_path: Seq<char>,
    kind: ChangeKind,
)
    ensures
        kind == ChangeKind::Unmodified ==> fold_events(
            events.push(DiffEvent::File { old_path, new_path, kind }),
        ) == fold_events(events),
        kind != ChangeKind::Unmodified ==> fold_events(
            events.push(DiffEvent::File { old_path, new_path, kind }),
        ).stats == if fold_events(events).started {
            fold_events(events).stats.push(finalized_stat(fold_events(events)))
        } else {
            fold_events(events).stats
        },
{
    lemma_fold_push(events, DiffEvent::File { old_path, new_path, kind });
}

/// Folds the flat event stream of one diff walk. The walk is flat — file and
/// hunk boundaries arrive out of band — so one mutable accumulator per
/// nesting level collects entities until the next boundary finishes them.
pub struct CommitDiffBuilder {
    pub stats: Vec<FileStat>,
    pub current_stat: FileStat,
    pub current_delta: Delta,
    pub delta_recorded: bool,
    pub started: bool,
    pub events: Ghost<Seq<DiffEvent>>,
}

impl CommitDiffBuilder {
    /// The fold state this builder's fields spell.
    pub open spec fn model(self) -> FoldState {
        FoldState {
            stats: self.stats@.map_values(|f: FileStat| f@),
            cur_stat: self.current_stat@,
            cur_delta: self.current_delta@,
            delta_recorded: self.delta_recorded,
            started: self.started,
        }
    }

    /// The builder is exactly the fold of the events it has seen.
    pub open spec fn wf(self) -> bool {
        &&& events_wf(self.events@)
        &&& self.model() == fold_events(self.events@)
    }

    /// A builder that has seen no event.
    pub fn new() -> (r: Self)
        ensures
            r.wf(),
            r.events@ == Seq::<DiffEvent>::empty(),
    {
        let r = CommitDiffBuilder {
            stats: Vec::new(),
            current_stat: FileStat::new(String::new(), String::new(), Status::Other),
            current_delta: Delta::new(),
            delta_recorded: false,
            started: false,
            events: Ghost(Seq::empty()),
        };
        proof {
            assert(r.stats@.map_values(|f: FileStat| f@) =~= Seq::<FileStatV>::empty());
            assert(r.model() =~~= initial_fold_state());
        }
        r
    }

    /// Record a file-boundary event. An unmodified entry is ignored whole;
    /// any other finalizes the current hunk into the current statistic,
    /// appends that statistic once a first file has been seen, and resets
    /// both accumulators for the new file.
    pub fn process_file(&mut self, old_path: String, new_path: String, kind: ChangeKind)
        requires
            old(self).wf(),
        ensures
            final(self).wf(),
            final(self).events@ == old(self).events@.push(
                DiffEvent::File { old_path: old_path@, new_path: new_path@, kind },
            ),
    {
        let ghost e = DiffEvent::File { old_path: old_path@, new_path: new_path@, kind };
        let ghost prev_events = self.events@;
        proof {
            lemma_fold_push(prev_events, e);
        }
        if kind == ChangeKind::Unmodified {
            self.events = Ghost(prev_events.push(e));
            return ;
        }
        if self.delta_recorded {
            proof {
                lemma_fold_delta_bounds(prev_events);
            }
            self.current_stat.add_delta(&self.current_delta);
        }
        if self.started {
            let ghost prev_stats = self.stats@;
            self.stats.push(FileStat::new_from_existing(&self.current_stat));
            proof {
                assert(self.stats@.map_values(|f: FileStat| f@) =~= prev_stats.map_values(
                    |f: FileStat| f@,
                ).push(self.current_stat@));
            }
        }
        self.current_stat.reset(old_path, new_path, Status::from_change_kind(kind));
        self.current_delta.reset();
        self.delta_recorded = false;
        self.started = true;
        self.events = Ghost(prev_events.push(e));
        proof {
            assert(self.model() =~~= fold_events(self.events@));
        }
    }

    /// Record a hunk-boundary event: finalize any recorded hunk, then start a
    /// fresh one carrying the given ranges and the header's trimmed trailing
    /// context.
    pub fn process_hunk(
        &mut self,
        header: &str,
        old_start: u32,
        old_lines: u32,
        new_start: u32,
        new_lines: u32,
    )
        requires
            old(self).wf(),
            old_start + old_lines <= u32::MAX,
            new_start + new_lines <= u32::MAX,
        ensures
            final(self).wf(),
            final(self).events@ == old(self).events@.push(
                DiffEvent::Hunk { header: header@, old_start, old_lines, new_start, new_lines },
            ),
    {
        let ghost e = DiffEvent::Hunk {
            header: header@,
            old_start,
            old_lines,
            new_start,
            new_lines,
        };
        let ghost prev_events = self.events@;
        proof {
            lemma_fold_push(prev_events, e);
        }
        if self.delta_recorded {
            proof {
                lemma_fold_delta_bounds(prev_events);
            }
            self.current_stat.add_delta(&self.current_delta);
        }
        self.current_delta.reset();
        let tail = after_last_at(header);
        let context = trim_str(tail.as_str());
        self.current_delta.set_context(context.as_str(), old_start, new_start, old_lines,
            new_lines);
        self.delta_recorded = true;
        self.events = Ghost(prev_events.push(e));
        proof {
            assert(self.model() =~~= fold_events(self.events@));
        }
    }

    /// Record a line event: decode the origin marker (the end-of-file marker
    /// set flags the line), and append the line to the current hunk.
    pub fn process_line(
        &mut self,
        origin: char,
        content: &str,
        old_line: Option<u32>,
        new_line: Option<u32>,
    )
        requires
            old(self).wf(),
            is_origin_char(origin),
        ensures
            final(self).wf(),
            final(self).events@ == old(self).events@.push(
                DiffEvent::Line { origin, content: content@, old_line, new_line },
            ),
    {
        let ghost e = DiffEvent::Line { origin, content: content@, old_line, new_line };
        let ghost prev_events = self.events@;
        proof {
            lemma_fold_push(prev_events, e);
        }
        let eof = origin == '=' || origin == '>' || origin == '<';
        let line = DiffLine::new(Origin::from_chr(origin), content, old_line, new_line, eof);
        self.current_delta.add_line(line);
        self.events = Ghost(prev_events.push(e));
        proof {
            assert(self.model() =~~= fold_events(self.events@));
        }
    }

    /// Close the walk: the last hunk is finalized and the last statistic
    /// appended; the initial empty accumulator never reaches the result.
    pub fn finish(self) -> (r: Vec<FileStat>)
        requires
            self.wf(),
        ensures
            r@.map_values(|f: FileStat| f@) == finish_stats(fold_events(self.events@)),
    {
        let CommitDiffBuilder { mut stats, mut current_stat, current_delta, delta_recorded, started, events } =
            self;
        let ghost prev_stats = stats@;
        if delta_recorded {
            proof {
                lemma_fold_delta_bounds(events@);
            }
            current_stat.add_delta(&current_delta);
        }
        if started {
            stats.push(current_stat);
            proof {
                assert(stats@.map_values(|f: FileStat| f@) =~= prev_stats.map_values(
                    |f: FileStat| f@,
                ).push(stats@.last()@));
            }
        }
        stats
    }
}

/// The committer a commit records: suppressed to an empty user when it equals
/// the author by name and email.
pub open spec fn spec_resolved_committer(author: UserV, committer: UserV) -> UserV {
    if committer == author {
        UserV { name: None, email: None }
    } else {
        committer
    }
}

/// Law: after resolution the committer renders as no line exactly when the
/// walk's committer equals the author, or had neither name nor email.
pub proof fn lemma_committer_suppressed(author: UserV, committer: UserV)
    ensures
        crate::commit::user::spec_user_string(spec_resolved_committer(author, committer))
            is None <==> (committer == author || (committer.name is None && committer.email
            is None)),
{
}

/// Assemble the loaded commit: the committer collapses to empty when it
/// equals the author, and the statistics are absent exactly when the commit
/// has no parent.
pub fn assemble_commit(
    hash: String,
    author: User,
    committer: User,
    date: i64,
    body: Option<String>,
    parent_count: usize,
    builder: CommitDiffBuilder,
) -> (r: Commit)
    requires
        builder.wf(),
    ensures
        r@.hash == hash@,
        r@.author == author@,
        r@.committer == spec_resolved_committer(author@, committer@),
        r@.date == date,
        r@.body == body.deep_view(),
        parent_count == 0 <==> r@.file_stats is None,
        parent_count > 0 ==> r@.file_stats == Some(finish_stats(fold_events(builder.events@))),
{
    let resolved = if !(committer == author) {
        committer
    } else {
        User::new(None, None)
    };
    proof {
        assert(resolved@ =~~= spec_resolved_committer(author@, committer@));
    }
    let file_stats = if parent_count == 0 {
        None
    } else {
        Some(builder.finish())
    };
    Commit::new(hash, author, resolved, date, file_stats, body)
}

} // verus!
