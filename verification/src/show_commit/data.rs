//! The render pipeline: projects a commit, a viewport size and a display
//! mode into ordered colored lines paired with display lengths, recomputing
//! only when the viewport key changes.

use crate::commit::delta::DeltaV;
use crate::commit::file_stat::FileStatV;
use crate::commit::user::{spec_user_string, UserV};
use crate::commit::{Commit, CommitV};
use crate::display::display_color::DisplayColor;
use crate::localtime::format_local_timestamp;
use crate::show_commit::show_commit_state::ShowCommitState;
use crate::show_commit::util::{
    get_diff_line_segments, get_stat_item_segments, spec_diff_line_segments,
    spec_stat_item_segments,
};
use crate::strutil::{
    left_aligned, push_char, spec_left_aligned, spec_lines, spec_u32_string, split_lines,
    u32_string, decimal_width,
};
use crate::commit::diff_line::DiffLineV;
use crate::view::line_segment::{LineSegment, SegV};
use crate::view::view_line::{seg_views, spec_line_length, ViewLine};
use vstd::prelude::*;
use vstd::string::*;

verus! {

/// The viewport width at and above which verbose labels and full hashes are
/// used.
pub const MINIMUM_FULL_WINDOW_WIDTH: usize = 34;

/// The overview hash line: labeled full hash at full width; otherwise the
/// first eight characters (or fewer, if the hash is shorter) padded into an
/// eight-column field, with a trailing space and no label.
pub open spec fn spec_hash_line(hash: Seq<char>, is_full_width: bool) -> Seq<char> {
    if is_full_width {
        "Commit: "@ + hash
    } else {
        let prefix = if hash.len() <= 8 {
            hash
        } else {
            hash.take(8)
        };
        spec_left_aligned(prefix, 8) + seq![' ']
    }
}

/// The overview date line: labeled at full width, bare otherwise.
pub open spec fn spec_date_line(date_text: Seq<char>, is_full_width: bool) -> Seq<char> {
    if is_full_width {
        "Date: "@ + date_text
    } else {
        date_text
    }
}

/// The overview lines a user contributes: one labeled line, or none at all
/// when the user has neither name nor email.
pub open spec fn spec_user_lines(
    u: UserV,
    long_label: Seq<char>,
    short_label: Seq<char>,
    is_full_width: bool,
) -> Seq<Seq<SegV>> {
    match spec_user_string(u) {
        Some(t) => seq![
            seq![
                SegV {
                    text: (if is_full_width {
                        long_label
                    } else {
                        short_label
                    }) + t,
                    color: DisplayColor::Normal,
                },
            ],
        ],
        None => Seq::empty(),
    }
}

/// One plain overview line per body line.
pub open spec fn spec_body_lines_of(ls: Seq<Seq<char>>) -> Seq<Seq<SegV>>
    decreases ls.len(),
{
    if ls.len() == 0 {
        Seq::empty()
    } else {
        spec_body_lines_of(ls.drop_last()).push(
            seq![SegV { text: ls.last(), color: DisplayColor::Normal }],
        )
    }
}

/// The overview body lines: one per newline-delimited line of the message,
/// none when there is no message.
pub open spec fn spec_body_lines(body: Option<Seq<char>>) -> Seq<Seq<SegV>> {
    match body {
        Some(b) => spec_body_lines_of(spec_lines(b)),
        None => Seq::empty(),
    }
}

/// One stat line per file statistic.
pub open spec fn spec_stat_lines_of(stats: Seq<FileStatV>, is_full_width: bool) -> Seq<Seq<SegV>>
    decreases stats.len(),
{
    if stats.len() == 0 {
        Seq::empty()
    } else {
        spec_stat_lines_of(stats.drop_last(), is_full_width).push(
            spec_stat_item_segments(
                stats.last().status,
                stats.last().to_name,
                stats.last().from_name,
                is_full_width,
            ),
        )
    }
}

/// The overview stat lines, none for a root commit.
pub open spec fn spec_stat_lines(
    stats: Option<Seq<FileStatV>>,
    is_full_width: bool,
) -> Seq<Seq<SegV>> {
    match stats {
        Some(s) => spec_stat_lines_of(s, is_full_width),
        None => Seq::empty(),
    }
}

/// All overview lines in order: hash, date, author, committer, body, one
/// blank separator, then the stat lines.
pub open spec fn spec_overview_lines(
    c: CommitV,
    date_text: Seq<char>,
    is_full_width: bool,
) -> Seq<Seq<SegV>> {
    seq![
        seq![
            SegV {
                text: spec_hash_line(c.hash, is_full_width),
                color: DisplayColor::IndicatorColor,
            },
        ],
        seq![
            SegV { text: spec_date_line(date_text, is_full_width), color: DisplayColor::Normal },
        ],
    ] + spec_user_lines(c.author, "Author: "@, "A: "@, is_full_width) + spec_user_lines(
        c.committer,
        "Committer: "@,
        "C: "@,
        is_full_width,
    ) + spec_body_lines(c.body) + seq![
        seq![SegV { text: Seq::empty(), color: DisplayColor::Normal }],
    ] + spec_stat_lines(c.file_stats, is_full_width)
}

/// Law: the overview's committer line is omitted exactly when the walk's
/// committer equals the author by name and email, or has neither.
pub proof fn lemma_committer_line_omitted(
    author: UserV,
    committer: UserV,
    long_label: Seq<char>,
    short_label: Seq<char>,
    is_full_width: bool,
)
    ensures
        spec_user_lines(
            crate::commit::loader::spec_resolved_committer(author, committer),
            long_label,
            short_label,
            is_full_width,
        ).len() == 0 <==> (committer == author || (committer.name is None && committer.email
            is None)),
{
}

/// The hunk header text, exactly
/// `@@ -{old_start},{old_lines} +{new_start},{new_lines} @@ {context}`.
pub open spec fn spec_hunk_header(d: DeltaV) -> Seq<char> {
    "@@ -"@ + spec_u32_string(d.old_start as nat) + seq![','] + spec_u32_string(
        d.old_lines as nat,
    ) + " +"@ + spec_u32_string(d.new_start as nat) + seq![','] + spec_u32_string(
        d.new_lines as nat,
    ) + " @@ "@ + d.context
}

/// One rendered line per hunk line, against the file's number-field widths.
pub open spec fn spec_rendered_lines(
    lines: Seq<DiffLineV>,
    old_width: nat,
    new_width: nat,
) -> Seq<Seq<SegV>>
    decreases lines.len(),
{
    if lines.len() == 0 {
        Seq::empty()
    } else {
        spec_rendered_lines(lines.drop_last(), old_width, new_width).push(
            spec_diff_line_segments(lines.last(), old_width, new_width),
        )
    }
}

/// The diff-mode lines of one hunk: one blank line, then a header line whose
/// text is exactly the hunk header, then its rendered lines.
pub open spec fn spec_delta_lines(d: DeltaV, old_width: nat, new_width: nat) -> Seq<Seq<SegV>> {
    seq![
        seq![SegV { text: Seq::<char>::empty(), color: DisplayColor::Normal }],
        seq![SegV { text: spec_hunk_header(d), color: DisplayColor::Normal }],
    ] + spec_rendered_lines(d.lines, old_width, new_width)
}

/// The diff-mode lines of a file's hunks, in order.
pub open spec fn spec_deltas_lines(
    deltas: Seq<DeltaV>,
    old_width: nat,
    new_width: nat,
) -> Seq<Seq<SegV>>
    decreases deltas.len(),
{
    if deltas.len() == 0 {
        Seq::empty()
    } else {
        spec_deltas_lines(deltas.drop_last(), old_width, new_width) + spec_delta_lines(
            deltas.last(),
            old_width,
            new_width,
        )
    }
}

/// The diff-mode lines of one file: numbers are padded to the width of the
/// file's largest old- and new-side line numbers.
pub open spec fn spec_stat_diff_lines(f: FileStatV) -> Seq<Seq<SegV>> {
    spec_deltas_lines(
        f.deltas,
        spec_u32_string(f.largest_old_line_number as nat).len(),
        spec_u32_string(f.largest_new_line_number as nat).len(),
    )
}

/// The diff-mode lines of all files, in order.
pub open spec fn spec_stats_diff_lines(stats: Seq<FileStatV>) -> Seq<Seq<SegV>>
    decreases stats.len(),
{
    if stats.len() == 0 {
        Seq::empty()
    } else {
        spec_stats_diff_lines(stats.drop_last()) + spec_stat_diff_lines(stats.last())
    }
}

/// All diff-mode lines of a commit; a root commit shows none.
pub open spec fn spec_diff_lines(c: CommitV) -> Seq<Seq<SegV>> {
    match c.file_stats {
        Some(stats) => spec_stats_diff_lines(stats),
        None => Seq::empty(),
    }
}

/// Rendered lines and lengths match a model: same count, the same segments
/// line by line, and each recorded length the grapheme count of the line's
/// whole text.
pub open spec fn lines_match(
    lines: Seq<ViewLine>,
    lengths: Seq<usize>,
    model: Seq<Seq<SegV>>,
) -> bool {
    &&& lines.len() == model.len()
    &&& lengths.len() == model.len()
    &&& forall|i: int| 0 <= i < model.len() ==> (#[trigger] lines[i])@ == model[i]
    &&& forall|i: int| 0 <= i < model.len() ==> (#[trigger] lengths[i]) as nat == spec_line_length(
        model[i],
    )
}

/// The overview was rendered against some date text: the lines and lengths
/// match the overview model for that text.
pub open spec fn overview_rendered(
    lines: Seq<ViewLine>,
    lengths: Seq<usize>,
    c: CommitV,
    is_full_width: bool,
) -> bool {
    exists|d: Seq<char>|
        lines_match(lines, lengths, #[trigger] spec_overview_lines(c, d, is_full_width))
}

/// The maximum length among `lengths[lo..hi]`, 0 over an empty range.
pub open spec fn spec_max_in(lengths: Seq<usize>, lo: int, hi: int) -> int
    decreases hi - lo,
{
    if lo >= hi {
        0
    } else {
        let m = spec_max_in(lengths, lo, hi - 1);
        if lengths[hi - 1] > m {
            lengths[hi - 1] as int
        } else {
            m
        }
    }
}

/// Law: the range maximum bounds every element of the range and, when the
/// range is not empty, is attained by one of them.
pub proof fn lemma_max_in_is_max(lengths: Seq<usize>, lo: int, hi: int)
    requires
        0 <= lo <= hi <= lengths.len(),
    ensures
        forall|i: int| lo <= i < hi ==> #[trigger] lengths[i] <= spec_max_in(lengths, lo, hi),
        lo < hi ==> exists|i: int|
            lo <= i < hi && #[trigger] lengths[i] == spec_max_in(lengths, lo, hi),
    decreases hi - lo,
{
    if lo < hi {
        lemma_max_in_is_max(lengths, lo, hi - 1);
        if lo < hi - 1 && lengths[hi - 1] <= spec_max_in(lengths, lo, hi - 1) {
            let w = choose|i: int|
                lo <= i < hi - 1 && #[trigger] lengths[i] == spec_max_in(lengths, lo, hi - 1);
            assert(lengths[w] == spec_max_in(lengths, lo, hi));
        } else {
            assert(lengths[hi - 1] == spec_max_in(lengths, lo, hi));
        }
    }
}

/// The render cache: the last rendered lines and lengths, and the viewport
/// key they were computed for.
pub struct Data {
    pub height: usize,
    pub width: usize,
    pub lines: Vec<ViewLine>,
    pub line_lengths: Vec<usize>,
    pub max_line_length: usize,
    pub state: ShowCommitState,
}

impl Data {
    /// An empty cache showing the overview.
    pub fn new() -> (r: Self)
        ensures
            r.height == 0,
            r.width == 0,
            r.lines@.len() == 0,
            r.line_lengths@.len() == 0,
            r.max_line_length == 0,
            r.state == ShowCommitState::Overview,
    {
        Data {
            height: 0,
            width: 0,
            lines: Vec::new(),
            line_lengths: Vec::new(),
            max_line_length: 0,
            state: ShowCommitState::Overview,
        }
    }

    /// Drop all rendered content and the viewport key; the mode is kept.
    pub fn reset(&mut self)
        ensures
            final(self).height == 0,
            final(self).width == 0,
            final(self).lines@.len() == 0,
            final(self).line_lengths@.len() == 0,
            final(self).max_line_length == 0,
            final(self).state == old(self).state,
    {
        self.height = 0;
        self.width = 0;
        self.lines = Vec::new();
        self.line_lengths = Vec::new();
        self.max_line_length = 0;
    }

    /// Append one rendered line together with its measured display length.
    fn push_line(&mut self, segments: Vec<LineSegment>)
        ensures
            final(self).lines@ == old(self).lines@.push(final(self).lines@.last()),
            final(self).lines@.last()@ == seg_views(segments@),
            final(self).line_lengths@ == old(self).line_lengths@.push(
                final(self).line_lengths@.last(),
            ),
            final(self).line_lengths@.last() as nat == spec_line_length(seg_views(segments@)),
            final(self).height == old(self).height,
            final(self).width == old(self).width,
            final(self).max_line_length == old(self).max_line_length,
            final(self).state == old(self).state,
    {
        let line = ViewLine::new(segments);
        let length = line.get_length();
        self.lines.push(line);
        self.line_lengths.push(length);
    }

    /// Recompute the projection when the viewport key — width, height, mode —
    /// differs from the cached one; an unchanged key leaves everything as it
    /// is, so no stale content can survive a key change.
    pub fn update(
        &mut self,
        state: &ShowCommitState,
        commit: &Commit,
        window_width: usize,
        window_height: usize,
    )
        ensures
            (window_width == old(self).width && window_height == old(self).height && *state == old(
                self,
            ).state) ==> *final(self) == *old(self),
            !(window_width == old(self).width && window_height == old(self).height && *state
                == old(self).state) ==> {
                &&& final(self).state == *state
                &&& final(self).width == window_width
                &&& final(self).height == window_height
                &&& final(self).max_line_length == 0
                &&& (*state == ShowCommitState::Diff ==> lines_match(
                    final(self).lines@,
                    final(self).line_lengths@,
                    spec_diff_lines(commit@),
                ))
                &&& (*state == ShowCommitState::Overview ==> overview_rendered(
                    final(self).lines@,
                    final(self).line_lengths@,
                    commit@,
                    window_width >= MINIMUM_FULL_WINDOW_WIDTH,
                ))
            },
    {
        if window_width != self.width || window_height != self.height || !(*state == self.state) {
            self.state = *state;
            self.reset();
            self.height = window_height;
            self.width = window_width;
            let is_full_width = window_width >= MINIMUM_FULL_WINDOW_WIDTH;
            match state {
                ShowCommitState::Diff => self.update_diff(commit, is_full_width),
                ShowCommitState::Overview => self.update_overview(commit, is_full_width),
            }
        }
    }

    /// Render the unified-diff projection: for each file in order, for each
    /// hunk in order, a blank line, the exact header line, then each hunk
    /// line.
    pub fn update_diff(&mut self, commit: &Commit, is_full_width: bool)
        requires
            old(self).lines@.len() == 0,
            old(self).line_lengths@.len() == 0,
        ensures
            lines_match(final(self).lines@, final(self).line_lengths@, spec_diff_lines(commit@)),
            final(self).height == old(self).height,
            final(self).width == old(self).width,
            final(self).max_line_length == old(self).max_line_length,
            final(self).state == old(self).state,
    {
        match commit.get_file_stats() {
            Some(stats) => {
                let ghost sv = commit@.file_stats.unwrap();
                proof {
                    assert(lines_match(self.lines@, self.line_lengths@, spec_stats_diff_lines(sv.take(0))));
                }
                let mut i: usize = 0;
                while i < stats.len()
                    invariant
                        i <= stats.len(),
                        sv == stats@.map_values(|f: crate::commit::file_stat::FileStat| f@),
                        lines_match(
                            self.lines@,
                            self.line_lengths@,
                            spec_stats_diff_lines(sv.take(i as int)),
                        ),
                        self.height == old(self).height,
                        self.width == old(self).width,
                        self.max_line_length == old(self).max_line_length,
                        self.state == old(self).state,
                    decreases stats.len() - i,
                {
                    let stat = &stats[i];
                    let ghost fv = sv[i as int];
                    proof {
                        assert(fv == stat@);
                    }
                    let old_width = decimal_width(stat.largest_old_line_number());
                    let new_width = decimal_width(stat.largest_new_line_number());
                    let ghost base = spec_stats_diff_lines(sv.take(i as int));
                    let deltas = stat.deltas();
                    let ghost dv = fv.deltas;
                    proof {
                        assert(dv.take(0) =~= Seq::<DeltaV>::empty());
                        assert(base + spec_deltas_lines(dv.take(0), old_width as nat,
                            new_width as nat) =~= base);
                    }
                    let mut j: usize = 0;
                    while j < deltas.len()
                        invariant
                            j <= deltas.len(),
                            dv == deltas@.map_values(|d: crate::commit::delta::Delta| d@),
                            old_width == spec_u32_string(fv.largest_old_line_number as nat).len(),
                            new_width == spec_u32_string(fv.largest_new_line_number as nat).len(),
                            lines_match(
                                self.lines@,
                                self.line_lengths@,
                                base + spec_deltas_lines(
                                    dv.take(j as int),
                                    old_width as nat,
                                    new_width as nat,
                                ),
                            ),
                            self.height == old(self).height,
                            self.width == old(self).width,
                            self.max_line_length == old(self).max_line_length,
                            self.state == old(self).state,
                        decreases deltas.len() - j,
                    {
                        let delta = &deltas[j];
                        let ghost dvj = dv[j as int];
                        proof {
                            assert(dvj == delta@);
                        }
                        let ghost blank_model: Seq<SegV> = seq![
                            SegV { text: Seq::<char>::empty(), color: DisplayColor::Normal },
                        ];
                        let mut blank_segments: Vec<LineSegment> = Vec::new();
                        blank_segments.push(LineSegment::new(""));
                        proof {
                            reveal_strlit("");
                            assert(""@ =~= Seq::<char>::empty());
                            assert(seg_views(blank_segments@) =~= blank_model);
                        }
                        self.push_line(blank_segments);
                        let mut header = String::from_str("@@ -");
                        header.append(u32_string(delta.old_start()).as_str());
                        push_char(&mut header, ',');
                        header.append(u32_string(delta.old_lines()).as_str());
                        header.append(" +");
                        header.append(u32_string(delta.new_start()).as_str());
                        push_char(&mut header, ',');
                        header.append(u32_string(delta.new_lines()).as_str());
                        header.append(" @@ ");
                        header.append(delta.context());
                        proof {
                            assert(header@ =~= spec_hunk_header(dvj));
                        }
                        let mut header_segments: Vec<LineSegment> = Vec::new();
                        header_segments.push(LineSegment::new(header.as_str()));
                        let ghost header_model: Seq<SegV> = seq![
                            SegV { text: spec_hunk_header(dvj), color: DisplayColor::Normal },
                        ];
                        proof {
                            assert(seg_views(header_segments@) =~= header_model);
                        }
                        self.push_line(header_segments);
                        let ghost hunk_base = base + spec_deltas_lines(
                            dv.take(j as int),
                            old_width as nat,
                            new_width as nat,
                        );
                        proof {
                            assert(self.lines@.len() == hunk_base.len() + 2);
                            assert(spec_rendered_lines(dvj.lines.take(0), old_width as nat,
                                new_width as nat) =~= Seq::<Seq<SegV>>::empty());
                            assert(hunk_base.push(blank_model).push(header_model) =~= hunk_base
                                + seq![blank_model, header_model] + spec_rendered_lines(
                                dvj.lines.take(0),
                                old_width as nat,
                                new_width as nat,
                            ));
                        }
                        let delta_lines = delta.lines();
                        let mut k: usize = 0;
                        while k < delta_lines.len()
                            invariant
                                k <= delta_lines.len(),
                                dvj.lines == delta_lines@.map_values(
                                    |l: crate::commit::diff_line::DiffLine| l@,
                                ),
                                lines_match(
                                    self.lines@,
                                    self.line_lengths@,
                                    hunk_base + seq![blank_model, header_model] + spec_rendered_lines(
                                        dvj.lines.take(k as int),
                                        old_width as nat,
                                        new_width as nat,
                                    ),
                                ),
                                self.height == old(self).height,
                                self.width == old(self).width,
                                self.max_line_length == old(self).max_line_length,
                                self.state == old(self).state,
                            decreases delta_lines.len() - k,
                        {
                            let segments = get_diff_line_segments(
                                &delta_lines[k],
                                old_width,
                                new_width,
                            );
                            self.push_line(segments);
                            proof {
                                assert(dvj.lines.take(k + 1).drop_last() =~= dvj.lines.take(
                                    k as int,
                                ));
                                assert(dvj.lines.take(k + 1).last() == dvj.lines[k as int]);
                                assert((hunk_base + seq![blank_model, header_model] + spec_rendered_lines(
                                    dvj.lines.take(k as int),
                                    old_width as nat,
                                    new_width as nat,
                                )).push(
                                    spec_diff_line_segments(
                                        dvj.lines[k as int],
                                        old_width as nat,
                                        new_width as nat,
                                    ),
                                ) =~= hunk_base + seq![blank_model, header_model] + spec_rendered_lines(
                                    dvj.lines.take(k + 1),
                                    old_width as nat,
                                    new_width as nat,
                                ));
                            }
                            k = k + 1;
                        }
                        proof {
                            assert(dvj.lines.take(dvj.lines.len() as int) =~= dvj.lines);
                            assert(dv.take(j + 1).drop_last() =~= dv.take(j as int));
                            assert(dv.take(j + 1).last() == dvj);
                            assert(hunk_base + seq![blank_model, header_model] + spec_rendered_lines(
                                dvj.lines,
                                old_width as nat,
                                new_width as nat,
                            ) =~= base + spec_deltas_lines(
                                dv.take(j + 1),
                                old_width as nat,
                                new_width as nat,
                            ));
                        }
                        j = j + 1;
                    }
                    proof {
                        assert(dv.take(dv.len() as int) =~= dv);
                        assert(sv.take(i + 1).drop_last() =~= sv.take(i as int));
                        assert(sv.take(i + 1).last() == fv);
                        assert(base + spec_deltas_lines(dv, old_width as nat, new_width as nat)
                            =~= spec_stats_diff_lines(sv.take(i + 1)));
                    }
                    i = i + 1;
                }
                proof {
                    assert(sv.take(sv.len() as int) =~= sv);
                }
            },
            None => {
                proof {
                    assert(lines_match(
                        self.lines@,
                        self.line_lengths@,
                        spec_diff_lines(commit@),
                    ));
                }
            },
        }
    }

    /// Render the overview projection. The date line's text comes from the
    /// machine's local calendar, so the result is stated for whatever text
    /// that call produced.
    pub fn update_overview(&mut self, commit: &Commit, is_full_width: bool)
        requires
            old(self).lines@.len() == 0,
            old(self).line_lengths@.len() == 0,
        ensures
            overview_rendered(
                final(self).lines@,
                final(self).line_lengths@,
                commit@,
                is_full_width,
            ),
            final(self).height == old(self).height,
            final(self).width == old(self).width,
            final(self).max_line_length == old(self).max_line_length,
            final(self).state == old(self).state,
    {
        let date_text = format_local_timestamp(commit.get_date());
        self.update_overview_with_date(commit, date_text.as_str(), is_full_width);
        proof {
            let d = date_text@;
            assert(lines_match(
                self.lines@,
                self.line_lengths@,
                spec_overview_lines(commit@, d, is_full_width),
            ));
        }
    }

    /// Render the overview projection against an already-formatted date text.
    pub fn update_overview_with_date(
        &mut self,
        commit: &Commit,
        date_text: &str,
        is_full_width: bool,
    )
        requires
            old(self).lines@.len() == 0,
            old(self).line_lengths@.len() == 0,
        ensures
            lines_match(
                final(self).lines@,
                final(self).line_lengths@,
                spec_overview_lines(commit@, date_text@, is_full_width),
            ),
            final(self).height == old(self).height,
            final(self).width == old(self).width,
            final(self).max_line_length == old(self).max_line_length,
            final(self).state == old(self).state,
    {
        let ghost model = spec_overview_lines(commit@, date_text@, is_full_width);
        let ghost hash_entry: Seq<SegV> = seq![
            SegV {
                text: spec_hash_line(commit@.hash, is_full_width),
                color: DisplayColor::IndicatorColor,
            },
        ];
        let ghost date_entry: Seq<SegV> = seq![
            SegV { text: spec_date_line(date_text@, is_full_width), color: DisplayColor::Normal },
        ];
        let full_hash = commit.get_hash();
        let hash_line: String = if is_full_width {
            let mut s = String::from_str("Commit: ");
            s.append(full_hash.as_str());
            s
        } else {
            let len = full_hash.as_str().unicode_len();
            let max_index = if len < 8 {
                len
            } else {
                8
            };
            let prefix = full_hash.as_str().substring_char(0, max_index);
            proof {
                if commit@.hash.len() <= 8 {
                    assert(prefix@ =~= commit@.hash);
                }
            }
            let mut s = left_aligned(String::from_str(prefix), 8);
            push_char(&mut s, ' ');
            proof {
                assert(s@ =~= spec_hash_line(commit@.hash, is_full_width));
            }
            s
        };
        let mut hash_segments: Vec<LineSegment> = Vec::new();
        hash_segments.push(
            LineSegment::new_with_color(hash_line.as_str(), DisplayColor::IndicatorColor),
        );
        proof {
            assert(seg_views(hash_segments@) =~= hash_entry);
        }
        self.push_line(hash_segments);

        let date_line: String = if is_full_width {
            let mut s = String::from_str("Date: ");
            s.append(date_text);
            s
        } else {
            String::from_str(date_text)
        };
        let mut date_segments: Vec<LineSegment> = Vec::new();
        date_segments.push(LineSegment::new(date_line.as_str()));
        proof {
            assert(seg_views(date_segments@) =~= date_entry);
        }
        self.push_line(date_segments);

        let ghost author_base: Seq<Seq<SegV>> = seq![hash_entry, date_entry];
        proof {
            assert(self.lines@ =~= seq![self.lines@[0], self.lines@[1]]);
            assert(self.line_lengths@ =~= seq![self.line_lengths@[0], self.line_lengths@[1]]);
            assert(lines_match(self.lines@, self.line_lengths@, author_base));
        }
        let ghost author_piece = spec_user_lines(commit@.author, "Author: "@, "A: "@, is_full_width);
        match commit.get_author().to_string() {
            Some(a) => {
                let author_line: String = if is_full_width {
                    let mut s = String::from_str("Author: ");
                    s.append(a.as_str());
                    s
                } else {
                    let mut s = String::from_str("A: ");
                    s.append(a.as_str());
                    s
                };
                let mut segments: Vec<LineSegment> = Vec::new();
                segments.push(LineSegment::new(author_line.as_str()));
                proof {
                    assert(seg_views(segments@) =~= author_piece[0]);
                }
                self.push_line(segments);
                proof {
                    assert(author_base + author_piece =~= author_base.push(author_piece[0]));
                }
            },
            None => {
                proof {
                    assert(author_base + author_piece =~= author_base);
                }
            },
        }
        let ghost committer_base = author_base + author_piece;
        proof {
            assert(lines_match(self.lines@, self.line_lengths@, committer_base));
        }
        let ghost committer_piece = spec_user_lines(
            commit@.committer,
            "Committer: "@,
            "C: "@,
            is_full_width,
        );
        match commit.get_committer().to_string() {
            Some(c) => {
                let committer_line: String = if is_full_width {
                    let mut s = String::from_str("Committer: ");
                    s.append(c.as_str());
                    s
                } else {
                    let mut s = String::from_str("C: ");
                    s.append(c.as_str());
                    s
                };
                let mut segments: Vec<LineSegment> = Vec::new();
                segments.push(LineSegment::new(committer_line.as_str()));
                proof {
                    assert(seg_views(segments@) =~= committer_piece[0]);
                }
                self.push_line(segments);
                proof {
                    assert(committer_base + committer_piece =~= committer_base.push(
                        committer_piece[0],
                    ));
                }
            },
            None => {
                proof {
                    assert(committer_base + committer_piece =~= committer_base);
                }
            },
        }
        let ghost body_base = committer_base + committer_piece;
        proof {
            assert(lines_match(self.lines@, self.line_lengths@, body_base));
        }
        match commit.get_body() {
            Some(b) => {
                let body_lines = split_lines(b.as_str());
                let ghost bl = spec_lines(commit@.body.unwrap());
                proof {
                    assert(bl == body_lines.deep_view());
                    assert(spec_body_lines_of(bl.take(0)) =~= Seq::<Seq<SegV>>::empty());
                    assert(body_base + spec_body_lines_of(bl.take(0)) =~= body_base);
                }
                let mut i: usize = 0;
                while i < body_lines.len()
                    invariant
                        i <= body_lines.len(),
                        bl == body_lines.deep_view(),
                        lines_match(
                            self.lines@,
                            self.line_lengths@,
                            body_base + spec_body_lines_of(bl.take(i as int)),
                        ),
                        self.height == old(self).height,
                        self.width == old(self).width,
                        self.max_line_length == old(self).max_line_length,
                        self.state == old(self).state,
                    decreases body_lines.len() - i,
                {
                    let ghost entry: Seq<SegV> = seq![
                        SegV { text: bl[i as int], color: DisplayColor::Normal },
                    ];
                    let mut segments: Vec<LineSegment> = Vec::new();
                    segments.push(LineSegment::new(body_lines[i].as_str()));
                    proof {
                        assert(body_lines@[i as int]@ == bl[i as int]);
                        assert(seg_views(segments@) =~= entry);
                    }
                    self.push_line(segments);
                    proof {
                        assert(bl.take(i + 1).drop_last() =~= bl.take(i as int));
                        assert(bl.take(i + 1).last() == bl[i as int]);
                        assert((body_base + spec_body_lines_of(bl.take(i as int))).push(entry)
                            =~= body_base + spec_body_lines_of(bl.take(i + 1)));
                    }
                    i = i + 1;
                }
                proof {
                    assert(bl.take(bl.len() as int) =~= bl);
                }
            },
            None => {},
        }
        let ghost blank_base = body_base + spec_body_lines(commit@.body);
        proof {
            if commit@.body is None {
                assert(blank_base =~= body_base);
            }
            assert(lines_match(self.lines@, self.line_lengths@, blank_base));
        }
        let ghost blank_entry: Seq<SegV> = seq![
            SegV { text: Seq::<char>::empty(), color: DisplayColor::Normal },
        ];
        let mut blank_segments: Vec<LineSegment> = Vec::new();
        blank_segments.push(LineSegment::new(""));
        proof {
            reveal_strlit("");
            assert(""@ =~= Seq::<char>::empty());
            assert(seg_views(blank_segments@) =~= blank_entry);
        }
        self.push_line(blank_segments);
        let ghost stats_base = blank_base + seq![blank_entry];
        proof {
            assert(blank_base.push(blank_entry) =~= stats_base);
            assert(lines_match(self.lines@, self.line_lengths@, stats_base));
        }
        match commit.get_file_stats() {
            Some(stats) => {
                let ghost sv = commit@.file_stats.unwrap();
                proof {
                    assert(spec_stat_lines_of(sv.take(0), is_full_width) =~= Seq::<
                        Seq<SegV>,
                    >::empty());
                    assert(stats_base + spec_stat_lines_of(sv.take(0), is_full_width)
                        =~= stats_base);
                }
                let mut i: usize = 0;
                while i < stats.len()
                    invariant
                        i <= stats.len(),
                        sv == stats@.map_values(|f: crate::commit::file_stat::FileStat| f@),
                        lines_match(
                            self.lines@,
                            self.line_lengths@,
                            stats_base + spec_stat_lines_of(sv.take(i as int), is_full_width),
                        ),
                        self.height == old(self).height,
                        self.width == old(self).width,
                        self.max_line_length == old(self).max_line_length,
                        self.state == old(self).state,
                    decreases stats.len() - i,
                {
                    let stat = &stats[i];
                    let stat_to_name = stat.get_to_name();
                    let stat_from_name = stat.get_from_name();
                    let segments = get_stat_item_segments(
                        stat.get_status(),
                        stat_to_name.as_str(),
                        stat_from_name.as_str(),
                        is_full_width,
                    );
                    self.push_line(segments);
                    proof {
                        assert(sv.take(i + 1).drop_last() =~= sv.take(i as int));
                        assert(sv.take(i + 1).last() == sv[i as int]);
                        assert(sv[i as int] == stat@);
                        assert((stats_base + spec_stat_lines_of(sv.take(i as int), is_full_width))
                            .push(
                            spec_stat_item_segments(
                                stat@.status,
                                stat@.to_name,
                                stat@.from_name,
                                is_full_width,
                            ),
                        ) =~= stats_base + spec_stat_lines_of(sv.take(i + 1), is_full_width));
                    }
                    i = i + 1;
                }
                proof {
                    assert(sv.take(sv.len() as int) =~= sv);
                    assert(stats_base + spec_stat_lines_of(sv, is_full_width) =~~= model);
                    assert(lines_match(self.lines@, self.line_lengths@, model));
                }
            },
            None => {
                proof {
                    assert(stats_base =~~= model);
                    assert(lines_match(self.lines@, self.line_lengths@, model));
                }
            },
        }
    }

    /// The rendered lines, in order.
    pub fn get_lines(&self) -> (r: &Vec<ViewLine>)
        ensures
            r@ == self.lines@,
    {
        &self.lines
    }

    /// The maximum recorded display length over line indices `start..=end`,
    /// with `end` clamped to the last valid index; never reads out of range.
    pub fn get_max_line_length(&self, start: usize, end: usize) -> (r: usize)
        requires
            self.line_lengths@.len() > 0,
            start <= end,
            start <= self.line_lengths@.len(),
        ensures
            r == spec_max_in(
                self.line_lengths@,
                start as int,
                if end < self.line_lengths@.len() {
                    end + 1
                } else {
                    self.line_lengths@.len() as int
                },
            ),
    {
        let hi = if end < self.line_lengths.len() - 1 {
            end + 1
        } else {
            self.line_lengths.len()
        };
        let mut max_length: usize = 0;
        let mut i: usize = start;
        while i < hi
            invariant
                start <= i,
                i <= hi || i == start,
                hi <= self.line_lengths@.len(),
                max_length == spec_max_in(self.line_lengths@, start as int, i as int),
            decreases hi - i,
        {
            let len = self.line_lengths[i];
            if len > max_length {
                max_length = len;
            }
            i = i + 1;
        }
        max_length
    }
}

} // verus!
