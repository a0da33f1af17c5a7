//! Total formatting helpers: status colors and labels, stat-line and
//! diff-line segment composition.

use crate::commit::diff_line::{DiffLine, DiffLineV, Origin};
use crate::commit::status::Status;
use crate::display::display_color::DisplayColor;
use crate::strutil::{
    left_aligned, spaces, spec_left_aligned, spec_spaces, spec_strip_newlines, spec_u32_string,
    strip_newlines, u32_string,
};
use crate::view::line_segment::{LineSegment, SegV};
use crate::view::view_line::seg_views;
use vstd::prelude::*;
use vstd::string::*;

verus! {

/// The color a file-change status paints its stat line with.
pub open spec fn spec_file_stat_color(status: Status) -> DisplayColor {
    match status {
        Status::Added => DisplayColor::DiffAddColor,
        Status::Copied => DisplayColor::DiffAddColor,
        Status::Deleted => DisplayColor::DiffRemoveColor,
        Status::Modified => DisplayColor::DiffChangeColor,
        Status::Renamed => DisplayColor::DiffChangeColor,
        Status::Typechange => DisplayColor::DiffChangeColor,
        Status::Other => DisplayColor::Normal,
    }
}

/// Map a status to its stat-line color (the fallback never occurs during a
/// rebase and stays on the normal color).
pub fn get_file_stat_color(status: &Status) -> (r: DisplayColor)
    ensures
        r == spec_file_stat_color(*status),
{
    match status {
        Status::Added => DisplayColor::DiffAddColor,
        Status::Copied => DisplayColor::DiffAddColor,
        Status::Deleted => DisplayColor::DiffRemoveColor,
        Status::Modified => DisplayColor::DiffChangeColor,
        Status::Renamed => DisplayColor::DiffChangeColor,
        Status::Typechange => DisplayColor::DiffChangeColor,
        Status::Other => DisplayColor::Normal,
    }
}

/// The abbreviated one-letter label of a status.
pub open spec fn spec_file_stat_abbreviated(status: Status) -> Seq<char> {
    match status {
        Status::Added => "A "@,
        Status::Copied => "C "@,
        Status::Deleted => "D "@,
        Status::Modified => "M "@,
        Status::Renamed => "R "@,
        Status::Typechange => "T "@,
        Status::Other => "X "@,
    }
}

/// Map a status to its abbreviated one-letter label.
pub fn get_file_stat_abbreviated(status: &Status) -> (r: String)
    ensures
        r@ == spec_file_stat_abbreviated(*status),
{
    match status {
        Status::Added => String::from_str("A "),
        Status::Copied => String::from_str("C "),
        Status::Deleted => String::from_str("D "),
        Status::Modified => String::from_str("M "),
        Status::Renamed => String::from_str("R "),
        Status::Typechange => String::from_str("T "),
        Status::Other => String::from_str("X "),
    }
}

/// The long label of a status: the word right-justified to eight characters,
/// followed by a colon and a space.
pub open spec fn spec_file_stat_long(status: Status) -> Seq<char> {
    match status {
        Status::Added => "   added: "@,
        Status::Copied => "  copied: "@,
        Status::Deleted => " deleted: "@,
        Status::Modified => "modified: "@,
        Status::Renamed => " renamed: "@,
        Status::Typechange => " changed: "@,
        Status::Other => " unknown: "@,
    }
}

/// Map a status to its long right-justified label.
pub fn get_file_stat_long(status: &Status) -> (r: String)
    ensures
        r@ == spec_file_stat_long(*status),
{
    match status {
        Status::Added => String::from_str("   added: "),
        Status::Copied => String::from_str("  copied: "),
        Status::Deleted => String::from_str(" deleted: "),
        Status::Modified => String::from_str("modified: "),
        Status::Renamed => String::from_str(" renamed: "),
        Status::Typechange => String::from_str(" changed: "),
        Status::Other => String::from_str(" unknown: "),
    }
}

/// The separator between destination and source name.
pub open spec fn spec_to_file_indicator(is_full_width: bool) -> Seq<char> {
    if is_full_width {
        " -> "@
    } else {
        ">"@
    }
}

/// The segments of one file's stat line. Renamed and copied entries show
/// both names around a separator: the destination carries the removal color
/// for a rename and the normal color for a copy, and the source carries the
/// addition color.
pub open spec fn spec_stat_item_segments(
    status: Status,
    to_name: Seq<char>,
    from_name: Seq<char>,
    is_full_width: bool,
) -> Seq<SegV> {
    let status_name = if is_full_width {
        spec_file_stat_long(status)
    } else {
        spec_file_stat_abbreviated(status)
    };
    let color = spec_file_stat_color(status);
    match status {
        Status::Copied => seq![
            SegV { text: status_name, color },
            SegV { text: to_name, color: DisplayColor::Normal },
            SegV { text: spec_to_file_indicator(is_full_width), color: DisplayColor::Normal },
            SegV { text: from_name, color: DisplayColor::DiffAddColor },
        ],
        Status::Renamed => seq![
            SegV { text: status_name, color },
            SegV { text: to_name, color: DisplayColor::DiffRemoveColor },
            SegV { text: spec_to_file_indicator(is_full_width), color: DisplayColor::Normal },
            SegV { text: from_name, color: DisplayColor::DiffAddColor },
        ],
        _ => seq![
            SegV { text: status_name, color },
            SegV { text: from_name, color },
        ],
    }
}

/// Compose one file's stat line.
pub fn get_stat_item_segments(
    status: &Status,
    to_name: &str,
    from_name: &str,
    is_full_width: bool,
) -> (r: Vec<LineSegment>)
    ensures
        seg_views(r@) == spec_stat_item_segments(*status, to_name@, from_name@, is_full_width),
{
    let status_name = if is_full_width {
        get_file_stat_long(status)
    } else {
        get_file_stat_abbreviated(status)
    };
    let color = get_file_stat_color(status);
    let to_file_indicator = if is_full_width {
        " -> "
    } else {
        ">"
    };
    let mut r: Vec<LineSegment> = Vec::new();
    match status {
        Status::Copied => {
            r.push(LineSegment::new_with_color(status_name.as_str(), color));
            r.push(LineSegment::new_with_color(to_name, DisplayColor::Normal));
            r.push(LineSegment::new(to_file_indicator));
            r.push(LineSegment::new_with_color(from_name, DisplayColor::DiffAddColor));
        },
        Status::Renamed => {
            r.push(LineSegment::new_with_color(status_name.as_str(), color));
            r.push(LineSegment::new_with_color(to_name, DisplayColor::DiffRemoveColor));
            r.push(LineSegment::new(to_file_indicator));
            r.push(LineSegment::new_with_color(from_name, DisplayColor::DiffAddColor));
        },
        _ => {
            r.push(LineSegment::new_with_color(status_name.as_str(), color));
            r.push(LineSegment::new_with_color(from_name, color));
        },
    }
    proof {
        assert(seg_views(r@) =~= spec_stat_item_segments(*status, to_name@, from_name@,
            is_full_width));
    }
    r
}

/// The rendering of a line-number field: the number left-aligned in a field
/// of the given width, or that many spaces when the line has no number on
/// that side.
pub open spec fn spec_number_field(n: Option<u32>, width: nat) -> Seq<char> {
    match n {
        Some(v) => spec_left_aligned(spec_u32_string(v as nat), width),
        None => spec_spaces(width),
    }
}

/// The color a line origin paints its marker with.
pub open spec fn spec_origin_color(origin: Origin) -> DisplayColor {
    match origin {
        Origin::Addition => DisplayColor::DiffAddColor,
        Origin::Deletion => DisplayColor::DiffRemoveColor,
        Origin::Context => DisplayColor::Normal,
    }
}

/// The segments of one rendered diff line: colored origin marker, old-side
/// number field, a fixed gap, new-side number field, then the text behind a
/// fixed marker with embedded newlines stripped.
pub open spec fn spec_diff_line_segments(
    l: DiffLineV,
    old_width: nat,
    new_width: nat,
) -> Seq<SegV> {
    seq![
        SegV { text: l.origin.spec_to_str(), color: spec_origin_color(l.origin) },
        SegV { text: spec_number_field(l.old_line_number, old_width), color: DisplayColor::Normal },
        SegV { text: "   "@, color: DisplayColor::Normal },
        SegV { text: spec_number_field(l.new_line_number, new_width), color: DisplayColor::Normal },
        SegV { text: "|  "@ + spec_strip_newlines(l.line), color: DisplayColor::Normal },
    ]
}

/// Compose one rendered diff line against the file's number-field widths.
pub fn get_diff_line_segments(
    diff_line: &DiffLine,
    old_largest_line_number_length: usize,
    new_largest_line_number_length: usize,
) -> (r: Vec<LineSegment>)
    ensures
        seg_views(r@) == spec_diff_line_segments(
            diff_line@,
            old_largest_line_number_length as nat,
            new_largest_line_number_length as nat,
        ),
{
    let mut r: Vec<LineSegment> = Vec::new();
    let origin_color = match diff_line.origin() {
        Origin::Addition => DisplayColor::DiffAddColor,
        Origin::Deletion => DisplayColor::DiffRemoveColor,
        Origin::Context => DisplayColor::Normal,
    };
    r.push(LineSegment::new_with_color(diff_line.origin().to_str(), origin_color));
    let old_field = match diff_line.old_line_number() {
        Some(line_number) => left_aligned(u32_string(line_number), old_largest_line_number_length),
        None => spaces(old_largest_line_number_length),
    };
    r.push(LineSegment::new(old_field.as_str()));
    r.push(LineSegment::new("   "));
    let new_field = match diff_line.new_line_number() {
        Some(line_number) => left_aligned(u32_string(line_number), new_largest_line_number_length),
        None => spaces(new_largest_line_number_length),
    };
    r.push(LineSegment::new(new_field.as_str()));
    let mut text = String::from_str("|  ");
    text.append(strip_newlines(diff_line.line()).as_str());
    r.push(LineSegment::new(text.as_str()));
    proof {
        assert(seg_views(r@) =~= spec_diff_line_segments(
            diff_line@,
            old_largest_line_number_length as nat,
            new_largest_line_number_length as nat,
        ));
    }
    r
}

} // verus!
