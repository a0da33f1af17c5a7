use rebase_core::commit::loader::{assemble_commit, CommitDiffBuilder};
use rebase_core::commit::status::ChangeKind;
use rebase_core::commit::user::User;
use rebase_core::commit::Commit;
use rebase_core::commit::diff_line::{DiffLine, Origin};
use rebase_core::display::display_color::DisplayColor;
use rebase_core::show_commit::data::Data;
use rebase_core::show_commit::show_commit_state::ShowCommitState;
use rebase_core::show_commit::util::{
    get_diff_line_segments, get_file_stat_abbreviated, get_file_stat_long, get_stat_item_segments,
};
use rebase_core::commit::status::Status;
use rebase_core::view::line_segment::LineSegment;
use rebase_core::view::view_line::ViewLine;

fn sample_commit() -> Commit {
    let mut builder = CommitDiffBuilder::new();
    builder.process_file("a".to_string(), "a".to_string(), ChangeKind::Modified);
    builder.process_hunk("@@ -1,2 +3,4 @@ fn main()", 1, 2, 3, 4);
    builder.process_line(' ', "ctx\n", Some(1), Some(3));
    builder.process_line('+', "new\n", None, Some(4));
    assemble_commit(
        "0123456789abcdef0123456789abcdef01234567".to_string(),
        User::new(Some("Ada"), Some("ada@example.com")),
        User::new(Some("Bob"), Some("bob@example.com")),
        1_580_172_067,
        Some("Title\n\nBody line\n".to_string()),
        1,
        builder,
    )
}

fn line_text(line: &ViewLine) -> String {
    let mut text = String::new();
    for segment in line.get_segments() {
        text.push_str(segment.get_content());
    }
    text
}

#[test]
fn diff_mode_renders_header_and_lines() {
    let commit = sample_commit();
    let mut data = Data::new();
    data.update(&ShowCommitState::Diff, &commit, 80, 24);
    let lines = data.get_lines();
    assert_eq!(lines.len(), 4);
    assert_eq!(line_text(&lines[0]), "");
    assert_eq!(lines[0].get_length(), 0);
    assert_eq!(line_text(&lines[1]), "@@ -1,2 +3,4 @@ fn main()");
    assert_eq!(lines[1].get_length(), "@@ -1,2 +3,4 @@ fn main()".chars().count());
    assert_eq!(line_text(&lines[2]), " 1   3|  ctx");
    assert_eq!(line_text(&lines[3]), "+    4|  new");
}

#[test]
fn diff_mode_of_root_commit_is_empty() {
    let commit = assemble_commit(
        "0123456789abcdef0123456789abcdef01234567".to_string(),
        User::new(Some("Ada"), None),
        User::new(None, None),
        0,
        None,
        0,
        CommitDiffBuilder::new(),
    );
    let mut data = Data::new();
    data.update(&ShowCommitState::Diff, &commit, 80, 24);
    assert_eq!(data.get_lines().len(), 0);
}

#[test]
fn overview_full_width_hash_line_is_labeled_and_whole() {
    let commit = sample_commit();
    let mut data = Data::new();
    data.update(&ShowCommitState::Overview, &commit, 80, 24);
    let lines = data.get_lines();
    assert_eq!(
        line_text(&lines[0]),
        "Commit: 0123456789abcdef0123456789abcdef01234567"
    );
    assert_eq!(lines[0].get_segments()[0].get_color(), DisplayColor::IndicatorColor);
}

#[test]
fn overview_narrow_hash_line_is_eight_characters() {
    let commit = sample_commit();
    let mut data = Data::new();
    data.update(&ShowCommitState::Overview, &commit, 20, 24);
    assert_eq!(line_text(&data.get_lines()[0]), "01234567 ");
}

#[test]
fn overview_orders_metadata_body_separator_and_stats() {
    let commit = sample_commit();
    let mut data = Data::new();
    data.update(&ShowCommitState::Overview, &commit, 80, 24);
    let lines = data.get_lines();
    // hash, date, author, committer, three body lines, separator, one stat
    assert_eq!(lines.len(), 9);
    assert!(line_text(&lines[1]).starts_with("Date: "));
    assert_eq!(line_text(&lines[2]), "Author: Ada <ada@example.com>");
    assert_eq!(line_text(&lines[3]), "Committer: Bob <bob@example.com>");
    assert_eq!(line_text(&lines[4]), "Title");
    assert_eq!(line_text(&lines[5]), "");
    assert_eq!(line_text(&lines[6]), "Body line");
    assert_eq!(line_text(&lines[7]), "");
    assert_eq!(line_text(&lines[8]), "modified: a");
}

#[test]
fn overview_omits_suppressed_committer_line() {
    let mut builder = CommitDiffBuilder::new();
    builder.process_file("a".to_string(), "a".to_string(), ChangeKind::Added);
    let commit = assemble_commit(
        "0123456789abcdef0123456789abcdef01234567".to_string(),
        User::new(Some("Ada"), Some("ada@example.com")),
        User::new(Some("Ada"), Some("ada@example.com")),
        0,
        None,
        1,
        builder,
    );
    let mut data = Data::new();
    data.update(&ShowCommitState::Overview, &commit, 80, 24);
    let lines = data.get_lines();
    // hash, date, author, separator, one stat: no committer line
    assert_eq!(lines.len(), 5);
    for line in lines {
        assert!(!line_text(line).starts_with("Committer: "));
    }
}

#[test]
fn update_with_same_key_keeps_lines() {
    let commit = sample_commit();
    let mut data = Data::new();
    data.update(&ShowCommitState::Overview, &commit, 80, 24);
    let before: Vec<String> = data.get_lines().iter().map(line_text).collect();
    data.update(&ShowCommitState::Overview, &commit, 80, 24);
    let after: Vec<String> = data.get_lines().iter().map(line_text).collect();
    assert_eq!(before, after);
}

#[test]
fn update_with_new_width_recomputes_all_lines() {
    let commit = sample_commit();
    let mut data = Data::new();
    data.update(&ShowCommitState::Overview, &commit, 80, 24);
    assert_eq!(
        line_text(&data.get_lines()[0]),
        "Commit: 0123456789abcdef0123456789abcdef01234567"
    );
    data.update(&ShowCommitState::Overview, &commit, 20, 24);
    assert_eq!(line_text(&data.get_lines()[0]), "01234567 ");
    assert_eq!(line_text(&data.get_lines()[2]), "A: Ada <ada@example.com>");
}

#[test]
fn max_line_length_clamps_and_finds_true_maximum() {
    let commit = sample_commit();
    let mut data = Data::new();
    data.update(&ShowCommitState::Overview, &commit, 80, 24);
    let mut expected: usize = 0;
    for line in data.get_lines() {
        let length = line.get_length();
        if length > expected {
            expected = length;
        }
    }
    assert_eq!(data.get_max_line_length(0, 100_000), expected);
    assert_eq!(data.get_max_line_length(0, data.get_lines().len() - 1), expected);
}

#[test]
fn diff_line_segments_match_example() {
    let line = DiffLine::new(Origin::Addition, "foo\n", None, Some(42), false);
    let segments = get_diff_line_segments(&line, 2, 2);
    assert_eq!(segments.len(), 5);
    assert_eq!(segments[0].get_content(), "+");
    assert_eq!(segments[1].get_content(), "  ");
    assert_eq!(segments[2].get_content(), "   ");
    assert_eq!(segments[3].get_content(), "42");
    assert_eq!(segments[4].get_content(), "|  foo");
    assert_eq!(segments[0].get_color(), DisplayColor::DiffAddColor);
}

#[test]
fn stat_labels_abbreviated_and_long() {
    assert_eq!(get_file_stat_abbreviated(&Status::Added), "A ");
    assert_eq!(get_file_stat_abbreviated(&Status::Other), "X ");
    assert_eq!(get_file_stat_long(&Status::Added), "   added: ");
    assert_eq!(get_file_stat_long(&Status::Modified), "modified: ");
    assert_eq!(get_file_stat_long(&Status::Typechange), " changed: ");
    assert_eq!(get_file_stat_long(&Status::Other), " unknown: ");
}

#[test]
fn renamed_stat_line_shows_both_names_around_separator() {
    let segments = get_stat_item_segments(&Status::Renamed, "new_name", "old_name", true);
    assert_eq!(segments.len(), 4);
    assert_eq!(segments[0].get_content(), " renamed: ");
    assert_eq!(segments[1].get_content(), "new_name");
    assert_eq!(segments[1].get_color(), DisplayColor::DiffRemoveColor);
    assert_eq!(segments[2].get_content(), " -> ");
    assert_eq!(segments[3].get_content(), "old_name");
    assert_eq!(segments[3].get_color(), DisplayColor::DiffAddColor);
    let narrow = get_stat_item_segments(&Status::Copied, "to", "from", false);
    assert_eq!(narrow[0].get_content(), "C ");
    assert_eq!(narrow[1].get_color(), DisplayColor::Normal);
    assert_eq!(narrow[2].get_content(), ">");
}

#[test]
fn view_line_length_counts_graphemes_not_characters() {
    let accented = ViewLine::new(vec![LineSegment::new("e\u{301}")]);
    assert_eq!(accented.get_length(), 1);
    let plain = ViewLine::new(vec![LineSegment::new("ab"), LineSegment::new("cd")]);
    assert_eq!(plain.get_length(), 4);
}
