use rebase_core::commit::diff_line::{DiffLine, Origin};
use rebase_core::commit::file_stat::FileStat;
use rebase_core::commit::loader::{assemble_commit, CommitDiffBuilder};
use rebase_core::commit::status::{ChangeKind, Status};
use rebase_core::commit::user::User;

#[test]
fn commit_user_file_stat() {
    let file_stat = FileStat::new("/from/path".to_string(), "/to/path".to_string(), Status::Renamed);
    assert_eq!(*file_stat.get_status(), Status::Renamed);
    assert_eq!(file_stat.get_from_name(), "/from/path");
    assert_eq!(file_stat.get_to_name(), "/to/path");
}

#[test]
fn origin_decodes_both_marker_sets() {
    assert_eq!(Origin::from_chr(' '), Origin::Context);
    assert_eq!(Origin::from_chr('+'), Origin::Addition);
    assert_eq!(Origin::from_chr('-'), Origin::Deletion);
    assert_eq!(Origin::from_chr('='), Origin::Context);
    assert_eq!(Origin::from_chr('>'), Origin::Addition);
    assert_eq!(Origin::from_chr('<'), Origin::Deletion);
    assert_eq!(Origin::Context.to_str(), " ");
    assert_eq!(Origin::Addition.to_str(), "+");
    assert_eq!(Origin::Deletion.to_str(), "-");
}

#[test]
fn user_renders_name_and_email_forms() {
    assert_eq!(
        User::new(Some("Ada"), Some("ada@example.com")).to_string().unwrap(),
        "Ada <ada@example.com>"
    );
    assert_eq!(User::new(Some("Ada"), None).to_string().unwrap(), "Ada");
    assert_eq!(User::new(None, Some("ada@example.com")).to_string().unwrap(), "<ada@example.com>");
    assert!(User::new(None, None).to_string().is_none());
}

#[test]
fn user_equality_compares_both_fields() {
    assert!(User::new(Some("a"), Some("e")) == User::new(Some("a"), Some("e")));
    assert!(User::new(Some("a"), Some("e")) != User::new(Some("a"), Some("f")));
    assert!(User::new(Some("a"), None) != User::new(None, Some("a")));
}

fn walked_builder() -> CommitDiffBuilder {
    let mut builder = CommitDiffBuilder::new();
    builder.process_file("a".to_string(), "a".to_string(), ChangeKind::Modified);
    builder.process_hunk("@@ -1,2 +3,4 @@ fn main()", 1, 2, 3, 4);
    builder.process_line(' ', "ctx\n", Some(1), Some(3));
    builder.process_line('+', "new\n", None, Some(4));
    builder.process_file("same".to_string(), "same".to_string(), ChangeKind::Unmodified);
    builder.process_file("b".to_string(), "c".to_string(), ChangeKind::Renamed);
    builder.process_hunk("@@ -10,0 +20,5 @@", 10, 0, 20, 5);
    builder.process_line('>', "x", None, Some(20));
    builder
}

#[test]
fn builder_folds_files_hunks_and_lines_in_order() {
    let stats = walked_builder().finish();
    assert_eq!(stats.len(), 2);

    assert_eq!(*stats[0].get_status(), Status::Modified);
    assert_eq!(stats[0].get_from_name(), "a");
    assert_eq!(stats[0].deltas().len(), 1);
    let delta = &stats[0].deltas()[0];
    assert_eq!(delta.context(), "fn main()");
    assert_eq!(delta.old_start(), 1);
    assert_eq!(delta.old_lines(), 2);
    assert_eq!(delta.new_start(), 3);
    assert_eq!(delta.new_lines(), 4);
    assert_eq!(delta.lines().len(), 2);
    assert_eq!(delta.lines()[0].line(), "ctx\n");
    assert_eq!(*delta.lines()[0].origin(), Origin::Context);
    assert_eq!(delta.lines()[0].old_line_number(), Some(1));
    assert_eq!(delta.lines()[1].line(), "new\n");
    assert_eq!(*delta.lines()[1].origin(), Origin::Addition);
    assert_eq!(delta.lines()[1].old_line_number(), None);
    assert_eq!(delta.lines()[1].new_line_number(), Some(4));

    assert_eq!(*stats[1].get_status(), Status::Renamed);
    assert_eq!(stats[1].get_from_name(), "b");
    assert_eq!(stats[1].get_to_name(), "c");
    assert_eq!(stats[1].deltas().len(), 1);
    assert_eq!(stats[1].deltas()[0].context(), "");
    assert!(stats[1].deltas()[0].lines()[0].line() == "x");
}

#[test]
fn builder_tracks_largest_line_numbers() {
    let stats = walked_builder().finish();
    assert_eq!(stats[0].largest_old_line_number(), 3);
    assert_eq!(stats[0].largest_new_line_number(), 7);
    assert_eq!(stats[1].largest_old_line_number(), 10);
    assert_eq!(stats[1].largest_new_line_number(), 25);
}

#[test]
fn builder_drops_unmodified_entries_and_placeholder() {
    let stats = walked_builder().finish();
    for stat in &stats {
        assert!(stat.get_from_name() != "same");
        assert!(!stat.get_from_name().is_empty());
    }
    let empty = CommitDiffBuilder::new().finish();
    assert_eq!(empty.len(), 0);
}

#[test]
fn root_commit_has_no_file_stats() {
    let commit = assemble_commit(
        "0123456789abcdef0123456789abcdef01234567".to_string(),
        User::new(Some("Ada"), Some("ada@example.com")),
        User::new(Some("Ada"), Some("ada@example.com")),
        1_580_172_067,
        None,
        0,
        CommitDiffBuilder::new(),
    );
    assert!(commit.get_file_stats().is_none());
}

#[test]
fn commit_with_parent_has_file_stats() {
    let commit = assemble_commit(
        "0123456789abcdef0123456789abcdef01234567".to_string(),
        User::new(Some("Ada"), Some("ada@example.com")),
        User::new(Some("Bob"), Some("bob@example.com")),
        1_580_172_067,
        Some("title\n".to_string()),
        1,
        walked_builder(),
    );
    assert_eq!(commit.get_file_stats().as_ref().unwrap().len(), 2);
    assert_eq!(commit.get_hash(), "0123456789abcdef0123456789abcdef01234567");
    assert_eq!(commit.get_date(), 1_580_172_067);
    assert_eq!(commit.get_body().as_ref().unwrap(), "title\n");
}

#[test]
fn committer_suppressed_when_equal_to_author() {
    let commit = assemble_commit(
        "0123456789abcdef0123456789abcdef01234567".to_string(),
        User::new(Some("Ada"), Some("ada@example.com")),
        User::new(Some("Ada"), Some("ada@example.com")),
        0,
        None,
        1,
        CommitDiffBuilder::new(),
    );
    assert!(commit.get_committer().to_string().is_none());
}

#[test]
fn committer_kept_when_different_from_author() {
    let commit = assemble_commit(
        "0123456789abcdef0123456789abcdef01234567".to_string(),
        User::new(Some("Ada"), Some("ada@example.com")),
        User::new(Some("Bob"), Some("bob@example.com")),
        0,
        None,
        1,
        CommitDiffBuilder::new(),
    );
    assert_eq!(commit.get_committer().to_string().unwrap(), "Bob <bob@example.com>");
}

#[test]
fn hunk_context_takes_trimmed_text_after_last_marker() {
    let mut builder = CommitDiffBuilder::new();
    builder.process_file("a".to_string(), "a".to_string(), ChangeKind::Added);
    builder.process_hunk("@@ -0,0 +1,3 @@   fn spaced()  ", 0, 0, 1, 3);
    builder.process_line('+', "x\n", None, Some(1));
    let stats = builder.finish();
    assert_eq!(stats[0].deltas()[0].context(), "fn spaced()");
}

#[test]
fn diff_line_records_end_of_file_markers() {
    let mut builder = CommitDiffBuilder::new();
    builder.process_file("a".to_string(), "a".to_string(), ChangeKind::Modified);
    builder.process_hunk("@@ -1,1 +1,1 @@", 1, 1, 1, 1);
    builder.process_line('<', "old\n", Some(1), None);
    let stats = builder.finish();
    assert!(stats[0].deltas()[0].lines()[0].end_of_file);
    let line = DiffLine::new(Origin::Addition, "x", None, Some(1), false);
    assert!(!line.end_of_file);
}
