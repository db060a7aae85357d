//! Behaviour of the rename engine and the walker's decisions: planning one
//! path, recording rename results, dry-run simulation, traversal failures,
//! the reported field layout, and the run options.

use notox::JsonOutput;
use notox::NotoxArgs;
use notox::Output;
use notox::PathChange;
use notox::outcome::is_error_outcome;
use notox::outcome::path_change_fields;
use notox::outcome::path_change_of_fields;
use notox::plan::CleanAction;
use notox::plan::clean_path_plan;
use notox::plan::entry_error_outcome;
use notox::plan::next_dir_path;
use notox::plan::rename_result_outcome;
use notox::plan::unreadable_dir_outcome;
use notox::plan::with_file_name;

fn v(s: &str) -> Vec<u8> {
    s.as_bytes().to_vec()
}

fn split(parent: &str, name: &str) -> Option<(Vec<u8>, Vec<u8>)> {
    Some((v(parent), v(name)))
}

#[test]
fn clean_component_plans_no_work() {
    let plan = clean_path_plan(v("dir/file.txt"), split("dir", "file.txt"), false);
    assert_eq!(
        plan,
        CleanAction::Done(PathChange::Unchanged { path: v("dir/file.txt") })
    );
}

#[test]
fn no_final_component_plans_no_work() {
    let plan = clean_path_plan(v(".."), None, false);
    assert_eq!(plan, CleanAction::Done(PathChange::Unchanged { path: v("..") }));
}

#[test]
fn dirty_component_plans_a_rename() {
    let plan = clean_path_plan(v("dir/a b.txt"), split("dir", "a b.txt"), false);
    assert_eq!(
        plan,
        CleanAction::AttemptRename { path: v("dir/a b.txt"), modified: v("dir/a_b.txt") }
    );
}

#[test]
fn dry_run_reports_instead_of_renaming() {
    let plan = clean_path_plan(v("dir/a b.txt"), split("dir", "a b.txt"), true);
    assert_eq!(
        plan,
        CleanAction::Done(PathChange::ErrorRename {
            path: v("dir/a b.txt"),
            modified: v("dir/a_b.txt"),
            error: "dry-run".to_string(),
        })
    );
}

#[test]
fn dry_run_keeps_clean_components_untouched() {
    let plan = clean_path_plan(v("dir/file.txt"), split("dir", "file.txt"), true);
    assert_eq!(
        plan,
        CleanAction::Done(PathChange::Unchanged { path: v("dir/file.txt") })
    );
}

#[test]
fn successful_rename_is_recorded_as_changed() {
    let outcome = rename_result_outcome(v("a b"), v("a_b"), None);
    assert_eq!(
        outcome,
        PathChange::Changed { path: v("a b"), modified: v("a_b") }
    );
}

#[test]
fn failed_rename_keeps_the_reason() {
    let outcome = rename_result_outcome(v("a b"), v("a_b"), Some("Permission denied".to_string()));
    assert_eq!(
        outcome,
        PathChange::ErrorRename {
            path: v("a b"),
            modified: v("a_b"),
            error: "Permission denied".to_string(),
        }
    );
}

#[test]
fn with_file_name_joins_under_the_parent() {
    assert_eq!(with_file_name(&v("a/b"), v("x")), v("a/b/x"));
    assert_eq!(with_file_name(&v(""), v("x")), v("x"));
    assert_eq!(with_file_name(&v("/"), v("x")), v("/x"));
}

#[test]
fn walker_descends_under_the_renamed_directory() {
    // A root whose own name needs sanitizing, holding one clean file: the
    // root is changed, and the file's record sits under the new name.
    let root = "café".to_string();
    let plan = clean_path_plan(v(&root), split("", "café"), false);
    assert_eq!(
        plan,
        CleanAction::AttemptRename { path: v("café"), modified: v("cafe") }
    );
    let (path, modified) = match plan {
        CleanAction::AttemptRename { path, modified } => (path, modified),
        CleanAction::Done(_) => unreachable!(),
    };
    let outcome = rename_result_outcome(path, modified, None);
    let dir = next_dir_path(&outcome, v(&root));
    assert_eq!(dir, v("cafe"));
    let child = with_file_name(&dir, v("file.txt"));
    let child_plan = clean_path_plan(child.clone(), Some((dir, v("file.txt"))), false);
    assert_eq!(
        child_plan,
        CleanAction::Done(PathChange::Unchanged { path: v("cafe/file.txt") })
    );
}

#[test]
fn unrenamed_directory_keeps_its_path() {
    let outcome = PathChange::Unchanged { path: v("dir") };
    assert_eq!(next_dir_path(&outcome, v("dir")), v("dir"));
}

#[test]
fn unreadable_directory_is_one_error_outcome() {
    let outcome = unreadable_dir_outcome(v("locked"));
    assert_eq!(
        outcome,
        PathChange::Error {
            path: v("locked"),
            error: "Error while reading directory".to_string(),
        }
    );
}

#[test]
fn unreadable_entry_carries_its_description() {
    let outcome = entry_error_outcome(v("dir"), &"gone".to_string());
    assert_eq!(
        outcome,
        PathChange::Error {
            path: v("dir"),
            error: "Error reading dir entry of directory gone".to_string(),
        }
    );
}

#[test]
fn error_outcomes_feed_the_errors_only_report() {
    assert!(!is_error_outcome(&PathChange::Unchanged { path: v("a") }));
    assert!(!is_error_outcome(&PathChange::Changed { path: v("a"), modified: v("b") }));
    assert!(is_error_outcome(&PathChange::ErrorRename {
        path: v("a"),
        modified: v("b"),
        error: "dry-run".to_string(),
    }));
    assert!(is_error_outcome(&PathChange::Error { path: v("a"), error: "e".to_string() }));
}

#[test]
fn field_layout_round_trips_every_variant() {
    let records = vec![
        PathChange::Unchanged { path: v("a") },
        PathChange::Changed { path: v("a"), modified: v("b") },
        PathChange::ErrorRename { path: v("a"), modified: v("b"), error: "x".to_string() },
        PathChange::Error { path: v("a"), error: "y".to_string() },
    ];
    for record in records {
        let (path, modified, error) = path_change_fields(record.clone());
        assert_eq!(path_change_of_fields(path, modified, error), record);
    }
}

#[test]
fn field_layout_of_each_variant() {
    let (path, modified, error) =
        path_change_fields(PathChange::Changed { path: v("a"), modified: v("b") });
    assert_eq!(path, v("a"));
    assert_eq!(modified, Some(v("b")));
    assert_eq!(error, None);
    let (path, modified, error) =
        path_change_fields(PathChange::Error { path: v("a"), error: "y".to_string() });
    assert_eq!(path, v("a"));
    assert_eq!(modified, None);
    assert_eq!(error, Some("y".to_string()));
}

#[test]
fn output_verbosity() {
    assert!(Output::Default.is_verbose());
    assert!(!Output::Quiet.is_verbose());
    assert!(
        !Output::JsonOutput { json: JsonOutput::JsonDefault, pretty: false }.is_verbose()
    );
    let args = NotoxArgs { dry_run: true, output: Output::Default };
    assert!(args.is_vervose());
    let args = NotoxArgs { dry_run: true, output: Output::Quiet };
    assert!(!args.is_vervose());
}
