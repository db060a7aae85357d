//! The rename engine: decides, for one path, whether its final component
//! must change, what the path after the change would be, and how each
//! possible result of the attempt — or its dry-run simulation, or a
//! traversal failure — is recorded as an outcome.

use crate::outcome::PathChange;
use crate::outcome::PathChangeData;
use crate::sanitize::clean_name;
use crate::sanitize::spec_clean;
use vstd::prelude::*;
use vstd::string::StringExecFns;

verus! {

/// The step that settles one path.
#[derive(Debug, PartialEq, Eq)]
pub enum CleanAction {
    /// The outcome is already settled: nothing to change, a simulated
    /// change, or a failure.
    Done(PathChange),
    /// The name must change and the run is live: attempt the filesystem
    /// rename of `path` to `modified`, then record its result with
    /// [`rename_result_outcome`].
    AttemptRename {
        /// The path as it is now.
        path: Vec<u8>,
        /// The path the rename aims at.
        modified: Vec<u8>,
    },
}

/// The mathematical shape of one step.
pub enum CleanActionData {
    /// The outcome is already settled.
    Done(PathChangeData),
    /// A live rename is to be attempted.
    AttemptRename {
        /// The path as it is now.
        path: Seq<u8>,
        /// The path the rename aims at.
        modified: Seq<u8>,
    },
}

impl View for CleanAction {
    type V = CleanActionData;

    open spec fn view(&self) -> CleanActionData {
        match self {
            CleanAction::Done(c) => CleanActionData::Done(c@),
            CleanAction::AttemptRename { path, modified } => CleanActionData::AttemptRename {
                path: path@,
                modified: modified@,
            },
        }
    }
}

/// The path whose parent directory is `parent` and whose final component is
/// `name`: a separator stands between them unless the parent is empty or
/// already ends with one.
pub open spec fn spec_with_name(parent: Seq<u8>, name: Seq<u8>) -> Seq<u8> {
    if parent.len() == 0 {
        name
    } else if parent[parent.len() - 1] == 47 {
        parent + name
    } else {
        parent + seq![47u8] + name
    }
}

/// The fixed reason that marks a simulated rename in dry-run mode.
pub open spec fn spec_dry_run_marker() -> Seq<char> {
    "dry-run"@
}

/// The reason recorded when a directory's entries cannot be listed at all.
pub open spec fn spec_unreadable_dir_error() -> Seq<char> {
    "Error while reading directory"@
}

/// The reason prefix recorded when one directory entry cannot be read; the
/// failure's own description follows it.
pub open spec fn spec_entry_error_prefix() -> Seq<char> {
    "Error reading dir entry of directory "@
}

/// What is to be done with the path `path`, split by the caller into its
/// parent and final component — `None` when the path has no final
/// component, which leaves it untouched. The component is sanitized; only
/// a byte-for-byte difference calls for a rename, and under `dry_run` the
/// rename is only reported, through the error-rename channel with the fixed
/// marker reason.
pub open spec fn spec_clean_path_plan(
    path: Seq<u8>,
    split: Option<(Seq<u8>, Seq<u8>)>,
    dry_run: bool,
) -> CleanActionData {
    match split {
        None => CleanActionData::Done(PathChangeData::Unchanged { path }),
        Some((parent, name)) => {
            let cleaned = spec_clean(name);
            if cleaned == name {
                CleanActionData::Done(PathChangeData::Unchanged { path })
            } else {
                let modified = spec_with_name(parent, cleaned);
                if dry_run {
                    CleanActionData::Done(
                        PathChangeData::ErrorRename {
                            path,
                            modified,
                            error: spec_dry_run_marker(),
                        },
                    )
                } else {
                    CleanActionData::AttemptRename { path, modified }
                }
            }
        },
    }
}

/// Append every byte of `src` to `dst`.
fn push_bytes(dst: &mut Vec<u8>, src: &Vec<u8>)
    ensures
        final(dst)@ == old(dst)@ + src@,
{
    let ghost dst0 = dst@;
    let mut j: usize = 0;
    while j < src.len()
        invariant
            j <= src.len(),
            dst@ == dst0 + src@.subrange(0, j as int),
        decreases src.len() - j,
    {
        dst.push(src[j]);
        proof {
            assert(dst0 + src@.subrange(0, j as int) + seq![src@[j as int]] =~= dst0
                + src@.subrange(0, j as int + 1));
        }
        j = j + 1;
    }
    proof {
        assert(dst0 + src@.subrange(0, src@.len() as int) =~= dst0 + src@);
    }
}

/// Build the path whose parent is `parent` and whose final component is
/// `name`.
pub fn with_file_name(parent: &Vec<u8>, name: Vec<u8>) -> (r: Vec<u8>)
    ensures
        r@ == spec_with_name(parent@, name@),
{
    if parent.len() == 0 {
        name
    } else {
        let mut r: Vec<u8> = Vec::new();
        push_bytes(&mut r, parent);
        if parent[parent.len() - 1] != 47 {
            r.push(47);
        }
        push_bytes(&mut r, &name);
        proof {
            if parent@[parent@.len() - 1] == 47 {
                assert(Seq::<u8>::empty() + parent@ + name@ =~= parent@ + name@);
            } else {
                assert(Seq::<u8>::empty() + parent@ + seq![47u8] + name@ =~= parent@ + seq![47u8]
                    + name@);
            }
        }
        r
    }
}

/// Decide what is to be done with `path`, whose parent and final component
/// are `split` — `None` when the path has no final component.
pub fn clean_path_plan(path: Vec<u8>, split: Option<(Vec<u8>, Vec<u8>)>, dry_run: bool) -> (r:
    CleanAction)
    ensures
        r@ == spec_clean_path_plan(
            path@,
            match split {
                Some((parent, name)) => Some((parent@, name@)),
                None => None,
            },
            dry_run,
        ),
{
    match split {
        None => CleanAction::Done(PathChange::Unchanged { path }),
        Some((parent, name)) => {
            let cleaned = clean_name(&name);
            if compare_bytes(&cleaned, &name) {
                CleanAction::Done(PathChange::Unchanged { path })
            } else {
                let modified = with_file_name(&parent, cleaned);
                if dry_run {
                    CleanAction::Done(
                        PathChange::ErrorRename {
                            path,
                            modified,
                            error: String::from_str("dry-run"),
                        },
                    )
                } else {
                    CleanAction::AttemptRename { path, modified }
                }
            }
        },
    }
}

/// Whether two byte strings are identical.
fn compare_bytes(a: &Vec<u8>, b: &Vec<u8>) -> (r: bool)
    ensures
        r <==> a@ == b@,
{
    if a.len() != b.len() {
        return false;
    }
    let mut j: usize = 0;
    while j < a.len()
        invariant
            j <= a.len(),
            a@.len() == b@.len(),
            forall|k: int| 0 <= k < j ==> a@[k] == b@[k],
        decreases a.len() - j,
    {
        if a[j] != b[j] {
            return false;
        }
        j = j + 1;
    }
    proof {
        assert(a@ =~= b@);
    }
    true
}

/// Record the result of a live rename attempt: success is a changed path,
/// failure keeps the aimed-at path together with the reported reason.
pub fn rename_result_outcome(path: Vec<u8>, modified: Vec<u8>, error: Option<String>) -> (r:
    PathChange)
    ensures
        error is None ==> r@ == (PathChangeData::Changed { path: path@, modified: modified@ }),
        error matches Some(e) ==> r@ == (PathChangeData::ErrorRename {
            path: path@,
            modified: modified@,
            error: e@,
        }),
{
    match error {
        None => PathChange::Changed { path, modified },
        Some(e) => PathChange::ErrorRename { path, modified, error: e },
    }
}

/// The path under which a directory's entries are listed after the
/// directory itself was settled: its new path if it was renamed, otherwise
/// the original one.
pub fn next_dir_path(outcome: &PathChange, original: Vec<u8>) -> (r: Vec<u8>)
    ensures
        outcome@ matches PathChangeData::Changed { modified, .. } ==> r@ == modified,
        !(outcome@ is Changed) ==> r@ == original@,
{
    match outcome {
        PathChange::Changed { modified, .. } => {
            let mut r: Vec<u8> = Vec::new();
            push_bytes(&mut r, modified);
            proof {
                assert(Seq::<u8>::empty() + modified@ =~= modified@);
            }
            r
        },
        _ => original,
    }
}

/// The outcome recorded when a directory's entries cannot be listed:
/// descent into it stops, but nothing else of the walk is given up.
pub fn unreadable_dir_outcome(path: Vec<u8>) -> (r: PathChange)
    ensures
        r@ == (PathChangeData::Error { path: path@, error: spec_unreadable_dir_error() }),
{
    PathChange::Error { path, error: String::from_str("Error while reading directory") }
}

/// The outcome recorded when one entry of a directory cannot be read;
/// `detail` is the failure's own description.
pub fn entry_error_outcome(path: Vec<u8>, detail: &String) -> (r: PathChange)
    ensures
        r@ == (PathChangeData::Error {
            path: path@,
            error: spec_entry_error_prefix() + detail@,
        }),
{
    let mut error = String::from_str("Error reading dir entry of directory ");
    error.append(detail.as_str());
    PathChange::Error { path, error }
}

/// Dry-run never asks for a filesystem change: for every path the plan is
/// a settled outcome — the path untouched when its component is already
/// clean, otherwise the simulated change under the fixed marker reason.
pub proof fn lemma_dry_run_plans_no_rename(path: Seq<u8>, split: Option<(Seq<u8>, Seq<u8>)>)
    ensures
        spec_clean_path_plan(path, split, true) is Done,
        (match split {
            None => spec_clean_path_plan(path, split, true) == CleanActionData::Done(
                PathChangeData::Unchanged { path },
            ),
            Some((parent, name)) => spec_clean_path_plan(path, split, true) == (if spec_clean(name)
                == name {
                CleanActionData::Done(PathChangeData::Unchanged { path })
            } else {
                CleanActionData::Done(
                    PathChangeData::ErrorRename {
                        path,
                        modified: spec_with_name(parent, spec_clean(name)),
                        error: spec_dry_run_marker(),
                    },
                )
            }),
        }),
{
}

} // verus!
