//! The per-path outcome record: what happened — or would happen — to one
//! filesystem entry, and the flat field layout that the record is reported
//! in. Paths are carried as raw bytes in the platform's path encoding;
//! reasons are carried as text.

use vstd::prelude::*;

verus! {

/// The result of attempting to sanitize and rename one path.
#[derive(Debug, Clone, PartialEq, Eq, Hash)]
pub enum PathChange {
    /// The sanitized name equals the original: nothing to do.
    Unchanged {
        /// The original path.
        path: Vec<u8>,
    },
    /// The rename succeeded.
    Changed {
        /// The original path.
        path: Vec<u8>,
        /// The path after the rename.
        modified: Vec<u8>,
    },
    /// A rename was desired but a textual reason prevented or flagged it —
    /// including the dry-run marker, which is a planned-change notice, not
    /// a failure.
    ErrorRename {
        /// The original path.
        path: Vec<u8>,
        /// The path the rename aimed at.
        modified: Vec<u8>,
        /// The reason the rename did not happen.
        error: String,
    },
    /// A non-rename failure while traversing, such as an unreadable
    /// directory.
    Error {
        /// The path that could not be processed.
        path: Vec<u8>,
        /// What went wrong.
        error: String,
    },
}

/// The mathematical shape of one outcome record.
pub enum PathChangeData {
    /// The sanitized name equals the original.
    Unchanged {
        /// The original path.
        path: Seq<u8>,
    },
    /// The rename succeeded.
    Changed {
        /// The original path.
        path: Seq<u8>,
        /// The path after the rename.
        modified: Seq<u8>,
    },
    /// A rename was desired but a reason prevented or flagged it.
    ErrorRename {
        /// The original path.
        path: Seq<u8>,
        /// The path the rename aimed at.
        modified: Seq<u8>,
        /// The reason the rename did not happen.
        error: Seq<char>,
    },
    /// A non-rename failure while traversing.
    Error {
        /// The path that could not be processed.
        path: Seq<u8>,
        /// What went wrong.
        error: Seq<char>,
    },
}

impl View for PathChange {
    type V = PathChangeData;

    open spec fn view(&self) -> PathChangeData {
        match self {
            PathChange::Unchanged { path } => PathChangeData::Unchanged { path: path@ },
            PathChange::Changed { path, modified } => PathChangeData::Changed {
                path: path@,
                modified: modified@,
            },
            PathChange::ErrorRename { path, modified, error } => PathChangeData::ErrorRename {
                path: path@,
                modified: modified@,
                error: error@,
            },
            PathChange::Error { path, error } => PathChangeData::Error {
                path: path@,
                error: error@,
            },
        }
    }
}

/// The flat field layout that an outcome is reported in: the original path,
/// the aimed-at path if there was one, and the reason if there was one.
pub open spec fn spec_fields_of(v: PathChangeData) -> (Seq<u8>, Option<Seq<u8>>, Option<Seq<char>>) {
    match v {
        PathChangeData::Unchanged { path } => (path, None, None),
        PathChangeData::Changed { path, modified } => (path, Some(modified), None),
        PathChangeData::ErrorRename { path, modified, error } => (
            path,
            Some(modified),
            Some(error),
        ),
        PathChangeData::Error { path, error } => (path, None, Some(error)),
    }
}

/// The outcome that a flat field layout denotes: which of the optional
/// fields are present decides the variant.
pub open spec fn spec_change_of_fields(
    path: Seq<u8>,
    modified: Option<Seq<u8>>,
    error: Option<Seq<char>>,
) -> PathChangeData {
    match (modified, error) {
        (None, None) => PathChangeData::Unchanged { path },
        (Some(m), None) => PathChangeData::Changed { path, modified: m },
        (Some(m), Some(e)) => PathChangeData::ErrorRename { path, modified: m, error: e },
        (None, Some(e)) => PathChangeData::Error { path, error: e },
    }
}

/// The flat field layout round-trips: reading the fields of any outcome
/// back through the variant rule restores the outcome identically.
pub proof fn lemma_fields_round_trip(v: PathChangeData)
    ensures
        ({
            let (path, modified, error) = spec_fields_of(v);
            spec_change_of_fields(path, modified, error) == v
        }),
{
}

/// Whether an outcome travels the error channels — a traversal failure or
/// a rename that did not happen, the dry-run notice included. The
/// errors-only report keeps exactly these.
pub fn is_error_outcome(c: &PathChange) -> (r: bool)
    ensures
        r <==> (c@ is Error || c@ is ErrorRename),
{
    matches!(c, PathChange::Error { .. } | PathChange::ErrorRename { .. })
}

/// Split one outcome into its flat field layout.
pub fn path_change_fields(c: PathChange) -> (r: (Vec<u8>, Option<Vec<u8>>, Option<String>))
    ensures
        ({
            let (path, modified, error) = spec_fields_of(c@);
            &&& r.0@ == path
            &&& (match r.1 {
                Some(m) => Some(m@),
                None => None,
            }) == modified
            &&& (match r.2 {
                Some(e) => Some(e@),
                None => None,
            }) == error
        }),
{
    match c {
        PathChange::Unchanged { path } => (path, None, None),
        PathChange::Changed { path, modified } => (path, Some(modified), None),
        PathChange::ErrorRename { path, modified, error } => (path, Some(modified), Some(error)),
        PathChange::Error { path, error } => (path, None, Some(error)),
    }
}

/// Rebuild the outcome that a flat field layout denotes.
pub fn path_change_of_fields(
    path: Vec<u8>,
    modified: Option<Vec<u8>>,
    error: Option<String>,
) -> (c: PathChange)
    ensures
        c@ == spec_change_of_fields(
            path@,
            match modified {
                Some(m) => Some(m@),
                None => None,
            },
            match error {
                Some(e) => Some(e@),
                None => None,
            },
        ),
{
    match modified {
        None => match error {
            None => PathChange::Unchanged { path },
            Some(e) => PathChange::Error { path, error: e },
        },
        Some(m) => match error {
            None => PathChange::Changed { path, modified: m },
            Some(e) => PathChange::ErrorRename { path, modified: m, error: e },
        },
    }
}

} // verus!
