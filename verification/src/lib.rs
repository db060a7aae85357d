//! Filesystem-name sanitizing: rewrites path components into a safe ASCII
//! subset and plans the renames that apply the rewriting across a tree.

pub mod decode;
pub mod options;
pub mod outcome;
pub mod plan;
pub mod sanitize;
pub mod table;

pub use options::JsonOutput;
pub use options::NotoxArgs;
pub use options::Output;
pub use outcome::PathChange;
pub use sanitize::check_similar;
pub use sanitize::clean_name;
