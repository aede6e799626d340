//! The per-record core of a graph-traversal pipeline: traversers that carry a
//! value, a path history and a set of active tags, and the steps that
//! transform them one at a time.

pub mod path;
pub mod step;
pub mod tag_set;
pub mod traverser;
pub mod value;
