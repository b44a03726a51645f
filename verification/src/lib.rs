//! Normalizes tab-delimited instrument log files: decides per file whether its
//! content is kept, trimmed at the tail, or discarded, and rewrites the one
//! timestamped format with a datetime prefix on every data row.

pub mod buffer;
pub mod fields;
pub mod pipeline;
pub mod policy;
pub mod process;
pub mod rewrite;
pub mod text;
