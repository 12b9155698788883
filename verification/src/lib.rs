//! Verified core of a small EPUB book-asset backend.
//!
//! The library holds the decision logic of three responsibilities: extracting
//! bibliographic metadata (title, author, cover) from a parsed book, deriving
//! the storage location of a persisted cover image, and encoding cover bytes
//! as an inline `data:` URI. All file and archive I/O lives outside the
//! library; callers hand in what they observed (file existence, parsed fields,
//! save outcomes) and get back the decided result.

pub mod encoding;
pub mod paths;
pub mod workflow;
