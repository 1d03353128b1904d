//! Detects a file's format from its leading bytes ("magic numbers") and
//! decides whether the file's current extension disagrees with the format
//! found, so that a caller can rename the file to match its contents.
//!
//! The library is pure: it inspects in-memory byte buffers and extension
//! strings only. Opening files, walking directories and renaming are the
//! caller's business.

pub mod detect;
pub mod filter;
pub mod policy;
