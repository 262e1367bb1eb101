//! Library for enriching open pull requests fetched from a code-hosting API:
//! parsing unified diffs into per-file records, grouping review comments by
//! file and line, deduplicating and resolving cached author avatars, and
//! partitioning fallible batch results.
//!
//! All network and filesystem work lives outside this crate; the functions
//! here are the pure decision and transformation core, each with a verified
//! contract.

pub mod avatar;
pub mod diff;
pub mod file_tools;
pub mod file_writer;
pub mod github;
pub mod grouping;
pub mod model;
pub mod strings;
pub mod tools;
