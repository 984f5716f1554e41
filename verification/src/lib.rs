//! Startup orchestration for a builder-vault service process: parsing the
//! command line, resolving the startup configuration through a layered
//! fallback, and mapping launch failures to process exit codes.
//!
//! The process shell (argument intake, the filesystem read behind a
//! configuration load, the server itself, and process exit) stays outside this
//! crate; every decision that shell acts on is made here, under a contract.

pub mod args;
pub mod config;
pub mod launch;
