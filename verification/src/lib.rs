//! Commit messages in the conventional structure, written by a language
//! model from a diff.
//!
//! The library holds what is decided on the way: how a diff is classified
//! (`classify`), what the model is asked (`prompt`, `protocol`), whether its
//! answer is a conventional commit message (`grammar`), what the answer of
//! the endpoint means (`completion`, `error`), and when a request is made
//! again (`retry`, `generate`).  The exchange with the endpoint, the waiting
//! and the repository are the caller's.

pub mod classify;
pub mod completion;
pub mod config;
pub mod confirm;
pub mod error;
pub mod generate;
pub mod grammar;
pub mod prompt;
pub mod protocol;
pub mod retry;
pub mod text;

pub use crate::grammar::is_conventional_commit;
