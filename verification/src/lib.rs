//! Invocation of the `docker` command-line tool, split from the process
//! plumbing: which program and arguments an operation runs, and what the exit
//! status and the captured output streams of that run mean for the caller.
//!
//! Nothing here starts a process. A caller runs [`operation::program`] with
//! [`operation::Operation::arguments`], records how that went as a
//! [`process::Launch`], and hands it to [`outcome::conclude`].

pub mod decoding;
pub mod greeting;
pub mod guarantees;
pub mod operation;
pub mod outcome;
pub mod process;
pub mod text;
