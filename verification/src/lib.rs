//! The logic of a notepad application that updates itself.
//!
//! The heart of the crate is the update subsystem: [`version`] orders
//! version strings, [`release`] resolves release metadata, [`download`]
//! streams a release to a staging file, [`install`] puts the staged file
//! in the place of the running executable, [`auto_update`] strings the
//! three together, and [`scheduler`] keeps the periodic background check.
//! None of them touches the network, a file or a process: the last five
//! are state machines that are told what happened and answer with what to
//! report and what to do next. [`document`] and [`host`] hold what the
//! application computes for its documents and its host.

pub mod auto_update;
pub mod document;
pub mod download;
pub mod error;
pub mod host;
pub mod install;
pub mod progress;
pub mod release;
pub mod scheduler;
pub mod text;
pub mod version;
