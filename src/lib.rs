//! Stamps copyright and SPDX license headers onto source files.
//!
//! The library holds the decisions: which comment prefix a file takes, what
//! header it gets, whether it already carries one, which paths are ignored and
//! in what order a tree is walked. Reading and writing files is left to the
//! caller, which hands the library plain values.
use vstd::prelude::*;

pub mod comments;
pub mod config;
pub mod error;
pub mod header;
pub mod pattern;
pub mod process;
pub mod walk;

verus! {

} // verus!
