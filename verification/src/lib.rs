//! Flus: scaffolding of a Flutter project's basic structure.
//!
//! The library holds the logic of the tool: how paths are joined, which
//! files, directories and commands a scaffold consists of, how a git
//! dependency is written into `pubspec.yaml`, and how a finished command is
//! judged. The program around it performs the file system and process work.
use vstd::prelude::*;

pub mod paths;
pub mod utils;
pub mod template;
pub mod plan;
pub mod generator;
pub mod cli;

verus! {

} // verus!
