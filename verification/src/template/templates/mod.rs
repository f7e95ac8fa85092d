//! The names of the templates a project is scaffolded from.
use vstd::prelude::*;

pub mod app_core;
pub mod root;
pub mod route;
pub mod theme;

verus! {

pub const MAKEFILE: &'static str = "Makefile.tera";

pub const PREDEFINED_FEATURES_DIR: &'static str = "features/predefined";

} // verus!
