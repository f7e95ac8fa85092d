//! Templates of the application's entry points.
use vstd::prelude::*;

verus! {

pub const MAIN_COMMON: &'static str = "root/main_common.dart.tera";

pub const MAIN_DEVELOPMENT: &'static str = "root/main_development.dart.tera";

pub const MAIN_PRODUCTION: &'static str = "root/main_production.dart.tera";

} // verus!
