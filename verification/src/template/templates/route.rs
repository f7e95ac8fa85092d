//! Templates of the routing layer.
use vstd::prelude::*;

verus! {

pub const NOT_FOUND: &'static str = "core/route/not_found_screen.dart.tera";

pub const CONFIG: &'static str = "core/route/route_config.dart.tera";

pub const GENERATOR: &'static str = "core/route/route_generator.dart.tera";

pub const NAVIGATION: &'static str = "core/route/route_navigation.dart.tera";

} // verus!
