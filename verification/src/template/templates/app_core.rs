//! Templates of the application core.
use vstd::prelude::*;

verus! {

pub const APP_TEXT: &'static str = "core/app/app_text.dart.tera";

pub const CONSTANTS: &'static str = "core/app/constants.dart.tera";

pub const DI: &'static str = "core/app/di.dart.tera";

pub const ENUM: &'static str = "core/app/enum.dart.tera";

pub const AUTH_NOTIFIER: &'static str = "core/auth/auth_notifier.dart.tera";

pub const FLAVOR: &'static str = "core/config/flavor.dart.tera";

pub const LOGGER: &'static str = "core/development/logger.dart.tera";

} // verus!
