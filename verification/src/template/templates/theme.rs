//! Templates of the theme.
use vstd::prelude::*;

verus! {

pub const COLORS: &'static str = "core/theme/app_colors.dart.tera";

pub const TEXT_STYLE: &'static str = "core/theme/app_text_style.dart.tera";

pub const DIMENSION: &'static str = "core/theme/dimension.dart.tera";

} // verus!
