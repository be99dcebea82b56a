//! Tables of adapter capabilities.

pub mod features;
pub mod format_table;
pub mod limits;
pub mod texture_formats;

pub use features::{add_adapter_to_features, features, Feature};
pub use limits::{add_adapter_to_limits, limits, AdapterLimits, Limit};
pub use texture_formats::{texture_format_flags, texture_usages, TextureFormatInfo};
