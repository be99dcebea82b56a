//! Font handling: Bezier weights and font-face bookkeeping.

pub mod bezier;
pub mod face;
pub mod file;
pub mod glyph;
pub mod list;
pub mod metrics;
pub mod order;
pub mod outlines;
pub mod params;

pub use file::{FaceProperties, TablePresence};
pub use list::{FaceFilter, ParamFaces};
