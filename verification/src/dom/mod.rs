//! Document model of a window: styles of its nodes.

pub mod style;

pub use style::StyleBorder;
