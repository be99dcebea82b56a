//! Event-loop support: event names, an events log and the dispatch of
//! events to handlers.

pub mod event_names;
pub mod events_log;
pub mod single_window;

pub use events_log::{to_event_name, EventKind, EventsLog};
