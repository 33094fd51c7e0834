//! State and decisions of a small terminal dashboard: selectable lists with a
//! wrapping cursor, the key table that drives them, the timing of the event
//! loop, and the plan of what a frame shows.

pub mod list;
pub mod app;
pub mod input;
pub mod event_loop;
pub mod render;
pub mod layout;
