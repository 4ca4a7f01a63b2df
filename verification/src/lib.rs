//! Screen composition and layout engine for a terminal task-list viewer.
//!
//! Given an abstract application state (screen mode, list selection, task
//! texts) and a viewport size, the library deterministically computes the
//! frame's regions and the styled content assigned to each: a title bar, the
//! task list, a two-part footer, and an optional centered overlay.

pub mod compose;
pub mod geometry;
pub mod screen;
pub mod selection;
