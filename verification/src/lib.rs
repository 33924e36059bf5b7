//! A focus-and-selection navigation engine for a multi-pane terminal view.
//!
//! A view is composed of several independently scrollable panes. Directional
//! input is resolved through a two-phase focus model: while no pane is
//! selected (navigation mode) the input moves a hover pointer between panes;
//! while a pane is selected (selection mode) the input moves a highlight
//! cursor inside that pane's list, and `Enter` triggers the pane's action.
//! Requests to external collaborators (playback, data fetches, navigation)
//! are recorded as plain values and never block the handler.

pub mod app;
pub mod artist;
pub mod cursor;
pub mod event;
pub mod focus;
