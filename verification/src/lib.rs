//! Two-button input handling for a small embedded UI: per-button press
//! classification, the per-iteration decisions of the driving poll loop, and
//! the tab-based application state the button events drive.

pub mod app_state;
pub mod button;
pub mod poll;
