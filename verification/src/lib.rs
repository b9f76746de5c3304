//! Foreground-application usage tracking: the session state, the poll step that
//! attributes focus time and idle time, and the decisions of the screenshot loop.

pub mod clock;
pub mod state;
pub mod commands;
