//! The data shared between the poll path and the screenshot loop.

pub mod auth_state;
pub mod tracking_state;
