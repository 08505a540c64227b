//! Small helpers of the browser's side.

pub mod history;
pub mod time;
