//! The browser's side: what the page shows, and how it speaks to the
//! server. Only what is decided is here; the page itself is elsewhere.

pub mod app;
pub mod conn;
pub mod err;
pub mod utils;
