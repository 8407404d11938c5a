//! The text that a dashboard shows, before any terminal is involved.

pub mod app;
pub mod panels;
pub mod style;
pub mod utils;
