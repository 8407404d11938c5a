//! Host metrics sampling: network rate derivation, interface classification
//! and the small pieces of text that a dashboard shows for them.

pub mod monitoring;
pub mod network;
pub mod syst;
pub mod text;
pub mod ui;
