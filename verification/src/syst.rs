//! Facts about the host that do not change while it runs.

pub mod infos;
