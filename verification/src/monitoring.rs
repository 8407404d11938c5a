//! Sampling of what the host's processors do.

pub mod cpu;
