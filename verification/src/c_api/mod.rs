//! The layout engine's C-facing queries that this build answers itself.

pub mod graphite_disabled;
