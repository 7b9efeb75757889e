//! The receiving side: a fixed set of channels, each with its pipeline and
//! its statistics.

pub mod backend;
pub mod gstreamer;
