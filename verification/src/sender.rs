//! The sending side: channels that stream a capture device each.

pub mod backend;
pub mod controls;
pub mod gstreamer;
