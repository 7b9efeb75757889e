//! Supervision and telemetry for forward-error-corrected camera streams.
//!
//! Each channel of a camera link is carried by a process of an external
//! streaming engine. This library decides how such processes are launched,
//! watched and ended, and reconstructs the health of a stream from the
//! text that its engine writes. It performs no input or output itself:
//! the caller runs the processes, reads their output and the clock, and
//! hands the library what it found.
//!
//! - [`supervisor`]: the life cycle of one channel, as a state machine
//!   from events to directives.
//! - [`stats_collector`]: the statistics of one channel, from diagnostic
//!   lines to a snapshot.
//! - [`pipeline`]: the descriptions that the engine is launched with.
//! - [`receiver`]: the registry of the receiving channels.
//! - [`sender`]: the registry of the sending channels, and the search for
//!   capture devices.
//! - [`types`]: the configuration of a channel.
//! - [`text`]: searching, trimming and reading numbers in text.

pub mod pipeline;
pub mod receiver;
pub mod sender;
pub mod stats_collector;
pub mod supervisor;
pub mod text;
pub mod types;
