//! Verified core of a multi-channel biosignal acquisition pipeline.
//!
//! The pipeline takes one multi-channel sample per tick, from a connected stream or from
//! a synthesizer, filters it, keeps a rolling window of raw and filtered values per
//! channel, and at intervals summarizes the full windows as band powers. This crate holds
//! the state of that pipeline and every decision it makes; timers, network access and
//! floating-point arithmetic belong to the program around it.
//!
//! - [`source`]: which advertised stream a request refers to, and how it is described.
//! - [`device`]: known device families, their channel names and details.
//! - [`connection`]: the connection state.
//! - [`filter`]: the input and output histories of the filter stages.
//! - [`amplitude`]: clipping of artifacts.
//! - [`window`]: the rolling windows of raw and filtered samples.
//! - [`bands`]: the assignment of spectrum bins to frequency bands.
//! - [`scheduler`]: what is done on each tick, and in which order.
//! - [`pipeline`]: connection, windows and filter histories, resized together.
//! - [`text`]: text operations shared by the above.

pub mod amplitude;
pub mod bands;
pub mod connection;
pub mod device;
pub mod filter;
pub mod pipeline;
pub mod scheduler;
pub mod source;
pub mod text;
pub mod window;
