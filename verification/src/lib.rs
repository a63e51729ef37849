//! Request-timing middleware core for a static file server: capture a
//! monotonic start time per request, and on completion scale the elapsed
//! nanoseconds to a human unit and render one log line.

pub mod cli;
pub mod logline;
pub mod scale;
pub mod timing;
