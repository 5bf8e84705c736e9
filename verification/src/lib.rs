//! Core logic of a host-driven telemetry panel: a framing decoder that turns
//! a serial byte stream into typed packets, a dispatcher that routes packets
//! to indicator and render effects, a bank of indicator duty values, and the
//! geometry of the bar-graph display.

pub mod dispatch;
pub mod display;
pub mod packet;
pub mod utils;
