//! The error taxonomy of the client.
//!
//! Every failure is surfaced directly to the caller; nothing is logged,
//! swallowed or retried. The payloads are plain values, so contracts can
//! speak of them exactly.

use vstd::prelude::*;

verus! {

/// Errors that can occur when talking to the Sonar service.
///
/// The first six arise during discovery and from response statuses,
/// the last four from local validation before any request is sent.
/// Transport-level failures never reach this crate: the embedding
/// application keeps them in its own error type.
#[derive(Debug)]
pub enum SonarError {
    /// The local configuration file was not found.
    EnginePathNotFound,
    /// A request came back with a non-success HTTP status.
    ServerNotAccessible(u16),
    /// The audio sub-application is not enabled.
    SonarNotEnabled,
    /// The audio sub-application is not ready yet.
    ServerNotReady,
    /// The audio sub-application is not running.
    ServerNotRunning,
    /// The discovery response carried no usable web server address.
    WebServerAddressNotFound,
    /// The named channel is not one of the six known channels.
    ChannelNotFound(String),
    /// The named slider is not one of the two known sliders.
    SliderNotFound(String),
    /// The volume text is not a decimal between 0 and 1 inclusive.
    InvalidVolume(String),
    /// The chat-mix text is not a decimal between -1 and 1 inclusive.
    InvalidMixVolume(String),
}

} // verus!
