//! Client-side logic for the SteelSeries Sonar audio-control web API.
//!
//! The crate holds everything about the protocol that can be decided
//! locally: validation of channel names, slider names, volume and
//! chat-mix values, the discovery handshake's checks, and the exact
//! request paths of every operation. Performing the HTTP calls is left
//! to the embedding application, which feeds the responses back in.

pub mod channels;
pub mod decimal;
pub mod discovery;
pub mod error;
pub mod session;
pub mod text;

pub use channels::{channel_names, streamer_slider_names, valid_channel_name, valid_slider_name};
pub use discovery::{
    CoreProps, SubApp, SubAppMetadata, SubApps, SubAppsResponse, base_url_from_config,
    check_status, resolve_server_address, sub_apps_url,
};
pub use error::SonarError;
pub use session::{HttpMethod, HttpRequest, Sonar, interpret_mode_response, mode_prefix};
