//! The live client session: resolved address, current mode, and the
//! path prefix derived from it.
//!
//! Every operation of the service is built here as an [`HttpRequest`]
//! value, after the operation's local validation; the embedding
//! application sends it and feeds the response back.

use vstd::prelude::*;
use vstd::string::StringExecFns;
use crate::channels::{is_channel_name, is_slider_name, valid_channel_name, valid_slider_name};
use crate::decimal::{balance_text_in_range, in_balance_range, in_unit_range, volume_text_in_range};
use crate::error::SonarError;
use crate::text::str_eq;

verus! {

/// The HTTP method of a built request.
#[derive(Debug, Clone, Copy, PartialEq, Eq, Structural)]
pub enum HttpMethod {
    Get,
    Put,
}

/// One fully built request: what the application must send.
#[derive(Debug)]
pub struct HttpRequest {
    pub method: HttpMethod,
    pub url: String,
}

/// The path prefix under which a mode's volume settings live.
pub open spec fn spec_mode_prefix(streamer: bool) -> Seq<char> {
    if streamer {
        "/volumeSettings/streamer"@
    } else {
        "/volumeSettings/classic"@
    }
}

/// The word the mode endpoint uses for each mode.
pub open spec fn spec_mode_word(streamer: bool) -> Seq<char> {
    if streamer {
        "stream"@
    } else {
        "classic"@
    }
}

/// A mode response names streamer mode exactly when it is `stream`;
/// any other response means classic mode.
pub open spec fn spec_is_stream(mode: Seq<char>) -> bool {
    mode == "stream"@
}

/// The slider a request targets: the named one, or `streaming` when
/// none was named.
pub open spec fn spec_slider_choice(slider: Option<&str>) -> Seq<char> {
    match slider {
        Some(s) => s@,
        None => "streaming"@,
    }
}

/// The mute keyword of each mode's volume tree.
pub open spec fn spec_mute_keyword(streamer: bool) -> Seq<char> {
    if streamer {
        "isMuted"@
    } else {
        "Mute"@
    }
}

/// The path text of a boolean.
pub open spec fn spec_bool_text(b: bool) -> Seq<char> {
    if b {
        "true"@
    } else {
        "false"@
    }
}

/// The volume path of a mode, including the slider segment in
/// streamer mode.
pub open spec fn spec_volume_base(streamer: bool, slider: Seq<char>) -> Seq<char> {
    if streamer {
        spec_mode_prefix(streamer) + "/"@ + slider
    } else {
        spec_mode_prefix(streamer)
    }
}

/// The ghost image of a session: its address, mode and prefix.
pub struct SessionView {
    pub addr: Seq<char>,
    pub streamer: bool,
    pub prefix: Seq<char>,
}

/// A live client session.
///
/// Holds the web server address resolved by discovery and the current
/// mode; the stored volume path prefix is kept consistent with the
/// mode by the type's invariant.
#[derive(Debug)]
pub struct Sonar {
    web_server_address: String,
    streamer_mode: bool,
    volume_path: String,
}

impl View for Sonar {
    type V = SessionView;

    closed spec fn view(&self) -> SessionView {
        SessionView {
            addr: self.web_server_address@,
            streamer: self.streamer_mode,
            prefix: self.volume_path@,
        }
    }
}

/// The path prefix derived from a mode.
pub fn mode_prefix(streamer: bool) -> (r: &'static str)
    ensures
        r@ == spec_mode_prefix(streamer),
{
    if streamer {
        "/volumeSettings/streamer"
    } else {
        "/volumeSettings/classic"
    }
}

/// Interpret a response of the mode endpoint.
pub fn interpret_mode_response(mode: &str) -> (r: bool)
    ensures
        r == spec_is_stream(mode@),
{
    str_eq(mode, "stream")
}

/// Mode round trip: the word a mode-set request sends reads back as
/// the mode that was requested.
pub proof fn lemma_mode_round_trip(streamer_mode: bool)
    ensures
        spec_is_stream(spec_mode_word(streamer_mode)) == streamer_mode,
{
    reveal_strlit("stream");
    reveal_strlit("classic");
    assert("stream"@.len() == 6);
    assert("classic"@.len() == 7);
}

impl Sonar {
    #[verifier::type_invariant]
    spec fn wf(self) -> bool {
        self.volume_path@ == spec_mode_prefix(self.streamer_mode)
    }

    /// Create a session from the discovery results: the resolved web
    /// server address and the initial mode.
    pub fn from_discovery(web_server_address: String, streamer_mode: bool) -> (s: Sonar)
        ensures
            s@.addr == web_server_address@,
            s@.streamer == streamer_mode,
            s@.prefix == spec_mode_prefix(streamer_mode),
    {
        let volume_path = String::from_str(mode_prefix(streamer_mode));
        Sonar { web_server_address, streamer_mode, volume_path }
    }

    /// The resolved web server address.
    pub fn web_server_address(&self) -> (r: &str)
        ensures
            r@ == self@.addr,
    {
        self.web_server_address.as_str()
    }

    /// Whether the session is in streamer mode.
    pub fn streamer_mode(&self) -> (r: bool)
        ensures
            r == self@.streamer,
    {
        self.streamer_mode
    }

    /// The stored volume path prefix. In every reachable session it
    /// matches the mode exactly: it is a pure function of the mode.
    pub fn volume_path(&self) -> (r: &str)
        ensures
            r@ == self@.prefix,
            r@ == spec_mode_prefix(self@.streamer),
    {
        proof {
            use_type_invariant(self);
        }
        self.volume_path.as_str()
    }

    /// The request that reads the whole channel volume tree.
    pub fn volume_data_request(&self) -> (r: HttpRequest)
        ensures
            r.method == HttpMethod::Get,
            r.url@ == self@.addr + spec_mode_prefix(self@.streamer),
    {
        proof {
            use_type_invariant(self);
        }
        let mut url = self.web_server_address.clone();
        url.append(self.volume_path.as_str());
        HttpRequest { method: HttpMethod::Get, url }
    }

    /// The request that queries the current mode.
    pub fn mode_query_request(&self) -> (r: HttpRequest)
        ensures
            r.method == HttpMethod::Get,
            r.url@ == self@.addr + "/mode/"@,
    {
        let mut url = self.web_server_address.clone();
        url.append("/mode/");
        HttpRequest { method: HttpMethod::Get, url }
    }

    /// The request that asks the server for the given mode.
    pub fn set_mode_request(&self, streamer_mode: bool) -> (r: HttpRequest)
        ensures
            r.method == HttpMethod::Put,
            r.url@ == self@.addr + "/mode/"@ + spec_mode_word(streamer_mode),
    {
        let mut url = self.web_server_address.clone();
        url.append("/mode/");
        url.append(if streamer_mode {
            "stream"
        } else {
            "classic"
        });
        HttpRequest { method: HttpMethod::Put, url }
    }

    /// Adopt the mode the server confirmed — not blindly the requested
    /// one — and re-derive the path prefix from it.
    pub fn apply_mode_response(&mut self, confirmed: &str) -> (r: bool)
        ensures
            final(self)@.addr == old(self)@.addr,
            final(self)@.streamer == spec_is_stream(confirmed@),
            final(self)@.prefix == spec_mode_prefix(final(self)@.streamer),
            r == final(self)@.streamer,
    {
        let is_stream = str_eq(confirmed, "stream");
        let web_server_address = self.web_server_address.clone();
        let volume_path = String::from_str(mode_prefix(is_stream));
        *self = Sonar { web_server_address, streamer_mode: is_stream, volume_path };
        is_stream
    }

    /// Build the volume-set request: channel, volume and (in streamer
    /// mode) slider are validated, in that order, before any request
    /// exists.
    pub fn set_volume_request(
        &self,
        channel: &str,
        volume: &str,
        streamer_slider: Option<&str>,
    ) -> (r: Result<HttpRequest, SonarError>)
        ensures
            !is_channel_name(channel@) ==> (r matches Err(SonarError::ChannelNotFound(c)) && c@
                == channel@),
            is_channel_name(channel@) && !in_unit_range(volume@) ==> (r matches Err(
                SonarError::InvalidVolume(v),
            ) && v@ == volume@),
            is_channel_name(channel@) && in_unit_range(volume@) && self@.streamer
                && !is_slider_name(spec_slider_choice(streamer_slider)) ==> (r matches Err(
                SonarError::SliderNotFound(s),
            ) && s@ == spec_slider_choice(streamer_slider)),
            is_channel_name(channel@) && in_unit_range(volume@) && (self@.streamer
                ==> is_slider_name(spec_slider_choice(streamer_slider))) ==> (r matches Ok(req)
                && req.method == HttpMethod::Put && req.url@ == self@.addr + spec_volume_base(
                self@.streamer,
                spec_slider_choice(streamer_slider),
            ) + "/"@ + channel@ + "/Volume/"@ + volume@),
    {
        proof {
            use_type_invariant(self);
        }
        if !valid_channel_name(channel) {
            return Err(SonarError::ChannelNotFound(String::from_str(channel)));
        }
        if !volume_text_in_range(volume) {
            return Err(SonarError::InvalidVolume(String::from_str(volume)));
        }
        let slider = match streamer_slider {
            Some(s) => s,
            None => "streaming",
        };
        if self.streamer_mode && !valid_slider_name(slider) {
            return Err(SonarError::SliderNotFound(String::from_str(slider)));
        }
        let mut url = self.web_server_address.clone();
        url.append(self.volume_path.as_str());
        if self.streamer_mode {
            url.append("/");
            url.append(slider);
        }
        url.append("/");
        url.append(channel);
        url.append("/Volume/");
        url.append(volume);
        proof {
            assert(url@ =~= self@.addr + spec_volume_base(
                self@.streamer,
                spec_slider_choice(streamer_slider),
            ) + "/"@ + channel@ + "/Volume/"@ + volume@);
        }
        Ok(HttpRequest { method: HttpMethod::Put, url })
    }

    /// Build the mute-set request: channel and (in streamer mode)
    /// slider are validated; the mute keyword follows the mode.
    pub fn mute_channel_request(
        &self,
        channel: &str,
        muted: bool,
        streamer_slider: Option<&str>,
    ) -> (r: Result<HttpRequest, SonarError>)
        ensures
            !is_channel_name(channel@) ==> (r matches Err(SonarError::ChannelNotFound(c)) && c@
                == channel@),
            is_channel_name(channel@) && self@.streamer && !is_slider_name(
                spec_slider_choice(streamer_slider),
            ) ==> (r matches Err(SonarError::SliderNotFound(s)) && s@ == spec_slider_choice(
                streamer_slider,
            )),
            is_channel_name(channel@) && (self@.streamer ==> is_slider_name(
                spec_slider_choice(streamer_slider),
            )) ==> (r matches Ok(req) && req.method == HttpMethod::Put && req.url@ == self@.addr
                + spec_volume_base(self@.streamer, spec_slider_choice(streamer_slider)) + "/"@
                + channel@ + "/"@ + spec_mute_keyword(self@.streamer) + "/"@ + spec_bool_text(
                muted,
            )),
    {
        proof {
            use_type_invariant(self);
        }
        if !valid_channel_name(channel) {
            return Err(SonarError::ChannelNotFound(String::from_str(channel)));
        }
        let slider = match streamer_slider {
            Some(s) => s,
            None => "streaming",
        };
        if self.streamer_mode && !valid_slider_name(slider) {
            return Err(SonarError::SliderNotFound(String::from_str(slider)));
        }
        let mut url = self.web_server_address.clone();
        url.append(self.volume_path.as_str());
        if self.streamer_mode {
            url.append("/");
            url.append(slider);
        }
        url.append("/");
        url.append(channel);
        url.append("/");
        url.append(if self.streamer_mode {
            "isMuted"
        } else {
            "Mute"
        });
        url.append("/");
        url.append(if muted {
            "true"
        } else {
            "false"
        });
        proof {
            assert(url@ =~= self@.addr + spec_volume_base(
                self@.streamer,
                spec_slider_choice(streamer_slider),
            ) + "/"@ + channel@ + "/"@ + spec_mute_keyword(self@.streamer) + "/"@ + spec_bool_text(
                muted,
            ));
        }
        Ok(HttpRequest { method: HttpMethod::Put, url })
    }

    /// The request that reads the chat-mix data.
    pub fn chat_mix_data_request(&self) -> (r: HttpRequest)
        ensures
            r.method == HttpMethod::Get,
            r.url@ == self@.addr + "/chatMix"@,
    {
        let mut url = self.web_server_address.clone();
        url.append("/chatMix");
        HttpRequest { method: HttpMethod::Get, url }
    }

    /// Build the chat-mix-set request, validating the balance range.
    pub fn set_chat_mix_request(&self, balance: &str) -> (r: Result<HttpRequest, SonarError>)
        ensures
            !in_balance_range(balance@) ==> (r matches Err(SonarError::InvalidMixVolume(b)) && b@
                == balance@),
            in_balance_range(balance@) ==> (r matches Ok(req) && req.method == HttpMethod::Put
                && req.url@ == self@.addr + "/chatMix?balance="@ + balance@),
    {
        if !balance_text_in_range(balance) {
            return Err(SonarError::InvalidMixVolume(String::from_str(balance)));
        }
        let mut url = self.web_server_address.clone();
        url.append("/chatMix?balance=");
        url.append(balance);
        proof {
            assert(url@ =~= self@.addr + "/chatMix?balance="@ + balance@);
        }
        Ok(HttpRequest { method: HttpMethod::Put, url })
    }
}

} // verus!
