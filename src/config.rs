//! The configuration the service runs with, loaded once at startup.
use vstd::prelude::*;

use crate::address::{address_text, listen_address_text};
use crate::notify::{body_text, json_media_type, notify_request, NotifyRequest};
use crate::redact::{mask, masked};

verus! {

/// Why the configuration could not be loaded.
#[derive(Debug, Clone, Copy, PartialEq, Eq, Structural)]
pub enum ConfigError {
    /// The configuration file could not be read.
    Io,
    /// The file's content does not have the configuration's shape.
    Parse,
}

/// The integer and text settings of the service. The building's insulation
/// value, a floating-point number that nothing here reads, stays with the
/// program that loads the file.
pub struct Configuration {
    pub floor_area: i32,
    pub stories: i32,
    /// Address the listener binds, without the port.
    pub listen_ip: String,
    /// Port the listener binds, as text.
    pub port: String,
    /// Credential for the home-automation API; logged only masked.
    pub hass_token: String,
}

impl Configuration {
    pub fn new(floor_area: i32, stories: i32, listen_ip: String, port: String, hass_token: String) -> (r: Self)
        ensures
            r.floor_area == floor_area,
            r.stories == stories,
            r.listen_ip@ == listen_ip@,
            r.port@ == port@,
            r.hass_token@ == hass_token@,
    {
        Configuration { floor_area, stories, listen_ip, port, hass_token }
    }

    /// The token as it may appear in a log.
    pub fn masked_token(&self) -> (r: String)
        ensures
            r@ == masked(self.hass_token@),
    {
        mask(self.hass_token.as_str())
    }

    /// `listen_ip:port`, to be parsed as the listener's socket address.
    pub fn listen_address(&self) -> (r: String)
        ensures
            r@ == address_text(self.listen_ip@, self.port@),
    {
        listen_address_text(self.listen_ip.as_str(), self.port.as_str())
    }

    /// The notification of `data` to `url`, authorised with this
    /// configuration's token.
    pub fn notification(&self, url: &str, data: &str) -> (r: NotifyRequest)
        ensures
            r.url@ == url@,
            r.content_type@ == json_media_type(),
            r.authorization@ == self.hass_token@,
            r.body@ == body_text(data@),
    {
        notify_request(url, self.hass_token.as_str(), data)
    }
}

} // verus!
