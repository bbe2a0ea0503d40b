//! Connection parameters of the bridge and their defaults.

use vstd::prelude::*;

verus! {

/// Port of a plaintext broker when none is configured.
pub const DEFAULT_TCP_PORT: u16 = 1883;

/// Port of an encrypted broker when none is configured.
pub const DEFAULT_TLS_PORT: u16 = 8883;

/// How the connection to the broker is carried.
#[derive(Clone, Copy, Debug, PartialEq, Eq, Structural)]
pub enum MqttTransport {
    /// Plaintext TCP.
    Tcp,
    /// TLS over TCP.
    Tls,
}

impl Default for MqttTransport {
    /// An unconfigured transport is encrypted.
    fn default() -> (transport: Self)
        ensures
            transport == MqttTransport::Tls,
    {
        MqttTransport::Tls
    }
}

impl MqttTransport {
    /// The port this transport uses when the settings name none.
    pub open spec fn default_port(self) -> u16 {
        match self {
            MqttTransport::Tcp => DEFAULT_TCP_PORT,
            MqttTransport::Tls => DEFAULT_TLS_PORT,
        }
    }
}

/// Login presented to the broker.
#[derive(Clone, Debug, PartialEq, Eq)]
pub struct MqttCredential {
    pub username: String,
    pub password: String,
}

/// Where and how to reach the broker.
#[derive(Clone, Debug)]
pub struct MqttSettings {
    pub host: String,
    pub port: Option<u16>,
    pub transport: MqttTransport,
    pub credentials: Option<MqttCredential>,
}

impl MqttSettings {
    /// The port to connect to: the configured one, else the transport's default.
    pub open spec fn spec_port(&self) -> u16 {
        match self.port {
            Some(port) => port,
            None => self.transport.default_port(),
        }
    }

    /// The port to connect to: the configured one, else 1883 for plaintext and
    /// 8883 for an encrypted transport.
    pub fn effective_port(&self) -> (port: u16)
        ensures
            port == self.spec_port(),
    {
        match self.port {
            Some(port) => port,
            None => match self.transport {
                MqttTransport::Tcp => DEFAULT_TCP_PORT,
                MqttTransport::Tls => DEFAULT_TLS_PORT,
            },
        }
    }
}

/// Everything the bridge is configured with.
#[derive(Clone, Debug)]
pub struct Settings {
    /// Instance id: the client id and the middle part of every topic.
    pub id: String,
    /// Human-readable name used in discovery messages.
    pub name: String,
    /// First part of every state topic.
    pub prefix: String,
    /// First part of every discovery topic; empty disables discovery.
    pub hass_prefix: String,
    pub mqtt: MqttSettings,
}

impl Settings {
    /// Whether discovery messages are announced at startup.
    pub open spec fn spec_discovery_enabled(&self) -> bool {
        self.hass_prefix@.len() > 0
    }

    /// Whether discovery messages are announced at startup: exactly when the
    /// discovery prefix is not empty.
    pub fn discovery_enabled(&self) -> (enabled: bool)
        ensures
            enabled == self.spec_discovery_enabled(),
    {
        !self.hass_prefix.as_str().is_empty()
    }
}

/// The topic prefix used when the settings name none.
pub fn default_prefix() -> (prefix: String)
    ensures
        prefix@ == "vr-status"@,
{
    String::from_str("vr-status")
}

/// The discovery prefix used when the settings name none.
pub fn default_hass_prefix() -> (prefix: String)
    ensures
        prefix@ == "homeassistant"@,
{
    String::from_str("homeassistant")
}

} // verus!
