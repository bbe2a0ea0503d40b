//! What the network client is set up with: who connects where, with which
//! login, and the last will that reports power as off when the connection is
//! lost without a goodbye.

use vstd::prelude::*;
use crate::message::{off_payload, retained, Publication, PublicationView, Topics, TopicsView};
use crate::settings::{MqttCredential, MqttSettings, MqttTransport, Settings};

verus! {

/// Number of requests the client may hold back before `publish` waits. One is
/// enough: there is no point in queueing several values for one topic.
pub const REQUEST_CAPACITY: usize = 1;

/// Mathematical model of the connection's parameters.
pub ghost struct ConnectOptionsView {
    pub client_id: Seq<char>,
    pub host: Seq<char>,
    pub port: u16,
    pub transport: MqttTransport,
    /// User name and password.
    pub credentials: Option<(Seq<char>, Seq<char>)>,
    pub last_will: PublicationView,
    pub request_capacity: usize,
}

/// The connection's parameters.
#[derive(Clone, Debug, PartialEq, Eq)]
pub struct ConnectOptions {
    /// Name under which the client connects.
    pub client_id: String,
    /// The broker's name or address.
    pub host: String,
    pub port: u16,
    pub transport: MqttTransport,
    pub credentials: Option<MqttCredential>,
    /// The message that the broker publishes when the client disappears.
    pub last_will: Publication,
    /// Number of requests the client may hold back.
    pub request_capacity: usize,
}

/// User name and password of a login, if there is one.
pub open spec fn login(credentials: Option<MqttCredential>) -> Option<(Seq<char>, Seq<char>)> {
    match credentials {
        Some(credential) => Some((credential.username@, credential.password@)),
        None => None,
    }
}

impl View for ConnectOptions {
    type V = ConnectOptionsView;

    open spec fn view(&self) -> ConnectOptionsView {
        ConnectOptionsView {
            client_id: self.client_id@,
            host: self.host@,
            port: self.port,
            transport: self.transport,
            credentials: login(self.credentials),
            last_will: self.last_will@,
            request_capacity: self.request_capacity,
        }
    }
}

/// The parameters that follow from the settings: the instance id as client
/// id, the configured port or the transport's default, and a retained `OFF`
/// on the power topic as last will.
pub open spec fn connection(
    id: Seq<char>,
    mqtt: MqttSettings,
    topics: TopicsView,
) -> ConnectOptionsView {
    ConnectOptionsView {
        client_id: id,
        host: mqtt.host@,
        port: mqtt.spec_port(),
        transport: mqtt.transport,
        credentials: login(mqtt.credentials),
        last_will: retained(topics.power, off_payload()),
        request_capacity: REQUEST_CAPACITY,
    }
}

/// A copy of a login.
fn copy_credentials(credentials: &Option<MqttCredential>) -> (copy: Option<MqttCredential>)
    ensures
        login(copy) == login(*credentials),
{
    match credentials {
        Some(credential) => Some(
            MqttCredential {
                username: credential.username.clone(),
                password: credential.password.clone(),
            },
        ),
        None => None,
    }
}

/// The parameters to connect with.
pub fn connect_options(settings: &Settings, topics: &Topics) -> (options: ConnectOptions)
    ensures
        options@ == connection(settings.id@, settings.mqtt, topics@),
{
    ConnectOptions {
        client_id: settings.id.clone(),
        host: settings.mqtt.host.clone(),
        port: settings.mqtt.effective_port(),
        transport: settings.mqtt.transport,
        credentials: copy_credentials(&settings.mqtt.credentials),
        last_will: Publication::retained(topics.power.clone(), String::from_str("OFF")),
        request_capacity: REQUEST_CAPACITY,
    }
}

} // verus!
