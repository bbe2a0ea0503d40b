//! Bridges a virtual-reality runtime's event stream to retained MQTT topics.
//!
//! The library holds the decisions of the bridge: how the runtime's events
//! change the shared state (`translator`), how the shared state is kept and
//! observed (`channel`, `mqtt`), what is sent to the broker and when
//! (`publisher`, `discovery`, `message`), how the connection is set up and
//! watched over (`connection`, `supervisor`), and how the runtime's replies
//! are read (`openvr`). Calling the runtime and the network is the caller's
//! part.

pub mod channel;
pub mod connection;
pub mod discovery;
pub mod flow;
pub mod json;
pub mod message;
pub mod mqtt;
pub mod openvr;
pub mod publisher;
pub mod settings;
pub mod supervisor;
pub mod translator;
