//! What the user last chose: where to connect and how.

use crate::types::{PayloadType, Protocol};
use vstd::prelude::*;

verus! {

/// The settings of the main window.
#[derive(Debug)]
pub struct Config {
    pub address: String,
    pub port: String,
    pub initial_payload: String,
    pub initial_payload_type: PayloadType,
    pub protocol: Protocol,
}

/// What a [`Config`] holds, as plain values.
pub struct ConfigView {
    pub address: Seq<char>,
    pub port: Seq<char>,
    pub initial_payload: Seq<char>,
    pub initial_payload_type: PayloadType,
    pub protocol: Protocol,
}

impl View for Config {
    type V = ConfigView;

    open spec fn view(&self) -> ConfigView {
        ConfigView {
            address: self.address@,
            port: self.port@,
            initial_payload: self.initial_payload@,
            initial_payload_type: self.initial_payload_type,
            protocol: self.protocol,
        }
    }
}

/// The settings of a first start: TCP to port 8080 of this machine, no
/// initial payload.
pub open spec fn default_config() -> ConfigView {
    ConfigView {
        address: "127.0.0.1"@,
        port: "8080"@,
        initial_payload: Seq::empty(),
        initial_payload_type: PayloadType::Hex,
        protocol: Protocol::Tcp,
    }
}

impl Default for Config {
    fn default() -> (r: Self)
        ensures
            r@ == default_config(),
    {
        Config {
            address: String::from_str("127.0.0.1"),
            port: String::from_str("8080"),
            initial_payload: String::new(),
            initial_payload_type: PayloadType::Hex,
            protocol: Protocol::Tcp,
        }
    }
}

impl Clone for Config {
    fn clone(&self) -> (r: Self)
        ensures
            r == *self,
    {
        Config {
            address: self.address.clone(),
            port: self.port.clone(),
            initial_payload: self.initial_payload.clone(),
            initial_payload_type: self.initial_payload_type,
            protocol: self.protocol,
        }
    }
}

} // verus!
