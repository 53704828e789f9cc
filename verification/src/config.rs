//! The configuration a service is started from.

use vstd::prelude::*;
use crate::decimal::{append_decimal, decimal};

verus! {

/// Where to listen and how the service labels itself.
///
/// `secure` is a label taken from configuration; nothing here negotiates a
/// protocol.
#[derive(Clone, Debug, PartialEq, Eq)]
pub struct ServerSettings {
    pub bind_address: String,
    pub port: u16,
    pub secure: bool,
}

/// The mathematical value of a [`ServerSettings`].
pub ghost struct ServerSettingsView {
    pub bind_address: Seq<char>,
    pub port: u16,
    pub secure: bool,
}

impl View for ServerSettings {
    type V = ServerSettingsView;

    open spec fn view(&self) -> ServerSettingsView {
        ServerSettingsView {
            bind_address: self.bind_address@,
            port: self.port,
            secure: self.secure,
        }
    }
}

/// The socket address text `host:port` that a bind attempt is made on.
pub open spec fn bind_target(host: Seq<char>, port: u16) -> Seq<char> {
    host + ":"@ + decimal(port as nat)
}

impl ServerSettingsView {
    /// The socket address these settings ask to bind.
    pub open spec fn tcp_listener(self) -> Seq<char> {
        bind_target(self.bind_address, self.port)
    }
}

impl ServerSettings {
    pub fn new(bind_address: String, port: u16, secure: bool) -> (settings: ServerSettings)
        ensures
            settings@ == (ServerSettingsView { bind_address: bind_address@, port, secure }),
    {
        ServerSettings { bind_address, port, secure }
    }

    /// The socket address text to bind: the host, a colon, the port in
    /// base ten.
    pub fn get_tcp_listener(&self) -> (target: String)
        ensures
            target@ == self@.tcp_listener(),
    {
        let mut target = self.bind_address.clone();
        target.append(":");
        append_decimal(&mut target, self.port as u64);
        target
    }

    pub fn get_port(&self) -> (port: u16)
        ensures
            port == self@.port,
    {
        self.port
    }

    pub fn is_secure(&self) -> (secure: bool)
        ensures
            secure == self@.secure,
    {
        self.secure
    }
}

} // verus!
