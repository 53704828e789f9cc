//! Listener acquisition: what a bind attempt on the configured address
//! yields.

use vstd::prelude::*;
use crate::config::ServerSettings;

verus! {

/// A socket that the operating system has bound, with the local port it
/// reports for it.
#[derive(Debug, PartialEq, Eq)]
pub struct BoundSocket<L> {
    pub listener: L,
    pub local_port: u16,
}

/// A bound listener with the port and the security label it was acquired
/// under. The handle owns the listener; dropping the handle releases it.
#[derive(Debug, PartialEq, Eq)]
pub struct ServerParams<L> {
    pub svr_listener: L,
    pub svr_secure: bool,
    pub svr_port: u16,
}

/// The port a service is reached on: the configured port, or, where the
/// configuration asked for port 0 and so left the choice to the operating
/// system, the port that the system assigned.
pub open spec fn resolved_port(configured: u16, local: u16) -> u16 {
    if configured == 0 {
        local
    } else {
        configured
    }
}

/// The handle for a socket bound under settings with the given port and
/// security label.
pub open spec fn listener_handle<L>(port: u16, secure: bool, socket: BoundSocket<L>)
    -> ServerParams<L> {
    ServerParams {
        svr_listener: socket.listener,
        svr_secure: secure,
        svr_port: resolved_port(port, socket.local_port),
    }
}

/// A bind attempt that failed: the address tried and what the operating
/// system said.
#[derive(Clone, Debug, PartialEq, Eq)]
pub struct BindError {
    pub address: String,
    pub reason: String,
}

/// The mathematical value of a [`BindError`].
pub ghost struct BindErrorView {
    pub address: Seq<char>,
    pub reason: Seq<char>,
}

impl View for BindError {
    type V = BindErrorView;

    open spec fn view(&self) -> BindErrorView {
        BindErrorView { address: self.address@, reason: self.reason@ }
    }
}

/// Turns the outcome of a bind attempt on `settings.get_tcp_listener()` into
/// a listener handle or a bind error.
///
/// A bound listener is handed on with the security label of the settings
/// and the resolved port. A failure is reported with the address that was
/// tried and the reason given; no other address is tried.
pub fn get_server_listener<L>(settings: &ServerSettings, bound: Result<BoundSocket<L>, String>)
    -> (outcome: Result<ServerParams<L>, BindError>)
    ensures
        match bound {
            Ok(socket) => outcome == Ok::<ServerParams<L>, BindError>(
                listener_handle(settings@.port, settings@.secure, socket),
            ),
            Err(reason) => outcome matches Err(error) && error@ == (BindErrorView {
                address: settings@.tcp_listener(),
                reason: reason@,
            }),
        },
{
    match bound {
        Ok(socket) => {
            let configured = settings.get_port();
            let svr_port = if configured == 0 {
                socket.local_port
            } else {
                configured
            };
            Ok(
                ServerParams {
                    svr_listener: socket.listener,
                    svr_secure: settings.is_secure(),
                    svr_port,
                },
            )
        },
        Err(reason) => Err(BindError { address: settings.get_tcp_listener(), reason }),
    }
}

} // verus!
