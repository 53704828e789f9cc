//! The lifecycle of one service start, from the bind attempt to the
//! terminal result.
//!
//! The lifecycle decides; the embedding program acts. [`server_start`] sets
//! a start up and asks for the bind attempt. Each thing that then happens is
//! fed to [`Lifecycle::advance`] as a [`LifecycleEvent`], and the
//! [`LifecycleAction`] that comes back says what to do next: install the
//! signal handlers, serve on the listener while the shutdown coordinator
//! waits, or hand the terminal result to the caller.

use vstd::prelude::*;
use crate::address::{composed, ServiceAddress, ServiceAddressView};
use crate::config::{ServerSettings, ServerSettingsView};
use crate::display::{set_static_app_url, SharedDisplayState};
use crate::server::{
    get_server_listener, listener_handle, resolved_port, BindError, BindErrorView, BoundSocket,
    ServerParams,
};

verus! {

/// A signal handler that the operating system would not register.
#[derive(Clone, Debug, PartialEq, Eq)]
pub struct SignalInstallError {
    pub reason: String,
}

/// An input/output failure that the serving loop ended with.
#[derive(Clone, Debug, PartialEq, Eq)]
pub struct ServingError {
    pub reason: String,
}

/// Why a start ended without success.
#[derive(Clone, Debug, PartialEq, Eq)]
pub enum LifecycleError {
    /// The listening socket could not be bound. Nothing was started.
    Bind(BindError),
    /// A signal handler could not be installed. The service could not be
    /// stopped cleanly, so the start is given up before serving begins.
    SignalInstall(SignalInstallError),
    /// The serving loop failed. The failure is reported as it came.
    Serving(ServingError),
}

/// The mathematical value of a [`LifecycleError`].
pub ghost enum LifecycleErrorView {
    Bind(BindErrorView),
    SignalInstall { reason: Seq<char> },
    Serving { reason: Seq<char> },
}

impl View for LifecycleError {
    type V = LifecycleErrorView;

    open spec fn view(&self) -> LifecycleErrorView {
        match self {
            LifecycleError::Bind(error) => LifecycleErrorView::Bind(error@),
            LifecycleError::SignalInstall(error) => LifecycleErrorView::SignalInstall {
                reason: error.reason@,
            },
            LifecycleError::Serving(error) => LifecycleErrorView::Serving {
                reason: error.reason@,
            },
        }
    }
}

/// Where a start stands.
#[derive(Debug, PartialEq, Eq)]
pub enum Phase<L> {
    /// The bind attempt is under way.
    Binding,
    /// The listener is bound and the address is published; the signal
    /// handlers are being installed. The lifecycle holds the listener.
    Arming(ServerParams<L>),
    /// The listener has been handed to the serving loop.
    Serving,
    /// The terminal result has been handed out.
    Finished,
}

/// Something that happened outside and is reported to the lifecycle.
#[derive(Debug, PartialEq, Eq)]
pub enum LifecycleEvent<L> {
    /// The bind attempt returned: the bound socket, or the operating
    /// system's error text.
    BindReturned(Result<BoundSocket<L>, String>),
    /// Every signal handler is installed.
    HandlersInstalled,
    /// A signal handler could not be installed.
    InstallFailed(String),
    /// The serving loop returned: after a graceful shutdown, or with the
    /// text of an input/output error.
    ServeReturned(Result<(), String>),
}

/// The mathematical value of a [`LifecycleEvent`].
pub ghost enum LifecycleEventView<L> {
    BindReturned(Result<BoundSocket<L>, Seq<char>>),
    HandlersInstalled,
    InstallFailed(Seq<char>),
    ServeReturned(Result<(), Seq<char>>),
}

impl<L> View for LifecycleEvent<L> {
    type V = LifecycleEventView<L>;

    open spec fn view(&self) -> LifecycleEventView<L> {
        match self {
            LifecycleEvent::BindReturned(Ok(socket)) => LifecycleEventView::BindReturned(
                Ok(*socket),
            ),
            LifecycleEvent::BindReturned(Err(reason)) => LifecycleEventView::BindReturned(
                Err(reason@),
            ),
            LifecycleEvent::HandlersInstalled => LifecycleEventView::HandlersInstalled,
            LifecycleEvent::InstallFailed(reason) => LifecycleEventView::InstallFailed(reason@),
            LifecycleEvent::ServeReturned(Ok(())) => LifecycleEventView::ServeReturned(Ok(())),
            LifecycleEvent::ServeReturned(Err(reason)) => LifecycleEventView::ServeReturned(
                Err(reason@),
            ),
        }
    }
}

/// What the embedding program is to do next.
#[derive(Debug, PartialEq, Eq)]
pub enum LifecycleAction<L> {
    /// Nothing: the event has no effect in the current phase.
    Ignore,
    /// Bind a listening socket on this address and report `BindReturned`.
    Bind(String),
    /// Install the handlers of the termination signals and report
    /// `HandlersInstalled` or `InstallFailed`.
    InstallHandlers,
    /// Serve on this listener, stop accepting when the shutdown coordinator
    /// completes, let the connections in flight finish, and report
    /// `ServeReturned`.
    Serve(ServerParams<L>),
    /// Hand this terminal result to the caller.
    Exit(Result<(), LifecycleError>),
}

/// The mathematical value of a [`LifecycleAction`].
pub ghost enum LifecycleActionView<L> {
    Ignore,
    Bind(Seq<char>),
    InstallHandlers,
    Serve(ServerParams<L>),
    Exit(Result<(), LifecycleErrorView>),
}

impl<L> View for LifecycleAction<L> {
    type V = LifecycleActionView<L>;

    open spec fn view(&self) -> LifecycleActionView<L> {
        match self {
            LifecycleAction::Ignore => LifecycleActionView::Ignore,
            LifecycleAction::Bind(target) => LifecycleActionView::Bind(target@),
            LifecycleAction::InstallHandlers => LifecycleActionView::InstallHandlers,
            LifecycleAction::Serve(params) => LifecycleActionView::Serve(*params),
            LifecycleAction::Exit(Ok(())) => LifecycleActionView::Exit(Ok(())),
            LifecycleAction::Exit(Err(error)) => LifecycleActionView::Exit(Err(error@)),
        }
    }
}

/// The mathematical value of a [`Lifecycle`].
pub ghost struct LifecycleModel<L> {
    pub settings: ServerSettingsView,
    pub app_path: Seq<char>,
    pub phase: Phase<L>,
}

impl<L> LifecycleModel<L> {
    /// The lifecycle of a fresh start: the bind attempt is under way.
    pub open spec fn initial(settings: ServerSettingsView, app_path: Seq<char>) -> LifecycleModel<
        L,
    > {
        LifecycleModel { settings, app_path, phase: Phase::Binding }
    }

    /// The same lifecycle in another phase.
    pub open spec fn at(self, phase: Phase<L>) -> LifecycleModel<L> {
        LifecycleModel { settings: self.settings, app_path: self.app_path, phase }
    }

    /// The address under which clients reach the service of this start,
    /// once its socket is bound on `local_port`.
    pub open spec fn address(self, local_port: u16) -> ServiceAddressView {
        composed(
            self.settings.bind_address,
            resolved_port(self.settings.port, local_port),
            self.settings.secure,
            self.app_path,
        )
    }

    /// The handle for a socket bound under the settings of this start.
    pub open spec fn handle(self, socket: BoundSocket<L>) -> ServerParams<L> {
        listener_handle(self.settings.port, self.settings.secure, socket)
    }

    /// The transition function: given the shown address before the step and
    /// an event, the lifecycle and the shown address after it and the action
    /// called for.
    ///
    /// A bound listener publishes the composed address and asks for the
    /// signal handlers; with those installed, serving begins. A failed bind,
    /// a failed installation and the return of the serving loop each end the
    /// start with the matching result. Every other pair of phase and event
    /// leaves everything as it is.
    pub open spec fn next(self, shown: Seq<char>, event: LifecycleEventView<L>) -> (
        LifecycleModel<L>,
        Seq<char>,
        LifecycleActionView<L>,
    ) {
        match (self.phase, event) {
            (Phase::Binding, LifecycleEventView::BindReturned(Ok(socket))) => (
                self.at(Phase::Arming(self.handle(socket))),
                self.address(socket.local_port).text(),
                LifecycleActionView::InstallHandlers,
            ),
            (Phase::Binding, LifecycleEventView::BindReturned(Err(reason))) => (
                self.at(Phase::Finished),
                shown,
                LifecycleActionView::Exit(
                    Err(
                        LifecycleErrorView::Bind(
                            BindErrorView { address: self.settings.tcp_listener(), reason },
                        ),
                    ),
                ),
            ),
            (Phase::Arming(params), LifecycleEventView::HandlersInstalled) => (
                self.at(Phase::Serving),
                shown,
                LifecycleActionView::Serve(params),
            ),
            (Phase::Arming(_), LifecycleEventView::InstallFailed(reason)) => (
                self.at(Phase::Finished),
                shown,
                LifecycleActionView::Exit(Err(LifecycleErrorView::SignalInstall { reason })),
            ),
            (Phase::Serving, LifecycleEventView::ServeReturned(Ok(()))) => (
                self.at(Phase::Finished),
                shown,
                LifecycleActionView::Exit(Ok(())),
            ),
            (Phase::Serving, LifecycleEventView::ServeReturned(Err(reason))) => (
                self.at(Phase::Finished),
                shown,
                LifecycleActionView::Exit(Err(LifecycleErrorView::Serving { reason })),
            ),
            _ => (self, shown, LifecycleActionView::Ignore),
        }
    }
}

/// One start of the service. It owns the listener from the moment it is
/// bound until it is handed to the serving loop.
#[derive(Debug)]
pub struct Lifecycle<L> {
    settings: ServerSettings,
    app_path: String,
    phase: Phase<L>,
}

impl<L> View for Lifecycle<L> {
    type V = LifecycleModel<L>;

    closed spec fn view(&self) -> LifecycleModel<L> {
        LifecycleModel { settings: self.settings@, app_path: self.app_path@, phase: self.phase }
    }
}

/// Begins a start of the service under `settings`, to be shown under
/// `app_path`: asks for a bind attempt on the configured address.
pub fn server_start<L>(settings: ServerSettings, app_path: String) -> (start: (
    Lifecycle<L>,
    LifecycleAction<L>,
))
    ensures
        start.0@ == LifecycleModel::<L>::initial(settings@, app_path@),
        start.1@ == LifecycleActionView::<L>::Bind(settings@.tcp_listener()),
{
    let target = settings.get_tcp_listener();
    (Lifecycle { settings, app_path, phase: Phase::Binding }, LifecycleAction::Bind(target))
}

impl<L> Lifecycle<L> {
    /// Takes in one event and says what to do next. When the event is a
    /// bound listener, the composed address is written to `display`;
    /// otherwise `display` is left as it is.
    pub fn advance(self, display: &mut SharedDisplayState, event: LifecycleEvent<L>) -> (step: (
        Lifecycle<L>,
        LifecycleAction<L>,
    ))
        ensures
            (step.0@, final(display)@, step.1@) == self@.next(old(display)@, event@),
    {
        let Lifecycle { settings, app_path, phase } = self;
        match phase {
            Phase::Binding => match event {
                LifecycleEvent::BindReturned(bound) => match get_server_listener(
                    &settings,
                    bound,
                ) {
                    Ok(params) => {
                        let address = ServiceAddress::compose(
                            settings.bind_address.as_str(),
                            params.svr_port,
                            params.svr_secure,
                            app_path.as_str(),
                        );
                        set_static_app_url(display, address.render());
                        (
                            Lifecycle { settings, app_path, phase: Phase::Arming(params) },
                            LifecycleAction::InstallHandlers,
                        )
                    },
                    Err(error) => (
                        Lifecycle { settings, app_path, phase: Phase::Finished },
                        LifecycleAction::Exit(Err(LifecycleError::Bind(error))),
                    ),
                },
                _ => (
                    Lifecycle { settings, app_path, phase: Phase::Binding },
                    LifecycleAction::Ignore,
                ),
            },
            Phase::Arming(params) => match event {
                LifecycleEvent::HandlersInstalled => (
                    Lifecycle { settings, app_path, phase: Phase::Serving },
                    LifecycleAction::Serve(params),
                ),
                LifecycleEvent::InstallFailed(reason) => (
                    Lifecycle { settings, app_path, phase: Phase::Finished },
                    LifecycleAction::Exit(
                        Err(LifecycleError::SignalInstall(SignalInstallError { reason })),
                    ),
                ),
                _ => (
                    Lifecycle { settings, app_path, phase: Phase::Arming(params) },
                    LifecycleAction::Ignore,
                ),
            },
            Phase::Serving => match event {
                LifecycleEvent::ServeReturned(Ok(())) => (
                    Lifecycle { settings, app_path, phase: Phase::Finished },
                    LifecycleAction::Exit(Ok(())),
                ),
                LifecycleEvent::ServeReturned(Err(reason)) => (
                    Lifecycle { settings, app_path, phase: Phase::Finished },
                    LifecycleAction::Exit(Err(LifecycleError::Serving(ServingError { reason }))),
                ),
                _ => (
                    Lifecycle { settings, app_path, phase: Phase::Serving },
                    LifecycleAction::Ignore,
                ),
            },
            Phase::Finished => (
                Lifecycle { settings, app_path, phase: Phase::Finished },
                LifecycleAction::Ignore,
            ),
        }
    }

    /// Whether the terminal result has been handed out.
    pub fn is_finished(&self) -> (finished: bool)
        ensures
            finished == (self@.phase is Finished),
    {
        match &self.phase {
            Phase::Finished => true,
            _ => false,
        }
    }

    /// Whether the listener has been handed to the serving loop and the
    /// loop has not returned yet.
    pub fn is_serving(&self) -> (serving: bool)
        ensures
            serving == (self@.phase is Serving),
    {
        match &self.phase {
            Phase::Serving => true,
            _ => false,
        }
    }
}

} // verus!
