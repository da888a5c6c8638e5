//! Start-up, step by step. The caller resolves, binds and serves; what to do
//! next, and when to give up, is decided here.

use vstd::prelude::*;
use vstd::string::StringExecFns;

use crate::config::AppConfig;

verus! {

/// Why start-up was given up.
#[derive(Clone, Debug, PartialEq, Eq)]
pub enum StartupError {
    /// The host and port could not be resolved; with the resolver's words.
    Resolve(String),
    /// Host and port resolved to no address at all.
    NoAddress,
    /// The socket could not be bound; with the system's words.
    Bind(String),
}

/// Where start-up stands.
#[derive(Clone, Debug, PartialEq, Eq)]
pub enum StartupState {
    /// Host and port are to be resolved.
    Resolving,
    /// The first of the `addresses` that were found is to be bound.
    Binding { addresses: usize },
    /// The listener is bound and requests are served.
    Serving,
    /// Start-up was given up. Nothing is tried again.
    Failed(StartupError),
}

/// What the caller reports back.
#[derive(Clone, Debug, PartialEq, Eq)]
pub enum StartupEvent {
    /// Host and port resolved to so many addresses.
    Resolved { addresses: usize },
    ResolveFailed(String),
    Bound,
    BindFailed(String),
}

/// What the caller is to do.
#[derive(Clone, Debug, PartialEq, Eq)]
pub enum StartupAction {
    /// Resolve this host and port.
    Resolve { host: String, port: u16 },
    /// Bind the address at this place among those that were found.
    Bind { address: usize },
    /// Serve requests on the bound listener, for as long as the process runs.
    Serve,
    /// Stop, and report the error.
    Abort(StartupError),
}

/// A [`StartupError`] as mathematical text.
pub enum StartupErrorView {
    Resolve(Seq<char>),
    NoAddress,
    Bind(Seq<char>),
}

/// A [`StartupState`] as mathematical text.
pub enum StartupStateView {
    Resolving,
    Binding { addresses: nat },
    Serving,
    Failed(StartupErrorView),
}

/// A [`StartupEvent`] as mathematical text.
pub enum StartupEventView {
    Resolved { addresses: nat },
    ResolveFailed(Seq<char>),
    Bound,
    BindFailed(Seq<char>),
}

/// A [`StartupAction`] as mathematical text.
pub enum StartupActionView {
    Resolve { host: Seq<char>, port: u16 },
    Bind { address: nat },
    Serve,
    Abort(StartupErrorView),
}

impl View for StartupError {
    type V = StartupErrorView;

    open spec fn view(&self) -> StartupErrorView {
        match self {
            StartupError::Resolve(words) => StartupErrorView::Resolve(words@),
            StartupError::NoAddress => StartupErrorView::NoAddress,
            StartupError::Bind(words) => StartupErrorView::Bind(words@),
        }
    }
}

impl View for StartupState {
    type V = StartupStateView;

    open spec fn view(&self) -> StartupStateView {
        match self {
            StartupState::Resolving => StartupStateView::Resolving,
            StartupState::Binding { addresses } => StartupStateView::Binding {
                addresses: *addresses as nat,
            },
            StartupState::Serving => StartupStateView::Serving,
            StartupState::Failed(error) => StartupStateView::Failed(error@),
        }
    }
}

impl View for StartupEvent {
    type V = StartupEventView;

    open spec fn view(&self) -> StartupEventView {
        match self {
            StartupEvent::Resolved { addresses } => StartupEventView::Resolved {
                addresses: *addresses as nat,
            },
            StartupEvent::ResolveFailed(words) => StartupEventView::ResolveFailed(words@),
            StartupEvent::Bound => StartupEventView::Bound,
            StartupEvent::BindFailed(words) => StartupEventView::BindFailed(words@),
        }
    }
}

impl View for StartupAction {
    type V = StartupActionView;

    open spec fn view(&self) -> StartupActionView {
        match self {
            StartupAction::Resolve { host, port } => StartupActionView::Resolve {
                host: host@,
                port: *port,
            },
            StartupAction::Bind { address } => StartupActionView::Bind { address: *address as nat },
            StartupAction::Serve => StartupActionView::Serve,
            StartupAction::Abort(error) => StartupActionView::Abort(error@),
        }
    }
}

/// What the error says of itself.
pub open spec fn error_text(error: StartupErrorView) -> Seq<char> {
    match error {
        StartupErrorView::Resolve(words) => words,
        StartupErrorView::NoAddress => "Unable to parse listener address"@,
        StartupErrorView::Bind(words) => words,
    }
}

/// The state after `event` was reported in `state`. Resolving leads to
/// binding where at least one address was found, binding leads to serving,
/// and every failure leads to a state that nothing leads out of. An event
/// that the state does not wait for changes nothing.
pub open spec fn next_state(state: StartupStateView, event: StartupEventView) -> StartupStateView {
    match (state, event) {
        (StartupStateView::Resolving, StartupEventView::Resolved { addresses }) => if addresses
            == 0 {
            StartupStateView::Failed(StartupErrorView::NoAddress)
        } else {
            StartupStateView::Binding { addresses }
        },
        (
            StartupStateView::Resolving,
            StartupEventView::ResolveFailed(words),
        ) => StartupStateView::Failed(StartupErrorView::Resolve(words)),
        (StartupStateView::Binding { .. }, StartupEventView::Bound) => StartupStateView::Serving,
        (
            StartupStateView::Binding { .. },
            StartupEventView::BindFailed(words),
        ) => StartupStateView::Failed(StartupErrorView::Bind(words)),
        _ => state,
    }
}

/// What is to be done in `state`, with `host` and `port` as configured.
pub open spec fn action_in(state: StartupStateView, host: Seq<char>, port: u16) -> StartupActionView {
    match state {
        StartupStateView::Resolving => StartupActionView::Resolve { host, port },
        StartupStateView::Binding { .. } => StartupActionView::Bind { address: 0 },
        StartupStateView::Serving => StartupActionView::Serve,
        StartupStateView::Failed(error) => StartupActionView::Abort(error),
    }
}

/// Whether `state` can be reached from the start.
pub open spec fn reachable(state: StartupStateView) -> bool {
    state matches StartupStateView::Binding { addresses } ==> addresses > 0
}

impl StartupError {
    /// What the error says of itself.
    pub fn message(&self) -> (text: String)
        ensures
            text@ == error_text(self@),
    {
        match self {
            StartupError::Resolve(words) => words.clone(),
            StartupError::NoAddress => String::from_str("Unable to parse listener address"),
            StartupError::Bind(words) => words.clone(),
        }
    }
}

impl StartupState {
    /// Where start-up begins.
    pub fn start() -> (state: Self)
        ensures
            state@ == StartupStateView::Resolving,
    {
        StartupState::Resolving
    }

    /// Takes in what the caller reports.
    pub fn advance(self, event: StartupEvent) -> (state: Self)
        ensures
            state@ == next_state(self@, event@),
    {
        match (self, event) {
            (StartupState::Resolving, StartupEvent::Resolved { addresses }) => {
                if addresses == 0 {
                    StartupState::Failed(StartupError::NoAddress)
                } else {
                    StartupState::Binding { addresses }
                }
            },
            (StartupState::Resolving, StartupEvent::ResolveFailed(words)) => StartupState::Failed(
                StartupError::Resolve(words),
            ),
            (StartupState::Binding { .. }, StartupEvent::Bound) => StartupState::Serving,
            (StartupState::Binding { .. }, StartupEvent::BindFailed(words)) => StartupState::Failed(
                StartupError::Bind(words),
            ),
            (state, _) => state,
        }
    }

    /// Says what the caller is to do now.
    pub fn action(&self, config: &AppConfig) -> (action: StartupAction)
        ensures
            action@ == action_in(self@, config.host@, config.port),
    {
        match self {
            StartupState::Resolving => StartupAction::Resolve {
                host: config.host.clone(),
                port: config.port,
            },
            StartupState::Binding { .. } => StartupAction::Bind { address: 0 },
            StartupState::Serving => StartupAction::Serve,
            StartupState::Failed(error) => StartupAction::Abort(
                match error {
                    StartupError::Resolve(words) => StartupError::Resolve(words.clone()),
                    StartupError::NoAddress => StartupError::NoAddress,
                    StartupError::Bind(words) => StartupError::Bind(words.clone()),
                },
            ),
        }
    }
}

/// A state that can be reached is followed by one that can be reached, so
/// the address that is to be bound is always one that was found.
pub proof fn law_reachable_is_kept(
    state: StartupStateView,
    event: StartupEventView,
    host: Seq<char>,
    port: u16,
)
    requires
        reachable(state),
    ensures
        reachable(next_state(state, event)),
        action_in(next_state(state, event), host, port) matches StartupActionView::Bind { address }
            ==> next_state(state, event) matches StartupStateView::Binding { addresses } && address
            < addresses,
{
}

/// A failure is final: whatever is reported afterwards, the state stays and
/// the action is to stop with the same error. Nothing is tried again.
pub proof fn law_failure_is_final(
    error: StartupErrorView,
    event: StartupEventView,
    host: Seq<char>,
    port: u16,
)
    ensures
        next_state(StartupStateView::Failed(error), event) == StartupStateView::Failed(error),
        action_in(StartupStateView::Failed(error), host, port) == StartupActionView::Abort(error),
{
}

/// Requests are served only after the listener was bound: the one step into
/// serving is the report that binding succeeded.
pub proof fn law_serving_follows_binding(state: StartupStateView, event: StartupEventView)
    requires
        !(state is Serving),
    ensures
        next_state(state, event) is Serving <==> state is Binding && event is Bound,
{
}

} // verus!
