use vstd::prelude::*;
use crate::protocol::same_text;

verus! {

/// Where the server is in its life.
#[derive(Debug, Clone, Copy, PartialEq, Eq, Structural)]
pub enum ServerState {
    Initializing,
    Running,
    ShuttingDown,
    Stopped,
}

/// What the transport handed over.
#[derive(Debug, Clone, Copy, PartialEq, Eq, Structural)]
pub enum Event {
    /// The capability handshake succeeded.
    Initialized,
    /// A request; `shutdown` says whether it asks the server to shut down.
    Request { shutdown: bool },
    /// A notification; `exit` says whether it asks the process to end.
    Notification { exit: bool },
    /// The input ended.
    ChannelClosed,
}

/// What the loop does with an event.
#[derive(Debug, Clone, Copy, PartialEq, Eq, Structural)]
pub enum Action {
    /// Nothing.
    Wait,
    /// Classify the message and route it to its handler.
    Handle,
    /// Answer the shutdown request with a null result.
    AcknowledgeShutdown,
    /// Answer the request with an error: the server is shutting down.
    RejectRequest,
    /// End the process with this status.
    Exit(i32),
}

/// The next state and the action for `e` in state `s`. Exit after shutdown,
/// and the end of input, stop cleanly; exit without shutdown stops with status 1.
pub open spec fn transition(s: ServerState, e: Event) -> (ServerState, Action) {
    match (s, e) {
        (ServerState::Stopped, _) => (ServerState::Stopped, Action::Wait),
        (_, Event::ChannelClosed) => (ServerState::Stopped, Action::Exit(0)),
        (ServerState::ShuttingDown, Event::Notification { exit: true }) => (ServerState::Stopped, Action::Exit(0)),
        (_, Event::Notification { exit: true }) => (ServerState::Stopped, Action::Exit(1)),
        (ServerState::Initializing, Event::Initialized) => (ServerState::Running, Action::Wait),
        (ServerState::Running, Event::Request { shutdown: true }) => (ServerState::ShuttingDown, Action::AcknowledgeShutdown),
        (ServerState::Running, Event::Request { shutdown: false }) => (ServerState::Running, Action::Handle),
        (ServerState::Running, Event::Notification { exit: false }) => (ServerState::Running, Action::Handle),
        (ServerState::ShuttingDown, Event::Request { .. }) => (ServerState::ShuttingDown, Action::RejectRequest),
        (st, _) => (st, Action::Wait),
    }
}

/// Takes the loop one event further.
pub fn step(s: ServerState, e: Event) -> (r: (ServerState, Action))
    ensures
        r == transition(s, e),
{
    match (s, e) {
        (ServerState::Stopped, _) => (ServerState::Stopped, Action::Wait),
        (_, Event::ChannelClosed) => (ServerState::Stopped, Action::Exit(0)),
        (ServerState::ShuttingDown, Event::Notification { exit: true }) => (ServerState::Stopped, Action::Exit(0)),
        (_, Event::Notification { exit: true }) => (ServerState::Stopped, Action::Exit(1)),
        (ServerState::Initializing, Event::Initialized) => (ServerState::Running, Action::Wait),
        (ServerState::Running, Event::Request { shutdown: true }) => (ServerState::ShuttingDown, Action::AcknowledgeShutdown),
        (ServerState::Running, Event::Request { shutdown: false }) => (ServerState::Running, Action::Handle),
        (ServerState::Running, Event::Notification { exit: false }) => (ServerState::Running, Action::Handle),
        (ServerState::ShuttingDown, Event::Request { .. }) => (ServerState::ShuttingDown, Action::RejectRequest),
        (st, _) => (st, Action::Wait),
    }
}

/// The event of a request with method `method`.
pub fn request_event(method: &str) -> (r: Event)
    ensures
        r == (Event::Request { shutdown: method@ == seq!['s', 'h', 'u', 't', 'd', 'o', 'w', 'n'] }),
{
    proof {
        reveal_strlit("shutdown");
        assert("shutdown"@ =~= seq!['s', 'h', 'u', 't', 'd', 'o', 'w', 'n']);
    }
    Event::Request { shutdown: same_text(method, "shutdown") }
}

/// The event of a notification with method `method`.
pub fn notification_event(method: &str) -> (r: Event)
    ensures
        r == (Event::Notification { exit: method@ == seq!['e', 'x', 'i', 't'] }),
{
    proof {
        reveal_strlit("exit");
        assert("exit"@ =~= seq!['e', 'x', 'i', 't']);
    }
    Event::Notification { exit: same_text(method, "exit") }
}

} // verus!
