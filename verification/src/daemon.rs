//! The daemon's decisions. The daemon itself performs one operation at a
//! time on its files and its socket and reports how it went; `step` says
//! what to do next. Nothing here touches a file or a socket.

use crate::protocol::{decode, decoded, Command, CommandView};
use vstd::prelude::*;

verus! {

/// How the process ends.
#[derive(Debug, Clone, Copy, PartialEq, Eq, Structural)]
pub enum Status {
    /// Both files are gone after a stop command or a termination signal.
    Graceful,
    /// Startup, cleanup or the opening of the state file failed.
    Fatal,
}

impl Status {
    /// The exit code of the process: 0 for `Graceful`, 1 for `Fatal`.
    pub open spec fn code_spec(self) -> int {
        match self {
            Status::Graceful => 0,
            Status::Fatal => 1,
        }
    }

    /// The exit code of the process.
    pub fn code(self) -> (code: i32)
        ensures
            code == self.code_spec(),
    {
        match self {
            Status::Graceful => 0,
            Status::Fatal => 1,
        }
    }
}

/// Where the daemon stands: which operation it has asked for and is waiting
/// on, or that it has ended.
#[derive(Debug, Clone, Copy, PartialEq, Eq, Structural)]
pub enum Phase {
    /// The empty state file is being created.
    CreatingState,
    /// The socket path is being looked at for a leftover entry.
    Probing,
    /// The leftover entry at the socket path is being removed.
    Clearing,
    /// The listening socket is being bound.
    Binding,
    /// The daemon listens and waits for a connection or a signal.
    Serving,
    /// An accepted connection is being read to its end.
    Reading,
    /// The state file is being replaced.
    Writing,
    /// Shutdown has begun: the state file is being deleted.
    DeletingState,
    /// The state file is gone: the socket path is being removed.
    Unbinding,
    /// The daemon has ended.
    Terminated(Status),
}

/// What the daemon is asked to do next.
#[derive(Debug, PartialEq, Eq)]
pub enum Action {
    /// Create the state file, empty.
    CreateState,
    /// Find out whether an entry exists at the socket path.
    ProbeSocket,
    /// Remove the entry found at the socket path.
    RemoveStaleSocket,
    /// Bind the listening socket at the socket path.
    Bind,
    /// Wait for the next connection or termination signal.
    Wait,
    /// Read the accepted connection until the peer closes it.
    Read,
    /// Make these bytes the whole content of the state file.
    Replace(Vec<u8>),
    /// Delete the state file.
    DeleteState,
    /// Remove the socket path.
    Unbind,
    /// End the process with this status.
    Exit(Status),
}

/// An `Action` with its payload as a sequence of bytes.
pub enum ActionView {
    CreateState,
    ProbeSocket,
    RemoveStaleSocket,
    Bind,
    Wait,
    Read,
    Replace(Seq<u8>),
    DeleteState,
    Unbind,
    Exit(Status),
}

impl View for Action {
    type V = ActionView;

    open spec fn view(&self) -> ActionView {
        match self {
            Action::CreateState => ActionView::CreateState,
            Action::ProbeSocket => ActionView::ProbeSocket,
            Action::RemoveStaleSocket => ActionView::RemoveStaleSocket,
            Action::Bind => ActionView::Bind,
            Action::Wait => ActionView::Wait,
            Action::Read => ActionView::Read,
            Action::Replace(payload) => ActionView::Replace(payload@),
            Action::DeleteState => ActionView::DeleteState,
            Action::Unbind => ActionView::Unbind,
            Action::Exit(status) => ActionView::Exit(*status),
        }
    }
}

/// What happened outside since the last action was handed out.
#[derive(Debug, PartialEq, Eq)]
pub enum Event {
    /// The operation on a file or on the socket was carried out.
    Succeeded,
    /// The operation failed. For a replacement of the state file: the file
    /// was opened, and writing to it failed.
    Failed,
    /// The state file could not be opened for writing.
    OpenFailed,
    /// An entry exists at the socket path.
    SocketPresent,
    /// Nothing exists at the socket path.
    SocketAbsent,
    /// A connection was accepted.
    ConnectionReady,
    /// Accepting a connection failed.
    AcceptFailed,
    /// The connection was read to its end and held these bytes.
    Message(Vec<u8>),
    /// Reading the connection failed.
    ReadFailed,
    /// A termination signal arrived: hangup, interrupt, terminate or quit.
    TerminationRequested,
}

/// An `Event` with its message as a sequence of bytes.
pub enum EventView {
    Succeeded,
    Failed,
    OpenFailed,
    SocketPresent,
    SocketAbsent,
    ConnectionReady,
    AcceptFailed,
    Message(Seq<u8>),
    ReadFailed,
    TerminationRequested,
}

impl View for Event {
    type V = EventView;

    open spec fn view(&self) -> EventView {
        match self {
            Event::Succeeded => EventView::Succeeded,
            Event::Failed => EventView::Failed,
            Event::OpenFailed => EventView::OpenFailed,
            Event::SocketPresent => EventView::SocketPresent,
            Event::SocketAbsent => EventView::SocketAbsent,
            Event::ConnectionReady => EventView::ConnectionReady,
            Event::AcceptFailed => EventView::AcceptFailed,
            Event::Message(message) => EventView::Message(message@),
            Event::ReadFailed => EventView::ReadFailed,
            Event::TerminationRequested => EventView::TerminationRequested,
        }
    }
}

/// The action that a phase waits on, but for the payload of a replacement.
pub open spec fn awaits(phase: Phase, action: ActionView) -> bool {
    match phase {
        Phase::CreatingState => action == ActionView::CreateState,
        Phase::Probing => action == ActionView::ProbeSocket,
        Phase::Clearing => action == ActionView::RemoveStaleSocket,
        Phase::Binding => action == ActionView::Bind,
        Phase::Serving => action == ActionView::Wait,
        Phase::Reading => action == ActionView::Read,
        Phase::Writing => action is Replace,
        Phase::DeletingState => action == ActionView::DeleteState,
        Phase::Unbinding => action == ActionView::Unbind,
        Phase::Terminated(status) => action == ActionView::Exit(status),
    }
}

/// The end of the process after a failure that nothing can mend.
pub open spec fn fatal() -> Option<(Phase, ActionView)> {
    Some((Phase::Terminated(Status::Fatal), ActionView::Exit(Status::Fatal)))
}

/// The beginning of shutdown, the same for a stop command and for a
/// termination signal: the state file goes first, the socket path second.
pub open spec fn shutdown() -> Option<(Phase, ActionView)> {
    Some((Phase::DeletingState, ActionView::DeleteState))
}

/// Back to listening.
pub open spec fn serve() -> Option<(Phase, ActionView)> {
    Some((Phase::Serving, ActionView::Wait))
}

/// The daemon's transitions: the phase and the action that follow `event`
/// in `phase`, or `None` where `event` does not answer what `phase` waits
/// on.
pub open spec fn next(phase: Phase, event: EventView) -> Option<(Phase, ActionView)> {
    match (phase, event) {
        (Phase::CreatingState, EventView::Succeeded) => Some(
            (Phase::Probing, ActionView::ProbeSocket),
        ),
        (Phase::CreatingState, EventView::Failed) => fatal(),
        (Phase::Probing, EventView::SocketPresent) => Some(
            (Phase::Clearing, ActionView::RemoveStaleSocket),
        ),
        (Phase::Probing, EventView::SocketAbsent) => Some((Phase::Binding, ActionView::Bind)),
        (Phase::Clearing, EventView::Succeeded) => Some((Phase::Binding, ActionView::Bind)),
        (Phase::Clearing, EventView::Failed) => fatal(),
        (Phase::Binding, EventView::Succeeded) => serve(),
        (Phase::Binding, EventView::Failed) => fatal(),
        (Phase::Serving, EventView::ConnectionReady) => Some((Phase::Reading, ActionView::Read)),
        (Phase::Serving, EventView::AcceptFailed) => serve(),
        (Phase::Serving, EventView::TerminationRequested) => shutdown(),
        (Phase::Reading, EventView::Message(message)) => match decoded(message) {
            CommandView::Stop => shutdown(),
            CommandView::Write(payload) => Some((Phase::Writing, ActionView::Replace(payload))),
        },
        (Phase::Reading, EventView::ReadFailed) => serve(),
        (Phase::Writing, EventView::Succeeded) => serve(),
        (Phase::Writing, EventView::Failed) => serve(),
        (Phase::Writing, EventView::OpenFailed) => fatal(),
        (Phase::DeletingState, EventView::Succeeded) => Some(
            (Phase::Unbinding, ActionView::Unbind),
        ),
        (Phase::DeletingState, EventView::Failed) => fatal(),
        (Phase::Unbinding, EventView::Succeeded) => Some(
            (Phase::Terminated(Status::Graceful), ActionView::Exit(Status::Graceful)),
        ),
        (Phase::Unbinding, EventView::Failed) => fatal(),
        _ => None,
    }
}

/// Whether what `step` returned is what the transitions give.
pub open spec fn agrees(returned: Option<(Phase, Action)>, given: Option<(Phase, ActionView)>) -> bool {
    match (returned, given) {
        (Some((phase, action)), Some((next_phase, next_action))) => phase == next_phase && action@
            == next_action,
        (None, None) => true,
        _ => false,
    }
}

/// The daemon's first phase and first action: it begins by creating its
/// state file.
pub fn start() -> (begin: (Phase, Action))
    ensures
        begin.0 == Phase::CreatingState,
        begin.1@ == ActionView::CreateState,
{
    (Phase::CreatingState, Action::CreateState)
}

/// One decision of the daemon: given the phase it is in and what happened,
/// the phase it moves to and what to do next. `None` where `event` is no
/// answer to what `phase` waits on; the daemon then stays where it is.
pub fn step(phase: Phase, event: Event) -> (decision: Option<(Phase, Action)>)
    ensures
        agrees(decision, next(phase, event@)),
{
    match phase {
        Phase::CreatingState => match event {
            Event::Succeeded => Some((Phase::Probing, Action::ProbeSocket)),
            Event::Failed => Some(give_up()),
            _ => None,
        },
        Phase::Probing => match event {
            Event::SocketPresent => Some((Phase::Clearing, Action::RemoveStaleSocket)),
            Event::SocketAbsent => Some((Phase::Binding, Action::Bind)),
            _ => None,
        },
        Phase::Clearing => match event {
            Event::Succeeded => Some((Phase::Binding, Action::Bind)),
            Event::Failed => Some(give_up()),
            _ => None,
        },
        Phase::Binding => match event {
            Event::Succeeded => Some(listen()),
            Event::Failed => Some(give_up()),
            _ => None,
        },
        Phase::Serving => match event {
            Event::ConnectionReady => Some((Phase::Reading, Action::Read)),
            Event::AcceptFailed => Some(listen()),
            Event::TerminationRequested => Some(shut_down()),
            _ => None,
        },
        Phase::Reading => match event {
            Event::Message(message) => match decode(message.as_slice()) {
                Command::Stop => Some(shut_down()),
                Command::Write(payload) => Some((Phase::Writing, Action::Replace(payload))),
            },
            Event::ReadFailed => Some(listen()),
            _ => None,
        },
        Phase::Writing => match event {
            Event::Succeeded => Some(listen()),
            Event::Failed => Some(listen()),
            Event::OpenFailed => Some(give_up()),
            _ => None,
        },
        Phase::DeletingState => match event {
            Event::Succeeded => Some((Phase::Unbinding, Action::Unbind)),
            Event::Failed => Some(give_up()),
            _ => None,
        },
        Phase::Unbinding => match event {
            Event::Succeeded => Some((Phase::Terminated(Status::Graceful), Action::Exit(Status::Graceful))),
            Event::Failed => Some(give_up()),
            _ => None,
        },
        Phase::Terminated(_) => None,
    }
}

fn give_up() -> (end: (Phase, Action))
    ensures
        Some((end.0, end.1@)) == fatal(),
{
    (Phase::Terminated(Status::Fatal), Action::Exit(Status::Fatal))
}

fn shut_down() -> (begin: (Phase, Action))
    ensures
        Some((begin.0, begin.1@)) == shutdown(),
{
    (Phase::DeletingState, Action::DeleteState)
}

fn listen() -> (again: (Phase, Action))
    ensures
        Some((again.0, again.1@)) == serve(),
{
    (Phase::Serving, Action::Wait)
}

} // verus!
