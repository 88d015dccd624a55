//! The decisions of a client that sends one message to a running instance:
//! it connects to the instance's socket, writes the message, and closes.

use vstd::prelude::*;

verus! {

/// How a client's attempt ended.
#[derive(Debug, Clone, Copy, PartialEq, Eq, Structural)]
pub enum Outcome {
    /// The message was written to the instance's socket.
    Delivered,
    /// Nobody listens at the instance's socket: there is no such instance.
    NotFound,
    /// The connection stood, and writing the message to it failed.
    WriteFailed,
}

impl Outcome {
    /// The exit code of the client: 0 where the message was delivered,
    /// 1 otherwise.
    pub open spec fn code_spec(self) -> int {
        if self == Outcome::Delivered {
            0
        } else {
            1
        }
    }

    /// The exit code of the client.
    pub fn code(self) -> (code: i32)
        ensures
            code == self.code_spec(),
    {
        match self {
            Outcome::Delivered => 0,
            _ => 1,
        }
    }
}

/// Where a client stands.
#[derive(Debug, Clone, Copy, PartialEq, Eq, Structural)]
pub enum ClientPhase {
    /// It is connecting to the instance's socket.
    Connecting,
    /// It is writing its message to the connection.
    Sending,
    /// It has ended.
    Finished(Outcome),
}

/// What a client is asked to do next.
#[derive(Debug, Clone, Copy, PartialEq, Eq, Structural)]
pub enum ClientAction {
    /// Connect to the instance's socket.
    Connect,
    /// Write the message to the connection and close it.
    Send,
    /// Report the outcome and end.
    Finish(Outcome),
}

/// What happened to a client's last action.
#[derive(Debug, Clone, Copy, PartialEq, Eq, Structural)]
pub enum ClientEvent {
    /// The connection stands.
    Connected,
    /// The connection could not be made.
    Refused,
    /// The message was written.
    Written,
    /// Writing the message failed.
    WriteFailed,
}

/// The client's transitions. A refused connection is reported as an
/// instance that was not found, apart from a write that failed; nothing is
/// sent after it.
pub open spec fn client_next(phase: ClientPhase, event: ClientEvent) -> Option<
    (ClientPhase, ClientAction),
> {
    match (phase, event) {
        (ClientPhase::Connecting, ClientEvent::Connected) => Some(
            (ClientPhase::Sending, ClientAction::Send),
        ),
        (ClientPhase::Connecting, ClientEvent::Refused) => Some(
            (ClientPhase::Finished(Outcome::NotFound), ClientAction::Finish(Outcome::NotFound)),
        ),
        (ClientPhase::Sending, ClientEvent::Written) => Some(
            (ClientPhase::Finished(Outcome::Delivered), ClientAction::Finish(Outcome::Delivered)),
        ),
        (ClientPhase::Sending, ClientEvent::WriteFailed) => Some(
            (
                ClientPhase::Finished(Outcome::WriteFailed),
                ClientAction::Finish(Outcome::WriteFailed),
            ),
        ),
        _ => None,
    }
}

/// A client's first phase and first action: it begins by connecting.
pub fn client_start() -> (begin: (ClientPhase, ClientAction))
    ensures
        begin == (ClientPhase::Connecting, ClientAction::Connect),
{
    (ClientPhase::Connecting, ClientAction::Connect)
}

/// One decision of a client: given the phase it is in and what happened,
/// the phase it moves to and what to do next. `None` where `event` is no
/// answer to what `phase` waits on.
pub fn client_step(phase: ClientPhase, event: ClientEvent) -> (decision: Option<
    (ClientPhase, ClientAction),
>)
    ensures
        decision == client_next(phase, event),
{
    match phase {
        ClientPhase::Connecting => match event {
            ClientEvent::Connected => Some((ClientPhase::Sending, ClientAction::Send)),
            ClientEvent::Refused => Some(finish(Outcome::NotFound)),
            _ => None,
        },
        ClientPhase::Sending => match event {
            ClientEvent::Written => Some(finish(Outcome::Delivered)),
            ClientEvent::WriteFailed => Some(finish(Outcome::WriteFailed)),
            _ => None,
        },
        ClientPhase::Finished(_) => None,
    }
}

fn finish(outcome: Outcome) -> (end: (ClientPhase, ClientAction))
    ensures
        end == (ClientPhase::Finished(outcome), ClientAction::Finish(outcome)),
{
    (ClientPhase::Finished(outcome), ClientAction::Finish(outcome))
}

/// A client that finds nobody listening reports so and ends with a
/// non-zero exit code: it is never told to send, so nothing reaches an
/// instance.
pub proof fn lemma_refused_is_not_found(event: ClientEvent)
    ensures
        client_next(ClientPhase::Connecting, ClientEvent::Refused) == Some(
            (ClientPhase::Finished(Outcome::NotFound), ClientAction::Finish(Outcome::NotFound)),
        ),
        Outcome::NotFound.code_spec() == 1,
        client_next(ClientPhase::Finished(Outcome::NotFound), event) is None,
{
}

} // verus!
