//! A model of the instance's two files and of the daemon running against
//! them, and what holds of every run.
//!
//! The model assumes what the daemon relies on: while it lives nobody else
//! creates, writes or removes its state file or its socket path, and the
//! operations on them do what the operating system documents.

use crate::daemon::{awaits, next, ActionView, EventView, Phase, Status};
use crate::protocol::{decoded, stop_word, stripped, CommandView};
use vstd::prelude::*;

verus! {

/// What exists on disk for one instance.
pub struct Artifacts {
    /// The content of the state file; `None` while there is no such file.
    pub state: Option<Seq<u8>>,
    /// Whether an entry exists at the socket path.
    pub socket: bool,
}

/// Whether `after` can be what is on disk once `action`, begun on `before`,
/// has been reported as `event`. An operation that succeeds does what it
/// is named for; one that fails changes nothing, but for a write that
/// fails after the state file was opened, which leaves the file with
/// unknown content; the look at the socket path reports what is there.
pub open spec fn may_follow(
    before: Artifacts,
    action: ActionView,
    event: EventView,
    after: Artifacts,
) -> bool {
    match (action, event) {
        (ActionView::CreateState, EventView::Succeeded) => after == (Artifacts {
            state: Some(Seq::<u8>::empty()),
            socket: before.socket,
        }),
        (ActionView::ProbeSocket, EventView::SocketPresent) => before.socket && after == before,
        (ActionView::ProbeSocket, EventView::SocketAbsent) => !before.socket && after == before,
        (ActionView::RemoveStaleSocket, EventView::Succeeded) => after == (Artifacts {
            state: before.state,
            socket: false,
        }),
        (ActionView::Bind, EventView::Succeeded) => after == (Artifacts {
            state: before.state,
            socket: true,
        }),
        (ActionView::Replace(payload), EventView::Succeeded) => after == (Artifacts {
            state: Some(payload),
            socket: before.socket,
        }),
        (ActionView::Replace(_), EventView::Failed) => after.state is Some && after.socket
            == before.socket,
        (ActionView::DeleteState, EventView::Succeeded) => after == (Artifacts {
            state: None,
            socket: before.socket,
        }),
        (ActionView::Unbind, EventView::Succeeded) => after == (Artifacts {
            state: before.state,
            socket: false,
        }),
        _ => after == before,
    }
}

/// The daemon together with its files: the phase it is in, the action it
/// has handed out and waits on, and what is on disk.
pub struct System {
    pub phase: Phase,
    pub pending: ActionView,
    pub files: Artifacts,
}

/// A daemon that has just been started, on whatever an earlier run left on
/// disk.
pub open spec fn initial(s: System) -> bool {
    s.phase == Phase::CreatingState && s.pending == ActionView::CreateState
}

/// One move of the system: the pending action is reported as `event`, the
/// files change as the action does, and the daemon decides. An event that
/// does not answer the pending action changes nothing.
pub open spec fn moves(s: System, event: EventView, t: System) -> bool {
    match next(s.phase, event) {
        Some((phase, action)) => t.phase == phase && t.pending == action && may_follow(
            s.files,
            s.pending,
            event,
            t.files,
        ),
        None => t == s,
    }
}

/// What the phase says about the files: from the moment the state file is
/// created until shutdown deletes it, it exists; the socket path is clear
/// when the socket is bound, exists while the daemon listens, and is removed
/// last; after a graceful end neither exists.
pub open spec fn consistent(s: System) -> bool {
    &&& awaits(s.phase, s.pending)
    &&& match s.phase {
        Phase::CreatingState => true,
        Phase::Probing => s.files.state is Some,
        Phase::Clearing => s.files.state is Some && s.files.socket,
        Phase::Binding => s.files.state is Some && !s.files.socket,
        Phase::Serving | Phase::Reading | Phase::Writing | Phase::DeletingState => s.files.state
            is Some && s.files.socket,
        Phase::Unbinding => s.files.state is None && s.files.socket,
        Phase::Terminated(Status::Graceful) => s.files.state is None && !s.files.socket,
        Phase::Terminated(Status::Fatal) => true,
    }
}

/// A run of the daemon from its start: `trace[i]` is the system before
/// `events[i]` and `trace[i + 1]` the system after it.
pub open spec fn is_run(trace: Seq<System>, events: Seq<EventView>) -> bool {
    &&& trace.len() == events.len() + 1
    &&& initial(trace[0])
    &&& forall|i: int| 0 <= i < events.len() ==> moves(trace[i], #[trigger] events[i], trace[i + 1])
}

/// A move keeps the system consistent.
pub proof fn lemma_move_keeps_consistent(s: System, event: EventView, t: System)
    requires
        consistent(s),
        moves(s, event, t),
    ensures
        consistent(t),
{
}

/// Every system of a run is consistent, whatever stood on disk at the
/// start and whatever happened since.
pub proof fn lemma_run_consistent(trace: Seq<System>, events: Seq<EventView>, i: int)
    requires
        is_run(trace, events),
        0 <= i < trace.len(),
    ensures
        consistent(trace[i]),
    decreases i,
{
    if i > 0 {
        lemma_run_consistent(trace, events, i - 1);
        assert(moves(trace[i - 1], events[i - 1], trace[i]));
        lemma_move_keeps_consistent(trace[i - 1], events[i - 1], trace[i]);
    }
}

/// Replacing the state file twice leaves exactly the second payload:
/// nothing of the first, and nothing of what the file held before.
pub proof fn lemma_replace_overwrites(
    before: Artifacts,
    first: Seq<u8>,
    between: Artifacts,
    second: Seq<u8>,
    after: Artifacts,
)
    requires
        may_follow(before, ActionView::Replace(first), EventView::Succeeded, between),
        may_follow(between, ActionView::Replace(second), EventView::Succeeded, after),
    ensures
        after.state == Some(second),
        after.socket == before.socket,
{
}

/// The socket is only ever bound on a clear path: whenever a run has the
/// daemon bind, nothing exists at the socket path, also where an earlier
/// instance left its socket behind.
pub proof fn lemma_bind_on_clear_path(trace: Seq<System>, events: Seq<EventView>, i: int)
    requires
        is_run(trace, events),
        0 <= i < trace.len(),
        trace[i].pending == ActionView::Bind,
    ensures
        trace[i].phase == Phase::Binding,
        !trace[i].files.socket,
        trace[i].files.state is Some,
{
    lemma_run_consistent(trace, events, i);
}

/// From start to listening over a leftover socket: the state file is
/// created, the leftover is found and removed, the socket is bound, and
/// the daemon serves with both files in place.
pub proof fn lemma_stale_socket_cleared(trace: Seq<System>, events: Seq<EventView>)
    requires
        is_run(trace, events),
        trace[0].files.socket,
        events.len() >= 4,
        events[0] == EventView::Succeeded,
        events[1] == EventView::SocketPresent,
        events[2] == EventView::Succeeded,
        events[3] == EventView::Succeeded,
    ensures
        trace[2].pending == ActionView::RemoveStaleSocket,
        trace[3].pending == ActionView::Bind,
        !trace[3].files.socket,
        trace[4].phase == Phase::Serving,
        trace[4].files == (Artifacts { state: Some(Seq::<u8>::empty()), socket: true }),
{
    assert(moves(trace[0], events[0], trace[1]));
    assert(moves(trace[1], events[1], trace[2]));
    assert(moves(trace[2], events[2], trace[3]));
    assert(moves(trace[3], events[3], trace[4]));
}

/// While the daemon listens, reads or writes, both of its files exist.
pub proof fn lemma_files_exist_while_serving(trace: Seq<System>, events: Seq<EventView>, i: int)
    requires
        is_run(trace, events),
        0 <= i < trace.len(),
        trace[i].phase == Phase::Serving || trace[i].phase == Phase::Reading || trace[i].phase
            == Phase::Writing,
    ensures
        trace[i].files.state is Some,
        trace[i].files.socket,
{
    lemma_run_consistent(trace, events, i);
}

/// A run that ends gracefully leaves neither the state file nor the socket
/// path behind.
pub proof fn lemma_graceful_end_leaves_nothing(
    trace: Seq<System>,
    events: Seq<EventView>,
    i: int,
)
    requires
        is_run(trace, events),
        0 <= i < trace.len(),
        trace[i].phase == Phase::Terminated(Status::Graceful),
    ensures
        trace[i].files.state is None,
        !trace[i].files.socket,
{
    lemma_run_consistent(trace, events, i);
}

/// A stop command that is read while the daemon serves, followed by a
/// deletion and a removal that succeed, ends the daemon gracefully with
/// both files gone, whatever was written before.
pub proof fn lemma_stop_clears_both_paths(trace: Seq<System>, events: Seq<EventView>, i: int)
    requires
        is_run(trace, events),
        0 <= i,
        i + 4 <= events.len(),
        trace[i].phase == Phase::Serving,
        events[i] == EventView::ConnectionReady,
        events[i + 1] == EventView::Message(stop_word()),
        events[i + 2] == EventView::Succeeded,
        events[i + 3] == EventView::Succeeded,
    ensures
        trace[i + 2].pending == ActionView::DeleteState,
        trace[i + 3].pending == ActionView::Unbind,
        trace[i + 4].phase == Phase::Terminated(Status::Graceful),
        trace[i + 4].pending == ActionView::Exit(Status::Graceful),
        trace[i + 4].files == (Artifacts { state: None, socket: false }),
{
    lemma_run_consistent(trace, events, i);
    assert(moves(trace[i], events[i], trace[i + 1]));
    assert(moves(trace[i + 1], events[i + 1], trace[i + 2]));
    assert(moves(trace[i + 2], events[i + 2], trace[i + 3]));
    assert(moves(trace[i + 3], events[i + 3], trace[i + 4]));
    assert(decoded(stop_word()) == CommandView::Stop);
}

/// A termination signal that arrives while the daemon serves, followed by
/// a deletion and a removal that succeed, ends the daemon as a stop
/// command does: gracefully, with both files gone.
pub proof fn lemma_signal_clears_both_paths(trace: Seq<System>, events: Seq<EventView>, i: int)
    requires
        is_run(trace, events),
        0 <= i,
        i + 3 <= events.len(),
        trace[i].phase == Phase::Serving,
        events[i] == EventView::TerminationRequested,
        events[i + 1] == EventView::Succeeded,
        events[i + 2] == EventView::Succeeded,
    ensures
        trace[i + 1].pending == ActionView::DeleteState,
        trace[i + 2].pending == ActionView::Unbind,
        trace[i + 3].phase == Phase::Terminated(Status::Graceful),
        trace[i + 3].pending == ActionView::Exit(Status::Graceful),
        trace[i + 3].files == (Artifacts { state: None, socket: false }),
{
    lemma_run_consistent(trace, events, i);
    assert(moves(trace[i], events[i], trace[i + 1]));
    assert(moves(trace[i + 1], events[i + 1], trace[i + 2]));
    assert(moves(trace[i + 2], events[i + 2], trace[i + 3]));
}

/// How far a phase is on the way from start to end. The three phases of
/// serving stand at the same point: the daemon goes round among them.
pub open spec fn progress(phase: Phase) -> nat {
    match phase {
        Phase::CreatingState => 0,
        Phase::Probing => 1,
        Phase::Clearing => 2,
        Phase::Binding => 3,
        Phase::Serving | Phase::Reading | Phase::Writing => 4,
        Phase::DeletingState => 5,
        Phase::Unbinding => 6,
        Phase::Terminated(_) => 7,
    }
}

/// No move takes the daemon back.
pub proof fn lemma_move_never_goes_back(s: System, event: EventView, t: System)
    requires
        moves(s, event, t),
    ensures
        progress(s.phase) <= progress(t.phase),
{
}

/// A run never goes back: startup is not repeated, and once shutdown has
/// begun the daemon serves no more.
pub proof fn lemma_run_never_goes_back(
    trace: Seq<System>,
    events: Seq<EventView>,
    i: int,
    j: int,
)
    requires
        is_run(trace, events),
        0 <= i <= j < trace.len(),
    ensures
        progress(trace[i].phase) <= progress(trace[j].phase),
    decreases j - i,
{
    if i < j {
        lemma_run_never_goes_back(trace, events, i, j - 1);
        assert(moves(trace[j - 1], events[j - 1], trace[j]));
        lemma_move_never_goes_back(trace[j - 1], events[j - 1], trace[j]);
    }
}

/// The state file is deleted at most once in a run, and the socket path
/// removed at most once after binding: once the deletion or the removal
/// has been answered, it is never asked for again.
pub proof fn lemma_cleanup_asked_once(
    trace: Seq<System>,
    events: Seq<EventView>,
    i: int,
    j: int,
)
    requires
        is_run(trace, events),
        0 <= i < j < trace.len(),
        trace[i].pending == ActionView::DeleteState || trace[i].pending == ActionView::Unbind,
        next(trace[i].phase, events[i]) is Some,
    ensures
        trace[j].pending != trace[i].pending,
        trace[j].pending != ActionView::DeleteState,
{
    lemma_run_consistent(trace, events, i);
    lemma_run_consistent(trace, events, j);
    assert(moves(trace[i], events[i], trace[i + 1]));
    lemma_run_never_goes_back(trace, events, i + 1, j);
}

/// Once the daemon has ended, no event moves it: no further message is
/// taken and no file is touched.
pub proof fn lemma_terminated_is_final(s: System, event: EventView, t: System)
    requires
        s.phase is Terminated,
        moves(s, event, t),
    ensures
        t == s,
{
}

/// A message other than the stop word that is read while the daemon
/// serves, followed by a replacement that succeeds, leaves the daemon
/// serving and the state file holding exactly the stripped message.
pub proof fn lemma_write_stored(
    trace: Seq<System>,
    events: Seq<EventView>,
    i: int,
    message: Seq<u8>,
)
    requires
        is_run(trace, events),
        0 <= i,
        i + 3 <= events.len(),
        trace[i].phase == Phase::Serving,
        events[i] == EventView::ConnectionReady,
        events[i + 1] == EventView::Message(message),
        events[i + 2] == EventView::Succeeded,
        message != stop_word(),
    ensures
        trace[i + 2].pending == ActionView::Replace(stripped(message)),
        trace[i + 3].phase == Phase::Serving,
        trace[i + 3].pending == ActionView::Wait,
        trace[i + 3].files == (Artifacts { state: Some(stripped(message)), socket: true }),
{
    lemma_run_consistent(trace, events, i);
    assert(moves(trace[i], events[i], trace[i + 1]));
    assert(moves(trace[i + 1], events[i + 1], trace[i + 2]));
    assert(moves(trace[i + 2], events[i + 2], trace[i + 3]));
}

/// Two writes that arrive one after the other leave the state file
/// holding the second payload alone: connections are handled one at a
/// time, and nothing of the first is left.
pub proof fn lemma_second_write_wins(
    trace: Seq<System>,
    events: Seq<EventView>,
    i: int,
    first: Seq<u8>,
    second: Seq<u8>,
)
    requires
        is_run(trace, events),
        0 <= i,
        i + 6 <= events.len(),
        trace[i].phase == Phase::Serving,
        events[i] == EventView::ConnectionReady,
        events[i + 1] == EventView::Message(first),
        events[i + 2] == EventView::Succeeded,
        events[i + 3] == EventView::ConnectionReady,
        events[i + 4] == EventView::Message(second),
        events[i + 5] == EventView::Succeeded,
        first != stop_word(),
        second != stop_word(),
    ensures
        trace[i + 3].files.state == Some(stripped(first)),
        trace[i + 6].phase == Phase::Serving,
        trace[i + 6].files == (Artifacts { state: Some(stripped(second)), socket: true }),
{
    lemma_write_stored(trace, events, i, first);
    lemma_write_stored(trace, events, i + 3, second);
}

} // verus!
