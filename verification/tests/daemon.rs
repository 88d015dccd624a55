use imrefs::client::{client_start, client_step, ClientAction, ClientEvent, ClientPhase, Outcome};
use imrefs::daemon::{start, step, Action, Event, Phase, Status};
use imrefs::protocol::{stop_message, write_message};
use std::collections::VecDeque;

/// What arrives at the daemon while it waits.
enum Arrival {
    Connection(Vec<u8>),
    BrokenAccept,
    BrokenRead,
    Signal,
}

/// Which operation is made to fail.
#[derive(Clone, Copy, PartialEq)]
enum Fault {
    Create,
    RemoveStale,
    Bind,
    Open,
    Write,
    Delete,
    Unbind,
}

/// The two files of one instance, kept in memory, with the arrivals that
/// are still to come.
struct World {
    state: Option<Vec<u8>>,
    socket: bool,
    arrivals: VecDeque<Arrival>,
    accepted: Option<Option<Vec<u8>>>,
    fault: Option<Fault>,
    served: Vec<Option<Vec<u8>>>,
}

impl World {
    fn new(arrivals: Vec<Arrival>) -> World {
        World {
            state: None,
            socket: false,
            arrivals: arrivals.into(),
            accepted: None,
            fault: None,
            served: Vec::new(),
        }
    }

    fn outcome(ok: bool) -> Event {
        if ok {
            Event::Succeeded
        } else {
            Event::Failed
        }
    }

    fn perform(&mut self, action: &Action) -> Event {
        match action {
            Action::CreateState => {
                if self.fault == Some(Fault::Create) {
                    return Event::Failed;
                }
                self.state = Some(Vec::new());
                Event::Succeeded
            }
            Action::ProbeSocket => {
                if self.socket {
                    Event::SocketPresent
                } else {
                    Event::SocketAbsent
                }
            }
            Action::RemoveStaleSocket => {
                let ok = self.socket && self.fault != Some(Fault::RemoveStale);
                if ok {
                    self.socket = false;
                }
                World::outcome(ok)
            }
            Action::Bind => {
                let ok = !self.socket && self.fault != Some(Fault::Bind);
                if ok {
                    self.socket = true;
                }
                World::outcome(ok)
            }
            Action::Wait => {
                self.served.push(self.state.clone());
                match self.arrivals.pop_front() {
                    Some(Arrival::Connection(bytes)) => {
                        self.accepted = Some(Some(bytes));
                        Event::ConnectionReady
                    }
                    Some(Arrival::BrokenRead) => {
                        self.accepted = Some(None);
                        Event::ConnectionReady
                    }
                    Some(Arrival::BrokenAccept) => Event::AcceptFailed,
                    Some(Arrival::Signal) | None => Event::TerminationRequested,
                }
            }
            Action::Read => match self.accepted.take() {
                Some(Some(bytes)) => Event::Message(bytes),
                _ => Event::ReadFailed,
            },
            Action::Replace(payload) => {
                if self.fault == Some(Fault::Open) {
                    return Event::OpenFailed;
                }
                if self.fault == Some(Fault::Write) {
                    self.state = Some(Vec::new());
                    self.fault = None;
                    return Event::Failed;
                }
                self.state = Some(payload.clone());
                Event::Succeeded
            }
            Action::DeleteState => {
                let ok = self.state.is_some() && self.fault != Some(Fault::Delete);
                if ok {
                    self.state = None;
                }
                World::outcome(ok)
            }
            Action::Unbind => {
                let ok = self.socket && self.fault != Some(Fault::Unbind);
                if ok {
                    self.socket = false;
                }
                World::outcome(ok)
            }
            Action::Exit(_) => unreachable!(),
        }
    }

    /// Runs the daemon to its end and returns its status with the actions
    /// it asked for, the exit left out.
    fn run(&mut self) -> (Status, Vec<Action>) {
        let mut asked = Vec::new();
        let (mut phase, mut action) = start();
        loop {
            if let Action::Exit(status) = action {
                assert_eq!(phase, Phase::Terminated(status));
                return (status, asked);
            }
            let event = self.perform(&action);
            asked.push(action);
            let (next_phase, next_action) = step(phase, event).unwrap();
            phase = next_phase;
            action = next_action;
        }
    }

    /// What a client meets at the socket: a listener or nobody.
    fn client(&mut self, message: Vec<u8>) -> Outcome {
        let (mut phase, mut action) = client_start();
        loop {
            let event = match action {
                ClientAction::Connect => {
                    if self.socket {
                        ClientEvent::Connected
                    } else {
                        ClientEvent::Refused
                    }
                }
                ClientAction::Send => {
                    self.arrivals.push_back(Arrival::Connection(message.clone()));
                    ClientEvent::Written
                }
                ClientAction::Finish(outcome) => {
                    assert_eq!(phase, ClientPhase::Finished(outcome));
                    return outcome;
                }
            };
            let (next_phase, next_action) = client_step(phase, event).unwrap();
            phase = next_phase;
            action = next_action;
        }
    }
}

fn connection(bytes: &[u8]) -> Arrival {
    Arrival::Connection(bytes.to_vec())
}

#[test]
fn daemon_begins_by_creating_its_state_file() {
    assert_eq!(start(), (Phase::CreatingState, Action::CreateState));
}

#[test]
fn startup_on_a_clear_path() {
    let mut world = World::new(vec![Arrival::Signal]);
    let (status, asked) = world.run();
    assert_eq!(status, Status::Graceful);
    assert_eq!(
        asked,
        vec![
            Action::CreateState,
            Action::ProbeSocket,
            Action::Bind,
            Action::Wait,
            Action::DeleteState,
            Action::Unbind,
        ]
    );
    assert_eq!(world.served, vec![Some(Vec::new())]);
}

#[test]
fn stale_socket_is_removed_before_binding() {
    let mut world = World::new(vec![Arrival::Signal]);
    world.socket = true;
    let (status, asked) = world.run();
    assert_eq!(status, Status::Graceful);
    assert_eq!(
        asked,
        vec![
            Action::CreateState,
            Action::ProbeSocket,
            Action::RemoveStaleSocket,
            Action::Bind,
            Action::Wait,
            Action::DeleteState,
            Action::Unbind,
        ]
    );
    assert_eq!(world.served.len(), 1);
}

#[test]
fn write_replaces_the_state_file() {
    let mut world = World::new(vec![connection(b"msg:hello"), connection(b"cmd:stop")]);
    let (status, asked) = world.run();
    assert_eq!(status, Status::Graceful);
    assert_eq!(
        asked,
        vec![
            Action::CreateState,
            Action::ProbeSocket,
            Action::Bind,
            Action::Wait,
            Action::Read,
            Action::Replace(b"hello".to_vec()),
            Action::Wait,
            Action::Read,
            Action::DeleteState,
            Action::Unbind,
        ]
    );
    assert_eq!(world.served, vec![Some(Vec::new()), Some(b"hello".to_vec())]);
}

#[test]
fn second_write_leaves_nothing_of_the_first() {
    let mut world = World::new(vec![
        connection(b"msg:a long first payload"),
        connection(b"msg:short"),
        Arrival::Signal,
    ]);
    let (status, _) = world.run();
    assert_eq!(status, Status::Graceful);
    assert_eq!(
        world.served,
        vec![
            Some(Vec::new()),
            Some(b"a long first payload".to_vec()),
            Some(b"short".to_vec()),
        ]
    );
}

#[test]
fn global_stripping_reaches_the_state_file() {
    let mut world = World::new(vec![connection(b"msg:hello msg:world"), Arrival::Signal]);
    world.run();
    assert_eq!(world.served[1], Some(b"hello world".to_vec()));
}

#[test]
fn near_stop_words_are_written_not_obeyed() {
    let mut world = World::new(vec![
        connection(b"cmd:stopx"),
        connection(b"xcmd:stop"),
        connection(b"cmd:stop"),
        connection(b"msg:never read"),
    ]);
    let (status, _) = world.run();
    assert_eq!(status, Status::Graceful);
    assert_eq!(
        world.served,
        vec![Some(Vec::new()), Some(b"cmd:stopx".to_vec()), Some(b"xcmd:stop".to_vec())]
    );
    assert_eq!(world.arrivals.len(), 1);
}

#[test]
fn stop_clears_both_paths() {
    let mut world = World::new(vec![
        connection(b"msg:one"),
        connection(b"two"),
        connection(b"msg:"),
        connection(b"cmd:stop"),
    ]);
    world.socket = true;
    world.state = Some(b"left over".to_vec());
    let (status, _) = world.run();
    assert_eq!(status, Status::Graceful);
    assert_eq!(status.code(), 0);
    assert_eq!(world.state, None);
    assert!(!world.socket);
}

#[test]
fn signal_clears_both_paths() {
    let mut world = World::new(vec![connection(b"msg:one"), Arrival::Signal]);
    let (status, asked) = world.run();
    assert_eq!(status, Status::Graceful);
    assert_eq!(asked[asked.len() - 2..], [Action::DeleteState, Action::Unbind]);
    assert_eq!(world.state, None);
    assert!(!world.socket);
}

#[test]
fn failed_creation_aborts_startup() {
    let mut world = World::new(vec![]);
    world.fault = Some(Fault::Create);
    let (status, asked) = world.run();
    assert_eq!(status, Status::Fatal);
    assert_eq!(status.code(), 1);
    assert_eq!(asked, vec![Action::CreateState]);
}

#[test]
fn failed_removal_of_stale_socket_aborts_startup() {
    let mut world = World::new(vec![]);
    world.socket = true;
    world.fault = Some(Fault::RemoveStale);
    let (status, asked) = world.run();
    assert_eq!(status, Status::Fatal);
    assert_eq!(
        asked,
        vec![Action::CreateState, Action::ProbeSocket, Action::RemoveStaleSocket]
    );
}

#[test]
fn failed_bind_aborts_startup() {
    let mut world = World::new(vec![]);
    world.fault = Some(Fault::Bind);
    let (status, asked) = world.run();
    assert_eq!(status, Status::Fatal);
    assert_eq!(asked, vec![Action::CreateState, Action::ProbeSocket, Action::Bind]);
    assert!(world.served.is_empty());
}

#[test]
fn failed_accept_is_passed_over() {
    let mut world = World::new(vec![
        Arrival::BrokenAccept,
        connection(b"msg:after"),
        Arrival::Signal,
    ]);
    let (status, _) = world.run();
    assert_eq!(status, Status::Graceful);
    assert_eq!(
        world.served,
        vec![Some(Vec::new()), Some(Vec::new()), Some(b"after".to_vec())]
    );
}

#[test]
fn failed_read_discards_the_connection() {
    let mut world = World::new(vec![
        connection(b"msg:before"),
        Arrival::BrokenRead,
        Arrival::Signal,
    ]);
    let (status, asked) = world.run();
    assert_eq!(status, Status::Graceful);
    assert_eq!(
        world.served,
        vec![Some(Vec::new()), Some(b"before".to_vec()), Some(b"before".to_vec())]
    );
    assert_eq!(asked.iter().filter(|a| matches!(a, Action::Replace(_))).count(), 1);
}

#[test]
fn failed_write_does_not_end_the_daemon() {
    let mut world = World::new(vec![
        connection(b"msg:lost"),
        connection(b"msg:kept"),
        Arrival::Signal,
    ]);
    world.fault = Some(Fault::Write);
    let (status, _) = world.run();
    assert_eq!(status, Status::Graceful);
    assert_eq!(world.served[2], Some(b"kept".to_vec()));
}

#[test]
fn failed_open_is_fatal() {
    let mut world = World::new(vec![connection(b"msg:x"), connection(b"msg:y")]);
    world.fault = Some(Fault::Open);
    let (status, asked) = world.run();
    assert_eq!(status, Status::Fatal);
    assert_eq!(asked.last(), Some(&Action::Replace(b"x".to_vec())));
    assert_eq!(world.arrivals.len(), 1);
    assert!(world.socket);
}

#[test]
fn failed_deletion_is_fatal_and_ends_cleanup() {
    let mut world = World::new(vec![connection(b"cmd:stop")]);
    world.fault = Some(Fault::Delete);
    let (status, asked) = world.run();
    assert_eq!(status, Status::Fatal);
    assert_eq!(asked.last(), Some(&Action::DeleteState));
    assert!(world.socket);
}

#[test]
fn failed_unbind_is_fatal() {
    let mut world = World::new(vec![Arrival::Signal]);
    world.fault = Some(Fault::Unbind);
    let (status, asked) = world.run();
    assert_eq!(status, Status::Fatal);
    assert_eq!(asked.last(), Some(&Action::Unbind));
    assert_eq!(world.state, None);
}

#[test]
fn each_transition_by_itself() {
    let fatal = Some((Phase::Terminated(Status::Fatal), Action::Exit(Status::Fatal)));
    let serve = Some((Phase::Serving, Action::Wait));
    let shutdown = Some((Phase::DeletingState, Action::DeleteState));
    assert_eq!(
        step(Phase::CreatingState, Event::Succeeded),
        Some((Phase::Probing, Action::ProbeSocket))
    );
    assert_eq!(step(Phase::CreatingState, Event::Failed), fatal);
    assert_eq!(
        step(Phase::Probing, Event::SocketPresent),
        Some((Phase::Clearing, Action::RemoveStaleSocket))
    );
    assert_eq!(step(Phase::Probing, Event::SocketAbsent), Some((Phase::Binding, Action::Bind)));
    assert_eq!(step(Phase::Clearing, Event::Succeeded), Some((Phase::Binding, Action::Bind)));
    assert_eq!(step(Phase::Clearing, Event::Failed), fatal);
    assert_eq!(step(Phase::Binding, Event::Succeeded), serve);
    assert_eq!(step(Phase::Binding, Event::Failed), fatal);
    assert_eq!(
        step(Phase::Serving, Event::ConnectionReady),
        Some((Phase::Reading, Action::Read))
    );
    assert_eq!(step(Phase::Serving, Event::AcceptFailed), serve);
    assert_eq!(step(Phase::Serving, Event::TerminationRequested), shutdown);
    assert_eq!(step(Phase::Reading, Event::Message(b"cmd:stop".to_vec())), shutdown);
    assert_eq!(
        step(Phase::Reading, Event::Message(b"msg:a msg:b".to_vec())),
        Some((Phase::Writing, Action::Replace(b"a b".to_vec())))
    );
    assert_eq!(step(Phase::Reading, Event::ReadFailed), serve);
    assert_eq!(step(Phase::Writing, Event::Succeeded), serve);
    assert_eq!(step(Phase::Writing, Event::Failed), serve);
    assert_eq!(step(Phase::Writing, Event::OpenFailed), fatal);
    assert_eq!(
        step(Phase::DeletingState, Event::Succeeded),
        Some((Phase::Unbinding, Action::Unbind))
    );
    assert_eq!(step(Phase::DeletingState, Event::Failed), fatal);
    assert_eq!(
        step(Phase::Unbinding, Event::Succeeded),
        Some((Phase::Terminated(Status::Graceful), Action::Exit(Status::Graceful)))
    );
    assert_eq!(step(Phase::Unbinding, Event::Failed), fatal);
}

fn every_event() -> Vec<Event> {
    vec![
        Event::Succeeded,
        Event::Failed,
        Event::OpenFailed,
        Event::SocketPresent,
        Event::SocketAbsent,
        Event::ConnectionReady,
        Event::AcceptFailed,
        Event::Message(b"cmd:stop".to_vec()),
        Event::Message(b"msg:x".to_vec()),
        Event::ReadFailed,
        Event::TerminationRequested,
    ]
}

#[test]
fn ended_daemon_takes_no_event() {
    for status in [Status::Graceful, Status::Fatal] {
        for event in every_event() {
            assert_eq!(step(Phase::Terminated(status), event), None);
        }
    }
}

#[test]
fn events_out_of_turn_are_not_answered() {
    let answered: [(Phase, usize); 9] = [
        (Phase::CreatingState, 2),
        (Phase::Probing, 2),
        (Phase::Clearing, 2),
        (Phase::Binding, 2),
        (Phase::Serving, 3),
        (Phase::Reading, 3),
        (Phase::Writing, 3),
        (Phase::DeletingState, 2),
        (Phase::Unbinding, 2),
    ];
    for (phase, count) in answered {
        let taken = every_event()
            .into_iter()
            .map(|event| step(phase, event))
            .filter(|decision| decision.is_some())
            .count();
        assert_eq!(taken, count);
    }
    assert_eq!(step(Phase::Reading, Event::TerminationRequested), None);
    assert_eq!(step(Phase::Writing, Event::ConnectionReady), None);
    assert_eq!(step(Phase::Serving, Event::Message(b"cmd:stop".to_vec())), None);
    assert_eq!(step(Phase::DeletingState, Event::TerminationRequested), None);
}

#[test]
fn exit_codes() {
    assert_eq!(Status::Graceful.code(), 0);
    assert_eq!(Status::Fatal.code(), 1);
}

#[test]
fn client_without_listener_finds_nothing_and_changes_nothing() {
    let mut world = World::new(vec![]);
    world.state = Some(b"content".to_vec());
    assert_eq!(world.client(write_message(b"hello")), Outcome::NotFound);
    assert_eq!(world.client(stop_message()), Outcome::NotFound);
    assert_eq!(world.state, Some(b"content".to_vec()));
    assert!(!world.socket);
    assert!(world.arrivals.is_empty());
}

#[test]
fn client_messages_reach_a_listening_daemon() {
    let mut world = World::new(vec![]);
    world.socket = true;
    assert_eq!(world.client(write_message(b"from a client")), Outcome::Delivered);
    assert_eq!(world.client(stop_message()), Outcome::Delivered);
    world.socket = false;
    let (status, asked) = world.run();
    assert_eq!(status, Status::Graceful);
    assert!(asked.contains(&Action::Replace(b"from a client".to_vec())));
    assert_eq!(world.state, None);
    assert!(!world.socket);
}

fn rank(phase: Phase) -> u8 {
    match phase {
        Phase::CreatingState => 0,
        Phase::Probing => 1,
        Phase::Clearing => 2,
        Phase::Binding => 3,
        Phase::Serving | Phase::Reading | Phase::Writing => 4,
        Phase::DeletingState => 5,
        Phase::Unbinding => 6,
        Phase::Terminated(_) => 7,
    }
}

#[test]
fn no_transition_goes_back() {
    let phases = [
        Phase::CreatingState,
        Phase::Probing,
        Phase::Clearing,
        Phase::Binding,
        Phase::Serving,
        Phase::Reading,
        Phase::Writing,
        Phase::DeletingState,
        Phase::Unbinding,
        Phase::Terminated(Status::Graceful),
        Phase::Terminated(Status::Fatal),
    ];
    for phase in phases {
        for event in every_event() {
            if let Some((next_phase, _)) = step(phase, event) {
                assert!(rank(phase) <= rank(next_phase));
            }
        }
    }
}

#[test]
fn cleanup_is_asked_for_once() {
    let mut world = World::new(vec![
        connection(b"msg:one"),
        Arrival::BrokenRead,
        connection(b"cmd:stop"),
        connection(b"cmd:stop"),
    ]);
    world.socket = true;
    let (status, asked) = world.run();
    assert_eq!(status, Status::Graceful);
    assert_eq!(asked.iter().filter(|a| **a == Action::DeleteState).count(), 1);
    assert_eq!(asked.iter().filter(|a| **a == Action::Unbind).count(), 1);
    assert_eq!(asked.iter().filter(|a| **a == Action::CreateState).count(), 1);
    assert_eq!(asked.iter().filter(|a| **a == Action::Bind).count(), 1);
}
