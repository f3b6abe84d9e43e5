use vstd::prelude::*;

use crate::address::{is_snapshot_of, lemma_snapshot_unique, snapshot, IpAddress};
use crate::config::DEFAULT_POLL_SECONDS;
use crate::history::{history_text, most_recent, AddressHistory};

verus! {

/// The user-defined control code that asks the service to stop.
pub const STOP_USER_CODE: u32 = 130;

/// How long, in seconds, an uninstall waits for the host to forget the service.
pub const DELETION_TIMEOUT_SECONDS: u64 = 5;

/// A control request delivered by the host's service manager.
#[derive(Clone, Copy, Debug, PartialEq, Eq, Structural)]
pub enum Control {
    Interrogate,
    Stop,
    UserEvent(u32),
    /// Any request this service does not handle.
    Other,
}

/// The answer given to the host for a control request.
#[derive(Clone, Copy, Debug, PartialEq, Eq, Structural)]
pub enum ControlReply {
    NoError,
    NotImplemented,
}

/// The answer to a control request, and whether it asks the loop to stop.
pub fn handle_control(c: Control) -> (r: (ControlReply, bool))
    ensures
        r.0 == ControlReply::NotImplemented <==> c == Control::Other,
        r.1 <==> (c == Control::Stop || c == Control::UserEvent(STOP_USER_CODE)),
{
    match c {
        Control::Interrogate => (ControlReply::NoError, false),
        Control::Stop => (ControlReply::NoError, true),
        Control::UserEvent(code) => (ControlReply::NoError, code == STOP_USER_CODE),
        Control::Other => (ControlReply::NotImplemented, false),
    }
}

/// Whether an uninstall should look again for the service's disappearance,
/// `elapsed_seconds` after it asked for the deletion.
pub fn keep_waiting_for_deletion(elapsed_seconds: u64, gone: bool) -> (r: bool)
    ensures
        r <==> (!gone && elapsed_seconds < DELETION_TIMEOUT_SECONDS),
{
    !gone && elapsed_seconds < DELETION_TIMEOUT_SECONDS
}

/// The life of the service as the host sees it.
#[derive(Clone, Copy, Debug, PartialEq, Eq, Structural)]
pub enum Phase {
    Starting,
    Running,
    Stopping,
    Stopped,
}

/// What happened since the loop last asked for something.
pub enum Event {
    /// The control handler is registered and the host was told the service runs.
    Started,
    /// The addresses of all adapters, as enumerated.
    Addresses(Vec<IpAddress>),
    /// The adapters could not be enumerated.
    PollFailed,
    /// The address file was written, or writing it failed.
    Written,
    /// The wait ended with no stop request.
    Timeout,
    /// A stop request arrived.
    StopSignal,
    /// Nothing can send a stop request any more.
    Disconnected,
    /// The host was told that the service has stopped.
    StopReported,
}

/// What the loop asks to be done next.
pub enum Action {
    /// Enumerate the adapters' addresses.
    Poll,
    /// Replace the address file's contents with these bytes.
    Write(Vec<u8>),
    /// Wait up to this many seconds for a stop request.
    Wait(u64),
    /// Tell the host that the service has stopped.
    ReportStopped,
    /// Leave the loop.
    Exit,
    /// Nothing to do for this event.
    Idle,
}

/// The kind of an `Action`, without its data.
#[derive(Clone, Copy, Debug, PartialEq, Eq, Structural)]
pub enum Step {
    Poll,
    Write,
    Wait,
    ReportStopped,
    Exit,
    Idle,
}

pub open spec fn step_of(a: Action) -> Step {
    match a {
        Action::Poll => Step::Poll,
        Action::Write(_) => Step::Write,
        Action::Wait(_) => Step::Wait,
        Action::ReportStopped => Step::ReportStopped,
        Action::Exit => Step::Exit,
        Action::Idle => Step::Idle,
    }
}

pub open spec fn is_stop(e: Event) -> bool {
    e is StopSignal || e is Disconnected
}

/// The phase after event `e` in phase `p`.
pub open spec fn next_phase(p: Phase, e: Event) -> Phase {
    if p == Phase::Stopped {
        Phase::Stopped
    } else if p == Phase::Stopping {
        if e is StopReported {
            Phase::Stopped
        } else {
            Phase::Stopping
        }
    } else if is_stop(e) {
        Phase::Stopping
    } else if p == Phase::Starting && e is Started {
        Phase::Running
    } else {
        p
    }
}

/// The kind of action asked for after event `e` in phase `p`.
pub open spec fn next_step(p: Phase, e: Event) -> Step {
    if p == Phase::Stopped {
        Step::Exit
    } else if p == Phase::Stopping {
        if e is StopReported {
            Step::Exit
        } else {
            Step::Idle
        }
    } else if is_stop(e) {
        Step::ReportStopped
    } else if p == Phase::Starting {
        if e is Started {
            Step::Poll
        } else {
            Step::Idle
        }
    } else {
        match e {
            Event::Addresses(_) => Step::Write,
            Event::PollFailed => Step::Wait,
            Event::Written => Step::Wait,
            Event::Timeout => Step::Poll,
            _ => Step::Idle,
        }
    }
}

/// The snapshot of a list of addresses.
pub open spec fn snapshot_of(addrs: Seq<IpAddress>) -> Seq<u32> {
    choose|s: Seq<u32>| is_snapshot_of(s, addrs)
}

/// The state of the polling loop: its phase, the snapshots kept so far and
/// the seconds to wait between two polls.
pub struct ServiceLoop {
    pub phase: Phase,
    pub history: AddressHistory,
    pub poll_seconds: u64,
}

impl ServiceLoop {
    pub open spec fn wf(&self) -> bool {
        self.history.wf()
    }

    /// A loop about to start, polling every `poll_seconds` seconds, or every
    /// `DEFAULT_POLL_SECONDS` when none is given.
    pub fn new(poll_seconds: Option<u64>) -> (r: ServiceLoop)
        ensures
            r.phase == Phase::Starting,
            r.history@ == Seq::<Seq<u32>>::empty(),
            r.poll_seconds == match poll_seconds {
                Some(s) => s,
                None => DEFAULT_POLL_SECONDS,
            },
            r.wf(),
    {
        let s = match poll_seconds {
            Some(s) => s,
            None => DEFAULT_POLL_SECONDS,
        };
        ServiceLoop { phase: Phase::Starting, history: AddressHistory::new(), poll_seconds: s }
    }

    /// Takes in what happened and says what to do next. Addresses received
    /// while running become a snapshot recorded in the history, and the
    /// action is to write the history's text.
    pub fn step(&mut self, e: Event) -> (r: Action)
        requires
            old(self).wf(),
        ensures
            final(self).wf(),
            final(self).poll_seconds == old(self).poll_seconds,
            final(self).phase == next_phase(old(self).phase, e),
            step_of(r) == next_step(old(self).phase, e),
            match (old(self).phase, e) {
                (Phase::Running, Event::Addresses(a)) => final(self).history@ == most_recent(
                    old(self).history@.push(snapshot_of(a@)),
                ),
                _ => final(self).history@ == old(self).history@,
            },
            match r {
                Action::Write(bytes) => bytes@ == history_text(final(self).history@),
                Action::Wait(s) => s == old(self).poll_seconds,
                _ => true,
            },
    {
        match self.phase {
            Phase::Stopped => Action::Exit,
            Phase::Stopping => {
                if let Event::StopReported = e {
                    self.phase = Phase::Stopped;
                    Action::Exit
                } else {
                    Action::Idle
                }
            },
            Phase::Starting => match e {
                Event::Started => {
                    self.phase = Phase::Running;
                    Action::Poll
                },
                Event::StopSignal | Event::Disconnected => {
                    self.phase = Phase::Stopping;
                    Action::ReportStopped
                },
                _ => Action::Idle,
            },
            Phase::Running => match e {
                Event::Addresses(a) => {
                    let s = snapshot(&a);
                    proof {
                        lemma_snapshot_unique(a@, s@, snapshot_of(a@));
                    }
                    self.history.record(s);
                    Action::Write(self.history.render())
                },
                Event::PollFailed | Event::Written => Action::Wait(self.poll_seconds),
                Event::Timeout => Action::Poll,
                Event::StopSignal | Event::Disconnected => {
                    self.phase = Phase::Stopping;
                    Action::ReportStopped
                },
                _ => Action::Idle,
            },
        }
    }
}

/// The phase reached from `p` after the events `es`, in order.
pub open spec fn phase_after(p: Phase, es: Seq<Event>) -> Phase
    decreases es.len(),
{
    if es.len() == 0 {
        p
    } else {
        next_phase(phase_after(p, es.drop_last()), es.last())
    }
}

/// Once a stop request has arrived, the loop never polls again: a stop
/// request while running asks at once to tell the host that the service has
/// stopped, and after that, whatever happens, no action is a poll; once the
/// host has been told, the loop exits.
pub proof fn lemma_stop_ends_polling(e: Event, es: Seq<Event>)
    requires
        is_stop(e),
    ensures
        next_phase(Phase::Running, e) == Phase::Stopping,
        next_step(Phase::Running, e) == Step::ReportStopped,
        phase_after(Phase::Stopping, es) == Phase::Stopping || phase_after(Phase::Stopping, es)
            == Phase::Stopped,
        forall|i: int|
            0 <= i < es.len() ==> next_step(phase_after(Phase::Stopping, es.take(i)), #[trigger] es[i])
                != Step::Poll,
        next_phase(Phase::Stopping, Event::StopReported) == Phase::Stopped,
        next_step(Phase::Stopping, Event::StopReported) == Step::Exit,
    decreases es.len(),
{
    if es.len() > 0 {
        lemma_stop_ends_polling(e, es.drop_last());
        assert forall|i: int| 0 <= i < es.len() implies next_step(
            phase_after(Phase::Stopping, es.take(i)),
            #[trigger] es[i],
        ) != Step::Poll by {
            if i < es.len() - 1 {
                assert(es.take(i) =~= es.drop_last().take(i));
                assert(es[i] == es.drop_last()[i]);
            } else {
                assert(es.take(i) =~= es.drop_last());
            }
        }
    }
}

} // verus!
