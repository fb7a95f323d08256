//! The way the process stops: a signal ends the serving, requests in flight
//! are given time to finish, and the shared resources are released, each
//! wait under a deadline.

use vstd::prelude::*;

verus! {

/// How many seconds requests in flight are given to finish.
pub const DRAIN_DEADLINE_SECS: u32 = 15;

/// Where the process stands on its way out.
#[derive(Clone, Copy, Debug, PartialEq, Eq, Structural)]
pub enum ShutdownState {
    /// Requests are accepted and served.
    Running,
    /// No new connection is accepted; requests in flight may finish.
    Draining,
    /// The drain is over. Nothing leads out of this state.
    Closed,
}

/// A request to stop, by the source that delivered it.
#[derive(Clone, Copy, Debug, PartialEq, Eq, Structural)]
pub enum Signal {
    /// The interrupt from the terminal.
    Interrupt,
    /// The termination request of the platform.
    Terminate,
}

/// What can happen to the coordinator.
#[derive(Clone, Copy, Debug, PartialEq, Eq, Structural)]
pub enum Event {
    /// A signal arrived.
    Signal(Signal),
    /// The last request in flight has been answered.
    RequestsCompleted,
    /// The time given to the drain is over.
    DrainDeadline,
}

/// What the coordinator asks for in answer to an event.
#[derive(Clone, Copy, Debug, PartialEq, Eq, Structural)]
pub enum Action {
    /// Nothing changes.
    Continue,
    /// Stop accepting connections, warn, and wait for the requests in
    /// flight, at most this long.
    BeginDrain { deadline_secs: u32 },
    /// Stop waiting for requests and release the shared resources.
    BeginTeardown,
}

/// The state that follows `state` on `event`.
pub open spec fn next_state(state: ShutdownState, event: Event) -> ShutdownState {
    match (state, event) {
        (ShutdownState::Running, Event::Signal(_)) => ShutdownState::Draining,
        (ShutdownState::Draining, Event::RequestsCompleted) => ShutdownState::Closed,
        (ShutdownState::Draining, Event::DrainDeadline) => ShutdownState::Closed,
        _ => state,
    }
}

/// What is asked for when `event` meets `state`.
pub open spec fn action_for(state: ShutdownState, event: Event) -> Action {
    match (state, event) {
        (ShutdownState::Running, Event::Signal(_)) => Action::BeginDrain {
            deadline_secs: DRAIN_DEADLINE_SECS,
        },
        (ShutdownState::Draining, Event::RequestsCompleted) => Action::BeginTeardown,
        (ShutdownState::Draining, Event::DrainDeadline) => Action::BeginTeardown,
        _ => Action::Continue,
    }
}

/// How far a state is on the way out.
pub open spec fn progress(state: ShutdownState) -> nat {
    match state {
        ShutdownState::Running => 0,
        ShutdownState::Draining => 1,
        ShutdownState::Closed => 2,
    }
}

/// The state reached from `state` after the events of `history`, in order.
pub open spec fn state_after(state: ShutdownState, history: Seq<Event>) -> ShutdownState
    decreases history.len(),
{
    if history.len() == 0 {
        state
    } else {
        next_state(state_after(state, history.drop_last()), history.last())
    }
}

/// The answer to one event: the state that follows and what is asked for.
#[derive(Clone, Copy, Debug, PartialEq, Eq, Structural)]
pub struct Step {
    pub state: ShutdownState,
    pub action: Action,
}

impl ShutdownState {
    /// The coordinator starts out serving.
    pub fn new() -> (state: ShutdownState)
        ensures
            state == ShutdownState::Running,
    {
        ShutdownState::Running
    }

    /// Takes one event. The first signal begins the drain; the end of the
    /// requests in flight or of their time, whichever is reported first,
    /// closes it and begins the teardown. A signal during the drain and any
    /// event after it change nothing.
    pub fn on_event(self, event: Event) -> (r: Step)
        ensures
            r.state == next_state(self, event),
            r.action == action_for(self, event),
    {
        match self {
            ShutdownState::Running => match event {
                Event::Signal(_) => Step {
                    state: ShutdownState::Draining,
                    action: Action::BeginDrain { deadline_secs: DRAIN_DEADLINE_SECS },
                },
                _ => Step { state: self, action: Action::Continue },
            },
            ShutdownState::Draining => match event {
                Event::RequestsCompleted => Step {
                    state: ShutdownState::Closed,
                    action: Action::BeginTeardown,
                },
                Event::DrainDeadline => Step {
                    state: ShutdownState::Closed,
                    action: Action::BeginTeardown,
                },
                Event::Signal(_) => Step { state: self, action: Action::Continue },
            },
            ShutdownState::Closed => Step { state: self, action: Action::Continue },
        }
    }

    /// New connections are still accepted.
    pub fn accepts_connections(self) -> (r: bool)
        ensures
            r == (self == ShutdownState::Running),
    {
        match self {
            ShutdownState::Running => true,
            _ => false,
        }
    }
}

/// The signal that was heard and the moment of its delivery.
#[derive(Clone, Copy, Debug, PartialEq, Eq, Structural)]
pub struct Heard {
    pub signal: Signal,
    pub at: u64,
}

/// Which of two signal sources is heard, given the moment at which each
/// would deliver, if ever: the earlier one, and the interrupt where both
/// deliver at the same moment. Without a delivery there is no signal.
pub fn shutdown_signal(interrupt_at: Option<u64>, terminate_at: Option<u64>) -> (r: Option<Heard>)
    ensures
        r is None <==> interrupt_at is None && terminate_at is None,
        r is Some && r->0.signal == Signal::Interrupt ==> interrupt_at == Some(r->0.at) && (
        terminate_at is Some ==> r->0.at <= terminate_at->0),
        r is Some && r->0.signal == Signal::Terminate ==> terminate_at == Some(r->0.at) && (
        interrupt_at is Some ==> r->0.at < interrupt_at->0),
{
    match (interrupt_at, terminate_at) {
        (None, None) => None,
        (Some(at), None) => Some(Heard { signal: Signal::Interrupt, at }),
        (None, Some(at)) => Some(Heard { signal: Signal::Terminate, at }),
        (Some(interrupt), Some(terminate)) => if interrupt <= terminate {
            Some(Heard { signal: Signal::Interrupt, at: interrupt })
        } else {
            Some(Heard { signal: Signal::Terminate, at: terminate })
        },
    }
}

/// How a wait under a deadline ended.
#[derive(Clone, Copy, Debug, PartialEq, Eq, Structural)]
pub enum Wait {
    /// What was waited for happened in time.
    Completed,
    /// The deadline came first; what was waited for is left behind.
    Abandoned,
}

/// The end of a wait under a deadline: how it ended and after how long.
#[derive(Clone, Copy, Debug, PartialEq, Eq, Structural)]
pub struct Ended {
    pub how: Wait,
    pub after_secs: u64,
}

/// The end of a wait for work that takes `work_secs`, or never ends, under a
/// deadline of `deadline_secs`.
pub open spec fn wait_end(work_secs: Option<u64>, deadline_secs: u32) -> Ended {
    if work_secs is Some && work_secs->0 <= deadline_secs {
        Ended { how: Wait::Completed, after_secs: work_secs->0 }
    } else {
        Ended { how: Wait::Abandoned, after_secs: deadline_secs as u64 }
    }
}

/// Waits for work under a deadline: the wait ends with the work where that
/// takes no longer than the deadline allows, and with the deadline
/// otherwise.
pub fn bounded_wait(work_secs: Option<u64>, deadline_secs: u32) -> (r: Ended)
    ensures
        r == wait_end(work_secs, deadline_secs),
        r.after_secs <= deadline_secs,
{
    match work_secs {
        Some(work) => if work <= deadline_secs as u64 {
            Ended { how: Wait::Completed, after_secs: work }
        } else {
            Ended { how: Wait::Abandoned, after_secs: deadline_secs as u64 }
        },
        None => Ended { how: Wait::Abandoned, after_secs: deadline_secs as u64 },
    }
}

/// The event that ends the drain, by the way the wait for the requests in
/// flight ended.
pub fn drain_event(ended: Ended) -> (event: Event)
    ensures
        ended.how == Wait::Completed ==> event == Event::RequestsCompleted,
        ended.how == Wait::Abandoned ==> event == Event::DrainDeadline,
{
    match ended.how {
        Wait::Completed => Event::RequestsCompleted,
        Wait::Abandoned => Event::DrainDeadline,
    }
}

/// The course of a whole shutdown, counted from the signal.
#[derive(Clone, Copy, Debug, PartialEq, Eq, Structural)]
pub struct Shutdown {
    /// The wait for the requests in flight.
    pub drain: Ended,
    /// The wait for the shared resources to be released.
    pub teardown: Ended,
    /// The state in which the process exits.
    pub state: ShutdownState,
    /// The time from the signal to the exit.
    pub total_secs: u64,
}

/// The course of a shutdown in which the requests in flight would need
/// `requests_secs` to finish and the shared resources `close_secs` to be
/// released: the drain and then the teardown, each under its deadline.
pub fn with_graceful_shutdown(
    requests_secs: Option<u64>,
    close_secs: Option<u64>,
    drain_deadline_secs: u32,
    close_deadline_secs: u32,
) -> (r: Shutdown)
    ensures
        r.drain == wait_end(requests_secs, drain_deadline_secs),
        r.teardown == wait_end(close_secs, close_deadline_secs),
        r.state == ShutdownState::Closed,
        r.total_secs == r.drain.after_secs + r.teardown.after_secs,
        r.total_secs <= drain_deadline_secs + close_deadline_secs,
{
    let draining = ShutdownState::new().on_event(Event::Signal(Signal::Terminate)).state;
    let drain = bounded_wait(requests_secs, drain_deadline_secs);
    let state = draining.on_event(drain_event(drain)).state;
    let teardown = bounded_wait(close_secs, close_deadline_secs);
    Shutdown { drain, teardown, state, total_secs: drain.after_secs + teardown.after_secs }
}

/// Nothing leads out of `Closed`, and no event leads back: the state only
/// ever moves towards `Closed`.
pub proof fn lemma_no_way_back(state: ShutdownState, event: Event)
    ensures
        progress(next_state(state, event)) >= progress(state),
        state == ShutdownState::Closed ==> next_state(state, event) == ShutdownState::Closed,
        action_for(ShutdownState::Closed, event) == Action::Continue,
{
}

/// A signal that arrives during the drain changes neither the state nor
/// the deadline under which the drain runs.
pub proof fn lemma_second_signal_ignored(signal: Signal)
    ensures
        next_state(ShutdownState::Draining, Event::Signal(signal)) == ShutdownState::Draining,
        action_for(ShutdownState::Draining, Event::Signal(signal)) == Action::Continue,
{
}

/// Whatever happens, in whatever order, a process that has closed stays
/// closed, and one that no longer accepts connections never accepts them
/// again.
pub proof fn lemma_history_moves_forward(state: ShutdownState, history: Seq<Event>)
    ensures
        progress(state_after(state, history)) >= progress(state),
    decreases history.len(),
{
    if history.len() > 0 {
        lemma_history_moves_forward(state, history.drop_last());
        lemma_no_way_back(state_after(state, history.drop_last()), history.last());
    }
}

/// A request in flight at the signal that finishes within the deadline of
/// the drain is waited for, and the drain ends with it. One that would take
/// longer is left behind when the deadline comes: the teardown begins then
/// and not later. Either way the drain ends in `Closed` with the teardown.
pub proof fn lemma_drain_waits_no_longer(request_secs: u64, deadline_secs: u32)
    ensures
        request_secs <= deadline_secs ==> wait_end(Some(request_secs), deadline_secs) == (Ended {
            how: Wait::Completed,
            after_secs: request_secs,
        }),
        request_secs > deadline_secs ==> wait_end(Some(request_secs), deadline_secs) == (Ended {
            how: Wait::Abandoned,
            after_secs: deadline_secs as u64,
        }),
        next_state(ShutdownState::Draining, Event::RequestsCompleted) == ShutdownState::Closed,
        next_state(ShutdownState::Draining, Event::DrainDeadline) == ShutdownState::Closed,
        action_for(ShutdownState::Draining, Event::RequestsCompleted) == Action::BeginTeardown,
        action_for(ShutdownState::Draining, Event::DrainDeadline) == Action::BeginTeardown,
{
}

/// A shutdown never takes longer than its two deadlines together, whether
/// or not the requests finish and whether or not the resources are ever
/// released.
pub proof fn lemma_shutdown_is_bounded(
    requests_secs: Option<u64>,
    close_secs: Option<u64>,
    drain_deadline_secs: u32,
    close_deadline_secs: u32,
)
    ensures
        wait_end(requests_secs, drain_deadline_secs).after_secs + wait_end(
            close_secs,
            close_deadline_secs,
        ).after_secs <= drain_deadline_secs + close_deadline_secs,
{
}

} // verus!
