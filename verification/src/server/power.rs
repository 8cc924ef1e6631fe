//! The power state machine of a server and its crash recovery policy.

use vstd::prelude::*;

verus! {

/// The process state of a server's container.
#[derive(Debug, Clone, Copy, PartialEq, Eq, Structural)]
pub enum ProcessState {
    Offline,
    Starting,
    Running,
    Stopping,
}

/// A power action requested for a server.
#[derive(Debug, Clone, Copy, PartialEq, Eq, Structural)]
pub enum PowerAction {
    Start,
    Stop,
    Restart,
    Kill,
}

/// Transient flags that gate power actions.
#[derive(Debug, Clone, Copy, PartialEq, Eq, Structural)]
pub struct Gates {
    pub installing: bool,
    pub transferring: bool,
    pub suspended: bool,
    pub restoring: bool,
}

/// Why a power action is rejected.
#[derive(Debug, Clone, Copy, PartialEq, Eq, Structural)]
pub enum PowerError {
    /// Another transition is in flight for this server.
    Busy,
    /// The action does not apply in the current state.
    Conflict,
    /// The server is installing.
    Installing,
    /// The server is being transferred.
    Transferring,
    /// The server is suspended.
    Suspended,
    /// A backup is being restored.
    Restoring,
}

/// The work an accepted action asks for.
#[derive(Debug, Clone, Copy, PartialEq, Eq, Structural)]
pub enum PowerPlan {
    /// Create the container if absent, start it, attach.
    Start,
    /// Send the stop signal or command and wait for exit; kill on timeout.
    Stop,
    /// Stop as above, then start.
    StopThenStart,
    /// Kill the container.
    Kill,
}

/// What the container environment reports while a plan is carried out.
#[derive(Debug, Clone, Copy, PartialEq, Eq, Structural)]
pub enum PowerEvent {
    /// The container is being started.
    StartIssued,
    /// Attaching to the started container succeeded.
    Attached,
    /// The stop signal or command was sent.
    StopIssued,
    /// The container process has exited or was killed.
    Exited,
}

/// The flag that blocks a start, if any: installing, then transferring,
/// then suspended, then restoring.
pub open spec fn start_gate(g: Gates) -> Option<PowerError> {
    if g.installing {
        Some(PowerError::Installing)
    } else if g.transferring {
        Some(PowerError::Transferring)
    } else if g.suspended {
        Some(PowerError::Suspended)
    } else if g.restoring {
        Some(PowerError::Restoring)
    } else {
        None
    }
}

/// The transition table: what an action does in a state, or why it is rejected.
///
/// Start is accepted from Offline only, and only with every gate open. Stop is
/// accepted from Running. Restart stops and starts from Running and behaves as
/// Start from Offline. Kill is accepted from any state but Offline.
pub open spec fn decide(state: ProcessState, g: Gates, action: PowerAction) -> Result<
    PowerPlan,
    PowerError,
> {
    match action {
        PowerAction::Start => if state != ProcessState::Offline {
            Err(PowerError::Conflict)
        } else if start_gate(g).is_some() {
            Err(start_gate(g).unwrap())
        } else {
            Ok(PowerPlan::Start)
        },
        PowerAction::Stop => if state == ProcessState::Running {
            Ok(PowerPlan::Stop)
        } else {
            Err(PowerError::Conflict)
        },
        PowerAction::Restart => if state == ProcessState::Running {
            if start_gate(g).is_some() {
                Err(start_gate(g).unwrap())
            } else {
                Ok(PowerPlan::StopThenStart)
            }
        } else if state == ProcessState::Offline {
            if start_gate(g).is_some() {
                Err(start_gate(g).unwrap())
            } else {
                Ok(PowerPlan::Start)
            }
        } else {
            Err(PowerError::Conflict)
        },
        PowerAction::Kill => if state == ProcessState::Offline {
            Err(PowerError::Conflict)
        } else {
            Ok(PowerPlan::Kill)
        },
    }
}

/// The state an environment event leads to.
pub open spec fn state_after(event: PowerEvent) -> ProcessState {
    match event {
        PowerEvent::StartIssued => ProcessState::Starting,
        PowerEvent::Attached => ProcessState::Running,
        PowerEvent::StopIssued => ProcessState::Stopping,
        PowerEvent::Exited => ProcessState::Offline,
    }
}

/// The state a server is in after the given state changes were published,
/// starting from Offline.
pub open spec fn last_published(changes: Seq<ProcessState>) -> ProcessState {
    if changes.len() == 0 {
        ProcessState::Offline
    } else {
        changes.last()
    }
}

/// The power state machine of one server. It is the only writer of the
/// process state; every change it makes is returned for publication.
pub struct PowerMachine {
    state: ProcessState,
    in_flight: bool,
    published: Ghost<Seq<ProcessState>>,
}

impl PowerMachine {
    #[verifier::type_invariant]
    spec fn consistent(&self) -> bool {
        self.state == last_published(self.published@)
    }

    /// Every state change published so far, oldest first.
    pub closed spec fn changes(&self) -> Seq<ProcessState> {
        self.published@
    }

    /// Whether a power action is being carried out.
    pub closed spec fn busy(&self) -> bool {
        self.in_flight
    }

    /// A machine for a server that is offline with no action in flight.
    pub fn new() -> (m: Self)
        ensures
            m.changes().len() == 0,
            !m.busy(),
    {
        PowerMachine { state: ProcessState::Offline, in_flight: false, published: Ghost(Seq::empty()) }
    }

    /// The current state: always the one most recently published.
    pub fn state(&self) -> (s: ProcessState)
        ensures
            s == last_published(self.changes()),
    {
        proof {
            use_type_invariant(self);
        }
        self.state
    }

    /// Whether a power action is being carried out.
    pub fn is_busy(&self) -> (b: bool)
        ensures
            b == self.busy(),
    {
        self.in_flight
    }

    /// Admits a power action. With an action already in flight it is rejected
    /// as busy; otherwise the transition table decides, and an accepted action
    /// is in flight until `finish` is called. The state is not changed.
    pub fn begin(&mut self, gates: Gates, action: PowerAction) -> (r: Result<PowerPlan, PowerError>)
        ensures
            final(self).changes() == old(self).changes(),
            old(self).busy() ==> r == Err::<PowerPlan, PowerError>(PowerError::Busy) && final(self).busy(),
            !old(self).busy() ==> r == decide(last_published(old(self).changes()), gates, action)
                && final(self).busy() == r.is_ok(),
    {
        proof {
            use_type_invariant(&*self);
        }
        if self.in_flight {
            return Err(PowerError::Busy);
        }
        let r = decide_action(self.state, gates, action);
        if r.is_ok() {
            self.in_flight = true;
        }
        r
    }

    /// Records what the environment reported and returns the state change to
    /// publish.
    pub fn on_event(&mut self, event: PowerEvent) -> (change: ProcessState)
        ensures
            change == state_after(event),
            final(self).changes() == old(self).changes().push(change),
            final(self).busy() == old(self).busy(),
    {
        let next = next_state(event);
        let ghost log = self.published@.push(next);
        *self = PowerMachine { state: next, in_flight: self.in_flight, published: Ghost(log) };
        next
    }

    /// Ends the action in flight.
    pub fn finish(&mut self)
        ensures
            !final(self).busy(),
            final(self).changes() == old(self).changes(),
    {
        proof {
            use_type_invariant(&*self);
        }
        self.in_flight = false;
    }
}

/// The flag that blocks a start, if any.
pub fn check_start_gate(g: Gates) -> (r: Option<PowerError>)
    ensures
        r == start_gate(g),
{
    if g.installing {
        Some(PowerError::Installing)
    } else if g.transferring {
        Some(PowerError::Transferring)
    } else if g.suspended {
        Some(PowerError::Suspended)
    } else if g.restoring {
        Some(PowerError::Restoring)
    } else {
        None
    }
}

/// Applies the transition table.
pub fn decide_action(state: ProcessState, g: Gates, action: PowerAction) -> (r: Result<
    PowerPlan,
    PowerError,
>)
    ensures
        r == decide(state, g, action),
{
    match action {
        PowerAction::Start => match state {
            ProcessState::Offline => match check_start_gate(g) {
                Some(e) => Err(e),
                None => Ok(PowerPlan::Start),
            },
            _ => Err(PowerError::Conflict),
        },
        PowerAction::Stop => match state {
            ProcessState::Running => Ok(PowerPlan::Stop),
            _ => Err(PowerError::Conflict),
        },
        PowerAction::Restart => match state {
            ProcessState::Running => match check_start_gate(g) {
                Some(e) => Err(e),
                None => Ok(PowerPlan::StopThenStart),
            },
            ProcessState::Offline => match check_start_gate(g) {
                Some(e) => Err(e),
                None => Ok(PowerPlan::Start),
            },
            _ => Err(PowerError::Conflict),
        },
        PowerAction::Kill => match state {
            ProcessState::Offline => Err(PowerError::Conflict),
            _ => Ok(PowerPlan::Kill),
        },
    }
}

/// The state an environment event leads to.
pub fn next_state(event: PowerEvent) -> (s: ProcessState)
    ensures
        s == state_after(event),
{
    match event {
        PowerEvent::StartIssued => ProcessState::Starting,
        PowerEvent::Attached => ProcessState::Running,
        PowerEvent::StopIssued => ProcessState::Stopping,
        PowerEvent::Exited => ProcessState::Offline,
    }
}

/// What follows the wait of a stop: nothing more when the container exited
/// within the timeout, a kill when it did not.
pub fn stop_follow_up(exited_within_timeout: bool) -> (r: Option<PowerPlan>)
    ensures
        r == if exited_within_timeout {
            None::<PowerPlan>
        } else {
            Some(PowerPlan::Kill)
        },
{
    if exited_within_timeout {
        None
    } else {
        Some(PowerPlan::Kill)
    }
}

/// Whether an exit is a crash: the container was running and no stop
/// requested by a user is in flight.
pub fn is_crash(state_at_exit: ProcessState, stop_in_flight: bool) -> (r: bool)
    ensures
        r == (state_at_exit == ProcessState::Running && !stop_in_flight),
{
    match state_at_exit {
        ProcessState::Running => !stop_in_flight,
        _ => false,
    }
}

/// A start is never accepted while any gate is closed.
pub proof fn lemma_start_needs_open_gates(state: ProcessState, g: Gates)
    requires
        g.installing || g.transferring || g.suspended || g.restoring,
    ensures
        decide(state, g, PowerAction::Start).is_err(),
        decide(state, g, PowerAction::Restart).is_err(),
{
}

/// Whatever actions and events come, the state an action observes is the
/// state of the latest published change.
pub proof fn lemma_observed_state_is_latest_change(changes: Seq<ProcessState>, next: ProcessState)
    ensures
        last_published(changes.push(next)) == next,
{
}

} // verus!
