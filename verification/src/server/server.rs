//! The server aggregate: identity, power state and the transient flags that
//! gate operations.

use vstd::prelude::*;
use crate::events::Event;
use crate::server::install::InstallError;
use crate::server::power::{
    last_published, decide, state_after, Gates, PowerAction, PowerError, PowerEvent, PowerMachine, PowerPlan,
    ProcessState,
};
use crate::server::transfer::{transfer_gate, TransferError};

verus! {

/// One server of the node.
pub struct Server {
    uuid: String,
    power: PowerMachine,
    installing: bool,
    transferring: bool,
    restoring: bool,
    suspended: bool,
}

impl Server {
    /// The server's id.
    pub closed spec fn id(&self) -> Seq<char> {
        self.uuid@
    }

    /// The process state: the one most recently published.
    pub closed spec fn state(&self) -> ProcessState {
        last_published(self.power.changes())
    }

    /// Every state change published so far.
    pub closed spec fn changes(&self) -> Seq<ProcessState> {
        self.power.changes()
    }

    /// Whether a power action is in flight.
    pub closed spec fn busy(&self) -> bool {
        self.power.busy()
    }

    /// The transient flags.
    pub closed spec fn flags(&self) -> Gates {
        Gates {
            installing: self.installing,
            transferring: self.transferring,
            suspended: self.suspended,
            restoring: self.restoring,
        }
    }

    /// An offline server with every flag clear.
    pub fn new(uuid: String) -> (s: Self)
        ensures
            s.id() == uuid@,
            s.state() == ProcessState::Offline,
            s.changes().len() == 0,
            !s.busy(),
            s.flags() == (Gates {
                installing: false,
                transferring: false,
                suspended: false,
                restoring: false,
            }),
    {
        Server {
            uuid,
            power: PowerMachine::new(),
            installing: false,
            transferring: false,
            restoring: false,
            suspended: false,
        }
    }

    /// The server's id.
    pub fn uuid(&self) -> (r: &String)
        ensures
            r@ == self.id(),
    {
        &self.uuid
    }

    /// The process state.
    pub fn process_state(&self) -> (s: ProcessState)
        ensures
            s == self.state(),
    {
        self.power.state()
    }

    /// The transient flags.
    pub fn gates(&self) -> (g: Gates)
        ensures
            g == self.flags(),
    {
        Gates {
            installing: self.installing,
            transferring: self.transferring,
            suspended: self.suspended,
            restoring: self.restoring,
        }
    }

    /// Admits a power action against the current state and flags. At most
    /// one action is in flight; an accepted one stays so until
    /// `finish_power_action`.
    pub fn handle_power_action(&mut self, action: PowerAction) -> (r: Result<PowerPlan, PowerError>)
        ensures
            final(self).id() == old(self).id(),
            final(self).flags() == old(self).flags(),
            final(self).changes() == old(self).changes(),
            old(self).busy() ==> r == Err::<PowerPlan, PowerError>(PowerError::Busy) && final(self).busy(),
            !old(self).busy() ==> r == decide(old(self).state(), old(self).flags(), action)
                && final(self).busy() == r.is_ok(),
    {
        let gates = self.gates();
        self.power.begin(gates, action)
    }

    /// Records what the environment reported and returns the event to publish.
    pub fn on_power_event(&mut self, event: PowerEvent) -> (e: Event)
        ensures
            e == Event::StateChange(state_after(event)),
            final(self).state() == state_after(event),
            final(self).changes() == old(self).changes().push(state_after(event)),
            final(self).busy() == old(self).busy(),
            final(self).id() == old(self).id(),
            final(self).flags() == old(self).flags(),
    {
        let change = self.power.on_event(event);
        Event::StateChange(change)
    }

    /// Ends the power action in flight.
    pub fn finish_power_action(&mut self)
        ensures
            !final(self).busy(),
            final(self).changes() == old(self).changes(),
            final(self).id() == old(self).id(),
            final(self).flags() == old(self).flags(),
    {
        self.power.finish();
    }

    /// Starts a transfer: the server must not be in transfer and be offline. On
    /// success the flag is set and the event to publish is returned.
    pub fn begin_transfer(&mut self) -> (r: Result<Event, TransferError>)
        ensures
            final(self).id() == old(self).id(),
            final(self).changes() == old(self).changes(),
            final(self).busy() == old(self).busy(),
            match transfer_gate(old(self).state(), old(self).flags().transferring) {
                Some(e) => r == Err::<Event, TransferError>(e) && final(self).flags() == old(self).flags(),
                None => r == Ok::<Event, TransferError>(Event::TransferStarted) && final(self).flags() == (Gates { transferring: true, ..old(self).flags() }),
            },
    {
        if self.transferring {
            return Err(TransferError::AlreadyTransferring);
        }
        match self.power.state() {
            ProcessState::Offline => {
                self.transferring = true;
                Ok(Event::TransferStarted)
            },
            _ => Err(TransferError::ServerRunning),
        }
    }

    /// Ends a transfer, successful or not: the flag is cleared.
    pub fn end_transfer(&mut self, successful: bool) -> (e: Event)
        ensures
            e == (Event::TransferCompleted { successful }),
            final(self).flags() == (Gates { transferring: false, ..old(self).flags() }),
            final(self).id() == old(self).id(),
            final(self).changes() == old(self).changes(),
            final(self).busy() == old(self).busy(),
    {
        self.transferring = false;
        Event::TransferCompleted { successful }
    }

    /// Starts an installation unless one is running.
    pub fn begin_install(&mut self) -> (r: Result<Event, InstallError>)
        ensures
            final(self).id() == old(self).id(),
            final(self).changes() == old(self).changes(),
            final(self).busy() == old(self).busy(),
            final(self).flags() == (Gates { installing: true, ..old(self).flags() }),
            old(self).flags().installing ==> r == Err::<Event, InstallError>(
                InstallError::AlreadyInstalling,
            ),
            !old(self).flags().installing ==> r == Ok::<Event, InstallError>(Event::InstallStarted),
    {
        if self.installing {
            Err(InstallError::AlreadyInstalling)
        } else {
            self.installing = true;
            Ok(Event::InstallStarted)
        }
    }

    /// Ends the installation.
    pub fn end_install(&mut self, successful: bool) -> (e: Event)
        ensures
            e == (Event::InstallCompleted { successful }),
            final(self).flags() == (Gates { installing: false, ..old(self).flags() }),
            final(self).id() == old(self).id(),
            final(self).changes() == old(self).changes(),
            final(self).busy() == old(self).busy(),
    {
        self.installing = false;
        Event::InstallCompleted { successful }
    }

    /// Cancels the transfer under way: `None`, with nothing changed, when
    /// there is none.
    pub fn cancel_transfer(&mut self) -> (r: Option<Event>)
        ensures
            final(self).id() == old(self).id(),
            final(self).changes() == old(self).changes(),
            final(self).busy() == old(self).busy(),
            final(self).flags() == (Gates { transferring: false, ..old(self).flags() }),
            r == if old(self).flags().transferring {
                Some(Event::TransferCompleted { successful: false })
            } else {
                None::<Event>
            },
    {
        if self.transferring {
            self.transferring = false;
            Some(Event::TransferCompleted { successful: false })
        } else {
            None
        }
    }

    /// Marks the server as restoring a backup, or no longer so.
    pub fn set_restoring(&mut self, restoring: bool)
        ensures
            final(self).flags() == (Gates { restoring, ..old(self).flags() }),
            final(self).id() == old(self).id(),
            final(self).changes() == old(self).changes(),
            final(self).busy() == old(self).busy(),
    {
        self.restoring = restoring;
    }

    /// Suspends the server, or lifts the suspension.
    pub fn set_suspended(&mut self, suspended: bool)
        ensures
            final(self).flags() == (Gates { suspended, ..old(self).flags() }),
            final(self).id() == old(self).id(),
            final(self).changes() == old(self).changes(),
            final(self).busy() == old(self).busy(),
    {
        self.suspended = suspended;
    }
}

/// While a server is installing, in transfer, suspended or restoring, no
/// start is admitted, whatever its state.
pub proof fn lemma_flagged_server_does_not_start(state: ProcessState, flags: Gates)
    requires
        flags.installing || flags.transferring || flags.suspended || flags.restoring,
    ensures
        decide(state, flags, PowerAction::Start).is_err(),
{
}

} // verus!
