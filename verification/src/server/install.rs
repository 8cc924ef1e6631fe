//! The one-shot installation run of a server.

use vstd::prelude::*;
use crate::events::Event;

verus! {

/// Why an installation cannot start.
#[derive(Debug, Clone, Copy, PartialEq, Eq, Structural)]
pub enum InstallError {
    /// An installation is already running for this server.
    AlreadyInstalling,
}

/// Tracks the installation of one server: at most one runs at a time, and
/// while one runs the server cannot be started.
pub struct InstallationProcess {
    installing: bool,
}

impl InstallationProcess {
    /// Whether an installation is running.
    pub closed spec fn running(&self) -> bool {
        self.installing
    }

    /// No installation is running.
    pub fn new() -> (p: Self)
        ensures
            !p.running(),
    {
        InstallationProcess { installing: false }
    }

    /// Whether an installation is running.
    pub fn is_installing(&self) -> (r: bool)
        ensures
            r == self.running(),
    {
        self.installing
    }

    /// Starts an installation unless one is running. On success the event to
    /// publish is returned.
    pub fn begin(&mut self) -> (r: Result<Event, InstallError>)
        ensures
            final(self).running(),
            old(self).running() ==> r == Err::<Event, InstallError>(InstallError::AlreadyInstalling),
            !old(self).running() ==> r == Ok::<Event, InstallError>(Event::InstallStarted),
    {
        if self.installing {
            Err(InstallError::AlreadyInstalling)
        } else {
            self.installing = true;
            Ok(Event::InstallStarted)
        }
    }

    /// The event for a chunk of the install script's output.
    pub fn output(data: Vec<u8>) -> (e: Event)
        ensures
            e == Event::InstallOutput(data),
    {
        Event::InstallOutput(data)
    }

    /// Ends the installation: it was successful exactly when the script's
    /// container exited with code zero. Returns the event to publish.
    pub fn finish(&mut self, exit_code: i64) -> (e: Event)
        ensures
            !final(self).running(),
            e == (Event::InstallCompleted { successful: exit_code == 0 }),
    {
        self.installing = false;
        Event::InstallCompleted { successful: exit_code == 0 }
    }
}

} // verus!
