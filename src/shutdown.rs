use vstd::prelude::*;

use crate::error::AppError;

verus! {

/// A message between the main thread and the servers it started.
#[derive(Debug, Clone, Copy, PartialEq, Eq, Structural)]
pub enum StopEvent {
    /// Someone asked the whole program to shut down.
    Shutdown,
    /// The main thread asks a server to stop.
    StopServer,
    /// The server with this id has stopped.
    StopServerFinished(u32),
}

/// Where the main thread stands in shutting the servers down.
#[derive(Debug, Clone, Copy, PartialEq, Eq, Structural)]
pub enum ShutdownPhase {
    /// Serving; this many servers have stopped on their own.
    Waiting(u32),
    /// Every server was asked to stop; this many have not confirmed yet.
    Draining(u32),
    /// Every server has stopped.
    Done,
}

/// What the main thread does after an event.
#[derive(Debug, Clone, Copy, PartialEq, Eq, Structural)]
pub enum ShutdownAction {
    /// Wait for the next event.
    Wait,
    /// Ask every server to stop, then wait.
    StopAll,
    /// All servers have stopped: the main thread ends.
    Finished,
}

/// The main thread's view of the shutdown of `servers` servers.
pub struct MainStopper {
    servers: u32,
    phase: ShutdownPhase,
}

pub open spec fn phase_ok(servers: u32, phase: ShutdownPhase) -> bool {
    match phase {
        ShutdownPhase::Waiting(stopped) => stopped < servers,
        ShutdownPhase::Draining(remaining) => 0 < remaining <= servers,
        ShutdownPhase::Done => true,
    }
}

/// The phase after an event, and the action; `None` when the event cannot
/// happen in that phase.
pub open spec fn shutdown_step(servers: u32, phase: ShutdownPhase, ev: StopEvent) -> Option<(ShutdownPhase, ShutdownAction)> {
    match (phase, ev) {
        (ShutdownPhase::Waiting(_), StopEvent::Shutdown) => Some(
            (ShutdownPhase::Draining(servers), ShutdownAction::StopAll),
        ),
        (ShutdownPhase::Waiting(stopped), StopEvent::StopServerFinished(_)) => if stopped + 1 >= servers {
            Some((ShutdownPhase::Done, ShutdownAction::Finished))
        } else {
            Some((ShutdownPhase::Waiting((stopped + 1) as u32), ShutdownAction::Wait))
        },
        (ShutdownPhase::Draining(remaining), StopEvent::StopServerFinished(_)) => if remaining <= 1 {
            Some((ShutdownPhase::Done, ShutdownAction::Finished))
        } else {
            Some((ShutdownPhase::Draining((remaining - 1) as u32), ShutdownAction::Wait))
        },
        _ => None,
    }
}

impl MainStopper {
    pub closed spec fn servers(&self) -> u32 {
        self.servers
    }

    pub closed spec fn phase(&self) -> ShutdownPhase {
        self.phase
    }

    pub closed spec fn wf(&self) -> bool {
        phase_ok(self.servers, self.phase)
    }

    /// The shutdown of `servers` servers, none of which has stopped yet.
    pub fn new(servers: u32) -> (r: MainStopper)
        ensures
            r.wf(),
            r.servers() == servers,
            r.phase() == if servers == 0 { ShutdownPhase::Done } else { ShutdownPhase::Waiting(0) },
    {
        let phase = if servers == 0 { ShutdownPhase::Done } else { ShutdownPhase::Waiting(0) };
        MainStopper { servers, phase }
    }

    pub fn get_phase(&self) -> (r: ShutdownPhase)
        ensures
            r == self.phase(),
    {
        self.phase
    }

    /// Takes one event: moves the phase and says what the main thread does
    /// next; an event that cannot happen in the current phase is reported as
    /// an invariant violation and leaves the phase as it was.
    pub fn on_event(&mut self, ev: StopEvent) -> (r: Result<ShutdownAction, AppError>)
        requires
            old(self).wf(),
        ensures
            final(self).wf(),
            final(self).servers() == old(self).servers(),
            match shutdown_step(old(self).servers(), old(self).phase(), ev) {
                Some((phase, action)) => r == Ok::<ShutdownAction, AppError>(action) && final(self).phase()
                    == phase,
                None => r matches Err(AppError::InvariantViolation(_)) && final(self).phase() == old(
                    self,
                ).phase(),
            },
    {
        match (self.phase, ev) {
            (ShutdownPhase::Waiting(_), StopEvent::Shutdown) => {
                self.phase = ShutdownPhase::Draining(self.servers);
                Ok(ShutdownAction::StopAll)
            },
            (ShutdownPhase::Waiting(stopped), StopEvent::StopServerFinished(_)) => {
                if stopped + 1 >= self.servers {
                    self.phase = ShutdownPhase::Done;
                    Ok(ShutdownAction::Finished)
                } else {
                    self.phase = ShutdownPhase::Waiting(stopped + 1);
                    Ok(ShutdownAction::Wait)
                }
            },
            (ShutdownPhase::Draining(remaining), StopEvent::StopServerFinished(_)) => {
                if remaining <= 1 {
                    self.phase = ShutdownPhase::Done;
                    Ok(ShutdownAction::Finished)
                } else {
                    self.phase = ShutdownPhase::Draining(remaining - 1);
                    Ok(ShutdownAction::Wait)
                }
            },
            _ => Err(AppError::InvariantViolation(String::from_str("unexpected stop event"))),
        }
    }
}

/// Once a shutdown is asked for, every server is asked to stop and the main
/// thread finishes after exactly as many confirmations as there are servers.
pub proof fn law_shutdown_drains_every_server(servers: u32, stopped: u32, id: u32)
    requires
        stopped < servers,
    ensures
        shutdown_step(servers, ShutdownPhase::Waiting(stopped), StopEvent::Shutdown) == Some(
            (ShutdownPhase::Draining(servers), ShutdownAction::StopAll),
        ),
        forall|k: u32|
            #![trigger shutdown_step(servers, ShutdownPhase::Draining(k), StopEvent::StopServerFinished(id))]
            0 < k <= servers ==> shutdown_step(
                servers,
                ShutdownPhase::Draining(k),
                StopEvent::StopServerFinished(id),
            ) == if k == 1 {
                Some((ShutdownPhase::Done, ShutdownAction::Finished))
            } else {
                Some((ShutdownPhase::Draining((k - 1) as u32), ShutdownAction::Wait))
            },
{
}

} // verus!
