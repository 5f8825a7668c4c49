//! Detaching: handing low-power control back to the application.
use vstd::prelude::*;

use crate::attach::{read_dprec0, write_dprec0};
use crate::error::ArmError;
use crate::registers::{DPREC0_FORCEACTIVE, DPREC0_INHIBITSLEEP, DPREC0_RST_CTL};
use crate::sequence::{Action, Next, Operation, Reply, Sequence};

verus! {

/// What a detach leaves in `DPREC0` when it found `dprec0` there.
///
/// Leaving `INHIBITSLEEP` set would keep the part awake and burning current until its next reset.
/// `RST CTL` goes back to its default too: halt-on-reset applies to "any form of reset performed on
/// it post-configuration" (SLAAEO5 3.2.2), so leaving it selected stops the core on the next reset
/// with no debugger present to release it.
pub open spec fn released(dprec0: u32) -> u32 {
    dprec0 & !(DPREC0_INHIBITSLEEP | DPREC0_FORCEACTIVE | DPREC0_RST_CTL)
}

/// The value of `DPREC0` that hands low-power control back to the application.
pub fn release_dprec0(dprec0: u32) -> (value: u32)
    ensures
        value == released(dprec0),
{
    dprec0 & !(DPREC0_INHIBITSLEEP | DPREC0_FORCEACTIVE | DPREC0_RST_CTL)
}

/// A detach in progress.
#[derive(Debug, Clone, Copy, PartialEq, Eq, Structural)]
pub enum DebugCoreStop {
    /// Tearing the core down. The `DPREC0` write below is what lets the device sleep again, so it
    /// has to come last.
    StopDefault,
    /// Obtaining the debug interface.
    GetInterface,
    /// Reading `DPREC0`.
    ReadDprec0,
    /// Writing it back without the bits that keep the device awake.
    Release { dprec0: u32 },
}

impl Operation for DebugCoreStop {
    type Action = Action;

    open spec fn valid(self) -> bool {
        true
    }

    open spec fn awaited(self) -> Action {
        match self {
            DebugCoreStop::StopDefault => Action::DebugCoreStopDefault,
            DebugCoreStop::GetInterface => Action::GetArmDebugInterface,
            DebugCoreStop::ReadDprec0 => crate::attach::dprec0_read(),
            DebugCoreStop::Release { dprec0 } => crate::attach::dprec0_write(released(dprec0)),
        }
    }

    fn action(&self) -> (action: Action) {
        match self {
            DebugCoreStop::StopDefault => Action::DebugCoreStopDefault,
            DebugCoreStop::GetInterface => Action::GetArmDebugInterface,
            DebugCoreStop::ReadDprec0 => read_dprec0(),
            DebugCoreStop::Release { dprec0 } => write_dprec0(release_dprec0(*dprec0)),
        }
    }
}

impl<E> Sequence<E> for DebugCoreStop {
    type Output = Result<(), ArmError<E>>;

    open spec fn admits(self, reply: Reply<E>) -> bool {
        self.awaited().admits(reply)
    }

    open spec fn after(self, reply: Reply<E>) -> Next<DebugCoreStop, Result<(), ArmError<E>>> {
        match (self, reply) {
            (_, Reply::Failed(error)) => Next::Finish(Err(ArmError::Interface(error))),
            (DebugCoreStop::StopDefault, _) => Next::Continue(DebugCoreStop::GetInterface),
            (DebugCoreStop::GetInterface, _) => Next::Continue(DebugCoreStop::ReadDprec0),
            (DebugCoreStop::ReadDprec0, reply) => Next::Continue(
                DebugCoreStop::Release { dprec0: reply->Word_0 },
            ),
            (DebugCoreStop::Release { .. }, _) => Next::Finish(Ok(())),
        }
    }

    fn next(self, reply: Reply<E>) -> (next: Next<DebugCoreStop, Result<(), ArmError<E>>>) {
        match (self, reply) {
            (_, Reply::Failed(error)) => Next::Finish(Err(ArmError::Interface(error))),
            (DebugCoreStop::StopDefault, _) => Next::Continue(DebugCoreStop::GetInterface),
            (DebugCoreStop::ReadDprec0, Reply::Word(dprec0)) => Next::Continue(
                DebugCoreStop::Release { dprec0 },
            ),
            (DebugCoreStop::Release { .. }, _) => Next::Finish(Ok(())),
            _ => Next::Continue(DebugCoreStop::ReadDprec0),
        }
    }
}

} // verus!
