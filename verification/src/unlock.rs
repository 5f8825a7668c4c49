//! Recovering a device that cannot be reached any more, at the price of what it holds.
use vstd::prelude::*;

use crate::attach::idr_is_present;
use crate::error::ArmError;
use crate::mailbox::DssmCommand;
use crate::registers::DSSM_MASS_ERASE;
use crate::sequence::{AccessPort, Action, Next, Operation, Reply, Sequence};

verus! {

/// What wiping the device results in when the mailbox command for it resulted in `result`.
///
/// When the command succeeded, the device has restarted out of a BOOTRST with nothing programmed,
/// so whatever the caller had is gone along with the connection it had it through.
pub open spec fn wiped<E>(result: Result<(), ArmError<E>>) -> Result<(), ArmError<E>> {
    match result {
        Ok(()) => Err(ArmError::ReAttachRequired),
        Err(error) => Err(error),
    }
}

/// The result of wiping the device by a mailbox command that ended with `result`.
pub fn after_wipe<E>(result: Result<(), ArmError<E>>) -> (output: Result<(), ArmError<E>>)
    ensures
        output == wiped(result),
{
    match result {
        Ok(()) => Err(ArmError::ReAttachRequired),
        Err(error) => Err(error),
    }
}

/// An unlock in progress.
#[derive(Debug, Clone, Copy)]
pub enum DebugDeviceUnlock {
    /// Reading the identification register of the default access port. Everything past this point
    /// needs the AHB-AP. If it answers, there is nothing to recover.
    ReadIdr,
    /// Asking for permission. The only way back is to erase what the core is running, so this needs
    /// saying out loud rather than happening quietly on an ordinary attach.
    CheckEraseAll,
    /// Erasing main flash.
    MassErase(DssmCommand),
}

impl Operation for DebugDeviceUnlock {
    type Action = Action;

    open spec fn valid(self) -> bool {
        self matches DebugDeviceUnlock::MassErase(command) ==> command.valid()
    }

    open spec fn awaited(self) -> Action {
        match self {
            DebugDeviceUnlock::ReadIdr => Action::ReadIdr { port: AccessPort::Default },
            DebugDeviceUnlock::CheckEraseAll => Action::CheckEraseAll,
            DebugDeviceUnlock::MassErase(command) => command.awaited(),
        }
    }

    fn action(&self) -> (action: Action) {
        match self {
            DebugDeviceUnlock::ReadIdr => Action::ReadIdr { port: AccessPort::Default },
            DebugDeviceUnlock::CheckEraseAll => Action::CheckEraseAll,
            DebugDeviceUnlock::MassErase(command) => command.action(),
        }
    }
}

impl<E> Sequence<E> for DebugDeviceUnlock {
    type Output = Result<(), ArmError<E>>;

    open spec fn admits(self, reply: Reply<E>) -> bool {
        self.awaited().admits(reply)
    }

    open spec fn after(self, reply: Reply<E>) -> Next<DebugDeviceUnlock, Result<(), ArmError<E>>> {
        match self {
            DebugDeviceUnlock::ReadIdr => if crate::attach::ap_answers(reply) {
                Next::Finish(Ok(()))
            } else {
                Next::Continue(DebugDeviceUnlock::CheckEraseAll)
            },
            DebugDeviceUnlock::CheckEraseAll => match reply {
                Reply::MissingPermissions(permission) => Next::Finish(
                    Err(ArmError::MissingPermissions(permission)),
                ),
                _ => Next::Continue(
                    DebugDeviceUnlock::MassErase(
                        crate::mailbox::unstaged(DSSM_MASS_ERASE, "mass erase"),
                    ),
                ),
            },
            DebugDeviceUnlock::MassErase(command) => match command.after(reply) {
                Next::Continue(command) => Next::Continue(DebugDeviceUnlock::MassErase(command)),
                Next::Finish(result) => Next::Finish(wiped(result)),
            },
        }
    }

    fn next(self, reply: Reply<E>) -> (next: Next<DebugDeviceUnlock, Result<(), ArmError<E>>>) {
        match self {
            DebugDeviceUnlock::ReadIdr => if idr_is_present(&reply) {
                Next::Finish(Ok(()))
            } else {
                Next::Continue(DebugDeviceUnlock::CheckEraseAll)
            },
            DebugDeviceUnlock::CheckEraseAll => match reply {
                Reply::MissingPermissions(permission) => Next::Finish(
                    Err(ArmError::MissingPermissions(permission)),
                ),
                _ => Next::Continue(
                    DebugDeviceUnlock::MassErase(
                        DssmCommand::start(DSSM_MASS_ERASE, "mass erase"),
                    ),
                ),
            },
            DebugDeviceUnlock::MassErase(command) => match command.next(reply) {
                Next::Continue(command) => Next::Continue(DebugDeviceUnlock::MassErase(command)),
                Next::Finish(result) => Next::Finish(after_wipe(result)),
            },
        }
    }
}

/// A factory reset in progress.
#[derive(Debug, Clone, Copy)]
pub struct FactoryReset {
    /// The mailbox command that resets NONMAIN to TI's defaults.
    pub command: DssmCommand,
}

impl Operation for FactoryReset {
    type Action = Action;

    open spec fn valid(self) -> bool {
        self.command.valid()
    }

    open spec fn awaited(self) -> Action {
        self.command.awaited()
    }

    fn action(&self) -> (action: Action) {
        self.command.action()
    }
}

impl<E> Sequence<E> for FactoryReset {
    type Output = Result<(), ArmError<E>>;

    open spec fn admits(self, reply: Reply<E>) -> bool {
        self.awaited().admits(reply)
    }

    open spec fn after(self, reply: Reply<E>) -> Next<FactoryReset, Result<(), ArmError<E>>> {
        match self.command.after(reply) {
            Next::Continue(command) => Next::Continue(FactoryReset { command }),
            Next::Finish(result) => Next::Finish(wiped(result)),
        }
    }

    fn next(self, reply: Reply<E>) -> (next: Next<FactoryReset, Result<(), ArmError<E>>>) {
        match self.command.next(reply) {
            Next::Continue(command) => Next::Continue(FactoryReset { command }),
            Next::Finish(result) => Next::Finish(after_wipe(result)),
        }
    }
}

} // verus!
