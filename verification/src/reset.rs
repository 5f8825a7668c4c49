//! Resetting the device.
//!
//! `CPUSS.CTL` holds the prefetch and cache enables and resets to 0x7 (SLAU847F 3.6.15). TI's flash
//! algorithms clear it in `Init` and do not restore it, so once programming has finished the
//! prefetcher and both caches are off and every flash access is slower. `AIRCR.SYSRESETREQ` only
//! resets the CPU and leaves the register as the algorithm left it; SYSCTL's SYSRST puts it back
//! (SLAAEO5 section 6).
//!
//! SYSRST is only used when the caller has armed the reset catch. It restarts the core, which then
//! runs from whatever the reset vector holds; on a device with erased MAIN that is 0xFFFFFFFF, and
//! the core faults, locks up and takes the access ports down with it. A reset that halts arms the
//! catch and is the path flashing resets through, so SYSRST is both needed and safe there. A bare
//! reset is neither, and gets the stock one.
use vstd::prelude::*;

use crate::error::ArmError;
use crate::registers::{
    DEMCR, DEMCR_VC_CORERESET, RESETCMD_GO, RESETLEVEL_SYSRST, SYSCTL_RESETCMD, SYSCTL_RESETLEVEL,
};
use crate::sequence::{Action, Next, Operation, Reply, Sequence};

verus! {

/// Whether a `DEMCR` value has the reset catch armed.
pub open spec fn catch_armed(demcr: u32) -> bool {
    demcr & DEMCR_VC_CORERESET != 0
}

/// A reset in progress.
#[derive(Debug, Clone, Copy, PartialEq, Eq, Structural)]
pub enum ResetSystem {
    /// Finding out whether the reset catch is armed.
    ReadDemcr,
    /// It is not: the stock reset.
    StockReset,
    /// It is: selecting SYSRST.
    SelectLevel,
    /// Executing it. The device resets while this write is still in flight, so its acknowledge is
    /// unreliable.
    Execute,
    /// Sending what is still queued, which is just as unreliable.
    Flush,
    /// Waiting for the reset to complete.
    Wait,
}

impl Operation for ResetSystem {
    type Action = Action;

    open spec fn valid(self) -> bool {
        true
    }

    open spec fn awaited(self) -> Action {
        match self {
            ResetSystem::ReadDemcr => Action::ReadWord32 { address: DEMCR },
            ResetSystem::StockReset => Action::CortexMResetSystem,
            ResetSystem::SelectLevel => Action::WriteWord32 {
                address: SYSCTL_RESETLEVEL,
                value: RESETLEVEL_SYSRST,
            },
            ResetSystem::Execute => Action::WriteWord32 {
                address: SYSCTL_RESETCMD,
                value: RESETCMD_GO,
            },
            ResetSystem::Flush => Action::Flush,
            ResetSystem::Wait => Action::CortexMWaitForReset,
        }
    }

    fn action(&self) -> (action: Action) {
        match self {
            ResetSystem::ReadDemcr => Action::ReadWord32 { address: DEMCR },
            ResetSystem::StockReset => Action::CortexMResetSystem,
            ResetSystem::SelectLevel => Action::WriteWord32 {
                address: SYSCTL_RESETLEVEL,
                value: RESETLEVEL_SYSRST,
            },
            ResetSystem::Execute => Action::WriteWord32 {
                address: SYSCTL_RESETCMD,
                value: RESETCMD_GO,
            },
            ResetSystem::Flush => Action::Flush,
            ResetSystem::Wait => Action::CortexMWaitForReset,
        }
    }
}

impl<E> Sequence<E> for ResetSystem {
    type Output = Result<(), ArmError<E>>;

    open spec fn admits(self, reply: Reply<E>) -> bool {
        self.awaited().admits(reply)
    }

    open spec fn after(self, reply: Reply<E>) -> Next<ResetSystem, Result<(), ArmError<E>>> {
        match (self, reply) {
            (ResetSystem::Execute, _) => Next::Continue(ResetSystem::Flush),
            (ResetSystem::Flush, _) => Next::Continue(ResetSystem::Wait),
            (_, Reply::Failed(error)) => Next::Finish(Err(ArmError::Interface(error))),
            (ResetSystem::ReadDemcr, reply) => if catch_armed(reply->Word_0) {
                Next::Continue(ResetSystem::SelectLevel)
            } else {
                Next::Continue(ResetSystem::StockReset)
            },
            (ResetSystem::SelectLevel, _) => Next::Continue(ResetSystem::Execute),
            (ResetSystem::StockReset, _) | (ResetSystem::Wait, _) => Next::Finish(Ok(())),
        }
    }

    fn next(self, reply: Reply<E>) -> (next: Next<ResetSystem, Result<(), ArmError<E>>>) {
        match (self, reply) {
            (ResetSystem::Execute, _) => Next::Continue(ResetSystem::Flush),
            (ResetSystem::Flush, _) => Next::Continue(ResetSystem::Wait),
            (_, Reply::Failed(error)) => Next::Finish(Err(ArmError::Interface(error))),
            (ResetSystem::ReadDemcr, Reply::Word(demcr)) => if demcr & DEMCR_VC_CORERESET != 0 {
                Next::Continue(ResetSystem::SelectLevel)
            } else {
                Next::Continue(ResetSystem::StockReset)
            },
            (ResetSystem::SelectLevel, _) => Next::Continue(ResetSystem::Execute),
            _ => Next::Finish(Ok(())),
        }
    }
}

} // verus!
