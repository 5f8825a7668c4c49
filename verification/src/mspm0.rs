//! The MSPM0 family.
use std::sync::Arc;
use vstd::prelude::*;

use crate::attach::{AhbApResponds, DebugPortStage, DebugPortStart, RecoverSticky};
use crate::detach::DebugCoreStop;
use crate::mailbox::DssmCommand;
use crate::registers::DSSM_FACTORY_RESET;
use crate::reset::ResetSystem;
use crate::sequence::Operation;
use crate::text::starts_with;
use crate::unlock::{DebugDeviceUnlock, FactoryReset};

verus! {

/// Whether the part called `name` needs the longer recovery.
///
/// TI ships two flavours of the recovery path. The MSPM0C110X and MSPS003FX packs use a longer
/// variant; every other family uses the short one.
pub open spec fn needs_long_recovery(name: Seq<char>) -> bool {
    "MSPM0C110"@.is_prefix_of(name) || "MSPS003F"@.is_prefix_of(name)
}

/// The debug sequences of one MSPM0 part.
///
/// Each method gives a sequence before its first operation; see [`crate::sequence::Sequence`] for
/// how to carry it through.
#[derive(Debug)]
pub struct MSPM0 {
    /// Chip name, used to select the recovery variant.
    pub name: String,
    /// Whether this part needs the longer sticky-bit recovery sequence.
    pub long_recovery: bool,
}

impl MSPM0 {
    /// Whether the recovery variant is the one that goes with the chip name.
    pub open spec fn well_formed(self) -> bool {
        self.long_recovery == needs_long_recovery(self.name@)
    }

    /// The sequences of the part called `name`.
    pub fn create(name: String) -> (mspm0: Arc<MSPM0>)
        ensures
            mspm0.name == name,
            mspm0.well_formed(),
    {
        let long_recovery = starts_with(name.as_str(), "MSPM0C110")
            || starts_with(name.as_str(), "MSPS003F");
        Arc::new(MSPM0 { name, long_recovery })
    }

    /// Finding out whether the AHB-AP answers.
    pub fn ahb_ap_responds(&self) -> (sequence: AhbApResponds)
        ensures
            sequence == AhbApResponds::StartTimer,
            sequence.valid(),
    {
        AhbApResponds::StartTimer
    }

    /// Recovering a device whose `DPREC0` sticky bits are set.
    pub fn recover_sticky(&self) -> (sequence: RecoverSticky)
        ensures
            sequence == (RecoverSticky { long_recovery: self.long_recovery, step: 0 }),
            sequence.valid(),
    {
        RecoverSticky::start(self.long_recovery)
    }

    /// Running one boot ROM mailbox command, named by `what` for the error messages.
    pub fn dssm_command(&self, command: u32, what: &'static str) -> (sequence: DssmCommand)
        ensures
            sequence == crate::mailbox::unstaged(command, what),
            sequence.valid(),
    {
        DssmCommand::start(command, what)
    }

    /// Resetting NONMAIN to TI's defaults, recovering a device the boot code will not start.
    pub fn dssm_factory_reset(&self) -> (sequence: DssmCommand)
        ensures
            sequence == crate::mailbox::unstaged(DSSM_FACTORY_RESET, "factory reset"),
            sequence.valid(),
    {
        self.dssm_command(DSSM_FACTORY_RESET, "factory reset")
    }

    /// Attaching: starting the debug port, and keeping the device out of DEEPSLEEP for as long as
    /// the debugger is attached.
    pub fn debug_port_start(&self) -> (sequence: DebugPortStart)
        ensures
            sequence == (DebugPortStart {
                long_recovery: self.long_recovery,
                stage: DebugPortStage::StartDefault,
            }),
            sequence.valid(),
    {
        DebugPortStart { long_recovery: self.long_recovery, stage: DebugPortStage::StartDefault }
    }

    /// Detaching: tearing the core down and handing low-power control back to the application.
    pub fn debug_core_stop(&self) -> (sequence: DebugCoreStop)
        ensures
            sequence == DebugCoreStop::StopDefault,
            sequence.valid(),
    {
        DebugCoreStop::StopDefault
    }

    /// Recovering a device whose AHB-AP does not answer, by erasing main flash.
    pub fn debug_device_unlock(&self) -> (sequence: DebugDeviceUnlock)
        ensures
            sequence == DebugDeviceUnlock::ReadIdr,
            sequence.valid(),
    {
        DebugDeviceUnlock::ReadIdr
    }

    /// Resetting the non-volatile configuration to its factory default.
    pub fn factory_reset(&self) -> (sequence: FactoryReset)
        ensures
            sequence == (FactoryReset {
                command: crate::mailbox::unstaged(DSSM_FACTORY_RESET, "factory reset"),
            }),
            sequence.valid(),
    {
        FactoryReset { command: self.dssm_factory_reset() }
    }

    /// Resetting the device: by SYSCTL when the reset catch is armed, else the stock way.
    pub fn reset_system(&self) -> (sequence: ResetSystem)
        ensures
            sequence == ResetSystem::ReadDemcr,
            sequence.valid(),
    {
        ResetSystem::ReadDemcr
    }
}

} // verus!
