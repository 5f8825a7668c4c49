//! Attaching: starting the debug port and keeping the device awake.
//!
//! The AHB-AP lives in power domain PD1. Entering DEEPSLEEP (STOP or STANDBY) disables PD1, which
//! makes the AHB-AP undiscoverable and drops the debug session. This is not limited to applications
//! that sleep deliberately: a blank device parks itself in STANDBY0 after roughly ten seconds of
//! bootcode, which revokes the AHB-AP the same way.
//!
//! The override is the PWR-AP. Setting `INHIBITSLEEP` and `FORCEACTIVE` in its `DPREC0` register
//! forces the device out of low-power mode and keeps it out for as long as the debugger is attached
//! (SLAAEO5 section 3.1).
use vstd::prelude::*;

use crate::error::ArmError;
use crate::registers::{
    ApSel, DPREC0, DPREC0_DEBUG_ENABLE, DPREC0_FORCEACTIVE, DPREC0_STICKY, SPREC, SPREC_SYS_RST,
};
use crate::sequence::{AccessPort, Action, Next, Operation, Reply, Sequence};

verus! {

/// How long the AHB-AP is given to come back after `FORCEACTIVE`: 10 ms.
pub const WAKE_TIMEOUT_NANOS: u128 = 10_000_000;

/// Reading `DPREC0`.
pub open spec fn dprec0_read() -> Action {
    Action::ReadRawApRegister { ap: ApSel::Pwr, register: DPREC0 }
}

/// Writing `DPREC0`.
pub open spec fn dprec0_write(value: u32) -> Action {
    Action::WriteRawApRegister { ap: ApSel::Pwr, register: DPREC0, value }
}

/// Writing `SPREC`.
pub open spec fn sprec_write(value: u32) -> Action {
    Action::WriteRawApRegister { ap: ApSel::Pwr, register: SPREC, value }
}

/// Reading the identification register of the AHB-AP.
pub open spec fn ahb_idr_read() -> Action {
    Action::ReadIdr { port: AccessPort::Selected(ApSel::Ahb) }
}

/// Whether an access port whose identification register was read is there.
pub open spec fn ap_answers<E>(reply: Reply<E>) -> bool {
    reply matches Reply::Word(idr) && idr != 0
}

/// Tells whether an access port whose identification register was read is there.
pub fn idr_is_present<E>(reply: &Reply<E>) -> (present: bool)
    ensures
        present == ap_answers(*reply),
{
    match reply {
        Reply::Word(idr) => *idr != 0,
        _ => false,
    }
}

/// The operation that reads `DPREC0`.
pub fn read_dprec0() -> (action: Action)
    ensures
        action == dprec0_read(),
{
    Action::ReadRawApRegister { ap: ApSel::Pwr, register: DPREC0 }
}

/// The operation that writes `value` to `DPREC0`.
pub fn write_dprec0(value: u32) -> (action: Action)
    ensures
        action == dprec0_write(value),
{
    Action::WriteRawApRegister { ap: ApSel::Pwr, register: DPREC0, value }
}

/// The operation that writes `value` to `SPREC`.
pub fn write_sprec(value: u32) -> (action: Action)
    ensures
        action == sprec_write(value),
{
    Action::WriteRawApRegister { ap: ApSel::Pwr, register: SPREC, value }
}

/// Finding out whether the AHB-AP answers.
///
/// `FORCEACTIVE` needs a moment to bring PD1 back up, so this polls rather than reading once.
/// Treating a slow wake as an absent access port would mean resetting a device that was only
/// asleep.
#[derive(Debug, Clone, Copy, PartialEq, Eq, Structural)]
pub enum AhbApResponds {
    /// Starting the stopwatch.
    StartTimer,
    /// Reading the identification register.
    ReadIdr,
    /// There was no answer yet: reading the stopwatch.
    CheckTimer,
    /// Sleeping between two reads.
    Pause,
}

impl Operation for AhbApResponds {
    type Action = Action;

    open spec fn valid(self) -> bool {
        true
    }

    open spec fn awaited(self) -> Action {
        match self {
            AhbApResponds::StartTimer => Action::StartTimer,
            AhbApResponds::ReadIdr => ahb_idr_read(),
            AhbApResponds::CheckTimer => Action::ReadTimer,
            AhbApResponds::Pause => Action::Sleep { millis: 1 },
        }
    }

    fn action(&self) -> (action: Action) {
        match self {
            AhbApResponds::StartTimer => Action::StartTimer,
            AhbApResponds::ReadIdr => Action::ReadIdr { port: AccessPort::Selected(ApSel::Ahb) },
            AhbApResponds::CheckTimer => Action::ReadTimer,
            AhbApResponds::Pause => Action::Sleep { millis: 1 },
        }
    }
}

impl<E> Sequence<E> for AhbApResponds {
    type Output = bool;

    open spec fn admits(self, reply: Reply<E>) -> bool {
        self.awaited().admits(reply)
    }

    open spec fn after(self, reply: Reply<E>) -> Next<AhbApResponds, bool> {
        match self {
            AhbApResponds::StartTimer | AhbApResponds::Pause => Next::Continue(
                AhbApResponds::ReadIdr,
            ),
            AhbApResponds::ReadIdr => if ap_answers(reply) {
                Next::Finish(true)
            } else {
                Next::Continue(AhbApResponds::CheckTimer)
            },
            AhbApResponds::CheckTimer => if reply->nanos > WAKE_TIMEOUT_NANOS {
                Next::Finish(false)
            } else {
                Next::Continue(AhbApResponds::Pause)
            },
        }
    }

    fn next(self, reply: Reply<E>) -> (next: Next<AhbApResponds, bool>) {
        match (self, reply) {
            (AhbApResponds::ReadIdr, reply) => if idr_is_present(&reply) {
                Next::Finish(true)
            } else {
                Next::Continue(AhbApResponds::CheckTimer)
            },
            (AhbApResponds::CheckTimer, Reply::Elapsed { nanos }) => if nanos
                > WAKE_TIMEOUT_NANOS {
                Next::Finish(false)
            } else {
                Next::Continue(AhbApResponds::Pause)
            },
            _ => Next::Continue(AhbApResponds::ReadIdr),
        }
    }
}

/// What a recovery does, in order. The parts with the long recovery get more of it.
///
/// The meaning of the sticky bits is undocumented; this is what TI's packs do. Writing the sticky
/// bits back preserves them.
pub open spec fn recovery(long: bool) -> Seq<Action> {
    if long {
        seq![
            sprec_write(SPREC_SYS_RST),
            dprec0_read(),
            dprec0_write(DPREC0_FORCEACTIVE),
            dprec0_read(),
            dprec0_write(DPREC0_DEBUG_ENABLE | DPREC0_STICKY),
            dprec0_read(),
            sprec_write(SPREC_SYS_RST),
            dprec0_write(DPREC0_DEBUG_ENABLE),
            dprec0_read(),
        ]
    } else {
        seq![
            sprec_write(SPREC_SYS_RST),
            dprec0_write(DPREC0_DEBUG_ENABLE | DPREC0_STICKY),
            dprec0_read(),
        ]
    }
}

/// Recovering a device whose `DPREC0` sticky bits are set and whose AHB-AP stays missing.
#[derive(Debug, Clone, Copy, PartialEq, Eq, Structural)]
pub struct RecoverSticky {
    /// Whether this part needs the longer recovery.
    pub long_recovery: bool,
    /// The operation of the recovery that is under way.
    pub step: usize,
}

impl RecoverSticky {
    /// The recovery before its first operation.
    pub fn start(long_recovery: bool) -> (sequence: RecoverSticky)
        ensures
            sequence.valid(),
            sequence == (RecoverSticky { long_recovery, step: 0 }),
    {
        RecoverSticky { long_recovery, step: 0 }
    }
}

impl Operation for RecoverSticky {
    type Action = Action;

    open spec fn valid(self) -> bool {
        self.step < recovery(self.long_recovery).len()
    }

    open spec fn awaited(self) -> Action {
        recovery(self.long_recovery)[self.step as int]
    }

    fn action(&self) -> (action: Action) {
        if self.step == 0 {
            return write_sprec(SPREC_SYS_RST);
        }
        if self.long_recovery {
            match self.step {
                2 => write_dprec0(DPREC0_FORCEACTIVE),
                4 => write_dprec0(DPREC0_DEBUG_ENABLE | DPREC0_STICKY),
                6 => write_sprec(SPREC_SYS_RST),
                7 => write_dprec0(DPREC0_DEBUG_ENABLE),
                _ => read_dprec0(),
            }
        } else if self.step == 1 {
            write_dprec0(DPREC0_DEBUG_ENABLE | DPREC0_STICKY)
        } else {
            read_dprec0()
        }
    }
}

impl<E> Sequence<E> for RecoverSticky {
    type Output = Result<(), ArmError<E>>;

    open spec fn admits(self, reply: Reply<E>) -> bool {
        self.awaited().admits(reply)
    }

    open spec fn after(self, reply: Reply<E>) -> Next<RecoverSticky, Result<(), ArmError<E>>> {
        match reply {
            Reply::Failed(error) => Next::Finish(Err(ArmError::Interface(error))),
            _ => if self.step + 1 < recovery(self.long_recovery).len() {
                Next::Continue(RecoverSticky { step: (self.step + 1) as usize, ..self })
            } else {
                Next::Finish(Ok(()))
            },
        }
    }

    fn next(self, reply: Reply<E>) -> (next: Next<RecoverSticky, Result<(), ArmError<E>>>) {
        let last: usize = if self.long_recovery {
            8
        } else {
            2
        };
        match reply {
            Reply::Failed(error) => Next::Finish(Err(ArmError::Interface(error))),
            _ => if self.step < last {
                Next::Continue(
                    RecoverSticky { long_recovery: self.long_recovery, step: self.step + 1 },
                )
            } else {
                Next::Finish(Ok(()))
            },
        }
    }
}

/// Where an attach stands.
#[derive(Debug, Clone, Copy, PartialEq, Eq, Structural)]
pub enum DebugPortStage {
    /// Starting the debug port.
    StartDefault,
    /// Reading `DPREC0`. A failure here is not recoverable: if `DEBUGSS.SPECIAL_AUTH.PWRAPEN` is
    /// deasserted in NONMAIN, a DAPBUS firewall isolates the PWR-AP entirely.
    ReadDprec0,
    /// The sticky bits are clear: keeping the device out of DEEPSLEEP.
    Enable,
    /// The sticky bits are set: waking the device without resetting it.
    ///
    /// They are set on any device that has been in a low-power state, not only on one that needs
    /// recovering, so finding them set is not on its own a reason to reset the device.
    Wake,
    /// Seeing whether the AHB-AP comes back.
    WaitForAhbAp(AhbApResponds),
    /// The AHB-AP stays missing.
    Recover(RecoverSticky),
}

/// An attach in progress.
#[derive(Debug, Clone, Copy, PartialEq, Eq, Structural)]
pub struct DebugPortStart {
    /// Whether this part needs the longer recovery.
    pub long_recovery: bool,
    pub stage: DebugPortStage,
}

impl DebugPortStart {
    /// The same attach at another stage.
    pub open spec fn at(self, stage: DebugPortStage) -> DebugPortStart {
        DebugPortStart { stage, ..self }
    }
}

impl Operation for DebugPortStart {
    type Action = Action;

    open spec fn valid(self) -> bool {
        self.stage matches DebugPortStage::Recover(recover) ==> {
            &&& recover.valid()
            &&& recover.long_recovery == self.long_recovery
        }
    }

    open spec fn awaited(self) -> Action {
        match self.stage {
            DebugPortStage::StartDefault => Action::DebugPortStartDefault,
            DebugPortStage::ReadDprec0 => dprec0_read(),
            DebugPortStage::Enable => dprec0_write(DPREC0_DEBUG_ENABLE),
            DebugPortStage::Wake => dprec0_write(DPREC0_DEBUG_ENABLE | DPREC0_STICKY),
            DebugPortStage::WaitForAhbAp(poll) => poll.awaited(),
            DebugPortStage::Recover(recover) => recover.awaited(),
        }
    }

    fn action(&self) -> (action: Action) {
        match &self.stage {
            DebugPortStage::StartDefault => Action::DebugPortStartDefault,
            DebugPortStage::ReadDprec0 => read_dprec0(),
            DebugPortStage::Enable => write_dprec0(DPREC0_DEBUG_ENABLE),
            DebugPortStage::Wake => write_dprec0(DPREC0_DEBUG_ENABLE | DPREC0_STICKY),
            DebugPortStage::WaitForAhbAp(poll) => poll.action(),
            DebugPortStage::Recover(recover) => recover.action(),
        }
    }
}

impl<E> Sequence<E> for DebugPortStart {
    type Output = Result<(), ArmError<E>>;

    open spec fn admits(self, reply: Reply<E>) -> bool {
        self.awaited().admits(reply)
    }

    open spec fn after(self, reply: Reply<E>) -> Next<DebugPortStart, Result<(), ArmError<E>>> {
        match (self.stage, reply) {
            (DebugPortStage::WaitForAhbAp(poll), reply) => match poll.after(reply) {
                Next::Continue(poll) => Next::Continue(
                    self.at(DebugPortStage::WaitForAhbAp(poll)),
                ),
                Next::Finish(true) => Next::Finish(Ok(())),
                Next::Finish(false) => Next::Continue(
                    self.at(
                        DebugPortStage::Recover(
                            RecoverSticky { long_recovery: self.long_recovery, step: 0 },
                        ),
                    ),
                ),
            },
            (DebugPortStage::Recover(recover), reply) => match recover.after(reply) {
                Next::Continue(recover) => Next::Continue(
                    self.at(DebugPortStage::Recover(recover)),
                ),
                Next::Finish(output) => Next::Finish(output),
            },
            (_, Reply::Failed(error)) => Next::Finish(Err(ArmError::Interface(error))),
            (DebugPortStage::StartDefault, _) => Next::Continue(
                self.at(DebugPortStage::ReadDprec0),
            ),
            (DebugPortStage::ReadDprec0, reply) => if reply->Word_0 & DPREC0_STICKY == 0 {
                Next::Continue(self.at(DebugPortStage::Enable))
            } else {
                Next::Continue(self.at(DebugPortStage::Wake))
            },
            (DebugPortStage::Enable, _) => Next::Finish(Ok(())),
            (DebugPortStage::Wake, _) => Next::Continue(
                self.at(DebugPortStage::WaitForAhbAp(AhbApResponds::StartTimer)),
            ),
        }
    }

    fn next(self, reply: Reply<E>) -> (next: Next<DebugPortStart, Result<(), ArmError<E>>>) {
        let long_recovery = self.long_recovery;
        let stage = match (self.stage, reply) {
            (DebugPortStage::WaitForAhbAp(poll), reply) => match poll.next(reply) {
                Next::Continue(poll) => DebugPortStage::WaitForAhbAp(poll),
                Next::Finish(responds) => {
                    if responds {
                        return Next::Finish(Ok(()));
                    }
                    DebugPortStage::Recover(RecoverSticky::start(long_recovery))
                },
            },
            (DebugPortStage::Recover(recover), reply) => match recover.next(reply) {
                Next::Continue(recover) => DebugPortStage::Recover(recover),
                Next::Finish(output) => return Next::Finish(output),
            },
            (_, Reply::Failed(error)) => return Next::Finish(Err(ArmError::Interface(error))),
            (DebugPortStage::ReadDprec0, Reply::Word(dprec0)) => if dprec0 & DPREC0_STICKY == 0 {
                DebugPortStage::Enable
            } else {
                DebugPortStage::Wake
            },
            (DebugPortStage::Enable, _) => return Next::Finish(Ok(())),
            (DebugPortStage::Wake, _) => DebugPortStage::WaitForAhbAp(AhbApResponds::StartTimer),
            _ => DebugPortStage::ReadDprec0,
        };
        Next::Continue(DebugPortStart { long_recovery, stage })
    }
}

} // verus!
