//! Commands to the boot ROM, through the SEC-AP mailbox.
//!
//! The mailbox is only read by the boot code, and only out of a BOOTRST, so a command has to be
//! staged before the reset rather than issued after it. A system reset through the PWR-AP is a
//! lower reset level and does not run the boot code, which leaves the reset pin as the only way in
//! when the AHB-AP is gone (SLAAEO5 section 4).
use vstd::prelude::*;

use crate::error::{ArmDebugSequenceError, ArmError};
use crate::registers::{
    ApSel, DSSM_RESPONSE_OK, RXCTL, RXCTL_RX_VALID, RXDATA, TXCTL, TXDATA,
};
use crate::sequence::{Action, Next, Operation, Pins, Reply, Sequence};

verus! {

/// How long the boot ROM is given to answer: 2 s.
pub const ANSWER_TIMEOUT_NANOS: u128 = 2_000_000_000;

/// One operation of the staging part of a command, and whether its failure ends the command.
pub struct StagingStep {
    pub action: Action,
    pub required: bool,
}

/// The reset pin alone.
pub open spec fn nreset_pin() -> Pins {
    Pins { nreset: true }
}

/// No pin at all.
pub open spec fn no_pin() -> Pins {
    Pins { nreset: false }
}

/// What is done before the answer is waited for: write the command, drain whatever an earlier
/// command left in the receive side, or its answer would be mistaken for this one's, and pulse the
/// reset pin.
pub open spec fn staging(command: u32) -> Seq<StagingStep> {
    seq![
        StagingStep {
            action: Action::WriteRawApRegister {
                ap: ApSel::Sec,
                register: TXCTL,
                value: command,
            },
            required: true,
        },
        StagingStep {
            action: Action::WriteRawApRegister { ap: ApSel::Sec, register: TXDATA, value: 0 },
            required: true,
        },
        StagingStep {
            action: Action::ReadRawApRegister { ap: ApSel::Sec, register: RXDATA },
            required: false,
        },
        StagingStep {
            action: Action::ReadRawApRegister { ap: ApSel::Sec, register: RXCTL },
            required: false,
        },
        StagingStep { action: Action::Flush, required: false },
        StagingStep { action: Action::Sleep { millis: 500 }, required: true },
        StagingStep {
            action: Action::SwjPins { out: no_pin(), select: nreset_pin(), wait: 0 },
            required: true,
        },
        StagingStep { action: Action::Sleep { millis: 50 }, required: true },
        StagingStep {
            action: Action::SwjPins { out: nreset_pin(), select: nreset_pin(), wait: 0 },
            required: true,
        },
        StagingStep { action: Action::StartTimer, required: true },
    ]
}

/// Whether a poll of `RXCTL` says that there is an answer. A failed read says that there is none.
pub open spec fn answer_pending<E>(reply: Reply<E>) -> bool {
    reply matches Reply::Word(rxctl) && rxctl & RXCTL_RX_VALID != 0
}

/// Whether the boot ROM's answer says that it has serviced `command`.
pub open spec fn serviced(command: u32, response: u32, echoed: u32) -> bool {
    response == DSSM_RESPONSE_OK && echoed == command & 0xFF
}

/// Where a mailbox command stands.
#[derive(Debug, Clone, Copy, PartialEq, Eq, Structural)]
pub enum DssmStage {
    /// At this operation of the staging part.
    Staging(usize),
    /// Polling `RXCTL` for an answer.
    PollAnswer,
    /// There was no answer yet: reading the stopwatch.
    CheckTimer,
    /// Sleeping between two polls.
    Pause,
    /// Reading the answer. This clears `RXVLD`, so it has to come before the echo.
    ReadResponse,
    /// Reading back what the ROM says it serviced.
    ReadEcho { response: u32 },
}

/// A boot ROM mailbox command in progress, named by `what` for the error messages.
#[derive(Debug, Clone, Copy)]
pub struct DssmCommand {
    pub command: u32,
    pub what: &'static str,
    pub stage: DssmStage,
}

/// The command before its first operation.
pub open spec fn unstaged(command: u32, what: &'static str) -> DssmCommand {
    DssmCommand { command, what, stage: DssmStage::Staging(0) }
}

impl DssmCommand {
    /// The same command at another stage.
    pub open spec fn at(self, stage: DssmStage) -> DssmCommand {
        DssmCommand { stage, ..self }
    }

    /// The command before its first operation.
    pub fn start(command: u32, what: &'static str) -> (sequence: DssmCommand)
        ensures
            sequence.valid(),
            sequence == unstaged(command, what),
    {
        DssmCommand { command, what, stage: DssmStage::Staging(0) }
    }
}

impl Operation for DssmCommand {
    type Action = Action;

    open spec fn valid(self) -> bool {
        self.stage matches DssmStage::Staging(step) ==> step < staging(self.command).len()
    }

    open spec fn awaited(self) -> Action {
        match self.stage {
            DssmStage::Staging(step) => staging(self.command)[step as int].action,
            DssmStage::PollAnswer | DssmStage::ReadEcho { .. } => Action::ReadRawApRegister {
                ap: ApSel::Sec,
                register: RXCTL,
            },
            DssmStage::CheckTimer => Action::ReadTimer,
            DssmStage::Pause => Action::Sleep { millis: 1 },
            DssmStage::ReadResponse => Action::ReadRawApRegister {
                ap: ApSel::Sec,
                register: RXDATA,
            },
        }
    }

    fn action(&self) -> (action: Action) {
        let ap = ApSel::Sec;
        let nreset = Pins { nreset: true };
        match self.stage {
            DssmStage::Staging(step) => match step {
                0 => Action::WriteRawApRegister { ap, register: TXCTL, value: self.command },
                1 => Action::WriteRawApRegister { ap, register: TXDATA, value: 0 },
                2 => Action::ReadRawApRegister { ap, register: RXDATA },
                3 => Action::ReadRawApRegister { ap, register: RXCTL },
                4 => Action::Flush,
                5 => Action::Sleep { millis: 500 },
                6 => Action::SwjPins { out: Pins { nreset: false }, select: nreset, wait: 0 },
                7 => Action::Sleep { millis: 50 },
                8 => Action::SwjPins { out: nreset, select: nreset, wait: 0 },
                _ => Action::StartTimer,
            },
            DssmStage::PollAnswer | DssmStage::ReadEcho { .. } => {
                Action::ReadRawApRegister { ap, register: RXCTL }
            },
            DssmStage::CheckTimer => Action::ReadTimer,
            DssmStage::Pause => Action::Sleep { millis: 1 },
            DssmStage::ReadResponse => Action::ReadRawApRegister { ap, register: RXDATA },
        }
    }
}

impl<E> Sequence<E> for DssmCommand {
    type Output = Result<(), ArmError<E>>;

    open spec fn admits(self, reply: Reply<E>) -> bool {
        self.awaited().admits(reply)
    }

    open spec fn after(self, reply: Reply<E>) -> Next<DssmCommand, Result<(), ArmError<E>>> {
        match (self.stage, reply) {
            (DssmStage::Staging(step), reply) => {
                if reply is Failed && staging(self.command)[step as int].required {
                    Next::Finish(Err(ArmError::Interface(reply->Failed_0)))
                } else if step + 1 < staging(self.command).len() {
                    Next::Continue(self.at(DssmStage::Staging((step + 1) as usize)))
                } else {
                    Next::Continue(self.at(DssmStage::PollAnswer))
                }
            },
            (DssmStage::PollAnswer, reply) => if answer_pending(reply) {
                Next::Continue(self.at(DssmStage::ReadResponse))
            } else {
                Next::Continue(self.at(DssmStage::CheckTimer))
            },
            (DssmStage::CheckTimer, reply) => if reply->nanos > ANSWER_TIMEOUT_NANOS {
                Next::Finish(
                    Err(
                        ArmError::DebugSequence(
                            ArmDebugSequenceError::NoAnswer { what: self.what },
                        ),
                    ),
                )
            } else {
                Next::Continue(self.at(DssmStage::Pause))
            },
            (DssmStage::Pause, _) => Next::Continue(self.at(DssmStage::PollAnswer)),
            (_, Reply::Failed(error)) => Next::Finish(Err(ArmError::Interface(error))),
            (DssmStage::ReadResponse, reply) => Next::Continue(
                self.at(DssmStage::ReadEcho { response: reply->Word_0 }),
            ),
            (DssmStage::ReadEcho { response }, reply) => if serviced(
                self.command,
                response,
                reply->Word_0,
            ) {
                Next::Finish(Ok(()))
            } else {
                Next::Finish(
                    Err(
                        ArmError::DebugSequence(
                            ArmDebugSequenceError::Rejected {
                                what: self.what,
                                response,
                                echoed: reply->Word_0,
                            },
                        ),
                    ),
                )
            },
        }
    }

    fn next(self, reply: Reply<E>) -> (next: Next<DssmCommand, Result<(), ArmError<E>>>) {
        let DssmCommand { command, what, stage } = self;
        let stage = match stage {
            DssmStage::Staging(step) => match reply {
                Reply::Failed(error) if step < 2 || step == 6 || step == 8 => {
                    return Next::Finish(Err(ArmError::Interface(error)));
                },
                _ => if step < 9 {
                    DssmStage::Staging(step + 1)
                } else {
                    DssmStage::PollAnswer
                },
            },
            DssmStage::PollAnswer => {
                let rxctl: u32 = match reply {
                    Reply::Word(rxctl) => rxctl,
                    _ => 0,
                };
                assert(0u32 & RXCTL_RX_VALID == 0) by (bit_vector);
                if rxctl & RXCTL_RX_VALID != 0 {
                    DssmStage::ReadResponse
                } else {
                    DssmStage::CheckTimer
                }
            },
            DssmStage::CheckTimer => match reply {
                Reply::Elapsed { nanos } if nanos > ANSWER_TIMEOUT_NANOS => {
                    let error = ArmDebugSequenceError::NoAnswer { what };
                    return Next::Finish(Err(ArmError::DebugSequence(error)));
                },
                _ => DssmStage::Pause,
            },
            DssmStage::Pause => DssmStage::PollAnswer,
            DssmStage::ReadResponse => match reply {
                Reply::Failed(error) => return Next::Finish(Err(ArmError::Interface(error))),
                Reply::Word(response) => DssmStage::ReadEcho { response },
                _ => DssmStage::ReadResponse,
            },
            DssmStage::ReadEcho { response } => {
                return match reply {
                    Reply::Failed(error) => Next::Finish(Err(ArmError::Interface(error))),
                    Reply::Word(echoed) => if response != DSSM_RESPONSE_OK || echoed != command
                        & 0xFF {
                        let error = ArmDebugSequenceError::Rejected { what, response, echoed };
                        Next::Finish(Err(ArmError::DebugSequence(error)))
                    } else {
                        Next::Finish(Ok(()))
                    },
                    _ => Next::Continue(self),
                };
            },
        };
        Next::Continue(DssmCommand { command, what, stage })
    }
}

} // verus!
