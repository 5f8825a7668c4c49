//! Debug sequences as step-by-step machines.
//!
//! A debug sequence alternates operations on the probe with decisions about their results. The
//! operations belong to whoever owns the probe; the decisions are made here. A sequence in progress
//! names the one [`Action`] it is waiting for, takes the [`Reply`] to it, and either goes on to its
//! next action or finishes with its result.
//!
//! The second half of the file describes whole runs: what a sequence does, and how it ends, for a
//! given list of replies.
use vstd::prelude::*;

use crate::registers::ApSel;

verus! {

/// The access port that an identification register is read from.
#[derive(Debug, Clone, Copy, PartialEq, Eq, Structural)]
pub enum AccessPort {
    /// One of the access ports of the device, on its default debug port.
    Selected(ApSel),
    /// The access port that the caller named as the default one of the core.
    Default,
}

/// A set of probe pins, of which the sequences drive only the reset line.
#[derive(Debug, Clone, Copy, PartialEq, Eq, Structural)]
pub struct Pins {
    /// The active-low target reset line.
    pub nreset: bool,
}

/// One operation on the probe or on the clock.
#[derive(Debug, Clone, Copy, PartialEq, Eq, Structural)]
pub enum Action {
    /// Start the debug port the way every Arm device is started.
    DebugPortStartDefault,
    /// Tear the core down the way every Arm core is torn down.
    DebugCoreStopDefault,
    /// Obtain the debug interface behind a memory interface. The access port operations that
    /// follow go through it.
    GetArmDebugInterface,
    /// Read the identification register of an access port.
    ReadIdr { port: AccessPort },
    /// Read an access port register.
    ReadRawApRegister { ap: ApSel, register: u64 },
    /// Write an access port register.
    WriteRawApRegister { ap: ApSel, register: u64, value: u32 },
    /// Read a word of target memory.
    ReadWord32 { address: u64 },
    /// Write a word of target memory.
    WriteWord32 { address: u64, value: u32 },
    /// Send everything that is still queued.
    Flush,
    /// Drive the pins in `select` to the levels in `out`, then wait up to `wait` microseconds for
    /// them to settle.
    SwjPins { out: Pins, select: Pins, wait: u32 },
    /// Sleep for at least the given time.
    Sleep { millis: u64 },
    /// Restart the stopwatch.
    StartTimer,
    /// Read the stopwatch.
    ReadTimer,
    /// Ask whether erasing the whole device is permitted.
    CheckEraseAll,
    /// Reset the way every Cortex-M is reset, and wait for the reset to complete.
    CortexMResetSystem,
    /// Wait for a Cortex-M reset that is under way to complete.
    CortexMWaitForReset,
}

/// What came of an [`Action`]. `E` is the error of the probe.
#[derive(Debug)]
pub enum Reply<E> {
    /// It was carried out, and there is nothing to report.
    Done,
    /// It was carried out, and this is the word that was read.
    Word(u32),
    /// The stopwatch reading.
    Elapsed { nanos: u128 },
    /// The permission that was asked for is missing.
    MissingPermissions(String),
    /// It failed.
    Failed(E),
}

impl Action {
    /// Whether `reply` is a possible reply to this action.
    pub open spec fn admits<E>(self, reply: Reply<E>) -> bool {
        match self {
            Action::DebugPortStartDefault
            | Action::DebugCoreStopDefault
            | Action::GetArmDebugInterface
            | Action::WriteRawApRegister { .. }
            | Action::WriteWord32 { .. }
            | Action::Flush
            | Action::SwjPins { .. }
            | Action::CortexMResetSystem
            | Action::CortexMWaitForReset => reply is Done || reply is Failed,
            Action::ReadIdr { .. }
            | Action::ReadRawApRegister { .. }
            | Action::ReadWord32 { .. } => reply is Word || reply is Failed,
            Action::Sleep { .. } | Action::StartTimer => reply is Done,
            Action::ReadTimer => reply is Elapsed,
            Action::CheckEraseAll => reply is Done || reply is MissingPermissions,
        }
    }

    /// Tells whether `reply` is a possible reply to this action.
    pub fn accepts<E>(&self, reply: &Reply<E>) -> (accepted: bool)
        ensures
            accepted == self.admits(*reply),
    {
        match self {
            Action::ReadIdr { .. }
            | Action::ReadRawApRegister { .. }
            | Action::ReadWord32 { .. } => matches!(reply, Reply::Word(_) | Reply::Failed(_)),
            Action::Sleep { .. } | Action::StartTimer => matches!(reply, Reply::Done),
            Action::ReadTimer => matches!(reply, Reply::Elapsed { .. }),
            Action::CheckEraseAll => matches!(reply, Reply::Done | Reply::MissingPermissions(_)),
            _ => matches!(reply, Reply::Done | Reply::Failed(_)),
        }
    }
}

/// Where a sequence stands after a reply.
#[derive(Debug)]
pub enum Next<S, T> {
    /// It goes on from here.
    Continue(S),
    /// It is over, with this result.
    Finish(T),
}

/// Something in progress that is waiting for one operation to be carried out.
pub trait Operation: Sized {
    /// The kind of operation it waits for.
    type Action;

    /// Whether this is a position that can be reached.
    spec fn valid(self) -> bool;

    /// The operation it is waiting for.
    spec fn awaited(self) -> Self::Action;

    /// The operation to carry out now.
    fn action(&self) -> (action: Self::Action)
        requires
            self.valid(),
        ensures
            action == self.awaited(),
    ;
}

/// An [`Operation`] that decides what follows from the reply to what it was waiting for.
pub trait Sequence<E>: Operation {
    /// What the whole sequence results in.
    type Output;

    /// Whether `reply` is a possible reply to the awaited operation.
    spec fn admits(self, reply: Reply<E>) -> bool;

    /// What follows from `reply`.
    spec fn after(self, reply: Reply<E>) -> Next<Self, Self::Output>;

    /// Takes the reply to the awaited operation.
    fn next(self, reply: Reply<E>) -> (next: Next<Self, Self::Output>)
        requires
            self.valid(),
            self.admits(reply),
        ensures
            next == self.after(reply),
            next matches Next::Continue(rest) ==> rest.valid(),
    ;
}

/// An operation together with what came of it.
pub struct Exchange<A, E> {
    pub action: A,
    pub reply: Reply<E>,
}

/// Whether `replies` can be the replies given to `sequence`, in order: each fits the operation it
/// answers, and none follows the end. A run may stop before the end.
pub open spec fn is_run<E, S: Sequence<E>>(sequence: S, replies: Seq<Reply<E>>) -> bool
    decreases replies.len(),
{
    replies.len() == 0 || {
        &&& sequence.admits(replies[0])
        &&& match sequence.after(replies[0]) {
            Next::Continue(rest) => is_run(rest, replies.drop_first()),
            Next::Finish(_) => replies.len() == 1,
        }
    }
}

/// What `sequence` does when it is given `replies`: every operation, with its reply.
pub open spec fn log<E, S: Sequence<E>>(sequence: S, replies: Seq<Reply<E>>) -> Seq<
    Exchange<S::Action, E>,
>
    decreases replies.len(),
{
    if replies.len() == 0 {
        seq![]
    } else {
        seq![Exchange { action: sequence.awaited(), reply: replies[0] }]
            + match sequence.after(replies[0]) {
            Next::Continue(rest) => log(rest, replies.drop_first()),
            Next::Finish(_) => seq![],
        }
    }
}

/// The result of `sequence` when it is given `replies`, if they take it to its end.
pub open spec fn outcome<E, S: Sequence<E>>(sequence: S, replies: Seq<Reply<E>>) -> Option<
    S::Output,
>
    decreases replies.len(),
{
    if replies.len() == 0 {
        None
    } else {
        match sequence.after(replies[0]) {
            Next::Continue(rest) => outcome(rest, replies.drop_first()),
            Next::Finish(output) => Some(output),
        }
    }
}

} // verus!
