//! What holds of whole runs of the sequences, whatever the device and the probe reply.
use vstd::prelude::*;

use crate::attach::{AhbApResponds, DebugPortStart, RecoverSticky};
use crate::detach::DebugCoreStop;
use crate::error::ArmError;
use crate::mailbox::DssmCommand;
use crate::registers::ApSel;
use crate::reset::ResetSystem;
use crate::sequence;
use crate::sequence::{Action, Exchange, Next, Operation, Reply, Sequence};
use crate::unlock::{DebugDeviceUnlock, FactoryReset};

pub mod attach;
pub mod detach;
pub mod factory_reset;
pub mod mailbox;
pub mod mspm0;
pub mod reset;
pub mod scattered_read;
pub mod text;
pub mod unlock;

verus! {

/// Whether `outcome` is that of a sequence that is over and succeeded.
pub open spec fn succeeded<E>(outcome: Option<Result<(), ArmError<E>>>) -> bool {
    outcome matches Some(Ok(_))
}

/// Whether `outcome` is the demand to attach anew.
pub open spec fn demands_reattach<E>(outcome: Option<Result<(), ArmError<E>>>) -> bool {
    outcome matches Some(Err(ArmError::ReAttachRequired))
}

/// Whether `action` resets the device, or is the one that starts the reset.
pub open spec fn resets(action: Action) -> bool {
    match action {
        Action::WriteRawApRegister { ap, register, .. } => ap == ApSel::Pwr && register == 0xF0,
        Action::WriteWord32 { address, .. } => address == 0x400B_0304,
        Action::SwjPins { select, .. } => select.nreset,
        Action::CortexMResetSystem => true,
        _ => false,
    }
}

/// Whether `action` writes `DPREC0`.
pub open spec fn writes_dprec0(action: Action) -> bool {
    action matches Action::WriteRawApRegister { ap, register, .. } && ap == ApSel::Pwr && register
        == 0x00
}

/// Whether `action` hands the boot ROM a mailbox command.
pub open spec fn stages_command(action: Action) -> bool {
    action matches Action::WriteRawApRegister { ap, register, .. } && ap == ApSel::Sec && register
        == 0x04
}

/// The replies that each operation admits, in full: a read gives a word or fails, a write or another
/// operation on the probe is done or fails, the clock does not fail, and a permission is there or is
/// missing. Nothing depends on which word, which reading, which permission or which error it is.
pub proof fn law_replies_by_operation<E>(action: Action, reply: Reply<E>)
    ensures
        action.admits(reply) <==> match reply {
            Reply::Word(_) => action is ReadIdr || action is ReadRawApRegister
                || action is ReadWord32,
            Reply::Elapsed { .. } => action is ReadTimer,
            Reply::MissingPermissions(_) => action is CheckEraseAll,
            Reply::Done => !(action is ReadIdr || action is ReadRawApRegister
                || action is ReadWord32 || action is ReadTimer),
            Reply::Failed(_) => !(action is Sleep || action is StartTimer || action is ReadTimer
                || action is CheckEraseAll),
        },
{
}

/// What an action accepts is what it admits.
pub proof fn law_accepted_replies<E>(action: Action, reply: Reply<E>, accepted: bool)
    requires
        call_ensures(Action::accepts::<E>, (&action, &reply), accepted),
    ensures
        accepted <==> match reply {
            Reply::Word(_) => action is ReadIdr || action is ReadRawApRegister
                || action is ReadWord32,
            Reply::Elapsed { .. } => action is ReadTimer,
            Reply::MissingPermissions(_) => action is CheckEraseAll,
            Reply::Done => !(action is ReadIdr || action is ReadRawApRegister
                || action is ReadWord32 || action is ReadTimer),
            Reply::Failed(_) => !(action is Sleep || action is StartTimer || action is ReadTimer
                || action is CheckEraseAll),
        },
{
    law_replies_by_operation(action, reply);
}

/// What a sequence that is carried through does at each turn is what a run of it is made of.
pub proof fn law_turns_make_the_run<E, S: Sequence<E>>(
    sequence: S,
    action: S::Action,
    reply: Reply<E>,
    next: Next<S, S::Output>,
)
    requires
        call_ensures(S::action, (&sequence,), action),
        call_ensures(S::next, (sequence, reply), next),
    ensures
        action == sequence.awaited(),
        next == sequence.after(reply),
{
}

/// Each debug sequence takes every reply that the operation it waits for admits.
pub proof fn law_sequences_take_every_admitted_reply<E>(
    reply: Reply<E>,
    attach: DebugPortStart,
    poll: AhbApResponds,
    recover: RecoverSticky,
    detach: DebugCoreStop,
    command: DssmCommand,
    unlock: DebugDeviceUnlock,
    wipe: FactoryReset,
    reset: ResetSystem,
)
    ensures
        Sequence::<E>::admits(attach, reply) == attach.awaited().admits(reply),
        Sequence::<E>::admits(poll, reply) == poll.awaited().admits(reply),
        Sequence::<E>::admits(recover, reply) == recover.awaited().admits(reply),
        Sequence::<E>::admits(detach, reply) == detach.awaited().admits(reply),
        Sequence::<E>::admits(command, reply) == command.awaited().admits(reply),
        Sequence::<E>::admits(unlock, reply) == unlock.awaited().admits(reply),
        Sequence::<E>::admits(wipe, reply) == wipe.awaited().admits(reply),
        Sequence::<E>::admits(reset, reply) == reset.awaited().admits(reply),
{
}

/// Whether the stopwatch never reads less than what has been slept since it was started. Before
/// `log`, `slept` milliseconds have been.
pub open spec fn clock_keeps_up<E>(log: Seq<Exchange<Action, E>>, slept: int) -> bool
    decreases log.len(),
{
    log.len() == 0 || {
        &&& log[0].action is ReadTimer ==> log[0].reply->nanos >= slept * 1_000_000
        &&& clock_keeps_up(
            log.drop_first(),
            match log[0].action {
                Action::StartTimer => 0,
                Action::Sleep { millis } => slept + millis,
                _ => slept,
            },
        )
    }
}

/// A run has one exchange for each reply.
pub proof fn lemma_log_follows_replies<E, S: Sequence<E>>(sequence: S, replies: Seq<Reply<E>>)
    requires
        sequence::is_run(sequence, replies),
    ensures
        sequence::log(sequence, replies).len() == replies.len(),
        forall|i: int|
            #![trigger sequence::log(sequence, replies)[i]]
            #![trigger replies[i]]
            0 <= i < replies.len() ==> sequence::log(sequence, replies)[i].reply == replies[i],
    decreases replies.len(),
{
    if replies.len() > 0 {
        match sequence.after(replies[0]) {
            Next::Continue(rest) => {
                lemma_log_follows_replies(rest, replies.drop_first());
                let log = sequence::log(sequence, replies);
                assert forall|i: int|
                    #![trigger log[i]]
                    #![trigger replies[i]]
                    0 <= i < replies.len() implies log[i].reply == replies[i] by {
                    if i > 0 {
                        assert(log[i] == sequence::log(rest, replies.drop_first())[i - 1]);
                    }
                }
            },
            Next::Finish(_) => {},
        }
    }
}

/// A run whose first reply does not end it goes on as a run of the rest.
pub proof fn lemma_first_step<E, S: Sequence<E>>(sequence: S, replies: Seq<Reply<E>>, rest: S)
    requires
        sequence::is_run(sequence, replies),
        replies.len() > 0,
        sequence.after(replies[0]) == Next::<S, S::Output>::Continue(rest),
    ensures
        ({
            let log = sequence::log(sequence, replies);
            let tail = sequence::log(rest, replies.drop_first());
            &&& sequence::is_run(rest, replies.drop_first())
            &&& sequence::outcome(sequence, replies) == sequence::outcome(
                rest,
                replies.drop_first(),
            )
            &&& log == seq![Exchange { action: sequence.awaited(), reply: replies[0] }] + tail
            &&& forall|i: int| 0 <= i < tail.len() ==> #[trigger] tail[i] == log[i + 1]
            &&& forall|i: int| 0 < i < log.len() ==> #[trigger] log[i] == tail[i - 1]
        }),
{
}

} // verus!
