//! What an unlock and a factory reset do to the device, and what they need for it.
use vstd::prelude::*;

use crate::attach;
use crate::error::ArmError;
use crate::laws;
use crate::mailbox;
use crate::mailbox::DssmCommand;
use crate::registers::{DSSM_FACTORY_RESET, DSSM_MASS_ERASE};
use crate::sequence;
use crate::sequence::{AccessPort, Action, Exchange, Next, Operation, Reply, Sequence};
use crate::unlock;
use crate::unlock::{DebugDeviceUnlock, FactoryReset};

verus! {

/// The mass erase command before its first operation.
pub open spec fn mass_erase() -> DssmCommand {
    mailbox::unstaged(0x020C, "mass erase")
}

/// The factory reset command before its first operation.
pub open spec fn factory_reset() -> DssmCommand {
    mailbox::unstaged(0x020A, "factory reset")
}

/// The result of wiping the device when the mailbox command has come to `outcome`.
pub open spec fn wipe_outcome<E>(outcome: Option<Result<(), ArmError<E>>>) -> Option<
    Result<(), ArmError<E>>,
> {
    match outcome {
        Some(Ok(_)) => Some(Err(ArmError::ReAttachRequired)),
        Some(Err(error)) => Some(Err(error)),
        None => None,
    }
}

/// An unlock that has come to its mailbox command goes on as that command.
proof fn lemma_mass_erase_stage<E>(command: DssmCommand, replies: Seq<Reply<E>>)
    requires
        sequence::is_run(DebugDeviceUnlock::MassErase(command), replies),
    ensures
        sequence::is_run(command, replies),
        sequence::log(DebugDeviceUnlock::MassErase(command), replies) == sequence::log(
            command,
            replies,
        ),
        sequence::outcome(DebugDeviceUnlock::MassErase(command), replies) == wipe_outcome(
            sequence::outcome(command, replies),
        ),
    decreases replies.len(),
{
    if replies.len() > 0 {
        match Sequence::<E>::after(command, replies[0]) {
            Next::Continue(rest) => {
                lemma_mass_erase_stage(rest, replies.drop_first());
            },
            Next::Finish(_) => {},
        }
    }
}

/// The whole course of an unlock. It looks for the default access port. Where that answers, this is
/// all it does. Where it does not, the permission to erase is asked for. Where that is missing, the
/// unlock fails with it and does nothing else. Where it is there, the rest is the mass erase
/// command, whose success becomes the demand to attach anew.
pub proof fn law_unlock<E>(replies: Seq<Reply<E>>)
    requires
        sequence::is_run(DebugDeviceUnlock::ReadIdr, replies),
    ensures
        ({
            let log = sequence::log(DebugDeviceUnlock::ReadIdr, replies);
            let outcome = sequence::outcome(DebugDeviceUnlock::ReadIdr, replies);
            let erase = replies.skip(2);
            &&& log.len() == replies.len()
            &&& log.len() > 0 ==> log[0].action == Action::ReadIdr { port: AccessPort::Default }
            &&& log.len() > 1 ==> !attach::ap_answers(log[0].reply) && log[1].action
                == Action::CheckEraseAll
            &&& log.len() > 2 ==> {
                &&& log[1].reply is Done
                &&& sequence::is_run(mass_erase(), erase)
                &&& log.skip(2) == sequence::log(mass_erase(), erase)
            }
            &&& outcome == if log.len() == 1 && attach::ap_answers(log[0].reply) {
                Some(Ok(()))
            } else if log.len() == 2 && log[1].reply is MissingPermissions {
                Some(Err(ArmError::MissingPermissions(log[1].reply->MissingPermissions_0)))
            } else if log.len() > 2 {
                wipe_outcome(sequence::outcome(mass_erase(), erase))
            } else {
                None
            }
        }),
{
    let start = DebugDeviceUnlock::ReadIdr;
    laws::lemma_log_follows_replies(start, replies);
    if replies.len() > 0 && !attach::ap_answers(replies[0]) {
        let check = DebugDeviceUnlock::CheckEraseAll;
        let rest = replies.drop_first();
        laws::lemma_first_step(start, replies, check);
        if rest.len() > 0 && rest[0] is Done {
            laws::lemma_first_step(check, rest, DebugDeviceUnlock::MassErase(mass_erase()));
            lemma_mass_erase_stage(mass_erase(), rest.drop_first());
            assert(rest.drop_first() == replies.skip(2));
            assert(sequence::log(start, replies).skip(2) == sequence::log(
                mass_erase(),
                replies.skip(2),
            ));
        }
    }
}

/// An unlock writes nothing to the device, and does not reset it, unless the default access port
/// did not answer and the permission to erase was there.
pub proof fn law_unlock_erases_only_with_permission<E>(replies: Seq<Reply<E>>, at: int)
    requires
        sequence::is_run(DebugDeviceUnlock::ReadIdr, replies),
        0 <= at < sequence::log(DebugDeviceUnlock::ReadIdr, replies).len(),
        ({
            let action = sequence::log(DebugDeviceUnlock::ReadIdr, replies)[at].action;
            ||| action is WriteRawApRegister
            ||| action is WriteWord32
            ||| laws::resets(action)
        }),
    ensures
        ({
            let log = sequence::log(DebugDeviceUnlock::ReadIdr, replies);
            &&& at > 1
            &&& log[0].action == Action::ReadIdr { port: AccessPort::Default }
            &&& !attach::ap_answers(log[0].reply)
            &&& log[1].action == Action::CheckEraseAll
            &&& log[1].reply is Done
        }),
{
    law_unlock(replies);
}

/// An unlock succeeds exactly when the default access port answered. In particular, it never says
/// that it succeeded when it has erased something: the device is left blank then, and has to be
/// attached to anew.
pub proof fn law_unlock_never_succeeds_by_erasing<E>(replies: Seq<Reply<E>>)
    requires
        sequence::is_run(DebugDeviceUnlock::ReadIdr, replies),
    ensures
        ({
            let log = sequence::log(DebugDeviceUnlock::ReadIdr, replies);
            let outcome = sequence::outcome(DebugDeviceUnlock::ReadIdr, replies);
            &&& laws::succeeded(outcome) <==> log.len() == 1
                && attach::ap_answers(log[0].reply)
            &&& laws::demands_reattach(outcome) <==> log.len() > 2 && laws::succeeded(sequence::outcome(
                mass_erase(),
                replies.skip(2),
            ))
        }),
{
    law_unlock(replies);
    if replies.len() > 2 {
        lemma_command_does_not_reattach(mass_erase(), replies.skip(2));
    }
}

/// A mailbox command by itself does not demand to attach anew.
proof fn lemma_command_does_not_reattach<E>(command: DssmCommand, replies: Seq<Reply<E>>)
    ensures
        !laws::demands_reattach(sequence::outcome(command, replies)),
    decreases replies.len(),
{
    if replies.len() > 0 {
        match Sequence::<E>::after(command, replies[0]) {
            Next::Continue(rest) => {
                lemma_command_does_not_reattach(rest, replies.drop_first());
            },
            Next::Finish(_) => {},
        }
    }
}

/// A factory reset does what its mailbox command does, and never says that it succeeded: when the
/// command did, the device has to be attached to anew.
pub proof fn law_factory_reset<E>(command: DssmCommand, replies: Seq<Reply<E>>)
    requires
        sequence::is_run(FactoryReset { command }, replies),
    ensures
        sequence::is_run(command, replies),
        sequence::log(FactoryReset { command }, replies) == sequence::log(command, replies),
        sequence::outcome(FactoryReset { command }, replies) == wipe_outcome(
            sequence::outcome(command, replies),
        ),
        !laws::succeeded(sequence::outcome(FactoryReset { command }, replies)),
        laws::demands_reattach(sequence::outcome(FactoryReset { command }, replies))
            <==> laws::succeeded(sequence::outcome(command, replies)),
    decreases replies.len(),
{
    lemma_command_does_not_reattach(command, replies);
    if replies.len() > 0 {
        match Sequence::<E>::after(command, replies[0]) {
            Next::Continue(rest) => {
                law_factory_reset(rest, replies.drop_first());
            },
            Next::Finish(_) => {},
        }
    }
}

/// An unlock comes to an end: on a clock that keeps up with what has been slept, it is over after at
/// most 6018 operations.
pub proof fn law_unlock_ends<E>(replies: Seq<Reply<E>>, slept: int)
    requires
        sequence::is_run(DebugDeviceUnlock::ReadIdr, replies),
        slept >= 0,
        laws::clock_keeps_up(sequence::log(DebugDeviceUnlock::ReadIdr, replies), slept),
    ensures
        replies.len() <= 6018,
        replies.len() == 6018 ==> sequence::outcome(DebugDeviceUnlock::ReadIdr, replies) is Some,
{
    law_unlock(replies);
    if replies.len() > 2 {
        let log = sequence::log(DebugDeviceUnlock::ReadIdr, replies);
        assert(log.drop_first().drop_first() == log.skip(2));
        assert(laws::clock_keeps_up(log.drop_first(), slept));
        laws::mailbox::law_command_ends(
            DSSM_MASS_ERASE,
            "mass erase",
            replies.skip(2),
            slept,
        );
    }
}

/// An unlock goes by the word that the identification register of the default access port reads as.
/// Any word but zero is the end of it, and its success. Zero, or a failed read, is followed by the
/// question for permission; a missing permission is the end, and is named in the error.
pub proof fn law_unlock_takes_any_word_but_zero<E>(replies: Seq<Reply<E>>)
    requires
        sequence::is_run(DebugDeviceUnlock::ReadIdr, replies),
        replies.len() > 0,
    ensures
        ({
            let log = sequence::log(DebugDeviceUnlock::ReadIdr, replies);
            let outcome = sequence::outcome(DebugDeviceUnlock::ReadIdr, replies);
            &&& log[0].action == (Action::ReadIdr { port: AccessPort::Default })
            &&& replies[0] is Word && replies[0]->Word_0 != 0 ==> log.len() == 1
                && laws::succeeded(outcome)
            &&& replies[0] is Failed || replies[0] == Reply::<E>::Word(0) ==> {
                &&& log.len() == 1 ==> outcome is None
                &&& log.len() > 1 ==> log[1].action is CheckEraseAll
                &&& log.len() == 2 && log[1].reply is Done ==> outcome is None
                &&& log.len() > 1 && log[1].reply is MissingPermissions ==> log.len() == 2
                    && outcome == Some(
                    Err::<(), ArmError<E>>(
                        ArmError::MissingPermissions(replies[1]->MissingPermissions_0),
                    ),
                )
            }
        }),
{
    laws::lemma_log_follows_replies(DebugDeviceUnlock::ReadIdr, replies);
    law_unlock(replies);
}

/// The outcome of an unlock or of a factory reset whose mailbox command is over: success becomes the
/// demand to attach anew, and every error stays what it is.
pub proof fn law_wiping_keeps_errors<E>(error: ArmError<E>)
    ensures
        unlock::wiped(Err(error)) == Err::<(), _>(error),
        unlock::wiped(Ok::<(), ArmError<E>>(())) is Err,
        unlock::wiped(Ok::<(), ArmError<E>>(()))->Err_0 is ReAttachRequired,
{
}

} // verus!
