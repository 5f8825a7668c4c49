//! What an attach does to the device.
use vstd::prelude::*;

use crate::attach;
use crate::attach::{
    AhbApResponds, DebugPortStage, DebugPortStart, RecoverSticky, WAKE_TIMEOUT_NANOS,
};
use crate::error::ArmError;
use crate::laws;
use crate::registers::{
    ApSel, DPREC0_DEBUG_ENABLE, DPREC0_FORCEACTIVE, DPREC0_HALT_ON_RESET, DPREC0_RST_CTL,
    DPREC0_STICKY, SPREC_SYS_RST,
};
use crate::sequence;
use crate::sequence::{AccessPort, Action, Exchange, Next, Operation, Reply, Sequence};

verus! {

/// An attach before its first operation.
pub open spec fn attach_of(long_recovery: bool) -> DebugPortStart {
    DebugPortStart { long_recovery, stage: DebugPortStage::StartDefault }
}

/// Before the exchange at `end`, the AHB-AP was looked for and never answered, and the time it is
/// given had passed.
pub open spec fn ahb_ap_stayed_missing<E>(log: Seq<Exchange<Action, E>>, end: int) -> bool {
    &&& forall|i: int|
        0 <= i < end && (#[trigger] log[i]).action == attach::ahb_idr_read()
            ==> !attach::ap_answers(log[i].reply)
    &&& exists|i: int| 0 <= i < end && (#[trigger] log[i]).action == attach::ahb_idr_read()
    &&& exists|i: int|
        0 <= i < end && (#[trigger] log[i]).action is ReadTimer && log[i].reply->nanos
            > WAKE_TIMEOUT_NANOS
}


/// The AHB-AP poll says that the access port is there as soon as a read of its identification
/// register finds it. It says that it is missing as soon as the stopwatch shows that the time it is
/// given has passed, and then has looked at least once, and never found it.
pub proof fn law_ahb_ap_poll<E>(replies: Seq<Reply<E>>)
    requires
        sequence::is_run(AhbApResponds::StartTimer, replies),
    ensures
        ({
            let log = sequence::log(AhbApResponds::StartTimer, replies);
            let outcome = sequence::outcome(AhbApResponds::StartTimer, replies);
            &&& outcome == Some(true) <==> exists|i: int|
                0 <= i < log.len() && (#[trigger] log[i]).action == attach::ahb_idr_read()
                    && attach::ap_answers(log[i].reply)
            &&& outcome == Some(false) <==> exists|i: int|
                0 <= i < log.len() && (#[trigger] log[i]).action is ReadTimer && log[i].reply->nanos
                    > WAKE_TIMEOUT_NANOS
            &&& outcome == Some(false) ==> ahb_ap_stayed_missing(log, log.len() as int)
        }),
{
    lemma_poll(AhbApResponds::StartTimer, replies);
}

/// What [`law_ahb_ap_poll`] says, from any position of the poll.
proof fn lemma_poll<E>(poll: AhbApResponds, replies: Seq<Reply<E>>)
    requires
        sequence::is_run(poll, replies),
    ensures
        ({
            let log = sequence::log(poll, replies);
            let outcome = sequence::outcome(poll, replies);
            &&& log.len() == replies.len()
            &&& outcome == Some(true) <==> exists|i: int|
                0 <= i < log.len() && (#[trigger] log[i]).action == attach::ahb_idr_read()
                    && attach::ap_answers(log[i].reply)
            &&& outcome == Some(false) && poll !is CheckTimer ==> exists|i: int|
                0 <= i < log.len() && (#[trigger] log[i]).action == attach::ahb_idr_read()
            &&& outcome == Some(false) <==> exists|i: int|
                0 <= i < log.len() && (#[trigger] log[i]).action is ReadTimer && log[i].reply->nanos
                    > WAKE_TIMEOUT_NANOS
            &&& forall|i: int| 0 <= i < log.len() ==> !laws::resets((#[trigger] log[i]).action)
            &&& forall|i: int|
                0 <= i < log.len() ==> !laws::writes_dprec0((#[trigger] log[i]).action)
        }),
    decreases replies.len(),
{
    let log = sequence::log(poll, replies);
    if replies.len() > 0 {
        assert(log[0].action == poll.awaited() && log[0].reply == replies[0]);
        match Sequence::<E>::after(poll, replies[0]) {
            Next::Continue(rest) => {
                let tail = replies.drop_first();
                lemma_poll(rest, tail);
                let tail_log = sequence::log(rest, tail);
                assert(forall|i: int|
                    0 <= i < tail_log.len() ==> #[trigger] tail_log[i] == log[i + 1]);
                assert(forall|i: int| 0 < i < log.len() ==> #[trigger] log[i] == tail_log[i - 1]);
            },
            Next::Finish(_) => {
                assert(log.len() == 1);
            },
        }
    }
}

/// What a recovery that started at `step` does: the operations of the recovery from there on, in
/// order, until one fails.
pub open spec fn recovery_run<E>(
    recover: RecoverSticky,
    log: Seq<Exchange<Action, E>>,
    outcome: Option<Result<(), ArmError<E>>>,
) -> bool {
    let script = attach::recovery(recover.long_recovery);
    &&& recover.step + log.len() <= script.len()
    &&& forall|i: int|
        0 <= i < log.len() ==> (#[trigger] log[i]).action == script[recover.step + i]
            && log[i].action.admits(log[i].reply)
    &&& forall|i: int| 0 <= i < log.len() - 1 ==> !((#[trigger] log[i]).reply is Failed)
    &&& outcome == if log.len() > 0 && log.last().reply is Failed {
        Some(Err(ArmError::Interface(log.last().reply->Failed_0)))
    } else if recover.step + log.len() == script.len() {
        Some(Ok(()))
    } else {
        None
    }
}

/// A recovery carries out its operations in order. It fails with the first operation that fails,
/// and succeeds when all of them were carried out.
pub proof fn law_recovery<E>(recover: RecoverSticky, replies: Seq<Reply<E>>)
    requires
        recover.valid(),
        sequence::is_run(recover, replies),
    ensures
        recovery_run(
            recover,
            sequence::log(recover, replies),
            sequence::outcome(recover, replies),
        ),
    decreases replies.len(),
{
    if replies.len() > 0 {
        match Sequence::<E>::after(recover, replies[0]) {
            Next::Continue(rest) => {
                laws::lemma_first_step(recover, replies, rest);
                law_recovery(rest, replies.drop_first());
                let log = sequence::log(recover, replies);
                let tail = sequence::log(rest, replies.drop_first());
                assert(tail.len() > 0 ==> log.last() == tail.last());
            },
            Next::Finish(_) => {
                assert(sequence::log(recover, replies).last().reply == replies[0]);
            },
        }
    }
}

/// An attach that has come to its recovery goes on as that recovery.
proof fn lemma_recover_stage<E>(sequence: DebugPortStart, replies: Seq<Reply<E>>)
    requires
        sequence.valid(),
        sequence.stage is Recover,
        sequence::is_run(sequence, replies),
    ensures
        sequence::is_run(sequence.stage->Recover_0, replies),
        sequence::log(sequence, replies) == sequence::log(sequence.stage->Recover_0, replies),
        sequence::outcome(sequence, replies) == sequence::outcome(
            sequence.stage->Recover_0,
            replies,
        ),
    decreases replies.len(),
{
    if replies.len() > 0 {
        match Sequence::<E>::after(sequence, replies[0]) {
            Next::Continue(rest) => {
                lemma_recover_stage(rest, replies.drop_first());
            },
            Next::Finish(_) => {},
        }
    }
}

/// An attach that is waiting for the AHB-AP goes on as that poll, and, when the poll says that the
/// access port is missing, as a recovery after it. Gives the number of replies that the poll takes.
proof fn lemma_wait_stage<E>(sequence: DebugPortStart, replies: Seq<Reply<E>>) -> (split: int)
    requires
        sequence.valid(),
        sequence.stage is WaitForAhbAp,
        sequence::is_run(sequence, replies),
    ensures
        0 <= split <= replies.len(),
        ({
            let poll = sequence.stage->WaitForAhbAp_0;
            let recover = RecoverSticky { long_recovery: sequence.long_recovery, step: 0 };
            let before = replies.take(split);
            let after = replies.skip(split);
            &&& sequence::is_run(poll, before)
            &&& sequence::is_run(recover, after)
            &&& sequence::log(sequence, replies) == sequence::log(poll, before) + sequence::log(
                recover,
                after,
            )
            &&& split < replies.len() ==> sequence::outcome(poll, before) == Some(false)
            &&& sequence::outcome(sequence, replies) == match sequence::outcome(poll, before) {
                None => None,
                Some(true) => Some(Ok(())),
                Some(false) => sequence::outcome(recover, after),
            }
        }),
    decreases replies.len(),
{
    let poll = sequence.stage->WaitForAhbAp_0;
    let recover = RecoverSticky { long_recovery: sequence.long_recovery, step: 0 };
    if replies.len() == 0 {
        0
    } else {
        match Sequence::<E>::after(sequence, replies[0]) {
            Next::Continue(rest) => {
                let tail = replies.drop_first();
                laws::lemma_first_step(sequence, replies, rest);
                if rest.stage is WaitForAhbAp {
                    let split = lemma_wait_stage(rest, tail) + 1;
                    let before = replies.take(split);
                    assert(before.drop_first() == tail.take(split - 1));
                    assert(replies.skip(split) == tail.skip(split - 1));
                    assert(sequence::log(sequence, replies) == sequence::log(poll, before)
                        + sequence::log(recover, replies.skip(split)));
                    split
                } else {
                    lemma_recover_stage(rest, tail);
                    let before = replies.take(1);
                    assert(before.drop_first() == Seq::<Reply<E>>::empty());
                    assert(replies.skip(1) == tail);
                    assert(sequence::log(sequence, replies) == sequence::log(poll, before)
                        + sequence::log(recover, replies.skip(1)));
                    1
                }
            },
            Next::Finish(_) => {
                assert(replies.take(1) == replies);
                1
            },
        }
    }
}

/// Whether a reply says that a sticky bit of `DPREC0` is set.
pub open spec fn finds_sticky<E>(reply: Reply<E>) -> bool {
    reply matches Reply::Word(dprec0) && dprec0 & DPREC0_STICKY != 0
}

/// How an attach begins, how it ends where that is all of it, and what it goes on as when it found
/// the sticky bits set: a wait for the AHB-AP.
pub proof fn law_attach_begins<E>(long_recovery: bool, replies: Seq<Reply<E>>)
    requires
        sequence::is_run(attach_of(long_recovery), replies),
    ensures
        ({
            let log = sequence::log(attach_of(long_recovery), replies);
            let outcome = sequence::outcome(attach_of(long_recovery), replies);
            let wait = attach_of(long_recovery).at(
                DebugPortStage::WaitForAhbAp(AhbApResponds::StartTimer),
            );
            &&& log.len() == replies.len()
            &&& log.len() > 0 ==> log[0].action is DebugPortStartDefault
            &&& log.len() > 1 ==> log[0].reply is Done && log[1].action == attach::dprec0_read()
            &&& log.len() > 2 ==> log[1].reply is Word && log[2].action == attach::dprec0_write(
                if finds_sticky(log[1].reply) {
                    DPREC0_DEBUG_ENABLE | DPREC0_STICKY
                } else {
                    DPREC0_DEBUG_ENABLE
                },
            )
            &&& log.len() > 2 && finds_sticky(log[1].reply) && log[2].reply is Done ==> {
                &&& sequence::is_run(wait, replies.skip(3))
                &&& log == log.take(3) + sequence::log(wait, replies.skip(3))
                &&& outcome == sequence::outcome(wait, replies.skip(3))
            }
            &&& log.len() > 0 ==> log[0].reply is Done || log[0].reply is Failed
            &&& log.len() > 1 ==> log[1].reply is Word || log[1].reply is Failed
            &&& log.len() > 2 ==> log[2].reply is Done || log[2].reply is Failed
            &&& log.len() == 0 ==> outcome is None
            &&& 0 < log.len() <= 3 && log.last().reply is Failed ==> outcome == Some(
                Err::<(), _>(ArmError::Interface(log.last().reply->Failed_0)),
            )
            &&& 0 < log.len() <= 2 && !(log.last().reply is Failed) ==> outcome is None
            &&& log.len() == 3 && log.last().reply is Done && !finds_sticky(log[1].reply)
                ==> laws::succeeded(outcome)
            &&& log.len() > 3 ==> finds_sticky(log[1].reply) && log[2].reply is Done
            &&& log.len() > 2 ==> (replies[1] == log[1].reply && replies[2] == log[2].reply)
        }),
{
    let start = attach_of(long_recovery);
    laws::lemma_log_follows_replies(start, replies);
    if replies.len() > 0 && replies[0] is Done {
        let read = start.at(DebugPortStage::ReadDprec0);
        let rest1 = replies.drop_first();
        laws::lemma_first_step(start, replies, read);
        if rest1.len() > 0 && rest1[0] is Word {
            let write = start.at(
                if finds_sticky(rest1[0]) {
                    DebugPortStage::Wake
                } else {
                    DebugPortStage::Enable
                },
            );
            let rest2 = rest1.drop_first();
            laws::lemma_first_step(read, rest1, write);
            if rest2.len() > 0 && rest2[0] is Done && finds_sticky(rest1[0]) {
                let wait = start.at(DebugPortStage::WaitForAhbAp(AhbApResponds::StartTimer));
                laws::lemma_first_step(write, rest2, wait);
                assert(rest2.drop_first() == replies.skip(3));
                let log = sequence::log(start, replies);
                assert(log == log.take(3) + sequence::log(wait, replies.skip(3)));
            }
        }
    }
}

/// How an attach that found the sticky bits set and woke the device goes on: it polls for the
/// AHB-AP, and recovers the device when the poll says that the access port is missing. Gives the
/// number of exchanges of the poll.
pub proof fn law_attach_of_a_device_that_was_asleep<E>(
    long_recovery: bool,
    replies: Seq<Reply<E>>,
) -> (polls: int)
    requires
        sequence::is_run(attach_of(long_recovery), replies),
        replies.len() > 2,
        finds_sticky(replies[1]),
        replies[2] is Done,
    ensures
        0 <= polls <= replies.len() - 3,
        ({
            let log = sequence::log(attach_of(long_recovery), replies);
            let poll = AhbApResponds::StartTimer;
            let polled = replies.skip(3).take(polls);
            let recover = RecoverSticky { long_recovery, step: 0 };
            let recovered = replies.skip(3).skip(polls);
            &&& sequence::is_run(poll, polled)
            &&& sequence::is_run(recover, recovered)
            &&& log == log.take(3) + sequence::log(poll, polled) + sequence::log(
                recover,
                recovered,
            )
            &&& recovered.len() > 0 ==> sequence::outcome(poll, polled) == Some(false)
            &&& sequence::outcome(attach_of(long_recovery), replies) == match sequence::outcome(
                poll,
                polled,
            ) {
                None => None,
                Some(true) => Some(Ok(())),
                Some(false) => sequence::outcome(recover, recovered),
            }
        }),
{
    let start = attach_of(long_recovery);
    let log = sequence::log(start, replies);
    law_attach_begins(long_recovery, replies);
    let wait = start.at(DebugPortStage::WaitForAhbAp(AhbApResponds::StartTimer));
    let polls = lemma_wait_stage(wait, replies.skip(3));
    let recover = RecoverSticky { long_recovery, step: 0 };
    assert(log == log.take(3) + sequence::log(
        AhbApResponds::StartTimer,
        replies.skip(3).take(polls),
    ) + sequence::log(recover, replies.skip(3).skip(polls)));
    polls
}

/// Where the exchanges of the poll and of the recovery are in the log of the whole attach. Gives the
/// number of exchanges of the poll.
proof fn lemma_attach_parts<E>(long_recovery: bool, replies: Seq<Reply<E>>) -> (split: int)
    requires
        sequence::is_run(attach_of(long_recovery), replies),
        replies.len() > 2,
        finds_sticky(replies[1]),
        replies[2] is Done,
    ensures
        0 <= split <= replies.len() - 3,
        ({
            let log = sequence::log(attach_of(long_recovery), replies);
            let outcome = sequence::outcome(attach_of(long_recovery), replies);
            let recover = RecoverSticky { long_recovery, step: 0 };
            let polled = replies.skip(3).take(split);
            let recovered = replies.skip(3).skip(split);
            let poll_log = sequence::log(AhbApResponds::StartTimer, polled);
            let poll_outcome = sequence::outcome(AhbApResponds::StartTimer, polled);
            let recover_log = sequence::log(recover, recovered);
            &&& sequence::is_run(AhbApResponds::StartTimer, polled)
            &&& sequence::is_run(recover, recovered)
            &&& poll_log.len() == split
            &&& log.len() == replies.len()
            &&& log.len() == 3 + split + recover_log.len()
            &&& forall|i: int| 0 <= i < split ==> #[trigger] poll_log[i] == log[i + 3]
            &&& forall|i: int| 3 <= i < 3 + split ==> #[trigger] log[i] == poll_log[i - 3]
            &&& forall|i: int|
                3 + split <= i < log.len() ==> #[trigger] log[i] == recover_log[i - 3 - split]
            &&& recover_log.len() > 0 ==> poll_outcome == Some(false)
            &&& outcome == match poll_outcome {
                None => None,
                Some(true) => Some(Ok(())),
                Some(false) => sequence::outcome(recover, recovered),
            }
        }),
{
    let split = law_attach_of_a_device_that_was_asleep(long_recovery, replies);
    let recover = RecoverSticky { long_recovery, step: 0 };
    laws::lemma_log_follows_replies(attach_of(long_recovery), replies);
    laws::lemma_log_follows_replies(AhbApResponds::StartTimer, replies.skip(3).take(split));
    laws::lemma_log_follows_replies(recover, replies.skip(3).skip(split));
    split
}

/// An attach resets the device only when it found the sticky bits set, then asserted
/// `FORCEACTIVE`, and the AHB-AP stayed missing after that.
pub proof fn law_attach_resets_only_for_a_missing_ahb_ap<E>(
    long_recovery: bool,
    replies: Seq<Reply<E>>,
    at: int,
)
    requires
        sequence::is_run(attach_of(long_recovery), replies),
        0 <= at < sequence::log(attach_of(long_recovery), replies).len(),
        laws::resets(sequence::log(attach_of(long_recovery), replies)[at].action),
    ensures
        ({
            let log = sequence::log(attach_of(long_recovery), replies);
            &&& at > 2
            &&& log[1].action == attach::dprec0_read()
            &&& finds_sticky(log[1].reply)
            &&& log[2].action == attach::dprec0_write(DPREC0_DEBUG_ENABLE | DPREC0_STICKY)
            &&& log[2].reply is Done
            &&& ahb_ap_stayed_missing(log, at)
        }),
{
    let log = sequence::log(attach_of(long_recovery), replies);
    laws::lemma_log_follows_replies(attach_of(long_recovery), replies);
    law_attach_begins(long_recovery, replies);
    assert(at > 2);
    let split = lemma_attach_parts(long_recovery, replies);
    lemma_poll(AhbApResponds::StartTimer, replies.skip(3).take(split));
    law_recovery(RecoverSticky { long_recovery, step: 0 }, replies.skip(3).skip(split));
}

/// An attach that finds the sticky bits clear writes the steady-state value to `DPREC0` and does
/// nothing else.
pub proof fn law_attach_of_a_device_that_was_not_asleep<E>(
    long_recovery: bool,
    replies: Seq<Reply<E>>,
)
    requires
        sequence::is_run(attach_of(long_recovery), replies),
        replies.len() > 1,
        replies[1] is Word,
        !finds_sticky(replies[1]),
    ensures
        ({
            let log = sequence::log(attach_of(long_recovery), replies);
            &&& log.len() <= 3
            &&& log.len() == 3 ==> log[2].action == attach::dprec0_write(DPREC0_DEBUG_ENABLE)
            &&& forall|i: int| 0 <= i < log.len() ==> !laws::resets((#[trigger] log[i]).action)
            &&& laws::succeeded(sequence::outcome(attach_of(long_recovery), replies)) <==> log.len() == 3 && log[2].reply is Done
        }),
{
    laws::lemma_log_follows_replies(attach_of(long_recovery), replies);
    law_attach_begins(long_recovery, replies);
}

/// An attach that finds the AHB-AP has succeeded, and has not reset the device.
pub proof fn law_attach_that_finds_the_ahb_ap<E>(
    long_recovery: bool,
    replies: Seq<Reply<E>>,
    at: int,
)
    requires
        sequence::is_run(attach_of(long_recovery), replies),
        0 <= at < sequence::log(attach_of(long_recovery), replies).len(),
        sequence::log(attach_of(long_recovery), replies)[at].action == attach::ahb_idr_read(),
        attach::ap_answers(sequence::log(attach_of(long_recovery), replies)[at].reply),
    ensures
        ({
            let log = sequence::log(attach_of(long_recovery), replies);
            &&& laws::succeeded(sequence::outcome(attach_of(long_recovery), replies))
            &&& forall|i: int| 0 <= i < log.len() ==> !laws::resets((#[trigger] log[i]).action)
        }),
{
    let log = sequence::log(attach_of(long_recovery), replies);
    law_attach_begins(long_recovery, replies);
    assert(at > 2);
    let polls = law_attach_of_a_device_that_was_asleep(long_recovery, replies);
    let polled = replies.skip(3).take(polls);
    let recovered = replies.skip(3).skip(polls);
    let recover = RecoverSticky { long_recovery, step: 0 };
    let poll_log = sequence::log(AhbApResponds::StartTimer, polled);
    let recover_log = sequence::log(recover, recovered);
    lemma_poll(AhbApResponds::StartTimer, polled);
    law_recovery(recover, recovered);
    if at >= 3 + polls {
        assert(log[at] == recover_log[at - 3 - polls]);
        assert(false);
    }
    assert(log[at] == poll_log[at - 3]);
    assert(recovered.len() == 0);
    assert forall|i: int| 0 <= i < log.len() implies !laws::resets((#[trigger] log[i]).action) by {
        if i >= 3 {
            assert(log[i] == poll_log[i - 3]);
        }
    }
}

/// An attach that is over has failed exactly when its last operation did, with the error of that
/// operation. Before the last operation, only a look for the AHB-AP can have failed.
pub proof fn law_attach_result<E>(long_recovery: bool, replies: Seq<Reply<E>>)
    requires
        sequence::is_run(attach_of(long_recovery), replies),
    ensures
        ({
            let log = sequence::log(attach_of(long_recovery), replies);
            let outcome = sequence::outcome(attach_of(long_recovery), replies);
            &&& laws::succeeded(outcome) ==> log.len() > 0 && !(log.last().reply is Failed)
            &&& outcome matches Some(Err(error)) ==> log.len() > 0 && log.last().reply is Failed
                && error == ArmError::Interface(log.last().reply->Failed_0)
            &&& forall|i: int|
                0 <= i < log.len() && (#[trigger] log[i]).reply is Failed && (i < log.len() - 1
                    || outcome is None) ==> log[i].action == attach::ahb_idr_read()
        }),
{
    let log = sequence::log(attach_of(long_recovery), replies);
    laws::lemma_log_follows_replies(attach_of(long_recovery), replies);
    law_attach_begins(long_recovery, replies);
    if replies.len() > 2 && finds_sticky(replies[1]) && replies[2] is Done {
        let split = lemma_attach_parts(long_recovery, replies);
        let polled = replies.skip(3).take(split);
        lemma_poll_failures(AhbApResponds::StartTimer, polled);
        law_recovery(RecoverSticky { long_recovery, step: 0 }, replies.skip(3).skip(split));
    }
}

/// Only a look for the AHB-AP can fail during its poll, and the poll does not end there.
proof fn lemma_poll_failures<E>(poll: AhbApResponds, replies: Seq<Reply<E>>)
    requires
        sequence::is_run(poll, replies),
    ensures
        ({
            let log = sequence::log(poll, replies);
            &&& log.len() == replies.len()
            &&& forall|i: int|
                0 <= i < log.len() && (#[trigger] log[i]).reply is Failed ==> log[i].action
                    == attach::ahb_idr_read()
            &&& sequence::outcome(poll, replies) is Some ==> log.len() > 0 && !(
            log.last().reply is Failed)
        }),
    decreases replies.len(),
{
    if replies.len() > 0 {
        match Sequence::<E>::after(poll, replies[0]) {
            Next::Continue(rest) => {
                laws::lemma_first_step(poll, replies, rest);
                lemma_poll_failures(rest, replies.drop_first());
            },
            Next::Finish(_) => {},
        }
    }
}

/// A device that was attached to is kept awake: the last thing written to `DPREC0` has every bit of
/// the steady-state value, `FORCEACTIVE` and `INHIBITSLEEP` among them, and selects halt-on-reset,
/// and the device is not reset after that. Gives the place of that write.
pub proof fn law_attached_device_is_kept_awake<E>(
    long_recovery: bool,
    replies: Seq<Reply<E>>,
) -> (at: int)
    requires
        sequence::is_run(attach_of(long_recovery), replies),
        laws::succeeded(sequence::outcome(attach_of(long_recovery), replies)),
    ensures
        ({
            let log = sequence::log(attach_of(long_recovery), replies);
            &&& 0 <= at < log.len()
            &&& log[at].reply is Done
            &&& log[at].action matches Action::WriteRawApRegister { value, .. }
                && laws::writes_dprec0(log[at].action) && value & DPREC0_DEBUG_ENABLE
                == DPREC0_DEBUG_ENABLE && value & DPREC0_RST_CTL == DPREC0_HALT_ON_RESET
            &&& forall|i: int|
                at < i < log.len() ==> !laws::resets((#[trigger] log[i]).action)
                    && !laws::writes_dprec0(log[i].action)
        }),
{
    let log = sequence::log(attach_of(long_recovery), replies);
    laws::lemma_log_follows_replies(attach_of(long_recovery), replies);
    law_attach_begins(long_recovery, replies);
    law_attach_result(long_recovery, replies);
    assert(DPREC0_DEBUG_ENABLE & DPREC0_DEBUG_ENABLE == DPREC0_DEBUG_ENABLE && DPREC0_DEBUG_ENABLE
        & DPREC0_RST_CTL == DPREC0_HALT_ON_RESET) by (bit_vector);
    assert((DPREC0_DEBUG_ENABLE | DPREC0_STICKY) & DPREC0_DEBUG_ENABLE == DPREC0_DEBUG_ENABLE && (
    DPREC0_DEBUG_ENABLE | DPREC0_STICKY) & DPREC0_RST_CTL == DPREC0_HALT_ON_RESET) by (bit_vector);
    if finds_sticky(replies[1]) {
        let split = lemma_attach_parts(long_recovery, replies);
        let recover = RecoverSticky { long_recovery, step: 0 };
        lemma_poll(AhbApResponds::StartTimer, replies.skip(3).take(split));
        law_recovery(recover, replies.skip(3).skip(split));
        if log.len() > 3 + split {
            let script = attach::recovery(long_recovery);
            let last_write: int = if long_recovery {
                7
            } else {
                1
            };
            assert(log[3 + split + last_write].action == script[last_write]);
            3 + split + last_write
        } else {
            2
        }
    } else {
        2
    }
}

/// The most operations that the AHB-AP poll still takes after `slept` milliseconds of it.
spec fn poll_bound(poll: AhbApResponds, slept: int) -> int {
    let from_read = if slept <= 11 {
        3 * (11 - slept) + 2
    } else {
        2
    };
    match poll {
        AhbApResponds::StartTimer => 36,
        AhbApResponds::ReadIdr => from_read,
        AhbApResponds::CheckTimer => from_read - 1,
        AhbApResponds::Pause => if slept <= 10 {
            3 * (10 - slept) + 3
        } else {
            3
        },
    }
}

/// The AHB-AP poll is over within its bound.
proof fn lemma_poll_ends<E>(poll: AhbApResponds, replies: Seq<Reply<E>>, slept: int)
    requires
        sequence::is_run(poll, replies),
        slept >= 0,
        laws::clock_keeps_up(sequence::log(poll, replies), slept),
    ensures
        replies.len() <= poll_bound(poll, slept),
        replies.len() == poll_bound(poll, slept) ==> sequence::outcome(poll, replies) is Some,
    decreases replies.len(),
{
    if replies.len() > 0 {
        match Sequence::<E>::after(poll, replies[0]) {
            Next::Continue(rest) => {
                laws::lemma_first_step(poll, replies, rest);
                let log = sequence::log(poll, replies);
                assert(log.drop_first() == sequence::log(rest, replies.drop_first()));
                lemma_poll_ends(
                    rest,
                    replies.drop_first(),
                    match poll {
                        AhbApResponds::StartTimer => 0,
                        AhbApResponds::Pause => slept + 1,
                        _ => slept,
                    },
                );
            },
            Next::Finish(_) => {},
        }
    }
}

/// The AHB-AP poll comes to an end: on a clock that keeps up with what has been slept, it is over
/// after at most 36 operations.
pub proof fn law_ahb_ap_poll_ends<E>(replies: Seq<Reply<E>>, slept: int)
    requires
        sequence::is_run(AhbApResponds::StartTimer, replies),
        slept >= 0,
        laws::clock_keeps_up(sequence::log(AhbApResponds::StartTimer, replies), slept),
    ensures
        replies.len() <= 36,
        replies.len() == 36 ==> sequence::outcome(AhbApResponds::StartTimer, replies) is Some,
{
    lemma_poll_ends(AhbApResponds::StartTimer, replies, slept);
}

/// The most operations that an attach still takes.
spec fn attach_bound(stage: DebugPortStage, slept: int) -> int {
    match stage {
        DebugPortStage::StartDefault => 48,
        DebugPortStage::ReadDprec0 => 47,
        DebugPortStage::Enable => 1,
        DebugPortStage::Wake => 46,
        DebugPortStage::WaitForAhbAp(poll) => poll_bound(poll, slept) + 9,
        DebugPortStage::Recover(recover) => 9 - recover.step,
    }
}

/// An attach is over within its bound.
proof fn lemma_attach_ends<E>(sequence: DebugPortStart, replies: Seq<Reply<E>>, slept: int)
    requires
        sequence.valid(),
        sequence::is_run(sequence, replies),
        slept >= 0,
        laws::clock_keeps_up(sequence::log(sequence, replies), slept),
    ensures
        replies.len() <= attach_bound(sequence.stage, slept),
        replies.len() == attach_bound(sequence.stage, slept) ==> sequence::outcome(
            sequence,
            replies,
        ) is Some,
    decreases replies.len(),
{
    if replies.len() > 0 {
        match Sequence::<E>::after(sequence, replies[0]) {
            Next::Continue(rest) => {
                laws::lemma_first_step(sequence, replies, rest);
                let log = sequence::log(sequence, replies);
                assert(log.drop_first() == sequence::log(rest, replies.drop_first()));
                lemma_attach_ends(
                    rest,
                    replies.drop_first(),
                    match sequence.awaited() {
                        Action::StartTimer => 0,
                        Action::Sleep { millis } => slept + millis,
                        _ => slept,
                    },
                );
            },
            Next::Finish(_) => {},
        }
    }
}

/// An attach comes to an end: on a clock that keeps up with what has been slept, it is over after
/// at most 48 operations.
pub proof fn law_attach_ends<E>(long_recovery: bool, replies: Seq<Reply<E>>, slept: int)
    requires
        sequence::is_run(attach_of(long_recovery), replies),
        slept >= 0,
        laws::clock_keeps_up(sequence::log(attach_of(long_recovery), replies), slept),
    ensures
        replies.len() <= 48,
        replies.len() == 48 ==> sequence::outcome(attach_of(long_recovery), replies) is Some,
{
    lemma_attach_ends(attach_of(long_recovery), replies, slept);
}

/// The operations on the power registers, in plain values: each goes to the PWR-AP, to offset 0 for
/// `DPREC0` and 0xF0 for `SPREC`, and a write carries exactly the value it was given. The AHB-AP is
/// looked for by its identification register.
pub proof fn law_power_operations_carry_their_value(value: u32)
    ensures
        attach::dprec0_read() == (Action::ReadRawApRegister { ap: ApSel::Pwr, register: 0x00 }),
        attach::dprec0_write(value) == (Action::WriteRawApRegister {
            ap: ApSel::Pwr,
            register: 0x00,
            value,
        }),
        attach::sprec_write(value) == (Action::WriteRawApRegister {
            ap: ApSel::Pwr,
            register: 0xF0,
            value,
        }),
        attach::ahb_idr_read() == (Action::ReadIdr { port: AccessPort::Selected(ApSel::Ahb) }),
{
}

/// An access port is there exactly when its identification register reads as something other than
/// zero, whatever the bits of the word mean. A read that fails finds nothing.
pub proof fn law_any_word_but_zero_is_an_answer<E>(word: u32, error: E)
    ensures
        attach::ap_answers(Reply::<E>::Word(word)) <==> word != 0,
        !attach::ap_answers(Reply::Failed(error)),
{
}

/// What follows the exchange at `at` of the AHB-AP poll: after the stopwatch was started, and after
/// each pause of 1 ms, the identification register is read. A word other than zero ends the poll,
/// which has found the access port; anything else is followed by a look at the stopwatch. A reading
/// of more than 10 ms ends the poll, which has not found it; any other is followed by a pause.
pub open spec fn poll_step<E>(
    log: Seq<Exchange<Action, E>>,
    outcome: Option<bool>,
    at: int,
) -> bool {
    let idr_read = Action::ReadIdr { port: AccessPort::Selected(ApSel::Ahb) };
    let last = at == log.len() - 1;
    match (log[at].action, log[at].reply) {
        (Action::StartTimer, Reply::Done) | (Action::Sleep { millis: 1 }, Reply::Done) => if last {
            outcome is None
        } else {
            log[at + 1].action == idr_read
        },
        (Action::ReadIdr { port: AccessPort::Selected(ApSel::Ahb) }, reply) => if reply is Word
            && reply->Word_0 != 0 {
            last && outcome == Some(true)
        } else if last {
            outcome is None
        } else {
            log[at + 1].action is ReadTimer
        },
        (Action::ReadTimer, Reply::Elapsed { nanos }) => if nanos > 10_000_000 {
            last && outcome == Some(false)
        } else if last {
            outcome is None
        } else {
            log[at + 1].action == (Action::Sleep { millis: 1 })
        },
        _ => false,
    }
}

/// The AHB-AP poll goes, exchange by exchange, as [`poll_step`] says, from the start of the
/// stopwatch on.
pub proof fn law_poll_step_by_step<E>(replies: Seq<Reply<E>>, at: int)
    requires
        sequence::is_run(AhbApResponds::StartTimer, replies),
        0 <= at < replies.len(),
    ensures
        ({
            let log = sequence::log(AhbApResponds::StartTimer, replies);
            &&& log.len() == replies.len()
            &&& log[0].action is StartTimer
            &&& poll_step(log, sequence::outcome(AhbApResponds::StartTimer, replies), at)
        }),
{
    laws::lemma_log_follows_replies(AhbApResponds::StartTimer, replies);
    lemma_poll_step(AhbApResponds::StartTimer, replies, at);
}

/// What [`law_poll_step_by_step`] says, from any position of the poll.
proof fn lemma_poll_step<E>(poll: AhbApResponds, replies: Seq<Reply<E>>, at: int)
    requires
        sequence::is_run(poll, replies),
        0 <= at < replies.len(),
    ensures
        poll_step(sequence::log(poll, replies), sequence::outcome(poll, replies), at),
    decreases replies.len(),
{
    laws::lemma_log_follows_replies(poll, replies);
    let log = sequence::log(poll, replies);
    assert(log[0].action == poll.awaited());
    match Sequence::<E>::after(poll, replies[0]) {
        Next::Continue(rest) => {
            let tail = replies.drop_first();
            laws::lemma_first_step(poll, replies, rest);
            laws::lemma_log_follows_replies(rest, tail);
            let tail_log = sequence::log(rest, tail);
            if at > 0 {
                lemma_poll_step(rest, tail, at - 1);
                assert(log[at] == tail_log[at - 1]);
                if at + 1 < log.len() {
                    assert(log[at + 1] == tail_log[at]);
                }
            } else if tail.len() > 0 {
                assert(tail_log[0].action == rest.awaited());
                assert(log[1] == tail_log[0]);
            }
        },
        Next::Finish(_) => {},
    }
}

/// What follows the exchange at `at` of an attach while it waits for the AHB-AP. It is what
/// [`poll_step`] says, but that finding the access port is the success of the attach, and that giving
/// it up is followed by the system reset that begins the recovery.
pub open spec fn wait_step<E>(
    log: Seq<Exchange<Action, E>>,
    outcome: Option<Result<(), ArmError<E>>>,
    at: int,
) -> bool {
    let idr_read = Action::ReadIdr { port: AccessPort::Selected(ApSel::Ahb) };
    let last = at == log.len() - 1;
    match (log[at].action, log[at].reply) {
        (Action::StartTimer, _) | (Action::Sleep { .. }, _) => if last {
            outcome is None
        } else {
            log[at + 1].action == idr_read
        },
        (Action::ReadIdr { .. }, reply) => if reply is Word && reply->Word_0 != 0 {
            last && laws::succeeded(outcome)
        } else if last {
            outcome is None
        } else {
            log[at + 1].action is ReadTimer
        },
        (Action::ReadTimer, reply) => if last {
            outcome is None
        } else if reply->nanos > 10_000_000 {
            log[at + 1].action == (Action::WriteRawApRegister {
                ap: ApSel::Pwr,
                register: 0xF0,
                value: 1,
            })
        } else {
            log[at + 1].action == (Action::Sleep { millis: 1 })
        },
        _ => true,
    }
}

/// An attach waits for the AHB-AP, exchange by exchange, as [`wait_step`] says.
pub proof fn law_attach_waits_step_by_step<E>(
    long_recovery: bool,
    replies: Seq<Reply<E>>,
    at: int,
)
    requires
        sequence::is_run(attach_of(long_recovery), replies),
        0 <= at < replies.len(),
    ensures
        wait_step(
            sequence::log(attach_of(long_recovery), replies),
            sequence::outcome(attach_of(long_recovery), replies),
            at,
        ),
{
    lemma_wait_step(attach_of(long_recovery), replies, at);
}

/// A recovery reads and writes access port registers and does nothing else.
proof fn lemma_recovery_uses_power_registers(recover: RecoverSticky)
    requires
        recover.valid(),
    ensures
        recover.awaited() is WriteRawApRegister || recover.awaited() is ReadRawApRegister,
{
}

/// What [`law_attach_waits_step_by_step`] says, from any position of the attach.
proof fn lemma_wait_step<E>(sequence: DebugPortStart, replies: Seq<Reply<E>>, at: int)
    requires
        sequence.valid(),
        sequence::is_run(sequence, replies),
        0 <= at < replies.len(),
    ensures
        wait_step(sequence::log(sequence, replies), sequence::outcome(sequence, replies), at),
    decreases replies.len(),
{
    laws::lemma_log_follows_replies(sequence, replies);
    let log = sequence::log(sequence, replies);
    assert(log[0].action == sequence.awaited());
    assert(SPREC_SYS_RST == 1) by (bit_vector);
    if sequence.stage is Recover {
        lemma_recovery_uses_power_registers(sequence.stage->Recover_0);
    }
    match Sequence::<E>::after(sequence, replies[0]) {
        Next::Continue(rest) => {
            let tail = replies.drop_first();
            laws::lemma_first_step(sequence, replies, rest);
            laws::lemma_log_follows_replies(rest, tail);
            let tail_log = sequence::log(rest, tail);
            if at > 0 {
                lemma_wait_step(rest, tail, at - 1);
                assert(log[at] == tail_log[at - 1]);
                if at + 1 < log.len() {
                    assert(log[at + 1] == tail_log[at]);
                }
            } else if tail.len() > 0 {
                assert(tail_log[0].action == rest.awaited());
                assert(log[1] == tail_log[0]);
            }
        },
        Next::Finish(_) => {},
    }
}

/// An attach to which a read of the AHB-AP's identification register gives any word but zero is
/// over, has succeeded, and has not reset the device: no operation of it writes `SPREC` or
/// `SYSCTL.RESETCMD`, drives the reset pin, or is the stock reset.
pub proof fn law_attach_takes_any_word_but_zero<E>(
    long_recovery: bool,
    replies: Seq<Reply<E>>,
    at: int,
    word: u32,
)
    requires
        sequence::is_run(attach_of(long_recovery), replies),
        0 <= at < replies.len(),
        sequence::log(attach_of(long_recovery), replies)[at].action == (Action::ReadIdr {
            port: AccessPort::Selected(ApSel::Ahb),
        }),
        replies[at] == Reply::<E>::Word(word),
        word != 0,
    ensures
        ({
            let log = sequence::log(attach_of(long_recovery), replies);
            &&& at == log.len() - 1
            &&& laws::succeeded(sequence::outcome(attach_of(long_recovery), replies))
            &&& forall|i: int|
                0 <= i < log.len() ==> match (#[trigger] log[i]).action {
                    Action::WriteRawApRegister { ap, register, .. } => ap == ApSel::Pwr && register
                        == 0x00,
                    Action::WriteWord32 { .. }
                    | Action::SwjPins { .. }
                    | Action::CortexMResetSystem => false,
                    _ => true,
                }
        }),
{
    laws::lemma_log_follows_replies(attach_of(long_recovery), replies);
    law_attach_waits_step_by_step(long_recovery, replies, at);
    law_attach_that_finds_the_ahb_ap(long_recovery, replies, at);
    lemma_attach_writes_power_registers(attach_of(long_recovery), replies);
}

/// An attach writes nothing but the two power registers, and drives no pin.
proof fn lemma_attach_writes_power_registers<E>(sequence: DebugPortStart, replies: Seq<Reply<E>>)
    requires
        sequence.valid(),
        sequence::is_run(sequence, replies),
    ensures
        ({
            let log = sequence::log(sequence, replies);
            forall|i: int|
                0 <= i < log.len() ==> match (#[trigger] log[i]).action {
                    Action::WriteRawApRegister { ap, register, .. } => ap == ApSel::Pwr && (register
                        == 0x00 || register == 0xF0),
                    Action::WriteWord32 { .. }
                    | Action::SwjPins { .. }
                    | Action::CortexMResetSystem => false,
                    _ => true,
                }
        }),
    decreases replies.len(),
{
    if replies.len() > 0 {
        let log = sequence::log(sequence, replies);
        assert(log[0].action == sequence.awaited());
        match Sequence::<E>::after(sequence, replies[0]) {
            Next::Continue(rest) => {
                laws::lemma_first_step(sequence, replies, rest);
                lemma_attach_writes_power_registers(rest, replies.drop_first());
            },
            Next::Finish(_) => {},
        }
    }
}

/// An attach goes by bits 23:21 of the word that `DPREC0` reads as, whatever its other bits. With all
/// of them clear, 0x0019_0008 is written and that is the end. With any of them set, 0x00F9_0008 is
/// written, and the wait for the AHB-AP follows.
pub proof fn law_attach_goes_by_the_sticky_bits<E>(
    long_recovery: bool,
    replies: Seq<Reply<E>>,
    word: u32,
)
    requires
        sequence::is_run(attach_of(long_recovery), replies),
        replies.len() > 1,
        replies[1] == Reply::<E>::Word(word),
    ensures
        ({
            let log = sequence::log(attach_of(long_recovery), replies);
            let outcome = sequence::outcome(attach_of(long_recovery), replies);
            let asleep = (word / 0x0020_0000) % 8 != 0;
            &&& log[0].action is DebugPortStartDefault
            &&& log[1].action == (Action::ReadRawApRegister { ap: ApSel::Pwr, register: 0x00 })
            &&& replies.len() == 2 ==> outcome is None
            &&& replies.len() > 2 ==> log[2].action == (Action::WriteRawApRegister {
                ap: ApSel::Pwr,
                register: 0x00,
                value: if asleep {
                    0x00F9_0008
                } else {
                    0x0019_0008
                },
            })
            &&& !asleep ==> replies.len() <= 3 && (replies.len() == 3 && replies[2] is Done
                ==> laws::succeeded(outcome))
            &&& asleep && replies.len() == 3 && replies[2] is Done ==> outcome is None
            &&& asleep && replies.len() > 3 ==> log[3].action is StartTimer
        }),
{
    laws::lemma_log_follows_replies(attach_of(long_recovery), replies);
    law_attach_begins(long_recovery, replies);
    assert((word & DPREC0_STICKY != 0) == ((word / 0x0020_0000) % 8 != 0)) by (bit_vector);
    assert(DPREC0_DEBUG_ENABLE == 0x0019_0008 && DPREC0_DEBUG_ENABLE | DPREC0_STICKY == 0x00F9_0008)
        by (bit_vector);
    if finds_sticky(replies[1]) && replies.len() > 2 && replies[2] is Done {
        let wait = attach_of(long_recovery).at(
            DebugPortStage::WaitForAhbAp(AhbApResponds::StartTimer),
        );
        let rest = replies.skip(3);
        if rest.len() > 0 {
            let log = sequence::log(attach_of(long_recovery), replies);
            assert(sequence::log(wait, rest)[0].action is StartTimer);
            assert(log[3] == sequence::log(wait, rest)[0]);
        }
    }
}

/// The two recoveries, in plain values.
pub proof fn law_recovery_values()
    ensures
        ({
            let read = Action::ReadRawApRegister { ap: ApSel::Pwr, register: 0x00 };
            let reset = Action::WriteRawApRegister { ap: ApSel::Pwr, register: 0xF0, value: 1 };
            let write = |value: u32|
                Action::WriteRawApRegister { ap: ApSel::Pwr, register: 0x00, value };
            &&& attach::recovery(false) == seq![reset, write(0x00F9_0008), read]
            &&& attach::recovery(true) == seq![
                reset,
                read,
                write(0x0000_0008),
                read,
                write(0x00F9_0008),
                read,
                reset,
                write(0x0019_0008),
                read,
            ]
        }),
{
    assert(DPREC0_DEBUG_ENABLE == 0x0019_0008 && DPREC0_DEBUG_ENABLE | DPREC0_STICKY == 0x00F9_0008
        && DPREC0_FORCEACTIVE == 0x0000_0008 && SPREC_SYS_RST == 1) by (bit_vector);
}

/// What the functions that an attach, a detach and an unlock are made of return, in plain values.
pub proof fn law_power_functions<E>(
    value: u32,
    read: Action,
    write: Action,
    reset: Action,
    reply: Reply<E>,
    present: bool,
)
    requires
        call_ensures(attach::read_dprec0, (), read),
        call_ensures(attach::write_dprec0, (value,), write),
        call_ensures(attach::write_sprec, (value,), reset),
        call_ensures(attach::idr_is_present::<E>, (&reply,), present),
    ensures
        read == (Action::ReadRawApRegister { ap: ApSel::Pwr, register: 0x00 }),
        write == (Action::WriteRawApRegister { ap: ApSel::Pwr, register: 0x00, value }),
        reset == (Action::WriteRawApRegister { ap: ApSel::Pwr, register: 0xF0, value }),
        present <==> reply is Word && reply->Word_0 != 0,
{
}

} // verus!
