//! What a mailbox command does, and what its result means.
use vstd::prelude::*;

use crate::error::{ArmDebugSequenceError, ArmError};
use crate::laws;
use crate::mailbox;
use crate::mailbox::{DssmCommand, DssmStage, ANSWER_TIMEOUT_NANOS};
use crate::registers::{
    ApSel, DSSM_RESPONSE_OK, RXCTL, RXCTL_RX_VALID, RXDATA, TXCTL, TXDATA,
};
use crate::sequence;
use crate::sequence::{Action, Exchange, Next, Operation, Pins, Reply, Sequence};

verus! {

/// Reading `RXCTL`.
pub open spec fn rxctl_read() -> Action {
    Action::ReadRawApRegister { ap: ApSel::Sec, register: RXCTL }
}

/// Reading `RXDATA`.
pub open spec fn rxdata_read() -> Action {
    Action::ReadRawApRegister { ap: ApSel::Sec, register: RXDATA }
}

/// Whether `exchange` is part of a wait that goes on: a poll without an answer, a stopwatch reading
/// within the time that the boot ROM is given, or a pause.
pub open spec fn still_waiting<E>(exchange: Exchange<Action, E>) -> bool {
    match exchange.action {
        Action::ReadTimer => exchange.reply->nanos <= ANSWER_TIMEOUT_NANOS,
        Action::Sleep { millis } => millis == 1,
        action => action == rxctl_read() && !mailbox::answer_pending(exchange.reply),
    }
}

/// Whether `exchange` is the stopwatch reading that gives the answer up.
pub open spec fn gives_up<E>(exchange: Exchange<Action, E>) -> bool {
    exchange.action is ReadTimer && exchange.reply->nanos > ANSWER_TIMEOUT_NANOS
}

/// How a command goes on from the wait for the answer, and how it ends: `log` is a wait, up to the
/// exchange at `found`; then either the answer is given up, or it is there and is read, the data
/// before the echo.
pub open spec fn answer_run<E>(
    command: u32,
    what: &'static str,
    log: Seq<Exchange<Action, E>>,
    outcome: Option<Result<(), ArmError<E>>>,
    found: int,
) -> bool {
    let n = log.len() as int;
    &&& 0 <= found <= n
    &&& forall|i: int| 0 <= i < found ==> still_waiting(#[trigger] log[i])
    &&& n > found ==> {
        ||| gives_up(log[found]) && n == found + 1
        ||| {
            &&& log[found].action == rxctl_read()
            &&& mailbox::answer_pending(log[found].reply)
            &&& n <= found + 3
            &&& n > found + 1 ==> log[found + 1].action == rxdata_read()
            &&& n > found + 1 ==> log[found + 1].action.admits(log[found + 1].reply)
            &&& n > found + 2 ==> log[found + 1].reply is Word && log[found + 2].action
                == rxctl_read()
            &&& n > found + 2 ==> log[found + 2].action.admits(log[found + 2].reply)
        }
    }
    &&& outcome == if n > found && gives_up(log[found]) || n == found + 2 && log.last().reply is Failed
        || n == found + 3 {
        Some(command_result(command, what, log))
    } else {
        None
    }
}

/// The result of a command that is over, told from its last two exchanges.
pub open spec fn command_result<E>(
    command: u32,
    what: &'static str,
    log: Seq<Exchange<Action, E>>,
) -> Result<(), ArmError<E>> {
    let response = log[log.len() - 2].reply->Word_0;
    let echoed = log.last().reply->Word_0;
    if log.last().reply is Failed {
        Err(ArmError::Interface(log.last().reply->Failed_0))
    } else if log.last().action is ReadTimer {
        Err(ArmError::DebugSequence(ArmDebugSequenceError::NoAnswer { what }))
    } else if mailbox::serviced(command, response, echoed) {
        Ok(())
    } else {
        Err(
            ArmError::DebugSequence(
                ArmDebugSequenceError::Rejected { what, response, echoed },
            ),
        )
    }
}

/// The staging part of a command goes on, operation by operation, into the wait for the answer.
proof fn lemma_staging<E>(sequence: DssmCommand, replies: Seq<Reply<E>>)
    requires
        sequence.valid(),
        sequence.stage is Staging,
        sequence::is_run(sequence, replies),
    ensures
        ({
            let step = sequence.stage->Staging_0 as int;
            let script = mailbox::staging(sequence.command);
            let left = script.len() - step;
            let log = sequence::log(sequence, replies);
            let outcome = sequence::outcome(sequence, replies);
            let wait = sequence.at(DssmStage::PollAnswer);
            &&& log.len() == replies.len()
            &&& forall|i: int|
                0 <= i < log.len() && i < left ==> (#[trigger] log[i]).action == script[step
                    + i].action && log[i].action.admits(log[i].reply)
            &&& forall|i: int|
                0 <= i < log.len() && i < left && (#[trigger] log[i]).reply is Failed && script[step
                    + i].required ==> i == log.len() - 1 && outcome == Some(
                    Err::<(), _>(ArmError::Interface(log[i].reply->Failed_0)),
                )
            &&& log.len() <= left && (log.len() > 0 ==> !(log.last().reply is Failed
                && script[step + log.len() - 1].required)) ==> outcome is None
            &&& log.len() > left ==> {
                &&& sequence::is_run(wait, replies.skip(left))
                &&& log == log.take(left) + sequence::log(wait, replies.skip(left))
                &&& outcome == sequence::outcome(wait, replies.skip(left))
            }
        }),
    decreases replies.len(),
{
    laws::lemma_log_follows_replies(sequence, replies);
    if replies.len() > 0 {
        let log = sequence::log(sequence, replies);
        let step = sequence.stage->Staging_0 as int;
        let left = mailbox::staging(sequence.command).len() - step;
        match Sequence::<E>::after(sequence, replies[0]) {
            Next::Continue(rest) => {
                let tail = replies.drop_first();
                laws::lemma_first_step(sequence, replies, rest);
                let tail_log = sequence::log(rest, tail);
                assert(tail_log.len() > 0 ==> log.last() == tail_log.last());
                if rest.stage is Staging {
                    lemma_staging(rest, tail);
                    if log.len() > left {
                        let wait = sequence.at(DssmStage::PollAnswer);
                        assert(replies.skip(left) == tail.skip(left - 1));
                        assert(log == log.take(left) + sequence::log(wait, replies.skip(left)));
                    }
                } else {
                    assert(replies.skip(left) == tail);
                    assert(log == log.take(left) + tail_log);
                }
            },
            Next::Finish(_) => {},
        }
    }
}

/// What a command does from the wait for the answer on, and how it ends. Gives the number of
/// exchanges of the wait.
proof fn lemma_answer<E>(sequence: DssmCommand, replies: Seq<Reply<E>>) -> (found: int)
    requires
        sequence.stage is PollAnswer || sequence.stage is CheckTimer || sequence.stage is Pause,
        sequence::is_run(sequence, replies),
    ensures
        answer_run(
            sequence.command,
            sequence.what,
            sequence::log(sequence, replies),
            sequence::outcome(sequence, replies),
            found,
        ),
    decreases replies.len(),
{
    let log = sequence::log(sequence, replies);
    laws::lemma_log_follows_replies(sequence, replies);
    if replies.len() == 0 {
        0
    } else {
        let first = Exchange { action: sequence.awaited(), reply: replies[0] };
        assert(log[0] == first);
        let tail = replies.drop_first();
        match Sequence::<E>::after(sequence, replies[0]) {
            Next::Continue(rest) => {
                laws::lemma_first_step(sequence, replies, rest);
                let tail_log = sequence::log(rest, tail);
                if rest.stage is ReadResponse {
                    laws::lemma_log_follows_replies(rest, tail);
                    if tail.len() > 0 && tail[0] is Word {
                        let echo = rest.at(DssmStage::ReadEcho { response: tail[0]->Word_0 });
                        laws::lemma_first_step(rest, tail, echo);
                        if tail.len() > 1 {
                            assert(tail.drop_first().len() == 1);
                            assert(log[2].reply == tail.drop_first()[0]);
                        }
                    }
                    0
                } else {
                    let found = lemma_answer(rest, tail) + 1;
                    assert(still_waiting(log[0]));
                    assert forall|i: int| 0 <= i < found implies still_waiting(
                        #[trigger] log[i],
                    ) by {
                        if i > 0 {
                            assert(log[i] == tail_log[i - 1]);
                        }
                    }
                    if log.len() > found {
                        assert(log[found] == tail_log[found - 1]);
                        assert(log.last() == tail_log.last());
                        if log.len() > found + 1 {
                            assert(log[found + 1] == tail_log[found]);
                        }
                        if log.len() > found + 2 {
                            assert(log[found + 2] == tail_log[found + 1]);
                        }
                    }
                    found
                }
            },
            Next::Finish(_) => 0,
        }
    }
}

/// The whole course of a mailbox command: `log` is the staging part, operation by operation, until
/// one that has to succeed fails; then what [`answer_run`] says.
pub open spec fn command_run<E>(
    command: u32,
    what: &'static str,
    log: Seq<Exchange<Action, E>>,
    outcome: Option<Result<(), ArmError<E>>>,
    found: int,
) -> bool {
    let script = mailbox::staging(command);
    let n = log.len() as int;
    &&& forall|i: int|
        0 <= i < n && i < script.len() ==> (#[trigger] log[i]).action == script[i].action
            && log[i].action.admits(log[i].reply)
    &&& forall|i: int|
        0 <= i < n && i < script.len() && (#[trigger] log[i]).reply is Failed && script[i].required
            ==> i == n - 1
    &&& n <= script.len() ==> outcome == if n > 0 && log.last().reply is Failed && script[n
        - 1].required {
        Some(Err::<(), _>(ArmError::Interface(log.last().reply->Failed_0)))
    } else {
        None
    }
    &&& n > script.len() ==> answer_run(
        command,
        what,
        log.skip(script.len() as int),
        outcome,
        found,
    )
}

/// A mailbox command takes its course whatever is replied. Gives the number of exchanges of the
/// wait for the answer.
pub proof fn law_mailbox_command<E>(
    command: u32,
    what: &'static str,
    replies: Seq<Reply<E>>,
) -> (found: int)
    requires
        sequence::is_run(mailbox::unstaged(command, what), replies),
    ensures
        command_run(
            command,
            what,
            sequence::log(mailbox::unstaged(command, what), replies),
            sequence::outcome(mailbox::unstaged(command, what), replies),
            found,
        ),
{
    let sequence = mailbox::unstaged(command, what);
    let log = sequence::log(sequence, replies);
    let left = mailbox::staging(command).len() as int;
    lemma_staging(sequence, replies);
    if log.len() > left {
        let wait = sequence.at(DssmStage::PollAnswer);
        assert(log.skip(left) == sequence::log(wait, replies.skip(left)));
        lemma_answer(wait, replies.skip(left))
    } else {
        0
    }
}

/// A mailbox command is handed over once, before the device is reset, with the receive side drained
/// in between.
pub proof fn law_command_is_staged_before_the_reset<E>(
    command: u32,
    what: &'static str,
    replies: Seq<Reply<E>>,
)
    requires
        sequence::is_run(mailbox::unstaged(command, what), replies),
    ensures
        ({
            let log = sequence::log(mailbox::unstaged(command, what), replies);
            &&& forall|i: int|
                0 <= i < log.len() && laws::stages_command((#[trigger] log[i]).action) ==> i == 0
            &&& forall|i: int|
                0 <= i < log.len() && laws::resets((#[trigger] log[i]).action) ==> {
                    &&& i > 3
                    &&& log[0].action == Action::WriteRawApRegister {
                        ap: ApSel::Sec,
                        register: TXCTL,
                        value: command,
                    }
                    &&& log[0].reply is Done
                    &&& log[1].action == Action::WriteRawApRegister {
                        ap: ApSel::Sec,
                        register: TXDATA,
                        value: 0,
                    }
                    &&& log[1].reply is Done
                    &&& log[2].action == rxdata_read()
                    &&& log[3].action == rxctl_read()
                }
        }),
{
    let log = sequence::log(mailbox::unstaged(command, what), replies);
    let found = law_mailbox_command(command, what, replies);
    assert forall|i: int| 10 <= i < log.len() implies !laws::stages_command(
        (#[trigger] log[i]).action,
    ) && !laws::resets(log[i].action) by {
        assert(log[i] == log.skip(10)[i - 10]);
    }
}

/// A mailbox command that has asserted the reset pin does not end without having released it, or
/// having failed to.
pub proof fn law_reset_pin_is_released<E>(
    command: u32,
    what: &'static str,
    replies: Seq<Reply<E>>,
    at: int,
)
    requires
        sequence::is_run(mailbox::unstaged(command, what), replies),
        sequence::outcome(mailbox::unstaged(command, what), replies) is Some,
        0 <= at < sequence::log(mailbox::unstaged(command, what), replies).len(),
        ({
            let exchange = sequence::log(mailbox::unstaged(command, what), replies)[at];
            &&& exchange.action matches Action::SwjPins { out, select, .. } && select.nreset
                && !out.nreset
            &&& exchange.reply is Done
        }),
    ensures
        ({
            let log = sequence::log(mailbox::unstaged(command, what), replies);
            exists|i: int|
                at < i < log.len() && ((#[trigger] log[i]).action matches Action::SwjPins {
                    out,
                    select,
                    ..
                } && select.nreset && out.nreset)
        }),
{
    let log = sequence::log(mailbox::unstaged(command, what), replies);
    let found = law_mailbox_command(command, what, replies);
    if at >= 10 {
        assert(log[at] == log.skip(10)[at - 10]);
    }
    assert(at == 6);
    assert(log.len() > 8);
    assert(log[8].action == mailbox::staging(command)[8].action);
}

/// A mailbox command succeeds only when the boot ROM, after the reset, answered with the success
/// code and echoed the low byte of the command.
pub proof fn law_command_succeeds_only_when_serviced<E>(
    command: u32,
    what: &'static str,
    replies: Seq<Reply<E>>,
)
    requires
        sequence::is_run(mailbox::unstaged(command, what), replies),
        laws::succeeded(sequence::outcome(mailbox::unstaged(command, what), replies)),
    ensures
        ({
            let log = sequence::log(mailbox::unstaged(command, what), replies);
            let n = log.len();
            &&& n > 12
            &&& log[n - 3].action == rxctl_read() && mailbox::answer_pending(log[n - 3].reply)
            &&& log[n - 2].action == rxdata_read() && log[n - 2].reply == Reply::<E>::Word(
                DSSM_RESPONSE_OK,
            )
            &&& log[n - 1].action == rxctl_read() && log[n - 1].reply == Reply::<E>::Word(
                command & 0xFF,
            )
            &&& forall|i: int| n - 3 <= i < n ==> !laws::resets((#[trigger] log[i]).action)
        }),
{
    let log = sequence::log(mailbox::unstaged(command, what), replies);
    let n = log.len();
    let found = law_mailbox_command(command, what, replies);
    let answer = log.skip(10);
    assert(answer.len() == found + 3);
    assert(answer[found] == log[n - 3]);
    assert(answer[found + 1] == log[n - 2]);
    assert(answer[found + 2] == log[n - 1]);
}

/// The most operations that a command still takes when `slept` milliseconds have been slept since
/// the stopwatch was started.
spec fn command_bound(stage: DssmStage, slept: int) -> int {
    let from_poll = if slept <= 2001 {
        3 * (2001 - slept) + 3
    } else {
        3
    };
    match stage {
        DssmStage::Staging(step) => 6016 - step,
        DssmStage::PollAnswer => from_poll,
        DssmStage::CheckTimer => from_poll - 1,
        DssmStage::Pause => if slept <= 2000 {
            3 * (2000 - slept) + 4
        } else {
            4
        },
        DssmStage::ReadResponse => 2,
        DssmStage::ReadEcho { .. } => 1,
    }
}

/// A command is over within its bound.
proof fn lemma_command_ends<E>(sequence: DssmCommand, replies: Seq<Reply<E>>, slept: int)
    requires
        sequence.valid(),
        sequence::is_run(sequence, replies),
        slept >= 0,
        laws::clock_keeps_up(sequence::log(sequence, replies), slept),
    ensures
        replies.len() <= command_bound(sequence.stage, slept),
        replies.len() == command_bound(sequence.stage, slept) ==> sequence::outcome(
            sequence,
            replies,
        ) is Some,
    decreases replies.len(),
{
    if replies.len() > 0 {
        match Sequence::<E>::after(sequence, replies[0]) {
            Next::Continue(rest) => {
                laws::lemma_first_step(sequence, replies, rest);
                let log = sequence::log(sequence, replies);
                assert(log.drop_first() == sequence::log(rest, replies.drop_first()));
                lemma_command_ends(
                    rest,
                    replies.drop_first(),
                    match sequence.awaited() {
                        Action::StartTimer => 0,
                        Action::Sleep { millis } => slept + millis,
                        _ => slept,
                    },
                );
            },
            Next::Finish(_) => {},
        }
    }
}

/// A mailbox command comes to an end: on a clock that keeps up with what has been slept, it is over
/// after at most 6016 operations.
pub proof fn law_command_ends<E>(
    command: u32,
    what: &'static str,
    replies: Seq<Reply<E>>,
    slept: int,
)
    requires
        sequence::is_run(mailbox::unstaged(command, what), replies),
        slept >= 0,
        laws::clock_keeps_up(sequence::log(mailbox::unstaged(command, what), replies), slept),
    ensures
        replies.len() <= 6016,
        replies.len() == 6016 ==> sequence::outcome(
            mailbox::unstaged(command, what),
            replies,
        ) is Some,
{
    lemma_command_ends(mailbox::unstaged(command, what), replies, slept);
}

/// The operations before the answer is waited for, in plain values.
pub open spec fn staging_operations(command: u32) -> Seq<Action> {
    let nreset = Pins { nreset: true };
    seq![
        Action::WriteRawApRegister { ap: ApSel::Sec, register: 0x04, value: command },
        Action::WriteRawApRegister { ap: ApSel::Sec, register: 0x00, value: 0 },
        Action::ReadRawApRegister { ap: ApSel::Sec, register: 0x08 },
        Action::ReadRawApRegister { ap: ApSel::Sec, register: 0x0C },
        Action::Flush,
        Action::Sleep { millis: 500 },
        Action::SwjPins { out: Pins { nreset: false }, select: nreset, wait: 0 },
        Action::Sleep { millis: 50 },
        Action::SwjPins { out: nreset, select: nreset, wait: 0 },
        Action::StartTimer,
    ]
}

/// Every mailbox command, whatever its value, is staged by the same ten operations, of which the
/// first carries the command itself. A failure of one of the two writes, or of driving the reset
/// pin, is the end of the command; nothing else that is replied to these operations is.
pub proof fn law_command_is_staged_as_it_is<E>(
    command: u32,
    what: &'static str,
    replies: Seq<Reply<E>>,
    at: int,
)
    requires
        sequence::is_run(mailbox::unstaged(command, what), replies),
        0 <= at < replies.len(),
        at < 10,
    ensures
        ({
            let log = sequence::log(mailbox::unstaged(command, what), replies);
            let outcome = sequence::outcome(mailbox::unstaged(command, what), replies);
            &&& log.len() == replies.len()
            &&& log[at].action == staging_operations(command)[at]
            &&& if log[at].reply is Failed && (at == 0 || at == 1 || at == 6 || at == 8) {
                at == log.len() - 1 && outcome == Some(
                    Err::<(), _>(ArmError::Interface(log[at].reply->Failed_0)),
                )
            } else {
                at == log.len() - 1 ==> outcome is None
            }
        }),
{
    laws::lemma_log_follows_replies(mailbox::unstaged(command, what), replies);
    let found = law_mailbox_command(command, what, replies);
    assert(mailbox::staging(command)[at].action == staging_operations(command)[at]);
    let log = sequence::log(mailbox::unstaged(command, what), replies);
    assert(log[at].action.admits(log[at].reply));
}

/// What follows the exchange at `at` of a command that waits for its answer. `RXCTL` is polled. A
/// word with bit 0 set, whatever its other bits, is followed by the read of `RXDATA`; any other word,
/// or a failed poll, by a look at the stopwatch. A reading of more than 2 s is the end, without an
/// answer; any other is followed by a pause of 1 ms, and that by the next poll. `RXDATA` is followed
/// by one more read of `RXCTL`, which is the end: the command succeeded exactly when `RXDATA` was
/// 0x0001_0003 and `RXCTL` is the low byte of the command.
pub open spec fn answer_step<E>(
    command: u32,
    what: &'static str,
    log: Seq<Exchange<Action, E>>,
    outcome: Option<Result<(), ArmError<E>>>,
    at: int,
) -> bool {
    let poll = Action::ReadRawApRegister { ap: ApSel::Sec, register: 0x0C };
    let data = Action::ReadRawApRegister { ap: ApSel::Sec, register: 0x08 };
    let last = at == log.len() - 1;
    let reply = log[at].reply;
    if log[at].action == poll && at > 0 && log[at - 1].action == data {
        last && match reply {
            Reply::Failed(error) => outcome == Some(Err::<(), _>(ArmError::Interface(error))),
            Reply::Word(echoed) => {
                let response = log[at - 1].reply->Word_0;
                if response == 0x0001_0003 && echoed == command % 0x100 {
                    laws::succeeded(outcome)
                } else {
                    outcome == Some(
                        Err::<(), ArmError<E>>(
                            ArmError::DebugSequence(
                                ArmDebugSequenceError::Rejected { what, response, echoed },
                            ),
                        ),
                    )
                }
            },
            _ => false,
        }
    } else if log[at].action == poll {
        if last {
            outcome is None
        } else if reply is Word && reply->Word_0 % 2 == 1 {
            log[at + 1].action == data
        } else {
            log[at + 1].action is ReadTimer
        }
    } else if log[at].action == data {
        match reply {
            Reply::Failed(error) => last && outcome == Some(
                Err::<(), _>(ArmError::Interface(error)),
            ),
            _ => if last {
                outcome is None
            } else {
                log[at + 1].action == poll
            },
        }
    } else if log[at].action is ReadTimer {
        if reply->nanos > 2_000_000_000 {
            last && outcome == Some(
                Err::<(), ArmError<E>>(
                    ArmError::DebugSequence(ArmDebugSequenceError::NoAnswer { what }),
                ),
            )
        } else if last {
            outcome is None
        } else {
            log[at + 1].action == (Action::Sleep { millis: 1 })
        }
    } else {
        &&& log[at].action == (Action::Sleep { millis: 1 })
        &&& if last {
            outcome is None
        } else {
            log[at + 1].action == poll
        }
    }
}

/// A command whose answer is there reads it as [`answer_step`] says.
proof fn lemma_answer_is_read<E>(sequence: DssmCommand, replies: Seq<Reply<E>>, at: int)
    requires
        sequence.stage is ReadResponse,
        sequence::is_run(sequence, replies),
        0 <= at < replies.len(),
    ensures
        replies.len() <= 2,
        sequence::log(sequence, replies).len() == replies.len(),
        answer_step(
            sequence.command,
            sequence.what,
            sequence::log(sequence, replies),
            sequence::outcome(sequence, replies),
            at,
        ),
{
    let command = sequence.command;
    assert(command & 0xFF == command % 0x100) by (bit_vector);
    laws::lemma_log_follows_replies(sequence, replies);
    let log = sequence::log(sequence, replies);
    assert(log[0].action == sequence.awaited());
    if replies[0] is Word {
        let echo = sequence.at(DssmStage::ReadEcho { response: replies[0]->Word_0 });
        let tail = replies.drop_first();
        laws::lemma_first_step(sequence, replies, echo);
        laws::lemma_log_follows_replies(echo, tail);
        if tail.len() > 0 {
            assert(sequence::log(echo, tail)[0].action == echo.awaited());
            assert(log[1] == sequence::log(echo, tail)[0]);
            assert(tail.len() == 1);
        }
    }
}

/// What [`law_answer_step_by_step`] says, from any position of the wait.
proof fn lemma_answer_step<E>(sequence: DssmCommand, replies: Seq<Reply<E>>, at: int)
    requires
        sequence.stage is PollAnswer || sequence.stage is CheckTimer || sequence.stage is Pause,
        sequence::is_run(sequence, replies),
        0 <= at < replies.len(),
    ensures
        sequence::log(sequence, replies).len() == replies.len(),
        answer_step(
            sequence.command,
            sequence.what,
            sequence::log(sequence, replies),
            sequence::outcome(sequence, replies),
            at,
        ),
    decreases replies.len(),
{
    laws::lemma_log_follows_replies(sequence, replies);
    let log = sequence::log(sequence, replies);
    assert(log[0].action == sequence.awaited());
    assert(log[0].reply == replies[0]);
    if replies[0] is Word {
        let word = replies[0]->Word_0;
        assert((word & RXCTL_RX_VALID != 0) == (word % 2 == 1)) by (bit_vector);
    }
    match Sequence::<E>::after(sequence, replies[0]) {
        Next::Continue(rest) => {
            let tail = replies.drop_first();
            laws::lemma_first_step(sequence, replies, rest);
            laws::lemma_log_follows_replies(rest, tail);
            let tail_log = sequence::log(rest, tail);
            if at > 0 {
                if rest.stage is ReadResponse {
                    lemma_answer_is_read(rest, tail, at - 1);
                } else {
                    lemma_answer_step(rest, tail, at - 1);
                }
                assert(log[at] == tail_log[at - 1]);
                if at + 1 < log.len() {
                    assert(log[at + 1] == tail_log[at]);
                }
                if at > 1 {
                    assert(log[at - 1] == tail_log[at - 2]);
                }
            } else if tail.len() > 0 {
                assert(tail_log[0].action == rest.awaited());
                assert(log[1] == tail_log[0]);
            }
        },
        Next::Finish(_) => {},
    }
}

/// From the eleventh operation on, which is a poll of `RXCTL`, every mailbox command goes, exchange
/// by exchange, as [`answer_step`] says.
pub proof fn law_answer_step_by_step<E>(
    command: u32,
    what: &'static str,
    replies: Seq<Reply<E>>,
    at: int,
)
    requires
        sequence::is_run(mailbox::unstaged(command, what), replies),
        10 <= at < replies.len(),
    ensures
        ({
            let log = sequence::log(mailbox::unstaged(command, what), replies);
            let outcome = sequence::outcome(mailbox::unstaged(command, what), replies);
            &&& log.len() == replies.len()
            &&& log[10].action == (Action::ReadRawApRegister { ap: ApSel::Sec, register: 0x0C })
            &&& answer_step(command, what, log.skip(10), outcome, at - 10)
        }),
{
    let start = mailbox::unstaged(command, what);
    let log = sequence::log(start, replies);
    lemma_staging(start, replies);
    let wait = start.at(DssmStage::PollAnswer);
    assert(log.skip(10) == sequence::log(wait, replies.skip(10)));
    lemma_answer_step(wait, replies.skip(10), at - 10);
    assert(log.skip(10)[0].action == wait.awaited());
}

/// A mailbox command is without an answer only when every word that was polled after the staging
/// part had bit 0 clear, and the stopwatch, read last, shows more than 2 s.
pub proof fn law_no_answer_means_no_word_with_bit_0<E>(
    command: u32,
    what: &'static str,
    replies: Seq<Reply<E>>,
    at: int,
)
    requires
        sequence::is_run(mailbox::unstaged(command, what), replies),
        sequence::outcome(mailbox::unstaged(command, what), replies) matches Some(
            Err(ArmError::DebugSequence(ArmDebugSequenceError::NoAnswer { .. })),
        ),
        10 <= at < replies.len(),
        sequence::log(mailbox::unstaged(command, what), replies)[at].action
            == (Action::ReadRawApRegister { ap: ApSel::Sec, register: 0x0C }),
    ensures
        replies[at] is Word ==> replies[at]->Word_0 % 2 == 0,
        sequence::log(mailbox::unstaged(command, what), replies).last().action is ReadTimer,
        replies.last()->nanos > 2_000_000_000,
{
    let start = mailbox::unstaged(command, what);
    let log = sequence::log(start, replies);
    laws::lemma_log_follows_replies(start, replies);
    let found = law_mailbox_command(command, what, replies);
    let answer = log.skip(10);
    let outcome = sequence::outcome(start, replies);
    assert(answer[at - 10] == log[at]);
    assert(answer.last() == log.last());
    assert(log.last().reply == replies.last());
    assert(outcome == Some(command_result(command, what, answer)));
    assert(answer.last().action is ReadTimer);
    assert(gives_up(answer[found]));
    assert(at - 10 < found);
    assert(still_waiting(answer[at - 10]));
    if replies[at] is Word {
        let word = replies[at]->Word_0;
        assert((word & RXCTL_RX_VALID != 0) == (word % 2 == 1)) by (bit_vector);
    }
}

} // verus!
