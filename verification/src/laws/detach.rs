//! What a detach leaves behind.
use vstd::prelude::*;

use crate::attach;
use crate::detach;
use crate::detach::DebugCoreStop;
use crate::error::ArmError;
use crate::laws;
use crate::registers::{
    ApSel, DPREC0_DEBUGPOWER, DPREC0_DEBUG_ENABLE, DPREC0_FORCEACTIVE, DPREC0_HALT_ON_RESET,
    DPREC0_INHIBITSLEEP, DPREC0_RST_CTL, DPREC0_STICKY,
};
use crate::sequence;
use crate::sequence::{Action, Exchange, Next, Operation, Reply, Sequence};

verus! {

/// The whole course of a detach: the stock teardown first, then the debug interface, then `DPREC0`
/// is read and written back. It fails with the first operation that fails, and succeeds when all of
/// them were carried out.
pub proof fn law_detach<E>(replies: Seq<Reply<E>>)
    requires
        sequence::is_run(DebugCoreStop::StopDefault, replies),
    ensures
        ({
            let log = sequence::log(DebugCoreStop::StopDefault, replies);
            let outcome = sequence::outcome(DebugCoreStop::StopDefault, replies);
            &&& log.len() == replies.len()
            &&& log.len() <= 4
            &&& log.len() > 0 ==> log[0].action is DebugCoreStopDefault
            &&& log.len() > 1 ==> log[0].reply is Done && log[1].action is GetArmDebugInterface
            &&& log.len() > 2 ==> log[1].reply is Done && log[2].action == attach::dprec0_read()
            &&& log.len() > 3 ==> log[2].reply is Word && log[3].action == attach::dprec0_write(
                detach::released(log[2].reply->Word_0),
            )
            &&& outcome == if log.len() > 0 && log.last().reply is Failed {
                Some(Err(ArmError::Interface(log.last().reply->Failed_0)))
            } else if log.len() == 4 {
                Some(Ok(()))
            } else {
                None
            }
        }),
{
    let start = DebugCoreStop::StopDefault;
    laws::lemma_log_follows_replies(start, replies);
    if replies.len() > 0 && replies[0] is Done {
        let rest1 = replies.drop_first();
        laws::lemma_first_step(start, replies, DebugCoreStop::GetInterface);
        if rest1.len() > 0 && rest1[0] is Done {
            let rest2 = rest1.drop_first();
            laws::lemma_first_step(DebugCoreStop::GetInterface, rest1, DebugCoreStop::ReadDprec0);
            if rest2.len() > 0 && rest2[0] is Word {
                let release = DebugCoreStop::Release { dprec0: rest2[0]->Word_0 };
                laws::lemma_first_step(DebugCoreStop::ReadDprec0, rest2, release);
            }
        }
    }
}

/// What a detach writes to `DPREC0` selects the default reset mode and lets the device sleep, and
/// leaves every other bit as it was.
pub proof fn law_detach_restores_dprec0(dprec0: u32)
    ensures
        detach::released(dprec0) & DPREC0_RST_CTL == 0,
        detach::released(dprec0) & DPREC0_INHIBITSLEEP == 0,
        detach::released(dprec0) & DPREC0_FORCEACTIVE == 0,
        ({
            let kept = !(DPREC0_INHIBITSLEEP | DPREC0_FORCEACTIVE | DPREC0_RST_CTL);
            detach::released(dprec0) & kept == dprec0 & kept
        }),
        detach::released(dprec0) & DPREC0_STICKY == dprec0 & DPREC0_STICKY,
        detach::released(detach::released(dprec0)) == detach::released(dprec0),
{
    let mask = DPREC0_INHIBITSLEEP | DPREC0_FORCEACTIVE | DPREC0_RST_CTL;
    let value = dprec0 & !mask;
    assert(value & DPREC0_RST_CTL == 0 && value & DPREC0_INHIBITSLEEP == 0 && value
        & DPREC0_FORCEACTIVE == 0 && value & !mask == dprec0 & !mask && value & DPREC0_STICKY
        == dprec0 & DPREC0_STICKY && value & !mask == value) by (bit_vector)
        requires
            mask == DPREC0_INHIBITSLEEP | DPREC0_FORCEACTIVE | DPREC0_RST_CTL,
            value == dprec0 & !mask,
    ;
}

/// A detach undoes what an attach wrote to `DPREC0`, but for `DEBUGPOWER` and the sticky bits;
/// halt-on-reset, which an attach selects, is not left selected.
pub proof fn law_detach_undoes_attach()
    ensures
        DPREC0_DEBUG_ENABLE & DPREC0_RST_CTL == DPREC0_HALT_ON_RESET,
        detach::released(DPREC0_DEBUG_ENABLE) == DPREC0_DEBUGPOWER,
        detach::released(DPREC0_DEBUG_ENABLE | DPREC0_STICKY) == DPREC0_DEBUGPOWER | DPREC0_STICKY,
{
    let mask = DPREC0_INHIBITSLEEP | DPREC0_FORCEACTIVE | DPREC0_RST_CTL;
    assert(DPREC0_DEBUG_ENABLE & DPREC0_RST_CTL == DPREC0_HALT_ON_RESET && DPREC0_DEBUG_ENABLE
        & !mask == DPREC0_DEBUGPOWER && (DPREC0_DEBUG_ENABLE | DPREC0_STICKY) & !mask
        == DPREC0_DEBUGPOWER | DPREC0_STICKY) by (bit_vector)
        requires
            mask == DPREC0_INHIBITSLEEP | DPREC0_FORCEACTIVE | DPREC0_RST_CTL,
    ;
}

/// A detach that gets as far as its fourth operation has read the word at offset 0 of the PWR-AP,
/// and writes a value back there in which bits 20, 16:14 and 3 are clear and every other bit is that
/// of the word. It has torn the core down before, and nothing follows the write.
pub proof fn law_detach_writes_the_word_back<E>(replies: Seq<Reply<E>>)
    requires
        sequence::is_run(DebugCoreStop::StopDefault, replies),
        replies.len() > 3,
    ensures
        ({
            let log = sequence::log(DebugCoreStop::StopDefault, replies);
            let outcome = sequence::outcome(DebugCoreStop::StopDefault, replies);
            &&& log.len() == 4
            &&& log[0].action is DebugCoreStopDefault
            &&& log[1].action is GetArmDebugInterface
            &&& log[2].action == (Action::ReadRawApRegister { ap: ApSel::Pwr, register: 0x00 })
            &&& log[2].reply matches Reply::Word(word) && {
                &&& log[3].action matches Action::WriteRawApRegister { ap, register, value } && {
                    &&& ap == ApSel::Pwr
                    &&& register == 0x00
                    &&& (value / 0x0010_0000) % 2 == 0
                    &&& (value / 0x4000) % 8 == 0
                    &&& (value / 8) % 2 == 0
                    &&& value / 0x0020_0000 == word / 0x0020_0000
                    &&& (value / 0x0002_0000) % 8 == (word / 0x0002_0000) % 8
                    &&& (value / 0x10) % 0x400 == (word / 0x10) % 0x400
                    &&& value % 8 == word % 8
                }
            }
            &&& log[3].reply is Done ==> laws::succeeded(outcome)
            &&& log[3].reply matches Reply::Failed(error) ==> outcome == Some(
                Err::<(), _>(ArmError::Interface(error)),
            )
        }),
{
    law_detach(replies);
    let log = sequence::log(DebugCoreStop::StopDefault, replies);
    laws::attach::law_power_operations_carry_their_value(0);
    let word = log[2].reply->Word_0;
    let mask = DPREC0_INHIBITSLEEP | DPREC0_FORCEACTIVE | DPREC0_RST_CTL;
    let value = word & !mask;
    assert((value / 0x0010_0000) % 2 == 0 && (value / 0x4000) % 8 == 0 && (value / 8) % 2 == 0
        && value / 0x0020_0000 == word / 0x0020_0000 && (value / 0x0002_0000) % 8 == (word
        / 0x0002_0000) % 8 && (value / 0x10) % 0x400 == (word / 0x10) % 0x400 && value % 8 == word
        % 8) by (bit_vector)
        requires
            mask == DPREC0_INHIBITSLEEP | DPREC0_FORCEACTIVE | DPREC0_RST_CTL,
            value == word & !mask,
    ;
}

/// The value that hands low-power control back has bits 20, 16:14 and 3 of the word clear, and no
/// other bit changed.
pub proof fn law_released_value(word: u32, value: u32)
    requires
        call_ensures(detach::release_dprec0, (word,), value),
    ensures
        value & 0x0011_C008 == 0,
        value | (word & 0x0011_C008) == word,
{
    let mask = DPREC0_INHIBITSLEEP | DPREC0_FORCEACTIVE | DPREC0_RST_CTL;
    assert(value & 0x0011_C008 == 0 && value | (word & 0x0011_C008) == word) by (bit_vector)
        requires
            mask == DPREC0_INHIBITSLEEP | DPREC0_FORCEACTIVE | DPREC0_RST_CTL,
            value == word & !mask,
    ;
}

} // verus!
