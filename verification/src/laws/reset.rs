//! Which reset is used, and when.
use vstd::prelude::*;

use crate::error::ArmError;
use crate::laws;
use crate::registers::{
    DEMCR, DEMCR_VC_CORERESET, RESETCMD_GO, RESETLEVEL_SYSRST, SYSCTL_RESETCMD, SYSCTL_RESETLEVEL,
};
use crate::reset;
use crate::reset::ResetSystem;
use crate::sequence;
use crate::sequence::{Action, Exchange, Next, Operation, Reply, Sequence};

verus! {

/// A reset without the reset catch armed is the stock reset and nothing else, with its result.
pub proof fn law_bare_reset_is_the_stock_reset<E>(replies: Seq<Reply<E>>)
    requires
        sequence::is_run(ResetSystem::ReadDemcr, replies),
        replies.len() > 0,
        replies[0] is Word,
        !reset::catch_armed(replies[0]->Word_0),
    ensures
        ({
            let log = sequence::log(ResetSystem::ReadDemcr, replies);
            let outcome = sequence::outcome(ResetSystem::ReadDemcr, replies);
            &&& log.len() == replies.len() <= 2
            &&& log[0].action == Action::ReadWord32 { address: DEMCR }
            &&& log.len() == 1 ==> outcome is None
            &&& log.len() == 2 ==> log[1].action is CortexMResetSystem && outcome == Some(
                match log[1].reply {
                    Reply::Failed(error) => Err(ArmError::Interface(error)),
                    _ => Ok(()),
                },
            )
        }),
{
    laws::lemma_log_follows_replies(ResetSystem::ReadDemcr, replies);
    laws::lemma_first_step(ResetSystem::ReadDemcr, replies, ResetSystem::StockReset);
}

/// A reset with the reset catch armed selects SYSRST, executes it, whatever becomes of the
/// acknowledge, and waits for it to complete, with the result of that wait. The stock reset is not
/// used.
pub proof fn law_caught_reset_is_sysrst<E>(replies: Seq<Reply<E>>)
    requires
        sequence::is_run(ResetSystem::ReadDemcr, replies),
        replies.len() > 0,
        replies[0] is Word,
        reset::catch_armed(replies[0]->Word_0),
    ensures
        ({
            let log = sequence::log(ResetSystem::ReadDemcr, replies);
            let outcome = sequence::outcome(ResetSystem::ReadDemcr, replies);
            &&& log.len() == replies.len() <= 5
            &&& log[0].action == Action::ReadWord32 { address: DEMCR }
            &&& log.len() > 1 ==> log[1].action == Action::WriteWord32 {
                address: SYSCTL_RESETLEVEL,
                value: RESETLEVEL_SYSRST,
            }
            &&& log.len() > 2 ==> log[1].reply is Done && log[2].action == Action::WriteWord32 {
                address: SYSCTL_RESETCMD,
                value: RESETCMD_GO,
            }
            &&& log.len() > 3 ==> log[3].action is Flush
            &&& log.len() > 4 ==> log[4].action is CortexMWaitForReset
            &&& outcome == if log.len() == 2 && log[1].reply is Failed {
                Some(Err(ArmError::Interface(log[1].reply->Failed_0)))
            } else if log.len() == 5 {
                Some(
                    match log[4].reply {
                        Reply::Failed(error) => Err(ArmError::Interface(error)),
                        _ => Ok(()),
                    },
                )
            } else {
                None
            }
        }),
{
    laws::lemma_log_follows_replies(ResetSystem::ReadDemcr, replies);
    laws::lemma_first_step(ResetSystem::ReadDemcr, replies, ResetSystem::SelectLevel);
    let rest1 = replies.drop_first();
    if rest1.len() > 0 && rest1[0] is Done {
        laws::lemma_first_step(ResetSystem::SelectLevel, rest1, ResetSystem::Execute);
        let rest2 = rest1.drop_first();
        if rest2.len() > 0 {
            laws::lemma_first_step(ResetSystem::Execute, rest2, ResetSystem::Flush);
            let rest3 = rest2.drop_first();
            if rest3.len() > 0 {
                laws::lemma_first_step(ResetSystem::Flush, rest3, ResetSystem::Wait);
            }
        }
    }
}

/// A reset does not touch the device at all when it cannot tell whether the reset catch is armed: it
/// fails with the error of that.
pub proof fn law_reset_needs_demcr<E>(replies: Seq<Reply<E>>)
    requires
        sequence::is_run(ResetSystem::ReadDemcr, replies),
        replies.len() > 0,
        replies[0] is Failed,
    ensures
        replies.len() == 1,
        sequence::outcome(ResetSystem::ReadDemcr, replies) == Some(
            Err::<(), _>(ArmError::Interface(replies[0]->Failed_0)),
        ),
{
}

/// A reset goes by bit 0 of the word that the register at 0xE000_EDFC reads as, whatever its other
/// bits. With the bit set, 0 is written to 0x400B_0300 and then 0xE400_0001 to 0x400B_0304, and the
/// reset is flushed and waited for. With the bit clear, the stock reset is all there is.
pub proof fn law_reset_goes_by_bit_0<E>(replies: Seq<Reply<E>>, word: u32)
    requires
        sequence::is_run(ResetSystem::ReadDemcr, replies),
        replies.len() > 0,
        replies[0] == Reply::<E>::Word(word),
    ensures
        ({
            let log = sequence::log(ResetSystem::ReadDemcr, replies);
            let outcome = sequence::outcome(ResetSystem::ReadDemcr, replies);
            let n = log.len();
            &&& n == replies.len()
            &&& log[0].action == (Action::ReadWord32 { address: 0xE000_EDFC })
            &&& n == 1 ==> outcome is None
            &&& word % 2 == 0 ==> n <= 2 && (n == 2 ==> log[1].action is CortexMResetSystem && (
            log[1].reply is Done ==> laws::succeeded(outcome)))
            &&& word % 2 == 1 && n > 1 ==> log[1].action == (Action::WriteWord32 {
                address: 0x400B_0300,
                value: 0,
            })
            &&& word % 2 == 1 && n == 2 && log[1].reply is Done ==> outcome is None
            &&& word % 2 == 1 && n > 2 ==> log[2].action == (Action::WriteWord32 {
                address: 0x400B_0304,
                value: 0xE400_0001,
            })
            &&& word % 2 == 1 && n > 3 ==> log[3].action is Flush
            &&& word % 2 == 1 && 3 <= n <= 4 ==> outcome is None
            &&& word % 2 == 1 && n > 4 ==> n == 5 && log[4].action is CortexMWaitForReset && (
            log[4].reply is Done ==> laws::succeeded(outcome))
            &&& n > 1 && log[n - 1].reply is Failed && n != 3 && n != 4 ==> outcome == Some(
                Err::<(), _>(ArmError::Interface(log[n - 1].reply->Failed_0)),
            )
        }),
{
    laws::lemma_log_follows_replies(ResetSystem::ReadDemcr, replies);
    assert((word & DEMCR_VC_CORERESET != 0) == (word % 2 == 1)) by (bit_vector);
    if reset::catch_armed(word) {
        law_caught_reset_is_sysrst(replies);
    } else {
        law_bare_reset_is_the_stock_reset(replies);
    }
}

} // verus!
