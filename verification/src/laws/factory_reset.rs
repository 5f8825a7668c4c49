//! What the factory reset command does and says.
use vstd::prelude::*;

use crate::factory_reset::{AttachArguments, Cmd, CmdAction, Run, COMPLETE};
use crate::laws;
use crate::sequence;
use crate::sequence::{Exchange, Next, Operation, Reply, Sequence};

verus! {

/// The whole course of the command: it attaches, resets, and tells the user. It fails with the
/// first of these that fails, and then says nothing; when it succeeds, it has said that the device
/// has no program on it.
pub proof fn law_command_reports_only_a_reset<E>(replies: Seq<Reply<E>>)
    requires
        sequence::is_run(Run::AttachProbe, replies),
    ensures
        ({
            let log = sequence::log(Run::AttachProbe, replies);
            let outcome = sequence::outcome(Run::AttachProbe, replies);
            &&& log.len() == replies.len() <= 3
            &&& log.len() > 0 ==> log[0].action is AttachProbe
            &&& log.len() > 1 ==> log[0].reply is Done && log[1].action is FactoryReset
            &&& log.len() > 2 ==> log[1].reply is Done && log[2].action == CmdAction::Print {
                line: COMPLETE,
            }
            &&& outcome == if log.len() > 0 && log.last().reply is Failed {
                Some(Err(log.last().reply->Failed_0))
            } else if log.len() == 3 {
                Some(Ok(()))
            } else {
                None
            }
        }),
{
    laws::lemma_log_follows_replies(Run::AttachProbe, replies);
    if replies.len() > 0 && replies[0] is Done {
        laws::lemma_first_step(Run::AttachProbe, replies, Run::FactoryReset);
        let rest = replies.drop_first();
        if rest.len() > 0 && rest[0] is Done {
            laws::lemma_first_step(Run::FactoryReset, rest, Run::Report);
        }
    }
}

/// Attaching and resetting can be done or fail, with whatever error; telling the user is done.
pub proof fn law_command_replies<E>(run: Run, reply: Reply<E>)
    ensures
        Sequence::<E>::admits(run, reply) <==> reply is Done || (reply is Failed && !(
        run is Report)),
{
}

/// The command hands its options over as they are, with nothing besides them, does not resume the
/// target, and begins with attaching.
pub proof fn law_command_attaches_with_its_options<O, A>(
    cmd: Cmd<O>,
    run: (AttachArguments<O, A>, Run),
)
    requires
        call_ensures(Cmd::<O>::run::<A>, (cmd,), run),
    ensures
        run.0.common == cmd.common,
        run.0.addition is None,
        !run.0.resume_target,
        run.1 == Run::AttachProbe,
{
}

} // verus!
