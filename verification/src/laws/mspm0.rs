//! What the sequences of a part are, and which recovery it gets.
use vstd::prelude::*;

use std::sync::Arc;

use crate::attach::{AhbApResponds, DebugPortStart, RecoverSticky};
use crate::detach::DebugCoreStop;
use crate::laws;
use crate::mailbox;
use crate::mailbox::DssmCommand;
use crate::mspm0;
use crate::mspm0::MSPM0;
use crate::registers::ApSel;
use crate::reset::ResetSystem;
use crate::unlock::{DebugDeviceUnlock, FactoryReset};

verus! {

/// The recovery variant goes by the first nine or eight characters of the name and by nothing else.
pub proof fn law_recovery_goes_by_prefix(name: Seq<char>)
    ensures
        mspm0::needs_long_recovery(name) <==> {
            ||| name.len() >= 9 && name.take(9) == seq![
                'M',
                'S',
                'P',
                'M',
                '0',
                'C',
                '1',
                '1',
                '0',
            ]
            ||| name.len() >= 8 && name.take(8) == seq!['M', 'S', 'P', 'S', '0', '0', '3', 'F']
        },
{
    reveal_strlit("MSPM0C110");
    reveal_strlit("MSPS003F");
    assert("MSPM0C110"@ == seq!['M', 'S', 'P', 'M', '0', 'C', '1', '1', '0']);
    assert("MSPS003F"@ == seq!['M', 'S', 'P', 'S', '0', '0', '3', 'F']);
    if name.len() >= 9 {
        assert(name.take(9) == name.subrange(0, 9));
    }
    if name.len() >= 8 {
        assert(name.take(8) == name.subrange(0, 8));
    }
}

/// A part that was created keeps its name, and gets the recovery that goes with it.
pub proof fn law_created_part_goes_by_its_name(name: String, mspm0: Arc<MSPM0>)
    requires
        call_ensures(MSPM0::create, (name,), mspm0),
    ensures
        mspm0.name@ == name@,
        mspm0.long_recovery <==> {
            ||| name@.len() >= 9 && name@.take(9) == seq![
                'M',
                'S',
                'P',
                'M',
                '0',
                'C',
                '1',
                '1',
                '0',
            ]
            ||| name@.len() >= 8 && name@.take(8) == seq!['M', 'S', 'P', 'S', '0', '0', '3', 'F']
        },
{
    law_recovery_goes_by_prefix(name@);
}

/// The sequences that a part hands out are those that the other laws speak of, from their beginning
/// on, with the recovery of the part and the commands of the boot ROM.
pub proof fn law_sequences_of_a_part(
    mspm0: MSPM0,
    attach: DebugPortStart,
    recover: RecoverSticky,
    poll: AhbApResponds,
    detach: DebugCoreStop,
    unlock: DebugDeviceUnlock,
    wipe: FactoryReset,
    wipe_command: DssmCommand,
    reset: ResetSystem,
)
    requires
        call_ensures(MSPM0::debug_port_start, (&mspm0,), attach),
        call_ensures(MSPM0::recover_sticky, (&mspm0,), recover),
        call_ensures(MSPM0::ahb_ap_responds, (&mspm0,), poll),
        call_ensures(MSPM0::debug_core_stop, (&mspm0,), detach),
        call_ensures(MSPM0::debug_device_unlock, (&mspm0,), unlock),
        call_ensures(MSPM0::factory_reset, (&mspm0,), wipe),
        call_ensures(MSPM0::dssm_factory_reset, (&mspm0,), wipe_command),
        call_ensures(MSPM0::reset_system, (&mspm0,), reset),
    ensures
        attach == laws::attach::attach_of(mspm0.long_recovery),
        recover == (RecoverSticky { long_recovery: mspm0.long_recovery, step: 0 }),
        poll == AhbApResponds::StartTimer,
        detach == DebugCoreStop::StopDefault,
        unlock == DebugDeviceUnlock::ReadIdr,
        wipe_command == laws::unlock::factory_reset(),
        wipe == (FactoryReset { command: laws::unlock::factory_reset() }),
        reset == ResetSystem::ReadDemcr,
{
}

/// A mailbox command is handed out with the value and the name that were asked for.
pub proof fn law_command_of_a_part(
    mspm0: MSPM0,
    command: u32,
    what: &'static str,
    sequence: DssmCommand,
)
    requires
        call_ensures(MSPM0::dssm_command, (&mspm0, command, what), sequence),
    ensures
        sequence == mailbox::unstaged(command, what),
        sequence.command == command,
        sequence.what == what,
{
}

/// The access ports have the numbers 0, 2 and 4.
pub proof fn law_access_port_numbers(ap: ApSel, index: u8)
    requires
        call_ensures(ApSel::index, (ap,), index),
    ensures
        index == if ap is Ahb {
            0u8
        } else if ap is Sec {
            2
        } else {
            4
        },
{
}

} // verus!
