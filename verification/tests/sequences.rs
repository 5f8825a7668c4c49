//! The sequences, carried through on scripted replies.
use mspm0_probe::attach::{read_dprec0, write_dprec0, write_sprec};
use mspm0_probe::error::{ArmDebugSequenceError, ArmError};
use mspm0_probe::factory_reset::{Cmd, CmdAction, COMPLETE};
use mspm0_probe::mspm0::MSPM0;
use mspm0_probe::registers::ApSel;
use mspm0_probe::sequence::{AccessPort, Action, Next, Operation, Pins, Reply, Sequence};
use std::sync::Arc;

const MILLI: u128 = 1_000_000;

fn short() -> Arc<MSPM0> {
    MSPM0::create("MSPM0G3507".to_string())
}

fn long() -> Arc<MSPM0> {
    MSPM0::create("MSPM0C1104".to_string())
}

/// Carries `sequence` through, with the replies that `perform` gives. The result is `None` where
/// `perform` stops giving any.
fn drive<S, F>(mut sequence: S, mut perform: F) -> (Vec<Action>, Option<S::Output>)
where
    S: Sequence<&'static str, Action = Action>,
    F: FnMut(usize, Action) -> Option<Reply<&'static str>>,
{
    let mut actions = Vec::new();
    loop {
        let action = sequence.action();
        let reply = match perform(actions.len(), action) {
            Some(reply) => reply,
            None => return (actions, None),
        };
        assert!(action.accepts(&reply), "{reply:?} is no reply to {action:?}");
        actions.push(action);
        match sequence.next(reply) {
            Next::Continue(rest) => sequence = rest,
            Next::Finish(output) => return (actions, Some(output)),
        }
    }
}

/// The reply of a device on which everything works and every word is zero.
fn fine(action: Action) -> Reply<&'static str> {
    match action {
        Action::ReadIdr { .. } | Action::ReadRawApRegister { .. } | Action::ReadWord32 { .. } => {
            Reply::Word(0)
        }
        Action::ReadTimer => Reply::Elapsed { nanos: 0 },
        _ => Reply::Done,
    }
}

fn ahb_idr() -> Action {
    Action::ReadIdr { port: AccessPort::Selected(ApSel::Ahb) }
}

fn sec_write(register: u64, value: u32) -> Action {
    Action::WriteRawApRegister { ap: ApSel::Sec, register, value }
}

fn sec_read(register: u64) -> Action {
    Action::ReadRawApRegister { ap: ApSel::Sec, register }
}

fn pins(out: bool) -> Action {
    Action::SwjPins { out: Pins { nreset: out }, select: Pins { nreset: true }, wait: 0 }
}

#[test]
fn power_registers_are_reached_through_the_pwr_ap() {
    let ap = ApSel::Pwr;
    assert_eq!(read_dprec0(), Action::ReadRawApRegister { ap, register: 0x00 });
    assert_eq!(write_dprec0(5), Action::WriteRawApRegister { ap, register: 0x00, value: 5 });
    assert_eq!(write_sprec(7), Action::WriteRawApRegister { ap, register: 0xF0, value: 7 });
}

#[test]
fn attach_enables_an_awake_device() {
    let (actions, result) = drive(short().debug_port_start(), |_, action| Some(fine(action)));
    assert_eq!(
        actions,
        vec![Action::DebugPortStartDefault, read_dprec0(), write_dprec0(0x0019_0008)]
    );
    assert!(matches!(result, Some(Ok(()))));
}

#[test]
fn attach_does_not_reset_a_device_that_wakes_up() {
    // The access port is missing twice, once with an error, before it comes back.
    let mut looks = 0;
    let (actions, result) = drive(short().debug_port_start(), |_, action| {
        Some(match action {
            Action::ReadRawApRegister { .. } => Reply::Word(0x0020_0000),
            Action::ReadIdr { .. } => {
                looks += 1;
                match looks {
                    1 => Reply::Failed("no acknowledge"),
                    2 => Reply::Word(0),
                    _ => Reply::Word(0x0477_0031),
                }
            }
            Action::ReadTimer => Reply::Elapsed { nanos: 10 * MILLI },
            action => fine(action),
        })
    });
    assert_eq!(
        actions,
        vec![
            Action::DebugPortStartDefault,
            read_dprec0(),
            write_dprec0(0x00F9_0008),
            Action::StartTimer,
            ahb_idr(),
            Action::ReadTimer,
            Action::Sleep { millis: 1 },
            ahb_idr(),
            Action::ReadTimer,
            Action::Sleep { millis: 1 },
            ahb_idr(),
        ]
    );
    assert!(matches!(result, Some(Ok(()))));
}

/// The replies of a device whose sticky bits are set and whose AHB-AP stays missing.
fn missing(action: Action) -> Reply<&'static str> {
    match action {
        Action::ReadRawApRegister { .. } => Reply::Word(0x0080_0000),
        Action::ReadIdr { .. } => Reply::Failed("no acknowledge"),
        Action::ReadTimer => Reply::Elapsed { nanos: 10 * MILLI + 1 },
        action => fine(action),
    }
}

#[test]
fn attach_recovers_a_device_whose_ahb_ap_stays_missing() {
    let beginning = vec![
        Action::DebugPortStartDefault,
        read_dprec0(),
        write_dprec0(0x00F9_0008),
        Action::StartTimer,
        ahb_idr(),
        Action::ReadTimer,
    ];

    let (actions, result) = drive(short().debug_port_start(), |_, action| Some(missing(action)));
    let mut expected = beginning.clone();
    expected.extend(vec![write_sprec(1), write_dprec0(0x00F9_0008), read_dprec0()]);
    assert_eq!(actions, expected);
    assert!(matches!(result, Some(Ok(()))));

    let (actions, result) = drive(long().debug_port_start(), |_, action| Some(missing(action)));
    let mut expected = beginning;
    expected.extend(vec![
        write_sprec(1),
        read_dprec0(),
        write_dprec0(0x0000_0008),
        read_dprec0(),
        write_dprec0(0x00F9_0008),
        read_dprec0(),
        write_sprec(1),
        write_dprec0(0x0019_0008),
        read_dprec0(),
    ]);
    assert_eq!(actions, expected);
    assert!(matches!(result, Some(Ok(()))));
}

#[test]
fn attach_fails_with_the_first_operation_that_fails() {
    // Every operation of the long recovery, but for the look for the AHB-AP.
    for failing in (0..15).filter(|&at| at != 3 && at != 4 && at != 5) {
        let (actions, result) = drive(long().debug_port_start(), |at, action| {
            Some(if at == failing { Reply::Failed("probe") } else { missing(action) })
        });
        assert_eq!(actions.len(), failing + 1);
        assert!(matches!(result, Some(Err(ArmError::Interface("probe")))));
    }
}

#[test]
fn recovery_is_that_of_the_part() {
    let (actions, result) = drive(short().recover_sticky(), |_, action| Some(fine(action)));
    assert_eq!(actions, vec![write_sprec(1), write_dprec0(0x00F9_0008), read_dprec0()]);
    assert!(matches!(result, Some(Ok(()))));

    let (actions, _) = drive(long().recover_sticky(), |_, action| Some(fine(action)));
    assert_eq!(actions.len(), 9);
}

#[test]
fn ahb_ap_poll_gives_up_after_its_time() {
    // A clock that advances by what is slept and nothing else.
    let mut slept = 0;
    let (actions, responds) = drive(short().ahb_ap_responds(), |_, action| {
        Some(match action {
            Action::Sleep { millis } => {
                slept += u128::from(millis);
                Reply::Done
            }
            Action::ReadTimer => Reply::Elapsed { nanos: slept * MILLI },
            action => fine(action),
        })
    });
    assert_eq!(responds, Some(false));
    assert_eq!(actions.len(), 36);

    let (actions, responds) = drive(short().ahb_ap_responds(), |_, action| {
        Some(match action {
            Action::ReadIdr { .. } => Reply::Word(1),
            action => fine(action),
        })
    });
    assert_eq!(responds, Some(true));
    assert_eq!(actions, vec![Action::StartTimer, ahb_idr()]);
}

#[test]
fn detach_restores_dprec0_last() {
    let (actions, result) = drive(short().debug_core_stop(), |_, action| {
        Some(match action {
            Action::ReadRawApRegister { .. } => Reply::Word(0x00F9_C008),
            action => fine(action),
        })
    });
    assert_eq!(
        actions,
        vec![
            Action::DebugCoreStopDefault,
            Action::GetArmDebugInterface,
            read_dprec0(),
            write_dprec0(0x00E8_0000),
        ]
    );
    assert!(matches!(result, Some(Ok(()))));
}

#[test]
fn detach_fails_with_the_first_operation_that_fails() {
    for failing in 0..4 {
        let (actions, result) = drive(short().debug_core_stop(), |at, action| {
            Some(if at == failing { Reply::Failed("probe") } else { fine(action) })
        });
        assert_eq!(actions.len(), failing + 1);
        assert!(matches!(result, Some(Err(ArmError::Interface("probe")))));
    }
}

/// The staging part of a mailbox command.
fn staging(command: u32) -> Vec<Action> {
    vec![
        sec_write(0x04, command),
        sec_write(0x00, 0),
        sec_read(0x08),
        sec_read(0x0C),
        Action::Flush,
        Action::Sleep { millis: 500 },
        pins(false),
        Action::Sleep { millis: 50 },
        pins(true),
        Action::StartTimer,
    ]
}

/// The replies of a boot ROM that answers the second poll with `response` and `echoed`. The
/// operations before the answer, of which the first has number `offset`, work.
fn rom(offset: usize, at: usize, action: Action, response: u32, echoed: u32) -> Reply<&'static str> {
    match at - offset {
        13 => Reply::Word(1),
        14 => Reply::Word(response),
        15 => Reply::Word(echoed),
        _ => fine(action),
    }
}

#[test]
fn mailbox_command_is_staged_and_answered() {
    let (actions, result) = drive(short().dssm_factory_reset(), |at, action| {
        Some(rom(0, at, action, 0x0001_0003, 0x0A))
    });
    let mut expected = staging(0x020A);
    expected.extend(vec![
        sec_read(0x0C),
        Action::ReadTimer,
        Action::Sleep { millis: 1 },
        sec_read(0x0C),
        sec_read(0x08),
        sec_read(0x0C),
    ]);
    assert_eq!(actions, expected);
    assert!(matches!(result, Some(Ok(()))));
}

#[test]
fn mailbox_command_is_rejected() {
    for (response, echoed) in [(0x0001_0002, 0x0A), (0x0001_0003, 0x0C), (0x0001_0003, 0x020A)] {
        let (_, result) = drive(short().dssm_factory_reset(), |at, action| {
            Some(rom(0, at, action, response, echoed))
        });
        match result {
            Some(Err(ArmError::DebugSequence(ArmDebugSequenceError::Rejected {
                what,
                response: said,
                echoed: echo,
            }))) => {
                assert_eq!(what, "factory reset");
                assert_eq!((said, echo), (response, echoed));
            }
            result => panic!("{result:?}"),
        }
    }
}

#[test]
fn mailbox_command_is_not_answered() {
    let mut slept = 0;
    let (actions, result) = drive(short().dssm_command(0x1234, "unlock"), |_, action| {
        Some(match action {
            Action::StartTimer => {
                slept = 0;
                Reply::Done
            }
            Action::Sleep { millis } => {
                slept += u128::from(millis);
                Reply::Done
            }
            Action::ReadTimer => Reply::Elapsed { nanos: slept * MILLI },
            // An even word has no answer in it, and a failed read has none either.
            Action::ReadRawApRegister { .. } if slept % 2 == 0 => Reply::Word(0xFFFF_FFFE),
            Action::ReadRawApRegister { .. } => Reply::Failed("no acknowledge"),
            action => fine(action),
        })
    });
    assert_eq!(actions.len(), 10 + 3 * 2001 + 2);
    match result {
        Some(Err(ArmError::DebugSequence(error))) => {
            assert_eq!(error.message(), "MSPM0: the boot ROM did not answer the unlock command");
        }
        result => panic!("{result:?}"),
    }
}

#[test]
fn mailbox_command_waits_for_two_seconds() {
    // Not a moment too early.
    let (actions, result) = drive(short().dssm_factory_reset(), |at, action| match action {
        _ if at == 20 => None,
        Action::ReadTimer => Some(Reply::Elapsed { nanos: 2000 * MILLI }),
        action => Some(fine(action)),
    });
    assert_eq!(actions.len(), 20);
    assert!(result.is_none());

    let (actions, result) = drive(short().dssm_factory_reset(), |_, action| match action {
        Action::ReadTimer => Some(Reply::Elapsed { nanos: 2000 * MILLI + 1 }),
        action => Some(fine(action)),
    });
    assert_eq!(actions.len(), 12);
    assert!(matches!(
        result,
        Some(Err(ArmError::DebugSequence(ArmDebugSequenceError::NoAnswer { what: "factory reset" })))
    ));
}

#[test]
fn mailbox_command_minds_only_some_failures() {
    // The poll that finds the answer is left out: it would have to find it again.
    for failing in (0..16).filter(|&at| at != 13) {
        let (actions, result) = drive(short().dssm_factory_reset(), |at, action| {
            let clock = matches!(
                action,
                Action::Sleep { .. } | Action::StartTimer | Action::ReadTimer
            );
            Some(if at == failing && !clock {
                Reply::Failed("probe")
            } else {
                rom(0, at, action, 0x0001_0003, 0x0A)
            })
        });
        if [0, 1, 6, 8, 14, 15].contains(&failing) {
            assert_eq!(actions.len(), failing + 1);
            assert!(matches!(result, Some(Err(ArmError::Interface("probe")))));
        } else {
            assert!(matches!(result, Some(Ok(()))), "operation {failing}");
        }
    }
}

#[test]
fn unlock_leaves_a_reachable_device_alone() {
    let (actions, result) = drive(short().debug_device_unlock(), |_, action| {
        Some(match action {
            Action::ReadIdr { .. } => Reply::Word(0x0477_0031),
            action => fine(action),
        })
    });
    assert_eq!(actions, vec![Action::ReadIdr { port: AccessPort::Default }]);
    assert!(matches!(result, Some(Ok(()))));
}

#[test]
fn unlock_needs_permission_to_erase() {
    for idr in [Reply::Word(0), Reply::Failed("no acknowledge")] {
        let mut idr = Some(idr);
        let (actions, result) = drive(short().debug_device_unlock(), |_, action| {
            Some(match action {
                Action::ReadIdr { .. } => idr.take().unwrap(),
                Action::CheckEraseAll => Reply::MissingPermissions("erase_all".to_string()),
                action => fine(action),
            })
        });
        assert_eq!(
            actions,
            vec![Action::ReadIdr { port: AccessPort::Default }, Action::CheckEraseAll]
        );
        match result {
            Some(Err(ArmError::MissingPermissions(permission))) => {
                assert_eq!(permission, "erase_all");
            }
            result => panic!("{result:?}"),
        }
    }
}

#[test]
fn unlock_erases_and_demands_to_attach_anew() {
    let (actions, result) = drive(short().debug_device_unlock(), |at, action| {
        Some(if at < 2 { fine(action) } else { rom(2, at, action, 0x0001_0003, 0x0C) })
    });
    assert_eq!(actions[2..12].to_vec(), staging(0x020C));
    assert_eq!(actions.len(), 18);
    assert!(matches!(result, Some(Err(ArmError::ReAttachRequired))));

    let (_, result) = drive(short().debug_device_unlock(), |at, action| {
        Some(if at < 2 { fine(action) } else { rom(2, at, action, 0, 0x0C) })
    });
    match result {
        Some(Err(ArmError::DebugSequence(error))) => assert_eq!(
            error.message(),
            "MSPM0: mass erase rejected, RXDATA 0x00000000 RXCTL 0x0000000c"
        ),
        result => panic!("{result:?}"),
    }
}

#[test]
fn factory_reset_demands_to_attach_anew() {
    let (actions, result) = drive(short().factory_reset(), |at, action| {
        Some(rom(0, at, action, 0x0001_0003, 0x0A))
    });
    assert_eq!(actions[..10].to_vec(), staging(0x020A));
    assert!(matches!(result, Some(Err(ArmError::ReAttachRequired))));

    let (actions, result) = drive(short().factory_reset(), |_, _| Some(Reply::Failed("probe")));
    assert_eq!(actions.len(), 1);
    assert!(matches!(result, Some(Err(ArmError::Interface("probe")))));
}

#[test]
fn bare_reset_is_the_stock_reset() {
    let (actions, result) = drive(short().reset_system(), |_, action| {
        Some(match action {
            Action::ReadWord32 { .. } => Reply::Word(0xFFFF_FFFE),
            action => fine(action),
        })
    });
    assert_eq!(
        actions,
        vec![Action::ReadWord32 { address: 0xE000_EDFC }, Action::CortexMResetSystem]
    );
    assert!(matches!(result, Some(Ok(()))));
}

#[test]
fn caught_reset_goes_through_sysctl() {
    let expected = vec![
        Action::ReadWord32 { address: 0xE000_EDFC },
        Action::WriteWord32 { address: 0x400B_0300, value: 0 },
        Action::WriteWord32 { address: 0x400B_0304, value: 0xE400_0001 },
        Action::Flush,
        Action::CortexMWaitForReset,
    ];
    for failing in [None, Some(0), Some(1), Some(2), Some(3), Some(4)] {
        let (actions, result) = drive(short().reset_system(), |at, action| {
            Some(match action {
                _ if failing == Some(at) => Reply::Failed("probe"),
                Action::ReadWord32 { .. } => Reply::Word(0x0100_0001),
                action => fine(action),
            })
        });
        match failing {
            // The device resets while the command is still in flight.
            None | Some(2) | Some(3) => {
                assert_eq!(actions, expected);
                assert!(matches!(result, Some(Ok(()))));
            }
            Some(at) => {
                assert_eq!(actions, expected[..at + 1].to_vec());
                assert!(matches!(result, Some(Err(ArmError::Interface("probe")))));
            }
        }
    }
}

#[test]
fn only_fitting_replies_are_accepted() {
    let read = Action::ReadWord32 { address: 0 };
    assert!(read.accepts(&Reply::<()>::Word(0)));
    assert!(read.accepts(&Reply::Failed(())));
    assert!(!read.accepts(&Reply::<()>::Done));
    assert!(!Action::Flush.accepts(&Reply::<()>::Word(0)));
    assert!(!Action::StartTimer.accepts(&Reply::Failed(())));
    assert!(Action::ReadTimer.accepts(&Reply::<()>::Elapsed { nanos: 0 }));
    assert!(!Action::ReadTimer.accepts(&Reply::<()>::Done));
    assert!(Action::CheckEraseAll.accepts(&Reply::<()>::MissingPermissions(String::new())));
    assert!(!Action::CheckEraseAll.accepts(&Reply::Failed(())));
}

/// Runs the factory reset command, failing at one operation, and gives what was printed.
fn run_command(failing: Option<usize>) -> (usize, Vec<&'static str>, Result<(), &'static str>) {
    let (arguments, mut run) = Cmd { common: 42 }.run::<()>();
    assert_eq!(arguments.common, 42);
    assert!(arguments.addition.is_none());
    assert!(!arguments.resume_target);
    let mut printed = Vec::new();
    let mut at = 0;
    loop {
        let action = run.action();
        if let CmdAction::Print { line } = action {
            printed.push(line);
        }
        assert_eq!(at == 0, matches!(action, CmdAction::AttachProbe));
        assert_eq!(at == 1, matches!(action, CmdAction::FactoryReset));
        let reply = if failing == Some(at) { Reply::Failed("refused") } else { Reply::Done };
        at += 1;
        match run.next(reply) {
            Next::Continue(rest) => run = rest,
            Next::Finish(result) => return (at, printed, result),
        }
    }
}

#[test]
fn command_reports_only_a_reset_that_happened() {
    assert_eq!(run_command(None), (3, vec![COMPLETE], Ok(())));
    assert_eq!(run_command(Some(0)), (1, vec![], Err("refused")));
    assert_eq!(run_command(Some(1)), (2, vec![], Err("refused")));
}
