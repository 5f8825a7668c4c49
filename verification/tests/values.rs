//! Register values, recovery variants, texts and address lists.
use mspm0_probe::detach::release_dprec0;
use mspm0_probe::error::ArmDebugSequenceError;
use mspm0_probe::factory_reset::COMPLETE;
use mspm0_probe::mspm0::MSPM0;
use mspm0_probe::registers::{
    ApSel, DPREC0_DEBUGPOWER, DPREC0_DEBUG_ENABLE, DPREC0_FORCEACTIVE, DPREC0_HALT_ON_RESET,
    DPREC0_RST_CTL, DPREC0_STICKY, RESETCMD_GO, RESETLEVEL_SYSRST, SYSCTL_RESETCMD,
    SYSCTL_RESETLEVEL,
};
use mspm0_probe::scattered_read::{parse_base, scattered_addresses, values_match, BaseError};
use mspm0_probe::text::{append_hex_word, starts_with};

/// The values TI's Keil packs and IAR macros write, pinned so a change to the bit definitions
/// cannot silently alter what goes on the wire.
#[test]
fn dprec0_values_match_ti_patches() {
    assert_eq!(DPREC0_DEBUG_ENABLE, 0x0019_0008);
    assert_eq!(DPREC0_DEBUG_ENABLE | DPREC0_STICKY, 0x00F9_0008);
    assert_eq!(DPREC0_FORCEACTIVE, 0x0000_0008);
}

/// A detach has to clear the whole RST CTL field, not just the bit `DPREC0_DEBUG_ENABLE` happens to
/// set, or the device is left in some other reset mode instead of the default.
#[test]
fn clearing_rst_ctl_selects_the_default_reset_mode() {
    assert_eq!(DPREC0_HALT_ON_RESET & DPREC0_RST_CTL, DPREC0_HALT_ON_RESET);
    assert_eq!(DPREC0_DEBUG_ENABLE & !DPREC0_RST_CTL, 0x0018_0008);
}

/// The SYSCTL reset command from SLAAEO5 table 6-1, pinned so the key cannot go missing.
#[test]
fn sysctl_reset_matches_ti_documentation() {
    assert_eq!(SYSCTL_RESETLEVEL, 0x400B_0300);
    assert_eq!(SYSCTL_RESETCMD, 0x400B_0304);
    assert_eq!(RESETLEVEL_SYSRST, 0);
    assert_eq!(RESETCMD_GO, 0xE400_0001);
}

#[test]
fn long_recovery_is_limited_to_c110x_and_msps003fx() {
    for name in ["MSPM0C1103", "MSPM0C1104", "MSPS003F3", "MSPS003F4"] {
        assert!(
            MSPM0::create(name.to_string()).long_recovery,
            "{name} should use the long recovery sequence"
        );
    }

    for name in ["MSPM0L1306", "MSPM0L2228", "MSPM0G3507", "MSPM0G3519"] {
        assert!(
            !MSPM0::create(name.to_string()).long_recovery,
            "{name} should use the short recovery sequence"
        );
    }
}

#[test]
fn long_recovery_needs_the_whole_prefix() {
    for name in ["", "MSPM0C11", "MSPM0C1", "mspm0c1104", "XMSPM0C110", "MSPS003"] {
        let mspm0 = MSPM0::create(name.to_string());
        assert!(!mspm0.long_recovery, "{name} should use the short recovery sequence");
        assert_eq!(mspm0.name, name);
    }
    assert!(MSPM0::create("MSPM0C110".to_string()).long_recovery);
    assert!(MSPM0::create("MSPS003F".to_string()).long_recovery);
}

#[test]
fn access_ports_are_selected_by_number() {
    assert_eq!(ApSel::Ahb.index(), 0);
    assert_eq!(ApSel::Sec.index(), 2);
    assert_eq!(ApSel::Pwr.index(), 4);
}

#[test]
fn releasing_dprec0_clears_only_what_keeps_the_device_awake() {
    assert_eq!(release_dprec0(DPREC0_DEBUG_ENABLE), DPREC0_DEBUGPOWER);
    assert_eq!(release_dprec0(0x00F9_0008), 0x00E8_0000);
    assert_eq!(release_dprec0(0xFFFF_FFFF), 0xFFEE_3FF7);
    assert_eq!(release_dprec0(0), 0);
    for value in [0x1234_5678u32, 0x0019_0008, 0xDEAD_BEEF] {
        let released = release_dprec0(value);
        assert_eq!(released & DPREC0_RST_CTL, 0);
        assert_eq!(released & DPREC0_STICKY, value & DPREC0_STICKY);
        assert_eq!(release_dprec0(released), released);
    }
}

#[test]
fn prefixes_are_found_like_std_does() {
    for text in ["", "a", "ab", "abc", "\u{e4}bc", "abcd"] {
        for prefix in ["", "a", "ab", "abc", "b", "\u{e4}", "\u{e4}b"] {
            assert_eq!(starts_with(text, prefix), text.starts_with(prefix));
        }
    }
}

#[test]
fn words_are_printed_as_eight_hexadecimal_digits() {
    for word in [0u32, 1, 0xF, 0x10, 0x0001_0003, 0xDEAD_BEEF, u32::MAX] {
        let mut text = String::from("word ");
        append_hex_word(&mut text, word);
        assert_eq!(text, format!("word {word:#010x}"));
    }
}

#[test]
fn mailbox_errors_say_what_happened() {
    let error = ArmDebugSequenceError::NoAnswer { what: "mass erase" };
    assert_eq!(error.message(), "MSPM0: the boot ROM did not answer the mass erase command");

    let error =
        ArmDebugSequenceError::Rejected { what: "factory reset", response: 0x2, echoed: 0xAB };
    assert_eq!(
        error.message(),
        "MSPM0: factory reset rejected, RXDATA 0x00000002 RXCTL 0x000000ab"
    );
}

#[test]
fn completion_says_that_the_device_is_blank() {
    assert_eq!(
        COMPLETE,
        "Factory reset complete. The device has no program on it — flash one before \
         disconnecting, or it may not be reachable again."
    );
}

#[test]
fn base_addresses_are_hexadecimal() {
    assert_eq!(parse_base("0x20000000"), Ok(0x2000_0000));
    assert_eq!(parse_base("20000000"), Ok(0x2000_0000));
    assert_eq!(parse_base("0x0x10"), Ok(0x10));
    assert_eq!(parse_base("+aF"), Ok(0xAF));
    assert_eq!(parse_base("ffffffffffffffff"), Ok(u64::MAX));
    assert_eq!(parse_base("0"), Ok(0));
    assert_eq!(parse_base(""), Err(BaseError::Empty));
    assert_eq!(parse_base("0x"), Err(BaseError::Empty));
    assert_eq!(parse_base("+"), Err(BaseError::InvalidDigit));
    assert_eq!(parse_base("-1"), Err(BaseError::InvalidDigit));
    assert_eq!(parse_base("0X10"), Err(BaseError::InvalidDigit));
    assert_eq!(parse_base("12g4"), Err(BaseError::InvalidDigit));
    assert_eq!(parse_base("10000000000000000"), Err(BaseError::PosOverflow));
    assert_eq!(parse_base("1000000000000000000g"), Err(BaseError::PosOverflow));
    assert_eq!(parse_base("1000000000000000g"), Err(BaseError::InvalidDigit));
}

#[test]
fn base_addresses_are_read_like_std_reads_them() {
    let texts = [
        "0x20000000", "0x0x1", "x1", "0x", "", "+", "-", "++1", "+0x1", "0x+1", "00x1", "1 ", " 1",
        "1_0", "\u{661}", "\u{e4}", "abcdefABCDEF", "0fffffffffffffffff", "1fffffffffffffffff",
        "00000000000000000000000001", "ffffffffffffffffg", "fffffffffffffffffg", "8000000000000000",
    ];
    for text in texts {
        let expected = u64::from_str_radix(text.trim_start_matches("0x"), 16);
        match (parse_base(text), expected) {
            (Ok(base), Ok(value)) => assert_eq!(base, value),
            (Err(error), Err(reason)) => assert_eq!(format!("{error:?}"), format!("{:?}", reason.kind())),
            (base, expected) => panic!("{text:?} was read as {base:?}, not {expected:?}"),
        }
    }
}

#[test]
fn a_prefix_makes_no_difference_to_a_base_address() {
    for text in ["", "1", "+1", "g", "0x2", "10000000000000000"] {
        assert_eq!(parse_base(&format!("0x{text}")), parse_base(text));
    }
}

#[test]
fn addresses_are_a_stride_apart() {
    assert_eq!(scattered_addresses(0x2000_0000, 0), Vec::<u64>::new());
    assert_eq!(
        scattered_addresses(0x2000_0000, 4),
        vec![0x2000_0000, 0x2000_0040, 0x2000_0080, 0x2000_00C0]
    );
    assert_eq!(scattered_addresses(u64::MAX - 64, 2), vec![u64::MAX - 64, u64::MAX]);
    let addresses = scattered_addresses(7, 40);
    assert_eq!(addresses.len(), 40);
    assert!(addresses.windows(2).all(|pair| pair[1] - pair[0] == 64));
}

#[test]
fn values_match_only_when_all_do() {
    assert!(values_match(&vec![], &vec![]));
    assert!(values_match(&vec![1, 2, 3], &vec![1, 2, 3]));
    assert!(!values_match(&vec![1, 2, 3], &vec![1, 2, 4]));
    assert!(!values_match(&vec![1, 2], &vec![1, 2, 3]));
    assert!(!values_match(&vec![1, 2, 3], &vec![1, 2]));
}
