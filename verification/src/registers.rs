//! Registers of the MSPM0 debug subsystem.
//!
//! The values come from the low-power-mode patches that TI ships in the MSPM0 SDK, and from the
//! "Hardware Programming and Debugger Guide for MSPM0" (SLAAEO5).
use vstd::prelude::*;

verus! {

/// Access Port Select values of the device.
#[derive(Debug, Clone, Copy, PartialEq, Eq, Structural)]
pub enum ApSel {
    /// AHB-AP: memory access to the core. It lives in power domain PD1, so it is missing while the
    /// device is in a low-power state.
    Ahb,
    /// SEC-AP: the mailbox the boot ROM services, used to recover an inaccessible device.
    Sec,
    /// PWR-AP: controls the power and reset state of the CPU for debug purposes.
    Pwr,
}

impl ApSel {
    /// The number that selects the access port on the default debug port.
    pub open spec fn spec_index(self) -> u8 {
        match self {
            ApSel::Ahb => 0,
            ApSel::Sec => 2,
            ApSel::Pwr => 4,
        }
    }

    /// The number that selects the access port on the default debug port.
    pub fn index(self) -> (index: u8)
        ensures
            index == self.spec_index(),
    {
        match self {
            ApSel::Ahb => 0,
            ApSel::Sec => 2,
            ApSel::Pwr => 4,
        }
    }
}

/// Debug power and reset control register, PWR-AP register bank 0.
pub const DPREC0: u64 = 0x00;

/// System power and reset control register, PWR-AP register bank 15.
///
/// The access port bank follows from the register address, so this is a plain offset.
pub const SPREC: u64 = 0xF0;

/// `DPREC0.FORCEACTIVE`: force the device out of a low-power state.
pub const DPREC0_FORCEACTIVE: u32 = 1 << 3;

/// `DPREC0.RST CTL` (bits 16:14) set to `100b`, selecting halt-on-reset.
pub const DPREC0_HALT_ON_RESET: u32 = 0b100 << 14;

/// The whole `DPREC0.RST CTL` field. Its default is `000b` (SLAAEO5 table 3-2).
pub const DPREC0_RST_CTL: u32 = 0b111 << 14;

/// `DPREC0.DEBUGPOWER`.
///
/// Documented as Reserved in SLAAEO5 table 3-3, but set by both of TI's toolchain patches.
pub const DPREC0_DEBUGPOWER: u32 = 1 << 19;

/// `DPREC0.INHIBITSLEEP`: refuse requests to enter DEEPSLEEP.
pub const DPREC0_INHIBITSLEEP: u32 = 1 << 20;

/// Bits 23:21 of `DPREC0`.
///
/// Undocumented. TI's patches call these the "sticky" bits and take a recovery path when any of
/// them is set.
pub const DPREC0_STICKY: u32 = 0x00E0_0000;

/// The steady-state value TI's patches write to `DPREC0`.
pub const DPREC0_DEBUG_ENABLE: u32 = DPREC0_FORCEACTIVE | DPREC0_HALT_ON_RESET | DPREC0_DEBUGPOWER
    | DPREC0_INHIBITSLEEP;

/// `SPREC.SYS RST`.
pub const SPREC_SYS_RST: u32 = 1 << 0;

/// SEC-AP `TXDATA`, the word passed alongside a mailbox command.
pub const TXDATA: u64 = 0x00;

/// SEC-AP `TXCTL`. The command goes here as-is; bit 0 is `TXVLD`, which the ROM drives.
pub const TXCTL: u64 = 0x04;

/// SEC-AP `RXDATA`, the boot ROM's answer.
pub const RXDATA: u64 = 0x08;

/// SEC-AP `RXCTL`. Bit 0 is `RXVLD`, and reading `RXDATA` clears it.
pub const RXCTL: u64 = 0x0C;

/// `RXCTL.RXVLD`.
pub const RXCTL_RX_VALID: u32 = 1 << 0;

/// DSSM "Mass Erase": erases MAIN and leaves NONMAIN, and so the debug access policy, alone.
///
/// The alternative, "Factory Reset", also erases NONMAIN and restores TI's defaults. That is a
/// bigger hammer than an unreachable AHB-AP warrants.
pub const DSSM_MASS_ERASE: u32 = 0x020C;

/// DSSM "Factory Reset": erases MAIN *and* NONMAIN and repopulates NONMAIN with TI's defaults.
///
/// The only documented way back from a NONMAIN the boot code cannot validate. A bad `userCfgCRC`
/// leaves the ROM refusing to start the application, enable debug, or invoke the BSL, and it
/// honours a pending factory reset because it pattern-matches that field rather than trusting the
/// structure it could not check (SLAU847 1.4.1.1).
pub const DSSM_FACTORY_RESET: u32 = 0x020A;

/// What the boot ROM leaves in `RXDATA` when it has serviced a command.
pub const DSSM_RESPONSE_OK: u32 = 0x0001_0003;

/// `SYSCTL.RESETLEVEL`: selects the level of the next software-triggered reset.
pub const SYSCTL_RESETLEVEL: u64 = 0x400B_0300;

/// `SYSCTL.RESETCMD`: executes the reset selected by `RESETLEVEL`.
pub const SYSCTL_RESETCMD: u64 = 0x400B_0304;

/// `RESETLEVEL.LEVEL` = 0: SYSRST, resetting the CPU and the peripherals.
///
/// Level 1 (BOOTRST) would additionally run the boot configuration routine, which parks a blank
/// device in STANDBY0.
pub const RESETLEVEL_SYSRST: u32 = 0;

/// `RESETCMD.GO` together with the `RESETCMD.KEY` value of `0xE4` it has to be written with.
pub const RESETCMD_GO: u32 = 0xE400_0001;

/// The Debug Exception and Monitor Control Register of a Cortex-M.
pub const DEMCR: u64 = 0xE000_EDFC;

/// `DEMCR.VC_CORERESET`: halt the core when it comes out of reset.
pub const DEMCR_VC_CORERESET: u32 = 1 << 0;

} // verus!
