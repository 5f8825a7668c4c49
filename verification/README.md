# mspm0-probe

Debug support for TI MSPM0 devices, verified with Verus.

The AHB-AP of an MSPM0 goes away whenever the device sleeps, and some devices can only be brought
back by erasing them. What a debugger does about it is a matter of a few register accesses in the
right order, with the right reaction to each reply. This crate holds those decisions.

## Layout

- `src/` is the library.
  - `sequence.rs`: a sequence in progress names the one operation it waits for and takes the reply
    to it. Also what a whole run is: its log and its outcome.
  - `mspm0.rs`: the sequences of a part. `attach.rs`, `detach.rs`, `unlock.rs`, `reset.rs` and
    `mailbox.rs` hold them, `registers.rs` and `error.rs` what they share.
  - `laws/`: what holds of whole runs, whatever the device replies. For example, an attach resets
    the device only when the AHB-AP stayed missing, and an unlock erases nothing without permission.
  - `factory_reset.rs` and `scattered_read.rs`: the decisions of two command line tools.
- `app/` carries the actions out: on a probe, on a remote session, and on the clock.
- `tests/` run the library on scripted replies.

Nothing in the library is assumed beyond what `vstd` states of the standard library.
