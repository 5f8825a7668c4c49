//! Debug support for TI MSPM0 devices.
//!
//! [`mspm0::MSPM0`] holds the debug sequences of a part: attaching, detaching, unlocking, factory
//! reset and reset. Each is a machine that says which operation it needs next and decides what
//! follows from the reply; [`sequence`] has the common ground. [`laws`] states, and proves, what
//! whole runs of them do to a device.
//!
//! [`factory_reset`] and [`scattered_read`] hold what two command line tools have to decide.

pub mod attach;
pub mod detach;
pub mod error;
pub mod factory_reset;
pub mod laws;
pub mod mailbox;
pub mod mspm0;
pub mod registers;
pub mod reset;
pub mod scattered_read;
pub mod sequence;
pub mod text;
pub mod unlock;
