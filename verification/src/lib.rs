//! Full- and low-speed USB host for a root port bit-banged by an RP PIO block.
//!
//! The crate holds every decision of the host and none of its hardware access. Each
//! operation that has to touch the hardware is a state machine: `action` names the next
//! [`io::Action`] (or its counterpart in [`frame_timer`] and [`transfer`]), the caller
//! performs it and hands the outcome to `step`. The contract of a machine is its
//! transition function `next`; what holds of whole runs is proved beside it.
//!
//! From the wire upwards: [`pid`], [`packet`] and [`reply`] say what packets mean,
//! [`frame`] keeps time, [`bus`] is the state of the port, [`transaction`],
//! [`keepalive`] and [`reset`] are what happens on it, [`hw_sof`] and [`sof_switch`] have
//! SOFs timed by hardware, [`transfer`] and [`pipe`] build transfers from transactions,
//! and [`frame_timer`] and [`embassy`] share the port between them.
//!
//! [`wire_laws`], [`port_laws`], [`transfer_laws`] and [`timer_laws`] say what all this comes
//! to in terms of packet bytes, line levels, timer readings and the caller's buffer.

pub mod bus;
pub mod clock;
pub mod debounce;
pub mod diag;
pub mod embassy;
pub mod frame;
pub mod frame_timer;
pub mod hw_sof;
pub mod io;
pub mod keepalive;
pub mod packet;
pub mod pid;
pub mod pipe;
pub mod port_laws;
pub mod regs;
pub mod reply;
pub mod reset;
pub mod reset_runs;
pub mod schedule;
pub mod settle;
pub mod sof_switch;
pub mod timer_laws;
pub mod transaction;
pub mod transaction_runs;
pub mod transfer;
pub mod transfer_laws;
pub mod transfer_runs;
pub mod wire_laws;
