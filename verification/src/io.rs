//! What a holder of the bus does to the hardware, and what it learns from it.
//!
//! A machine asks for one [`Action`] at a time; the caller performs it and answers with
//! the [`Event`] that [`answers`] names.

use crate::bus::{RxPacketStatus, Speed};
use crate::hw_sof::{DmaProgram, PwmProgram};
use crate::packet::Token;
use vstd::prelude::*;

verus! {

/// One thing to do while holding the bus.
#[derive(Clone, Copy, Debug, PartialEq, Eq)]
pub enum Action {
    /// Read the microsecond timer.
    ReadClock,
    /// Read the counter register of the frame-pacing PWM slice.
    ReadCounter,
    /// Read that counter register, then the microsecond timer.
    ReadHwTime,
    /// Read the microsecond timer, then the (inverted) input levels of D+ and D-.
    SampleLine,
    /// Publish `slot` as the slot of the latest SOF and transmit an SOF.
    TransmitSof { slot: u32, frame: u16 },
    /// Load the SOF state machine: disable it, clear its FIFOs, restart it, move it to the
    /// player's start slot and push the SOF.
    PrepareSof { frame: u16 },
    /// Transmit a low-speed keep-alive (an EOP alone).
    TransmitKeepalive,
    /// Ready the receiver, transmit the token, then the encoded data packet if `data`
    /// gives its PID, and arm the receiver for the reply.
    Transmit { token: Token, data: Option<u8> },
    /// Receive the reply into a buffer of `capacity` bytes. With `stage_ack`, first stage
    /// an ACK in the transmitter and release the bus.
    Receive { capacity: usize, stage_ack: bool },
    /// Fire the staged ACK.
    StartAck,
    /// Wait until the transmitter is done.
    AwaitTx,
    /// Write a word to the DMA abort register.
    AbortDma { word: u32 },
    /// Read the DMA abort register.
    ReadAbort,
    /// Disable the SOF state machine.
    DisableSofSm,
    /// Give the SOF state machine the transmitter's configuration, then program the DMA
    /// channel: read from a word that holds the state machine's enable bit, write to the
    /// atomic-set alias of the PIO control register.
    StartDma { dma: DmaProgram },
    /// Stop the PWM slice and write its configuration words.
    ConfigurePwm { pwm: PwmProgram },
    /// Write the counter register of the PWM slice and start it.
    StartPwm { slice: u8, word: u32 },
    /// Publish whether SOFs are paused.
    PauseSof { paused: bool },
    /// Drive SE0 on both lines.
    DriveReset,
    /// Release the reset.
    ReleaseReset,
    /// Set the speed of transmitter and receiver.
    SetSpeed { speed: Speed },
    /// Stop driving the bus.
    ReleaseBus,
    /// Sleep, keeping the bus.
    Sleep { us: u64 },
    /// Nothing left to do.
    Finished,
}

/// What an action brought.
#[derive(Clone, Copy, Debug, PartialEq, Eq)]
pub enum Event<'a> {
    /// Performed; nothing to report.
    Done,
    /// The microsecond timer.
    Clock(u32),
    /// The PWM counter register.
    Counter(u32),
    /// The PWM counter register and the microsecond timer.
    HwTime { counter: u32, now: u32 },
    /// The microsecond timer and the input levels of D+ and D-.
    Line { now: u32, dp: bool, dm: bool },
    /// The captured packet `[SYNC, PID, ...]` and how its reception ended.
    Received { packet: &'a [u8], status: RxPacketStatus },
    /// The DMA abort register.
    Aborting(u32),
}

/// Whether an event is of the kind that answers an action.
pub open spec fn answers(action: Action, event: Event) -> bool {
    match action {
        Action::ReadClock => event is Clock,
        Action::ReadCounter => event is Counter,
        Action::ReadHwTime => event is HwTime,
        Action::SampleLine => event is Line,
        Action::Receive { .. } => event is Received,
        Action::ReadAbort => event is Aborting,
        Action::Finished => false,
        _ => event is Done,
    }
}

} // verus!
