//! Switching the hardware SOF on and off.
//!
//! Stopping aborts the DMA channel, waits until its transfers have drained and disables
//! the SOF state machine. Starting does the same first, then programs the DMA channel and
//! prepares the first SOF.

use crate::bus::{Bus, Speed};
use crate::hw_sof::{DmaProgram, PwmProgram};
use crate::io::{answers, Action, Event};
use crate::packet::{frame_number, frame_number_spec};
use vstd::prelude::*;

verus! {

/// Where a switch stands.
#[derive(Clone, Copy, Debug, PartialEq, Eq)]
pub enum Phase {
    /// Aborting the DMA channel.
    Aborting { word: u32 },
    /// Waiting for its transfers to drain.
    Draining,
    /// Disabling the state machine.
    Disabling,
    /// Starting the DMA channel.
    Starting { dma: DmaProgram },
    /// Deciding whether to prepare the next SOF.
    Service,
    /// Preparing it.
    Preparing { slot: u32 },
    /// Done.
    Finished,
}

/// One switch of the hardware SOF.
#[derive(Clone, Copy, Debug, PartialEq, Eq)]
pub struct SofSwitch {
    /// Whether SOFs are to be sent afterwards.
    pub on: bool,
    /// Where it stands.
    pub phase: Phase,
}

impl SofSwitch {
    /// A switch on a bus; there is nothing to do without a hardware SOF.
    pub open spec fn begun(bus: Bus, on: bool) -> SofSwitch {
        SofSwitch {
            on,
            phase: match bus.hw_sof {
                Some(hw) => Phase::Aborting { word: hw.abort_bit() },
                None => Phase::Finished,
            },
        }
    }

    /// The action that the switch is waiting for.
    pub open spec fn asks(self) -> Action {
        match self.phase {
            Phase::Aborting { word } => Action::AbortDma { word },
            Phase::Draining => Action::ReadAbort,
            Phase::Disabling => Action::DisableSofSm,
            Phase::Starting { dma } => Action::StartDma { dma },
            Phase::Service => Action::ReadHwTime,
            Phase::Preparing { slot } => Action::PrepareSof { frame: frame_number_spec(slot) },
            Phase::Finished => Action::Finished,
        }
    }

    /// The switch after an event.
    pub open spec fn next(self, bus: Bus, event: Event) -> SofSwitch {
        let phase = match (self.phase, event) {
            (Phase::Aborting { .. }, Event::Done) => Phase::Draining,
            (Phase::Draining, Event::Aborting(word)) => match bus.hw_sof {
                Some(hw) if word & hw.abort_bit() != 0 => Phase::Draining,
                _ => Phase::Disabling,
            },
            (Phase::Disabling, Event::Done) => match bus.hw_sof {
                Some(hw) if self.on => Phase::Starting { dma: hw.dma_words() },
                _ => Phase::Finished,
            },
            (Phase::Starting { .. }, Event::Done) => Phase::Service,
            (Phase::Service, Event::HwTime { counter, now }) => match bus.sof_service_due(
                counter,
                now,
            ) {
                Some(slot) => Phase::Preparing { slot },
                None => Phase::Finished,
            },
            (Phase::Preparing { .. }, Event::Done) => Phase::Finished,
            _ => self.phase,
        };
        SofSwitch { phase, ..self }
    }

    /// The bus after an event.
    pub open spec fn next_bus(self, bus: Bus, event: Event) -> Bus {
        match (self.phase, event) {
            (Phase::Disabling, Event::Done) => bus.sof_switched(self.on),
            (Phase::Service, Event::HwTime { counter, now }) => bus.sof_serviced(counter, now),
            _ => bus,
        }
    }

    /// Whether the bus is in a state for this switch: SOFs are sent at full speed only.
    pub open spec fn allowed(self, bus: Bus) -> bool {
        self.on ==> bus.speed == Speed::Full
    }

    /// Begin a switch.
    pub fn start(bus: &Bus, on: bool) -> (s: SofSwitch)
        requires
            bus.wf(),
        ensures
            s == SofSwitch::begun(*bus, on),
    {
        let phase = match &bus.hw_sof {
            Some(hw) => Phase::Aborting { word: hw.abort_word() },
            None => Phase::Finished,
        };
        SofSwitch { on, phase }
    }

    /// The action to perform next.
    pub fn action(&self) -> (action: Action)
        ensures
            action == self.asks(),
    {
        match self.phase {
            Phase::Aborting { word } => Action::AbortDma { word },
            Phase::Draining => Action::ReadAbort,
            Phase::Disabling => Action::DisableSofSm,
            Phase::Starting { dma } => Action::StartDma { dma },
            Phase::Service => Action::ReadHwTime,
            Phase::Preparing { slot } => Action::PrepareSof { frame: frame_number(slot) },
            Phase::Finished => Action::Finished,
        }
    }

    /// Take in what the action brought.
    pub fn step(&mut self, bus: &mut Bus, event: Event)
        requires
            old(bus).wf(),
            old(self).allowed(*old(bus)),
            answers(old(self).asks(), event),
            old(bus).counter_readable(event),
        ensures
            *final(self) == old(self).next(*old(bus), event),
            *final(bus) == old(self).next_bus(*old(bus), event),
            final(bus).wf(),
            final(self).allowed(*final(bus)),
    {
        match (self.phase, event) {
            (Phase::Aborting { .. }, Event::Done) => {
                self.phase = Phase::Draining;
            },
            (Phase::Draining, Event::Aborting(word)) => {
                let pending = match &bus.hw_sof {
                    Some(hw) => hw.abort_pending(word),
                    None => false,
                };
                if !pending {
                    self.phase = Phase::Disabling;
                }
            },
            (Phase::Disabling, Event::Done) => {
                self.phase =
                match bus.hw_sof_arm(self.on) {
                    Some(dma) => Phase::Starting { dma },
                    None => Phase::Finished,
                };
            },
            (Phase::Starting { .. }, Event::Done) => {
                self.phase = Phase::Service;
            },
            (Phase::Service, Event::HwTime { counter, now }) => {
                self.phase =
                match bus.hw_sof_service(counter, now) {
                    Some(slot) => Phase::Preparing { slot },
                    None => Phase::Finished,
                };
            },
            (Phase::Preparing { .. }, Event::Done) => {
                self.phase = Phase::Finished;
            },
            _ => {},
        }
    }
}

/// Where enabling the hardware SOF stands.
#[derive(Clone, Copy, Debug, PartialEq, Eq)]
pub enum EnablePhase {
    /// Configuring the PWM slice.
    Configuring { pwm: PwmProgram },
    /// Reading the timer to align the slice to.
    Aligning { slice: u8 },
    /// Starting the slice.
    Starting { slice: u8, word: u32 },
    /// Switching SOFs on.
    Arming { switch: SofSwitch },
    /// Done.
    Finished,
}

/// Enabling the hardware SOF on a bus.
#[derive(Clone, Copy, Debug, PartialEq, Eq)]
pub struct EnableHwSof {
    /// Where it stands.
    pub phase: EnablePhase,
}

impl EnableHwSof {
    /// The action that is being waited for.
    pub open spec fn asks(self) -> Action {
        match self.phase {
            EnablePhase::Configuring { pwm } => Action::ConfigurePwm { pwm },
            EnablePhase::Aligning { .. } => Action::ReadClock,
            EnablePhase::Starting { slice, word } => Action::StartPwm { slice, word },
            EnablePhase::Arming { switch } => switch.asks(),
            EnablePhase::Finished => Action::Finished,
        }
    }

    /// Where enabling continues when the slice runs: a running full-speed device gets its
    /// SOFs from the hardware at once.
    pub open spec fn running(bus: Bus) -> EnablePhase {
        if bus.full_speed() {
            Self::arming(SofSwitch::begun(bus, true))
        } else {
            EnablePhase::Finished
        }
    }

    /// Where enabling stands with a switch.
    pub open spec fn arming(switch: SofSwitch) -> EnablePhase {
        if switch.phase is Finished {
            EnablePhase::Finished
        } else {
            EnablePhase::Arming { switch }
        }
    }

    /// The state after an event.
    pub open spec fn next(self, bus: Bus, event: Event) -> EnableHwSof {
        let phase = match (self.phase, event) {
            (EnablePhase::Configuring { pwm }, Event::Done) => EnablePhase::Aligning {
                slice: pwm.slice,
            },
            (EnablePhase::Aligning { slice }, Event::Clock(now)) => EnablePhase::Starting {
                slice,
                word: match bus.hw_sof {
                    Some(hw) => ((crate::frame::position_spec(now) * hw.counts) / 1000) as u32,
                    None => 0,
                },
            },
            (EnablePhase::Starting { .. }, Event::Done) => Self::running(bus),
            (EnablePhase::Arming { switch }, event) => Self::arming(switch.next(bus, event)),
            _ => self.phase,
        };
        EnableHwSof { phase }
    }

    /// The bus after an event.
    pub open spec fn next_bus(self, bus: Bus, event: Event) -> Bus {
        match self.phase {
            EnablePhase::Arming { switch } => switch.next_bus(bus, event),
            _ => bus,
        }
    }

    /// Whether the bus is in a state for this step.
    pub open spec fn allowed(self, bus: Bus) -> bool {
        self.phase matches EnablePhase::Arming { switch } ==> switch.allowed(bus)
    }

    /// Switch a bus to hardware-timed SOFs with a PWM slice and a DMA channel. Once only;
    /// later calls finish at once without effect.
    pub fn start(bus: &mut Bus, slice: u8, dma_ch: u8, clk_sys: u32) -> (e: EnableHwSof)
        requires
            old(bus).wf(),
            old(bus).sof_sm ==> slice < crate::hw_sof::PWM_SLICES && dma_ch
                < crate::hw_sof::DMA_CHANNELS && crate::hw_sof::clock_usable(clk_sys),
        ensures
            final(bus).wf(),
            e.allowed(*final(bus)),
            !old(bus).sof_sm ==> e.phase is Finished && *final(bus) == *old(bus),
            old(bus).sof_sm ==> ({
                &&& final(bus).hw_sof matches Some(hw) && hw.slice == slice && hw.dma_ch == dma_ch
                    && !hw.armed && hw.prepared_slot is None
                &&& *final(bus) == (Bus {
                    sof_sm: false,
                    hw_sof: final(bus).hw_sof,
                    ..*old(bus)
                })
                &&& exists|div: u32|
                    #![trigger crate::hw_sof::is_divider(clk_sys, div)]
                    crate::hw_sof::is_divider(clk_sys, div) && final(bus).hw_sof->0.counts == (
                    clk_sys / 1000) / div && e.phase == (EnablePhase::Configuring {
                        pwm: final(bus).hw_sof->0.pwm_words(div),
                    })
            }),
    {
        let phase = match bus.enable_hw_sof(slice, dma_ch, clk_sys) {
            Some(pwm) => EnablePhase::Configuring { pwm },
            None => EnablePhase::Finished,
        };
        EnableHwSof { phase }
    }

    /// The action to perform next.
    pub fn action(&self) -> (action: Action)
        ensures
            action == self.asks(),
    {
        match &self.phase {
            EnablePhase::Configuring { pwm } => Action::ConfigurePwm { pwm: *pwm },
            EnablePhase::Aligning { .. } => Action::ReadClock,
            EnablePhase::Starting { slice, word } => Action::StartPwm { slice: *slice, word: *word },
            EnablePhase::Arming { switch } => switch.action(),
            EnablePhase::Finished => Action::Finished,
        }
    }

    /// Take in what the action brought.
    pub fn step(&mut self, bus: &mut Bus, event: Event)
        requires
            old(bus).wf(),
            old(self).allowed(*old(bus)),
            answers(old(self).asks(), event),
            old(bus).counter_readable(event),
        ensures
            *final(self) == old(self).next(*old(bus), event),
            *final(bus) == old(self).next_bus(*old(bus), event),
            final(bus).wf(),
            final(self).allowed(*final(bus)),
    {
        match (self.phase, event) {
            (EnablePhase::Configuring { pwm }, Event::Done) => {
                self.phase = EnablePhase::Aligning { slice: pwm.slice };
            },
            (EnablePhase::Aligning { slice }, Event::Clock(now)) => {
                let word: u32 = match &bus.hw_sof {
                    Some(hw) => hw.align(now),
                    None => 0,
                };
                self.phase = EnablePhase::Starting { slice, word };
            },
            (EnablePhase::Starting { .. }, Event::Done) => {
                self.phase =
                if bus.is_full_speed() {
                    enable_arming(SofSwitch::start(bus, true))
                } else {
                    EnablePhase::Finished
                };
            },
            (EnablePhase::Arming { switch }, event) => {
                let mut switch = switch;
                switch.step(bus, event);
                self.phase = enable_arming(switch);
            },
            _ => {},
        }
    }
}

fn enable_arming(switch: SofSwitch) -> (phase: EnablePhase)
    ensures
        phase == EnableHwSof::arming(switch),
{
    match switch.phase {
        Phase::Finished => EnablePhase::Finished,
        _ => EnablePhase::Arming { switch },
    }
}

} // verus!
