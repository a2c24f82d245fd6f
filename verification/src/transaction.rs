//! One transaction on the bus: frame guard, SOF, token (and data), reply, aftermath.

use crate::bus::{Bus, PipeError, RxPacketStatus};
use crate::diag::{handshake_anomaly, handshake_anomaly_spec, Anomaly};
use crate::frame::{near_boundary, near_boundary_spec, slot, slot_spec};
use crate::io::{answers, Action, Event};
use crate::packet::{
    frame_number, frame_number_spec, Token, MAX_DATA_PACKET_BYTES, SHORT_PACKET_BYTES,
};
use crate::pid::{data_pid, data_pid_spec, USB_PID_DATA0, USB_PID_IN, USB_PID_OUT, USB_PID_SETUP};
use crate::reply::{
    handshake_follow_up, handshake_follow_up_spec, in_follow_up, in_follow_up_spec, FollowUp,
};
use crate::settle::{Sample, Settle};
use vstd::prelude::*;

verus! {

/// Where a transaction stands.
#[derive(Clone, Copy, Debug, PartialEq, Eq)]
pub enum Phase {
    /// Stamping the bus activity before anything is sent.
    Stamp,
    /// Hardware SOFs: waiting for a point in the frame clear of the SOF.
    HwGuard,
    /// Hardware SOFs: deciding whether to prepare the next one.
    HwService,
    /// Hardware SOFs: preparing the next one.
    Preparing { slot: u32 },
    /// Software SOFs: checking the distance to the next frame boundary.
    Guard,
    /// Software SOFs: waiting for the frame after `slot`.
    NextFrame { slot: u32 },
    /// Software SOFs: deciding whether this frame's SOF is due.
    Sof,
    /// Software SOFs: sending it.
    SofSending { slot: u32 },
    /// Sending the token, and the data packet if there is one.
    Sending,
    /// Receiving the reply.
    Receiving,
    /// Firing the ACK.
    Acking { follow: FollowUp },
    /// Stamping the bus activity after the reply.
    ReplyStamp { follow: FollowUp },
    /// Waiting for the ACK to leave.
    Draining,
    /// Bad reply: noting when the wait for an idle line begins.
    SettleStart,
    /// Bad reply: waiting for an idle line.
    Settling { settle: Settle },
    /// Bad reply: stamping the bus activity at the end of the wait.
    SettleStamp,
    /// The bus is free.
    Finished,
}

/// One transaction.
#[derive(Clone, Copy, Debug, PartialEq, Eq)]
pub struct Transaction {
    /// Token to send.
    pub token: Token,
    /// PID of the data packet that follows the token and is answered by a handshake;
    /// `None` if the device answers the token with data.
    pub data: Option<u8>,
    /// Room for the reply.
    pub capacity: usize,
    /// Where it stands.
    pub phase: Phase,
}

/// Where a transaction continues once nothing holds it but the frame schedule: the guard
/// of the SOF source in use, or the token at once where no SOFs are sent.
pub open spec fn guard_phase(bus: Bus) -> Phase {
    if bus.hw_active() {
        Phase::HwGuard
    } else if bus.full_speed() {
        Phase::Guard
    } else {
        Phase::Sending
    }
}

/// Where a transaction continues after a reply.
pub open spec fn follow_phase(follow: FollowUp) -> Phase {
    match follow {
        FollowUp::Nothing => Phase::Finished,
        FollowUp::AwaitTx => Phase::Draining,
        FollowUp::Settle => Phase::SettleStart,
    }
}

impl Transaction {
    /// The action that the transaction is waiting for.
    pub open spec fn asks(self) -> Action {
        match self.phase {
            Phase::Stamp => Action::ReadClock,
            Phase::HwGuard => Action::ReadCounter,
            Phase::HwService => Action::ReadHwTime,
            Phase::Preparing { slot } => Action::PrepareSof { frame: frame_number_spec(slot) },
            Phase::Guard => Action::ReadClock,
            Phase::NextFrame { .. } => Action::ReadClock,
            Phase::Sof => Action::ReadClock,
            Phase::SofSending { slot } => Action::TransmitSof {
                slot,
                frame: frame_number_spec(slot),
            },
            Phase::Sending => Action::Transmit { token: self.token, data: self.data },
            Phase::Receiving => Action::Receive {
                capacity: self.capacity,
                stage_ack: self.data is None,
            },
            Phase::Acking { .. } => Action::StartAck,
            Phase::ReplyStamp { .. } => Action::ReadClock,
            Phase::Draining => Action::AwaitTx,
            Phase::SettleStart => Action::ReadClock,
            Phase::Settling { .. } => Action::SampleLine,
            Phase::SettleStamp => Action::ReadClock,
            Phase::Finished => Action::Finished,
        }
    }

    /// The same transaction in another phase.
    pub open spec fn at(self, phase: Phase) -> Transaction {
        Transaction { phase, ..self }
    }

    /// The phase after an event.
    pub open spec fn next_phase(self, bus: Bus, event: Event) -> Phase {
        match (self.phase, event) {
            (Phase::Stamp, Event::Clock(_)) => guard_phase(bus),
            (Phase::HwGuard, Event::Counter(counter)) => match bus.hw_sof {
                Some(hw) if !hw.clear_of_sof(counter) => Phase::HwGuard,
                _ => Phase::HwService,
            },
            (Phase::HwService, Event::HwTime { counter, now }) => match bus.sof_service_due(
                counter,
                now,
            ) {
                Some(slot) => Phase::Preparing { slot },
                None => Phase::Sending,
            },
            (Phase::Preparing { .. }, Event::Done) => Phase::Sending,
            (Phase::Guard, Event::Clock(now)) => if near_boundary_spec(now) {
                Phase::NextFrame { slot: slot_spec(now) }
            } else {
                Phase::Sof
            },
            (Phase::NextFrame { slot }, Event::Clock(now)) => if slot_spec(now) == slot {
                Phase::NextFrame { slot }
            } else {
                Phase::Sof
            },
            (Phase::Sof, Event::Clock(now)) => if bus.sof_due(now) {
                Phase::SofSending { slot: slot_spec(now) }
            } else {
                Phase::Sending
            },
            (Phase::SofSending { .. }, Event::Done) => Phase::Sending,
            (Phase::Sending, Event::Done) => Phase::Receiving,
            (Phase::Receiving, Event::Received { packet, status }) => if self.data is Some {
                Phase::ReplyStamp { follow: handshake_follow_up_spec(packet@) }
            } else if status == RxPacketStatus::ValidData {
                Phase::Acking { follow: in_follow_up_spec(packet@, status) }
            } else {
                Phase::ReplyStamp { follow: in_follow_up_spec(packet@, status) }
            },
            (Phase::Acking { follow }, Event::Done) => Phase::ReplyStamp { follow },
            (Phase::ReplyStamp { follow }, Event::Clock(_)) => follow_phase(follow),
            (Phase::Draining, Event::Done) => Phase::Finished,
            (Phase::SettleStart, Event::Clock(now)) => Phase::Settling {
                settle: Settle::begun(now),
            },
            (Phase::Settling { settle }, Event::Line { now, dp, dm }) => {
                let sample = Sample { now, dp, dm };
                if settle.ends(bus.speed, sample) {
                    Phase::SettleStamp
                } else {
                    Phase::Settling { settle: settle.sampled(bus.speed, sample) }
                }
            },
            (Phase::SettleStamp, Event::Clock(_)) => Phase::Finished,
            _ => self.phase,
        }
    }

    /// The transaction after an event.
    pub open spec fn next(self, bus: Bus, event: Event) -> Transaction {
        self.at(self.next_phase(bus, event))
    }

    /// The bus after an event.
    pub open spec fn next_bus(self, bus: Bus, event: Event) -> Bus {
        match (self.phase, event) {
            (Phase::Stamp, Event::Clock(now)) => bus.stamped(now),
            (Phase::HwService, Event::HwTime { counter, now }) => bus.sof_serviced(counter, now),
            (Phase::Sof, Event::Clock(now)) => bus.sof_checked(now),
            (Phase::ReplyStamp { .. }, Event::Clock(now)) => bus.stamped(now),
            (Phase::SettleStamp, Event::Clock(now)) => bus.stamped(now),
            _ => bus,
        }
    }

    /// One IN transaction of an interrupt or bulk pipe; it counts as bus activity from the
    /// start.
    pub fn in_once(addr: u8, ep: u8) -> (t: Transaction)
        ensures
            t == (Transaction {
                token: Token { pid: USB_PID_IN, addr, ep },
                data: None,
                capacity: MAX_DATA_PACKET_BYTES,
                phase: Phase::Stamp,
            }),
    {
        Transaction {
            token: Token { pid: USB_PID_IN, addr, ep },
            data: None,
            capacity: MAX_DATA_PACKET_BYTES,
            phase: Phase::Stamp,
        }
    }

    /// One DATA-stage poll of a control-IN transfer.
    pub fn control_data_in(bus: &Bus, addr: u8, ep: u8) -> (t: Transaction)
        ensures
            t == (Transaction {
                token: Token { pid: USB_PID_IN, addr, ep },
                data: None,
                capacity: MAX_DATA_PACKET_BYTES,
                phase: guard_phase(*bus),
            }),
    {
        Transaction {
            token: Token { pid: USB_PID_IN, addr, ep },
            data: None,
            capacity: MAX_DATA_PACKET_BYTES,
            phase: enter_guard(bus),
        }
    }

    /// One STATUS-stage poll of a control-OUT transfer.
    pub fn control_status_in(bus: &Bus, addr: u8, ep: u8) -> (t: Transaction)
        ensures
            t == (Transaction {
                token: Token { pid: USB_PID_IN, addr, ep },
                data: None,
                capacity: SHORT_PACKET_BYTES,
                phase: guard_phase(*bus),
            }),
    {
        Transaction {
            token: Token { pid: USB_PID_IN, addr, ep },
            data: None,
            capacity: SHORT_PACKET_BYTES,
            phase: enter_guard(bus),
        }
    }

    /// One OUT transaction with a single data packet of the given toggle. `encoded` tells
    /// whether the encoder took the payload.
    pub fn out_once(bus: &Bus, addr: u8, ep: u8, data1: bool, encoded: bool) -> (t: Result<
        Transaction,
        PipeError,
    >)
        ensures
            t == (if encoded {
                Ok(
                    Transaction {
                        token: Token { pid: USB_PID_OUT, addr, ep },
                        data: Some(data_pid_spec(data1)),
                        capacity: SHORT_PACKET_BYTES,
                        phase: guard_phase(*bus),
                    },
                )
            } else {
                Err(PipeError::BufferOverflow)
            }),
    {
        if !encoded {
            return Err(PipeError::BufferOverflow);
        }
        Ok(
            Transaction {
                token: Token { pid: USB_PID_OUT, addr, ep },
                data: Some(data_pid(data1)),
                capacity: SHORT_PACKET_BYTES,
                phase: enter_guard(bus),
            },
        )
    }

    /// The SETUP token and its DATA0 packet. `encoded` tells whether the encoder took the
    /// payload.
    pub fn control_setup(bus: &Bus, addr: u8, ep: u8, encoded: bool) -> (t: Result<
        Transaction,
        PipeError,
    >)
        ensures
            t == (if encoded {
                Ok(
                    Transaction {
                        token: Token { pid: USB_PID_SETUP, addr, ep },
                        data: Some(USB_PID_DATA0),
                        capacity: SHORT_PACKET_BYTES,
                        phase: guard_phase(*bus),
                    },
                )
            } else {
                Err(PipeError::BufferOverflow)
            }),
    {
        if !encoded {
            return Err(PipeError::BufferOverflow);
        }
        Ok(
            Transaction {
                token: Token { pid: USB_PID_SETUP, addr, ep },
                data: Some(USB_PID_DATA0),
                capacity: SHORT_PACKET_BYTES,
                phase: enter_guard(bus),
            },
        )
    }

    /// The anomaly that the reply shows, if any: handshakes are looked at, replies to an IN
    /// token are not.
    pub fn anomaly(&self, packet: &[u8]) -> (anomaly: Option<Anomaly>)
        ensures
            anomaly == (if self.data is Some {
                handshake_anomaly_spec(packet@)
            } else {
                None
            }),
    {
        if self.data.is_some() {
            handshake_anomaly(packet)
        } else {
            None
        }
    }

    /// The action to perform next.
    pub fn action(&self) -> (action: Action)
        ensures
            action == self.asks(),
    {
        match self.phase {
            Phase::Stamp => Action::ReadClock,
            Phase::HwGuard => Action::ReadCounter,
            Phase::HwService => Action::ReadHwTime,
            Phase::Preparing { slot } => Action::PrepareSof { frame: frame_number(slot) },
            Phase::Guard => Action::ReadClock,
            Phase::NextFrame { .. } => Action::ReadClock,
            Phase::Sof => Action::ReadClock,
            Phase::SofSending { slot } => Action::TransmitSof { slot, frame: frame_number(slot) },
            Phase::Sending => Action::Transmit { token: self.token, data: self.data },
            Phase::Receiving => Action::Receive {
                capacity: self.capacity,
                stage_ack: self.data.is_none(),
            },
            Phase::Acking { .. } => Action::StartAck,
            Phase::ReplyStamp { .. } => Action::ReadClock,
            Phase::Draining => Action::AwaitTx,
            Phase::SettleStart => Action::ReadClock,
            Phase::Settling { .. } => Action::SampleLine,
            Phase::SettleStamp => Action::ReadClock,
            Phase::Finished => Action::Finished,
        }
    }

    /// Take in what the action brought.
    pub fn step(&mut self, bus: &mut Bus, event: Event)
        requires
            old(bus).wf(),
            answers(old(self).asks(), event),
            old(bus).counter_readable(event),
        ensures
            *final(self) == old(self).next(*old(bus), event),
            *final(bus) == old(self).next_bus(*old(bus), event),
            final(bus).wf(),
    {
        match (self.phase, event) {
            (Phase::Stamp, Event::Clock(now)) => {
                bus.mark_activity(now);
                self.phase = enter_guard(bus);
            },
            (Phase::HwGuard, Event::Counter(counter)) => {
                let clear = match &bus.hw_sof {
                    Some(hw) => hw.frame_clear(counter),
                    None => true,
                };
                if clear {
                    self.phase = Phase::HwService;
                }
            },
            (Phase::HwService, Event::HwTime { counter, now }) => {
                self.phase =
                match bus.hw_sof_service(counter, now) {
                    Some(slot) => Phase::Preparing { slot },
                    None => Phase::Sending,
                };
            },
            (Phase::Preparing { .. }, Event::Done) => {
                self.phase = Phase::Sending;
            },
            (Phase::Guard, Event::Clock(now)) => {
                self.phase =
                if near_boundary(now) {
                    Phase::NextFrame { slot: slot(now) }
                } else {
                    Phase::Sof
                };
            },
            (Phase::NextFrame { slot: guarded }, Event::Clock(now)) => {
                if slot(now) != guarded {
                    self.phase = Phase::Sof;
                }
            },
            (Phase::Sof, Event::Clock(now)) => {
                self.phase =
                match bus.sof_if_due(now) {
                    Some(slot) => Phase::SofSending { slot },
                    None => Phase::Sending,
                };
            },
            (Phase::SofSending { .. }, Event::Done) => {
                self.phase = Phase::Sending;
            },
            (Phase::Sending, Event::Done) => {
                self.phase = Phase::Receiving;
            },
            (Phase::Receiving, Event::Received { packet, status }) => {
                self.phase =
                if self.data.is_some() {
                    Phase::ReplyStamp { follow: handshake_follow_up(packet) }
                } else {
                    let follow = in_follow_up(packet, status);
                    if status == RxPacketStatus::ValidData {
                        Phase::Acking { follow }
                    } else {
                        Phase::ReplyStamp { follow }
                    }
                };
            },
            (Phase::Acking { follow }, Event::Done) => {
                self.phase = Phase::ReplyStamp { follow };
            },
            (Phase::ReplyStamp { follow }, Event::Clock(now)) => {
                bus.mark_activity(now);
                self.phase =
                match follow {
                    FollowUp::Nothing => Phase::Finished,
                    FollowUp::AwaitTx => Phase::Draining,
                    FollowUp::Settle => Phase::SettleStart,
                };
            },
            (Phase::Draining, Event::Done) => {
                self.phase = Phase::Finished;
            },
            (Phase::SettleStart, Event::Clock(now)) => {
                self.phase = Phase::Settling { settle: Settle::begin(now) };
            },
            (Phase::Settling { settle }, Event::Line { now, dp, dm }) => {
                let mut settle = settle;
                self.phase =
                if settle.poll(bus.speed, now, dp, dm) {
                    Phase::SettleStamp
                } else {
                    Phase::Settling { settle }
                };
            },
            (Phase::SettleStamp, Event::Clock(now)) => {
                bus.mark_activity(now);
                self.phase = Phase::Finished;
            },
            _ => {},
        }
    }
}

/// Where a transaction starts on a bus.
fn enter_guard(bus: &Bus) -> (phase: Phase)
    ensures
        phase == guard_phase(*bus),
{
    if bus.hw_sof_active() {
        Phase::HwGuard
    } else if bus.is_full_speed() {
        Phase::Guard
    } else {
        Phase::Sending
    }
}

} // verus!
