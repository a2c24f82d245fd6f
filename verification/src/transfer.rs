//! Transfers: the stages of a control transfer, and interrupt and bulk transfers, each
//! packet retried as its kind of transfer asks.
//!
//! The bus is taken for one transaction at a time and released between them.

use crate::bus::{Bus, PipeError, RxPacketStatus};
use crate::packet::Token;
use crate::pid::{
    data_pid, data_pid_spec, USB_PID_DATA0, USB_PID_IN, USB_PID_OUT, USB_PID_SETUP,
};
use crate::pipe::PioPipe;
use crate::reply::{
    self, check_ack, control_setup, control_status_in, data_in, data_in_buffer, data_in_spec,
    handshake_spec, in_once, status_in_spec, store, stored,
};
use crate::transaction::{guard_phase, Phase, Transaction};
use vstd::prelude::*;

verus! {

/// One thing to do for a transfer.
#[derive(Clone, Copy, Debug, PartialEq, Eq)]
pub enum Action {
    /// Run the SETUP transaction.
    Setup,
    /// Run an IN transaction of a control DATA stage.
    PollData,
    /// Run an IN transaction of a control STATUS stage.
    PollStatus,
    /// Run an IN transaction of an interrupt or bulk pipe.
    Poll,
    /// Run an OUT transaction with the bytes of the caller's buffer from `start` up to
    /// `end`.
    Send { data1: bool, start: usize, end: usize },
    /// Read the executor's clock.
    ReadInstant,
    /// Sleep with the bus released.
    Sleep { us: u32 },
    /// Nothing left to do.
    Finished,
}

/// What an action brought.
#[derive(Clone, Copy, Debug, PartialEq, Eq)]
pub enum Event<'a> {
    /// The reply captured in the transaction.
    Reply { packet: &'a [u8], status: RxPacketStatus },
    /// The encoder did not take the payload; nothing was sent.
    Refused,
    /// The executor's clock, in ticks.
    Instant(u64),
    /// The sleep is over.
    Slept,
}

/// Whether an event is of the kind that answers an action.
pub open spec fn answers(action: Action, event: Event) -> bool {
    match action {
        Action::Setup => event is Reply || event is Refused,
        Action::PollData => event is Reply,
        Action::PollStatus => event is Reply,
        Action::Poll => event is Reply,
        Action::Send { .. } => event is Reply || event is Refused,
        Action::ReadInstant => event is Instant,
        Action::Sleep { .. } => event is Slept,
        Action::Finished => false,
    }
}

/// The PID of the data packet that an action sends, if it sends one.
pub open spec fn packet_pid_spec(action: Action) -> Option<u8> {
    match action {
        Action::Setup => Some(USB_PID_DATA0),
        Action::Send { data1, .. } => Some(data_pid_spec(data1)),
        _ => None,
    }
}

/// The PID of the data packet to encode for an action, if it sends one.
pub fn packet_pid(action: Action) -> (pid: Option<u8>)
    ensures
        pid == packet_pid_spec(action),
{
    match action {
        Action::Setup => Some(USB_PID_DATA0),
        Action::Send { data1, .. } => Some(data_pid(data1)),
        _ => None,
    }
}

/// The transaction of a token on a bus, at the frame guard.
pub open spec fn guarded(bus: Bus, token: Token, data: Option<u8>, capacity: usize) -> Transaction {
    Transaction { token, data, capacity, phase: guard_phase(bus) }
}

/// The transaction that an action stands for.
pub open spec fn begun(action: Action, bus: Bus, pipe: PioPipe, encoded: bool) -> Option<
    Result<Transaction, PipeError>,
> {
    let (addr, ep) = (pipe.addr, pipe.ep);
    match action {
        Action::Setup => Some(
            if encoded {
                Ok(guarded(bus, Token { pid: USB_PID_SETUP, addr, ep }, packet_pid_spec(action), 8))
            } else {
                Err(PipeError::BufferOverflow)
            },
        ),
        Action::Send { .. } => Some(
            if encoded {
                Ok(guarded(bus, Token { pid: USB_PID_OUT, addr, ep }, packet_pid_spec(action), 8))
            } else {
                Err(PipeError::BufferOverflow)
            },
        ),
        Action::PollData => Some(
            Ok(guarded(bus, Token { pid: USB_PID_IN, addr, ep }, None, 68)),
        ),
        Action::PollStatus => Some(
            Ok(guarded(bus, Token { pid: USB_PID_IN, addr, ep }, None, 8)),
        ),
        Action::Poll => Some(
            Ok(
                Transaction {
                    token: Token { pid: USB_PID_IN, addr, ep },
                    data: None,
                    capacity: 68,
                    phase: Phase::Stamp,
                },
            ),
        ),
        _ => None,
    }
}

/// Begin the transaction that an action stands for; `None` if it stands for none.
/// `encoded` tells whether the encoder took the payload, where there is one.
pub fn begin(action: Action, bus: &Bus, pipe: &PioPipe, encoded: bool) -> (transaction: Option<
    Result<Transaction, PipeError>,
>)
    ensures
        transaction == begun(action, *bus, *pipe, encoded),
{
    let (addr, ep) = (pipe.addr, pipe.ep);
    match action {
        Action::Setup => Some(Transaction::control_setup(bus, addr, ep, encoded)),
        Action::Send { data1, .. } => Some(Transaction::out_once(bus, addr, ep, data1, encoded)),
        Action::PollData => Some(Ok(Transaction::control_data_in(bus, addr, ep))),
        Action::PollStatus => Some(Ok(Transaction::control_status_in(bus, addr, ep))),
        Action::Poll => Some(Ok(Transaction::in_once(addr, ep))),
        _ => None,
    }
}

/// Pause before retrying a NAKed (or unanswered) control-transfer stage: the next frame.
/// The bus is released meanwhile.
pub const STAGE_RETRY_US: u32 = 1000;

/// Where a control-IN transfer stands.
#[derive(Clone, Copy, Debug, PartialEq, Eq)]
pub enum ControlInPhase {
    /// Sending the SETUP.
    Setup,
    /// SETUP not acknowledged: comparing the clock with the deadline.
    SetupCheck,
    /// Pausing before the next SETUP.
    SetupWait,
    /// Polling for a DATA packet.
    Data,
    /// No packet: comparing the clock with the deadline.
    DataCheck,
    /// Pausing before the next poll.
    DataWait,
    /// Sending the empty DATA1 packet of the STATUS stage.
    Status,
    /// Not acknowledged: comparing the clock with the deadline.
    StatusCheck,
    /// Pausing before sending it again.
    StatusWait,
    /// Done: the number of bytes received, or the error.
    Done(Result<usize, PipeError>),
}

/// A control-IN transfer.
///
/// Stage by stage, each retried in the next frame on NAK until the transfer's deadline;
/// never by resending the SETUP once it was acknowledged: the request is then running in
/// the device, and sending it again would restart it.
#[derive(Clone, Copy, Debug, PartialEq, Eq)]
pub struct ControlIn {
    /// Length of the caller's buffer.
    pub room: usize,
    /// Bytes the request asks for.
    pub wlen: usize,
    /// Largest DATA packet.
    pub mps: usize,
    /// When to give up, in ticks of the executor's clock.
    pub deadline: u64,
    /// Bytes received.
    pub total: usize,
    /// Toggle of the next DATA packet.
    pub data1: bool,
    /// Where the transfer stands.
    pub phase: ControlInPhase,
}

impl ControlIn {
    /// The request fits the caller's buffer, and so does what has been received.
    pub open spec fn wf(self) -> bool {
        &&& self.total <= self.room
        &&& self.wlen <= self.room
        &&& 1 <= self.mps <= 64
    }

    /// The action that the transfer is waiting for.
    pub open spec fn asks(self) -> Action {
        match self.phase {
            ControlInPhase::Setup => Action::Setup,
            ControlInPhase::SetupCheck => Action::ReadInstant,
            ControlInPhase::SetupWait => Action::Sleep { us: STAGE_RETRY_US },
            ControlInPhase::Data => Action::PollData,
            ControlInPhase::DataCheck => Action::ReadInstant,
            ControlInPhase::DataWait => Action::Sleep { us: STAGE_RETRY_US },
            ControlInPhase::Status => Action::Send { data1: true, start: 0, end: 0 },
            ControlInPhase::StatusCheck => Action::ReadInstant,
            ControlInPhase::StatusWait => Action::Sleep { us: STAGE_RETRY_US },
            ControlInPhase::Done(_) => Action::Finished,
        }
    }

    /// The payload length of a DATA packet that the transfer takes in.
    pub open spec fn accepts(self, event: Event) -> Option<usize> {
        match (self.phase, event) {
            (ControlInPhase::Data, Event::Reply { packet, status }) => match data_in_spec(
                packet@,
                status,
                self.data1,
                self.mps as nat,
            ) {
                Ok(Some(n)) if self.total + n <= self.room => Some(n),
                _ => None,
            },
            _ => None,
        }
    }

    /// The transfer in another phase.
    pub open spec fn at(self, phase: ControlInPhase) -> ControlIn {
        ControlIn { phase, ..self }
    }

    /// The transfer after a DATA packet of `n` bytes: a short packet or the requested
    /// length ends the DATA stage.
    pub open spec fn received(self, n: usize) -> ControlIn {
        ControlIn {
            total: (self.total + n) as usize,
            data1: !self.data1,
            phase: if n < self.mps || self.total + n >= self.wlen {
                ControlInPhase::Status
            } else {
                ControlInPhase::Data
            },
            ..self
        }
    }

    /// The transfer after an event.
    pub open spec fn next(self, event: Event) -> ControlIn {
        match (self.phase, event) {
            (ControlInPhase::Setup, Event::Reply { packet, .. }) => match handshake_spec(packet@) {
                Ok(true) => self.at(
                    if self.wlen == 0 {
                        ControlInPhase::Status
                    } else {
                        ControlInPhase::Data
                    },
                ),
                Ok(false) => self.at(ControlInPhase::SetupCheck),
                Err(err) => self.at(ControlInPhase::Done(Err(err))),
            },
            (ControlInPhase::SetupCheck, Event::Instant(now)) => if now < self.deadline {
                self.at(ControlInPhase::SetupWait)
            } else {
                self.at(ControlInPhase::Done(Err(PipeError::Timeout)))
            },
            (ControlInPhase::SetupWait, Event::Slept) => self.at(ControlInPhase::Setup),
            (ControlInPhase::Data, Event::Reply { packet, status }) => match data_in_spec(
                packet@,
                status,
                self.data1,
                self.mps as nat,
            ) {
                Ok(Some(n)) => if self.total + n <= self.room {
                    self.received(n)
                } else {
                    self.at(ControlInPhase::Done(Err(PipeError::BufferOverflow)))
                },
                Ok(None) => self.at(ControlInPhase::DataCheck),
                Err(err) => self.at(ControlInPhase::Done(Err(err))),
            },
            (ControlInPhase::DataCheck, Event::Instant(now)) => if now < self.deadline {
                self.at(ControlInPhase::DataWait)
            } else {
                self.at(ControlInPhase::Done(Err(PipeError::Timeout)))
            },
            (ControlInPhase::DataWait, Event::Slept) => self.at(ControlInPhase::Data),
            (ControlInPhase::Status, Event::Reply { packet, .. }) => match handshake_spec(packet@) {
                Ok(true) => self.at(ControlInPhase::Done(Ok(self.total))),
                Ok(false) => self.at(ControlInPhase::StatusCheck),
                Err(err) => self.at(ControlInPhase::Done(Err(err))),
            },
            (ControlInPhase::StatusCheck, Event::Instant(now)) => if now < self.deadline {
                self.at(ControlInPhase::StatusWait)
            } else {
                self.at(ControlInPhase::Done(Err(PipeError::Timeout)))
            },
            (ControlInPhase::StatusWait, Event::Slept) => self.at(ControlInPhase::Status),
            (_, Event::Refused) => self.at(ControlInPhase::Done(Err(PipeError::BufferOverflow))),
            _ => self,
        }
    }

    /// The caller's buffer after an event: the payload of an accepted packet is appended
    /// to what has been received.
    pub open spec fn next_buf(self, buf: Seq<u8>, event: Event) -> Seq<u8> {
        match (self.accepts(event), event) {
            (Some(n), Event::Reply { packet, .. }) if n > 0 => stored(
                packet@,
                n as int,
                buf,
                self.total as int,
            ),
            _ => buf,
        }
    }

    /// The action to perform next.
    pub fn action(&self) -> (action: Action)
        ensures
            action == self.asks(),
    {
        match self.phase {
            ControlInPhase::Setup => Action::Setup,
            ControlInPhase::Data => Action::PollData,
            ControlInPhase::Status => Action::Send { data1: true, start: 0, end: 0 },
            ControlInPhase::SetupCheck => Action::ReadInstant,
            ControlInPhase::DataCheck => Action::ReadInstant,
            ControlInPhase::StatusCheck => Action::ReadInstant,
            ControlInPhase::SetupWait => Action::Sleep { us: STAGE_RETRY_US },
            ControlInPhase::DataWait => Action::Sleep { us: STAGE_RETRY_US },
            ControlInPhase::StatusWait => Action::Sleep { us: STAGE_RETRY_US },
            ControlInPhase::Done(_) => Action::Finished,
        }
    }

    /// The outcome, once there is one.
    pub fn outcome(&self) -> (outcome: Option<Result<usize, PipeError>>)
        ensures
            outcome == (match self.phase {
                ControlInPhase::Done(result) => Some(result),
                _ => None,
            }),
    {
        match self.phase {
            ControlInPhase::Done(result) => Some(result),
            _ => None,
        }
    }

    /// SETUP stage: resent only while the device does not acknowledge it.
    fn setup_stage(&mut self, packet: &[u8])
        requires
            old(self).phase is Setup,
        ensures
            forall|status: RxPacketStatus|
                *final(self) == #[trigger] old(self).next(Event::Reply { packet, status }),
    {
        self.phase =
        match control_setup(packet) {
            Ok(()) => if self.wlen == 0 {
                ControlInPhase::Status
            } else {
                ControlInPhase::Data
            },
            Err(PipeError::Timeout) => ControlInPhase::SetupCheck,
            Err(err) => ControlInPhase::Done(Err(err)),
        };
    }

    /// One DATA-stage IN packet.
    fn data_in_packet(&mut self, buf: &mut [u8], packet: &[u8], status: RxPacketStatus)
        requires
            old(self).wf(),
            old(self).phase is Data,
            old(buf)@.len() == old(self).room,
        ensures
            *final(self) == old(self).next(Event::Reply { packet, status }),
            final(buf)@ == old(self).next_buf(old(buf)@, Event::Reply { packet, status }),
            final(buf)@.len() == old(buf)@.len(),
            final(self).wf(),
    {
        match data_in(packet, status, self.data1, self.mps) {
            Ok(Some(n)) => {
                if n > buf.len() - self.total {
                    self.phase = ControlInPhase::Done(Err(PipeError::BufferOverflow));
                    return;
                }
                store(packet, n, buf, self.total);
                self.total = self.total + n;
                self.data1 = !self.data1;
                if n < self.mps || self.total >= self.wlen {
                    self.phase = ControlInPhase::Status;
                }
            },
            Ok(None) => {
                self.phase = ControlInPhase::DataCheck;
            },
            Err(err) => {
                self.phase = ControlInPhase::Done(Err(err));
            },
        }
    }

    /// Take in what the action brought; `buf` is the caller's buffer.
    pub fn step(&mut self, buf: &mut [u8], event: Event)
        requires
            old(self).wf(),
            old(buf)@.len() == old(self).room,
            answers(old(self).asks(), event),
        ensures
            *final(self) == old(self).next(event),
            final(buf)@ == old(self).next_buf(old(buf)@, event),
            final(buf)@.len() == old(buf)@.len(),
            final(self).wf(),
    {
        match (self.phase, event) {
            (ControlInPhase::Setup, Event::Reply { packet, status }) => {
                self.setup_stage(packet);
                assert(*self == old(self).next(Event::Reply { packet, status }));
            },
            (ControlInPhase::Data, Event::Reply { packet, status }) => {
                self.data_in_packet(buf, packet, status);
            },
            (ControlInPhase::Status, Event::Reply { packet, .. }) => {
                self.phase =
                match check_ack(packet) {
                    Ok(true) => ControlInPhase::Done(Ok(self.total)),
                    Ok(false) => ControlInPhase::StatusCheck,
                    Err(err) => ControlInPhase::Done(Err(err)),
                };
            },
            (ControlInPhase::SetupCheck, Event::Instant(now)) => {
                self.phase =
                if now < self.deadline {
                    ControlInPhase::SetupWait
                } else {
                    ControlInPhase::Done(Err(PipeError::Timeout))
                };
            },
            (ControlInPhase::DataCheck, Event::Instant(now)) => {
                self.phase =
                if now < self.deadline {
                    ControlInPhase::DataWait
                } else {
                    ControlInPhase::Done(Err(PipeError::Timeout))
                };
            },
            (ControlInPhase::StatusCheck, Event::Instant(now)) => {
                self.phase =
                if now < self.deadline {
                    ControlInPhase::StatusWait
                } else {
                    ControlInPhase::Done(Err(PipeError::Timeout))
                };
            },
            (ControlInPhase::SetupWait, Event::Slept) => {
                self.phase = ControlInPhase::Setup;
            },
            (ControlInPhase::DataWait, Event::Slept) => {
                self.phase = ControlInPhase::Data;
            },
            (ControlInPhase::StatusWait, Event::Slept) => {
                self.phase = ControlInPhase::Status;
            },
            (_, Event::Refused) => {
                self.phase = ControlInPhase::Done(Err(PipeError::BufferOverflow));
            },
            _ => {},
        }
    }
}

/// Where a control-OUT transfer stands.
#[derive(Clone, Copy, Debug, PartialEq, Eq)]
pub enum ControlOutPhase {
    /// Sending the SETUP.
    Setup,
    /// SETUP not acknowledged: comparing the clock with the deadline.
    SetupCheck,
    /// Pausing before the next SETUP.
    SetupWait,
    /// Sending a DATA packet.
    Data,
    /// Not acknowledged: comparing the clock with the deadline.
    DataCheck,
    /// Pausing before sending it again.
    DataWait,
    /// Polling for the empty packet of the STATUS stage.
    Status,
    /// No packet: comparing the clock with the deadline.
    StatusCheck,
    /// Pausing before the next poll.
    StatusWait,
    /// Done.
    Done(Result<(), PipeError>),
}

/// A control-OUT transfer: SETUP, the data in packets of at most `mps` bytes, and the
/// STATUS packet that the device sends once the request is done (it NAKs while
/// processing).
#[derive(Clone, Copy, Debug, PartialEq, Eq)]
pub struct ControlOut {
    /// Length of the caller's data.
    pub len: usize,
    /// Largest DATA packet.
    pub mps: usize,
    /// When to give up, in ticks of the executor's clock.
    pub deadline: u64,
    /// Bytes that the device has acknowledged.
    pub sent: usize,
    /// Toggle of the next DATA packet.
    pub data1: bool,
    /// Where the transfer stands.
    pub phase: ControlOutPhase,
}

/// End of the packet that starts at `sent`: a full one, or what is left.
pub open spec fn chunk_end_spec(sent: usize, mps: usize, len: usize) -> usize {
    if len - sent <= mps {
        len
    } else {
        (sent + mps) as usize
    }
}

/// End of the packet that starts at `sent`.
fn chunk_end(sent: usize, mps: usize, len: usize) -> (end: usize)
    requires
        sent <= len,
    ensures
        end == chunk_end_spec(sent, mps, len),
{
    if len - sent <= mps {
        len
    } else {
        sent + mps
    }
}

impl ControlOut {
    /// No more is sent than there is, and while packets are sent there is some left.
    pub open spec fn wf(self) -> bool {
        &&& self.sent <= self.len
        &&& self.mps >= 1
        &&& (self.phase is Data || self.phase is DataCheck || self.phase is DataWait) ==> self.sent
            < self.len
    }

    /// The action that the transfer is waiting for.
    pub open spec fn asks(self) -> Action {
        match self.phase {
            ControlOutPhase::Setup => Action::Setup,
            ControlOutPhase::SetupCheck => Action::ReadInstant,
            ControlOutPhase::SetupWait => Action::Sleep { us: STAGE_RETRY_US },
            ControlOutPhase::Data => Action::Send {
                data1: self.data1,
                start: self.sent,
                end: chunk_end_spec(self.sent, self.mps, self.len),
            },
            ControlOutPhase::DataCheck => Action::ReadInstant,
            ControlOutPhase::DataWait => Action::Sleep { us: STAGE_RETRY_US },
            ControlOutPhase::Status => Action::PollStatus,
            ControlOutPhase::StatusCheck => Action::ReadInstant,
            ControlOutPhase::StatusWait => Action::Sleep { us: STAGE_RETRY_US },
            ControlOutPhase::Done(_) => Action::Finished,
        }
    }

    /// The transfer in another phase.
    pub open spec fn at(self, phase: ControlOutPhase) -> ControlOut {
        ControlOut { phase, ..self }
    }

    /// The stage that follows when `sent` bytes are acknowledged.
    pub open spec fn stage(self, sent: usize) -> ControlOutPhase {
        if sent < self.len {
            ControlOutPhase::Data
        } else {
            ControlOutPhase::Status
        }
    }

    /// The transfer after an acknowledged DATA packet.
    pub open spec fn acked(self) -> ControlOut {
        let sent = chunk_end_spec(self.sent, self.mps, self.len);
        ControlOut { sent, data1: !self.data1, phase: self.stage(sent), ..self }
    }

    /// The transfer after an event.
    pub open spec fn next(self, event: Event) -> ControlOut {
        match (self.phase, event) {
            (ControlOutPhase::Setup, Event::Reply { packet, .. }) => match handshake_spec(packet@) {
                Ok(true) => self.at(self.stage(self.sent)),
                Ok(false) => self.at(ControlOutPhase::SetupCheck),
                Err(err) => self.at(ControlOutPhase::Done(Err(err))),
            },
            (ControlOutPhase::SetupCheck, Event::Instant(now)) => if now < self.deadline {
                self.at(ControlOutPhase::SetupWait)
            } else {
                self.at(ControlOutPhase::Done(Err(PipeError::Timeout)))
            },
            (ControlOutPhase::SetupWait, Event::Slept) => self.at(ControlOutPhase::Setup),
            (ControlOutPhase::Data, Event::Reply { packet, .. }) => match handshake_spec(packet@) {
                Ok(true) => self.acked(),
                Ok(false) => self.at(ControlOutPhase::DataCheck),
                Err(err) => self.at(ControlOutPhase::Done(Err(err))),
            },
            (ControlOutPhase::DataCheck, Event::Instant(now)) => if now < self.deadline {
                self.at(ControlOutPhase::DataWait)
            } else {
                self.at(ControlOutPhase::Done(Err(PipeError::Timeout)))
            },
            (ControlOutPhase::DataWait, Event::Slept) => self.at(ControlOutPhase::Data),
            (ControlOutPhase::Status, Event::Reply { packet, status }) => match status_in_spec(
                packet@,
                status,
            ) {
                Ok(true) => self.at(ControlOutPhase::Done(Ok(()))),
                Ok(false) => self.at(ControlOutPhase::StatusCheck),
                Err(err) => self.at(ControlOutPhase::Done(Err(err))),
            },
            (ControlOutPhase::StatusCheck, Event::Instant(now)) => if now < self.deadline {
                self.at(ControlOutPhase::StatusWait)
            } else {
                self.at(ControlOutPhase::Done(Err(PipeError::Timeout)))
            },
            (ControlOutPhase::StatusWait, Event::Slept) => self.at(ControlOutPhase::Status),
            (_, Event::Refused) => self.at(ControlOutPhase::Done(Err(PipeError::BufferOverflow))),
            _ => self,
        }
    }

    /// The action to perform next.
    pub fn action(&self) -> (action: Action)
        requires
            self.wf(),
        ensures
            action == self.asks(),
            action matches Action::Send { start, end, .. } ==> start < end <= self.len && end
                - start <= self.mps,
    {
        match self.phase {
            ControlOutPhase::Setup => Action::Setup,
            ControlOutPhase::Data => Action::Send {
                data1: self.data1,
                start: self.sent,
                end: chunk_end(self.sent, self.mps, self.len),
            },
            ControlOutPhase::Status => Action::PollStatus,
            ControlOutPhase::SetupCheck => Action::ReadInstant,
            ControlOutPhase::DataCheck => Action::ReadInstant,
            ControlOutPhase::StatusCheck => Action::ReadInstant,
            ControlOutPhase::SetupWait => Action::Sleep { us: STAGE_RETRY_US },
            ControlOutPhase::DataWait => Action::Sleep { us: STAGE_RETRY_US },
            ControlOutPhase::StatusWait => Action::Sleep { us: STAGE_RETRY_US },
            ControlOutPhase::Done(_) => Action::Finished,
        }
    }

    /// The outcome, once there is one.
    pub fn outcome(&self) -> (outcome: Option<Result<(), PipeError>>)
        ensures
            outcome == (match self.phase {
                ControlOutPhase::Done(result) => Some(result),
                _ => None,
            }),
    {
        match self.phase {
            ControlOutPhase::Done(result) => Some(result),
            _ => None,
        }
    }

    /// Where the transfer continues once the SETUP or a DATA packet is acknowledged.
    fn next_stage(&self) -> (phase: ControlOutPhase)
        ensures
            phase == self.stage(self.sent),
    {
        if self.sent < self.len {
            ControlOutPhase::Data
        } else {
            ControlOutPhase::Status
        }
    }

    /// Take in what the action brought.
    pub fn step(&mut self, event: Event)
        requires
            old(self).wf(),
            answers(old(self).asks(), event),
        ensures
            *final(self) == old(self).next(event),
            final(self).wf(),
    {
        match (self.phase, event) {
            (ControlOutPhase::Setup, Event::Reply { packet, .. }) => {
                self.phase =
                match control_setup(packet) {
                    Ok(()) => self.next_stage(),
                    Err(PipeError::Timeout) => ControlOutPhase::SetupCheck,
                    Err(err) => ControlOutPhase::Done(Err(err)),
                };
            },
            (ControlOutPhase::Data, Event::Reply { packet, .. }) => {
                match check_ack(packet) {
                    Ok(true) => {
                        self.sent = chunk_end(self.sent, self.mps, self.len);
                        self.data1 = !self.data1;
                        self.phase = self.next_stage();
                    },
                    Ok(false) => {
                        self.phase = ControlOutPhase::DataCheck;
                    },
                    Err(err) => {
                        self.phase = ControlOutPhase::Done(Err(err));
                    },
                }
            },
            (ControlOutPhase::Status, Event::Reply { packet, status }) => {
                self.phase =
                match control_status_in(packet, status) {
                    Ok(true) => ControlOutPhase::Done(Ok(())),
                    Ok(false) => ControlOutPhase::StatusCheck,
                    Err(err) => ControlOutPhase::Done(Err(err)),
                };
            },
            (ControlOutPhase::SetupCheck, Event::Instant(now)) => {
                self.phase =
                if now < self.deadline {
                    ControlOutPhase::SetupWait
                } else {
                    ControlOutPhase::Done(Err(PipeError::Timeout))
                };
            },
            (ControlOutPhase::DataCheck, Event::Instant(now)) => {
                self.phase =
                if now < self.deadline {
                    ControlOutPhase::DataWait
                } else {
                    ControlOutPhase::Done(Err(PipeError::Timeout))
                };
            },
            (ControlOutPhase::StatusCheck, Event::Instant(now)) => {
                self.phase =
                if now < self.deadline {
                    ControlOutPhase::StatusWait
                } else {
                    ControlOutPhase::Done(Err(PipeError::Timeout))
                };
            },
            (ControlOutPhase::SetupWait, Event::Slept) => {
                self.phase = ControlOutPhase::Setup;
            },
            (ControlOutPhase::DataWait, Event::Slept) => {
                self.phase = ControlOutPhase::Data;
            },
            (ControlOutPhase::StatusWait, Event::Slept) => {
                self.phase = ControlOutPhase::Status;
            },
            (_, Event::Refused) => {
                self.phase = ControlOutPhase::Done(Err(PipeError::BufferOverflow));
            },
            _ => {},
        }
    }
}

/// An interrupt or bulk IN transfer: polled until a packet arrives or the endpoint fails.
#[derive(Clone, Copy, Debug, PartialEq, Eq)]
pub enum RequestIn {
    /// Polling.
    Polling,
    /// No data yet: waiting one polling interval.
    Waiting,
    /// Done: the number of bytes received, or the error.
    Done(Result<usize, PipeError>),
}

impl RequestIn {
    /// The action that the transfer is waiting for.
    pub open spec fn asks(self, pipe: PioPipe) -> Action {
        match self {
            RequestIn::Polling => Action::Poll,
            RequestIn::Waiting => Action::Sleep { us: pipe.interval_us },
            RequestIn::Done(_) => Action::Finished,
        }
    }

    /// What a poll brought for a buffer of `room` bytes.
    pub open spec fn polled(
        self,
        pipe: PioPipe,
        room: nat,
        event: Event,
    ) -> Option<Result<Option<usize>, PipeError>> {
        match (self, event) {
            (RequestIn::Polling, Event::Reply { packet, status }) => Some(
                data_in_spec(packet@, status, pipe.toggle_data1, room),
            ),
            _ => None,
        }
    }

    /// The transfer after an event.
    pub open spec fn next(self, pipe: PioPipe, room: nat, event: Event) -> RequestIn {
        match self.polled(pipe, room, event) {
            Some(Ok(Some(n))) => RequestIn::Done(Ok(n)),
            Some(Ok(None)) => RequestIn::Waiting,
            Some(Err(err)) => RequestIn::Done(Err(err)),
            None => if self is Waiting {
                RequestIn::Polling
            } else {
                self
            },
        }
    }

    /// The pipe after an event: the toggle advances with an accepted packet.
    pub open spec fn next_pipe(self, pipe: PioPipe, room: nat, event: Event) -> PioPipe {
        match self.polled(pipe, room, event) {
            Some(Ok(Some(_))) => PioPipe { toggle_data1: !pipe.toggle_data1, ..pipe },
            _ => pipe,
        }
    }

    /// The caller's buffer after an event.
    pub open spec fn next_buf(self, pipe: PioPipe, buf: Seq<u8>, event: Event) -> Seq<u8> {
        match (self.polled(pipe, buf.len(), event), event) {
            (Some(result), Event::Reply { packet, .. }) => data_in_buffer(packet@, result, buf),
            _ => buf,
        }
    }

    /// The action to perform next.
    pub fn action(&self, pipe: &PioPipe) -> (action: Action)
        ensures
            action == self.asks(*pipe),
    {
        match self {
            RequestIn::Polling => Action::Poll,
            RequestIn::Waiting => Action::Sleep { us: pipe.interval_us },
            RequestIn::Done(_) => Action::Finished,
        }
    }

    /// The outcome, once there is one.
    pub fn outcome(&self) -> (outcome: Option<Result<usize, PipeError>>)
        ensures
            outcome == (match *self {
                RequestIn::Done(result) => Some(result),
                _ => None,
            }),
    {
        match self {
            RequestIn::Done(result) => Some(*result),
            _ => None,
        }
    }

    /// Take in what the action brought; `buf` is the caller's buffer.
    pub fn step(&mut self, pipe: &mut PioPipe, buf: &mut [u8], event: Event)
        requires
            answers(old(self).asks(*old(pipe)), event),
        ensures
            *final(self) == old(self).next(*old(pipe), old(buf)@.len(), event),
            *final(pipe) == old(self).next_pipe(*old(pipe), old(buf)@.len(), event),
            final(buf)@ == old(self).next_buf(*old(pipe), old(buf)@, event),
    {
        match event {
            Event::Reply { packet, status } => {
                let polled = in_once(packet, status, pipe.toggle_data1, buf);
                let mut toggle = pipe.toggle_data1;
                let result = reply::request_in(polled, &mut toggle);
                pipe.toggle_data1 = toggle;
                *self =
                match result {
                    Err(PipeError::Timeout) => RequestIn::Waiting,
                    _ => RequestIn::Done(result),
                };
            },
            _ => {
                *self = RequestIn::Polling;
            },
        }
    }
}

/// Where an interrupt or bulk OUT transfer stands.
#[derive(Clone, Copy, Debug, PartialEq, Eq)]
pub enum RequestOutPhase {
    /// Sending a packet of data.
    Sending,
    /// Not acknowledged: waiting one polling interval.
    Waiting,
    /// Sending the empty packet at the end.
    Terminating,
    /// Not acknowledged: waiting one polling interval.
    TerminatingWait,
    /// Done.
    Done(Result<(), PipeError>),
}

/// An interrupt or bulk OUT transfer: the data in packets of at most `mps` bytes, then an
/// empty packet if there is no data or the end has to be marked.
#[derive(Clone, Copy, Debug, PartialEq, Eq)]
pub struct RequestOut {
    /// Length of the caller's data.
    pub len: usize,
    /// Largest packet.
    pub mps: usize,
    /// Whether an empty packet ends the transfer.
    pub zlp: bool,
    /// Bytes that the device has acknowledged.
    pub sent: usize,
    /// Where the transfer stands.
    pub phase: RequestOutPhase,
}

impl RequestOut {
    /// No more is sent than there is, and while packets are sent there is some left.
    pub open spec fn wf(self) -> bool {
        &&& self.sent <= self.len
        &&& self.mps >= 1
        &&& (self.phase is Sending || self.phase is Waiting) ==> self.sent < self.len
    }

    /// The action that the transfer is waiting for.
    pub open spec fn asks(self, pipe: PioPipe) -> Action {
        match self.phase {
            RequestOutPhase::Sending => Action::Send {
                data1: pipe.toggle_data1,
                start: self.sent,
                end: chunk_end_spec(self.sent, self.mps, self.len),
            },
            RequestOutPhase::Waiting => Action::Sleep { us: pipe.interval_us },
            RequestOutPhase::Terminating => Action::Send {
                data1: pipe.toggle_data1,
                start: self.len,
                end: self.len,
            },
            RequestOutPhase::TerminatingWait => Action::Sleep { us: pipe.interval_us },
            RequestOutPhase::Done(_) => Action::Finished,
        }
    }

    /// The transfer in another phase.
    pub open spec fn at(self, phase: RequestOutPhase) -> RequestOut {
        RequestOut { phase, ..self }
    }

    /// Where the transfer continues when `sent` bytes are acknowledged.
    pub open spec fn stage(self, sent: usize) -> RequestOutPhase {
        if sent < self.len {
            RequestOutPhase::Sending
        } else if self.zlp {
            RequestOutPhase::Terminating
        } else {
            RequestOutPhase::Done(Ok(()))
        }
    }

    /// Whether an event is the acknowledgement of a packet.
    pub open spec fn is_ack(self, event: Event) -> bool {
        &&& self.phase is Sending || self.phase is Terminating
        &&& event matches Event::Reply { packet, .. }
        &&& handshake_spec(packet@) == Ok::<bool, PipeError>(true)
    }

    /// The transfer after an event.
    pub open spec fn next(self, event: Event) -> RequestOut {
        match (self.phase, event) {
            (RequestOutPhase::Sending, Event::Reply { packet, .. }) => match handshake_spec(
                packet@,
            ) {
                Ok(true) => {
                    let sent = chunk_end_spec(self.sent, self.mps, self.len);
                    RequestOut { sent, phase: self.stage(sent), ..self }
                },
                Ok(false) => self.at(RequestOutPhase::Waiting),
                Err(err) => self.at(RequestOutPhase::Done(Err(err))),
            },
            (RequestOutPhase::Waiting, Event::Slept) => self.at(RequestOutPhase::Sending),
            (RequestOutPhase::Terminating, Event::Reply { packet, .. }) => match handshake_spec(
                packet@,
            ) {
                Ok(true) => self.at(RequestOutPhase::Done(Ok(()))),
                Ok(false) => self.at(RequestOutPhase::TerminatingWait),
                Err(err) => self.at(RequestOutPhase::Done(Err(err))),
            },
            (RequestOutPhase::TerminatingWait, Event::Slept) => self.at(
                RequestOutPhase::Terminating,
            ),
            (_, Event::Refused) => self.at(RequestOutPhase::Done(Err(PipeError::BufferOverflow))),
            _ => self,
        }
    }

    /// The pipe after an event: the toggle advances with an acknowledged packet.
    pub open spec fn next_pipe(self, pipe: PioPipe, event: Event) -> PioPipe {
        if self.is_ack(event) {
            PioPipe { toggle_data1: !pipe.toggle_data1, ..pipe }
        } else {
            pipe
        }
    }

    /// The action to perform next.
    pub fn action(&self, pipe: &PioPipe) -> (action: Action)
        requires
            self.wf(),
        ensures
            action == self.asks(*pipe),
            action matches Action::Send { start, end, .. } ==> start <= end <= self.len && end
                - start <= self.mps,
    {
        match self.phase {
            RequestOutPhase::Sending => Action::Send {
                data1: pipe.toggle_data1,
                start: self.sent,
                end: chunk_end(self.sent, self.mps, self.len),
            },
            RequestOutPhase::Waiting => Action::Sleep { us: pipe.interval_us },
            RequestOutPhase::Terminating => Action::Send {
                data1: pipe.toggle_data1,
                start: self.len,
                end: self.len,
            },
            RequestOutPhase::TerminatingWait => Action::Sleep { us: pipe.interval_us },
            RequestOutPhase::Done(_) => Action::Finished,
        }
    }

    /// The outcome, once there is one.
    pub fn outcome(&self) -> (outcome: Option<Result<(), PipeError>>)
        ensures
            outcome == (match self.phase {
                RequestOutPhase::Done(result) => Some(result),
                _ => None,
            }),
    {
        match self.phase {
            RequestOutPhase::Done(result) => Some(result),
            _ => None,
        }
    }

    /// Send one packet, retrying NAK and silence.
    fn request_out_packet(&mut self, pipe: &mut PioPipe, packet: &[u8])
        requires
            old(self).wf(),
            old(self).phase is Sending || old(self).phase is Terminating,
        ensures
            forall|status: RxPacketStatus|
                *final(self) == #[trigger] old(self).next(Event::Reply { packet, status }),
            forall|status: RxPacketStatus|
                *final(pipe) == #[trigger] old(self).next_pipe(
                    *old(pipe),
                    Event::Reply { packet, status },
                ),
            final(self).wf(),
    {
        let mut toggle = pipe.toggle_data1;
        let result = reply::request_out(check_ack(packet), &mut toggle);
        pipe.toggle_data1 = toggle;
        let terminating = match self.phase {
            RequestOutPhase::Terminating => true,
            _ => false,
        };
        match result {
            Err(PipeError::Timeout) => {
                self.phase =
                if terminating {
                    RequestOutPhase::TerminatingWait
                } else {
                    RequestOutPhase::Waiting
                };
            },
            Ok(()) if !terminating => {
                self.sent = chunk_end(self.sent, self.mps, self.len);
                self.phase =
                if self.sent < self.len {
                    RequestOutPhase::Sending
                } else if self.zlp {
                    RequestOutPhase::Terminating
                } else {
                    RequestOutPhase::Done(Ok(()))
                };
            },
            _ => {
                self.phase = RequestOutPhase::Done(result);
            },
        }
    }

    /// Take in what the action brought.
    pub fn step(&mut self, pipe: &mut PioPipe, event: Event)
        requires
            old(self).wf(),
            answers(old(self).asks(*old(pipe)), event),
        ensures
            *final(self) == old(self).next(event),
            *final(pipe) == old(self).next_pipe(*old(pipe), event),
            final(self).wf(),
    {
        match (self.phase, event) {
            (RequestOutPhase::Waiting, Event::Slept) => {
                self.phase = RequestOutPhase::Sending;
            },
            (RequestOutPhase::TerminatingWait, Event::Slept) => {
                self.phase = RequestOutPhase::Terminating;
            },
            (_, Event::Reply { packet, status }) => {
                self.request_out_packet(pipe, packet);
                assert(*self == old(self).next(Event::Reply { packet, status }));
                assert(*pipe == old(self).next_pipe(*old(pipe), Event::Reply { packet, status }));
            },
            (_, Event::Refused) => {
                self.phase = RequestOutPhase::Done(Err(PipeError::BufferOverflow));
            },
            _ => {},
        }
    }
}

} // verus!
