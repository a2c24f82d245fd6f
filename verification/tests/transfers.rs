use rp_pio_usb_host::bus::{Bus as RootPort, DeviceEvent, PipeError, RxPacketStatus, Speed};
use rp_pio_usb_host::clock::deadline;
use rp_pio_usb_host::diag::Anomaly;
use rp_pio_usb_host::embassy::{
    Bus, EndpointInfo, EndpointType, HostError, PioUsbAllocator, WaitStep,
};
use rp_pio_usb_host::io;
use rp_pio_usb_host::pid::{USB_PID_ACK, USB_PID_DATA0, USB_PID_DATA1, USB_PID_NAK, USB_PID_STALL};
use rp_pio_usb_host::pipe::{needs_terminating_zlp, setup_length, PioPipe, TimeoutConfig};
use rp_pio_usb_host::transaction::Transaction;
use rp_pio_usb_host::transfer::{begin, packet_pid, Action, Event};

const SYNC: u8 = 0x80;
const ACK: &[u8] = &[SYNC, USB_PID_ACK];
const NAK: &[u8] = &[SYNC, USB_PID_NAK];
const STALL: &[u8] = &[SYNC, USB_PID_STALL];

fn endpoint(ep_type: EndpointType, max_packet_size: u16) -> EndpointInfo {
    EndpointInfo { addr: 0x81, ep_type, max_packet_size, interval_ms: 8 }
}

fn pipe(mps: u16) -> PioPipe {
    let shared = Bus::new();
    let controller = shared.controller();
    let allocator = controller.allocator();
    allocator
        .alloc_pipe(5, &endpoint(EndpointType::Control, mps), EndpointType::Control, false)
        .unwrap()
}

fn data(pid: u8, payload: &[u8]) -> Vec<u8> {
    let mut packet = vec![SYNC, pid];
    packet.extend_from_slice(payload);
    packet.extend_from_slice(&[0xaa, 0xbb]);
    packet
}

fn reply(packet: &[u8]) -> Event<'_> {
    Event::Reply { packet, status: RxPacketStatus::Other }
}

fn valid(packet: &[u8]) -> Event<'_> {
    Event::Reply { packet, status: RxPacketStatus::ValidData }
}

#[test]
fn deadlines_are_in_microsecond_ticks() {
    assert_eq!(deadline(7, 50), 50_007);
    assert_eq!(deadline(0, 0), 0);
}

#[test]
fn new_pipe() {
    let shared = Bus::new();
    let allocator: PioUsbAllocator = shared.controller().allocator();
    let info = EndpointInfo {
        addr: 0x8f,
        ep_type: EndpointType::Interrupt,
        max_packet_size: 64,
        interval_ms: 0,
    };
    let p = allocator.clone().alloc_pipe(9, &info, EndpointType::Interrupt, false).unwrap();
    assert_eq!(p.addr, 9);
    assert_eq!(p.ep, 0x0f);
    assert_eq!(p.mps, 64);
    assert_eq!(p.interval_us, 1000);
    assert!(!p.toggle_data1);
    assert_eq!(p.timeout, TimeoutConfig { data_ms: 500, no_data_ms: 50 });
    assert_eq!(p.timeout, TimeoutConfig::default());
    let slow = EndpointInfo { interval_ms: 255, ..info };
    let p = allocator.alloc_pipe(9, &slow, EndpointType::Interrupt, false).unwrap();
    assert_eq!(p.interval_us, 255_000);
}

#[test]
fn refused_pipes() {
    let shared = Bus::new();
    let allocator = shared.controller().allocator();
    let bulk = EndpointType::Bulk;
    let iso = EndpointType::Isochronous;
    let err = |info: &EndpointInfo, t: EndpointType, split: bool| {
        allocator.alloc_pipe(1, info, t, split).unwrap_err()
    };
    assert_eq!(err(&endpoint(iso, 0), bulk, true), HostError::SplitUnsupported);
    assert_eq!(err(&endpoint(iso, 0), bulk, false), HostError::TypeMismatch);
    assert_eq!(err(&endpoint(iso, 0), iso, false), HostError::IsochronousUnsupported);
    assert_eq!(err(&endpoint(bulk, 0), bulk, false), HostError::PacketSizeUnsupported);
    assert_eq!(err(&endpoint(bulk, 65), bulk, false), HostError::PacketSizeUnsupported);
    assert_eq!(
        HostError::SplitUnsupported.message(),
        "split transactions (LS-via-hub PRE / HS TT) unsupported"
    );
    assert_eq!(HostError::TypeMismatch.message(), "pipe and endpoint types do not match");
    assert_eq!(
        HostError::IsochronousUnsupported.message(),
        "isochronous endpoints unsupported"
    );
    assert_eq!(
        HostError::PacketSizeUnsupported.message(),
        "unsupported endpoint maximum packet size"
    );
}

#[test]
fn device_event_wait() {
    let shared = Bus::new();
    let controller = shared.controller();
    assert_eq!(controller.wait_for_device_event(None), WaitStep::Sleep { us: 1000 });
    assert_eq!(controller.bus_reset().action(), io::Action::PauseSof { paused: true });
    let event = DeviceEvent::Connected(Speed::Low);
    assert_eq!(controller.wait_for_device_event(Some(event)), WaitStep::Report(event));
}

#[test]
fn actions_stand_for_transactions() {
    let p = pipe(8);
    let bus = RootPort::new(16, 17, false, 0);
    let send = Action::Send { data1: true, start: 0, end: 4 };
    assert_eq!(packet_pid(Action::Setup), Some(USB_PID_DATA0));
    assert_eq!(packet_pid(send), Some(USB_PID_DATA1));
    assert_eq!(packet_pid(Action::Poll), None);
    assert_eq!(
        begin(Action::Setup, &bus, &p, true),
        Some(Transaction::control_setup(&bus, 5, 1, true))
    );
    assert_eq!(begin(send, &bus, &p, true), Some(Transaction::out_once(&bus, 5, 1, true, true)));
    assert_eq!(begin(send, &bus, &p, false), Some(Err(PipeError::BufferOverflow)));
    assert_eq!(
        begin(Action::PollData, &bus, &p, false),
        Some(Ok(Transaction::control_data_in(&bus, 5, 1)))
    );
    assert_eq!(
        begin(Action::PollStatus, &bus, &p, false),
        Some(Ok(Transaction::control_status_in(&bus, 5, 1)))
    );
    assert_eq!(begin(Action::Poll, &bus, &p, false), Some(Ok(Transaction::in_once(5, 1))));
    assert_eq!(begin(Action::ReadInstant, &bus, &p, true), None);
    assert_eq!(begin(Action::Sleep { us: 1 }, &bus, &p, true), None);
    assert_eq!(begin(Action::Finished, &bus, &p, true), None);
}

#[test]
fn anomalies_are_those_of_handshakes() {
    let bus = RootPort::new(16, 17, false, 0);
    let out = Transaction::out_once(&bus, 5, 1, true, true).unwrap();
    assert_eq!(out.anomaly(&[]), Some(Anomaly::HsNoReply));
    assert_eq!(out.anomaly(STALL), Some(Anomaly::HsStall));
    assert_eq!(out.anomaly(ACK), None);
    let poll = Transaction::in_once(5, 1);
    assert_eq!(poll.anomaly(&[]), None);
    assert_eq!(poll.anomaly(STALL), None);
}

#[test]
fn setup_length_is_little_endian() {
    assert_eq!(setup_length(&[0, 0, 0, 0, 0, 0, 0x12, 0x34]), 0x3412);
    assert_eq!(setup_length(&[0xff, 0xff, 0xff, 0xff, 0xff, 0xff, 0, 0]), 0);
}

#[test]
fn terminating_zlp_rule() {
    assert!(needs_terminating_zlp(64, 64, true));
    assert!(needs_terminating_zlp(128, 64, true));
    assert!(!needs_terminating_zlp(64, 64, false));
    assert!(!needs_terminating_zlp(0, 64, true));
    assert!(!needs_terminating_zlp(65, 64, true));
    assert!(!needs_terminating_zlp(65, 0, true));
}

#[test]
fn pipe_settings() {
    let mut p = pipe(8);
    p.set_timeout(TimeoutConfig { data_ms: 7, no_data_ms: 3 });
    assert_eq!(p.timeout.data_ms, 7);
    p.toggle_data1 = true;
    p.reset_data_toggle();
    assert!(!p.toggle_data1);
}

#[test]
fn control_in_collects_packets() {
    let p = pipe(4);
    let mut buf = [0u8; 12];
    let mut t = p.control_in(&[0, 0, 0, 0, 0, 0, 10, 0], buf.len(), 1_000).unwrap();
    assert_eq!(t.deadline, 501_000);
    assert_eq!(t.action(), Action::Setup);
    t.step(&mut buf, reply(ACK));
    assert_eq!(t.action(), Action::PollData);
    t.step(&mut buf, valid(&data(USB_PID_DATA1, &[1, 2, 3, 4])));
    // A repeat of the packet just taken is not taken again.
    t.step(&mut buf, valid(&data(USB_PID_DATA1, &[1, 2, 3, 4])));
    assert_eq!(t.action(), Action::ReadInstant);
    t.step(&mut buf, Event::Instant(2_000));
    assert_eq!(t.action(), Action::Sleep { us: 1000 });
    t.step(&mut buf, Event::Slept);
    t.step(&mut buf, valid(&data(USB_PID_DATA0, &[5, 6, 7, 8])));
    t.step(&mut buf, valid(&data(USB_PID_DATA1, &[9, 10])));
    assert_eq!(t.action(), Action::Send { data1: true, start: 0, end: 0 });
    t.step(&mut buf, reply(ACK));
    assert_eq!(t.action(), Action::Finished);
    assert_eq!(t.outcome(), Some(Ok(10)));
    assert_eq!(buf, [1, 2, 3, 4, 5, 6, 7, 8, 9, 10, 0, 0]);
}

#[test]
fn control_in_short_packet_ends_the_data() {
    let p = pipe(8);
    let mut buf = [7u8; 18];
    let mut t = p.control_in(&[0, 0, 0, 0, 0, 0, 18, 0], buf.len(), 0).unwrap();
    t.step(&mut buf, reply(ACK));
    t.step(&mut buf, valid(&data(USB_PID_DATA1, &[])));
    t.step(&mut buf, reply(ACK));
    assert_eq!(t.outcome(), Some(Ok(0)));
    assert_eq!(buf, [7; 18]);
}

#[test]
fn control_in_requested_length_ends_the_data() {
    let p = pipe(8);
    let mut buf = [0u8; 8];
    let mut t = p.control_in(&[0, 0, 0, 0, 0, 0, 8, 0], buf.len(), 0).unwrap();
    t.step(&mut buf, reply(ACK));
    t.step(&mut buf, valid(&data(USB_PID_DATA1, &[1; 8])));
    assert_eq!(t.action(), Action::Send { data1: true, start: 0, end: 0 });
}

#[test]
fn control_in_without_data() {
    let p = pipe(8);
    let mut buf = [0u8; 0];
    let mut t = p.control_in(&[0; 8], 0, 0).unwrap();
    t.step(&mut buf, reply(ACK));
    assert_eq!(t.action(), Action::Send { data1: true, start: 0, end: 0 });
    t.step(&mut buf, reply(NAK));
    t.step(&mut buf, Event::Instant(499_999));
    assert_eq!(t.action(), Action::Sleep { us: 1000 });
    t.step(&mut buf, Event::Slept);
    t.step(&mut buf, reply(ACK));
    assert_eq!(t.outcome(), Some(Ok(0)));
}

#[test]
fn control_in_overflows() {
    let p = pipe(8);
    assert_eq!(
        p.control_in(&[0, 0, 0, 0, 0, 0, 9, 0], 8, 0).unwrap_err(),
        PipeError::BufferOverflow
    );
    let mut buf = [0u8; 4];
    let mut t = p.control_in(&[0, 0, 0, 0, 0, 0, 4, 0], 4, 0).unwrap();
    t.step(&mut buf, reply(ACK));
    t.step(&mut buf, valid(&data(USB_PID_DATA1, &[1; 5])));
    assert_eq!(t.outcome(), Some(Err(PipeError::BufferOverflow)));
    assert_eq!(buf, [0; 4]);
    let mut t = p.control_in(&[0; 8], 4, 0).unwrap();
    t.step(&mut buf, Event::Refused);
    assert_eq!(t.outcome(), Some(Err(PipeError::BufferOverflow)));
}

#[test]
fn setup_is_resent_until_acknowledged_only() {
    let p = pipe(8);
    let mut buf = [0u8; 8];
    let mut t = p.control_in(&[0, 0, 0, 0, 0, 0, 8, 0], 8, 0).unwrap();
    for i in 0..3u64 {
        assert_eq!(t.action(), Action::Setup);
        t.step(&mut buf, reply(&[]));
        t.step(&mut buf, Event::Instant(i * 1000));
        t.step(&mut buf, Event::Slept);
    }
    t.step(&mut buf, reply(ACK));
    for i in 0..50u64 {
        assert_eq!(t.action(), Action::PollData);
        t.step(&mut buf, reply(NAK));
        t.step(&mut buf, Event::Instant(5_000 + i * 1000));
        t.step(&mut buf, Event::Slept);
    }
    t.step(&mut buf, reply(STALL));
    assert_eq!(t.outcome(), Some(Err(PipeError::Stall)));
}

#[test]
fn control_in_times_out_at_the_deadline() {
    let p = pipe(8);
    let mut buf = [0u8; 8];
    let mut t = p.control_in(&[0, 0, 0, 0, 0, 0, 8, 0], 8, 0).unwrap();
    t.step(&mut buf, reply(ACK));
    t.step(&mut buf, reply(NAK));
    t.step(&mut buf, Event::Instant(500_000));
    assert_eq!(t.outcome(), Some(Err(PipeError::Timeout)));
    let mut t = p.control_in(&[0, 0, 0, 0, 0, 0, 8, 0], 8, 0).unwrap();
    t.step(&mut buf, reply(NAK));
    t.step(&mut buf, Event::Instant(500_000));
    assert_eq!(t.outcome(), Some(Err(PipeError::Timeout)));
}

#[test]
fn control_out_sends_chunks() {
    let p = pipe(4);
    let mut t = p.control_out(10, 0);
    assert_eq!(t.deadline, 500_000);
    t.step(reply(ACK));
    let mut sent = Vec::new();
    while let Action::Send { data1, start, end } = t.action() {
        sent.push((data1, start, end));
        t.step(reply(NAK));
        t.step(Event::Instant(10));
        assert_eq!(t.action(), Action::Sleep { us: 1000 });
        t.step(Event::Slept);
        assert_eq!(t.action(), Action::Send { data1, start, end });
        t.step(reply(ACK));
    }
    assert_eq!(sent, vec![(true, 0, 4), (false, 4, 8), (true, 8, 10)]);
    assert_eq!(t.action(), Action::PollStatus);
    t.step(reply(NAK));
    t.step(Event::Instant(20));
    t.step(Event::Slept);
    t.step(valid(&data(USB_PID_DATA1, &[])));
    assert_eq!(t.outcome(), Some(Ok(())));
}

#[test]
fn control_out_without_data_has_its_own_timeout() {
    let p = pipe(8);
    let mut t = p.control_out(0, 1);
    assert_eq!(t.deadline, 50_001);
    t.step(reply(ACK));
    assert_eq!(t.action(), Action::PollStatus);
    t.step(reply(NAK));
    t.step(Event::Instant(50_001));
    assert_eq!(t.outcome(), Some(Err(PipeError::Timeout)));
}

#[test]
fn control_out_failures() {
    let p = pipe(8);
    let mut t = p.control_out(3, 0);
    t.step(reply(STALL));
    assert_eq!(t.outcome(), Some(Err(PipeError::Stall)));
    let mut t = p.control_out(3, 0);
    t.step(reply(ACK));
    t.step(Event::Refused);
    assert_eq!(t.outcome(), Some(Err(PipeError::BufferOverflow)));
    let mut t = p.control_out(0, 0);
    t.step(reply(ACK));
    t.step(valid(&data(USB_PID_DATA1, &[1])));
    assert_eq!(t.outcome(), Some(Err(PipeError::BadResponse)));
}

#[test]
fn request_in_polls_until_data() {
    let mut p = pipe(8);
    let mut buf = [0u8; 4];
    let mut t = p.request_in();
    for _ in 0..100 {
        assert_eq!(t.action(&p), Action::Poll);
        t.step(&mut p, &mut buf, reply(NAK));
        assert_eq!(t.action(&p), Action::Sleep { us: 8_000 });
        t.step(&mut p, &mut buf, Event::Slept);
    }
    t.step(&mut p, &mut buf, valid(&data(USB_PID_DATA0, &[1, 2])));
    assert_eq!(t.outcome(), Some(Ok(2)));
    assert!(p.toggle_data1);
    assert_eq!(buf, [1, 2, 0, 0]);
    let mut t = p.request_in();
    t.step(&mut p, &mut buf, valid(&data(USB_PID_DATA0, &[1, 2])));
    assert_eq!(t.outcome(), None);
    t.step(&mut p, &mut buf, Event::Slept);
    t.step(&mut p, &mut buf, Event::Reply { packet: &[], status: RxPacketStatus::Overflow });
    assert_eq!(t.outcome(), Some(Err(PipeError::Babble)));
    assert!(p.toggle_data1);
}

fn send_all(p: &mut PioPipe, len: usize, end_marked: bool) -> Vec<(bool, usize, usize)> {
    let mut t = p.request_out(len, end_marked);
    let mut sent = Vec::new();
    while let Action::Send { data1, start, end } = t.action(p) {
        sent.push((data1, start, end));
        t.step(p, reply(&[]));
        assert_eq!(t.action(p), Action::Sleep { us: 8_000 });
        t.step(p, Event::Slept);
        t.step(p, reply(ACK));
    }
    assert_eq!(t.outcome(), Some(Ok(())));
    sent
}

#[test]
fn request_out_marks_the_end() {
    let mut p = pipe(4);
    assert_eq!(send_all(&mut p, 6, true), vec![(false, 0, 4), (true, 4, 6)]);
    assert_eq!(send_all(&mut p, 4, false), vec![(false, 0, 4)]);
    assert_eq!(send_all(&mut p, 4, true), vec![(true, 0, 4), (false, 4, 4)]);
    assert_eq!(send_all(&mut p, 0, false), vec![(true, 0, 0)]);
    assert!(!p.toggle_data1);
}

#[test]
fn request_out_failures() {
    let mut p = pipe(4);
    let mut t = p.request_out(6, true);
    t.step(&mut p, reply(ACK));
    t.step(&mut p, reply(STALL));
    assert_eq!(t.outcome(), Some(Err(PipeError::Stall)));
    assert!(p.toggle_data1);
    let mut t = p.request_out(6, true);
    t.step(&mut p, Event::Refused);
    assert_eq!(t.outcome(), Some(Err(PipeError::BufferOverflow)));
}
