use rp_pio_usb_host::bus::{
    adjacent, detect_speed, Bus, DeviceEvent, Pull, Pulldown, RxPacketStatus, Speed,
};
use rp_pio_usb_host::io::{Action, Event};
use rp_pio_usb_host::keepalive::Keepalive;
use rp_pio_usb_host::packet::Token;
use rp_pio_usb_host::pid::{
    USB_PID_ACK, USB_PID_DATA0, USB_PID_DATA1, USB_PID_IN, USB_PID_NAK, USB_PID_OUT, USB_PID_SETUP,
};
use rp_pio_usb_host::reset::{BusReset, PollDevice};
use rp_pio_usb_host::settle::Settle;
use rp_pio_usb_host::sof_switch::{EnableHwSof, SofSwitch};
use rp_pio_usb_host::transaction::Transaction;

const SYNC: u8 = 0x80;

fn port(now: u32) -> Bus {
    assert!(adjacent(16, 17));
    Bus::new(16, 17, true, now)
}

fn full_speed(now: u32) -> Bus {
    let mut bus = port(now);
    bus.attached = true;
    bus
}

/// A hardware SOF at 150 MHz: the divider is 3, the period 50000 counts.
fn with_hw_sof(mut bus: Bus, now: u32) -> Bus {
    let mut enable = EnableHwSof::start(&mut bus, 2, 5, 150_000_000);
    loop {
        let event = match enable.action() {
            Action::Finished => return bus,
            Action::ReadClock => Event::Clock(now),
            Action::ReadAbort => Event::Aborting(0),
            Action::ReadHwTime => Event::HwTime { counter: (now % 1000) * 50, now },
            _ => Event::Done,
        };
        enable.step(&mut bus, event);
    }
}

/// Run a transaction against a clock that advances by `tick` at each reading.
fn run(
    t: &mut Transaction,
    bus: &mut Bus,
    now: &mut u32,
    tick: u32,
    packet: &[u8],
    status: RxPacketStatus,
) -> Vec<Action> {
    let mut log = Vec::new();
    loop {
        let action = t.action();
        let event = match action {
            Action::Finished => return log,
            Action::ReadClock => {
                *now += tick;
                Event::Clock(*now)
            }
            Action::ReadCounter => {
                *now += tick;
                Event::Counter((*now % 1000) * 50)
            }
            Action::ReadHwTime => Event::HwTime { counter: (*now % 1000) * 50, now: *now },
            Action::SampleLine => {
                *now += tick;
                Event::Line { now: *now, dp: false, dm: true }
            }
            Action::Receive { .. } => Event::Received { packet, status },
            _ => Event::Done,
        };
        if !matches!(action, Action::ReadClock | Action::ReadCounter | Action::ReadHwTime) {
            log.push(action);
        }
        t.step(bus, event);
    }
}

#[test]
fn pins_have_to_be_adjacent() {
    assert!(adjacent(0, 1));
    assert!(adjacent(17, 16));
    assert!(!adjacent(16, 16));
    assert!(!adjacent(16, 18));
    assert!(!adjacent(255, 0));
}

#[test]
fn pulldowns() {
    assert_eq!(Pulldown::Internal.pad_pull(), Pull::Down);
    assert_eq!(Pulldown::External.pad_pull(), Pull::Floating);
}

#[test]
fn speed_from_inverted_levels() {
    assert_eq!(detect_speed(false, true), Some(Speed::Full));
    assert_eq!(detect_speed(true, false), Some(Speed::Low));
    assert_eq!(detect_speed(true, true), None);
    assert_eq!(detect_speed(false, false), None);
}

#[test]
fn new_port_is_detached() {
    let bus = port(12_345);
    assert_eq!(bus.speed, Speed::Full);
    assert!(!bus.attached);
    assert_eq!(bus.sof_slot, 12);
    assert_eq!(bus.last_sof, 12_345);
    assert_eq!(bus.hw_sof, None);
}

#[test]
fn attach_takes_fifteen_samples() {
    let mut bus = port(0);
    for _ in 0..14 {
        assert_eq!(bus.poll_device_event(true, false), None);
    }
    assert_eq!(
        bus.poll_device_event(true, false),
        Some(DeviceEvent::Connected(Speed::Low))
    );
    assert!(bus.attached);
    assert_eq!(bus.speed, Speed::Low);
    assert_eq!(bus.poll_device_event(true, false), None);
}

#[test]
fn detach_takes_sixty_samples() {
    let mut bus = port(0);
    for _ in 0..200 {
        bus.poll_device_event(false, true);
    }
    assert_eq!(bus.debounce, 60);
    for _ in 0..59 {
        assert_eq!(bus.poll_device_event(true, true), None);
    }
    assert_eq!(bus.poll_device_event(true, true), Some(DeviceEvent::Disconnected));
    assert!(!bus.attached);
    assert_eq!(bus.poll_device_event(true, true), None);
}

#[test]
fn short_plug_in_detaches_after_sixty_frames() {
    let mut bus = port(0);
    for _ in 0..15 {
        bus.poll_device_event(false, true);
    }
    assert!(bus.attached);
    for _ in 0..59 {
        assert_eq!(bus.poll_device_event(true, true), None);
        assert!(bus.attached);
    }
    assert_eq!(bus.poll_device_event(true, true), Some(DeviceEvent::Disconnected));
    assert!(!bus.attached);
}

/// Sample the line `n` times, with or without a full-speed device, expecting no report.
fn sample(bus: &mut Bus, device: bool, n: u32) {
    for _ in 0..n {
        assert_eq!(bus.poll_device_event(!device, true), None);
    }
}

#[test]
fn missed_samples_add_up_on_a_flapping_line() {
    let mut bus = port(0);
    sample(&mut bus, true, 14);
    assert!(bus.poll_device_event(false, true).is_some());
    sample(&mut bus, true, 45);
    sample(&mut bus, false, 50);
    sample(&mut bus, true, 1);
    sample(&mut bus, false, 10);
    assert_eq!(bus.poll_device_event(true, true), Some(DeviceEvent::Disconnected));
    assert_eq!(bus.absent, 0);
}

#[test]
fn one_sample_with_the_device_does_not_start_the_count_again() {
    let mut bus = port(0);
    sample(&mut bus, true, 14);
    assert!(bus.poll_device_event(false, true).is_some());
    sample(&mut bus, false, 59);
    sample(&mut bus, true, 2);
    sample(&mut bus, false, 1);
    assert_eq!(bus.poll_device_event(true, true), Some(DeviceEvent::Disconnected));
}

#[test]
fn samples_before_the_attach_do_not_count() {
    let mut bus = port(0);
    sample(&mut bus, false, 100);
    assert_eq!(bus.absent, 0);
    sample(&mut bus, true, 14);
    assert!(bus.poll_device_event(false, true).is_some());
    sample(&mut bus, false, 59);
    assert_eq!(bus.poll_device_event(true, true), Some(DeviceEvent::Disconnected));
}

#[test]
fn attach_and_detach_alternate() {
    let mut bus = port(0);
    let mut events = Vec::new();
    for i in 0..600u32 {
        let level = (i / 100) % 2 == 0;
        if let Some(event) = bus.poll_device_event(!level, true) {
            events.push(event);
        }
    }
    assert_eq!(events.len(), 6);
    for (i, event) in events.iter().enumerate() {
        assert_eq!(matches!(event, DeviceEvent::Connected(_)), i % 2 == 0);
    }
}

#[test]
fn sof_once_per_slot_and_spaced() {
    let mut bus = full_speed(5_000);
    assert_eq!(bus.sof_if_due(5_900), None);
    assert_eq!(bus.sof_if_due(6_000), Some(6));
    assert_eq!(bus.last_activity, 6_000);
    assert_eq!(bus.sof_if_due(6_900), None);
    bus.last_sof = 6_900;
    assert_eq!(bus.sof_if_due(7_000), None);
    assert_eq!(bus.sof_if_due(7_399), None);
    assert_eq!(bus.sof_if_due(7_400), Some(7));
    let mut idle = port(5_000);
    assert_eq!(idle.sof_if_due(9_000), None);
}

#[test]
fn sof_in_the_first_half_keeps_the_period() {
    let mut bus = full_speed(5_000);
    for slot in 6..3_000u32 {
        let late = slot % 501;
        assert_eq!(bus.sof_if_due(slot * 1000 + late), Some(slot));
        assert_eq!(bus.sof_if_due(slot * 1000 + 999), None);
    }
    bus.last_sof = 2_999_500;
    assert_eq!(bus.sof_if_due(3_000_000), Some(3_000));
}

#[test]
fn schedule_moves_with_sofs_only() {
    let mut bus = full_speed(5_000);
    let mut now = 5_100;
    for _ in 0..40 {
        let before = (bus.last_sof, bus.sof_slot);
        let mut t = Transaction::in_once(3, 1);
        let log = run(&mut t, &mut bus, &mut now, 7, &[SYNC, USB_PID_NAK], RxPacketStatus::Other);
        let sofs = log.iter().filter(|a| matches!(a, Action::TransmitSof { .. })).count();
        assert_eq!(sofs == 0, before == (bus.last_sof, bus.sof_slot));
        if sofs > 0 {
            assert!(bus.last_sof - before.0 >= 500 && bus.sof_slot > before.1);
        }
        now += 700;
    }
}

#[test]
fn in_transaction_acks_valid_data() {
    let mut bus = full_speed(5_000);
    let mut now = 5_100;
    let mut t = Transaction::in_once(3, 1);
    let packet = [SYNC, USB_PID_DATA0, 1, 0xaa, 0xbb];
    let log = run(&mut t, &mut bus, &mut now, 1, &packet, RxPacketStatus::ValidData);
    assert_eq!(
        log,
        vec![
            Action::Transmit { token: Token { pid: USB_PID_IN, addr: 3, ep: 1 }, data: None },
            Action::Receive { capacity: 68, stage_ack: true },
            Action::StartAck,
            Action::AwaitTx,
        ]
    );
    assert_eq!(bus.last_activity, now);
}

#[test]
fn sof_goes_before_the_token() {
    let mut bus = full_speed(5_000);
    let mut now = 6_000;
    let mut t = Transaction::control_data_in(&bus, 3, 0);
    let log = run(&mut t, &mut bus, &mut now, 1, &[SYNC, USB_PID_NAK], RxPacketStatus::Other);
    assert_eq!(
        log,
        vec![
            Action::TransmitSof { slot: 6, frame: 6 },
            Action::Transmit { token: Token { pid: USB_PID_IN, addr: 3, ep: 0 }, data: None },
            Action::Receive { capacity: 68, stage_ack: true },
        ]
    );
}

#[test]
fn token_waits_out_the_end_of_frame() {
    let mut bus = full_speed(5_000);
    let mut now = 5_950;
    let mut t = Transaction::out_once(&bus, 3, 2, true, true).unwrap();
    let log = run(&mut t, &mut bus, &mut now, 10, &[SYNC, USB_PID_ACK], RxPacketStatus::Other);
    assert_eq!(log[0], Action::TransmitSof { slot: 6, frame: 6 });
    assert_eq!(
        log[1],
        Action::Transmit {
            token: Token { pid: USB_PID_OUT, addr: 3, ep: 2 },
            data: Some(USB_PID_DATA1),
        }
    );
    assert_eq!(log[2], Action::Receive { capacity: 8, stage_ack: false });
    assert_eq!(log.len(), 3);
    assert!(now >= 6_000);
}

#[test]
fn low_speed_needs_no_sof() {
    let mut bus = full_speed(5_000);
    bus.speed = Speed::Low;
    let mut now = 7_999;
    let mut t = Transaction::control_setup(&bus, 0, 0, true).unwrap();
    let log = run(&mut t, &mut bus, &mut now, 1, &[SYNC, USB_PID_ACK], RxPacketStatus::Other);
    assert_eq!(
        log,
        vec![
            Action::Transmit {
                token: Token { pid: USB_PID_SETUP, addr: 0, ep: 0 },
                data: Some(USB_PID_DATA0),
            },
            Action::Receive { capacity: 8, stage_ack: false },
        ]
    );
}

#[test]
fn refused_payload_is_an_overflow() {
    let bus = full_speed(5_000);
    assert!(Transaction::out_once(&bus, 3, 2, true, false).is_err());
    assert!(Transaction::control_setup(&bus, 3, 0, false).is_err());
}

#[test]
fn bad_reply_settles_in_silence() {
    let mut bus = full_speed(5_000);
    let mut now = 5_100;
    let in_token = Action::Transmit {
        token: Token { pid: USB_PID_IN, addr: 3, ep: 0 },
        data: None,
    };
    let mut t = Transaction::control_status_in(&bus, 3, 0);
    let log = run(&mut t, &mut bus, &mut now, 1, &[SYNC], RxPacketStatus::Other);
    assert_eq!(log[0], in_token);
    assert_eq!(log[1], Action::Receive { capacity: 8, stage_ack: true });
    assert!(log.len() > 2);
    assert!(log[2..].iter().all(|a| *a == Action::SampleLine));
    assert_eq!(bus.last_activity, now);
}

#[test]
fn hw_guard_keeps_tokens_clear_of_the_sof() {
    let mut bus = with_hw_sof(full_speed(5_000), 5_500);
    assert!(bus.hw_sof_active());
    let mut now = 5_990;
    let in_token = Action::Transmit {
        token: Token { pid: USB_PID_IN, addr: 3, ep: 0 },
        data: None,
    };
    let mut t = Transaction::control_data_in(&bus, 3, 0);
    let log = run(&mut t, &mut bus, &mut now, 1, &[SYNC, USB_PID_NAK], RxPacketStatus::Other);
    assert_eq!(log[0], Action::PrepareSof { frame: 7 });
    assert_eq!(log[1], in_token);
    assert!(now >= 6_008 && now < 6_020);
}

#[test]
fn settling_ends_on_idle_or_timeout() {
    let mut s = Settle::begin(100);
    assert!(!s.poll(Speed::Full, 101, true, true));
    assert!(!s.poll(Speed::Full, 102, false, true));
    assert!(s.poll(Speed::Full, 103, false, true));
    let mut s = Settle::begin(100);
    assert!(!s.poll(Speed::Full, 199, true, true));
    assert!(s.poll(Speed::Full, 200, true, true));
    let mut s = Settle::begin(100);
    assert!(!s.poll(Speed::Low, 101, true, false));
    assert!(s.poll(Speed::Low, 102, true, false));
}

/// Run a keep-alive check at a fixed time.
fn check(bus: &mut Bus, now: u32) -> (Vec<Action>, u32) {
    let mut k = Keepalive::start(bus);
    let mut log = Vec::new();
    loop {
        let action = k.action();
        let event = match action {
            Action::Finished => return (log, k.next_us().unwrap()),
            Action::ReadClock => Event::Clock(now),
            Action::ReadCounter => Event::Counter((now % 1000) * 50),
            Action::ReadHwTime => Event::HwTime { counter: (now % 1000) * 50, now },
            _ => {
                log.push(action);
                Event::Done
            }
        };
        k.step(bus, event);
    }
}

#[test]
fn keepalive_of_an_empty_port() {
    let mut bus = port(0);
    assert_eq!(check(&mut bus, 7_777), (vec![], 1000));
}

#[test]
fn keepalive_at_high_speed_is_idle() {
    let mut bus = full_speed(0);
    bus.speed = Speed::High;
    assert_eq!(check(&mut bus, 7_777), (vec![], 1000));
}

#[test]
fn keepalive_sends_the_sof() {
    let mut bus = full_speed(5_000);
    assert_eq!(
        check(&mut bus, 2_049_003),
        (vec![Action::TransmitSof { slot: 2049, frame: 1 }], 997)
    );
    assert_eq!(check(&mut bus, 2_049_903), (vec![], 97));
}

#[test]
fn keepalive_at_low_speed() {
    let mut bus = full_speed(5_000);
    bus.speed = Speed::Low;
    assert_eq!(check(&mut bus, 5_999), (vec![], 1));
    assert_eq!(check(&mut bus, 6_000), (vec![Action::TransmitKeepalive], 1000));
    assert_eq!(bus.last_activity, 6_000);
    assert_eq!(check(&mut bus, 6_400), (vec![], 600));
}

#[test]
fn keepalive_with_hw_sof_prepares_the_next() {
    let mut bus = with_hw_sof(full_speed(5_000), 5_500);
    assert_eq!(check(&mut bus, 6_020), (vec![Action::PrepareSof { frame: 7 }], 980));
    assert_eq!(check(&mut bus, 6_021), (vec![], 979));
    assert_eq!(check(&mut bus, 6_980), (vec![], 20));
    assert_eq!(check(&mut bus, 7_007), (vec![], 993));
    assert_eq!(check(&mut bus, 7_008), (vec![Action::PrepareSof { frame: 8 }], 992));
}

/// Run a reset; the clock follows the sleeps.
fn reset(bus: &mut Bus, now: &mut u64) -> Vec<Action> {
    let mut r = BusReset::start();
    let mut log = Vec::new();
    loop {
        let action = r.action();
        let at = *now as u32;
        let event = match action {
            Action::Finished => return log,
            Action::ReadClock => Event::Clock(at),
            Action::ReadCounter => Event::Counter((at % 1000) * 50),
            Action::ReadHwTime => Event::HwTime { counter: (at % 1000) * 50, now: at },
            Action::ReadAbort => Event::Aborting(0),
            Action::Sleep { us } => {
                *now += us;
                log.push(action);
                Event::Done
            }
            _ => {
                log.push(action);
                Event::Done
            }
        };
        r.step(bus, event);
    }
}

#[test]
fn reset_pulse_and_recovery() {
    let mut bus = full_speed(5_000);
    let mut now = 5_500;
    let log = reset(&mut bus, &mut now);
    assert_eq!(
        log[..5],
        [
            Action::PauseSof { paused: true },
            Action::DriveReset,
            Action::Sleep { us: 50_000 },
            Action::ReleaseReset,
            Action::PauseSof { paused: false },
        ]
    );
    let recovery = &log[5..];
    assert_eq!(recovery.iter().filter(|a| matches!(a, Action::Sleep { .. })).count(), 15);
    assert_eq!(recovery.iter().filter(|a| matches!(a, Action::TransmitSof { .. })).count(), 15);
    assert!(!recovery.iter().any(|a| matches!(a, Action::Transmit { .. })));
    assert!(now >= 5_500 + 50_000 + 14_000);
}

#[test]
fn reset_switches_hw_sof_off_and_on() {
    let mut bus = with_hw_sof(full_speed(5_000), 5_500);
    let mut now = 5_500;
    let log = reset(&mut bus, &mut now);
    let first = |wanted: Action| log.iter().position(|a| *a == wanted).unwrap();
    let drive = first(Action::DriveReset);
    let release = first(Action::ReleaseReset);
    assert!(first(Action::AbortDma { word: 1 << 5 }) < drive);
    assert!(first(Action::DisableSofSm) < drive);
    let start = log.iter().position(|a| matches!(a, Action::StartDma { .. })).unwrap();
    assert!(start > release);
    assert!(bus.hw_sof_active());
}

#[test]
fn hw_sof_stays_off_at_low_speed() {
    let mut bus = with_hw_sof(port(5_000), 5_500);
    assert!(!bus.hw_sof_active());
    bus.speed = Speed::Low;
    let mut now = 5_500;
    let log = reset(&mut bus, &mut now);
    assert!(!log.iter().any(|a| matches!(a, Action::StartDma { .. })));
    assert!(!bus.hw_sof_active());
}

#[test]
fn switch_waits_for_the_dma_to_drain() {
    let mut bus = with_hw_sof(full_speed(5_000), 5_500);
    let mut s = SofSwitch::start(&bus, false);
    assert_eq!(s.action(), Action::AbortDma { word: 0x20 });
    s.step(&mut bus, Event::Done);
    s.step(&mut bus, Event::Aborting(0x0021));
    assert_eq!(s.action(), Action::ReadAbort);
    s.step(&mut bus, Event::Aborting(0x0001));
    assert_eq!(s.action(), Action::DisableSofSm);
    assert!(bus.hw_sof_active());
    s.step(&mut bus, Event::Done);
    assert_eq!(s.action(), Action::Finished);
    assert!(!bus.hw_sof_active());
}

#[test]
fn enabling_twice_has_no_effect() {
    let mut bus = with_hw_sof(full_speed(5_000), 5_500);
    let before = bus;
    let e = EnableHwSof::start(&mut bus, 0, 0, 1);
    assert_eq!(e.action(), Action::Finished);
    assert_eq!(bus, before);
}

#[test]
fn reported_device_was_reset() {
    let mut bus = port(0);
    let mut now = 0u64;
    let mut seen = 0;
    let mut polls = 0;
    while seen == 0 {
        let mut p = PollDevice::start();
        let mut driven = 0;
        loop {
            let at = now as u32;
            let action = p.action();
            let event = match action {
                Action::Finished => break,
                Action::SampleLine => Event::Line { now: at, dp: false, dm: true },
                Action::ReadClock => Event::Clock(at),
                Action::Sleep { us } => {
                    now += us;
                    Event::Done
                }
                Action::DriveReset => {
                    driven += 1;
                    Event::Done
                }
                _ => Event::Done,
            };
            p.step(&mut bus, event);
        }
        polls += 1;
        if let Some(change) = p.change() {
            assert_eq!(change, DeviceEvent::Connected(Speed::Full));
            assert_eq!(driven, 1);
            seen += 1;
        } else {
            assert_eq!(driven, 0);
        }
        now += 1000;
    }
    assert_eq!(polls, 15);
    assert!(bus.attached);
}

#[test]
fn lost_device_releases_the_bus() {
    let mut bus = full_speed(0);
    bus.debounce = 1;
    bus.absent = 59;
    let mut p = PollDevice::start();
    p.step(&mut bus, Event::Line { now: 5, dp: true, dm: true });
    assert_eq!(p.action(), Action::ReleaseBus);
    p.step(&mut bus, Event::Done);
    assert_eq!(p.change(), Some(DeviceEvent::Disconnected));
    assert!(!bus.attached);
}
