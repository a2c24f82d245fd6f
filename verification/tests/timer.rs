use rp_pio_usb_host::embassy::Bus;
use rp_pio_usb_host::frame_timer::{
    next_boundary, set_frame_alarm, tick, Action, ArmFrameAlarm, ArmRetryAlarm, Event, FrameTick,
    IdleTask,
};

fn shared(hw_sof: bool) -> Bus {
    let mut bus = Bus::new();
    assert_eq!(bus.enable_hw_sof(hw_sof), hw_sof);
    bus
}

#[test]
fn boundaries() {
    assert_eq!(next_boundary(5_000, 0), 6_000);
    assert_eq!(next_boundary(5_999, 0), 6_000);
    assert_eq!(next_boundary(5_019, 20), 5_020);
    assert_eq!(next_boundary(5_020, 20), 6_020);
    assert_eq!(next_boundary(4_294_967_295, 0), 704);
}

#[test]
fn frame_alarm_bit() {
    assert_eq!(set_frame_alarm(0), 2);
    assert_eq!(set_frame_alarm(0b1001), 0b1011);
    assert_eq!(set_frame_alarm(0xffff_ffff), 0xffff_ffff);
}

#[test]
fn arming_writes_the_next_boundary() {
    let mut a = ArmFrameAlarm::arm_frame_alarm(&shared(false));
    assert_eq!(a.action(), Action::ReadClock);
    a.step(Event::Clock(5_300));
    assert_eq!(a.action(), Action::WriteAlarm { target: 6_000 });
    a.step(Event::Done);
    a.step(Event::Clock(5_301));
    assert_eq!(a.action(), Action::Finished);
}

#[test]
fn missed_target_moves_to_the_next_frame() {
    let mut a = ArmFrameAlarm::arm_frame_alarm(&shared(true));
    a.step(Event::Clock(6_019));
    assert_eq!(a.action(), Action::WriteAlarm { target: 6_020 });
    a.step(Event::Done);
    a.step(Event::Clock(6_020));
    assert_eq!(a.action(), Action::WriteAlarm { target: 7_020 });
    a.step(Event::Done);
    assert_eq!(a.action(), Action::Finished);
}

fn retry(bus: &Bus, now: u32) -> Action {
    let mut r = ArmRetryAlarm::arm_retry_alarm();
    assert_eq!(r.action(), Action::ReadClock);
    r.step(bus, Event::Clock(now));
    r.action()
}

#[test]
fn retries_while_useful() {
    let bus = shared(false);
    assert_eq!(retry(&bus, 6_499), Action::WriteAlarm { target: 6_501 });
    assert_eq!(retry(&bus, 6_500), Action::ReadClock);
    let mut sent = bus;
    sent.sof_sent(6);
    assert_eq!(retry(&sent, 6_100), Action::ReadClock);
    assert_eq!(retry(&sent, 7_100), Action::WriteAlarm { target: 7_102 });
    let mut paused = bus;
    paused.pause_sof(true);
    assert_eq!(retry(&paused, 6_100), Action::ReadClock);
    paused.pause_sof(false);
    assert_eq!(retry(&paused, 6_100), Action::WriteAlarm { target: 6_102 });
    let hw = shared(true);
    assert_eq!(retry(&hw, 6_899), Action::WriteAlarm { target: 6_919 });
    assert_eq!(retry(&hw, 6_900), Action::ReadClock);
}

#[test]
fn missed_retry_is_made_pending() {
    let bus = shared(false);
    let mut r = ArmRetryAlarm::arm_retry_alarm();
    r.step(&bus, Event::Clock(6_100));
    r.step(&bus, Event::Done);
    r.step(&bus, Event::Clock(6_102));
    assert_eq!(r.action(), Action::Pend);
    r.step(&bus, Event::Done);
    assert_eq!(r.action(), Action::Finished);
}

/// Run the interrupt; the clock advances by one at each reading.
fn interrupt(bus: &Bus, mut now: u32, free: bool) -> Vec<Action> {
    let mut t: FrameTick = bus.on_frame_timer();
    let mut log = Vec::new();
    loop {
        let action = t.action();
        let event = match action {
            Action::Finished => return log,
            Action::ReadClock => {
                now += 1;
                Event::Clock(now)
            }
            Action::TryLock => Event::Locked(free),
            Action::Keepalive => Event::KeptAlive { next_us: 900 },
            _ => Event::Done,
        };
        if action != Action::ReadClock {
            log.push(action);
        }
        t.step(bus, event);
    }
}

#[test]
fn interrupt_on_a_free_bus() {
    assert_eq!(
        interrupt(&shared(false), 6_000, true),
        vec![
            Action::WriteRaised { word: 2 },
            Action::TryLock,
            Action::Keepalive,
            Action::WriteAlarm { target: 7_000 },
        ]
    );
}

#[test]
fn interrupt_on_a_busy_bus() {
    assert_eq!(
        interrupt(&shared(false), 6_000, false),
        vec![
            Action::WriteRaised { word: 2 },
            Action::TryLock,
            Action::WriteAlarm { target: 6_003 },
        ]
    );
    assert_eq!(
        interrupt(&shared(false), 6_700, false),
        vec![
            Action::WriteRaised { word: 2 },
            Action::TryLock,
            Action::WriteAlarm { target: 7_000 },
        ]
    );
}

#[test]
fn starting_the_frame_timer() {
    let bus = shared(false);
    let mut s = bus.start_frame_timer();
    assert_eq!(s.action(), Action::WriteRaised { word: 2 });
    s.step(&bus, Event::Done);
    assert_eq!(s.action(), Action::ReadEnabled);
    s.step(&bus, Event::Word(1));
    assert_eq!(s.action(), Action::WriteEnabled { word: 3 });
    s.step(&bus, Event::Done);
    s.step(&bus, Event::Clock(100));
    assert_eq!(s.action(), Action::WriteAlarm { target: 1_000 });
    s.step(&bus, Event::Done);
    s.step(&bus, Event::Clock(101));
    assert_eq!(s.action(), Action::EnableIrq);
    s.step(&bus, Event::Done);
    assert_eq!(s.action(), Action::Finished);
}

#[test]
fn idle_task_runs_on() {
    assert_eq!(tick(Some(123)), 123);
    assert_eq!(tick(None), 250);
    let mut task: IdleTask = Bus::new().idle_task();
    for i in 0..10u32 {
        assert_eq!(task.action(), Action::TryLock);
        let free = i % 2 == 0;
        task.step(Event::Locked(free));
        if free {
            assert_eq!(task.action(), Action::Keepalive);
            task.step(Event::KeptAlive { next_us: 700 + i });
            assert_eq!(task.action(), Action::Sleep { us: 700 + i });
        } else {
            assert_eq!(task.action(), Action::Sleep { us: 250 });
        }
        task.step(Event::Done);
    }
}

#[test]
fn shared_state() {
    let bus = Bus::new();
    assert!(!bus.hw_sof);
    assert_eq!(bus.last_sof_slot, u32::MAX);
    assert!(!bus.sof_paused);
    let mut bus = shared(true);
    assert!(!bus.enable_hw_sof(false));
    assert!(bus.hw_sof);
}
