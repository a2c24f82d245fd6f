use rp_pio_usb_host::bus::{PipeError, RxPacketStatus};
use rp_pio_usb_host::diag::{count, handshake_anomaly, take, Anomaly, Counters, Tally};
use rp_pio_usb_host::frame::{elapsed, later, near_boundary, position, reached, remaining, slot};
use rp_pio_usb_host::packet::{frame_number, MAX_DATA_PACKET_BYTES, MAX_DATA_PAYLOAD_BYTES};
use rp_pio_usb_host::pid::{
    data_pid, USB_PID_ACK, USB_PID_DATA0, USB_PID_DATA1, USB_PID_IN, USB_PID_NAK, USB_PID_OUT,
    USB_PID_SETUP, USB_PID_STALL,
};
use rp_pio_usb_host::reply::{
    check_ack, control_setup, control_status_in, data_in, handshake_follow_up, in_follow_up,
    in_once, in_reply, request_in, request_out, store, FollowUp, InReply,
};

const SYNC: u8 = 0x80;

fn data(pid: u8, payload: &[u8]) -> Vec<u8> {
    let mut packet = vec![SYNC, pid];
    packet.extend_from_slice(payload);
    packet.extend_from_slice(&[0xaa, 0xbb]);
    packet
}

#[test]
fn pids_carry_their_complement() {
    for pid in [
        USB_PID_OUT,
        USB_PID_IN,
        USB_PID_SETUP,
        USB_PID_DATA0,
        USB_PID_DATA1,
        USB_PID_ACK,
        USB_PID_NAK,
        USB_PID_STALL,
    ] {
        assert_eq!(pid & 0x0f, !pid >> 4);
    }
    assert_eq!(data_pid(false), 0xc3);
    assert_eq!(data_pid(true), 0x4b);
}

#[test]
fn timer_arithmetic_wraps() {
    assert_eq!(elapsed(10, 25), 15);
    assert_eq!(elapsed(u32::MAX, 4), 5);
    assert_eq!(later(u32::MAX, 1), 0);
    assert_eq!(elapsed(77, later(77, 4_000_000_000)), 4_000_000_000);
    assert!(reached(100, 100));
    assert!(reached(100, 101));
    assert!(!reached(101, 100));
    assert!(reached(u32::MAX, 3));
    assert!(!reached(3, u32::MAX));
}

#[test]
fn frames_are_millisecond_slots() {
    assert_eq!(slot(5_999), 5);
    assert_eq!(position(5_999), 999);
    assert_eq!(remaining(5_999), 1);
    assert_eq!(remaining(6_000), 1000);
    assert!(!near_boundary(5_920));
    assert!(near_boundary(5_921));
    assert!(!near_boundary(6_000));
}

#[test]
fn frame_numbers_have_eleven_bits() {
    assert_eq!(frame_number(0), 0);
    assert_eq!(frame_number(2047), 2047);
    assert_eq!(frame_number(2048), 0);
    assert_eq!(frame_number(u32::MAX), 2047);
    assert_eq!(frame_number(4_097), 1);
}

#[test]
fn packet_sizes() {
    assert_eq!(MAX_DATA_PACKET_BYTES, MAX_DATA_PAYLOAD_BYTES + 4);
}

#[test]
fn in_replies_are_classified() {
    let other = RxPacketStatus::Other;
    assert_eq!(in_reply(&[], other), Ok(InReply::NoReply));
    assert_eq!(in_reply(&[SYNC], other), Ok(InReply::NoReply));
    assert_eq!(in_reply(&[SYNC, USB_PID_NAK], other), Ok(InReply::Nak));
    assert_eq!(in_reply(&[SYNC, USB_PID_STALL], other), Err(PipeError::Stall));
    assert_eq!(in_reply(&[SYNC, USB_PID_ACK], other), Ok(InReply::Other));
    assert_eq!(in_reply(&[], RxPacketStatus::Overflow), Err(PipeError::Babble));
    let packet = data(USB_PID_DATA1, &[1, 2, 3]);
    assert_eq!(
        in_reply(&packet, RxPacketStatus::ValidData),
        Ok(InReply::Data { pid: USB_PID_DATA1, valid_crc: true, payload_len: 3 })
    );
    assert_eq!(
        in_reply(&packet, other),
        Ok(InReply::Data { pid: USB_PID_DATA1, valid_crc: false, payload_len: 3 })
    );
    assert_eq!(
        in_reply(&[SYNC, USB_PID_DATA0, 7], other),
        Ok(InReply::Data { pid: USB_PID_DATA0, valid_crc: false, payload_len: 0 })
    );
}

#[test]
fn bad_replies_have_to_settle() {
    let other = RxPacketStatus::Other;
    assert_eq!(in_follow_up(&[], other), FollowUp::Nothing);
    assert_eq!(in_follow_up(&[SYNC], other), FollowUp::Settle);
    assert_eq!(in_follow_up(&[SYNC, USB_PID_NAK], other), FollowUp::Nothing);
    assert_eq!(in_follow_up(&[SYNC, USB_PID_STALL], other), FollowUp::Nothing);
    assert_eq!(in_follow_up(&[SYNC, 0x42], other), FollowUp::Settle);
    assert_eq!(in_follow_up(&[], RxPacketStatus::Overflow), FollowUp::Settle);
    let packet = data(USB_PID_DATA0, &[9]);
    assert_eq!(in_follow_up(&packet, other), FollowUp::Settle);
    assert_eq!(in_follow_up(&packet, RxPacketStatus::ValidData), FollowUp::AwaitTx);
}

#[test]
fn accepted_data_is_copied() {
    let packet = data(USB_PID_DATA1, &[10, 20, 30]);
    let mut out = [0u8; 5];
    let got = in_once(&packet, RxPacketStatus::ValidData, true, &mut out);
    assert_eq!(got, Ok(Some(3)));
    assert_eq!(out, [10, 20, 30, 0, 0]);
    assert_eq!(in_follow_up(&packet, RxPacketStatus::ValidData), FollowUp::AwaitTx);
}

#[test]
fn repeat_is_discarded() {
    let packet = data(USB_PID_DATA1, &[10, 20, 30]);
    let mut out = [7u8; 5];
    assert_eq!(in_once(&packet, RxPacketStatus::ValidData, false, &mut out), Ok(None));
    assert_eq!(out, [7; 5]);
}

#[test]
fn damaged_or_long_data_is_not_copied() {
    let packet = data(USB_PID_DATA0, &[1, 2, 3]);
    let mut out = [7u8; 2];
    assert_eq!(in_once(&packet, RxPacketStatus::Other, false, &mut out), Ok(None));
    assert_eq!(
        in_once(&packet, RxPacketStatus::ValidData, false, &mut out),
        Err(PipeError::BufferOverflow)
    );
    assert_eq!(out, [7; 2]);
    assert_eq!(data_in(&packet, RxPacketStatus::ValidData, false, 3), Ok(Some(3)));
    assert_eq!(
        data_in(&packet, RxPacketStatus::ValidData, false, 2),
        Err(PipeError::BufferOverflow)
    );
    assert_eq!(data_in(&packet, RxPacketStatus::Overflow, false, 3), Err(PipeError::Babble));
}

#[test]
fn payload_is_stored_in_the_middle() {
    let packet = data(USB_PID_DATA0, &[1, 2]);
    let mut out = [9u8; 5];
    store(&packet, 2, &mut out, 1);
    assert_eq!(out, [9, 1, 2, 9, 9]);
    store(&[], 0, &mut out, 5);
    assert_eq!(out, [9, 1, 2, 9, 9]);
}

#[test]
fn status_stage_wants_an_empty_packet() {
    let valid = RxPacketStatus::ValidData;
    assert_eq!(control_status_in(&data(USB_PID_DATA1, &[]), valid), Ok(true));
    assert_eq!(control_status_in(&data(USB_PID_DATA0, &[]), valid), Ok(true));
    assert_eq!(
        control_status_in(&data(USB_PID_DATA1, &[1]), valid),
        Err(PipeError::BadResponse)
    );
    assert_eq!(
        control_status_in(&data(USB_PID_DATA1, &[]), RxPacketStatus::Other),
        Ok(false)
    );
    assert_eq!(control_status_in(&[SYNC, USB_PID_NAK], RxPacketStatus::Other), Ok(false));
    assert_eq!(
        control_status_in(&[SYNC, USB_PID_STALL], RxPacketStatus::Other),
        Err(PipeError::Stall)
    );
}

#[test]
fn handshakes() {
    assert_eq!(check_ack(&[SYNC, USB_PID_ACK]), Ok(true));
    assert_eq!(check_ack(&[SYNC, USB_PID_NAK]), Ok(false));
    assert_eq!(check_ack(&[]), Ok(false));
    assert_eq!(check_ack(&[SYNC]), Ok(false));
    assert_eq!(check_ack(&[SYNC, 0x99]), Ok(false));
    assert_eq!(check_ack(&[SYNC, USB_PID_STALL]), Err(PipeError::Stall));
    assert_eq!(handshake_follow_up(&[SYNC]), FollowUp::Settle);
    assert_eq!(handshake_follow_up(&[SYNC, 0x99]), FollowUp::Settle);
    assert_eq!(handshake_follow_up(&[SYNC, USB_PID_ACK]), FollowUp::Nothing);
    assert_eq!(handshake_follow_up(&[]), FollowUp::Nothing);
    assert_eq!(control_setup(&[SYNC, USB_PID_ACK]), Ok(()));
    assert_eq!(control_setup(&[SYNC, USB_PID_NAK]), Err(PipeError::Timeout));
    assert_eq!(control_setup(&[SYNC, USB_PID_STALL]), Err(PipeError::Stall));
}

#[test]
fn toggles_advance_on_success_only() {
    let mut toggle = false;
    assert_eq!(request_in(Ok(Some(4)), &mut toggle), Ok(4));
    assert!(toggle);
    assert_eq!(request_in(Ok(None), &mut toggle), Err(PipeError::Timeout));
    assert_eq!(request_in(Err(PipeError::Babble), &mut toggle), Err(PipeError::Babble));
    assert!(toggle);
    assert_eq!(request_out(Ok(true), &mut toggle), Ok(()));
    assert!(!toggle);
    assert_eq!(request_out(Ok(false), &mut toggle), Err(PipeError::Timeout));
    assert_eq!(request_out(Err(PipeError::Stall), &mut toggle), Err(PipeError::Stall));
    assert!(!toggle);
}

#[test]
fn anomalies_of_handshakes() {
    assert_eq!(handshake_anomaly(&[]), Some(Anomaly::HsNoReply));
    assert_eq!(handshake_anomaly(&[SYNC]), Some(Anomaly::HsShort));
    assert_eq!(handshake_anomaly(&[SYNC, USB_PID_STALL]), Some(Anomaly::HsStall));
    assert_eq!(handshake_anomaly(&[SYNC, 0x42]), Some(Anomaly::HsOther(0x42)));
    assert_eq!(handshake_anomaly(&[SYNC, USB_PID_ACK]), None);
    assert_eq!(handshake_anomaly(&[SYNC, USB_PID_NAK]), None);
}

#[test]
fn counters_since_take() {
    let mut tally = Tally::new();
    assert!(take(&mut tally).is_clean());
    for anomaly in [
        Anomaly::TxEopTimeout,
        Anomaly::TxBusHeld,
        Anomaly::TxBusHeld,
        Anomaly::HsNoReply,
        Anomaly::HsShort,
        Anomaly::HsStall,
        Anomaly::HsOther(0x42),
        Anomaly::HsOther(0x99),
    ] {
        tally.record(anomaly);
    }
    let counters = take(&mut tally);
    assert_eq!(
        counters,
        Counters {
            tx_eop_timeout: 1,
            tx_bus_held: 2,
            hs_no_reply: 1,
            hs_short: 1,
            hs_stall: 1,
            hs_other: 2,
            hs_other_last_pid: 0x99,
        }
    );
    assert!(!counters.is_clean());
    let counters = take(&mut tally);
    assert!(counters.is_clean());
    assert_eq!(counters.hs_other_last_pid, 0x99);
    assert!(Counters::default().is_clean());
}

#[test]
fn counters_wrap() {
    let mut c = u32::MAX;
    count(&mut c);
    assert_eq!(c, 0);
    count(&mut c);
    assert_eq!(c, 1);
}
