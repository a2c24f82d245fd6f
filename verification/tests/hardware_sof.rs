use rp_pio_usb_host::hw_sof::{pwm_divider, set_alias, HwSof, SOF_SM, SOF_SM_ENABLE};

#[test]
fn dividers() {
    assert_eq!(pwm_divider(150_000_000), Some(3));
    assert_eq!(pwm_divider(125_000_000), Some(2));
    assert_eq!(pwm_divider(48_000_000), Some(1));
    assert_eq!(pwm_divider(65_536_000), Some(1));
    assert_eq!(pwm_divider(1_000), Some(1));
    assert_eq!(pwm_divider(150_000_001), None);
    assert_eq!(pwm_divider(0), None);
    // A prime number of kilohertz above 65536 has no divider but itself.
    assert_eq!(pwm_divider(65_537_000), None);
}

#[test]
fn period_is_one_frame() {
    for mhz in [12u32, 48, 125, 133, 150, 200, 300] {
        let (hw, program) = HwSof::new(0, 0, mhz * 1_000_000);
        let div = program.div / 16;
        assert_eq!(program.div % 16, 0);
        assert_eq!(program.top + 1, hw.counts);
        assert_eq!(div * hw.counts, mhz * 1000);
    }
}

#[test]
fn pwm_words() {
    let (hw, program) = HwSof::new(7, 4, 150_000_000);
    assert_eq!(hw.counts, 50_000);
    assert_eq!(program.slice, 7);
    assert_eq!(program.csr, 0);
    assert_eq!(program.div, 3 << 4);
    assert_eq!(program.top, 49_999);
}

#[test]
fn dma_words() {
    let (mut hw, _) = HwSof::new(7, 4, 150_000_000);
    assert!(!hw.armed());
    let dma = hw.arm(true).unwrap();
    assert!(hw.armed());
    assert_eq!(dma.dma_ch, 4);
    assert_eq!(dma.trans_count, 0xf000_0001);
    assert_eq!(dma.ctrl, 1 | 2 << 2 | 4 << 13 | 0x27 << 17 | 1 << 23);
    assert_eq!(hw.arm(false), None);
    assert!(!hw.armed());
}

#[test]
fn abort_bits() {
    let (hw, _) = HwSof::new(0, 15, 150_000_000);
    assert_eq!(hw.abort_word(), 0x8000);
    assert!(hw.abort_pending(0xffff_8000));
    assert!(!hw.abort_pending(0xffff_7fff));
}

#[test]
fn aligned_counter_shows_the_position() {
    let (hw, _) = HwSof::new(0, 0, 150_000_000);
    assert_eq!(hw.align(5_250), 12_500);
    for us in 0..1000u32 {
        assert_eq!(hw.frame_pos_us(hw.align(7_000 + us)), us);
    }
    assert_eq!(hw.frame_pos_us(0xabcd_0000 | 49_999), 999);
}

#[test]
fn position_with_a_fractional_count_per_microsecond() {
    let (hw, _) = HwSof::new(0, 0, 125_000_000);
    assert_eq!(hw.counts, 62_500);
    assert_eq!(hw.frame_pos_us(62_499), 999);
    assert_eq!(hw.frame_pos_us(31_250), 500);
}

#[test]
fn token_window() {
    let (hw, _) = HwSof::new(0, 0, 150_000_000);
    assert!(!hw.frame_clear(7 * 50 + 49));
    assert!(hw.frame_clear(8 * 50));
    assert!(hw.frame_clear(920 * 50));
    assert!(!hw.frame_clear(921 * 50));
}

#[test]
fn service_window() {
    let (mut hw, _) = HwSof::new(0, 0, 150_000_000);
    assert_eq!(hw.service(500 * 50, 5_500), None);
    hw.arm(true);
    assert_eq!(hw.service(7 * 50, 5_007), None);
    assert_eq!(hw.service(50_000, 5_500), None);
    assert_eq!(hw.service(0xffff, 5_500), None);
    assert_eq!(hw.service(970 * 50, 5_970), None);
    assert_eq!(hw.service(969 * 50, 5_969), Some(6));
    assert_eq!(hw.service(969 * 50, 5_969), None);
    assert_eq!(hw.service(8 * 50, 6_008), Some(7));
    hw.arm(true);
    assert_eq!(hw.service(9 * 50, 6_009), Some(7));
}

#[test]
fn enable_bit_and_alias() {
    assert_eq!(SOF_SM_ENABLE, 1 << SOF_SM);
    assert_eq!(set_alias(0x5020_0000), 0x5020_2000);
}
