//! Register words of the RP235x PWM, DMA and TIMER blocks, composed with the field
//! setters of `rp-pac`.
//!
//! The functions here are not verified: each calls one field accessor of `rp-pac` on a
//! register word, and its contract is the bit operation of that accessor.

use vstd::prelude::*;

verus! {

/// A register word after a field was written: the field's bits are those of `val`, all
/// others are kept.
pub open spec fn with_field(word: u32, mask: u32, shift: u32, val: u32) -> u32 {
    (word & !(mask << shift)) | ((val & mask) << shift)
}

/// A flag as a field value.
pub open spec fn flag(b: bool) -> u32 {
    if b {
        1
    } else {
        0
    }
}

/// `pwm::regs::ChCsr::set_en`: bit 0.
#[verifier::external_body]
pub(crate) fn pwm_csr_set_en(word: u32, val: bool) -> (r: u32)
    ensures
        r == with_field(word, 0x01, 0, flag(val)),
{
    let mut w = rp_pac::pwm::regs::ChCsr(word);
    w.set_en(val);
    w.0
}

/// `pwm::regs::ChCsr::set_ph_correct`: bit 1.
#[verifier::external_body]
pub(crate) fn pwm_csr_set_ph_correct(word: u32, val: bool) -> (r: u32)
    ensures
        r == with_field(word, 0x01, 1, flag(val)),
{
    let mut w = rp_pac::pwm::regs::ChCsr(word);
    w.set_ph_correct(val);
    w.0
}

/// `pwm::regs::ChDiv::set_int`: bits 4 to 11.
#[verifier::external_body]
pub(crate) fn pwm_div_set_int(word: u32, val: u8) -> (r: u32)
    ensures
        r == with_field(word, 0xff, 4, val as u32),
{
    let mut w = rp_pac::pwm::regs::ChDiv(word);
    w.set_int(val);
    w.0
}

/// `pwm::regs::ChDiv::set_frac`: bits 0 to 3.
#[verifier::external_body]
pub(crate) fn pwm_div_set_frac(word: u32, val: u8) -> (r: u32)
    ensures
        r == with_field(word, 0x0f, 0, val as u32),
{
    let mut w = rp_pac::pwm::regs::ChDiv(word);
    w.set_frac(val);
    w.0
}

/// `pwm::regs::ChTop::set_top`: bits 0 to 15.
#[verifier::external_body]
pub(crate) fn pwm_top_set_top(word: u32, val: u16) -> (r: u32)
    ensures
        r == with_field(word, 0xffff, 0, val as u32),
{
    let mut w = rp_pac::pwm::regs::ChTop(word);
    w.set_top(val);
    w.0
}

/// `pwm::regs::ChCtr::set_ctr`: bits 0 to 15.
#[verifier::external_body]
pub(crate) fn pwm_ctr_set_ctr(word: u32, val: u16) -> (r: u32)
    ensures
        r == with_field(word, 0xffff, 0, val as u32),
{
    let mut w = rp_pac::pwm::regs::ChCtr(word);
    w.set_ctr(val);
    w.0
}

/// `pwm::regs::ChCtr::ctr`: bits 0 to 15.
#[verifier::external_body]
pub(crate) fn pwm_ctr(word: u32) -> (ctr: u16)
    ensures
        ctr == word & 0xffff,
{
    rp_pac::pwm::regs::ChCtr(word).ctr()
}

/// `dma::regs::ChTransCount::set_mode` with `ENDLESS` (0xf): bits 28 to 31.
#[verifier::external_body]
pub(crate) fn dma_count_set_endless(word: u32) -> (r: u32)
    ensures
        r == with_field(word, 0x0f, 28, 0x0f),
{
    let mut w = rp_pac::dma::regs::ChTransCount(word);
    w.set_mode(rp_pac::dma::vals::TransCountMode::ENDLESS);
    w.0
}

/// `dma::regs::ChTransCount::set_count`: bits 0 to 27.
#[verifier::external_body]
pub(crate) fn dma_count_set_count(word: u32, val: u32) -> (r: u32)
    ensures
        r == with_field(word, 0x0fff_ffff, 0, val),
{
    let mut w = rp_pac::dma::regs::ChTransCount(word);
    w.set_count(val);
    w.0
}

/// `dma::regs::CtrlTrig::set_en`: bit 0.
#[verifier::external_body]
pub(crate) fn dma_ctrl_set_en(word: u32, val: bool) -> (r: u32)
    ensures
        r == with_field(word, 0x01, 0, flag(val)),
{
    let mut w = rp_pac::dma::regs::CtrlTrig(word);
    w.set_en(val);
    w.0
}

/// `dma::regs::CtrlTrig::set_data_size` with `SIZE_WORD` (2): bits 2 and 3.
#[verifier::external_body]
pub(crate) fn dma_ctrl_set_word_size(word: u32) -> (r: u32)
    ensures
        r == with_field(word, 0x03, 2, 0x02),
{
    let mut w = rp_pac::dma::regs::CtrlTrig(word);
    w.set_data_size(rp_pac::dma::vals::DataSize::SIZE_WORD);
    w.0
}

/// `dma::regs::CtrlTrig::set_incr_read`: bit 4.
#[verifier::external_body]
pub(crate) fn dma_ctrl_set_incr_read(word: u32, val: bool) -> (r: u32)
    ensures
        r == with_field(word, 0x01, 4, flag(val)),
{
    let mut w = rp_pac::dma::regs::CtrlTrig(word);
    w.set_incr_read(val);
    w.0
}

/// `dma::regs::CtrlTrig::set_incr_write`: bit 6.
#[verifier::external_body]
pub(crate) fn dma_ctrl_set_incr_write(word: u32, val: bool) -> (r: u32)
    ensures
        r == with_field(word, 0x01, 6, flag(val)),
{
    let mut w = rp_pac::dma::regs::CtrlTrig(word);
    w.set_incr_write(val);
    w.0
}

/// `dma::regs::CtrlTrig::set_chain_to`: bits 13 to 16.
#[verifier::external_body]
pub(crate) fn dma_ctrl_set_chain_to(word: u32, val: u8) -> (r: u32)
    ensures
        r == with_field(word, 0x0f, 13, val as u32),
{
    let mut w = rp_pac::dma::regs::CtrlTrig(word);
    w.set_chain_to(val);
    w.0
}

/// `dma::regs::CtrlTrig::set_treq_sel` of `TreqSel::from_bits`: bits 17 to 22.
#[verifier::external_body]
pub(crate) fn dma_ctrl_set_treq_sel(word: u32, val: u8) -> (r: u32)
    ensures
        r == with_field(word, 0x3f, 17, val as u32),
{
    let mut w = rp_pac::dma::regs::CtrlTrig(word);
    w.set_treq_sel(rp_pac::dma::vals::TreqSel::from_bits(val));
    w.0
}

/// `dma::regs::CtrlTrig::set_irq_quiet`: bit 23.
#[verifier::external_body]
pub(crate) fn dma_ctrl_set_irq_quiet(word: u32, val: bool) -> (r: u32)
    ensures
        r == with_field(word, 0x01, 23, flag(val)),
{
    let mut w = rp_pac::dma::regs::CtrlTrig(word);
    w.set_irq_quiet(val);
    w.0
}

/// `dma::regs::ChanAbort::set_chan_abort`: bits 0 to 15.
#[verifier::external_body]
pub(crate) fn dma_abort_set(word: u32, val: u16) -> (r: u32)
    ensures
        r == with_field(word, 0xffff, 0, val as u32),
{
    let mut w = rp_pac::dma::regs::ChanAbort(word);
    w.set_chan_abort(val);
    w.0
}

/// `dma::regs::ChanAbort::chan_abort`: bits 0 to 15.
#[verifier::external_body]
pub(crate) fn dma_abort(word: u32) -> (channels: u16)
    ensures
        channels == word & 0xffff,
{
    rp_pac::dma::regs::ChanAbort(word).chan_abort()
}

/// `timer::regs::Int::set_alarm`: bit `n`. It panics unless `n` is below 4.
#[verifier::external_body]
pub(crate) fn timer_int_set_alarm(word: u32, n: usize, val: bool) -> (r: u32)
    requires
        n < 4,
    ensures
        r == with_field(word, 0x01, n as u32, flag(val)),
{
    let mut w = rp_pac::timer::regs::Int(word);
    w.set_alarm(n, val);
    w.0
}

} // verus!
