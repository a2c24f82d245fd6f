//! Hardware-timed full-speed SOF (RP235x).
//!
//! USB 2.0 section 7.1.12 gives the host a 1.000 ms frame with half a microsecond of
//! tolerance, and hubs derive their end-of-frame points from the SOF period. Here no CPU
//! is on the timing path:
//!
//! - a PWM slice wraps exactly every 1 ms, aligned once to the 1 ms boundaries of the
//!   microsecond timer;
//! - each wrap paces one transfer of a DMA channel that writes the SOF state machine's
//!   enable bit to the atomic-set alias of the PIO `CTRL` register;
//! - PIO state machine 3 is kept prepared, between frames, with the next frame's SOF.
//!
//! The CPU only has to prepare the state machine once per frame, between the end of the
//! SOF and shortly before the next boundary ([`HwSof::service`]).

use crate::frame::{position, slot, FRAME_GUARD_US, FRAME_INTERVAL_US};
use crate::regs;
use vstd::prelude::*;

verus! {

/// The SOF is on the wire within this long of the frame boundary; transfers wait for it
/// and the state machine is not prepared before it.
pub const SOF_DONE_US: u32 = 8;

/// The state machine is not prepared this close to the next boundary (the DMA could
/// enable it while its FIFO is half filled).
pub const PREPARE_GUARD_US: u32 = 30;

/// State machine index used for SOFs.
pub const SOF_SM: u32 = 3;

/// Written by the DMA channel to `CTRL` (atomic-set alias): the enable bit of
/// [`SOF_SM`].
pub const SOF_SM_ENABLE: u32 = 8;

/// Offset of the atomic bit-set alias of an RP peripheral register.
pub const REG_ALIAS_SET: u32 = 0x2000;

/// DREQ of the wrap of PWM slice 0; slice `n` is `+ n`.
pub const DREQ_PWM_WRAP0: u8 = 0x20;

/// PWM slices of the chip.
pub const PWM_SLICES: u8 = 12;

/// DMA channels of the chip.
pub const DMA_CHANNELS: u8 = 16;

/// PWM register words that make the slice wrap every frame. The slice is left stopped.
#[derive(Clone, Copy, Debug, PartialEq, Eq)]
pub struct PwmProgram {
    pub slice: u8,
    pub csr: u32,
    pub div: u32,
    pub top: u32,
}

/// DMA register words that enable the SOF state machine at every wrap of the slice.
#[derive(Clone, Copy, Debug, PartialEq, Eq)]
pub struct DmaProgram {
    pub dma_ch: u8,
    pub trans_count: u32,
    pub ctrl: u32,
}

/// State of the hardware SOF.
#[derive(Clone, Copy, Debug, PartialEq, Eq)]
pub struct HwSof {
    /// PWM slice that paces the frames.
    pub slice: u8,
    /// DMA channel that enables the state machine.
    pub dma_ch: u8,
    /// PWM counts per frame.
    pub counts: u32,
    /// Whether SOFs are being sent.
    pub armed: bool,
    /// Timer slot whose SOF the state machine currently holds, or `None`.
    pub prepared_slot: Option<u32>,
}

/// Whether dividing the system clock by `div` gives a PWM period of exactly one frame.
pub open spec fn divides_frame(clk_sys: u32, div: u32) -> bool {
    &&& clk_sys % 1000 == 0
    &&& 1 <= div <= 255
    &&& (clk_sys / 1000) % div == 0
    &&& 1 <= (clk_sys / 1000) / div <= 65536
}

/// Whether any integer divider gives a PWM period of exactly one frame.
pub open spec fn clock_usable(clk_sys: u32) -> bool {
    exists|div: u32| divides_frame(clk_sys, div)
}

/// Whether `div` is the smallest such divider.
pub open spec fn is_divider(clk_sys: u32, div: u32) -> bool {
    &&& divides_frame(clk_sys, div)
    &&& forall|d: u32| d < div ==> !divides_frame(clk_sys, d)
}

/// Smallest PWM divider whose period is exactly one frame.
///
/// `None` unless the clock is a multiple of 1 kHz that some divider up to 255 brings
/// within the 16-bit counter.
pub fn pwm_divider(clk_sys: u32) -> (div: Option<u32>)
    ensures
        div is Some <==> clock_usable(clk_sys),
        div matches Some(d) ==> is_divider(clk_sys, d),
{
    if clk_sys % 1000 != 0 {
        return None;
    }
    let per_frame: u32 = clk_sys / 1000;
    let mut d: u32 = 1;
    while d <= 255
        invariant
            1 <= d <= 256,
            clk_sys % 1000 == 0,
            per_frame == clk_sys / 1000,
            forall|e: u32| e < d ==> !divides_frame(clk_sys, e),
        decreases 256 - d,
    {
        if per_frame % d == 0 && per_frame / d >= 1 && per_frame / d <= 65536 {
            assert(divides_frame(clk_sys, d));
            return Some(d);
        }
        d = d + 1;
    }
    None
}

impl HwSof {
    /// Consistency of the hardware assignment.
    pub open spec fn wf(self) -> bool {
        &&& self.slice < PWM_SLICES
        &&& self.dma_ch < DMA_CHANNELS
        &&& 1 <= self.counts <= 65536
        &&& self.prepared_slot is Some ==> self.armed
    }

    /// Whether a word read from the slice's counter register is within the period.
    pub open spec fn counter_valid(self, word: u32) -> bool {
        (word & 0xffff) < self.counts
    }

    /// Microseconds into the frame at a counter word.
    pub open spec fn position_at(self, word: u32) -> int {
        ((word & 0xffff) as int * 1000) / (self.counts as int)
    }

    /// Whether a token may start at a counter word: this frame's SOF is out, and the
    /// end-of-frame guard has not begun.
    pub open spec fn clear_of_sof(self, word: u32) -> bool {
        SOF_DONE_US <= self.position_at(word) <= FRAME_INTERVAL_US - FRAME_GUARD_US
    }

    /// The slot to prepare at a counter word and a timer reading, if one is due.
    pub open spec fn service_due(self, word: u32, now: u32) -> Option<u32> {
        let next = (crate::frame::slot_spec(now) + 1) as u32;
        if self.armed && SOF_DONE_US <= self.position_at(word) < FRAME_INTERVAL_US
            - PREPARE_GUARD_US && self.prepared_slot != Some(next) {
            Some(next)
        } else {
            None
        }
    }

    /// The state after [`HwSof::service`].
    pub open spec fn serviced(self, word: u32, now: u32) -> HwSof {
        match self.service_due(word, now) {
            Some(next) => HwSof { prepared_slot: Some(next), ..self },
            None => self,
        }
    }

    /// The state after [`HwSof::arm`].
    pub open spec fn switched(self, on: bool) -> HwSof {
        HwSof { armed: on, prepared_slot: None, ..self }
    }

    /// The word that aborts the DMA channel.
    pub open spec fn abort_bit(self) -> u32 {
        1u32 << (self.dma_ch as u32)
    }

    /// The PWM words of a divider: stopped, not phase-correct, `div` with no fraction,
    /// wrapping after `counts`.
    pub open spec fn pwm_words(self, div: u32) -> PwmProgram {
        PwmProgram {
            slice: self.slice,
            csr: 0,
            div: (div * 16) as u32,
            top: (self.counts - 1) as u32,
        }
    }

    /// The DMA words: endless word transfers without increments, paced by the wrap of the
    /// slice, chained to itself (that is, to none), without interrupts.
    pub open spec fn dma_words(self) -> DmaProgram {
        DmaProgram {
            dma_ch: self.dma_ch,
            trans_count: 0xf000_0001,
            ctrl: (0x0080_0009 + self.dma_ch * 0x2000 + (DREQ_PWM_WRAP0 + self.slice)
                * 0x2_0000) as u32,
        }
    }

    /// Take a PWM slice and a DMA channel. SOFs start once [`HwSof::arm`] is called.
    pub fn new(slice: u8, dma_ch: u8, clk_sys: u32) -> (r: (HwSof, PwmProgram))
        requires
            slice < PWM_SLICES,
            dma_ch < DMA_CHANNELS,
            clock_usable(clk_sys),
        ensures
            r.0.wf(),
            r.0.slice == slice,
            r.0.dma_ch == dma_ch,
            !r.0.armed,
            r.0.prepared_slot is None,
            exists|div: u32|
                #![trigger is_divider(clk_sys, div)]
                is_divider(clk_sys, div) && r.0.counts == (clk_sys / 1000) / div && r.1
                    == r.0.pwm_words(div),
    {
        let div: u32 = pwm_divider(clk_sys).unwrap();
        assert(is_divider(clk_sys, div));
        let counts: u32 = (clk_sys / 1000) / div;
        let hw = HwSof { slice, dma_ch, counts, armed: false, prepared_slot: None };
        let csr: u32 = regs::pwm_csr_set_ph_correct(regs::pwm_csr_set_en(0, false), false);
        let div_word: u32 = regs::pwm_div_set_frac(regs::pwm_div_set_int(0, div as u8), 0);
        let top_val: u32 = counts - 1;
        let top: u32 = regs::pwm_top_set_top(0, top_val as u16);
        assert(regs::with_field(regs::with_field(0, 0x01, 0, 0), 0x01, 1, 0) == 0) by (bit_vector);
        assert(regs::with_field(regs::with_field(0, 0xff, 4, div), 0x0f, 0, 0) == div * 16)
            by (bit_vector)
            requires
                div <= 255,
        ;
        assert(regs::with_field(0, 0xffff, 0, top_val) == top_val) by (bit_vector)
            requires
                top_val <= 0xffff,
        ;
        (hw, PwmProgram { slice, csr, div: div_word, top })
    }

    /// Counter word that makes the slice wrap on the 1 ms boundaries of the microsecond
    /// timer, for a reading `now` of it.
    pub fn align(&self, now: u32) -> (word: u32)
        requires
            self.wf(),
        ensures
            word == (crate::frame::position_spec(now) * self.counts) / 1000,
            self.counter_valid(word),
    {
        let into_frame: u32 = position(now);
        let counts: u32 = self.counts;
        assert(into_frame * counts <= 999 * 65536) by (nonlinear_arith)
            requires
                into_frame <= 999,
                counts <= 65536,
        ;
        assert((into_frame * counts) / 1000 < counts) by (nonlinear_arith)
            requires
                into_frame <= 999,
                counts >= 1,
        ;
        let ctr: u32 = into_frame * counts / 1000;
        assert(regs::with_field(0, 0xffff, 0, ctr) == ctr && ctr & 0xffff == ctr) by (bit_vector)
            requires
                ctr <= 0xffff,
        ;
        regs::pwm_ctr_set_ctr(0, ctr as u16)
    }

    /// Microseconds since the start of the current frame, from a word of the counter
    /// register. Below 1000 for a counter within the period.
    pub fn frame_pos_us(&self, word: u32) -> (us: u32)
        requires
            self.wf(),
        ensures
            us == self.position_at(word),
            self.counter_valid(word) ==> us < 1000,
    {
        let ctr: u16 = regs::pwm_ctr(word);
        let counts: u32 = self.counts;
        let scaled: u32 = ctr as u32 * FRAME_INTERVAL_US;
        assert(scaled < counts * 1000 ==> scaled / counts < 1000) by (nonlinear_arith)
            requires
                counts >= 1,
        ;
        scaled / counts
    }

    /// Hardware-SOF frame guard: whether a token may start at a counter word. Not before
    /// this frame's SOF is out, and not within the end-of-frame guard.
    pub fn frame_clear(&self, word: u32) -> (clear: bool)
        requires
            self.wf(),
            self.counter_valid(word),
        ensures
            clear == self.clear_of_sof(word),
    {
        let pos: u32 = self.frame_pos_us(word);
        pos >= SOF_DONE_US && FRAME_INTERVAL_US - pos >= FRAME_GUARD_US
    }

    /// Whether SOFs are being sent.
    pub fn armed(&self) -> (b: bool)
        ensures
            b == self.armed,
    {
        self.armed
    }

    /// Start (or stop) sending SOFs at every frame boundary. Returns the DMA words to
    /// write, when starting.
    ///
    /// Stopped while the port is reset or not running full speed: a state machine enabled
    /// by the DMA would write its side-set to the shared pins.
    pub fn arm(&mut self, on: bool) -> (program: Option<DmaProgram>)
        requires
            old(self).wf(),
        ensures
            *final(self) == old(self).switched(on),
            final(self).wf(),
            program == (if on {
                Some(old(self).dma_words())
            } else {
                None
            }),
    {
        self.prepared_slot = None;
        self.armed = on;
        if !on {
            return None;
        }
        let ch: u8 = self.dma_ch;
        let dreq: u8 = DREQ_PWM_WRAP0 + self.slice;
        let trans_count: u32 = regs::dma_count_set_count(regs::dma_count_set_endless(0), 1);
        let mut ctrl: u32 = regs::dma_ctrl_set_en(0, true);
        ctrl = regs::dma_ctrl_set_word_size(ctrl);
        ctrl = regs::dma_ctrl_set_incr_read(ctrl, false);
        ctrl = regs::dma_ctrl_set_incr_write(ctrl, false);
        ctrl = regs::dma_ctrl_set_chain_to(ctrl, ch);
        ctrl = regs::dma_ctrl_set_treq_sel(ctrl, dreq);
        ctrl = regs::dma_ctrl_set_irq_quiet(ctrl, true);
        proof {
            let c: u32 = ch as u32;
            let d: u32 = dreq as u32;
            assert(regs::with_field(regs::with_field(0, 0x0f, 28, 0x0f), 0x0fff_ffff, 0, 1)
                == 0xf000_0001) by (bit_vector);
            assert({
                let w1 = regs::with_field(0, 0x01, 0, 1);
                let w2 = regs::with_field(w1, 0x03, 2, 0x02);
                let w3 = regs::with_field(w2, 0x01, 4, 0);
                let w4 = regs::with_field(w3, 0x01, 6, 0);
                let w5 = regs::with_field(w4, 0x0f, 13, c);
                let w6 = regs::with_field(w5, 0x3f, 17, d);
                let w7 = regs::with_field(w6, 0x01, 23, 1);
                w7 == 0x0080_0009 + c * 0x2000 + d * 0x2_0000
            }) by (bit_vector)
                requires
                    c < 16,
                    d < 64,
            ;
        }
        Some(DmaProgram { dma_ch: ch, trans_count, ctrl })
    }

    /// Word to write to the DMA abort register.
    pub fn abort_word(&self) -> (word: u32)
        requires
            self.wf(),
        ensures
            word == self.abort_bit(),
    {
        let ch: u32 = self.dma_ch as u32;
        assert(1u16 << ch == 1u32 << ch && 1u32 << ch <= 0xffff) by (bit_vector)
            requires
                ch < 16,
        ;
        let bit: u32 = 1u32 << ch;
        assert(regs::with_field(0, 0xffff, 0, bit) == bit) by (bit_vector)
            requires
                bit <= 0xffff,
        ;
        regs::dma_abort_set(0, 1u16 << ch)
    }

    /// Whether a word read back from the DMA abort register shows transfers of the channel
    /// still in flight.
    pub fn abort_pending(&self, word: u32) -> (pending: bool)
        requires
            self.wf(),
        ensures
            pending <==> word & self.abort_bit() != 0,
    {
        let ch: u32 = self.dma_ch as u32;
        let channels: u16 = regs::dma_abort(word);
        assert((((word & 0xffff) as u16) & (1u16 << ch) != 0) == (word & (1u32 << ch) != 0))
            by (bit_vector)
            requires
                ch < 16,
        ;
        channels & (1u16 << ch) != 0
    }

    /// Decide whether the state machine is to be prepared with the next frame's SOF, from
    /// a counter word and a timer reading. Returns the slot of that SOF.
    ///
    /// Call with the bus lock held (no transfer on the wire).
    pub fn service(&mut self, word: u32, now: u32) -> (due: Option<u32>)
        requires
            old(self).wf(),
        ensures
            due == old(self).service_due(word, now),
            *final(self) == old(self).serviced(word, now),
            final(self).wf(),
    {
        if !self.armed {
            return None;
        }
        let pos: u32 = self.frame_pos_us(word);
        if pos < SOF_DONE_US || pos >= FRAME_INTERVAL_US - PREPARE_GUARD_US {
            return None;
        }
        let next: u32 = slot(now) + 1;
        if let Some(prepared) = self.prepared_slot {
            if prepared == next {
                return None;
            }
        }
        self.prepared_slot = Some(next);
        Some(next)
    }
}

/// Address of the atomic bit-set alias of a peripheral register.
pub fn set_alias(register: u32) -> (alias: u32)
    requires
        register <= u32::MAX - REG_ALIAS_SET,
    ensures
        alias == register + 0x2000,
{
    register + REG_ALIAS_SET
}

/// The period is one frame exactly: the divider and the count take the clock back to
/// 1000 wraps per second.
pub proof fn law_period_is_one_frame(clk_sys: u32, div: u32)
    requires
        divides_frame(clk_sys, div),
    ensures
        ((clk_sys / 1000) / div) * div * 1000 == clk_sys,
{
    let per_frame: int = (clk_sys / 1000) as int;
    let d: int = div as int;
    assert((per_frame / d) * d == per_frame) by (nonlinear_arith)
        requires
            per_frame % d == 0,
            d >= 1,
    ;
}

/// Any system clock of a whole number of megahertz is usable.
pub proof fn law_megahertz_clocks_usable(mhz: u32)
    requires
        1 <= mhz <= u32::MAX / 1_000_000,
    ensures
        clock_usable((mhz * 1_000_000) as u32),
{
    let clk: u32 = (mhz * 1_000_000) as u32;
    assert(clk / 1000 == mhz * 1000);
    assert((mhz * 1000) % 250 == 0 && (mhz * 1000) / 250 == mhz * 4);
    assert(divides_frame(clk, 250));
}

/// Where the counter runs at a whole number of counts per microsecond, the position is
/// the count divided by that number, and the counter word of [`HwSof::align`] reads back
/// as the position of the timer.
pub proof fn law_whole_counts_exact(hw: HwSof, per_us: u32, word: u32, now: u32)
    requires
        hw.wf(),
        hw.counts == per_us * 1000,
        word == (crate::frame::position_spec(now) * hw.counts) / 1000,
    ensures
        forall|w: u32| #[trigger] hw.position_at(w) == (w & 0xffff) as int / per_us as int,
        hw.position_at(word) == crate::frame::position_spec(now),
{
    let c: int = per_us as int;
    assert forall|w: u32| #[trigger] hw.position_at(w) == (w & 0xffff) as int / c by {
        let x: int = (w & 0xffff) as int;
        assert((x * 1000) / (c * 1000) == x / c) by {
            vstd::arithmetic::div_mod::lemma_div_multiples_vanish_quotient(1000, x, c);
            assert(1000 * x == x * 1000 && 1000 * c == c * 1000);
        }
    }
    let p: int = crate::frame::position_spec(now) as int;
    assert((p * (c * 1000)) / 1000 == p * c) by (nonlinear_arith);
    assert(p * c < c * 1000) by (nonlinear_arith)
        requires
            0 <= p < 1000,
            c >= 1,
    ;
    assert(word & 0xffff == word) by (bit_vector)
        requires
            word < 65536,
    ;
    assert((p * c) / c == p) by (nonlinear_arith)
        requires
            c >= 1,
    ;
}

/// The next SOF is never prepared before the current one is out, never close to the next
/// boundary, never while disarmed, and only once per frame.
pub proof fn law_service_window(hw: HwSof, word: u32, now: u32)
    requires
        hw.wf(),
        hw.service_due(word, now) is Some,
    ensures
        hw.armed,
        8 <= hw.position_at(word) < 970,
        forall|w: u32, t: u32|
            crate::frame::slot_spec(t) == crate::frame::slot_spec(now) ==> (#[trigger] hw.serviced(
                word,
                now,
            ).service_due(w, t)) is None,
{
}

} // verus!
