//! Quadrature encoder interface on a general-purpose timer.
use vstd::prelude::*;

verus! {

/// RCC APB1ENR / APB1RSTR bit of TIM3.
pub const APB1_TIM3: u32 = 0x0000_0002;
/// RCC APB1ENR / APB1RSTR bit of TIM4.
pub const APB1_TIM4: u32 = 0x0000_0004;
/// CR1 CEN: counter enable.
pub const TIM_CR1_CEN: u32 = 0x0000_0001;
/// CR1 DIR: counting down when set.
pub const TIM_CR1_DIR: u32 = 0x0000_0010;
/// SMCR SMS: the three-bit slave mode selection.
pub const TIM_SMCR_SMS_MASK: u32 = 0x0000_0007;
/// CCER CC1P, CC1NP, CC2P and CC2NP: the input polarities of channels 1 and 2.
pub const TIM_CCER_POLARITY_MASK: u32 = 0x0000_00aa;
/// CNT: the counter value.
pub const TIM_CNT_MASK: u32 = 0x0000_ffff;
/// A whole register.
pub const FULL_MASK: u32 = 0xffff_ffff;

/// Which edges the encoder counts on.
#[derive(Clone, Copy, Debug, PartialEq, Eq, Structural)]
pub enum EncoderMode {
    /// Count on TI2 edges, depending on the TI1 level.
    Edge1,
    /// Count on TI1 edges, depending on the TI2 level.
    Edge2,
    /// Count on both TI1 and TI2 edges.
    BothEdges,
}

/// The SMS value of an encoder mode.
pub open spec fn sms_code(m: EncoderMode) -> u32 {
    match m {
        EncoderMode::Edge1 => 0b001,
        EncoderMode::Edge2 => 0b010,
        EncoderMode::BothEdges => 0b011,
    }
}

impl EncoderMode {
    /// The SMS value of the mode.
    pub fn sms_bits(&self) -> (r: u32)
        ensures
            r == sms_code(*self),
    {
        match self {
            EncoderMode::Edge1 => 0b001,
            EncoderMode::Edge2 => 0b010,
            EncoderMode::BothEdges => 0b011,
        }
    }
}

/// Channel 1 input pin of timer `TIM`. Implement it only for a pin wired to
/// that timer's channel 1.
pub trait QeiCh1Pin<TIM> {}

/// Channel 2 input pin of timer `TIM`. Implement it only for a pin wired to
/// that timer's channel 2.
pub trait QeiCh2Pin<TIM> {}

/// The timers that can run an encoder.
#[derive(Clone, Copy, Debug, PartialEq, Eq, Structural)]
pub enum QeiInstance {
    Tim3,
    Tim4,
}

/// The RCC bit of a timer.
pub open spec fn rcc_bit(t: QeiInstance) -> u32 {
    match t {
        QeiInstance::Tim3 => APB1_TIM3,
        QeiInstance::Tim4 => APB1_TIM4,
    }
}

/// The registers written by the encoder setup.
#[derive(Clone, Copy, Debug, PartialEq, Eq, Structural)]
pub enum TimReg {
    Apb1Enr,
    Apb1Rstr,
    Cr1,
    Smcr,
    Ccer,
    Arr,
    Cnt,
}

/// A read-modify-write `reg = (reg & !mask) | bits`.
#[derive(Clone, Copy, Debug, PartialEq, Eq, Structural)]
pub struct TimerOp {
    pub reg: TimReg,
    pub mask: u32,
    pub bits: u32,
}

/// The write that clears the counter.
pub open spec fn counter_reset_op() -> TimerOp {
    TimerOp { reg: TimReg::Cnt, mask: FULL_MASK, bits: 0 }
}

/// Encoder setup: clock the timer and pulse its reset, select the encoder
/// mode, non-inverted inputs, the auto-reload value, counter zero, then start.
pub open spec fn qei_setup_ops(t: QeiInstance, mode: EncoderMode, arr: u16) -> Seq<TimerOp> {
    seq![
        TimerOp { reg: TimReg::Apb1Enr, mask: rcc_bit(t), bits: rcc_bit(t) },
        TimerOp { reg: TimReg::Apb1Rstr, mask: rcc_bit(t), bits: rcc_bit(t) },
        TimerOp { reg: TimReg::Apb1Rstr, mask: rcc_bit(t), bits: 0 },
        TimerOp { reg: TimReg::Smcr, mask: TIM_SMCR_SMS_MASK, bits: sms_code(mode) },
        TimerOp { reg: TimReg::Ccer, mask: TIM_CCER_POLARITY_MASK, bits: 0 },
        TimerOp { reg: TimReg::Arr, mask: FULL_MASK, bits: arr as u32 },
        counter_reset_op(),
        TimerOp { reg: TimReg::Cr1, mask: TIM_CR1_CEN, bits: TIM_CR1_CEN },
    ]
}

/// The counter value held in a CNT register value.
pub open spec fn count_of(cnt: u32) -> u16 {
    (cnt & TIM_CNT_MASK) as u16
}

/// The counter value held in a CNT register value.
pub fn count(cnt: u32) -> (r: u16)
    ensures
        r == count_of(cnt),
{
    (cnt & TIM_CNT_MASK) as u16
}

/// Whether a CR1 register value says the counter counts up.
pub fn is_upcounting(cr1: u32) -> (r: bool)
    ensures
        r == (cr1 & TIM_CR1_DIR == 0),
{
    cr1 & TIM_CR1_DIR == 0
}

/// A timer in encoder mode with its two input pins.
pub struct QeiTimer<TIM, CH1, CH2> {
    pub tim: TIM,
    ch1: CH1,
    ch2: CH2,
}

impl<TIM, CH1: QeiCh1Pin<TIM>, CH2: QeiCh2Pin<TIM>> QeiTimer<TIM, CH1, CH2> {
    /// The timer, as handed in.
    pub closed spec fn spec_tim(&self) -> TIM {
        self.tim
    }

    /// The channel 1 pin, as handed in.
    pub closed spec fn spec_ch1(&self) -> CH1 {
        self.ch1
    }

    /// The channel 2 pin, as handed in.
    pub closed spec fn spec_ch2(&self) -> CH2 {
        self.ch2
    }

    /// Takes the timer and its pins, and appends to `prog` the program that
    /// sets the timer up as an encoder counting up to `arr` and starts it.
    pub fn new(
        tim: TIM,
        instance: QeiInstance,
        mode: EncoderMode,
        arr: u16,
        ch1: CH1,
        ch2: CH2,
        prog: &mut Vec<TimerOp>,
    ) -> (r: QeiTimer<TIM, CH1, CH2>)
        ensures
            r.spec_tim() == tim,
            r.spec_ch1() == ch1,
            r.spec_ch2() == ch2,
            final(prog)@ == old(prog)@ + qei_setup_ops(instance, mode, arr),
    {
        let bit = match instance {
            QeiInstance::Tim3 => APB1_TIM3,
            QeiInstance::Tim4 => APB1_TIM4,
        };
        prog.push(TimerOp { reg: TimReg::Apb1Enr, mask: bit, bits: bit });
        prog.push(TimerOp { reg: TimReg::Apb1Rstr, mask: bit, bits: bit });
        prog.push(TimerOp { reg: TimReg::Apb1Rstr, mask: bit, bits: 0 });
        prog.push(TimerOp { reg: TimReg::Smcr, mask: TIM_SMCR_SMS_MASK, bits: mode.sms_bits() });
        prog.push(TimerOp { reg: TimReg::Ccer, mask: TIM_CCER_POLARITY_MASK, bits: 0 });
        prog.push(TimerOp { reg: TimReg::Arr, mask: FULL_MASK, bits: arr as u32 });
        prog.push(TimerOp { reg: TimReg::Cnt, mask: FULL_MASK, bits: 0 });
        prog.push(TimerOp { reg: TimReg::Cr1, mask: TIM_CR1_CEN, bits: TIM_CR1_CEN });
        assert(prog@ =~= old(prog)@ + qei_setup_ops(instance, mode, arr));
        QeiTimer { tim, ch1, ch2 }
    }

    /// Appends the write that sets the counter back to zero.
    pub fn reset(&self, prog: &mut Vec<TimerOp>)
        ensures
            final(prog)@ == old(prog)@.push(counter_reset_op()),
    {
        prog.push(TimerOp { reg: TimReg::Cnt, mask: FULL_MASK, bits: 0 });
    }

    /// Gives the timer and the pins back.
    pub fn release(self) -> (r: (TIM, CH1, CH2))
        ensures
            r == (self.spec_tim(), self.spec_ch1(), self.spec_ch2()),
    {
        (self.tim, self.ch1, self.ch2)
    }
}

} // verus!
