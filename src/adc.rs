//! Initialisation, calibration and one-shot conversion protocol of the ADC.
use vstd::prelude::*;
use crate::clock::{
    ckmode_divisor, clocks_welldefined, gate_accepts, gate_after, well_defined_clocks, AdcPair,
    CkMode, Clocks, SharedClock,
};
use crate::regs::{
    apply_op, reg_value, with_reg, AdcRegisters,
    Reg, RegOp, CFGR_ALIGN, CFGR_CONT, CFGR_OVRMOD, CR_ADCAL, CR_ADCALDIF, CR_ADDIS, CR_ADEN,
    CR_ADSTART, CR_ADSTP, CR_ADVREGEN_ENABLED, CR_ADVREGEN_INTERMEDIATE, CR_ADVREGEN_MASK,
    DR_RDATA_MASK, ISR_ADRDY, ISR_EOS, ISR_OVR, SQR1_L_MASK, SQR1_SQ1_MASK, SQR1_SQ1_SHIFT,
};

verus! {

/// ADC sampling time.
///
/// Each channel can be sampled with a different sample time. There is always an
/// overhead of 13 ADC clock cycles: for `T_19` a conversion takes 13 + 19 = 32
/// ADC clock cycles.
#[allow(non_camel_case_types)]
#[derive(Clone, Copy, Debug, PartialEq, Eq, Structural)]
pub enum SampleTime {
    T_1,
    T_2,
    T_4,
    T_7,
    T_19,
    T_61,
    T_181,
    T_601,
}

/// The 3-bit SMP code of a sample time.
pub open spec fn sample_time_code(st: SampleTime) -> u8 {
    match st {
        SampleTime::T_1 => 0b000,
        SampleTime::T_2 => 0b001,
        SampleTime::T_4 => 0b010,
        SampleTime::T_7 => 0b011,
        SampleTime::T_19 => 0b100,
        SampleTime::T_61 => 0b101,
        SampleTime::T_181 => 0b110,
        SampleTime::T_601 => 0b111,
    }
}

impl Default for SampleTime {
    /// `T_1` is also the reset value.
    fn default() -> (r: Self)
        ensures
            r == SampleTime::T_1,
    {
        SampleTime::T_1
    }
}

impl SampleTime {
    /// Conversion to the bits of the SMP field.
    pub fn bitcode(&self) -> (r: u8)
        ensures
            r == sample_time_code(*self),
    {
        match self {
            SampleTime::T_1 => 0b000,
            SampleTime::T_2 => 0b001,
            SampleTime::T_4 => 0b010,
            SampleTime::T_7 => 0b011,
            SampleTime::T_19 => 0b100,
            SampleTime::T_61 => 0b101,
            SampleTime::T_181 => 0b110,
            SampleTime::T_601 => 0b111,
        }
    }
}


/// Worst-case startup time of the voltage regulator, in microseconds.
pub const MAX_ADVREGEN_STARTUP_US: u32 = 10;

/// ADC operation mode.
#[derive(Clone, Copy, Debug, PartialEq, Eq, Structural)]
pub enum OperationMode {
    OneShot,
}

/// ADC data register alignment.
#[derive(Clone, Copy, Debug, PartialEq, Eq, Structural)]
pub enum Align {
    /// Right alignment of output data
    Right,
    /// Left alignment of output data
    Left,
}

impl Default for Align {
    fn default() -> (r: Self)
        ensures
            r == Align::Right,
    {
        Align::Right
    }
}

/// The ALIGN bits of the configuration register for an alignment.
pub open spec fn align_bits(a: Align) -> u32 {
    match a {
        Align::Right => 0,
        Align::Left => CFGR_ALIGN,
    }
}

impl Align {
    /// The ALIGN bits of the configuration register.
    pub fn bits(&self) -> (r: u32)
        ensures
            r == align_bits(*self),
    {
        match self {
            Align::Right => 0,
            Align::Left => CFGR_ALIGN,
        }
    }
}

/// Why a request to the driver was refused. Nothing has been written when one
/// is returned.
#[derive(Clone, Copy, Debug, PartialEq, Eq, Structural)]
pub enum AdcError {
    /// SYNCDIV1 was asked for while HCLK and the system clock differ.
    ClockNotWellDefined,
    /// The shared clock is enabled already with another divider mode.
    ClockConflict,
    /// A regular sequence length outside `1..=16`.
    InvalidSequenceLength,
    /// A channel number without a sample-time field.
    UnmappedChannel,
}

/// The sample-time field of a channel: its register and bit position.
/// Channels 1 to 9 sit in SMPR1; 11 takes the first slot of SMPR2, and 12 to 18
/// their own slots there. Channel 10 and all others have none.
pub open spec fn smp_slot(chan: u8) -> Option<(Reg, u32)> {
    if 1 <= chan <= 9 {
        Some((Reg::Smpr1, (3 * chan) as u32))
    } else if chan == 11 {
        Some((Reg::Smpr2, 0))
    } else if 12 <= chan <= 18 {
        Some((Reg::Smpr2, (3 * (chan - 10)) as u32))
    } else {
        None
    }
}

/// The sample-time field of a channel, as [`smp_slot`] gives it.
fn smp_field(chan: u8) -> (r: Option<(Reg, u32)>)
    ensures
        r == smp_slot(chan),
{
    if 1 <= chan && chan <= 9 {
        Some((Reg::Smpr1, 3 * chan as u32))
    } else if chan == 11 {
        Some((Reg::Smpr2, 0))
    } else if 12 <= chan && chan <= 18 {
        Some((Reg::Smpr2, 3 * (chan as u32 - 10)))
    } else {
        None
    }
}

/// The write of sample time `st` into a field at `shift` of `reg`.
pub open spec fn smp_op(reg: Reg, shift: u32, st: SampleTime) -> RegOp {
    RegOp::Modify { reg, mask: 7u32 << shift, bits: (sample_time_code(st) as u32) << shift }
}

/// The write that sets the alignment.
pub open spec fn align_op(a: Align) -> RegOp {
    RegOp::Modify { reg: Reg::Cfgr, mask: CFGR_ALIGN, bits: align_bits(a) }
}

/// The write of a regular sequence length `n` (stored as `n - 1`).
pub open spec fn seq_len_op(n: u8) -> RegOp {
    RegOp::Modify { reg: Reg::Sqr1, mask: SQR1_L_MASK, bits: (n - 1) as u32 }
}

/// The write that makes `chan` the only entry of the regular sequence.
pub open spec fn select_op(chan: u8) -> RegOp {
    RegOp::Modify { reg: Reg::Sqr1, mask: SQR1_SQ1_MASK, bits: (chan as u32) << SQR1_SQ1_SHIFT }
}

/// Core clock cycles to wait for the regulator to start.
pub open spec fn advregen_startup_cycles(clocks: Clocks) -> u64 {
    ((MAX_ADVREGEN_STARTUP_US * 1_000_000) as int / clocks.sysclk as int) as u64
}

/// The delay that stands for `cycles` cycles of the converter clock.
pub open spec fn adc_clk_delay(clocks: Clocks, ckmode: CkMode, cycles: u32) -> u64 {
    ((clocks.hclk as int / ckmode_divisor(ckmode) as int) * cycles as int) as u64
}

/// Regulator start: unless it reads enabled, go through the intermediate state
/// to enabled, then wait the startup time.
pub open spec fn regulator_ops(clocks: Clocks) -> Seq<RegOp> {
    seq![
        RegOp::SkipIfEqual { reg: Reg::Cr, mask: CR_ADVREGEN_MASK, bits: CR_ADVREGEN_ENABLED, count: 3 },
        RegOp::Modify { reg: Reg::Cr, mask: CR_ADVREGEN_MASK, bits: CR_ADVREGEN_INTERMEDIATE },
        RegOp::Modify { reg: Reg::Cr, mask: CR_ADVREGEN_MASK, bits: CR_ADVREGEN_ENABLED },
        RegOp::Delay { cycles: advregen_startup_cycles(clocks) },
    ]
}

/// The disable request.
pub open spec fn disable_op() -> RegOp {
    RegOp::Modify { reg: Reg::Cr, mask: CR_ADDIS, bits: CR_ADDIS }
}

/// Single-ended calibration: regulator start, disable, request, wait for done.
pub open spec fn calibrate_ops(clocks: Clocks) -> Seq<RegOp> {
    regulator_ops(clocks) + seq![
        disable_op(),
        RegOp::Modify { reg: Reg::Cr, mask: CR_ADCALDIF | CR_ADCAL, bits: CR_ADCAL },
        RegOp::WaitClear { reg: Reg::Cr, mask: CR_ADCAL },
    ]
}

/// The enable handshake: request, then wait for ADRDY.
pub open spec fn enable_ops() -> Seq<RegOp> {
    seq![
        RegOp::Modify { reg: Reg::Cr, mask: CR_ADEN, bits: CR_ADEN },
        RegOp::WaitSet { reg: Reg::Isr, mask: ISR_ADRDY },
    ]
}

/// The program that brings a converter with a running clock to enabled.
pub open spec fn init_ops(ckmode: CkMode, clocks: Clocks) -> Seq<RegOp> {
    seq![align_op(Align::Right)] + calibrate_ops(clocks) + seq![
        RegOp::Delay { cycles: adc_clk_delay(clocks, ckmode, 4) },
    ] + enable_ops()
}

/// One-shot setup: stop, clear overrun, single mode preserving on overrun,
/// sequence length one.
pub open spec fn oneshot_ops() -> Seq<RegOp> {
    seq![
        RegOp::Modify { reg: Reg::Cr, mask: CR_ADSTP, bits: CR_ADSTP },
        RegOp::Modify { reg: Reg::Isr, mask: ISR_OVR, bits: ISR_OVR },
        RegOp::Modify { reg: Reg::Cfgr, mask: CFGR_CONT | CFGR_OVRMOD, bits: 0 },
        seq_len_op(1),
    ]
}

/// Start, wait for the end of the sequence, clear its flag.
pub open spec fn start_ops() -> Seq<RegOp> {
    seq![
        RegOp::Modify { reg: Reg::Cr, mask: CR_ADSTART, bits: CR_ADSTART },
        RegOp::WaitSet { reg: Reg::Isr, mask: ISR_EOS },
        RegOp::Modify { reg: Reg::Isr, mask: ISR_EOS, bits: ISR_EOS },
    ]
}

/// One conversion of a mapped channel in one-shot mode.
pub open spec fn conversion_ops(chan: u8) -> Seq<RegOp>
    recommends
        smp_slot(chan) is Some,
{
    match smp_slot(chan) {
        Some((reg, shift)) => seq![smp_op(reg, shift, SampleTime::T_1), select_op(chan)]
            + start_ops(),
        None => seq![],
    }
}

/// The whole conversion program, given the operation mode beforehand: the
/// one-shot setup comes first only when that mode was not configured.
pub open spec fn conversion_program(mode: Option<OperationMode>, chan: u8) -> Seq<RegOp> {
    if mode == Some(OperationMode::OneShot) {
        conversion_ops(chan)
    } else {
        oneshot_ops() + conversion_ops(chan)
    }
}

/// The raw value in a data register value.
pub open spec fn data_of(dr: u32) -> u16 {
    (dr & DR_RDATA_MASK) as u16
}

/// The raw conversion result held in a data register value.
pub fn data_value(dr: u32) -> (r: u16)
    ensures
        r == data_of(dr),
{
    (dr & DR_RDATA_MASK) as u16
}

/// A converter driver. It owns the register block `rb` and produces the
/// register programs of the protocol; the owner of the hardware runs them.
pub struct Adc<ADC> {
    pub rb: ADC,
    clocks: Clocks,
    ckmode: CkMode,
    operation_mode: Option<OperationMode>,
}

impl<ADC> Adc<ADC> {
    /// The register block owned by the driver.
    pub closed spec fn spec_rb(&self) -> ADC {
        self.rb
    }

    /// The clock snapshot taken at construction.
    pub closed spec fn spec_clocks(&self) -> Clocks {
        self.clocks
    }

    /// The divider mode chosen at construction.
    pub closed spec fn spec_ckmode(&self) -> CkMode {
        self.ckmode
    }

    /// The operation mode configured so far.
    pub closed spec fn spec_operation_mode(&self) -> Option<OperationMode> {
        self.operation_mode
    }

    /// Init a new ADC: checks the clocks, enables the shared clock, and appends
    /// to `prog` the program that sets the alignment, calibrates and enables
    /// the converter. `gate` holds the clock-gate registers of `pair`.
    pub fn new(
        rb: ADC,
        pair: AdcPair,
        gate: &mut SharedClock,
        ckmode: CkMode,
        clocks: Clocks,
        prog: &mut Vec<RegOp>,
    ) -> (r: Result<Adc<ADC>, AdcError>)
        requires
            clocks.sysclk > 0,
        ensures
            !well_defined_clocks(ckmode, clocks) ==> r == Err::<Adc<ADC>, AdcError>(
                AdcError::ClockNotWellDefined,
            ),
            well_defined_clocks(ckmode, clocks) && !gate_accepts(*old(gate), pair, ckmode) ==> r
                == Err::<Adc<ADC>, AdcError>(AdcError::ClockConflict),
            r is Err ==> *final(gate) == *old(gate) && final(prog)@ == old(prog)@,
            r is Ok <==> well_defined_clocks(ckmode, clocks) && gate_accepts(
                *old(gate),
                pair,
                ckmode,
            ),
            r matches Ok(adc) ==> {
                &&& adc.spec_rb() == rb
                &&& adc.spec_clocks() == clocks
                &&& adc.spec_ckmode() == ckmode
                &&& adc.spec_operation_mode() is None
                &&& *final(gate) == gate_after(*old(gate), pair, ckmode)
                &&& final(prog)@ == old(prog)@ + init_ops(ckmode, clocks)
            },
    {
        if !clocks_welldefined(ckmode, clocks) {
            return Err(AdcError::ClockNotWellDefined);
        }
        let this_adc = Adc { rb, clocks, ckmode, operation_mode: None };
        if !this_adc.enable_clock(pair, gate) {
            return Err(AdcError::ClockConflict);
        }
        this_adc.set_align(Align::Right, prog);
        this_adc.calibrate(prog);
        // ADEN cannot be set while ADCAL=1, nor for 4 ADC clock cycles after
        // hardware clears ADCAL.
        this_adc.wait_adc_clk_cycles(4, prog);
        this_adc.enable(prog);
        assert(prog@ =~= old(prog)@ + init_ops(ckmode, clocks));
        Ok(this_adc)
    }

    /// Returns true iff the clock can be enabled with the driver's mode, or was
    /// enabled already with the same mode.
    fn enable_clock(&self, pair: AdcPair, gate: &mut SharedClock) -> (r: bool)
        ensures
            r == gate_accepts(*old(gate), pair, self.ckmode),
            r ==> *final(gate) == gate_after(*old(gate), pair, self.ckmode),
            !r ==> *final(gate) == *old(gate),
    {
        gate.enable(pair, self.ckmode)
    }

    /// Sets up the converter in one-shot mode for a single channel.
    pub fn setup_oneshot(&mut self, prog: &mut Vec<RegOp>)
        ensures
            final(prog)@ == old(prog)@ + oneshot_ops(),
            final(self).spec_rb() == old(self).spec_rb(),
            final(self).spec_clocks() == old(self).spec_clocks(),
            final(self).spec_ckmode() == old(self).spec_ckmode(),
            final(self).spec_operation_mode() == Some(OperationMode::OneShot),
    {
        prog.push(RegOp::Modify { reg: Reg::Cr, mask: CR_ADSTP, bits: CR_ADSTP });
        prog.push(RegOp::Modify { reg: Reg::Isr, mask: ISR_OVR, bits: ISR_OVR });
        prog.push(RegOp::Modify { reg: Reg::Cfgr, mask: CFGR_CONT | CFGR_OVRMOD, bits: 0 });
        let _ = self.set_sequence_len(1, prog);
        self.operation_mode = Some(OperationMode::OneShot);
        assert(prog@ =~= old(prog)@ + oneshot_ops());
    }

    /// Sets the regular sequence length; it must lie in `1..=16`.
    pub fn set_sequence_len(&self, len: u8, prog: &mut Vec<RegOp>) -> (r: Result<(), AdcError>)
        ensures
            r is Ok <==> 1 <= len <= 16,
            r is Ok ==> final(prog)@ == old(prog)@.push(seq_len_op(len)),
            r is Err ==> r == Err::<(), AdcError>(AdcError::InvalidSequenceLength)
                && final(prog)@ == old(prog)@,
    {
        if len < 1 || len > 16 {
            return Err(AdcError::InvalidSequenceLength);
        }
        prog.push(RegOp::Modify { reg: Reg::Sqr1, mask: SQR1_L_MASK, bits: (len - 1) as u32 });
        Ok(())
    }

    fn set_align(&self, align: Align, prog: &mut Vec<RegOp>)
        ensures
            final(prog)@ == old(prog)@.push(align_op(align)),
    {
        prog.push(RegOp::Modify { reg: Reg::Cfgr, mask: CFGR_ALIGN, bits: align.bits() });
    }

    fn enable(&self, prog: &mut Vec<RegOp>)
        ensures
            final(prog)@ == old(prog)@ + enable_ops(),
    {
        prog.push(RegOp::Modify { reg: Reg::Cr, mask: CR_ADEN, bits: CR_ADEN });
        prog.push(RegOp::WaitSet { reg: Reg::Isr, mask: ISR_ADRDY });
        assert(prog@ =~= old(prog)@ + enable_ops());
    }

    fn disable(&self, prog: &mut Vec<RegOp>)
        ensures
            final(prog)@ == old(prog)@.push(disable_op()),
    {
        prog.push(RegOp::Modify { reg: Reg::Cr, mask: CR_ADDIS, bits: CR_ADDIS });
    }

    /// Single-ended calibration, after the regulator has started.
    fn calibrate(&self, prog: &mut Vec<RegOp>)
        requires
            self.clocks.sysclk > 0,
        ensures
            final(prog)@ == old(prog)@ + calibrate_ops(self.clocks),
    {
        prog.push(
            RegOp::SkipIfEqual {
                reg: Reg::Cr,
                mask: CR_ADVREGEN_MASK,
                bits: CR_ADVREGEN_ENABLED,
                count: 3,
            },
        );
        self.advregen_enable(prog);
        self.wait_advregen_startup(prog);
        self.disable(prog);
        prog.push(RegOp::Modify { reg: Reg::Cr, mask: CR_ADCALDIF | CR_ADCAL, bits: CR_ADCAL });
        prog.push(RegOp::WaitClear { reg: Reg::Cr, mask: CR_ADCAL });
        assert(prog@ =~= old(prog)@ + calibrate_ops(self.clocks));
    }

    fn wait_adc_clk_cycles(&self, cycles: u32, prog: &mut Vec<RegOp>)
        ensures
            final(prog)@ == old(prog)@.push(
                RegOp::Delay { cycles: adc_clk_delay(self.clocks, self.ckmode, cycles) },
            ),
    {
        let adc_clk_cycle = self.clocks.hclk / self.ckmode.divisor();
        assert((adc_clk_cycle as int) * (cycles as int) <= 0xffff_ffff * 0xffff_ffff) by (nonlinear_arith)
            requires
                adc_clk_cycle <= 0xffff_ffffu32,
                cycles <= 0xffff_ffffu32,
        ;
        prog.push(RegOp::Delay { cycles: adc_clk_cycle as u64 * cycles as u64 });
    }

    /// The regulator goes through the intermediate state before enabled.
    fn advregen_enable(&self, prog: &mut Vec<RegOp>)
        ensures
            final(prog)@ == old(prog)@.push(
                RegOp::Modify { reg: Reg::Cr, mask: CR_ADVREGEN_MASK, bits: CR_ADVREGEN_INTERMEDIATE },
            ).push(RegOp::Modify { reg: Reg::Cr, mask: CR_ADVREGEN_MASK, bits: CR_ADVREGEN_ENABLED }),
    {
        prog.push(
            RegOp::Modify { reg: Reg::Cr, mask: CR_ADVREGEN_MASK, bits: CR_ADVREGEN_INTERMEDIATE },
        );
        prog.push(RegOp::Modify { reg: Reg::Cr, mask: CR_ADVREGEN_MASK, bits: CR_ADVREGEN_ENABLED });
    }

    /// Waits the worst-case regulator startup time.
    fn wait_advregen_startup(&self, prog: &mut Vec<RegOp>)
        requires
            self.clocks.sysclk > 0,
        ensures
            final(prog)@ == old(prog)@.push(
                RegOp::Delay { cycles: advregen_startup_cycles(self.clocks) },
            ),
    {
        let cycles = (MAX_ADVREGEN_STARTUP_US * 1_000_000) / self.clocks.sysclk;
        prog.push(RegOp::Delay { cycles: cycles as u64 });
    }

    /// Sets the sample time of a channel. Only allowed when ADSTART is clear.
    pub fn set_chan_smps(&self, chan: u8, smp: SampleTime, prog: &mut Vec<RegOp>) -> (r: Result<
        (),
        AdcError,
    >)
        ensures
            r is Ok <==> smp_slot(chan) is Some,
            r is Ok ==> (smp_slot(chan) matches Some((reg, shift)) && final(prog)@ == old(
                prog,
            )@.push(smp_op(reg, shift, smp))),
            r is Err ==> r == Err::<(), AdcError>(AdcError::UnmappedChannel) && final(prog)@ == old(
                prog,
            )@,
    {
        match smp_field(chan) {
            Some((reg, shift)) => {
                let code = smp.bitcode() as u32;
                prog.push(RegOp::Modify { reg, mask: 7u32 << shift, bits: code << shift });
                Ok(())
            },
            None => Err(AdcError::UnmappedChannel),
        }
    }

    /// Makes `chan` the only entry of the regular sequence.
    fn select_single_chan(&self, chan: u8, prog: &mut Vec<RegOp>)
        ensures
            final(prog)@ == old(prog)@.push(select_op(chan)),
    {
        prog.push(
            RegOp::Modify {
                reg: Reg::Sqr1,
                mask: SQR1_SQ1_MASK,
                bits: (chan as u32) << SQR1_SQ1_SHIFT,
            },
        );
    }

    /// Configures one-shot mode unless it is configured already.
    fn ensure_oneshot(&mut self, prog: &mut Vec<RegOp>)
        ensures
            old(self).spec_operation_mode() == Some(OperationMode::OneShot) ==> final(prog)@ == old(
                prog,
            )@,
            old(self).spec_operation_mode() != Some(OperationMode::OneShot) ==> final(prog)@ == old(
                prog,
            )@ + oneshot_ops(),
            final(self).spec_rb() == old(self).spec_rb(),
            final(self).spec_clocks() == old(self).spec_clocks(),
            final(self).spec_ckmode() == old(self).spec_ckmode(),
            final(self).spec_operation_mode() == Some(OperationMode::OneShot),
    {
        match self.operation_mode {
            Some(OperationMode::OneShot) => {
                assert(self.spec_operation_mode() == Some(OperationMode::OneShot));
            },
            None => self.setup_oneshot(prog),
        }
    }

    /// Appends the program of one conversion of `chan`: one-shot setup if it
    /// was not configured, the default sample time, `chan` as the sole sequence
    /// entry, start, wait for the end of the sequence and clear its flag. The
    /// result is then in the data register (see [`data_value`]). An unmapped
    /// channel is refused before anything is written.
    pub fn convert_one(&mut self, chan: u8, prog: &mut Vec<RegOp>) -> (r: Result<(), AdcError>)
        ensures
            r is Ok <==> smp_slot(chan) is Some,
            r is Err ==> {
                &&& r == Err::<(), AdcError>(AdcError::UnmappedChannel)
                &&& final(prog)@ == old(prog)@
                &&& *final(self) == *old(self)
            },
            r is Ok ==> {
                &&& final(prog)@ == old(prog)@ + conversion_program(
                    old(self).spec_operation_mode(),
                    chan,
                )
                &&& final(self).spec_rb() == old(self).spec_rb()
                &&& final(self).spec_clocks() == old(self).spec_clocks()
                &&& final(self).spec_ckmode() == old(self).spec_ckmode()
                &&& final(self).spec_operation_mode() == Some(OperationMode::OneShot)
            },
    {
        if smp_field(chan).is_none() {
            return Err(AdcError::UnmappedChannel);
        }
        self.ensure_oneshot(prog);
        let _ = self.set_chan_smps(chan, SampleTime::default(), prog);
        self.select_single_chan(chan, prog);
        prog.push(RegOp::Modify { reg: Reg::Cr, mask: CR_ADSTART, bits: CR_ADSTART });
        prog.push(RegOp::WaitSet { reg: Reg::Isr, mask: ISR_EOS });
        prog.push(RegOp::Modify { reg: Reg::Isr, mask: ISR_EOS, bits: ISR_EOS });
        assert(prog@ =~= old(prog)@ + conversion_program(old(self).spec_operation_mode(), chan));
        Ok(())
    }

    /// Gives the register block back.
    pub fn release(self) -> (r: ADC)
        ensures
            r == self.spec_rb(),
    {
        self.rb
    }
}

/// Every sample time has its own code, and each code lies in `0..=7`.
pub proof fn lemma_bitcode_unique(a: SampleTime, b: SampleTime)
    ensures
        sample_time_code(a) <= 7,
        sample_time_code(a) == sample_time_code(b) <==> a == b,
{
}

/// Writing a sequence length `n` in `1..=16` leaves `n - 1` in the L field of
/// SQR1 and every other bit and register as it was.
pub proof fn lemma_sequence_length_written(r: AdcRegisters, n: u8)
    requires
        1 <= n <= 16,
    ensures
        apply_op(r, seq_len_op(n)).sqr1 & SQR1_L_MASK == (n - 1) as u32,
        apply_op(r, seq_len_op(n)).sqr1 & !SQR1_L_MASK == r.sqr1 & !SQR1_L_MASK,
        apply_op(r, seq_len_op(n)) == (AdcRegisters { sqr1: apply_op(r, seq_len_op(n)).sqr1, ..r }),
{
    let v = r.sqr1;
    let b = (n - 1) as u32;
    assert(((v & !0xfu32) | b) & 0xfu32 == b && ((v & !0xfu32) | b) & !0xfu32 == v & !0xfu32)
        by (bit_vector)
        requires
            b <= 15,
    ;
}

/// Writing sample time `st` for a mapped channel leaves its code in the
/// channel's three-bit field and every other bit and register as it was.
pub proof fn lemma_sample_time_written(r: AdcRegisters, chan: u8, st: SampleTime)
    requires
        smp_slot(chan) is Some,
    ensures
        smp_slot(chan) matches Some((reg, shift)) && {
            let after = apply_op(r, smp_op(reg, shift, st));
            &&& (reg_value(after, reg) >> shift) & 7 == sample_time_code(st) as u32
            &&& reg_value(after, reg) & !(7u32 << shift) == reg_value(r, reg) & !(7u32 << shift)
            &&& after == with_reg(r, reg, reg_value(after, reg))
        },
{
    let (reg, shift) = smp_slot(chan)->Some_0;
    let v = reg_value(r, reg);
    let c = sample_time_code(st) as u32;
    assert(shift <= 27);
    assert((((v & !(7u32 << shift)) | (c << shift)) >> shift) & 7 == c
        && ((v & !(7u32 << shift)) | (c << shift)) & !(7u32 << shift) == v & !(7u32 << shift))
        by (bit_vector)
        requires
            c <= 7,
            shift <= 27,
    ;
}

/// Conversions in a row: a conversion from an unconfigured driver starts with
/// the one-shot setup; once one-shot is configured (as every conversion leaves
/// it) the program holds none of the setup's writes.
pub proof fn lemma_setup_runs_once(mode: Option<OperationMode>, chan: u8)
    requires
        smp_slot(chan) is Some,
    ensures
        mode != Some(OperationMode::OneShot) ==> conversion_program(mode, chan) == oneshot_ops()
            + conversion_ops(chan),
        conversion_program(Some(OperationMode::OneShot), chan) == conversion_ops(chan),
        forall|i: int, j: int|
            0 <= i < conversion_ops(chan).len() && 0 <= j < oneshot_ops().len()
                ==> conversion_ops(chan)[i] != oneshot_ops()[j],
{
    let (reg, shift) = smp_slot(chan)->Some_0;
    assert((7u32 << shift) != 0u32 && (7u32 << shift) != CFGR_CONT | CFGR_OVRMOD) by (bit_vector)
        requires
            shift <= 27,
    ;
    assert(SQR1_SQ1_MASK != SQR1_L_MASK);
    assert(CR_ADSTART != CR_ADSTP && ISR_EOS != ISR_OVR);
}

} // verus!
