use stm32_adc::adc::{data_value, Adc, AdcError, Align, SampleTime};
use stm32_adc::clock::{clocks_welldefined, AdcPair, CkMode, Clocks, SharedClock};
use stm32_adc::regs::{
    AdcRegisters, Reg, RegOp, CFGR_ALIGN, CR_ADCAL, CR_ADEN, CR_ADSTART, CR_ADSTP,
    CR_ADVREGEN_ENABLED, CR_ADVREGEN_MASK, ISR_ADRDY, ISR_EOS,
};

fn zero_regs() -> AdcRegisters {
    AdcRegisters { cr: 0, isr: 0, cfgr: 0, sqr1: 0, smpr1: 0, smpr2: 0, dr: 0 }
}

fn read(r: &AdcRegisters, reg: Reg) -> u32 {
    r.read(reg)
}

/// Runs a program against a simulated converter that answers every request at
/// once and latches `sample` on a conversion start.
fn run(r: &mut AdcRegisters, prog: &[RegOp], sample: u32) {
    let mut i = 0;
    while i < prog.len() {
        match prog[i] {
            RegOp::Modify { reg: Reg::Isr, mask: _, bits } => r.isr &= !bits,
            op @ RegOp::Modify { .. } => {
                r.apply(op);
                if r.cr & CR_ADEN != 0 {
                    r.isr |= ISR_ADRDY;
                }
                r.cr &= !CR_ADCAL;
                if r.cr & CR_ADSTART != 0 {
                    r.cr &= !CR_ADSTART;
                    r.isr |= ISR_EOS;
                    r.dr = sample;
                }
            }
            RegOp::WaitSet { reg, mask } => assert_eq!(read(r, reg) & mask, mask),
            RegOp::WaitClear { reg, mask } => assert_eq!(read(r, reg) & mask, 0),
            RegOp::Delay { .. } => {}
            RegOp::SkipIfEqual { reg, mask, bits, count } => {
                if read(r, reg) & mask == bits {
                    i += count as usize;
                }
            }
        }
        i += 1;
    }
}

fn clocks_16_32() -> Clocks {
    Clocks::new(16_000_000, 32_000_000)
}

fn new_adc(ckmode: CkMode, clocks: Clocks) -> (Result<Adc<u8>, AdcError>, SharedClock, Vec<RegOp>) {
    let mut gate = SharedClock::new(0, 0);
    let mut prog = Vec::new();
    let r = Adc::new(1u8, AdcPair::Adc12, &mut gate, ckmode, clocks, &mut prog);
    (r, gate, prog)
}

fn count_setups(prog: &[RegOp]) -> usize {
    prog.iter()
        .filter(|op| **op == RegOp::Modify { reg: Reg::Cr, mask: CR_ADSTP, bits: CR_ADSTP })
        .count()
}

#[test]
fn bitcode_of_each_sample_time() {
    let all = [
        SampleTime::T_1,
        SampleTime::T_2,
        SampleTime::T_4,
        SampleTime::T_7,
        SampleTime::T_19,
        SampleTime::T_61,
        SampleTime::T_181,
        SampleTime::T_601,
    ];
    let codes: Vec<u8> = all.iter().map(|s| s.bitcode()).collect();
    assert_eq!(codes, vec![0, 1, 2, 3, 4, 5, 6, 7]);
    assert_eq!(SampleTime::T_19.bitcode(), SampleTime::T_19.bitcode());
}

#[test]
fn defaults() {
    assert_eq!(SampleTime::default(), SampleTime::T_1);
    assert_eq!(CkMode::default(), CkMode::SYNCDIV2);
    assert_eq!(Align::default(), Align::Right);
    assert_eq!(Align::Left.bits(), CFGR_ALIGN);
    assert_eq!(Align::Right.bits(), 0);
    assert_eq!(CkMode::SYNCDIV4.divisor(), 4);
    assert_eq!(CkMode::SYNCDIV1.code(), 1);
    assert_eq!(CkMode::SYNCDIV4.code(), 3);
}

#[test]
fn clock_validator() {
    assert!(clocks_welldefined(CkMode::SYNCDIV1, Clocks::new(32_000_000, 32_000_000)));
    assert!(!clocks_welldefined(CkMode::SYNCDIV1, clocks_16_32()));
    assert!(clocks_welldefined(CkMode::SYNCDIV2, clocks_16_32()));
    assert!(clocks_welldefined(CkMode::SYNCDIV4, clocks_16_32()));
}

#[test]
fn sequence_length_bounds() {
    let (r, _, _) = new_adc(CkMode::SYNCDIV2, clocks_16_32());
    let adc = r.unwrap();
    let mut prog = Vec::new();
    assert_eq!(adc.set_sequence_len(0, &mut prog), Err(AdcError::InvalidSequenceLength));
    assert_eq!(adc.set_sequence_len(17, &mut prog), Err(AdcError::InvalidSequenceLength));
    assert!(prog.is_empty());
    assert_eq!(adc.set_sequence_len(1, &mut prog), Ok(()));
    assert_eq!(adc.set_sequence_len(16, &mut prog), Ok(()));
    assert_eq!(prog[0], RegOp::Modify { reg: Reg::Sqr1, mask: 0xf, bits: 0 });
    assert_eq!(prog[1], RegOp::Modify { reg: Reg::Sqr1, mask: 0xf, bits: 15 });
    let mut regs = zero_regs();
    regs.sqr1 = 0xffff_fff0;
    regs.apply(prog[1]);
    assert_eq!(regs.sqr1, 0xffff_ffff);
}

#[test]
fn clock_gate_first_and_repeated_enable() {
    let mut gate = SharedClock::new(0, 0);
    assert!(gate.enable(AdcPair::Adc12, CkMode::SYNCDIV4));
    assert_eq!(gate.ahb_enr, 0x1000_0000);
    assert_eq!(gate.ccr, 0x0003_0000);
    assert!(gate.is_enabled(AdcPair::Adc12));
    assert!(!gate.is_enabled(AdcPair::Adc34));
    assert!(gate.enable(AdcPair::Adc12, CkMode::SYNCDIV4));
    assert_eq!(gate, SharedClock::new(0x1000_0000, 0x0003_0000));
    assert!(!gate.enable(AdcPair::Adc12, CkMode::SYNCDIV2));
    assert_eq!(gate, SharedClock::new(0x1000_0000, 0x0003_0000));
    assert!(gate.enable(AdcPair::Adc34, CkMode::SYNCDIV2));
    assert_eq!(gate.ahb_enr, 0x3000_0000);
}

#[test]
fn construct_rejects_conflicting_clock() {
    let mut gate = SharedClock::new(0x1000_0000, 0x0003_0000);
    let mut prog = Vec::new();
    let r = Adc::new(1u8, AdcPair::Adc12, &mut gate, CkMode::SYNCDIV2, clocks_16_32(), &mut prog);
    assert_eq!(r.err(), Some(AdcError::ClockConflict));
    assert_eq!(gate, SharedClock::new(0x1000_0000, 0x0003_0000));
    assert!(prog.is_empty());
}

#[test]
fn construct_scenario_divider_two_and_one() {
    let (r, gate, prog) = new_adc(CkMode::SYNCDIV2, clocks_16_32());
    let adc = r.unwrap();
    assert_eq!(gate, SharedClock::new(0x1000_0000, 0x0002_0000));
    assert_eq!(prog.len(), 11);
    assert_eq!(prog[0], RegOp::Modify { reg: Reg::Cfgr, mask: CFGR_ALIGN, bits: 0 });
    assert_eq!(prog[4], RegOp::Delay { cycles: 0 });
    assert_eq!(prog[8], RegOp::Delay { cycles: 32_000_000 });
    assert_eq!(prog[10], RegOp::WaitSet { reg: Reg::Isr, mask: ISR_ADRDY });
    assert_eq!(adc.release(), 1u8);

    let (r, gate, prog) = new_adc(CkMode::SYNCDIV1, clocks_16_32());
    assert_eq!(r.err(), Some(AdcError::ClockNotWellDefined));
    assert_eq!(gate, SharedClock::new(0, 0));
    assert!(prog.is_empty());
}

#[test]
fn regulator_startup_delay() {
    let (r, _, prog) = new_adc(CkMode::SYNCDIV4, Clocks::new(8_000_000, 1_000_000));
    assert!(r.is_ok());
    assert_eq!(prog[4], RegOp::Delay { cycles: 10 });
    assert_eq!(prog[8], RegOp::Delay { cycles: 8_000_000 });
}

#[test]
fn init_program_runs_regulator_sequence_once() {
    let (_, _, prog) = new_adc(CkMode::SYNCDIV2, clocks_16_32());
    let mut regs = zero_regs();
    regs.cr = 0x2000_0000;
    run(&mut regs, &prog, 0);
    assert_eq!(regs.cr & CR_ADVREGEN_MASK, CR_ADVREGEN_ENABLED);
    assert_ne!(regs.isr & ISR_ADRDY, 0);
    let mut again = zero_regs();
    again.cr = CR_ADVREGEN_ENABLED;
    let before = again.cr;
    let mut skipped = prog.clone();
    skipped.truncate(4);
    run(&mut again, &skipped, 0);
    assert_eq!(again.cr, before);
}

#[test]
fn sample_time_scenario() {
    let (r, _, _) = new_adc(CkMode::SYNCDIV2, clocks_16_32());
    let adc = r.unwrap();
    let mut prog = Vec::new();
    assert_eq!(adc.set_chan_smps(9, SampleTime::T_19, &mut prog), Ok(()));
    assert_eq!(adc.set_chan_smps(11, SampleTime::T_61, &mut prog), Ok(()));
    let mut regs = zero_regs();
    regs.apply(prog[0]);
    regs.apply(prog[1]);
    assert_eq!((regs.smpr1 >> 27) & 7, 0b100);
    assert_eq!(regs.smpr1 & !(7 << 27), 0);
    assert_eq!(regs.smpr2 & 7, 0b101);
    assert_eq!(regs.smpr2 & !7, 0);
    assert_eq!(adc.set_chan_smps(10, SampleTime::T_2, &mut prog), Err(AdcError::UnmappedChannel));
    assert_eq!(adc.set_chan_smps(0, SampleTime::T_2, &mut prog), Err(AdcError::UnmappedChannel));
    assert_eq!(adc.set_chan_smps(19, SampleTime::T_2, &mut prog), Err(AdcError::UnmappedChannel));
    assert_eq!(prog.len(), 2);
    assert_eq!(adc.set_chan_smps(18, SampleTime::T_601, &mut prog), Ok(()));
    assert_eq!(prog[2], RegOp::Modify { reg: Reg::Smpr2, mask: 7 << 24, bits: 7 << 24 });
}

#[test]
fn convert_one_scenario_fresh_driver() {
    let (r, _, init) = new_adc(CkMode::SYNCDIV2, clocks_16_32());
    let mut adc = r.unwrap();
    let mut regs = zero_regs();
    run(&mut regs, &init, 0);
    let mut prog = Vec::new();
    assert_eq!(adc.convert_one(3, &mut prog), Ok(()));
    assert_eq!(count_setups(&prog), 1);
    assert_eq!(prog.len(), 9);
    assert_eq!(prog[4], RegOp::Modify { reg: Reg::Smpr1, mask: 7 << 9, bits: 0 });
    assert_eq!(prog[5], RegOp::Modify { reg: Reg::Sqr1, mask: 0x7c0, bits: 3 << 6 });
    assert_eq!(prog[6], RegOp::Modify { reg: Reg::Cr, mask: CR_ADSTART, bits: CR_ADSTART });
    assert_eq!(prog[7], RegOp::WaitSet { reg: Reg::Isr, mask: ISR_EOS });
    assert_eq!(prog[8], RegOp::Modify { reg: Reg::Isr, mask: ISR_EOS, bits: ISR_EOS });
    run(&mut regs, &prog, 0x0000_0abc);
    assert_eq!(regs.isr & ISR_EOS, 0);
    assert_eq!((regs.sqr1 >> 6) & 0x1f, 3);
    assert_eq!(regs.sqr1 & 0xf, 0);
    assert_eq!(data_value(regs.dr), 0x0abc);
}

#[test]
fn second_conversion_skips_setup() {
    let (r, _, _) = new_adc(CkMode::SYNCDIV2, clocks_16_32());
    let mut adc = r.unwrap();
    let mut first = Vec::new();
    adc.convert_one(3, &mut first).unwrap();
    let mut second = Vec::new();
    adc.convert_one(5, &mut second).unwrap();
    assert_eq!(count_setups(&second), 0);
    assert_eq!(second.len(), 5);
    assert_eq!(second[1], RegOp::Modify { reg: Reg::Sqr1, mask: 0x7c0, bits: 5 << 6 });
}

#[test]
fn setup_oneshot_then_convert() {
    let (r, _, _) = new_adc(CkMode::SYNCDIV2, clocks_16_32());
    let mut adc = r.unwrap();
    let mut prog = Vec::new();
    adc.setup_oneshot(&mut prog);
    assert_eq!(prog.len(), 4);
    adc.convert_one(1, &mut prog).unwrap();
    assert_eq!(count_setups(&prog), 1);
    assert_eq!(prog.len(), 9);
}

#[test]
fn convert_unmapped_channel_writes_nothing() {
    let (r, _, _) = new_adc(CkMode::SYNCDIV2, clocks_16_32());
    let mut adc = r.unwrap();
    let mut prog = Vec::new();
    assert_eq!(adc.convert_one(10, &mut prog), Err(AdcError::UnmappedChannel));
    assert!(prog.is_empty());
    adc.convert_one(2, &mut prog).unwrap();
    assert_eq!(count_setups(&prog), 1);
}

#[test]
fn data_register_value() {
    assert_eq!(data_value(0x1234_0fff), 0x0fff);
    assert_eq!(data_value(0xffff), 0xffff);
}
