use stm32_adc::qei::{
    count, is_upcounting, EncoderMode, QeiCh1Pin, QeiCh2Pin, QeiInstance, QeiTimer, TimReg,
    TimerOp,
};

#[derive(Debug, PartialEq)]
struct Tim4;
#[derive(Debug, PartialEq)]
struct Pb6;
#[derive(Debug, PartialEq)]
struct Pb7;

impl QeiCh1Pin<Tim4> for Pb6 {}
impl QeiCh2Pin<Tim4> for Pb7 {}

#[test]
fn encoder_mode_codes() {
    assert_eq!(EncoderMode::Edge1.sms_bits(), 1);
    assert_eq!(EncoderMode::Edge2.sms_bits(), 2);
    assert_eq!(EncoderMode::BothEdges.sms_bits(), 3);
}

#[test]
fn encoder_setup_program() {
    let mut prog = Vec::new();
    let qei = QeiTimer::new(Tim4, QeiInstance::Tim4, EncoderMode::BothEdges, 0x1000, Pb6, Pb7, &mut prog);
    assert_eq!(prog.len(), 8);
    assert_eq!(prog[0], TimerOp { reg: TimReg::Apb1Enr, mask: 4, bits: 4 });
    assert_eq!(prog[3], TimerOp { reg: TimReg::Smcr, mask: 7, bits: 3 });
    assert_eq!(prog[5], TimerOp { reg: TimReg::Arr, mask: 0xffff_ffff, bits: 0x1000 });
    assert_eq!(prog[7], TimerOp { reg: TimReg::Cr1, mask: 1, bits: 1 });
    qei.reset(&mut prog);
    assert_eq!(prog[8], TimerOp { reg: TimReg::Cnt, mask: 0xffff_ffff, bits: 0 });
    assert_eq!(qei.release(), (Tim4, Pb6, Pb7));
}

#[test]
fn counter_and_direction() {
    assert_eq!(count(0xabcd_1234), 0x1234);
    assert!(is_upcounting(0x0000_0001));
    assert!(!is_upcounting(0x0000_0011));
}
