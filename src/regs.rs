//! Register map of one converter and the register operations that the driver issues.
use vstd::prelude::*;

verus! {

/// ADEN: enable request.
pub const CR_ADEN: u32 = 0x0000_0001;
/// ADDIS: disable request.
pub const CR_ADDIS: u32 = 0x0000_0002;
/// ADSTART: start a regular conversion.
pub const CR_ADSTART: u32 = 0x0000_0004;
/// ADSTP: stop an ongoing regular conversion.
pub const CR_ADSTP: u32 = 0x0000_0010;
/// ADVREGEN: the two-bit voltage regulator field.
pub const CR_ADVREGEN_MASK: u32 = 0x3000_0000;
/// ADVREGEN = 0b00: intermediate state.
pub const CR_ADVREGEN_INTERMEDIATE: u32 = 0x0000_0000;
/// ADVREGEN = 0b01: regulator enabled.
pub const CR_ADVREGEN_ENABLED: u32 = 0x1000_0000;
/// ADCALDIF: calibration of differential inputs (clear: single-ended).
pub const CR_ADCALDIF: u32 = 0x4000_0000;
/// ADCAL: calibration request, cleared by hardware when done.
pub const CR_ADCAL: u32 = 0x8000_0000;

/// ADRDY: the converter is ready after the enable handshake.
pub const ISR_ADRDY: u32 = 0x0000_0001;
/// EOS: end of the regular sequence (write one to clear).
pub const ISR_EOS: u32 = 0x0000_0008;
/// OVR: overrun (write one to clear).
pub const ISR_OVR: u32 = 0x0000_0010;

/// ALIGN: left alignment of the data register when set.
pub const CFGR_ALIGN: u32 = 0x0000_0020;
/// OVRMOD: overwrite on overrun when set, preserve when clear.
pub const CFGR_OVRMOD: u32 = 0x0000_1000;
/// CONT: continuous conversion when set, single when clear.
pub const CFGR_CONT: u32 = 0x0000_2000;

/// L: regular sequence length minus one.
pub const SQR1_L_MASK: u32 = 0x0000_000f;
/// SQ1: first channel of the regular sequence.
pub const SQR1_SQ1_MASK: u32 = 0x0000_07c0;
/// Bit position of SQ1.
pub const SQR1_SQ1_SHIFT: u32 = 6;

/// RDATA: the conversion result.
pub const DR_RDATA_MASK: u32 = 0x0000_ffff;

/// The registers of one converter that the protocol touches.
#[derive(Clone, Copy, Debug, PartialEq, Eq, Structural)]
pub enum Reg {
    Cr,
    Isr,
    Cfgr,
    Sqr1,
    Smpr1,
    Smpr2,
    Dr,
}

/// One step of a register program. The driver produces programs; whoever owns
/// the memory-mapped registers runs them in order.
#[derive(Clone, Copy, Debug, PartialEq, Eq, Structural)]
pub enum RegOp {
    /// Read-modify-write: `reg = (reg & !mask) | bits`.
    Modify { reg: Reg, mask: u32, bits: u32 },
    /// Busy-wait until every bit of `mask` reads set in `reg`.
    WaitSet { reg: Reg, mask: u32 },
    /// Busy-wait until every bit of `mask` reads clear in `reg`.
    WaitClear { reg: Reg, mask: u32 },
    /// Busy-wait for the given number of core clock cycles.
    Delay { cycles: u64 },
    /// When `reg & mask == bits`, skip the next `count` steps.
    SkipIfEqual { reg: Reg, mask: u32, bits: u32, count: u32 },
}

/// Shadow values of a converter's registers.
#[derive(Clone, Copy, Debug, PartialEq, Eq, Structural)]
pub struct AdcRegisters {
    pub cr: u32,
    pub isr: u32,
    pub cfgr: u32,
    pub sqr1: u32,
    pub smpr1: u32,
    pub smpr2: u32,
    pub dr: u32,
}

/// The value of `reg` in `r`.
pub open spec fn reg_value(r: AdcRegisters, reg: Reg) -> u32 {
    match reg {
        Reg::Cr => r.cr,
        Reg::Isr => r.isr,
        Reg::Cfgr => r.cfgr,
        Reg::Sqr1 => r.sqr1,
        Reg::Smpr1 => r.smpr1,
        Reg::Smpr2 => r.smpr2,
        Reg::Dr => r.dr,
    }
}

/// `r` with `reg` replaced by `v`.
pub open spec fn with_reg(r: AdcRegisters, reg: Reg, v: u32) -> AdcRegisters {
    match reg {
        Reg::Cr => AdcRegisters { cr: v, ..r },
        Reg::Isr => AdcRegisters { isr: v, ..r },
        Reg::Cfgr => AdcRegisters { cfgr: v, ..r },
        Reg::Sqr1 => AdcRegisters { sqr1: v, ..r },
        Reg::Smpr1 => AdcRegisters { smpr1: v, ..r },
        Reg::Smpr2 => AdcRegisters { smpr2: v, ..r },
        Reg::Dr => AdcRegisters { dr: v, ..r },
    }
}

/// A register value after a read-modify-write.
pub open spec fn modified(v: u32, mask: u32, bits: u32) -> u32 {
    (v & !mask) | bits
}

/// What one step does to the register values. Only `Modify` writes; the other
/// steps wait or decide and leave the values as they are.
pub open spec fn apply_op(r: AdcRegisters, op: RegOp) -> AdcRegisters {
    match op {
        RegOp::Modify { reg, mask, bits } => with_reg(r, reg, modified(reg_value(r, reg), mask, bits)),
        _ => r,
    }
}

/// A register value after a read-modify-write.
pub fn modify_value(v: u32, mask: u32, bits: u32) -> (r: u32)
    ensures
        r == modified(v, mask, bits),
{
    (v & !mask) | bits
}

/// Whether the bits of `mask` in `v` equal `bits`: the test of the skip step,
/// and of a wait (with `bits` equal to `mask`, or to zero).
pub fn field_equals(v: u32, mask: u32, bits: u32) -> (r: bool)
    ensures
        r == (v & mask == bits),
{
    v & mask == bits
}

impl AdcRegisters {
    /// The value of one register.
    pub fn read(&self, reg: Reg) -> (r: u32)
        ensures
            r == reg_value(*self, reg),
    {
        match reg {
            Reg::Cr => self.cr,
            Reg::Isr => self.isr,
            Reg::Cfgr => self.cfgr,
            Reg::Sqr1 => self.sqr1,
            Reg::Smpr1 => self.smpr1,
            Reg::Smpr2 => self.smpr2,
            Reg::Dr => self.dr,
        }
    }

    /// Replaces the value of one register.
    pub fn write(&mut self, reg: Reg, v: u32)
        ensures
            *final(self) == with_reg(*old(self), reg, v),
    {
        match reg {
            Reg::Cr => self.cr = v,
            Reg::Isr => self.isr = v,
            Reg::Cfgr => self.cfgr = v,
            Reg::Sqr1 => self.sqr1 = v,
            Reg::Smpr1 => self.smpr1 = v,
            Reg::Smpr2 => self.smpr2 = v,
            Reg::Dr => self.dr = v,
        }
    }

    /// Performs the register write of one step, if it has one.
    pub fn apply(&mut self, op: RegOp)
        ensures
            *final(self) == apply_op(*old(self), op),
    {
        match op {
            RegOp::Modify { reg, mask, bits } => {
                let v = self.read(reg);
                self.write(reg, modify_value(v, mask, bits));
            },
            _ => {},
        }
    }
}

} // verus!
