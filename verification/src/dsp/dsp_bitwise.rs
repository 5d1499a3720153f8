use vstd::prelude::*;
use crate::dsp::{DSP, REG_AC0_M, REG_SR, SR_LZ};
use crate::fault::Fault;

verus! {

/// The bit of the status register that the instruction `SBSET` with the
/// operand `i` sets.
pub open spec fn sbset_bit(i: u16) -> u16 {
    1u16 << ((i + 6) as u16)
}

/// The status register `sr` after the instruction `SRBIT` with the operand
/// `b`: the operands 2 to 7 clear and set, in turn, bits 13, 15 and 14; any
/// other operand changes nothing.
pub open spec fn srbit_applied(sr: u16, b: u16) -> u16 {
    if b == 2 {
        sr & !0x2000u16
    } else if b == 3 {
        sr | 0x2000
    } else if b == 4 {
        sr & !0x8000u16
    } else if b == 5 {
        sr | 0x8000
    } else if b == 6 {
        sr & !0x4000u16
    } else if b == 7 {
        sr | 0x4000
    } else {
        sr
    }
}

impl DSP {
    /// `SBSET`: bit `i + 6` of the status register is set.
    pub open spec fn spec_op_sbset(self, i: u16) -> Self {
        self.with_reg(REG_SR, self.reg(REG_SR) | sbset_bit(i)).advanced(1)
    }

    /// Executes `SBSET`.
    pub fn op_sbset(&mut self, i: u16)
        requires
            i < 8,
        ensures
            *final(self) == old(self).spec_op_sbset(i),
    {
        let sr: u16 = self.registers[REG_SR] | (1u16 << (i + 6));
        self.set_reg(REG_SR, sr);
        self.advance(1);
    }

    /// The DSP with the logic zero flag set to `val`.
    pub open spec fn with_logic_zero(self, val: bool) -> Self {
        self.with_reg(REG_SR, if val { self.reg(REG_SR) | SR_LZ } else { self.reg(REG_SR) & !SR_LZ })
    }

    /// Sets the logic zero flag to `val`.
    pub fn set_logic_zero(&mut self, val: bool)
        ensures
            *final(self) == old(self).with_logic_zero(val),
    {
        let sr: u16 = if val { self.registers[REG_SR] | SR_LZ } else { self.registers[REG_SR] & !SR_LZ };
        self.set_reg(REG_SR, sr);
    }

    /// `ANDF`: the logic zero flag tells whether the middle part of the
    /// accumulator `r` and the immediate word that follows the instruction
    /// have no set bit in common. A fetch of the immediate that fails is
    /// reported and changes nothing.
    pub open spec fn spec_op_andf(self, aram: Seq<u8>, r: u16) -> (Self, Result<(), Fault>) {
        match self.spec_imem_read(aram, self.pc.wrapping_add(1)) {
            Err(f) => (self, Err(f)),
            Ok(imm) => (self.with_logic_zero((self.reg((REG_AC0_M + r) as usize) & imm) == 0).advanced(2), Ok(())),
        }
    }

    /// Executes `ANDF`.
    pub fn op_andf(&mut self, aram: &Vec<u8>, r: u16) -> (res: Result<(), Fault>)
        requires
            r < 2,
        ensures
            (*final(self), res) == old(self).spec_op_andf(aram@, r),
    {
        let imm: u16 = self.imem_read(aram, self.pc.wrapping_add(1))?;
        let hit: bool = (self.registers[REG_AC0_M + (r as usize)] & imm) == 0;
        self.set_logic_zero(hit);
        self.advance(2);
        Ok(())
    }

    /// `ANDCF`: the logic zero flag tells whether every set bit of the
    /// immediate word that follows the instruction is set in the middle
    /// part of the accumulator `r`. A fetch of the immediate that fails is
    /// reported and changes nothing.
    pub open spec fn spec_op_andcf(self, aram: Seq<u8>, r: u16) -> (Self, Result<(), Fault>) {
        match self.spec_imem_read(aram, self.pc.wrapping_add(1)) {
            Err(f) => (self, Err(f)),
            Ok(imm) => (self.with_logic_zero((self.reg((REG_AC0_M + r) as usize) & imm) == imm).advanced(2), Ok(())),
        }
    }

    /// Executes `ANDCF`.
    pub fn op_andcf(&mut self, aram: &Vec<u8>, r: u16) -> (res: Result<(), Fault>)
        requires
            r < 2,
        ensures
            (*final(self), res) == old(self).spec_op_andcf(aram@, r),
    {
        let imm: u16 = self.imem_read(aram, self.pc.wrapping_add(1))?;
        let hit: bool = (self.registers[REG_AC0_M + (r as usize)] & imm) == imm;
        self.set_logic_zero(hit);
        self.advance(2);
        Ok(())
    }

    /// `SRBIT`: one of the mode bits of the status register is cleared or
    /// set.
    pub open spec fn spec_op_srbit(self, b: u16) -> Self {
        self.with_reg(REG_SR, srbit_applied(self.reg(REG_SR), b)).advanced(1)
    }

    /// Executes `SRBIT`.
    pub fn op_srbit(&mut self, b: u16)
        ensures
            *final(self) == old(self).spec_op_srbit(b),
    {
        let sr: u16 = self.registers[REG_SR];
        let next: u16 = if b == 2 {
            sr & !0x2000u16
        } else if b == 3 {
            sr | 0x2000
        } else if b == 4 {
            sr & !0x8000u16
        } else if b == 5 {
            sr | 0x8000
        } else if b == 6 {
            sr & !0x4000u16
        } else if b == 7 {
            sr | 0x4000
        } else {
            sr
        };
        self.set_reg(REG_SR, next);
        self.advance(1);
    }
}

} // verus!
