use vstd::prelude::*;
use crate::dsp::{DSP, REG_AC0_H, REG_AC0_L, REG_AC0_M, REG_SR, SR_ZERO};

verus! {

impl DSP {
    /// `CLR`: the three parts of the accumulator `r` become zero, and the
    /// zero flag is set.
    pub open spec fn spec_op_clr(self, r: u16) -> Self {
        let cleared = self.with_reg((REG_AC0_H + r) as usize, 0).with_reg((REG_AC0_L + r) as usize, 0).with_reg((REG_AC0_M + r) as usize, 0);
        cleared.with_reg(REG_SR, cleared.reg(REG_SR) | SR_ZERO).advanced(1)
    }

    /// Executes `CLR`.
    pub fn op_clr(&mut self, r: u16)
        requires
            r < 2,
        ensures
            *final(self) == old(self).spec_op_clr(r),
            final(self).reg((REG_AC0_H + r) as usize) == 0,
            final(self).reg((REG_AC0_M + r) as usize) == 0,
            final(self).reg((REG_AC0_L + r) as usize) == 0,
            final(self).reg(REG_SR) & SR_ZERO != 0,
    {
        let i: usize = r as usize;
        self.set_reg(REG_AC0_H + i, 0);
        self.set_reg(REG_AC0_L + i, 0);
        self.set_reg(REG_AC0_M + i, 0);
        let before: u16 = self.registers[REG_SR];
        let sr: u16 = before | SR_ZERO;
        proof {
            assert(((before | 4) & 4) != 0) by (bit_vector);
        }
        self.set_reg(REG_SR, sr);
        self.advance(1);
    }

    /// `MRR`: register `d` takes the value of register `s`; a move to the
    /// middle part of an accumulator extends.
    pub open spec fn spec_op_mrr(self, d: u16, s: u16) -> Self {
        self.with_reg(d as usize, self.reg(s as usize)).spec_conditional_extend_accum(d as usize).advanced(1)
    }

    /// Executes `MRR`.
    pub fn op_mrr(&mut self, d: u16, s: u16)
        requires
            d < 32,
            s < 32,
        ensures
            *final(self) == old(self).spec_op_mrr(d, s),
    {
        let val: u16 = self.registers[s as usize];
        self.set_reg(d as usize, val);
        self.conditional_extend_accum(d as usize);
        self.advance(1);
    }
}

} // verus!
