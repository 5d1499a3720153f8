use vstd::prelude::*;
use crate::dsp::{DSP, REG_AC0_H, REG_AC0_L, REG_AC0_M, REG_AC1_M, REG_SR, SR_EXTEND};

verus! {

impl DSP {
    /// The DSP after a write of the middle part of an accumulator, `reg`,
    /// has been extended: with the extend bit of the status register set,
    /// the high part takes the sign of the middle part, and the low part
    /// is cleared. For any other register, and with the bit clear, nothing
    /// changes.
    pub open spec fn spec_conditional_extend_accum(self, reg: usize) -> Self {
        if (reg == REG_AC0_M || reg == REG_AC1_M) && (self.reg(REG_SR) & SR_EXTEND) != 0 {
            let ac: usize = (reg - REG_AC0_M) as usize;
            self.with_reg((ac + REG_AC0_H) as usize, if (self.reg(reg) & 0x8000) != 0 { 0xFFFFu16 } else { 0x0000u16 }).with_reg(
                (ac + REG_AC0_L) as usize,
                0,
            )
        } else {
            self
        }
    }

    /// Extends a write of the middle part of an accumulator to the whole
    /// accumulator, where the status register asks for it.
    pub fn conditional_extend_accum(&mut self, reg: usize)
        requires
            reg < 32,
        ensures
            *final(self) == old(self).spec_conditional_extend_accum(reg),
    {
        if reg != REG_AC0_M && reg != REG_AC1_M {
            return;
        }
        if !((self.registers[REG_SR] & SR_EXTEND) != 0) {
            return;
        }
        let ac: usize = reg - REG_AC0_M;
        let val: u16 = self.registers[ac + REG_AC0_M];
        self.set_reg(ac + REG_AC0_H, if (val & 0x8000) != 0 { 0xFFFF } else { 0x0000 });
        self.set_reg(ac + REG_AC0_L, 0x0);
    }
}

} // verus!
