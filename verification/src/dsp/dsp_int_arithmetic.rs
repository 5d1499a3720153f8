use vstd::prelude::*;
use crate::dsp::DSP;

verus! {

/// The carry and the overflow of a subtraction of `b` from `a` with the
/// result `res`: it carries where `b` is at least `res`, and overflows
/// where the sign of `res` differs from the signs of both `a` and `b`.
pub open spec fn spec_sub_flags(a: i64, b: i64, res: i64) -> (bool, bool) {
    (b >= res, ((a < 0) != (res < 0)) && ((b < 0) != (res < 0)))
}

/// The carry and the overflow of a subtraction.
#[verifier::when_used_as_spec(spec_sub_flags)]
pub fn sub_flags(a: i64, b: i64, res: i64) -> (r: (bool, bool))
    ensures
        r == spec_sub_flags(a, b, res),
{
    let carry: bool = b >= res;
    let overflow: bool = ((a < 0) != (res < 0)) && ((b < 0) != (res < 0));
    (carry, overflow)
}

/// The value of the low 40 bits of `x`, read in two's complement.
pub open spec fn spec_wrapped_40(x: i64) -> i64 {
    let low: int = (x as int) % 0x100_0000_0000;
    (if low >= 0x80_0000_0000 { low - 0x100_0000_0000 } else { low }) as i64
}

/// The value of the low 40 bits of `x`, read in two's complement.
#[verifier::when_used_as_spec(spec_wrapped_40)]
pub fn wrapped_40(x: i64) -> (r: i64)
    requires
        -0x1_0000_0000_0000 <= x < 0x1_0000_0000_0000,
    ensures
        r == spec_wrapped_40(x),
{
    let shifted: u64 = (x + 0x1_0000_0000_0000) as u64;
    let low: u64 = shifted % 0x100_0000_0000;
    assert(low == x % 0x100_0000_0000) by {
        vstd::arithmetic::div_mod::lemma_mod_multiples_vanish(0x100, x as int, 0x100_0000_0000);
    }
    if low >= 0x80_0000_0000 {
        low as i64 - 0x100_0000_0000
    } else {
        low as i64
    }
}

impl DSP {
    /// `DAR`: register `d` is decremented, modulo 2^16.
    pub open spec fn spec_op_dar(self, d: u16) -> Self {
        self.with_reg(d as usize, self.reg(d as usize).wrapping_sub(1)).advanced(1)
    }

    /// Executes `DAR`.
    pub fn op_dar(&mut self, d: u16)
        requires
            d < 32,
        ensures
            *final(self) == old(self).spec_op_dar(d),
    {
        let val: u16 = self.registers[d as usize].wrapping_sub(1);
        self.set_reg(d as usize, val);
        self.advance(1);
    }

    /// `IAR`: register `d` is incremented, modulo 2^16.
    pub open spec fn spec_op_iar(self, d: u16) -> Self {
        self.with_reg(d as usize, self.reg(d as usize).wrapping_add(1)).advanced(1)
    }

    /// Executes `IAR`.
    pub fn op_iar(&mut self, d: u16)
        requires
            d < 32,
        ensures
            *final(self) == old(self).spec_op_iar(d),
    {
        let val: u16 = self.registers[d as usize].wrapping_add(1);
        self.set_reg(d as usize, val);
        self.advance(1);
    }

    /// `ADDARN`: the index register `s + 4` is added to register `d`,
    /// modulo 2^16.
    pub open spec fn spec_op_addarn(self, s: u16, d: u16) -> Self {
        self.with_reg(d as usize, self.reg(d as usize).wrapping_add(self.reg((s + 4) as usize))).advanced(1)
    }

    /// Executes `ADDARN`.
    pub fn op_addarn(&mut self, s: u16, d: u16)
        requires
            d < 32,
            s < 28,
        ensures
            *final(self) == old(self).spec_op_addarn(s, d),
    {
        let val: u16 = self.registers[d as usize].wrapping_add(self.registers[(s + 4) as usize]);
        self.set_reg(d as usize, val);
        self.advance(1);
    }

    /// The DSP after the status register has recorded the difference of the
    /// two accumulators, the first minus the second, within 40 bits, with
    /// the carry and the overflow of the subtraction.
    pub open spec fn compared(self) -> Self {
        let acc0: i64 = self.spec_acc(0) as i64;
        let acc1: i64 = self.spec_acc(1) as i64;
        let diff: i64 = spec_wrapped_40((acc0 - acc1) as i64);
        let flags = spec_sub_flags(acc0, acc1, diff);
        self.spec_do_sr(diff, flags.0, flags.1)
    }

    /// Records the difference of the two accumulators in the status
    /// register.
    pub fn compare(&mut self)
        ensures
            *final(self) == old(self).compared(),
    {
        let a: u64 = self.acc(0);
        let b: u64 = self.acc(1);
        proof {
            let h0: u64 = self.registers[16] as u64;
            let m0: u64 = self.registers[30] as u64;
            let l0: u64 = self.registers[28] as u64;
            assert(((h0 << 32) | (m0 << 16) | l0) < 0x1_0000_0000_0000) by (bit_vector)
                requires
                    h0 <= 0xFFFF,
                    m0 <= 0xFFFF,
                    l0 <= 0xFFFF,
            ;
            let h1: u64 = self.registers[17] as u64;
            let m1: u64 = self.registers[31] as u64;
            let l1: u64 = self.registers[29] as u64;
            assert(((h1 << 32) | (m1 << 16) | l1) < 0x1_0000_0000_0000) by (bit_vector)
                requires
                    h1 <= 0xFFFF,
                    m1 <= 0xFFFF,
                    l1 <= 0xFFFF,
            ;
        }
        let acc0: i64 = a as i64;
        let acc1: i64 = b as i64;
        let diff: i64 = wrapped_40(acc0 - acc1);
        let (carry, overflow) = sub_flags(acc0, acc1, diff);
        self.do_sr(diff, carry, overflow);
    }

    /// `CMP`: the status register records the difference of the two
    /// accumulators.
    pub open spec fn spec_op_cmp(self) -> Self {
        self.compared().advanced(1)
    }

    /// Executes `CMP`.
    pub fn op_cmp(&mut self)
        ensures
            *final(self) == old(self).spec_op_cmp(),
    {
        self.compare();
        self.advance(1);
    }
}

} // verus!
