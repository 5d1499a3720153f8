pub mod arithmetic;
pub mod bitwise;
pub mod config;
pub mod control_flow;
pub mod float;
pub mod instr;
pub mod load_store;
pub mod mmu;
pub mod util;

use vstd::prelude::*;
use vstd::array::spec_array_update;
use crate::cpu::instr::lemma_and_bound;
use crate::cpu::instr::Instruction;
use crate::cpu::mmu::Mmu;
use crate::fault::Fault;
use crate::Gamecube;

verus! {

/// The exception bit of a system reset.
pub const RESET_EXCEPTION: u32 = 0x1;

/// The exception bit of a program exception.
pub const PROGRAM_EXCEPTION: u32 = 0x2;

/// The word `x` with bit `k` (counted from the least significant bit) set to
/// `val` and every other bit kept.
pub open spec fn with_bit(x: u32, k: u32, val: bool) -> u32 {
    (x & !(1u32 << k)) | ((if val { 1u32 } else { 0u32 }) << k)
}

/// Writing one bit of a word sets that bit and no other.
pub proof fn lemma_with_bit(x: u32, k: u32, val: bool)
    by (bit_vector)
    requires
        k < 32,
    ensures
        ((with_bit(x, k, val) >> k) & 1 != 0) == val,
        k == 0 ==> (with_bit(x, k, val) & 1 != 0) == val,
        with_bit(x, k, val) & !(1u32 << k) == x & !(1u32 << k),
        forall|j: u32| j < 32 && j != k ==> #[trigger] ((with_bit(x, k, val) >> j) & 1) == (x >> j) & 1,
{
}

/// The machine state register.
#[derive(Clone, Copy, Debug, PartialEq, Eq, Structural)]
pub struct MachineStateRegister(pub u32);

impl MachineStateRegister {
    pub open spec fn spec_pow(&self) -> bool {
        ((self.0 >> 18) & 1) != 0
    }

    /// Power management enable.
    #[verifier::when_used_as_spec(spec_pow)]
    pub fn pow(&self) -> (r: bool)
        ensures
            r == self.spec_pow(),
    {
        ((self.0 >> 18) & 1) != 0
    }

    pub open spec fn spec_ile(&self) -> bool {
        ((self.0 >> 16) & 1) != 0
    }

    /// Exception little-endian mode.
    #[verifier::when_used_as_spec(spec_ile)]
    pub fn ile(&self) -> (r: bool)
        ensures
            r == self.spec_ile(),
    {
        ((self.0 >> 16) & 1) != 0
    }

    pub open spec fn spec_ee(&self) -> bool {
        ((self.0 >> 15) & 1) != 0
    }

    /// External interrupt enable.
    #[verifier::when_used_as_spec(spec_ee)]
    pub fn ee(&self) -> (r: bool)
        ensures
            r == self.spec_ee(),
    {
        ((self.0 >> 15) & 1) != 0
    }

    pub open spec fn spec_pr(&self) -> bool {
        ((self.0 >> 14) & 1) != 0
    }

    /// Privilege level: set in user mode.
    #[verifier::when_used_as_spec(spec_pr)]
    pub fn pr(&self) -> (r: bool)
        ensures
            r == self.spec_pr(),
    {
        ((self.0 >> 14) & 1) != 0
    }

    pub open spec fn spec_fp(&self) -> bool {
        ((self.0 >> 13) & 1) != 0
    }

    /// Floating-point available.
    #[verifier::when_used_as_spec(spec_fp)]
    pub fn fp(&self) -> (r: bool)
        ensures
            r == self.spec_fp(),
    {
        ((self.0 >> 13) & 1) != 0
    }

    pub open spec fn spec_me(&self) -> bool {
        ((self.0 >> 12) & 1) != 0
    }

    /// Machine check enable.
    #[verifier::when_used_as_spec(spec_me)]
    pub fn me(&self) -> (r: bool)
        ensures
            r == self.spec_me(),
    {
        ((self.0 >> 12) & 1) != 0
    }

    pub open spec fn spec_fe0(&self) -> bool {
        ((self.0 >> 11) & 1) != 0
    }

    /// Floating-point exception mode 0.
    #[verifier::when_used_as_spec(spec_fe0)]
    pub fn fe0(&self) -> (r: bool)
        ensures
            r == self.spec_fe0(),
    {
        ((self.0 >> 11) & 1) != 0
    }

    pub open spec fn spec_se(&self) -> bool {
        ((self.0 >> 10) & 1) != 0
    }

    /// Single-step trace enable.
    #[verifier::when_used_as_spec(spec_se)]
    pub fn se(&self) -> (r: bool)
        ensures
            r == self.spec_se(),
    {
        ((self.0 >> 10) & 1) != 0
    }

    pub open spec fn spec_be(&self) -> bool {
        ((self.0 >> 9) & 1) != 0
    }

    /// Branch trace enable.
    #[verifier::when_used_as_spec(spec_be)]
    pub fn be(&self) -> (r: bool)
        ensures
            r == self.spec_be(),
    {
        ((self.0 >> 9) & 1) != 0
    }

    pub open spec fn spec_fe1(&self) -> bool {
        ((self.0 >> 8) & 1) != 0
    }

    /// Floating-point exception mode 1.
    #[verifier::when_used_as_spec(spec_fe1)]
    pub fn fe1(&self) -> (r: bool)
        ensures
            r == self.spec_fe1(),
    {
        ((self.0 >> 8) & 1) != 0
    }

    pub open spec fn spec_ip(&self) -> bool {
        ((self.0 >> 6) & 1) != 0
    }

    /// Exception prefix: set when exception vectors lie at `0xFFFn_nnnn`.
    #[verifier::when_used_as_spec(spec_ip)]
    pub fn ip(&self) -> (r: bool)
        ensures
            r == self.spec_ip(),
    {
        ((self.0 >> 6) & 1) != 0
    }

    pub open spec fn spec_ir(&self) -> bool {
        ((self.0 >> 5) & 1) != 0
    }

    /// Instruction address translation enable.
    #[verifier::when_used_as_spec(spec_ir)]
    pub fn ir(&self) -> (r: bool)
        ensures
            r == self.spec_ir(),
    {
        ((self.0 >> 5) & 1) != 0
    }

    pub open spec fn spec_dr(&self) -> bool {
        ((self.0 >> 4) & 1) != 0
    }

    /// Data address translation enable.
    #[verifier::when_used_as_spec(spec_dr)]
    pub fn dr(&self) -> (r: bool)
        ensures
            r == self.spec_dr(),
    {
        ((self.0 >> 4) & 1) != 0
    }

    pub open spec fn spec_pm(&self) -> bool {
        ((self.0 >> 2) & 1) != 0
    }

    /// Performance monitor marked mode.
    #[verifier::when_used_as_spec(spec_pm)]
    pub fn pm(&self) -> (r: bool)
        ensures
            r == self.spec_pm(),
    {
        ((self.0 >> 2) & 1) != 0
    }

    pub open spec fn spec_ri(&self) -> bool {
        ((self.0 >> 1) & 1) != 0
    }

    /// Recoverable exception.
    #[verifier::when_used_as_spec(spec_ri)]
    pub fn ri(&self) -> (r: bool)
        ensures
            r == self.spec_ri(),
    {
        ((self.0 >> 1) & 1) != 0
    }

    pub open spec fn spec_le(&self) -> bool {
        (self.0 & 1) != 0
    }

    /// Little-endian mode.
    #[verifier::when_used_as_spec(spec_le)]
    pub fn le(&self) -> (r: bool)
        ensures
            r == self.spec_le(),
    {
        (self.0 & 1) != 0
    }

    pub open spec fn spec_set_le(self, val: bool) -> Self {
        Self(with_bit(self.0, 0, val))
    }

    /// Sets the little-endian mode bit and leaves every other bit as it was.
    pub fn set_le(&mut self, val: bool)
        ensures
            *final(self) == old(self).spec_set_le(val),
            final(self).le() == val,
    {
        proof {
            lemma_with_bit(self.0, 0, val);
        }
        let bit: u32 = if val { 1 } else { 0 };
        self.0 = (self.0 & !(1u32 << 0)) | (bit << 0);
    }
}

/// The condition register: eight four-bit fields, field 0 in the most
/// significant nibble.
#[derive(Clone, Copy, Debug, PartialEq, Eq, Structural)]
pub struct ConditionRegister(pub u32);

impl ConditionRegister {
    pub open spec fn spec_set_reg(self, index: usize, val: u32) -> Self {
        Self((self.0 & !(0xF000_0000u32 >> (index * 4))) | ((val & 0xF) << ((7 - index) * 4)))
    }

    /// Writes the low four bits of `val` into field `index`. No other field
    /// changes.
    pub fn set_reg(&mut self, index: usize, val: u32)
        requires
            index < 8,
        ensures
            *final(self) == old(self).spec_set_reg(index, val),
    {
        self.0 = (self.0 & !(0xF000_0000u32 >> (index * 4))) | ((val & 0xF) << ((7 - index) * 4));
    }

    pub open spec fn spec_get_reg(&self, index: usize) -> usize {
        ((self.0 >> (28 - (index * 4))) & 0xF) as usize
    }

    /// Reads field `index`.
    #[verifier::when_used_as_spec(spec_get_reg)]
    pub fn get_reg(&self, index: usize) -> (r: usize)
        requires
            index < 8,
        ensures
            r == self.spec_get_reg(index),
            r <= 0xF,
    {
        proof {
            lemma_and_bound(self.0 >> (28 - (index * 4)), 0xF);
        }
        ((self.0 >> (28 - (index * 4))) & 0xF) as usize
    }

    /// Whether bit `bit` is set, bit 0 being the most significant.
    pub open spec fn spec_bit(&self, bit: usize) -> bool {
        (self.0 >> (31 - bit)) & 1 != 0
    }

    /// Whether bit `bit` is set, bit 0 being the most significant.
    #[verifier::when_used_as_spec(spec_bit)]
    pub fn bit(&self, bit: usize) -> (r: bool)
        requires
            bit < 32,
        ensures
            r == self.spec_bit(bit),
    {
        (self.0 >> (31 - bit)) & 1 != 0
    }
}

/// A field of the condition register holds what was written to it last.
pub proof fn lemma_cr_field_written(cr: ConditionRegister, i: usize, val: u32)
    requires
        i < 8,
    ensures
        cr.spec_set_reg(i, val).spec_get_reg(i) == (val & 0xF),
{
    let x: u32 = cr.0;
    let k: u32 = i as u32;
    assert(((((x & !(0xF000_0000u32 >> ((k * 4) as u32))) | ((val & 0xF) << (((7 - k) * 4) as u32))) >> ((28 - (k * 4)) as u32)) & 0xF) == (val & 0xF)) by (bit_vector)
        requires
            k < 8,
    ;
    lemma_and_bound(val, 0xF);
}

/// A write to one field of the condition register leaves every other field
/// as it was.
pub proof fn lemma_cr_field_isolated(cr: ConditionRegister, i: usize, j: usize, val: u32)
    requires
        i < 8,
        j < 8,
        i != j,
    ensures
        cr.spec_set_reg(i, val).spec_get_reg(j) == cr.spec_get_reg(j),
{
    let x: u32 = cr.0;
    let k: u32 = i as u32;
    let l: u32 = j as u32;
    assert(((((x & !(0xF000_0000u32 >> ((k * 4) as u32))) | ((val & 0xF) << (((7 - k) * 4) as u32))) >> ((28 - (l * 4)) as u32)) & 0xF) == ((x >> ((28 - (l * 4)) as u32)) & 0xF)) by (bit_vector)
        requires
            k < 8,
            l < 8,
            k != l,
    ;
}

/// A write to a field of the condition register, made twice, leaves what
/// it leaves when made once.
pub proof fn lemma_cr_field_idempotent(cr: ConditionRegister, i: usize, val: u32)
    requires
        i < 8,
    ensures
        cr.spec_set_reg(i, val).spec_set_reg(i, val) == cr.spec_set_reg(i, val),
{
    let x: u32 = cr.0;
    let k: u32 = i as u32;
    assert({
        let once: u32 = (x & !(0xF000_0000u32 >> ((k * 4) as u32))) | ((val & 0xF) << (((7 - k) * 4) as u32));
        ((once & !(0xF000_0000u32 >> ((k * 4) as u32))) | ((val & 0xF) << (((7 - k) * 4) as u32))) == once
    }) by (bit_vector)
        requires
            k < 8,
    ;
}

/// One graphics quantization register.
#[derive(Clone, Copy, Debug, PartialEq, Eq, Structural)]
pub struct GraphicsQuantizationRegister(pub u32);

impl GraphicsQuantizationRegister {
    pub open spec fn spec_st_type(&self) -> usize {
        (self.0 & 0x7) as usize
    }

    /// The store format.
    #[verifier::when_used_as_spec(spec_st_type)]
    pub fn st_type(&self) -> (r: usize)
        ensures
            r == self.spec_st_type(),
            r <= 0x7,
    {
        proof {
            lemma_and_bound(self.0, 0x7);
        }
        (self.0 & 0x7) as usize
    }

    pub open spec fn spec_st_scale(&self) -> usize {
        ((self.0 >> 8) & 0x3F) as usize
    }

    /// The store scale, a six-bit two's complement exponent.
    #[verifier::when_used_as_spec(spec_st_scale)]
    pub fn st_scale(&self) -> (r: usize)
        ensures
            r == self.spec_st_scale(),
            r <= 0x3F,
    {
        proof {
            lemma_and_bound(self.0 >> 8, 0x3F);
        }
        ((self.0 >> 8) & 0x3F) as usize
    }

    pub open spec fn spec_ld_type(&self) -> usize {
        ((self.0 >> 16) & 0x7) as usize
    }

    /// The load format.
    #[verifier::when_used_as_spec(spec_ld_type)]
    pub fn ld_type(&self) -> (r: usize)
        ensures
            r == self.spec_ld_type(),
            r <= 0x7,
    {
        proof {
            lemma_and_bound(self.0 >> 16, 0x7);
        }
        ((self.0 >> 16) & 0x7) as usize
    }

    pub open spec fn spec_ld_scale(&self) -> usize {
        ((self.0 >> 24) & 0x3F) as usize
    }

    /// The load scale, a six-bit two's complement exponent.
    #[verifier::when_used_as_spec(spec_ld_scale)]
    pub fn ld_scale(&self) -> (r: usize)
        ensures
            r == self.spec_ld_scale(),
            r <= 0x3F,
    {
        proof {
            lemma_and_bound(self.0 >> 24, 0x3F);
        }
        ((self.0 >> 24) & 0x3F) as usize
    }
}

/// Hardware implementation register 2.
#[derive(Clone, Copy, Debug, PartialEq, Eq, Structural)]
pub struct HID2(pub u32);

impl HID2 {
    pub open spec fn spec_lsqe(&self) -> bool {
        ((self.0 >> 31) & 1) != 0
    }

    /// Load/store quantized enable.
    #[verifier::when_used_as_spec(spec_lsqe)]
    pub fn lsqe(&self) -> (r: bool)
        ensures
            r == self.spec_lsqe(),
    {
        ((self.0 >> 31) & 1) != 0
    }

    pub open spec fn spec_wpe(&self) -> bool {
        ((self.0 >> 30) & 1) != 0
    }

    /// Write pipe enable.
    #[verifier::when_used_as_spec(spec_wpe)]
    pub fn wpe(&self) -> (r: bool)
        ensures
            r == self.spec_wpe(),
    {
        ((self.0 >> 30) & 1) != 0
    }

    pub open spec fn spec_pse(&self) -> bool {
        ((self.0 >> 29) & 1) != 0
    }

    /// Paired-single enable.
    #[verifier::when_used_as_spec(spec_pse)]
    pub fn pse(&self) -> (r: bool)
        ensures
            r == self.spec_pse(),
    {
        ((self.0 >> 29) & 1) != 0
    }

    pub open spec fn spec_lce(&self) -> bool {
        ((self.0 >> 28) & 1) != 0
    }

    /// Locked cache enable.
    #[verifier::when_used_as_spec(spec_lce)]
    pub fn lce(&self) -> (r: bool)
        ensures
            r == self.spec_lce(),
    {
        ((self.0 >> 28) & 1) != 0
    }

    pub open spec fn spec_dmaql(&self) -> usize {
        ((self.0 >> 24) & 0xF) as usize
    }

    /// The DMA queue length.
    #[verifier::when_used_as_spec(spec_dmaql)]
    pub fn dmaql(&self) -> (r: usize)
        ensures
            r == self.spec_dmaql(),
            r <= 0xF,
    {
        proof {
            lemma_and_bound(self.0 >> 24, 0xF);
        }
        ((self.0 >> 24) & 0xF) as usize
    }
}

/// The floating-point status and control register.
#[derive(Clone, Copy, Debug, PartialEq, Eq, Structural)]
pub struct FloatingPointStatusControlRegister(pub u32);

impl FloatingPointStatusControlRegister {
    pub open spec fn spec_rn(&self) -> usize {
        (self.0 & 0x3) as usize
    }

    /// The rounding mode.
    #[verifier::when_used_as_spec(spec_rn)]
    pub fn rn(&self) -> (r: usize)
        ensures
            r == self.spec_rn(),
            r <= 0x3,
    {
        proof {
            lemma_and_bound(self.0, 0x3);
        }
        (self.0 & 0x3) as usize
    }

    pub open spec fn spec_ni(&self) -> bool {
        ((self.0 >> 2) & 1) != 0
    }

    /// Non-IEEE mode.
    #[verifier::when_used_as_spec(spec_ni)]
    pub fn ni(&self) -> (r: bool)
        ensures
            r == self.spec_ni(),
    {
        ((self.0 >> 2) & 1) != 0
    }

    pub open spec fn spec_xe(&self) -> bool {
        ((self.0 >> 3) & 1) != 0
    }

    /// Inexact exception enable.
    #[verifier::when_used_as_spec(spec_xe)]
    pub fn xe(&self) -> (r: bool)
        ensures
            r == self.spec_xe(),
    {
        ((self.0 >> 3) & 1) != 0
    }

    pub open spec fn spec_ze(&self) -> bool {
        ((self.0 >> 4) & 1) != 0
    }

    /// Zero divide exception enable.
    #[verifier::when_used_as_spec(spec_ze)]
    pub fn ze(&self) -> (r: bool)
        ensures
            r == self.spec_ze(),
    {
        ((self.0 >> 4) & 1) != 0
    }

    pub open spec fn spec_ue(&self) -> bool {
        ((self.0 >> 5) & 1) != 0
    }

    /// Underflow exception enable.
    #[verifier::when_used_as_spec(spec_ue)]
    pub fn ue(&self) -> (r: bool)
        ensures
            r == self.spec_ue(),
    {
        ((self.0 >> 5) & 1) != 0
    }

    pub open spec fn spec_oe(&self) -> bool {
        ((self.0 >> 6) & 1) != 0
    }

    /// Overflow exception enable.
    #[verifier::when_used_as_spec(spec_oe)]
    pub fn oe(&self) -> (r: bool)
        ensures
            r == self.spec_oe(),
    {
        ((self.0 >> 6) & 1) != 0
    }

    pub open spec fn spec_ve(&self) -> bool {
        ((self.0 >> 7) & 1) != 0
    }

    /// Invalid operation exception enable.
    #[verifier::when_used_as_spec(spec_ve)]
    pub fn ve(&self) -> (r: bool)
        ensures
            r == self.spec_ve(),
    {
        ((self.0 >> 7) & 1) != 0
    }

    pub open spec fn spec_vxcvi(&self) -> bool {
        ((self.0 >> 8) & 1) != 0
    }

    /// Invalid integer convert.
    #[verifier::when_used_as_spec(spec_vxcvi)]
    pub fn vxcvi(&self) -> (r: bool)
        ensures
            r == self.spec_vxcvi(),
    {
        ((self.0 >> 8) & 1) != 0
    }

    pub open spec fn spec_vxsqrt(&self) -> bool {
        ((self.0 >> 9) & 1) != 0
    }

    /// Invalid square root.
    #[verifier::when_used_as_spec(spec_vxsqrt)]
    pub fn vxsqrt(&self) -> (r: bool)
        ensures
            r == self.spec_vxsqrt(),
    {
        ((self.0 >> 9) & 1) != 0
    }

    pub open spec fn spec_vxsoft(&self) -> bool {
        ((self.0 >> 10) & 1) != 0
    }

    /// Software-raised invalid operation.
    #[verifier::when_used_as_spec(spec_vxsoft)]
    pub fn vxsoft(&self) -> (r: bool)
        ensures
            r == self.spec_vxsoft(),
    {
        ((self.0 >> 10) & 1) != 0
    }

    pub open spec fn spec_fprf(&self) -> usize {
        ((self.0 >> 12) & 0x1F) as usize
    }

    /// The result flags of the last floating-point operation.
    #[verifier::when_used_as_spec(spec_fprf)]
    pub fn fprf(&self) -> (r: usize)
        ensures
            r == self.spec_fprf(),
            r <= 0x1F,
    {
        proof {
            lemma_and_bound(self.0 >> 12, 0x1F);
        }
        ((self.0 >> 12) & 0x1F) as usize
    }

    pub open spec fn spec_fi(&self) -> bool {
        ((self.0 >> 17) & 1) != 0
    }

    /// Fraction inexact.
    #[verifier::when_used_as_spec(spec_fi)]
    pub fn fi(&self) -> (r: bool)
        ensures
            r == self.spec_fi(),
    {
        ((self.0 >> 17) & 1) != 0
    }

    pub open spec fn spec_fr(&self) -> bool {
        ((self.0 >> 18) & 1) != 0
    }

    /// Fraction rounded.
    #[verifier::when_used_as_spec(spec_fr)]
    pub fn fr(&self) -> (r: bool)
        ensures
            r == self.spec_fr(),
    {
        ((self.0 >> 18) & 1) != 0
    }

    pub open spec fn spec_vxvc(&self) -> bool {
        ((self.0 >> 19) & 1) != 0
    }

    /// Invalid compare.
    #[verifier::when_used_as_spec(spec_vxvc)]
    pub fn vxvc(&self) -> (r: bool)
        ensures
            r == self.spec_vxvc(),
    {
        ((self.0 >> 19) & 1) != 0
    }

    pub open spec fn spec_vximz(&self) -> bool {
        ((self.0 >> 20) & 1) != 0
    }

    /// Infinity times zero.
    #[verifier::when_used_as_spec(spec_vximz)]
    pub fn vximz(&self) -> (r: bool)
        ensures
            r == self.spec_vximz(),
    {
        ((self.0 >> 20) & 1) != 0
    }

    pub open spec fn spec_vxzdz(&self) -> bool {
        ((self.0 >> 21) & 1) != 0
    }

    /// Zero divided by zero.
    #[verifier::when_used_as_spec(spec_vxzdz)]
    pub fn vxzdz(&self) -> (r: bool)
        ensures
            r == self.spec_vxzdz(),
    {
        ((self.0 >> 21) & 1) != 0
    }

    pub open spec fn spec_vxidi(&self) -> bool {
        ((self.0 >> 22) & 1) != 0
    }

    /// Infinity divided by infinity.
    #[verifier::when_used_as_spec(spec_vxidi)]
    pub fn vxidi(&self) -> (r: bool)
        ensures
            r == self.spec_vxidi(),
    {
        ((self.0 >> 22) & 1) != 0
    }

    pub open spec fn spec_vxisi(&self) -> bool {
        ((self.0 >> 23) & 1) != 0
    }

    /// Infinity minus infinity.
    #[verifier::when_used_as_spec(spec_vxisi)]
    pub fn vxisi(&self) -> (r: bool)
        ensures
            r == self.spec_vxisi(),
    {
        ((self.0 >> 23) & 1) != 0
    }

    pub open spec fn spec_vxsnan(&self) -> bool {
        ((self.0 >> 24) & 1) != 0
    }

    /// Signalling NaN.
    #[verifier::when_used_as_spec(spec_vxsnan)]
    pub fn vxsnan(&self) -> (r: bool)
        ensures
            r == self.spec_vxsnan(),
    {
        ((self.0 >> 24) & 1) != 0
    }

    pub open spec fn spec_xx(&self) -> bool {
        ((self.0 >> 25) & 1) != 0
    }

    /// Inexact exception.
    #[verifier::when_used_as_spec(spec_xx)]
    pub fn xx(&self) -> (r: bool)
        ensures
            r == self.spec_xx(),
    {
        ((self.0 >> 25) & 1) != 0
    }

    pub open spec fn spec_zx(&self) -> bool {
        ((self.0 >> 26) & 1) != 0
    }

    /// Zero divide exception.
    #[verifier::when_used_as_spec(spec_zx)]
    pub fn zx(&self) -> (r: bool)
        ensures
            r == self.spec_zx(),
    {
        ((self.0 >> 26) & 1) != 0
    }

    pub open spec fn spec_ux(&self) -> bool {
        ((self.0 >> 27) & 1) != 0
    }

    /// Underflow exception.
    #[verifier::when_used_as_spec(spec_ux)]
    pub fn ux(&self) -> (r: bool)
        ensures
            r == self.spec_ux(),
    {
        ((self.0 >> 27) & 1) != 0
    }

    pub open spec fn spec_ox(&self) -> bool {
        ((self.0 >> 28) & 1) != 0
    }

    /// Overflow exception.
    #[verifier::when_used_as_spec(spec_ox)]
    pub fn ox(&self) -> (r: bool)
        ensures
            r == self.spec_ox(),
    {
        ((self.0 >> 28) & 1) != 0
    }

    pub open spec fn spec_vx(&self) -> bool {
        ((self.0 >> 29) & 1) != 0
    }

    /// Invalid operation summary.
    #[verifier::when_used_as_spec(spec_vx)]
    pub fn vx(&self) -> (r: bool)
        ensures
            r == self.spec_vx(),
    {
        ((self.0 >> 29) & 1) != 0
    }

    pub open spec fn spec_fex(&self) -> bool {
        ((self.0 >> 30) & 1) != 0
    }

    /// Enabled exception summary.
    #[verifier::when_used_as_spec(spec_fex)]
    pub fn fex(&self) -> (r: bool)
        ensures
            r == self.spec_fex(),
    {
        ((self.0 >> 30) & 1) != 0
    }

    pub open spec fn spec_fx(&self) -> bool {
        ((self.0 >> 31) & 1) != 0
    }

    /// Exception summary.
    #[verifier::when_used_as_spec(spec_fx)]
    pub fn fx(&self) -> (r: bool)
        ensures
            r == self.spec_fx(),
    {
        ((self.0 >> 31) & 1) != 0
    }
}

/// The fixed-point exception register.
#[derive(Clone, Copy, Debug, PartialEq, Eq, Structural)]
pub struct XER(pub u32);

impl XER {
    pub open spec fn spec_byte_count(&self) -> usize {
        (self.0 & 0x7F) as usize
    }

    /// The byte count of the string instructions.
    #[verifier::when_used_as_spec(spec_byte_count)]
    pub fn byte_count(&self) -> (r: usize)
        ensures
            r == self.spec_byte_count(),
            r <= 0x7F,
    {
        proof {
            lemma_and_bound(self.0, 0x7F);
        }
        (self.0 & 0x7F) as usize
    }

    pub open spec fn spec_ca(&self) -> bool {
        ((self.0 >> 29) & 1) != 0
    }

    /// The carry bit.
    #[verifier::when_used_as_spec(spec_ca)]
    pub fn ca(&self) -> (r: bool)
        ensures
            r == self.spec_ca(),
    {
        ((self.0 >> 29) & 1) != 0
    }

    pub open spec fn spec_set_ca(self, val: bool) -> Self {
        Self(with_bit(self.0, 29, val))
    }

    /// Sets the carry bit and leaves every other bit as it was.
    pub fn set_ca(&mut self, val: bool)
        ensures
            *final(self) == old(self).spec_set_ca(val),
            final(self).ca() == val,
    {
        proof {
            lemma_with_bit(self.0, 29, val);
        }
        let bit: u32 = if val { 1 } else { 0 };
        self.0 = (self.0 & !(1u32 << 29)) | (bit << 29);
    }

    pub open spec fn spec_ov(&self) -> bool {
        ((self.0 >> 30) & 1) != 0
    }

    /// The overflow bit.
    #[verifier::when_used_as_spec(spec_ov)]
    pub fn ov(&self) -> (r: bool)
        ensures
            r == self.spec_ov(),
    {
        ((self.0 >> 30) & 1) != 0
    }

    pub open spec fn spec_set_ov(self, val: bool) -> Self {
        Self(with_bit(self.0, 30, val))
    }

    /// Sets the overflow bit and leaves every other bit as it was.
    pub fn set_ov(&mut self, val: bool)
        ensures
            *final(self) == old(self).spec_set_ov(val),
            final(self).ov() == val,
    {
        proof {
            lemma_with_bit(self.0, 30, val);
        }
        let bit: u32 = if val { 1 } else { 0 };
        self.0 = (self.0 & !(1u32 << 30)) | (bit << 30);
    }

    pub open spec fn spec_so(&self) -> bool {
        ((self.0 >> 31) & 1) != 0
    }

    /// The summary overflow bit.
    #[verifier::when_used_as_spec(spec_so)]
    pub fn so(&self) -> (r: bool)
        ensures
            r == self.spec_so(),
    {
        ((self.0 >> 31) & 1) != 0
    }

    pub open spec fn spec_set_so(self, val: bool) -> Self {
        Self(with_bit(self.0, 31, val))
    }

    /// Sets the summary overflow bit and leaves every other bit as it was.
    pub fn set_so(&mut self, val: bool)
        ensures
            *final(self) == old(self).spec_set_so(val),
            final(self).so() == val,
    {
        proof {
            lemma_with_bit(self.0, 31, val);
        }
        let bit: u32 = if val { 1 } else { 0 };
        self.0 = (self.0 & !(1u32 << 31)) | (bit << 31);
    }
}

/// One floating-point register. It holds either one 64-bit image or a pair
/// of 32-bit images, whichever the last write gave it; bit patterns are kept
/// as they are. Read the other way, a pair is the 64-bit image that has the
/// first element in its low half, and a 64-bit image is the pair of its low
/// and its high half.
#[derive(Clone, Copy, Debug)]
pub enum FloatingPointRegister {
    Double(u64),
    Paired((u32, u32)),
}

/// The 64-bit image with `lo` in its low half and `hi` in its high half.
pub open spec fn join_halves(lo: u32, hi: u32) -> u64 {
    (lo as u64) | ((hi as u64) << 32)
}

impl FloatingPointRegister {
    /// A register written as a pair of 32-bit images.
    pub fn from_paired_u32(ints: (u32, u32)) -> (r: Self)
        ensures
            r == FloatingPointRegister::Paired(ints),
    {
        FloatingPointRegister::Paired(ints)
    }

    /// A register written as one 64-bit image.
    pub fn from_u64(image: u64) -> (r: Self)
        ensures
            r == FloatingPointRegister::Double(image),
    {
        FloatingPointRegister::Double(image)
    }

    pub open spec fn spec_as_paired_u32(&self) -> (u32, u32) {
        match *self {
            FloatingPointRegister::Paired(p) => p,
            FloatingPointRegister::Double(x) => ((x & 0xFFFF_FFFF) as u32, (x >> 32) as u32),
        }
    }

    /// The register read as a pair of 32-bit images.
    #[verifier::when_used_as_spec(spec_as_paired_u32)]
    pub fn as_paired_u32(&self) -> (r: (u32, u32))
        ensures
            r == self.spec_as_paired_u32(),
    {
        match *self {
            FloatingPointRegister::Paired(p) => p,
            FloatingPointRegister::Double(x) => ((x & 0xFFFF_FFFF) as u32, (x >> 32) as u32),
        }
    }

    pub open spec fn spec_as_u64(&self) -> u64 {
        match *self {
            FloatingPointRegister::Double(x) => x,
            FloatingPointRegister::Paired(p) => join_halves(p.0, p.1),
        }
    }

    /// The register read as one 64-bit image.
    #[verifier::when_used_as_spec(spec_as_u64)]
    pub fn as_u64(&self) -> (r: u64)
        ensures
            r == self.spec_as_u64(),
    {
        match *self {
            FloatingPointRegister::Double(x) => x,
            FloatingPointRegister::Paired(p) => (p.0 as u64) | ((p.1 as u64) << 32),
        }
    }

    /// The register as a pair that can be written in place. The register
    /// holds a pair from now on.
    pub fn as_paired_u32_mut(&mut self) -> (r: &mut (u32, u32))
        ensures
            *r == old(self).as_paired_u32(),
            *final(self) == FloatingPointRegister::Paired(*final(r)),
    {
        let current: (u32, u32) = self.as_paired_u32();
        *self = FloatingPointRegister::Paired(current);
        match self {
            FloatingPointRegister::Paired(p) => p,
            FloatingPointRegister::Double(_) => vstd::pervasive::unreached(),
        }
    }

    /// The register as a 64-bit image that can be written in place. The
    /// register holds one 64-bit image from now on.
    pub fn as_u64_mut(&mut self) -> (r: &mut u64)
        ensures
            *r == old(self).as_u64(),
            *final(self) == FloatingPointRegister::Double(*final(r)),
    {
        let current: u64 = self.as_u64();
        *self = FloatingPointRegister::Double(current);
        match self {
            FloatingPointRegister::Double(x) => x,
            FloatingPointRegister::Paired(_) => vstd::pervasive::unreached(),
        }
    }
}

/// The four-bit class of a result: equal to, greater than or less than zero
/// when read in two's complement.
pub open spec fn sign_class(val: u32) -> u32 {
    if val == 0 {
        0x2
    } else if val < 0x8000_0000 {
        0x4
    } else {
        0x8
    }
}

/// The registers of the CPU.
pub struct Cpu {
    pub cia: u32,
    pub nia: u32,
    pub gprs: [u32; 32],
    pub mmu: Mmu,
    pub hid0: u32,
    pub hid2: HID2,
    pub wpar: u32,
    pub gqrs: [GraphicsQuantizationRegister; 8],
    pub fprs: [FloatingPointRegister; 32],
    pub msr: MachineStateRegister,
    pub tb: u64,
    pub cr: ConditionRegister,
    pub ctr: u32,
    pub lr: u32,
    pub srr0: u32,
    pub srr1: u32,
    pub exceptions: u32,
    pub fpscr: FloatingPointStatusControlRegister,
    pub l2cr: u32,
    pub xer: XER,
    pub pmcs: [u32; 4],
    pub mmcr0: u32,
    pub mmcr1: u32,
}

impl Cpu {
    /// Whether the CPU is as a reset leaves it: execution starts at
    /// `0xFFF0_0100`, the next instruction address is the word after it, and
    /// every other register is zero.
    pub open spec fn at_reset(self) -> bool {
        &&& self.cia == 0xFFF0_0100
        &&& self.nia == 0xFFF0_0104
        &&& forall|i: int| 0 <= i < 32 ==> self.gprs[i] == 0
        &&& forall|i: int| 0 <= i < 32 ==> self.fprs[i] == FloatingPointRegister::Double(0)
        &&& forall|i: int| 0 <= i < 8 ==> self.gqrs[i] == GraphicsQuantizationRegister(0)
        &&& forall|i: int| 0 <= i < 4 ==> self.pmcs[i] == 0
        &&& forall|i: int| 0 <= i < 4 ==> self.mmu.dbats[i] == crate::cpu::mmu::Bat(0, 0) && self.mmu.ibats[i] == crate::cpu::mmu::Bat(0, 0)
        &&& forall|i: int| 0 <= i < 16 ==> self.mmu.srs[i] == 0
        &&& self.hid0 == 0 && self.hid2 == HID2(0) && self.wpar == 0 && self.msr == MachineStateRegister(0) && self.tb == 0
        &&& self.cr == ConditionRegister(0) && self.ctr == 0 && self.lr == 0 && self.srr0 == 0 && self.srr1 == 0
        &&& self.exceptions == 0 && self.fpscr == FloatingPointStatusControlRegister(0) && self.l2cr == 0
        &&& self.xer == XER(0) && self.mmcr0 == 0 && self.mmcr1 == 0
    }

    /// The CPU at reset.
    pub fn new() -> (r: Self)
        ensures
            r.at_reset(),
    {
        Self {
            cia: 0xFFF0_0100,
            nia: 0xFFF0_0104,
            gprs: [0;32],
            mmu: Mmu::new(),
            hid0: 0,
            hid2: HID2(0),
            wpar: 0,
            gqrs: [GraphicsQuantizationRegister(0);8],
            fprs: [FloatingPointRegister::Double(0);32],
            msr: MachineStateRegister(0),
            tb: 0,
            cr: ConditionRegister(0),
            ctr: 0,
            lr: 0,
            srr0: 0,
            srr1: 0,
            exceptions: 0,
            fpscr: FloatingPointStatusControlRegister(0),
            l2cr: 0,
            xer: XER(0),
            pmcs: [0;4],
            mmcr0: 0,
            mmcr1: 0,
        }
    }

    /// The CPU with general-purpose register `i` holding `v`.
    pub open spec fn with_gpr(self, i: usize, v: u32) -> Self {
        Cpu { gprs: spec_array_update(self.gprs, i as int, v), ..self }
    }

    /// Writes general-purpose register `i`.
    pub fn set_gpr(&mut self, i: usize, v: u32)
        requires
            i < 32,
        ensures
            *final(self) == old(self).with_gpr(i, v),
    {
        self.gprs[i] = v;
        assert(self.gprs =~= old(self).with_gpr(i, v).gprs);
    }

    /// The value of general-purpose register `i`.
    pub open spec fn gpr(self, i: usize) -> u32 {
        self.gprs[i as int]
    }

    /// The value of general-purpose register `i`, or zero where `i` is 0: the
    /// base of an effective address.
    pub open spec fn gpr_or_zero(self, i: usize) -> u32 {
        if i == 0 {
            0
        } else {
            self.gprs[i as int]
        }
    }

    /// The summary overflow bit as the lowest bit of a condition field.
    pub open spec fn spec_so_bit(&self) -> u32 {
        if self.xer.so() {
            1
        } else {
            0
        }
    }

    /// The summary overflow bit as the lowest bit of a condition field.
    #[verifier::when_used_as_spec(spec_so_bit)]
    pub fn so_bit(&self) -> (r: u32)
        ensures
            r == self.spec_so_bit(),
    {
        if self.xer.so() {
            1
        } else {
            0
        }
    }

    /// The CPU with the carry bit set to `val`.
    pub open spec fn with_ca(self, val: bool) -> Self {
        Cpu { xer: self.xer.spec_set_ca(val), ..self }
    }

    /// The CPU with the overflow bit set to `val`.
    pub open spec fn with_ov(self, val: bool) -> Self {
        Cpu { xer: self.xer.spec_set_ov(val), ..self }
    }

    /// The CPU with the summary overflow bit set to `val`.
    pub open spec fn with_so(self, val: bool) -> Self {
        Cpu { xer: self.xer.spec_set_so(val), ..self }
    }

    /// The CPU after condition register field 0 has recorded `val`, where
    /// `rc` asks for it.
    pub open spec fn recorded(self, rc: bool, val: u32) -> Self {
        if rc {
            self.with_cr0(val)
        } else {
            self
        }
    }

    /// The CPU with floating-point register `i` holding `v`.
    pub open spec fn with_fpr(self, i: usize, v: FloatingPointRegister) -> Self {
        Cpu { fprs: spec_array_update(self.fprs, i as int, v), ..self }
    }

    /// Writes floating-point register `i`.
    pub fn set_fpr(&mut self, i: usize, v: FloatingPointRegister)
        requires
            i < 32,
        ensures
            *final(self) == old(self).with_fpr(i, v),
    {
        self.fprs[i] = v;
        assert(self.fprs =~= old(self).with_fpr(i, v).fprs);
    }

    /// The CPU with condition register field `index` holding the low four
    /// bits of `val`.
    pub open spec fn with_cr_field(self, index: usize, val: u32) -> Self {
        Cpu { cr: self.cr.spec_set_reg(index, val), ..self }
    }

    /// The CPU after condition register field 0 has recorded the result
    /// `val`: its class, and in the lowest bit the summary overflow bit.
    pub open spec fn with_cr0(self, val: u32) -> Self {
        self.with_cr_field(0, sign_class(val) | self.so_bit())
    }

    /// Records the result `val` in condition register field 0: whether it is
    /// less than, greater than or equal to zero when read in two's
    /// complement, together with the summary overflow bit.
    pub fn do_cr0(&mut self, val: u32)
        ensures
            *final(self) == old(self).with_cr0(val),
    {
        let class: u32 = if val == 0 {
            0x2
        } else if val < 0x8000_0000 {
            0x4
        } else {
            0x8
        };
        let so: u32 = if self.xer.so() { 1 } else { 0 };
        self.cr.set_reg(0, class | so);
    }

    /// The CPU after it has taken the most urgent pending exception.
    pub open spec fn spec_exception(self) -> Self {
        if self.exceptions & RESET_EXCEPTION != 0 {
            Cpu {
                cia: if self.msr.ip() { 0xFFF0_0100u32 } else { 0x100u32 },
                exceptions: self.exceptions & !RESET_EXCEPTION,
                ..self
            }
        } else if self.exceptions & PROGRAM_EXCEPTION != 0 {
            Cpu {
                srr0: self.nia,
                srr1: self.msr.0 & 0x87C0_FFFF,
                msr: MachineStateRegister(self.msr.spec_set_le(self.msr.ile()).0 & !0x04EF36u32),
                exceptions: self.exceptions & !PROGRAM_EXCEPTION,
                ..self
            }
        } else {
            self
        }
    }

    /// Takes the most urgent pending exception, if there is one. A reset
    /// moves execution to the reset vector that the exception prefix bit
    /// selects. A program exception saves the next instruction address and
    /// the machine state, and clears the state bits that an exception clears.
    pub fn exception(&mut self)
        ensures
            *final(self) == old(self).spec_exception(),
    {
        if self.exceptions & RESET_EXCEPTION != 0 {
            if self.msr.ip() {
                self.cia = 0xFFF0_0100;
            } else {
                self.cia = 0x100;
            }
            self.exceptions = self.exceptions & !RESET_EXCEPTION;
        } else if self.exceptions & PROGRAM_EXCEPTION != 0 {
            self.srr0 = self.nia;
            self.srr1 = self.msr.0 & 0x87C0_FFFF;
            let ile: bool = self.msr.ile();
            self.msr.set_le(ile);
            self.msr.0 = self.msr.0 & !0x04EF36u32;
            self.exceptions = self.exceptions & !PROGRAM_EXCEPTION;
        }
    }
}

/// Writes hardware implementation register 0. None of its bits has an
/// effect of its own.
pub fn write_hid0(gc: &mut Gamecube, val: u32)
    ensures
        *final(gc) == (Gamecube { cpu: Cpu { hid0: val, ..old(gc).cpu }, ..*old(gc) }),
{
    gc.cpu.hid0 = val;
}

/// Writes the machine state register. None of its bits has an effect of its
/// own beyond what reads of the register show.
pub fn write_msr(gc: &mut Gamecube, val: u32)
    ensures
        *final(gc) == (Gamecube { cpu: Cpu { msr: MachineStateRegister(val), ..old(gc).cpu }, ..*old(gc) }),
{
    gc.cpu.msr = MachineStateRegister(val);
}

/// What the instruction `i` with the primary opcode 19 makes of the CPU.
pub open spec fn effect_19(gc: Gamecube, i: Instruction) -> Option<(Cpu, Result<(), Fault>)> {
    let sec: usize = i.sec_opcd();
    if sec == 16 {
        Some((crate::cpu::control_flow::spec_bclr(gc.cpu, i), Ok(())))
    } else if sec == 150 {
        Some((gc.cpu, Ok(())))
    } else if sec == 193 {
        Some((crate::cpu::bitwise::spec_crxor(gc.cpu, i), Ok(())))
    } else {
        None
    }
}

/// What the instruction `i` with the primary opcode 63 makes of the CPU.
pub open spec fn effect_63(gc: Gamecube, i: Instruction) -> Option<(Cpu, Result<(), Fault>)> {
    let sec: usize = i.sec_opcd();
    if sec == 72 {
        Some((crate::cpu::float::spec_fmr(gc.cpu, i), crate::cpu::util::fault_when(i.rc(), i.fault())))
    } else if sec == 583 {
        Some((crate::cpu::config::spec_mffs(gc.cpu, i), crate::cpu::util::fault_when(i.rc(), i.fault())))
    } else if sec == 711 {
        Some((crate::cpu::config::spec_mtfsf(gc.cpu, i), crate::cpu::util::fault_when(i.rc(), i.fault())))
    } else {
        None
    }
}

/// What the arithmetic instruction `i` with the primary opcode 31 makes of
/// the CPU.
pub open spec fn effect_31_arithmetic(gc: Gamecube, i: Instruction) -> Option<(Cpu, Result<(), Fault>)> {
    let sec: usize = i.sec_opcd();
    let oe_fault = crate::cpu::util::fault_when(i.oe(), i.fault());
    if sec == 0 {
        Some((crate::cpu::arithmetic::spec_cmp(gc.cpu, i), Ok(())))
    } else if sec == 8 {
        Some((crate::cpu::arithmetic::spec_subfc(gc.cpu, i), oe_fault))
    } else if sec == 10 {
        Some((crate::cpu::arithmetic::spec_addc(gc.cpu, i), oe_fault))
    } else if sec == 11 {
        Some((crate::cpu::arithmetic::spec_mulhwu(gc.cpu, i), Ok(())))
    } else if sec == 26 {
        Some((crate::cpu::arithmetic::spec_cntlzw(gc.cpu, i), Ok(())))
    } else if sec == 32 {
        Some((crate::cpu::arithmetic::spec_cmpl(gc.cpu, i), Ok(())))
    } else if sec == 40 {
        Some((crate::cpu::arithmetic::spec_subf(gc.cpu, i), oe_fault))
    } else if sec == 104 || sec == 616 {
        Some((crate::cpu::arithmetic::spec_neg(gc.cpu, i), Ok(())))
    } else if sec == 136 {
        Some((crate::cpu::arithmetic::spec_subfe(gc.cpu, i), oe_fault))
    } else if sec == 138 {
        Some((crate::cpu::arithmetic::spec_adde(gc.cpu, i), oe_fault))
    } else if sec == 235 || sec == 747 {
        Some((crate::cpu::arithmetic::spec_mullw(gc.cpu, i), Ok(())))
    } else if sec == 266 {
        Some((crate::cpu::arithmetic::spec_add(gc.cpu, i), oe_fault))
    } else {
        None
    }
}

/// What the logical instruction `i` with the primary opcode 31 makes of the
/// CPU.
pub open spec fn effect_31_logical(gc: Gamecube, i: Instruction) -> Option<(Cpu, Result<(), Fault>)> {
    let sec: usize = i.sec_opcd();
    if sec == 24 {
        Some((crate::cpu::bitwise::spec_slw(gc.cpu, i), Ok(())))
    } else if sec == 28 {
        Some((crate::cpu::bitwise::spec_and(gc.cpu, i), Ok(())))
    } else if sec == 60 {
        Some((crate::cpu::bitwise::spec_andc(gc.cpu, i), Ok(())))
    } else if sec == 124 {
        Some((crate::cpu::bitwise::spec_nor(gc.cpu, i), Ok(())))
    } else if sec == 316 {
        Some((crate::cpu::bitwise::spec_xor(gc.cpu, i), Ok(())))
    } else if sec == 444 {
        Some((crate::cpu::bitwise::spec_or(gc.cpu, i), Ok(())))
    } else if sec == 536 {
        Some((crate::cpu::bitwise::spec_srw(gc.cpu, i), Ok(())))
    } else if sec == 792 {
        Some((crate::cpu::bitwise::spec_sraw(gc.cpu, i), Ok(())))
    } else if sec == 922 {
        Some((crate::cpu::bitwise::spec_extsh(gc.cpu, i), Ok(())))
    } else {
        None
    }
}

/// What the instruction `i` with the primary opcode 31 that moves a system
/// register, loads, or orders memory accesses makes of the CPU.
pub open spec fn effect_31_system(gc: Gamecube, i: Instruction) -> Option<(Cpu, Result<(), Fault>)> {
    let sec: usize = i.sec_opcd();
    if sec == 23 {
        Some(crate::cpu::load_store::spec_lwzx(gc, i))
    } else if sec == 83 {
        Some((crate::cpu::config::spec_mfmsr(gc.cpu, i), Ok(())))
    } else if sec == 146 {
        Some((crate::cpu::config::spec_mtmsr(gc.cpu, i), Ok(())))
    } else if sec == 210 {
        Some((crate::cpu::config::spec_mtsr(gc.cpu, i), Ok(())))
    } else if sec == 279 {
        Some(crate::cpu::load_store::spec_lhzx(gc, i))
    } else if sec == 339 {
        Some((crate::cpu::config::spec_mfspr(gc.cpu, i), crate::cpu::util::fault_when(crate::cpu::config::readable_spr(gc.cpu, i.spr()) is None, crate::cpu::config::spr_fault(i))))
    } else if sec == 371 {
        Some((crate::cpu::config::spec_mftb(gc.cpu, i), crate::cpu::util::fault_when(crate::cpu::config::time_base_half(gc.cpu.tb, i.tbr()) is None, Fault::UnimplementedSpr { spr: i.tbr(), instruction: i.0 })))
    } else if sec == 467 {
        Some((crate::cpu::config::spec_mtspr(gc.cpu, i), crate::cpu::util::fault_when(!crate::cpu::config::writable_spr(i.spr()), crate::cpu::config::spr_fault(i))))
    } else if sec == 598 {
        Some((gc.cpu, Ok(())))
    } else {
        None
    }
}

/// What the instruction `i` with the primary opcode 31 makes of the CPU.
pub open spec fn effect_31(gc: Gamecube, i: Instruction) -> Option<(Cpu, Result<(), Fault>)> {
    if effect_31_arithmetic(gc, i) is Some {
        effect_31_arithmetic(gc, i)
    } else if effect_31_logical(gc, i) is Some {
        effect_31_logical(gc, i)
    } else {
        effect_31_system(gc, i)
    }
}

/// What the instruction `i` with an immediate operand makes of the CPU.
pub open spec fn effect_immediate(gc: Gamecube, i: Instruction) -> Option<(Cpu, Result<(), Fault>)> {
    let op: usize = i.opcd();
    if op == 7 {
        Some((crate::cpu::arithmetic::spec_mulli(gc.cpu, i), Ok(())))
    } else if op == 8 {
        Some((crate::cpu::arithmetic::spec_subfic(gc.cpu, i), Ok(())))
    } else if op == 10 {
        Some((crate::cpu::arithmetic::spec_cmpli(gc.cpu, i), Ok(())))
    } else if op == 11 {
        Some((crate::cpu::arithmetic::spec_cmpi(gc.cpu, i), Ok(())))
    } else if op == 12 {
        Some((crate::cpu::arithmetic::spec_addic(gc.cpu, i), Ok(())))
    } else if op == 13 {
        Some((crate::cpu::arithmetic::spec_addicr(gc.cpu, i), Ok(())))
    } else if op == 14 {
        Some((crate::cpu::arithmetic::spec_addi(gc.cpu, i), Ok(())))
    } else if op == 15 {
        Some((crate::cpu::arithmetic::spec_addis(gc.cpu, i), Ok(())))
    } else if op == 20 {
        Some((crate::cpu::bitwise::spec_rlwimi(gc.cpu, i), Ok(())))
    } else if op == 21 {
        Some((crate::cpu::bitwise::spec_rlwinm(gc.cpu, i), Ok(())))
    } else if op == 24 {
        Some((crate::cpu::bitwise::spec_ori(gc.cpu, i), Ok(())))
    } else if op == 25 {
        Some((crate::cpu::bitwise::spec_oris(gc.cpu, i), Ok(())))
    } else if op == 27 {
        Some((crate::cpu::bitwise::spec_xoris(gc.cpu, i), Ok(())))
    } else if op == 28 {
        Some((crate::cpu::bitwise::spec_andi(gc.cpu, i), Ok(())))
    } else {
        None
    }
}

/// What the load instruction `i` makes of the CPU.
pub open spec fn effect_load(gc: Gamecube, i: Instruction) -> Option<(Cpu, Result<(), Fault>)> {
    let op: usize = i.opcd();
    if op == 32 {
        Some(crate::cpu::load_store::spec_lwz(gc, i))
    } else if op == 33 {
        Some(crate::cpu::load_store::spec_lwzu(gc, i))
    } else if op == 34 {
        Some(crate::cpu::load_store::spec_lbz(gc, i))
    } else if op == 35 {
        Some(crate::cpu::load_store::spec_lbzu(gc, i))
    } else if op == 40 {
        Some(crate::cpu::load_store::spec_lhz(gc, i))
    } else if op == 41 {
        Some(crate::cpu::load_store::spec_lhzu(gc, i))
    } else if op == 46 {
        Some(crate::cpu::load_store::spec_lmw(gc, i))
    } else if op == 48 {
        Some(crate::cpu::load_store::spec_lfs(gc, i))
    } else if op == 50 {
        Some(crate::cpu::load_store::spec_lfd(gc, i))
    } else if op == 56 {
        Some(crate::cpu::load_store::spec_psq_l(gc, i))
    } else {
        None
    }
}

/// What the instruction `i` makes of the CPU, for the instructions that
/// change nothing but registers of the CPU: the CPU after the instruction,
/// and how the instruction ends. None for a store, and for a word that
/// selects no handler.
pub open spec fn effect(gc: Gamecube, i: Instruction) -> Option<(Cpu, Result<(), Fault>)> {
    let op: usize = i.opcd();
    if op == 4 {
        Some((crate::cpu::float::spec_ps_mr(gc.cpu, i), crate::cpu::util::fault_when(!gc.cpu.hid2.pse() || i.rc(), i.fault())))
    } else if op == 16 {
        Some((crate::cpu::control_flow::spec_bc(gc.cpu, i), Ok(())))
    } else if op == 18 {
        Some((crate::cpu::control_flow::spec_b(gc.cpu, i), Ok(())))
    } else if op == 19 {
        effect_19(gc, i)
    } else if op == 31 {
        effect_31(gc, i)
    } else if op == 63 {
        effect_63(gc, i)
    } else if effect_immediate(gc, i) is Some {
        effect_immediate(gc, i)
    } else {
        effect_load(gc, i)
    }
}

/// What the store instruction `i` leaves of the machine `pre`. None for a
/// word that is no store.
pub open spec fn store_effect(pre: Gamecube, post: Gamecube, i: Instruction, res: Result<(), Fault>) -> Option<bool> {
    let op: usize = i.opcd();
    if op == 36 {
        Some(crate::cpu::load_store::stw_post(pre, post, i, res))
    } else if op == 37 {
        Some(crate::cpu::load_store::stwu_post(pre, post, i, res))
    } else if op == 38 {
        Some(crate::cpu::load_store::stb_post(pre, post, i, res))
    } else if op == 39 {
        Some(crate::cpu::load_store::stbu_post(pre, post, i, res))
    } else if op == 44 {
        Some(crate::cpu::load_store::sth_post(pre, post, i, res))
    } else if op == 47 {
        Some(crate::cpu::load_store::stmw_post(pre, post, i, res))
    } else if op == 52 {
        Some(crate::cpu::load_store::stfs_post(pre, post, i, res))
    } else if op == 53 {
        Some(crate::cpu::load_store::stfsu_post(pre, post, i, res))
    } else if op == 54 {
        Some(crate::cpu::load_store::stfd_post(pre, post, i, res))
    } else if op == 31 && i.sec_opcd() == 151 {
        Some(crate::cpu::load_store::stwx_post(pre, post, i, res))
    } else {
        None
    }
}

/// What executing the instruction `i` leaves of the machine `pre`. A word
/// whose primary and secondary opcode select no handler is reported with
/// both opcode fields and the word itself, and changes nothing.
pub open spec fn execute_post(pre: Gamecube, post: Gamecube, i: Instruction, res: Result<(), Fault>) -> bool {
    match effect(pre, i) {
        Some((cpu, r)) => post == (Gamecube { cpu, ..pre }) && res == r,
        None => match store_effect(pre, post, i, res) {
            Some(holds) => holds,
            None => post == pre && res == Err::<(), Fault>(i.fault()),
        },
    }
}

/// Executes an instruction with the primary opcode 19.
fn execute_19(gc: &mut Gamecube, instr: &Instruction) -> (res: Result<(), Fault>)
    requires
        instr.opcd() == 19,
    ensures
        execute_post(*old(gc), *final(gc), *instr, res),
{
    let sec: usize = instr.sec_opcd();
    if sec == 16 {
        crate::cpu::control_flow::bclr(gc, instr);
        Ok(())
    } else if sec == 150 {
        Ok(())
    } else if sec == 193 {
        crate::cpu::bitwise::crxor(gc, instr);
        Ok(())
    } else {
        Err(instr.fault())
    }
}

/// Executes an instruction with the primary opcode 63.
fn execute_63(gc: &mut Gamecube, instr: &Instruction) -> (res: Result<(), Fault>)
    requires
        instr.opcd() == 63,
    ensures
        execute_post(*old(gc), *final(gc), *instr, res),
{
    let sec: usize = instr.sec_opcd();
    if sec == 72 {
        crate::cpu::float::fmr(gc, instr)
    } else if sec == 583 {
        crate::cpu::config::mffs(gc, instr)
    } else if sec == 711 {
        crate::cpu::config::mtfsf(gc, instr)
    } else {
        Err(instr.fault())
    }
}

/// Executes an arithmetic instruction with the primary opcode 31.
fn execute_31_arithmetic(gc: &mut Gamecube, instr: &Instruction) -> (res: Result<(), Fault>)
    requires
        instr.opcd() == 31,
        effect_31_arithmetic(*old(gc), *instr) is Some,
    ensures
        execute_post(*old(gc), *final(gc), *instr, res),
{
    let sec: usize = instr.sec_opcd();
    if sec == 0 {
        crate::cpu::arithmetic::cmp(gc, instr);
        Ok(())
    } else if sec == 8 {
        crate::cpu::arithmetic::subfc(gc, instr)
    } else if sec == 10 {
        crate::cpu::arithmetic::addc(gc, instr)
    } else if sec == 11 {
        crate::cpu::arithmetic::mulhwu(gc, instr);
        Ok(())
    } else if sec == 26 {
        crate::cpu::arithmetic::cntlzw(gc, instr);
        Ok(())
    } else if sec == 32 {
        crate::cpu::arithmetic::cmpl(gc, instr);
        Ok(())
    } else if sec == 40 {
        crate::cpu::arithmetic::subf(gc, instr)
    } else if sec == 104 || sec == 616 {
        crate::cpu::arithmetic::neg(gc, instr);
        Ok(())
    } else if sec == 136 {
        crate::cpu::arithmetic::subfe(gc, instr)
    } else if sec == 138 {
        crate::cpu::arithmetic::adde(gc, instr)
    } else if sec == 235 || sec == 747 {
        crate::cpu::arithmetic::mullw(gc, instr);
        Ok(())
    } else {
        crate::cpu::arithmetic::add(gc, instr)
    }
}

/// Executes a logical instruction with the primary opcode 31.
fn execute_31_logical(gc: &mut Gamecube, instr: &Instruction) -> (res: Result<(), Fault>)
    requires
        instr.opcd() == 31,
        effect_31_arithmetic(*old(gc), *instr) is None,
        effect_31_logical(*old(gc), *instr) is Some,
    ensures
        execute_post(*old(gc), *final(gc), *instr, res),
{
    let sec: usize = instr.sec_opcd();
    if sec == 24 {
        crate::cpu::bitwise::slw(gc, instr);
    } else if sec == 28 {
        crate::cpu::bitwise::and(gc, instr);
    } else if sec == 60 {
        crate::cpu::bitwise::andc(gc, instr);
    } else if sec == 124 {
        crate::cpu::bitwise::nor(gc, instr);
    } else if sec == 316 {
        crate::cpu::bitwise::xor(gc, instr);
    } else if sec == 444 {
        crate::cpu::bitwise::or(gc, instr);
    } else if sec == 536 {
        crate::cpu::bitwise::srw(gc, instr);
    } else if sec == 792 {
        crate::cpu::bitwise::sraw(gc, instr);
    } else {
        crate::cpu::bitwise::extsh(gc, instr);
    }
    Ok(())
}

/// Executes one of the other instructions with the primary opcode 31.
fn execute_31_system(gc: &mut Gamecube, instr: &Instruction) -> (res: Result<(), Fault>)
    requires
        instr.opcd() == 31,
        effect_31_arithmetic(*old(gc), *instr) is None,
        effect_31_logical(*old(gc), *instr) is None,
    ensures
        execute_post(*old(gc), *final(gc), *instr, res),
{
    let sec: usize = instr.sec_opcd();
    if sec == 23 {
        crate::cpu::load_store::lwzx(gc, instr)
    } else if sec == 83 {
        crate::cpu::config::mfmsr(gc, instr);
        Ok(())
    } else if sec == 146 {
        crate::cpu::config::mtmsr(gc, instr);
        Ok(())
    } else if sec == 151 {
        crate::cpu::load_store::stwx(gc, instr)
    } else if sec == 210 {
        crate::cpu::config::mtsr(gc, instr);
        Ok(())
    } else if sec == 279 {
        crate::cpu::load_store::lhzx(gc, instr)
    } else if sec == 339 {
        crate::cpu::config::mfspr(gc, instr)
    } else if sec == 371 {
        crate::cpu::config::mftb(gc, instr)
    } else if sec == 467 {
        crate::cpu::config::mtspr(gc, instr)
    } else if sec == 598 {
        Ok(())
    } else {
        Err(instr.fault())
    }
}

/// Whether `sec` is the secondary opcode of an arithmetic instruction with
/// the primary opcode 31.
fn is_arithmetic(sec: usize) -> (r: bool)
    ensures
        r == (sec == 0 || sec == 8 || sec == 10 || sec == 11 || sec == 26 || sec == 32 || sec == 40 || sec == 104 || sec == 616 || sec
            == 136 || sec == 138 || sec == 235 || sec == 747 || sec == 266),
{
    sec == 0 || sec == 8 || sec == 10 || sec == 11 || sec == 26 || sec == 32 || sec == 40 || sec == 104 || sec == 616 || sec == 136
        || sec == 138 || sec == 235 || sec == 747 || sec == 266
}

/// Whether `sec` is the secondary opcode of a logical instruction with the
/// primary opcode 31.
fn is_logical(sec: usize) -> (r: bool)
    ensures
        r == (sec == 24 || sec == 28 || sec == 60 || sec == 124 || sec == 316 || sec == 444 || sec == 536 || sec == 792 || sec == 922),
{
    sec == 24 || sec == 28 || sec == 60 || sec == 124 || sec == 316 || sec == 444 || sec == 536 || sec == 792 || sec == 922
}

/// Executes an instruction with an immediate operand.
fn execute_immediate(gc: &mut Gamecube, instr: &Instruction)
    requires
        effect_immediate(*old(gc), *instr) is Some,
    ensures
        execute_post(*old(gc), *final(gc), *instr, Ok(())),
{
    let op: usize = instr.opcd();
    if op == 7 {
        crate::cpu::arithmetic::mulli(gc, instr);
    } else if op == 8 {
        crate::cpu::arithmetic::subfic(gc, instr);
    } else if op == 10 {
        crate::cpu::arithmetic::cmpli(gc, instr);
    } else if op == 11 {
        crate::cpu::arithmetic::cmpi(gc, instr);
    } else if op == 12 {
        crate::cpu::arithmetic::addic(gc, instr);
    } else if op == 13 {
        crate::cpu::arithmetic::addicr(gc, instr);
    } else if op == 14 {
        crate::cpu::arithmetic::addi(gc, instr);
    } else if op == 15 {
        crate::cpu::arithmetic::addis(gc, instr);
    } else if op == 20 {
        crate::cpu::bitwise::rlwimi(gc, instr);
    } else if op == 21 {
        crate::cpu::bitwise::rlwinm(gc, instr);
    } else if op == 24 {
        crate::cpu::bitwise::ori(gc, instr);
    } else if op == 25 {
        crate::cpu::bitwise::oris(gc, instr);
    } else if op == 27 {
        crate::cpu::bitwise::xoris(gc, instr);
    } else {
        crate::cpu::bitwise::andi(gc, instr);
    }
}

/// Executes a load, a store, or a word that selects no handler.
fn execute_memory(gc: &mut Gamecube, instr: &Instruction) -> (res: Result<(), Fault>)
    requires
        effect_immediate(*old(gc), *instr) is None,
        instr.opcd() != 4 && instr.opcd() != 16 && instr.opcd() != 18 && instr.opcd() != 19 && instr.opcd() != 31 && instr.opcd() != 63,
    ensures
        execute_post(*old(gc), *final(gc), *instr, res),
{
    let op: usize = instr.opcd();
    if op == 32 {
        crate::cpu::load_store::lwz(gc, instr)
    } else if op == 33 {
        crate::cpu::load_store::lwzu(gc, instr)
    } else if op == 34 {
        crate::cpu::load_store::lbz(gc, instr)
    } else if op == 35 {
        crate::cpu::load_store::lbzu(gc, instr)
    } else if op == 36 {
        crate::cpu::load_store::stw(gc, instr)
    } else if op == 37 {
        crate::cpu::load_store::stwu(gc, instr)
    } else if op == 38 {
        crate::cpu::load_store::stb(gc, instr)
    } else if op == 39 {
        crate::cpu::load_store::stbu(gc, instr)
    } else if op == 40 {
        crate::cpu::load_store::lhz(gc, instr)
    } else if op == 41 {
        crate::cpu::load_store::lhzu(gc, instr)
    } else if op == 44 {
        crate::cpu::load_store::sth(gc, instr)
    } else if op == 46 {
        crate::cpu::load_store::lmw(gc, instr)
    } else if op == 47 {
        crate::cpu::load_store::stmw(gc, instr)
    } else if op == 48 {
        crate::cpu::load_store::lfs(gc, instr)
    } else if op == 50 {
        crate::cpu::load_store::lfd(gc, instr)
    } else if op == 52 {
        crate::cpu::load_store::stfs(gc, instr)
    } else if op == 53 {
        crate::cpu::load_store::stfsu(gc, instr)
    } else if op == 54 {
        crate::cpu::load_store::stfd(gc, instr)
    } else if op == 56 {
        crate::cpu::load_store::psq_l(gc, instr)
    } else {
        Err(instr.fault())
    }
}

/// Whether `op` is the primary opcode of an instruction with an immediate
/// operand.
fn is_immediate(op: usize) -> (r: bool)
    ensures
        r == (op == 7 || op == 8 || op == 10 || op == 11 || op == 12 || op == 13 || op == 14 || op == 15 || op == 20 || op == 21 || op
            == 24 || op == 25 || op == 27 || op == 28),
{
    op == 7 || op == 8 || op == 10 || op == 11 || op == 12 || op == 13 || op == 14 || op == 15 || op == 20 || op == 21 || op == 24
        || op == 25 || op == 27 || op == 28
}

/// Executes the instruction `instr`: dispatches on its primary and, for the
/// extended forms, its secondary opcode to the handler of the instruction.
/// A handler that fails leaves what it had written.
pub fn execute(gc: &mut Gamecube, instr: &Instruction) -> (res: Result<(), Fault>)
    ensures
        execute_post(*old(gc), *final(gc), *instr, res),
{
    let op: usize = instr.opcd();
    if op == 4 {
        crate::cpu::float::ps_mr(gc, instr)
    } else if op == 16 {
        crate::cpu::control_flow::bc(gc, instr);
        Ok(())
    } else if op == 18 {
        crate::cpu::control_flow::b(gc, instr);
        Ok(())
    } else if op == 19 {
        execute_19(gc, instr)
    } else if op == 31 {
        let sec: usize = instr.sec_opcd();
        if is_arithmetic(sec) {
            execute_31_arithmetic(gc, instr)
        } else if is_logical(sec) {
            execute_31_logical(gc, instr)
        } else {
            execute_31_system(gc, instr)
        }
    } else if op == 63 {
        execute_63(gc, instr)
    } else if is_immediate(op) {
        execute_immediate(gc, instr);
        Ok(())
    } else {
        execute_memory(gc, instr)
    }
}

/// The machine after an instruction has retired: the current instruction
/// address is what the instruction left as the next one, the next one is
/// the word after it, and the time base has counted one step.
pub open spec fn retired(gc: Gamecube) -> Gamecube {
    Gamecube {
        cpu: Cpu {
            cia: gc.cpu.nia,
            nia: gc.cpu.nia.wrapping_add(4),
            tb: gc.cpu.tb.wrapping_add(1),
            ..gc.cpu
        },
        ..gc
    }
}

/// What one step leaves of the machine `pre`. The word at the current
/// instruction address is fetched; a fetch that fails is reported and
/// changes nothing. The word is executed; an instruction that fails is
/// reported and does not retire. Otherwise the instruction retires.
#[verifier::opaque]
pub open spec fn step_post(pre: Gamecube, post: Gamecube, res: Result<(), Fault>) -> bool {
    match pre.read_u32(pre.cpu.cia, true) {
        Err(f) => post == pre && res == Err::<(), Fault>(f),
        Ok(word) => if res is Ok {
            exists|mid: Gamecube| #[trigger] execute_post(pre, mid, Instruction(word), res) && post == retired(mid)
        } else {
            execute_post(pre, post, Instruction(word), res)
        },
    }
}

/// After an instruction has retired, the next instruction address is the
/// word after the current one.
pub proof fn lemma_retired_addresses(gc: Gamecube)
    ensures
        retired(gc).cpu.cia == gc.cpu.nia,
        retired(gc).cpu.nia == crate::cpu::util::wrap32(retired(gc).cpu.cia + 4),
        retired(gc).cpu.tb == (gc.cpu.tb + 1) % 0x1_0000_0000_0000_0000,
{
}

/// Executes one instruction: fetch, dispatch, execute, retire.
pub fn step(gc: &mut Gamecube) -> (res: Result<(), Fault>)
    ensures
        step_post(*old(gc), *final(gc), res),
{
    reveal(step_post);
    let addr: u32 = gc.cpu.cia;
    let word: u32 = gc.read_u32(addr, true)?;
    let instruction: Instruction = Instruction(word);
    let res: Result<(), Fault> = execute(gc, &instruction);
    if res.is_err() {
        return res;
    }
    let ghost mid: Gamecube = *gc;
    gc.cpu.cia = gc.cpu.nia;
    gc.cpu.tb = gc.cpu.tb.wrapping_add(1);
    gc.cpu.nia = gc.cpu.cia.wrapping_add(4);
    assert(execute_post(*old(gc), mid, instruction, res) && *gc == retired(mid));
    res
}

} // verus!
