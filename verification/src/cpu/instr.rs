use vstd::prelude::*;
use crate::fault::Fault;

verus! {

/// For any word, masking leaves a value no greater than the mask.
pub proof fn lemma_and_bound(x: u32, m: u32)
    by (bit_vector)
    ensures
        x & m <= m,
{
}

/// One 32-bit instruction word. Every field accessor is total: it is a shift
/// and a mask of the word, whatever the word holds.
#[derive(Clone, Copy, Debug)]
pub struct Instruction(pub u32);

impl Instruction {
    pub open spec fn spec_opcd(&self) -> usize {
        ((self.0 >> 26) & 0x3F) as usize
    }

    /// The primary opcode: the six most significant bits.
    #[verifier::when_used_as_spec(spec_opcd)]
    pub fn opcd(&self) -> (r: usize)
        ensures
            r == self.spec_opcd(),
            r <= 0x3F,
    {
        proof {
            lemma_and_bound(self.0 >> 26, 0x3F);
        }
        ((self.0 >> 26) & 0x3F) as usize
    }

    pub open spec fn spec_d(&self) -> usize {
        ((self.0 >> 21) & 0x1F) as usize
    }

    /// The destination register field `rD`/`frD`.
    #[verifier::when_used_as_spec(spec_d)]
    pub fn d(&self) -> (r: usize)
        ensures
            r == self.spec_d(),
            r <= 0x1F,
    {
        proof {
            lemma_and_bound(self.0 >> 21, 0x1F);
        }
        ((self.0 >> 21) & 0x1F) as usize
    }

    pub open spec fn spec_a(&self) -> usize {
        ((self.0 >> 16) & 0x1F) as usize
    }

    /// The first operand register field `rA`.
    #[verifier::when_used_as_spec(spec_a)]
    pub fn a(&self) -> (r: usize)
        ensures
            r == self.spec_a(),
            r <= 0x1F,
    {
        proof {
            lemma_and_bound(self.0 >> 16, 0x1F);
        }
        ((self.0 >> 16) & 0x1F) as usize
    }

    pub open spec fn spec_simm(&self) -> i16 {
        let low: u32 = self.0 & 0xFFFF;
        if low >= 0x8000 {
            (low - 0x1_0000) as i16
        } else {
            low as i16
        }
    }

    /// The signed sixteen-bit immediate: the low half of the word, read in
    /// two's complement.
    #[verifier::when_used_as_spec(spec_simm)]
    pub fn simm(&self) -> (r: i16)
        ensures
            r == self.spec_simm(),
    {
        proof {
            lemma_and_bound(self.0, 0xFFFF);
        }
        let low: u32 = self.0 & 0xFFFF;
        if low >= 0x8000 {
            (low as i32 - 0x1_0000) as i16
        } else {
            low as i16
        }
    }

    pub open spec fn spec_uimm(&self) -> u16 {
        (self.0 & 0xFFFF) as u16
    }

    /// The unsigned sixteen-bit immediate.
    #[verifier::when_used_as_spec(spec_uimm)]
    pub fn uimm(&self) -> (r: u16)
        ensures
            r == self.spec_uimm(),
            r <= 0xFFFF,
    {
        proof {
            lemma_and_bound(self.0, 0xFFFF);
        }
        (self.0 & 0xFFFF) as u16
    }

    pub open spec fn spec_sec_opcd(&self) -> usize {
        ((self.0 >> 1) & 0x3FF) as usize
    }

    /// The ten-bit secondary opcode of the extended forms.
    #[verifier::when_used_as_spec(spec_sec_opcd)]
    pub fn sec_opcd(&self) -> (r: usize)
        ensures
            r == self.spec_sec_opcd(),
            r <= 0x3FF,
    {
        proof {
            lemma_and_bound(self.0 >> 1, 0x3FF);
        }
        ((self.0 >> 1) & 0x3FF) as usize
    }

    pub open spec fn spec_spr(&self) -> usize {
        ((((self.0 >> 11) & 0x1F) << 5) | ((self.0 >> 16) & 0x1F)) as usize
    }

    /// The special-purpose register number. The word holds its two five-bit
    /// halves in swapped order; the result has them in the architected order.
    #[verifier::when_used_as_spec(spec_spr)]
    pub fn spr(&self) -> (r: usize)
        ensures
            r == self.spec_spr(),
    {
        ((((self.0 >> 11) & 0x1F) << 5) | ((self.0 >> 16) & 0x1F)) as usize
    }

    pub open spec fn spec_s(&self) -> usize {
        ((self.0 >> 21) & 0x1F) as usize
    }

    /// The source register field `rS`/`frS`.
    #[verifier::when_used_as_spec(spec_s)]
    pub fn s(&self) -> (r: usize)
        ensures
            r == self.spec_s(),
            r <= 0x1F,
    {
        proof {
            lemma_and_bound(self.0 >> 21, 0x1F);
        }
        ((self.0 >> 21) & 0x1F) as usize
    }

    pub open spec fn spec_sr(&self) -> usize {
        ((self.0 >> 16) & 0xF) as usize
    }

    /// The segment register field.
    #[verifier::when_used_as_spec(spec_sr)]
    pub fn sr(&self) -> (r: usize)
        ensures
            r == self.spec_sr(),
            r <= 0xF,
    {
        proof {
            lemma_and_bound(self.0 >> 16, 0xF);
        }
        ((self.0 >> 16) & 0xF) as usize
    }

    pub open spec fn spec_rc(&self) -> bool {
        (self.0 & 1) != 0
    }

    /// Whether the record bit is set.
    #[verifier::when_used_as_spec(spec_rc)]
    pub fn rc(&self) -> (r: bool)
        ensures
            r == self.spec_rc(),
    {
        (self.0 & 1) != 0
    }

    pub open spec fn spec_me(&self) -> usize {
        ((self.0 >> 1) & 0x1F) as usize
    }

    /// The mask end bit of a rotate instruction.
    #[verifier::when_used_as_spec(spec_me)]
    pub fn me(&self) -> (r: usize)
        ensures
            r == self.spec_me(),
            r <= 0x1F,
    {
        proof {
            lemma_and_bound(self.0 >> 1, 0x1F);
        }
        ((self.0 >> 1) & 0x1F) as usize
    }

    pub open spec fn spec_mb(&self) -> usize {
        ((self.0 >> 6) & 0x1F) as usize
    }

    /// The mask begin bit of a rotate instruction.
    #[verifier::when_used_as_spec(spec_mb)]
    pub fn mb(&self) -> (r: usize)
        ensures
            r == self.spec_mb(),
            r <= 0x1F,
    {
        proof {
            lemma_and_bound(self.0 >> 6, 0x1F);
        }
        ((self.0 >> 6) & 0x1F) as usize
    }

    pub open spec fn spec_sh(&self) -> usize {
        ((self.0 >> 11) & 0x1F) as usize
    }

    /// The shift amount of a rotate instruction.
    #[verifier::when_used_as_spec(spec_sh)]
    pub fn sh(&self) -> (r: usize)
        ensures
            r == self.spec_sh(),
            r <= 0x1F,
    {
        proof {
            lemma_and_bound(self.0 >> 11, 0x1F);
        }
        ((self.0 >> 11) & 0x1F) as usize
    }

    pub open spec fn spec_tbr(&self) -> usize {
        (((self.0 >> 6) & 0x3E0) | ((self.0 >> 16) & 0x1F)) as usize
    }

    /// The time base register number, its halves put in the architected order.
    #[verifier::when_used_as_spec(spec_tbr)]
    pub fn tbr(&self) -> (r: usize)
        ensures
            r == self.spec_tbr(),
    {
        (((self.0 >> 6) & 0x3E0) | ((self.0 >> 16) & 0x1F)) as usize
    }

    pub open spec fn spec_oe(&self) -> bool {
        ((self.0 >> 10) & 1) != 0
    }

    /// Whether the overflow enable bit is set.
    #[verifier::when_used_as_spec(spec_oe)]
    pub fn oe(&self) -> (r: bool)
        ensures
            r == self.spec_oe(),
    {
        ((self.0 >> 10) & 1) != 0
    }

    pub open spec fn spec_b(&self) -> usize {
        ((self.0 >> 11) & 0x1F) as usize
    }

    /// The second operand register field `rB`/`frB`.
    #[verifier::when_used_as_spec(spec_b)]
    pub fn b(&self) -> (r: usize)
        ensures
            r == self.spec_b(),
            r <= 0x1F,
    {
        proof {
            lemma_and_bound(self.0 >> 11, 0x1F);
        }
        ((self.0 >> 11) & 0x1F) as usize
    }

    pub open spec fn spec_crd(&self) -> usize {
        ((self.0 >> 23) & 7) as usize
    }

    /// The destination condition register field `crfD`.
    #[verifier::when_used_as_spec(spec_crd)]
    pub fn crd(&self) -> (r: usize)
        ensures
            r == self.spec_crd(),
            r <= 7,
    {
        proof {
            lemma_and_bound(self.0 >> 23, 7);
        }
        ((self.0 >> 23) & 7) as usize
    }

    pub open spec fn spec_lk(&self) -> bool {
        (self.0 & 1) != 0
    }

    /// Whether the link bit is set.
    #[verifier::when_used_as_spec(spec_lk)]
    pub fn lk(&self) -> (r: bool)
        ensures
            r == self.spec_lk(),
    {
        (self.0 & 1) != 0
    }

    pub open spec fn spec_aa(&self) -> bool {
        ((self.0 >> 1) & 1) != 0
    }

    /// Whether the absolute address bit is set.
    #[verifier::when_used_as_spec(spec_aa)]
    pub fn aa(&self) -> (r: bool)
        ensures
            r == self.spec_aa(),
    {
        ((self.0 >> 1) & 1) != 0
    }

    pub open spec fn spec_bd(&self) -> u16 {
        ((self.0 >> 2) & 0x3FFF) as u16
    }

    /// The fourteen-bit branch displacement, in words.
    #[verifier::when_used_as_spec(spec_bd)]
    pub fn bd(&self) -> (r: u16)
        ensures
            r == self.spec_bd(),
            r <= 0x3FFF,
    {
        proof {
            lemma_and_bound(self.0 >> 2, 0x3FFF);
        }
        ((self.0 >> 2) & 0x3FFF) as u16
    }

    pub open spec fn spec_bi(&self) -> usize {
        ((self.0 >> 16) & 0x1F) as usize
    }

    /// The condition register bit that a conditional branch inspects.
    #[verifier::when_used_as_spec(spec_bi)]
    pub fn bi(&self) -> (r: usize)
        ensures
            r == self.spec_bi(),
            r <= 0x1F,
    {
        proof {
            lemma_and_bound(self.0 >> 16, 0x1F);
        }
        ((self.0 >> 16) & 0x1F) as usize
    }

    pub open spec fn spec_bo(&self) -> usize {
        ((self.0 >> 21) & 0x1F) as usize
    }

    /// The branch options of a conditional branch.
    #[verifier::when_used_as_spec(spec_bo)]
    pub fn bo(&self) -> (r: usize)
        ensures
            r == self.spec_bo(),
            r <= 0x1F,
    {
        proof {
            lemma_and_bound(self.0 >> 21, 0x1F);
        }
        ((self.0 >> 21) & 0x1F) as usize
    }

    pub open spec fn spec_li(&self) -> u32 {
        (self.0 >> 2) & 0xFF_FFFF
    }

    /// The twenty-four-bit displacement of an unconditional branch, in words.
    #[verifier::when_used_as_spec(spec_li)]
    pub fn li(&self) -> (r: u32)
        ensures
            r == self.spec_li(),
            r <= 0xFF_FFFF,
    {
        proof {
            lemma_and_bound(self.0 >> 2, 0xFF_FFFF);
        }
        (self.0 >> 2) & 0xFF_FFFF
    }

    pub open spec fn spec_uimm_d(&self) -> u16 {
        (self.0 & 0xFFF) as u16
    }

    /// The twelve-bit displacement of a quantized load or store.
    #[verifier::when_used_as_spec(spec_uimm_d)]
    pub fn uimm_d(&self) -> (r: u16)
        ensures
            r == self.spec_uimm_d(),
            r <= 0xFFF,
    {
        proof {
            lemma_and_bound(self.0, 0xFFF);
        }
        (self.0 & 0xFFF) as u16
    }

    pub open spec fn spec_i(&self) -> usize {
        ((self.0 >> 12) & 0x7) as usize
    }

    /// The quantization register selector of a quantized load or store.
    #[verifier::when_used_as_spec(spec_i)]
    pub fn i(&self) -> (r: usize)
        ensures
            r == self.spec_i(),
            r <= 0x7,
    {
        proof {
            lemma_and_bound(self.0 >> 12, 0x7);
        }
        ((self.0 >> 12) & 0x7) as usize
    }

    pub open spec fn spec_w(&self) -> bool {
        ((self.0 >> 15) & 1) != 0
    }

    /// Whether a quantized load or store moves one value instead of a pair.
    #[verifier::when_used_as_spec(spec_w)]
    pub fn w(&self) -> (r: bool)
        ensures
            r == self.spec_w(),
    {
        ((self.0 >> 15) & 1) != 0
    }

    pub open spec fn spec_fm(&self) -> usize {
        ((self.0 >> 17) & 0xFF) as usize
    }

    /// The field mask of a move to the floating-point status register.
    #[verifier::when_used_as_spec(spec_fm)]
    pub fn fm(&self) -> (r: usize)
        ensures
            r == self.spec_fm(),
            r <= 0xFF,
    {
        proof {
            lemma_and_bound(self.0 >> 17, 0xFF);
        }
        ((self.0 >> 17) & 0xFF) as usize
    }

    /// The signed sixteen-bit immediate extended to a word in two's
    /// complement.
    pub open spec fn spec_simm_word(&self) -> u32 {
        let low: u32 = self.0 & 0xFFFF;
        if low >= 0x8000 {
            (low + 0xFFFF_0000) as u32
        } else {
            low
        }
    }

    /// The signed sixteen-bit immediate extended to a word in two's
    /// complement.
    #[verifier::when_used_as_spec(spec_simm_word)]
    pub fn simm_word(&self) -> (r: u32)
        ensures
            r == self.spec_simm_word(),
            crate::cpu::util::signed32(r) == self.simm(),
    {
        proof {
            lemma_and_bound(self.0, 0xFFFF);
        }
        let low: u32 = self.0 & 0xFFFF;
        if low >= 0x8000 {
            low + 0xFFFF_0000
        } else {
            low
        }
    }

    /// The unsigned sixteen-bit immediate as a word.
    pub open spec fn spec_uimm_word(&self) -> u32 {
        self.0 & 0xFFFF
    }

    /// The unsigned sixteen-bit immediate as a word.
    #[verifier::when_used_as_spec(spec_uimm_word)]
    pub fn uimm_word(&self) -> (r: u32)
        ensures
            r == self.spec_uimm_word(),
            r == self.uimm(),
            r <= 0xFFFF,
    {
        proof {
            lemma_and_bound(self.0, 0xFFFF);
        }
        self.0 & 0xFFFF
    }

    /// The fault that reports this word as one that is not modelled.
    pub open spec fn spec_fault(&self) -> Fault {
        Fault::UnimplementedOpcode { primary: self.opcd(), secondary: self.sec_opcd(), instruction: self.0 }
    }

    /// The fault that reports this word as one that is not modelled. It
    /// carries the word and both of its opcode fields.
    #[verifier::when_used_as_spec(spec_fault)]
    pub fn fault(&self) -> (r: Fault)
        ensures
            r == self.spec_fault(),
    {
        Fault::UnimplementedOpcode { primary: self.opcd(), secondary: self.sec_opcd(), instruction: self.0 }
    }
}

} // verus!
