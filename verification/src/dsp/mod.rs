pub mod client;
pub mod dsp_bitwise;
pub mod dsp_config;
pub mod dsp_control_flow;
pub mod dsp_int_arithmetic;
pub mod dsp_interface;
pub mod dsp_load_store;
pub mod dsp_misc;
pub mod stacks;
pub mod util;

use vstd::prelude::*;
use vstd::array::spec_array_update;
use crate::cpu::instr::lemma_and_bound;
use crate::dsp::client::DSPClient;
use crate::dsp::stacks::DSPStacks;
use crate::endian::read_be_u16;
use crate::fault::Fault;

verus! {

pub const REG_AR0: usize = 0;
pub const REG_AR1: usize = 1;
pub const REG_AR2: usize = 2;
pub const REG_AR3: usize = 3;
pub const REG_IX0: usize = 4;
pub const REG_IX1: usize = 5;
pub const REG_IX2: usize = 6;
pub const REG_IX3: usize = 7;
pub const REG_IX4: usize = 8;
pub const REG_ST0: usize = 12;
pub const REG_ST1: usize = 13;
pub const REG_ST2: usize = 14;
pub const REG_ST3: usize = 15;
pub const REG_AC0_H: usize = 16;
pub const REG_AC1_H: usize = 17;
pub const REG_CONFIG: usize = 18;
pub const REG_SR: usize = 19;
pub const REG_PROD_L: usize = 20;
pub const REG_PROD_M1: usize = 21;
pub const REG_PROD_H: usize = 22;
pub const REG_PROD_M2: usize = 23;
pub const REG_AX0_L: usize = 24;
pub const REG_AX1_L: usize = 25;
pub const REG_AX0_H: usize = 26;
pub const REG_AX1_H: usize = 27;
pub const REG_AC0_L: usize = 28;
pub const REG_AC1_L: usize = 29;
pub const REG_AC0_M: usize = 30;
pub const REG_AC1_M: usize = 31;

/// The carry flag of the status register.
pub const SR_CARRY: u16 = 0x1;

/// The overflow flag of the status register.
pub const SR_OVERFLOW: u16 = 0x2;

/// The zero flag of the status register.
pub const SR_ZERO: u16 = 0x4;

/// The sign flag of the status register.
pub const SR_SIGN: u16 = 0x8;

/// The flag of the status register for a result that does not fit 32 bits.
pub const SR_OVER_S32: u16 = 0x10;

/// The flag of the status register for a result whose top two bits are
/// equal.
pub const SR_TOP2_EQUAL: u16 = 0x20;

/// The logic zero flag of the status register.
pub const SR_LZ: u16 = 1 << 6;

/// The sticky overflow flag of the status register.
pub const SR_OVERFLOW_STICKY: u16 = 0x80;

/// The bit of the status register that makes a write of the middle part of
/// an accumulator extend to the whole accumulator, and a read of it
/// saturate.
pub const SR_EXTEND: u16 = 0x4000;

/// The address at which the DSP starts after a reset: the start of its
/// instruction ROM.
pub const ROM_ENTRY: u16 = 0x8000;

/// The number of bytes of the instruction ROM dump that the DSP takes in.
pub const IROM_DUMP_BYTES: usize = 0x1000;

/// How deep the steps of one step can nest.
pub const NESTING_LIMIT: u32 = 32;

/// How many turns a block loop can take, and how many steps one turn.
pub const LOOP_LIMIT: u32 = 0x1_0000;

/// The DSP control register, as both the CPU and the DSP see it.
#[derive(Clone, Copy, Debug, PartialEq, Eq, Structural)]
pub struct DSPControlRegister(pub u16);

impl DSPControlRegister {
    pub open spec fn spec_halt(&self) -> bool {
        ((self.0 >> 2) & 1) != 0
    }

    /// Whether the DSP is halted.
    #[verifier::when_used_as_spec(spec_halt)]
    pub fn halt(&self) -> (r: bool)
        ensures
            r == self.spec_halt(),
    {
        ((self.0 >> 2) & 1) != 0
    }

    pub open spec fn spec_set_halt(self) -> Self {
        Self(self.0 | 0x4)
    }

    /// Halts the DSP.
    pub fn set_halt(&mut self)
        ensures
            *final(self) == old(self).spec_set_halt(),
    {
        self.0 = self.0 | 0x4;
    }

    pub open spec fn spec_clear_halt(self) -> Self {
        Self(self.0 & !0x4u16)
    }

    /// Lets the DSP run.
    pub fn clear_halt(&mut self)
        ensures
            *final(self) == old(self).spec_clear_halt(),
    {
        self.0 = self.0 & !0x4u16;
    }

    pub open spec fn spec_reset(&self) -> bool {
        (self.0 & 1) != 0
    }

    /// Whether a reset of the DSP is pending.
    #[verifier::when_used_as_spec(spec_reset)]
    pub fn reset(&self) -> (r: bool)
        ensures
            r == self.spec_reset(),
    {
        (self.0 & 1) != 0
    }

    pub open spec fn spec_clear_reset(self) -> Self {
        Self(self.0 & !0x1u16)
    }

    /// Takes the pending reset back.
    pub fn clear_reset(&mut self)
        ensures
            *final(self) == old(self).spec_clear_reset(),
    {
        self.0 = self.0 & !0x1u16;
    }

    pub open spec fn spec_init(&self) -> bool {
        (self.0 & 0x0800) != 0
    }

    /// Whether the DSP is in its initialization phase.
    #[verifier::when_used_as_spec(spec_init)]
    pub fn init(&self) -> (r: bool)
        ensures
            r == self.spec_init(),
    {
        (self.0 & 0x0800) != 0
    }
}

/// The DSP: its registers, its program counter, its memories and its
/// stacks. The registers that it shares with the CPU, and audio RAM, which
/// holds its instruction RAM, belong to the machine; every step borrows
/// them.
pub struct DSP {
    pub registers: [u16; 32],
    pub pc: u16,
    pub dram: [u16; 0x1000],
    pub irom: [u16; 0x1000],
    pub drom: [u16; 0x0800],
    pub exceptions: u16,
    pub stacks: DSPStacks,
}

/// The DSP and the shared registers after an instruction or a step, and
/// how it ended.
pub struct Turn {
    pub dsp: DSP,
    pub client: DSPClient,
    pub res: Result<(), Fault>,
}

/// A stack pointer under its mask lies within the stack.
proof fn lemma_pointer_bound(p: usize)
    by (bit_vector)
    ensures
        p & 0x1f < 32,
{
}

/// The low byte of `val`, extended to a word in two's complement.
pub open spec fn spec_extended_byte(val: u16) -> u16 {
    let low: u32 = (val as u32) & 0xFF;
    if low >= 0x80 {
        (low + 0xFF00) as u16
    } else {
        low as u16
    }
}

/// The low byte of `val`, extended to a word in two's complement.
#[verifier::when_used_as_spec(spec_extended_byte)]
pub fn extended_byte(val: u16) -> (r: u16)
    ensures
        r == spec_extended_byte(val),
{
    proof {
        lemma_and_bound(val as u32, 0xFF);
    }
    let low: u32 = (val as u32) & 0xFF;
    if low >= 0x80 {
        (low + 0xFF00) as u16
    } else {
        low as u16
    }
}

/// The word `val` read in two's complement.
pub open spec fn spec_signed_word(val: u16) -> i16 {
    if val >= 0x8000 {
        (val - 0x1_0000) as i16
    } else {
        val as i16
    }
}

/// The word `val` read in two's complement.
#[verifier::when_used_as_spec(spec_signed_word)]
pub fn signed_word(val: u16) -> (r: i16)
    ensures
        r == spec_signed_word(val),
{
    if val >= 0x8000 {
        (val as i32 - 0x1_0000) as i16
    } else {
        val as i16
    }
}

impl DSP {
    /// The DSP at reset, and the registers that it shares with the CPU:
    /// halted, with a reset pending. The first half of the instruction ROM
    /// holds the big-endian words of the first `IROM_DUMP_BYTES` bytes of
    /// `irom_dump`; everything else is zero.
    pub fn new(irom_dump: &[u8]) -> (r: (Self, DSPClient))
        requires
            irom_dump@.len() >= IROM_DUMP_BYTES,
        ensures
            r.1 == (DSPClient { control_reg: DSPControlRegister(0x5), cpu_mbox_h: 0, cpu_mbox_l: 0, dsp_mbox_h: 0, dsp_mbox_l: 0 }),
            r.0.pc == 0 && r.0.exceptions == 0,
            forall|i: int| 0 <= i < 32 ==> r.0.registers[i] == 0,
            forall|i: int| 0 <= i < 0x1000 ==> r.0.dram[i] == 0,
            forall|i: int| 0 <= i < 0x0800 ==> r.0.drom[i] == 0,
            forall|i: int| 0 <= i < 0x0800 ==> r.0.irom[i] == crate::endian::be_u16(irom_dump@, 2 * i),
            forall|i: int| 0x0800 <= i < 0x1000 ==> r.0.irom[i] == 0,
            forall|s: int, i: int| 0 <= s < 4 && 0 <= i < 0x20 ==> r.0.stacks.stacks[s][i] == 0,
            forall|s: int| 0 <= s < 4 ==> r.0.stacks.pointers[s] == 0,
    {
        let mut irom: [u16; 0x1000] = [0;0x1000];
        let mut i: usize = 0;
        while i < 0x0800
            invariant
                i <= 0x0800,
                irom_dump@.len() >= IROM_DUMP_BYTES,
                forall|j: int| 0 <= j < i ==> irom[j] == crate::endian::be_u16(irom_dump@, 2 * j),
                forall|j: int| i <= j < 0x1000 ==> irom[j] == 0,
            decreases 0x0800 - i,
        {
            let val: u16 = read_be_u16(irom_dump, i * 2);
            irom[i] = val;
            i += 1;
        }
        (
            Self { registers: [0;32], pc: 0, dram: [0;0x1000], irom, drom: [0;0x0800], exceptions: 0, stacks: DSPStacks::new() },
            DSPClient { control_reg: DSPControlRegister(0x5), cpu_mbox_h: 0, cpu_mbox_l: 0, dsp_mbox_h: 0, dsp_mbox_l: 0 },
        )
    }

    /// The value of register `i`.
    pub open spec fn reg(self, i: usize) -> u16 {
        self.registers[i as int]
    }

    /// The DSP with register `i` holding `v`.
    pub open spec fn with_reg(self, i: usize, v: u16) -> Self {
        DSP { registers: spec_array_update(self.registers, i as int, v), ..self }
    }

    /// Writes register `i` directly.
    pub fn set_reg(&mut self, i: usize, v: u16)
        requires
            i < 32,
        ensures
            *final(self) == old(self).with_reg(i, v),
    {
        self.registers[i] = v;
        assert(self.registers =~= old(self).with_reg(i, v).registers);
    }

    /// The DSP with the program counter at `pc`.
    pub open spec fn at(self, pc: u16) -> Self {
        DSP { pc, ..self }
    }

    /// The DSP with the program counter `n` words further, modulo 2^16.
    pub open spec fn advanced(self, n: u16) -> Self {
        DSP { pc: self.pc.wrapping_add(n), ..self }
    }

    /// Moves the program counter `n` words further.
    pub fn advance(&mut self, n: u16)
        ensures
            *final(self) == old(self).advanced(n),
    {
        self.pc = self.pc.wrapping_add(n);
    }

    /// The DSP after `val` has been pushed on the stack `stack`: the stack
    /// pointer moves on by one, modulo 32, the old top goes to the word
    /// that it points to, and the stack register holds `val`.
    pub open spec fn spec_push_stack(self, stack: usize, val: u16) -> Self {
        let pointer: usize = self.stacks.pointers[stack as int].wrapping_add(1) & 0x1f;
        let row = spec_array_update(self.stacks.stacks[stack as int], pointer as int, self.reg((REG_ST0 + stack) as usize));
        DSP {
            stacks: DSPStacks {
                stacks: spec_array_update(self.stacks.stacks, stack as int, row),
                pointers: spec_array_update(self.stacks.pointers, stack as int, pointer),
            },
            ..self
        }.with_reg((REG_ST0 + stack) as usize, val)
    }

    /// Pushes `val` on the stack `stack`.
    pub fn push_stack(&mut self, stack: usize, val: u16)
        requires
            stack < 4,
        ensures
            *final(self) == old(self).spec_push_stack(stack, val),
    {
        let pointer: usize = self.stacks.pointers[stack].wrapping_add(1) & 0x1f;
        proof {
            lemma_pointer_bound(self.stacks.pointers[stack as int].wrapping_add(1));
        }
        self.stacks.pointers[stack] = pointer;
        let mut row: [u16; 0x20] = self.stacks.stacks[stack];
        row[pointer] = self.registers[REG_ST0 + stack];
        self.stacks.stacks[stack] = row;
        assert(row =~= old(self).spec_push_stack(stack, val).stacks.stacks[stack as int]);
        assert(self.stacks.stacks =~= old(self).spec_push_stack(stack, val).stacks.stacks);
        assert(self.stacks.pointers =~= old(self).spec_push_stack(stack, val).stacks.pointers);
        self.set_reg(REG_ST0 + stack, val);
    }

    /// The DSP after the top of the stack `stack` has been popped: the
    /// stack register holds the word that the stack pointer points to, and
    /// the stack pointer moves back by one, modulo 32.
    pub open spec fn spec_pop_stack(self, stack: usize) -> Self {
        let pointer: usize = self.stacks.pointers[stack as int];
        DSP {
            stacks: DSPStacks {
                pointers: spec_array_update(self.stacks.pointers, stack as int, pointer.wrapping_sub(1) & 0x1f),
                ..self.stacks
            },
            ..self
        }.with_reg((REG_ST0 + stack) as usize, self.stacks.stacks[stack as int][(pointer & 0x1f) as int])
    }

    /// Pops the top of the stack `stack`, which the stack register holds.
    pub fn pop_stack(&mut self, stack: usize) -> (val: u16)
        requires
            stack < 4,
        ensures
            val == old(self).reg((REG_ST0 + stack) as usize),
            *final(self) == old(self).spec_pop_stack(stack),
    {
        let val: u16 = self.registers[REG_ST0 + stack];
        let pointer: usize = self.stacks.pointers[stack];
        proof {
            lemma_pointer_bound(pointer);
        }
        let below: u16 = self.stacks.stacks[stack][pointer & 0x1f];
        self.stacks.pointers[stack] = pointer.wrapping_sub(1) & 0x1f;
        assert(self.stacks.pointers =~= old(self).spec_pop_stack(stack).stacks.pointers);
        self.set_reg(REG_ST0 + stack, below);
        val
    }

    pub open spec fn spec_acc(&self, acc: usize) -> u64 {
        ((self.reg((REG_AC0_H + acc) as usize) as u64) << 32) | ((self.reg((REG_AC0_M + acc) as usize) as u64) << 16) | (self.reg(
            (REG_AC0_L + acc) as usize,
        ) as u64)
    }

    /// The three parts of the accumulator `acc` as one word: the high part
    /// above the middle part above the low part.
    #[verifier::when_used_as_spec(spec_acc)]
    pub fn acc(&self, acc: usize) -> (r: u64)
        requires
            acc < 2,
        ensures
            r == self.spec_acc(acc),
    {
        let h: u64 = self.registers[REG_AC0_H + acc] as u64;
        let m: u64 = self.registers[REG_AC0_M + acc] as u64;
        let l: u64 = self.registers[REG_AC0_L + acc] as u64;
        (h << 32) | (m << 16) | l
    }

    /// The value of the 40-bit accumulator `acc`, read in two's complement:
    /// the low byte of the high part is its top.
    pub open spec fn spec_acc_value(&self, acc: usize) -> i64 {
        let top: int = (self.reg((REG_AC0_H + acc) as usize) as u32 & 0xFF) as int;
        (((if top >= 0x80 { top - 0x100 } else { top }) * 0x1_0000_0000) + self.reg((REG_AC0_M + acc) as usize) * 0x1_0000 + self.reg(
            (REG_AC0_L + acc) as usize,
        )) as i64
    }

    /// The value of the 40-bit accumulator `acc`, read in two's complement.
    #[verifier::when_used_as_spec(spec_acc_value)]
    pub fn acc_value(&self, acc: usize) -> (r: i64)
        requires
            acc < 2,
        ensures
            r == self.spec_acc_value(acc),
            -0x80_0000_0000 <= r < 0x80_0000_0000,
    {
        proof {
            lemma_and_bound(self.registers[(REG_AC0_H + acc) as int] as u32, 0xFF);
        }
        let top: i64 = ((self.registers[REG_AC0_H + acc] as u32) & 0xFF) as i64;
        let signed: i64 = if top >= 0x80 { top - 0x100 } else { top };
        signed * 0x1_0000_0000 + (self.registers[REG_AC0_M + acc] as i64) * 0x1_0000 + (self.registers[REG_AC0_L + acc] as i64)
    }

    /// What a read of register `reg` returns: for a stack register its
    /// value, which the read pops; for the middle part of an accumulator,
    /// with the extend bit of the status register set, the part saturated:
    /// where the accumulator does not fit 32 bits, the largest or the
    /// smallest 16-bit value by its sign; otherwise the value of the
    /// register.
    pub open spec fn spec_read_reg(self, reg: usize) -> (Self, u16) {
        if REG_ST0 <= reg <= REG_ST3 {
            (self.spec_pop_stack((reg - REG_ST0) as usize), self.reg(reg))
        } else if (reg == REG_AC0_M || reg == REG_AC1_M) && (self.reg(REG_SR) & SR_EXTEND) != 0 {
            let value: i64 = self.spec_acc_value((reg - REG_AC0_M) as usize);
            if value > 0x7FFF_FFFF {
                (self, 0x7fff)
            } else if value < -0x8000_0000 {
                (self, 0x8000)
            } else {
                (self, self.reg(reg))
            }
        } else {
            (self, self.reg(reg))
        }
    }

    /// Reads register `reg`.
    pub fn read_reg(&mut self, reg: usize) -> (val: u16)
        requires
            reg < 32,
        ensures
            (*final(self), val) == old(self).spec_read_reg(reg),
    {
        if REG_ST0 <= reg && reg <= REG_ST3 {
            self.pop_stack(reg - REG_ST0)
        } else if (reg == REG_AC0_M || reg == REG_AC1_M) && (self.registers[REG_SR] & SR_EXTEND) != 0 {
            let value: i64 = self.acc_value(reg - REG_AC0_M);
            if value > 0x7FFF_FFFF {
                0x7fff
            } else if value < -0x8000_0000 {
                0x8000
            } else {
                self.registers[reg]
            }
        } else {
            self.registers[reg]
        }
    }

    /// The DSP after a write of `val` to register `reg`: a write to a stack
    /// register pushes; the high part of an accumulator takes the low byte,
    /// extended in two's complement; the configuration register and the
    /// high part of the product take the low byte; the status register
    /// takes every bit but bit 8; any other register takes `val`.
    pub open spec fn spec_write_reg(self, reg: usize, val: u16) -> Self {
        if reg == REG_AC0_H || reg == REG_AC1_H {
            self.with_reg(reg, spec_extended_byte(val))
        } else if REG_ST0 <= reg <= REG_ST3 {
            self.spec_push_stack((reg - REG_ST0) as usize, val)
        } else if reg == REG_CONFIG || reg == REG_PROD_H {
            self.with_reg(reg, val & 0x00ff)
        } else if reg == REG_SR {
            self.with_reg(reg, val & !0x100u16)
        } else {
            self.with_reg(reg, val)
        }
    }

    /// Writes `val` to register `reg`.
    pub fn write_reg(&mut self, reg: usize, val: u16)
        requires
            reg < 32,
        ensures
            *final(self) == old(self).spec_write_reg(reg, val),
    {
        if reg == REG_AC0_H || reg == REG_AC1_H {
            self.set_reg(reg, extended_byte(val));
        } else if REG_ST0 <= reg && reg <= REG_ST3 {
            self.push_stack(reg - REG_ST0, val);
        } else if reg == REG_CONFIG || reg == REG_PROD_H {
            self.set_reg(reg, val & 0x00ff);
        } else if reg == REG_SR {
            self.set_reg(reg, val & !0x100u16);
        } else {
            self.set_reg(reg, val);
        }
    }

    /// The flags that the status register takes for the result `res` of an
    /// operation, with its carry and its overflow: carry; overflow, and
    /// with it the sticky overflow; zero; sign; whether the result does not
    /// fit 32 bits; whether its bits 31 and 30 are equal.
    pub open spec fn result_flags(res: i64, carry: bool, overflow: bool) -> u16 {
        let top2: u128 = (((res + 0x1_0000_0000_0000_0000) as u128) >> 30) & 3;
        (if carry { SR_CARRY } else { 0u16 }) | (if overflow { 0x82u16 } else { 0u16 }) | (if res == 0 { SR_ZERO } else { 0u16 }) | (if res
            < 0 { SR_SIGN } else { 0u16 }) | (if res > 0x7FFF_FFFF || res < -0x8000_0000 { SR_OVER_S32 } else { 0u16 }) | (if top2 == 0
            || top2 == 3 { SR_TOP2_EQUAL } else { 0u16 })
    }

    /// The DSP after the status register has recorded the result `res`: its
    /// low six bits are replaced by the flags of the result, and the sticky
    /// overflow is set on overflow; the other bits stay.
    pub open spec fn spec_do_sr(self, res: i64, carry: bool, overflow: bool) -> Self {
        self.with_reg(REG_SR, (self.reg(REG_SR) & !0x3fu16) | Self::result_flags(res, carry, overflow))
    }

    /// Records the result `res` of an operation, with its carry and its
    /// overflow, in the status register.
    pub fn do_sr(&mut self, res: i64, carry: bool, overflow: bool)
        ensures
            *final(self) == old(self).spec_do_sr(res, carry, overflow),
    {
        let wide: u128 = (res as i128 + 0x1_0000_0000_0000_0000) as u128;
        let top2: u128 = (wide >> 30) & 3;
        let c: u16 = if carry { SR_CARRY } else { 0 };
        let o: u16 = if overflow { 0x82 } else { 0 };
        let z: u16 = if res == 0 { SR_ZERO } else { 0 };
        let s: u16 = if res < 0 { SR_SIGN } else { 0 };
        let w: u16 = if res > 0x7FFF_FFFF || res < -0x8000_0000 { SR_OVER_S32 } else { 0 };
        let t: u16 = if top2 == 0 || top2 == 3 { SR_TOP2_EQUAL } else { 0 };
        let sr: u16 = (self.registers[REG_SR] & !0x3fu16) | (c | o | z | s | w | t);
        self.set_reg(REG_SR, sr);
    }

    /// What a fetch of the instruction word at `addr` returns: a word of
    /// instruction RAM, which is the start of audio RAM, in big-endian
    /// order, for an address below `0x1000`; a word of instruction ROM for
    /// an address from `0x8000` to `0x8FFF`. Any other address is reported.
    pub open spec fn spec_imem_read(&self, aram: Seq<u8>, addr: u16) -> Result<u16, Fault> {
        if addr >> 12 == 0x0 {
            if ((addr & 0x0FFF) as int) * 2 + 2 <= aram.len() {
                Ok(crate::endian::be_u16(aram, ((addr & 0x0FFF) as int) * 2))
            } else {
                Err(Fault::UnimplementedDspAddress { dsp_address: addr })
            }
        } else if addr >> 12 == 0x8 {
            Ok(self.irom[(addr & 0x0FFF) as int])
        } else {
            Err(Fault::UnimplementedDspAddress { dsp_address: addr })
        }
    }

    /// Fetches the instruction word at `addr`.
    pub fn imem_read(&self, aram: &Vec<u8>, addr: u16) -> (res: Result<u16, Fault>)
        ensures
            res == self.spec_imem_read(aram@, addr),
    {
        proof {
            assert((addr & 0x0FFF) < 0x1000) by (bit_vector);
        }
        if addr >> 12 == 0x0 {
            let at: usize = ((addr & 0x0FFF) as usize) * 2;
            if at + 2 <= aram.len() {
                Ok(read_be_u16(aram.as_slice(), at))
            } else {
                Err(Fault::UnimplementedDspAddress { dsp_address: addr })
            }
        } else if addr >> 12 == 0x8 {
            Ok(self.irom[(addr & 0x0FFF) as usize])
        } else {
            Err(Fault::UnimplementedDspAddress { dsp_address: addr })
        }
    }

    /// Whether the condition with the code `c` holds: 5 for a set zero
    /// flag, 12 for a clear logic zero flag, 15 always. Any other code is
    /// reported.
    pub open spec fn spec_condition(&self, c: u16) -> Result<bool, Fault> {
        if c == 0b0101 {
            Ok((self.reg(REG_SR) & SR_ZERO) != 0)
        } else if c == 0b1100 {
            Ok(!((self.reg(REG_SR) & SR_LZ) != 0))
        } else if c == 0b1111 {
            Ok(true)
        } else {
            Err(Fault::UnimplementedDspCondition { code: c })
        }
    }

    /// Evaluates the condition with the code `c`.
    #[verifier::when_used_as_spec(spec_condition)]
    pub fn condition(&self, c: u16) -> (res: Result<bool, Fault>)
        ensures
            res == self.spec_condition(c),
    {
        if c == 0b0101 {
            Ok((self.registers[REG_SR] & SR_ZERO) != 0)
        } else if c == 0b1100 {
            Ok(!((self.registers[REG_SR] & SR_LZ) != 0))
        } else if c == 0b1111 {
            Ok(true)
        } else {
            Err(Fault::UnimplementedDspCondition { code: c })
        }
    }

    /// What a read of the data word at `addr` returns: a word of data RAM
    /// for an address below `0x1000`; a half of a mailbox for its address
    /// at the top of the address space. Any other address is reported.
    pub open spec fn spec_dmem_read(&self, client: &DSPClient, addr: u16) -> Result<u16, Fault> {
        if addr >> 12 == 0x0 {
            Ok(self.dram[(addr & 0x0FFF) as int])
        } else if addr == 0xFFFC {
            Ok(client.dsp_mbox_h)
        } else if addr == 0xFFFE {
            Ok(client.cpu_mbox_h)
        } else if addr == 0xFFFF {
            Ok(client.cpu_mbox_l)
        } else {
            Err(Fault::UnimplementedDspAddress { dsp_address: addr })
        }
    }

    /// Reads the data word at `addr`.
    #[verifier::when_used_as_spec(spec_dmem_read)]
    pub fn dmem_read(&self, client: &DSPClient, addr: u16) -> (res: Result<u16, Fault>)
        ensures
            res == self.spec_dmem_read(client, addr),
    {
        proof {
            assert((addr & 0x0FFF) < 0x1000) by (bit_vector);
        }
        if addr >> 12 == 0x0 {
            Ok(self.dram[(addr & 0x0FFF) as usize])
        } else if addr == 0xFFFC {
            Ok(client.dsp_mbox_h)
        } else if addr == 0xFFFE {
            Ok(client.cpu_mbox_h)
        } else if addr == 0xFFFF {
            Ok(client.cpu_mbox_l)
        } else {
            Err(Fault::UnimplementedDspAddress { dsp_address: addr })
        }
    }

    /// What a write of `val` to the data word at `addr` makes of the DSP
    /// and of the shared registers: the word in data RAM for an address
    /// below `0x1000`; a half of the DSP mailbox for its address. Any other
    /// address is reported and changes nothing.
    pub open spec fn spec_dmem_write(self, client: DSPClient, addr: u16, val: u16) -> Turn {
        if addr >> 12 == 0x0 {
            Turn { dsp: DSP { dram: spec_array_update(self.dram, (addr & 0x0FFF) as int, val), ..self }, client, res: Ok(()) }
        } else if addr == 0xFFFC {
            Turn { dsp: self, client: DSPClient { dsp_mbox_h: val, ..client }, res: Ok(()) }
        } else if addr == 0xFFFD {
            Turn { dsp: self, client: DSPClient { dsp_mbox_l: val, ..client }, res: Ok(()) }
        } else {
            Turn { dsp: self, client, res: Err(Fault::UnimplementedDspAddress { dsp_address: addr }) }
        }
    }

    /// Writes `val` to the data word at `addr`.
    pub fn dmem_write(&mut self, client: &mut DSPClient, addr: u16, val: u16) -> (res: Result<(), Fault>)
        ensures
            (Turn { dsp: *final(self), client: *final(client), res }) == old(self).spec_dmem_write(*old(client), addr, val),
    {
        proof {
            assert((addr & 0x0FFF) < 0x1000) by (bit_vector);
        }
        if addr >> 12 == 0x0 {
            self.dram[(addr & 0x0FFF) as usize] = val;
            assert(self.dram =~= old(self).spec_dmem_write(*old(client), addr, val).dsp.dram);
            Ok(())
        } else if addr == 0xFFFC {
            client.dsp_mbox_h = val;
            Ok(())
        } else if addr == 0xFFFD {
            client.dsp_mbox_l = val;
            Ok(())
        } else {
            Err(Fault::UnimplementedDspAddress { dsp_address: addr })
        }
    }
}

/// The field of the instruction word `word` that lies `shift` bits up and
/// has the width of `mask`.
pub open spec fn spec_field(word: u16, shift: u32, mask: u32) -> u16 {
    (((word as u32) >> shift) & mask) as u16
}

/// Extracts a field of an instruction word.
#[verifier::when_used_as_spec(spec_field)]
pub fn field(word: u16, shift: u32, mask: u32) -> (r: u16)
    requires
        shift < 16,
        mask <= 0xFF,
    ensures
        r == spec_field(word, shift, mask),
        r <= mask,
{
    proof {
        lemma_and_bound((word as u32) >> shift, mask);
    }
    (((word as u32) >> shift) & mask) as u16
}

/// A turn that ended well.
pub open spec fn done(dsp: DSP, client: DSPClient) -> Turn {
    Turn { dsp, client, res: Ok(()) }
}

/// The turn of an instruction that leaves the shared registers alone.
pub open spec fn turned(outcome: (DSP, Result<(), Fault>), client: DSPClient) -> Turn {
    Turn { dsp: outcome.0, client, res: outcome.1 }
}

/// The turn of an instruction with an extension: the instruction has run,
/// and an extension other than the empty one is reported.
pub open spec fn extended(dsp: DSP, client: DSPClient, word: u16) -> Turn {
    Turn { dsp, client, res: extension_result(word) }
}

/// How the extension of the instruction `word`, its low byte, ends: only
/// the empty extension is modelled, and any other is reported.
pub open spec fn extension_result(word: u16) -> Result<(), Fault> {
    if spec_field(word, 0, 0xFF) == 0 {
        Ok(())
    } else {
        Err(Fault::UnimplementedDspOpcode { word })
    }
}

/// The fault of a step that nests deeper, or loops longer, than its limits
/// allow.
pub open spec fn exhausted(dsp: DSP, client: DSPClient) -> Turn {
    Turn { dsp, client, res: Err(Fault::DspBudgetExhausted) }
}

/// What one step makes of the DSP and of the shared registers, with
/// `depth` levels of nesting left. A pending reset moves the program
/// counter to the ROM entry point and is taken back. A halted DSP does
/// nothing more. Otherwise the word at the program counter is fetched and
/// executed; a fetch that fails is reported.
pub open spec fn spec_step(dsp: DSP, client: DSPClient, aram: Seq<u8>, depth: nat) -> Turn
    decreases depth, 0nat, 0nat,
{
    let started: DSP = if client.control_reg.reset() { dsp.at(ROM_ENTRY) } else { dsp };
    let shared: DSPClient = if client.control_reg.reset() {
        DSPClient { control_reg: client.control_reg.spec_clear_reset(), ..client }
    } else {
        client
    };
    if shared.control_reg.halt() {
        done(started, shared)
    } else if depth == 0 {
        exhausted(started, shared)
    } else {
        match started.spec_imem_read(aram, started.pc) {
            Err(f) => Turn { dsp: started, client: shared, res: Err(f) },
            Ok(word) => spec_execute(started, shared, aram, word, (depth - 1) as nat),
        }
    }
}

/// What the instruction `word` makes of the DSP and of the shared
/// registers. The first pattern that the word matches selects the
/// instruction. A word that matches none is reported and changes nothing.
pub open spec fn spec_execute(dsp: DSP, client: DSPClient, aram: Seq<u8>, word: u16, depth: nat) -> Turn
    decreases depth, 5nat, 0nat,
{
    if word == 0 {
        done(dsp.advanced(1), client)
    } else if word & 0xFFFC == 0x0004 {
        done(dsp.spec_op_dar(spec_field(word, 0, 3)), client)
    } else if word & 0xFFFC == 0x0008 {
        done(dsp.spec_op_iar(spec_field(word, 0, 3)), client)
    } else if word & 0xFFF0 == 0x0010 {
        done(dsp.spec_op_addarn(spec_field(word, 2, 3), spec_field(word, 0, 3)), client)
    } else if word == 0x0021 {
        Turn { dsp: dsp.advanced(1), client: DSPClient { control_reg: client.control_reg.spec_set_halt(), ..client }, res: Ok(()) }
    } else if word & 0xFFE0 == 0x0040 {
        spec_op_loop(dsp, client, aram, spec_field(word, 0, 0x1F), depth)
    } else if word & 0xFFE0 == 0x0060 {
        spec_op_bloop(dsp, client, aram, spec_field(word, 0, 0x1F), depth)
    } else if word & 0xFFE0 == 0x0080 {
        turned(dsp.spec_op_lri(aram, spec_field(word, 0, 0x1F)), client)
    } else if word & 0xFFE0 == 0x00C0 {
        turned(dsp.spec_op_lr(&client, aram, spec_field(word, 0, 0x1F)), client)
    } else if word & 0xFFE0 == 0x00E0 {
        dsp.spec_op_sr(client, aram, spec_field(word, 0, 0x1F))
    } else if word & 0xFEF0 == 0x0210 {
        turned(dsp.spec_op_ilrr(aram, spec_field(word, 8, 1), spec_field(word, 0, 3), ilrr_change(dsp, word)), client)
    } else if word & 0xFFF0 == 0x0270 {
        spec_op_if(dsp, client, aram, spec_field(word, 0, 0xF), depth)
    } else if word & 0xFFF0 == 0x0290 {
        turned(dsp.spec_op_j(aram, spec_field(word, 0, 0xF)), client)
    } else if word & 0xFFF0 == 0x02B0 {
        turned(dsp.spec_op_call(aram, spec_field(word, 0, 0xF)), client)
    } else if word & 0xFFF0 == 0x02D0 {
        turned(dsp.spec_op_ret(spec_field(word, 0, 0xF)), client)
    } else if word & 0xFEFF == 0x02A0 {
        turned(dsp.spec_op_andcf(aram, spec_field(word, 8, 1)), client)
    } else if word & 0xFEFF == 0x02C0 {
        turned(dsp.spec_op_andf(aram, spec_field(word, 8, 1)), client)
    } else if word & 0xFFF8 == 0x1200 {
        done(dsp.spec_op_sbset(spec_field(word, 0, 7)), client)
    } else if word & 0xFF00 == 0x1600 {
        dsp.spec_op_si(client, aram, spec_field(word, 0, 0xFF))
    } else if word & 0xFF80 == 0x1900 {
        turned(dsp.spec_op_lrri(&client, spec_field(word, 5, 3), spec_field(word, 0, 0x1F)), client)
    } else if word & 0xFC00 == 0x1C00 {
        done(dsp.spec_op_mrr(spec_field(word, 5, 0x1F), spec_field(word, 0, 0x1F)), client)
    } else if word & 0xF800 == 0x2000 {
        turned(dsp.spec_op_lrs(&client, spec_field(word, 8, 7), spec_field(word, 0, 0xFF)), client)
    } else if word & 0xF800 == 0x2800 {
        dsp.spec_op_srs(client, spec_field(word, 8, 7), spec_field(word, 0, 0xFF))
    } else {
        spec_execute_extended(dsp, client, word)
    }
}

/// What the instruction `word` makes of the DSP, for the instructions that
/// have an extension. A word that matches none of them is reported and
/// changes nothing.
pub open spec fn spec_execute_extended(dsp: DSP, client: DSPClient, word: u16) -> Turn {
    if word & 0xF700 == 0x8100 {
        extended(dsp.spec_op_clr(spec_field(word, 11, 1)), client, word)
    } else if word & 0xFF00 == 0x8200 {
        extended(dsp.spec_op_cmp(), client, word)
    } else if word & 0xF800 == 0x8800 {
        extended(dsp.spec_op_srbit(spec_field(word, 8, 7)), client, word)
    } else {
        Turn { dsp, client, res: Err(Fault::UnimplementedDspOpcode { word }) }
    }
}

/// What the instruction `ILRR` with the word `word` adds to its address
/// register after the load: nothing, minus one, one, or the index register
/// that belongs to the address register, read in two's complement.
pub open spec fn ilrr_change(dsp: DSP, word: u16) -> i16 {
    let mode: u16 = spec_field(word, 2, 3);
    if mode == 0 {
        0i16
    } else if mode == 1 {
        (0 - 1) as i16
    } else if mode == 2 {
        1i16
    } else {
        spec_signed_word(dsp.reg((spec_field(word, 0, 3) + 4) as usize))
    }
}

/// `IF`: the program counter moves on; where the condition `c` holds, the
/// instruction that follows is executed as a step of its own, and
/// otherwise it is skipped. A condition that fails is reported.
pub open spec fn spec_op_if(dsp: DSP, client: DSPClient, aram: Seq<u8>, c: u16, depth: nat) -> Turn
    decreases depth, 4nat, 0nat,
{
    let next: DSP = dsp.advanced(1);
    match next.spec_condition(c) {
        Err(f) => Turn { dsp: next, client, res: Err(f) },
        Ok(true) => spec_step(next, client, aram, depth),
        Ok(false) => done(next.advanced(1), client),
    }
}

/// What `n` steps in a row make of the DSP and of the shared registers. A
/// step that fails ends them.
pub open spec fn loop_steps(dsp: DSP, client: DSPClient, aram: Seq<u8>, n: nat, depth: nat) -> Turn
    decreases depth, 1nat, n,
{
    if n == 0 {
        done(dsp, client)
    } else {
        let turn = spec_step(dsp, client, aram, depth);
        if turn.res is Err {
            turn
        } else {
            loop_steps(turn.dsp, turn.client, aram, (n - 1) as nat, depth)
        }
    }
}

/// `LOOP`: the program counter moves on, as many steps are executed as
/// register `r` says, and the program counter moves on once more.
pub open spec fn spec_op_loop(dsp: DSP, client: DSPClient, aram: Seq<u8>, r: u16, depth: nat) -> Turn
    decreases depth, 4nat, 0nat,
{
    let turn = loop_steps(dsp.advanced(1), client, aram, dsp.reg(r as usize) as nat, depth);
    if turn.res is Err {
        turn
    } else {
        Turn { dsp: turn.dsp.advanced(1), ..turn }
    }
}

/// What the steps of one turn of a block loop make of the DSP and of the
/// shared registers: steps are executed until the program counter is at
/// the end of the block, which the third stack register holds. A turn
/// takes at most `turns` steps.
pub open spec fn bloop_inner(dsp: DSP, client: DSPClient, aram: Seq<u8>, turns: nat, depth: nat) -> Turn
    decreases depth, 2nat, turns,
{
    if dsp.pc == dsp.reg(REG_ST2) {
        done(dsp, client)
    } else if turns == 0 {
        exhausted(dsp, client)
    } else {
        let turn = spec_step(dsp, client, aram, depth);
        if turn.res is Err {
            turn
        } else {
            bloop_inner(turn.dsp, turn.client, aram, (turns - 1) as nat, depth)
        }
    }
}

/// What the turns of a block loop make of the DSP and of the shared
/// registers: while the counter, which the fourth stack register holds, is
/// not zero, it is decremented, one turn is taken, and the program counter
/// goes back to the start of the block, which the first stack register
/// holds. A block loop takes at most `turns` turns.
pub open spec fn bloop_outer(dsp: DSP, client: DSPClient, aram: Seq<u8>, turns: nat, depth: nat) -> Turn
    decreases depth, 3nat, turns,
{
    if dsp.reg(REG_ST3) == 0 {
        done(dsp, client)
    } else if turns == 0 {
        exhausted(dsp, client)
    } else {
        let turn = bloop_inner(dsp.with_reg(REG_ST3, (dsp.reg(REG_ST3) - 1) as u16), client, aram, LOOP_LIMIT as nat, depth);
        if turn.res is Err {
            turn
        } else {
            bloop_outer(turn.dsp.at(turn.dsp.reg(REG_ST0)), turn.client, aram, (turns - 1) as nat, depth)
        }
    }
}

/// `BLOOP`: the first stack register takes the address after the
/// instruction, the third the end of the block, which follows the
/// instruction, and the fourth the count, which register `r` holds. The
/// block is executed as often as the count says, and the program counter
/// goes to the word after the end of the block. A fetch of the end of the
/// block that fails is reported.
pub open spec fn spec_op_bloop(dsp: DSP, client: DSPClient, aram: Seq<u8>, r: u16, depth: nat) -> Turn
    decreases depth, 4nat, 0nat,
{
    let marked: DSP = dsp.with_reg(REG_ST0, dsp.pc.wrapping_add(2));
    match marked.spec_imem_read(aram, marked.pc.wrapping_add(1)) {
        Err(f) => Turn { dsp: marked, client, res: Err(f) },
        Ok(end) => {
            let bounded: DSP = marked.with_reg(REG_ST2, end);
            let counted: DSP = bounded.with_reg(REG_ST3, bounded.reg(r as usize));
            left_block(bloop_outer(counted.advanced(2), client, aram, LOOP_LIMIT as nat, depth), end)
        },
    }
}

/// The turn of a block loop whose turns have ended with `turn`: where they
/// ended well, the program counter goes to the word after `end`.
pub open spec fn left_block(turn: Turn, end: u16) -> Turn {
    if turn.res is Err {
        turn
    } else {
        Turn { dsp: turn.dsp.at(end.wrapping_add(1)), ..turn }
    }
}

impl DSP {
    /// Executes one step: a pending reset is taken, a halted DSP does
    /// nothing, and otherwise one instruction is fetched and executed. An
    /// instruction that loops or nests runs to its end within this step.
    pub fn step(&mut self, client: &mut DSPClient, aram: &Vec<u8>) -> (res: Result<(), Fault>)
        ensures
            (Turn { dsp: *final(self), client: *final(client), res }) == spec_step(*old(self), *old(client), aram@, NESTING_LIMIT as nat),
    {
        self.step_within(client, aram, NESTING_LIMIT)
    }

    /// Executes one step with `depth` levels of nesting left.
    pub fn step_within(&mut self, client: &mut DSPClient, aram: &Vec<u8>, depth: u32) -> (res: Result<(), Fault>)
        ensures
            (Turn { dsp: *final(self), client: *final(client), res }) == spec_step(*old(self), *old(client), aram@, depth as nat),
        decreases depth, 0nat, 0nat,
    {
        if client.control_reg.reset() {
            self.pc = ROM_ENTRY;
            client.control_reg.clear_reset();
        }
        if client.control_reg.halt() {
            return Ok(());
        }
        if depth == 0 {
            return Err(Fault::DspBudgetExhausted);
        }
        let word: u16 = self.imem_read(aram, self.pc)?;
        self.execute(client, aram, word, depth - 1)
    }

    /// Executes the instruction `word`.
    pub fn execute(&mut self, client: &mut DSPClient, aram: &Vec<u8>, word: u16, depth: u32) -> (res: Result<(), Fault>)
        ensures
            (Turn { dsp: *final(self), client: *final(client), res }) == spec_execute(*old(self), *old(client), aram@, word, depth as nat),
        decreases depth, 5nat, 0nat,
    {
        if word == 0 {
            self.advance(1);
            Ok(())
        } else if word & 0xFFFC == 0x0004 {
            self.op_dar(field(word, 0, 3));
            Ok(())
        } else if word & 0xFFFC == 0x0008 {
            self.op_iar(field(word, 0, 3));
            Ok(())
        } else if word & 0xFFF0 == 0x0010 {
            self.op_addarn(field(word, 2, 3), field(word, 0, 3));
            Ok(())
        } else if word == 0x0021 {
            self.op_halt(client);
            Ok(())
        } else if word & 0xFFE0 == 0x0040 {
            self.op_loop(client, aram, field(word, 0, 0x1F), depth)
        } else if word & 0xFFE0 == 0x0060 {
            self.op_bloop(client, aram, field(word, 0, 0x1F), depth)
        } else if word & 0xFFE0 == 0x0080 {
            self.op_lri(aram, field(word, 0, 0x1F))
        } else if word & 0xFFE0 == 0x00C0 {
            self.op_lr(client, aram, field(word, 0, 0x1F))
        } else if word & 0xFFE0 == 0x00E0 {
            self.op_sr(client, aram, field(word, 0, 0x1F))
        } else if word & 0xFEF0 == 0x0210 {
            let mode: u16 = field(word, 2, 3);
            let s: u16 = field(word, 0, 3);
            let change_by: i16 = if mode == 0 {
                0
            } else if mode == 1 {
                -1
            } else if mode == 2 {
                1
            } else {
                signed_word(self.registers[(s + 4) as usize])
            };
            self.op_ilrr(aram, field(word, 8, 1), s, change_by)
        } else if word & 0xFFF0 == 0x0270 {
            self.op_if(client, aram, field(word, 0, 0xF), depth)
        } else if word & 0xFFF0 == 0x0290 {
            self.op_j(aram, field(word, 0, 0xF))
        } else if word & 0xFFF0 == 0x02B0 {
            self.op_call(aram, field(word, 0, 0xF))
        } else if word & 0xFFF0 == 0x02D0 {
            self.op_ret(field(word, 0, 0xF))
        } else if word & 0xFEFF == 0x02A0 {
            self.op_andcf(aram, field(word, 8, 1))
        } else if word & 0xFEFF == 0x02C0 {
            self.op_andf(aram, field(word, 8, 1))
        } else if word & 0xFFF8 == 0x1200 {
            self.op_sbset(field(word, 0, 7));
            Ok(())
        } else if word & 0xFF00 == 0x1600 {
            self.op_si(client, aram, field(word, 0, 0xFF))
        } else if word & 0xFF80 == 0x1900 {
            self.op_lrri(client, field(word, 5, 3), field(word, 0, 0x1F))
        } else if word & 0xFC00 == 0x1C00 {
            self.op_mrr(field(word, 5, 0x1F), field(word, 0, 0x1F));
            Ok(())
        } else if word & 0xF800 == 0x2000 {
            self.op_lrs(client, field(word, 8, 7), field(word, 0, 0xFF))
        } else if word & 0xF800 == 0x2800 {
            self.op_srs(client, field(word, 8, 7), field(word, 0, 0xFF))
        } else {
            self.execute_extended(client, word)
        }
    }

    /// Executes the instruction `word`, if it is one of those that have an
    /// extension.
    pub fn execute_extended(&mut self, client: &DSPClient, word: u16) -> (res: Result<(), Fault>)
        ensures
            (Turn { dsp: *final(self), client: *client, res }) == spec_execute_extended(*old(self), *client, word),
    {
        if word & 0xF700 == 0x8100 {
            self.op_clr(field(word, 11, 1));
            self.extension(word)
        } else if word & 0xFF00 == 0x8200 {
            self.op_cmp();
            self.extension(word)
        } else if word & 0xF800 == 0x8800 {
            self.op_srbit(field(word, 8, 7));
            self.extension(word)
        } else {
            Err(Fault::UnimplementedDspOpcode { word })
        }
    }

    /// Executes the extension of the instruction `word`.
    pub fn extension(&self, word: u16) -> (res: Result<(), Fault>)
        ensures
            res == extension_result(word),
    {
        if field(word, 0, 0xFF) == 0 {
            Ok(())
        } else {
            Err(Fault::UnimplementedDspOpcode { word })
        }
    }

    /// Executes `IF`.
    pub fn op_if(&mut self, client: &mut DSPClient, aram: &Vec<u8>, c: u16, depth: u32) -> (res: Result<(), Fault>)
        ensures
            (Turn { dsp: *final(self), client: *final(client), res }) == spec_op_if(*old(self), *old(client), aram@, c, depth as nat),
        decreases depth, 4nat, 0nat,
    {
        self.advance(1);
        if self.condition(c)? {
            self.step_within(client, aram, depth)
        } else {
            self.advance(1);
            Ok(())
        }
    }

    /// Executes `LOOP`.
    pub fn op_loop(&mut self, client: &mut DSPClient, aram: &Vec<u8>, r: u16, depth: u32) -> (res: Result<(), Fault>)
        requires
            r < 32,
        ensures
            (Turn { dsp: *final(self), client: *final(client), res }) == spec_op_loop(*old(self), *old(client), aram@, r, depth as nat),
        decreases depth, 4nat, 0nat,
    {
        let count: u16 = self.registers[r as usize];
        self.advance(1);
        let ghost start: DSP = *self;
        let mut left: u16 = count;
        while left != 0
            invariant
                start == old(self).advanced(1),
                count == old(self).reg(r as usize),
                loop_steps(start, *old(client), aram@, count as nat, depth as nat) == loop_steps(*self, *client, aram@, left as nat, depth as nat),
            decreases left,
        {
            match self.step_within(client, aram, depth) {
                Err(f) => {
                    return Err(f);
                },
                Ok(()) => {},
            }
            left -= 1;
        }
        self.advance(1);
        Ok(())
    }

    /// Takes one turn of a block loop.
    fn block_turn(&mut self, client: &mut DSPClient, aram: &Vec<u8>, depth: u32) -> (res: Result<(), Fault>)
        ensures
            (Turn { dsp: *final(self), client: *final(client), res }) == bloop_inner(*old(self), *old(client), aram@, LOOP_LIMIT as nat, depth as nat),
        decreases depth, 2nat, 0nat,
    {
        let mut turns: u32 = LOOP_LIMIT;
        while self.pc != self.registers[REG_ST2]
            invariant
                turns <= LOOP_LIMIT,
                bloop_inner(*old(self), *old(client), aram@, LOOP_LIMIT as nat, depth as nat) == bloop_inner(*self, *client, aram@, turns as nat, depth as nat),
            decreases turns,
        {
            if turns == 0 {
                return Err(Fault::DspBudgetExhausted);
            }
            match self.step_within(client, aram, depth) {
                Err(f) => {
                    return Err(f);
                },
                Ok(()) => {},
            }
            turns -= 1;
        }
        Ok(())
    }

    /// Executes `BLOOP`.
    pub fn op_bloop(&mut self, client: &mut DSPClient, aram: &Vec<u8>, r: u16, depth: u32) -> (res: Result<(), Fault>)
        requires
            r < 32,
        ensures
            (Turn { dsp: *final(self), client: *final(client), res }) == spec_op_bloop(*old(self), *old(client), aram@, r, depth as nat),
        decreases depth, 4nat, 0nat,
    {
        let back: u16 = self.pc.wrapping_add(2);
        self.set_reg(REG_ST0, back);
        let end: u16 = self.imem_read(aram, self.pc.wrapping_add(1))?;
        self.set_reg(REG_ST2, end);
        let count: u16 = self.registers[r as usize];
        self.set_reg(REG_ST3, count);
        self.advance(2);
        let ghost start: DSP = *self;
        let mut turns: u32 = LOOP_LIMIT;
        while self.registers[REG_ST3] != 0
            invariant
                turns <= LOOP_LIMIT,
                spec_op_bloop(*old(self), *old(client), aram@, r, depth as nat) == left_block(
                    bloop_outer(start, *old(client), aram@, LOOP_LIMIT as nat, depth as nat),
                    end,
                ),
                bloop_outer(start, *old(client), aram@, LOOP_LIMIT as nat, depth as nat) == bloop_outer(*self, *client, aram@, turns as nat, depth as nat),
            decreases turns,
        {
            if turns == 0 {
                return Err(Fault::DspBudgetExhausted);
            }
            let counter: u16 = self.registers[REG_ST3] - 1;
            self.set_reg(REG_ST3, counter);
            match self.block_turn(client, aram, depth) {
                Err(f) => {
                    return Err(f);
                },
                Ok(()) => {},
            }
            self.pc = self.registers[REG_ST0];
            turns -= 1;
        }
        self.pc = end.wrapping_add(1);
        Ok(())
    }
}

} // verus!
