use vstd::prelude::*;
use crate::dsp::client::DSPClient;
use crate::dsp::{extended_byte, spec_extended_byte, Turn, DSP, REG_AC0_M, REG_AC1_M, REG_CONFIG};
use crate::fault::Fault;

verus! {

impl DSP {
    /// `LRI`: register `d` is written with the immediate word that follows
    /// the instruction. A fetch that fails is reported and changes nothing.
    pub open spec fn spec_op_lri(self, aram: Seq<u8>, d: u16) -> (Self, Result<(), Fault>) {
        match self.spec_imem_read(aram, self.pc.wrapping_add(1)) {
            Err(f) => (self, Err(f)),
            Ok(imm) => (self.spec_write_reg(d as usize, imm).spec_conditional_extend_accum(d as usize).advanced(2), Ok(())),
        }
    }

    /// Executes `LRI`.
    pub fn op_lri(&mut self, aram: &Vec<u8>, d: u16) -> (res: Result<(), Fault>)
        requires
            d < 32,
        ensures
            (*final(self), res) == old(self).spec_op_lri(aram@, d),
    {
        let imm: u16 = self.imem_read(aram, self.pc.wrapping_add(1))?;
        self.write_reg(d as usize, imm);
        self.conditional_extend_accum(d as usize);
        self.advance(2);
        Ok(())
    }

    /// `LR`: register `d` is written with the data word at the address that
    /// follows the instruction. A fetch or a read that fails is reported
    /// and changes nothing.
    pub open spec fn spec_op_lr(self, client: &DSPClient, aram: Seq<u8>, d: u16) -> (Self, Result<(), Fault>) {
        match self.spec_imem_read(aram, self.pc.wrapping_add(1)) {
            Err(f) => (self, Err(f)),
            Ok(addr) => match self.spec_dmem_read(client, addr) {
                Err(f) => (self, Err(f)),
                Ok(val) => (self.spec_write_reg(d as usize, val).spec_conditional_extend_accum(d as usize).advanced(2), Ok(())),
            },
        }
    }

    /// Executes `LR`.
    pub fn op_lr(&mut self, client: &DSPClient, aram: &Vec<u8>, d: u16) -> (res: Result<(), Fault>)
        requires
            d < 32,
        ensures
            (*final(self), res) == old(self).spec_op_lr(client, aram@, d),
    {
        let addr: u16 = self.imem_read(aram, self.pc.wrapping_add(1))?;
        let val: u16 = self.dmem_read(client, addr)?;
        self.write_reg(d as usize, val);
        self.conditional_extend_accum(d as usize);
        self.advance(2);
        Ok(())
    }

    /// The data address of an instruction with a short address `m`: the
    /// configuration register above `m`.
    pub open spec fn spec_short_address(&self, m: u16) -> u16 {
        (self.reg(REG_CONFIG) << 8) | m
    }

    /// The data address of an instruction with a short address.
    #[verifier::when_used_as_spec(spec_short_address)]
    pub fn short_address(&self, m: u16) -> (r: u16)
        ensures
            r == self.spec_short_address(m),
    {
        (self.registers[REG_CONFIG] << 8) | m
    }

    /// `LRS`: register `0x18 + d` is written with the data word at the
    /// short address `m`. A read that fails is reported and changes
    /// nothing.
    pub open spec fn spec_op_lrs(self, client: &DSPClient, d: u16, m: u16) -> (Self, Result<(), Fault>) {
        match self.spec_dmem_read(client, self.spec_short_address(m)) {
            Err(f) => (self, Err(f)),
            Ok(val) => (self.spec_write_reg((0x18 + d) as usize, val).spec_conditional_extend_accum((0x18 + d) as usize).advanced(1), Ok(())),
        }
    }

    /// Executes `LRS`.
    pub fn op_lrs(&mut self, client: &DSPClient, d: u16, m: u16) -> (res: Result<(), Fault>)
        requires
            d < 8,
        ensures
            (*final(self), res) == old(self).spec_op_lrs(client, d, m),
    {
        let addr: u16 = self.short_address(m);
        let val: u16 = self.dmem_read(client, addr)?;
        self.write_reg(0x18 + (d as usize), val);
        self.conditional_extend_accum(0x18 + (d as usize));
        self.advance(1);
        Ok(())
    }

    /// `LRRI`: register `d` takes the data word at the address in register
    /// `s`, and register `s` is incremented after it. A read that fails is
    /// reported and changes nothing.
    pub open spec fn spec_op_lrri(self, client: &DSPClient, s: u16, d: u16) -> (Self, Result<(), Fault>) {
        match self.spec_dmem_read(client, self.reg(s as usize)) {
            Err(f) => (self, Err(f)),
            Ok(val) => {
                let loaded = self.with_reg(d as usize, val).spec_conditional_extend_accum(d as usize);
                (loaded.with_reg(s as usize, loaded.reg(s as usize).wrapping_add(1)).advanced(1), Ok(()))
            },
        }
    }

    /// Executes `LRRI`.
    pub fn op_lrri(&mut self, client: &DSPClient, s: u16, d: u16) -> (res: Result<(), Fault>)
        requires
            s < 32,
            d < 32,
        ensures
            (*final(self), res) == old(self).spec_op_lrri(client, s, d),
    {
        let val: u16 = self.dmem_read(client, self.registers[s as usize])?;
        self.set_reg(d as usize, val);
        self.conditional_extend_accum(d as usize);
        let next: u16 = self.registers[s as usize].wrapping_add(1);
        self.set_reg(s as usize, next);
        self.advance(1);
        Ok(())
    }

    /// `ILRR`: the middle part of the accumulator `d` takes the instruction
    /// word at the address in register `s`, and `change_by` is added to
    /// register `s` after it. A fetch that fails is reported and changes
    /// nothing.
    pub open spec fn spec_op_ilrr(self, aram: Seq<u8>, d: u16, s: u16, change_by: i16) -> (Self, Result<(), Fault>) {
        let reg: usize = if d == 0 { REG_AC0_M } else { REG_AC1_M };
        match self.spec_imem_read(aram, self.reg(s as usize)) {
            Err(f) => (self, Err(f)),
            Ok(val) => {
                let loaded = self.with_reg(reg, val).spec_conditional_extend_accum(reg);
                (loaded.with_reg(s as usize, loaded.reg(s as usize).wrapping_add_signed(change_by)).advanced(1), Ok(()))
            },
        }
    }

    /// Executes `ILRR`.
    pub fn op_ilrr(&mut self, aram: &Vec<u8>, d: u16, s: u16, change_by: i16) -> (res: Result<(), Fault>)
        requires
            s < 32,
        ensures
            (*final(self), res) == old(self).spec_op_ilrr(aram@, d, s, change_by),
    {
        let reg: usize = if d == 0 { REG_AC0_M } else { REG_AC1_M };
        let val: u16 = self.imem_read(aram, self.registers[s as usize])?;
        self.set_reg(reg, val);
        self.conditional_extend_accum(reg);
        let next: u16 = self.registers[s as usize].wrapping_add_signed(change_by);
        self.set_reg(s as usize, next);
        self.advance(1);
        Ok(())
    }

    /// What a store of `val` at the data address `addr` that ends an
    /// instruction of `length` words makes of the DSP and of the shared
    /// registers. A write that fails is reported and changes nothing.
    pub open spec fn stored(self, client: DSPClient, addr: u16, val: u16, length: u16) -> Turn {
        let written = self.spec_dmem_write(client, addr, val);
        if written.res is Ok {
            Turn { dsp: written.dsp.advanced(length), ..written }
        } else {
            written
        }
    }

    /// Stores `val` at the data address `addr`, and moves the program
    /// counter over the instruction.
    pub fn store(&mut self, client: &mut DSPClient, addr: u16, val: u16, length: u16) -> (res: Result<(), Fault>)
        ensures
            (Turn { dsp: *final(self), client: *final(client), res }) == old(self).stored(*old(client), addr, val, length),
    {
        let res: Result<(), Fault> = self.dmem_write(client, addr, val);
        if res.is_ok() {
            self.advance(length);
        }
        res
    }

    /// `SR`: the value of register `s` is stored at the data address that
    /// follows the instruction. A fetch or a write that fails is reported
    /// and changes nothing.
    pub open spec fn spec_op_sr(self, client: DSPClient, aram: Seq<u8>, s: u16) -> Turn {
        match self.spec_imem_read(aram, self.pc.wrapping_add(1)) {
            Err(f) => Turn { dsp: self, client, res: Err(f) },
            Ok(addr) => self.stored(client, addr, self.reg(s as usize), 2),
        }
    }

    /// Executes `SR`.
    pub fn op_sr(&mut self, client: &mut DSPClient, aram: &Vec<u8>, s: u16) -> (res: Result<(), Fault>)
        requires
            s < 32,
        ensures
            (Turn { dsp: *final(self), client: *final(client), res }) == old(self).spec_op_sr(*old(client), aram@, s),
    {
        let addr: u16 = self.imem_read(aram, self.pc.wrapping_add(1))?;
        let val: u16 = self.registers[s as usize];
        self.store(client, addr, val, 2)
    }

    /// `SRS`: the value of register `0x18 + s` is stored at the short
    /// address `m`. A write that fails is reported and changes nothing.
    pub open spec fn spec_op_srs(self, client: DSPClient, s: u16, m: u16) -> Turn {
        self.stored(client, self.spec_short_address(m), self.reg((0x18 + s) as usize), 1)
    }

    /// Executes `SRS`.
    pub fn op_srs(&mut self, client: &mut DSPClient, s: u16, m: u16) -> (res: Result<(), Fault>)
        requires
            s < 8,
        ensures
            (Turn { dsp: *final(self), client: *final(client), res }) == old(self).spec_op_srs(*old(client), s, m),
    {
        let addr: u16 = self.short_address(m);
        let val: u16 = self.registers[0x18 + (s as usize)];
        self.store(client, addr, val, 1)
    }

    /// `SI`: the immediate word that follows the instruction is stored at
    /// the data address `m`, a byte extended in two's complement. A fetch
    /// or a write that fails is reported and changes nothing.
    pub open spec fn spec_op_si(self, client: DSPClient, aram: Seq<u8>, m: u16) -> Turn {
        match self.spec_imem_read(aram, self.pc.wrapping_add(1)) {
            Err(f) => Turn { dsp: self, client, res: Err(f) },
            Ok(imm) => self.stored(client, spec_extended_byte(m), imm, 2),
        }
    }

    /// Executes `SI`.
    pub fn op_si(&mut self, client: &mut DSPClient, aram: &Vec<u8>, m: u16) -> (res: Result<(), Fault>)
        ensures
            (Turn { dsp: *final(self), client: *final(client), res }) == old(self).spec_op_si(*old(client), aram@, m),
    {
        let addr: u16 = extended_byte(m);
        let imm: u16 = self.imem_read(aram, self.pc.wrapping_add(1))?;
        self.store(client, addr, imm, 2)
    }
}

} // verus!
