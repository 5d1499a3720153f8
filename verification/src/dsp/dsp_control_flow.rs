use vstd::prelude::*;
use crate::dsp::DSP;
use crate::fault::Fault;

verus! {

impl DSP {
    /// `J`: where the condition `c` holds, the program counter takes the
    /// word that follows the instruction; otherwise it moves over both
    /// words. A condition or a fetch that fails is reported and changes
    /// nothing.
    pub open spec fn spec_op_j(self, aram: Seq<u8>, c: u16) -> (Self, Result<(), Fault>) {
        match self.spec_condition(c) {
            Err(f) => (self, Err(f)),
            Ok(false) => (self.advanced(2), Ok(())),
            Ok(true) => match self.spec_imem_read(aram, self.pc.wrapping_add(1)) {
                Err(f) => (self, Err(f)),
                Ok(dest) => (self.at(dest), Ok(())),
            },
        }
    }

    /// Executes `J`.
    pub fn op_j(&mut self, aram: &Vec<u8>, c: u16) -> (res: Result<(), Fault>)
        ensures
            (*final(self), res) == old(self).spec_op_j(aram@, c),
    {
        if self.condition(c)? {
            let dest: u16 = self.imem_read(aram, self.pc.wrapping_add(1))?;
            self.pc = dest;
        } else {
            self.advance(2);
        }
        Ok(())
    }

    /// `CALL`: where the condition `c` holds, the address after the
    /// instruction is pushed on the call stack and the program counter
    /// takes the word that follows the instruction; otherwise it moves
    /// over both words. A condition or a fetch that fails is reported and
    /// changes nothing.
    pub open spec fn spec_op_call(self, aram: Seq<u8>, c: u16) -> (Self, Result<(), Fault>) {
        match self.spec_condition(c) {
            Err(f) => (self, Err(f)),
            Ok(false) => (self.advanced(2), Ok(())),
            Ok(true) => match self.spec_imem_read(aram, self.pc.wrapping_add(1)) {
                Err(f) => (self, Err(f)),
                Ok(dest) => (self.spec_push_stack(0, self.pc.wrapping_add(2)).at(dest), Ok(())),
            },
        }
    }

    /// Executes `CALL`.
    pub fn op_call(&mut self, aram: &Vec<u8>, c: u16) -> (res: Result<(), Fault>)
        ensures
            (*final(self), res) == old(self).spec_op_call(aram@, c),
    {
        if self.condition(c)? {
            let dest: u16 = self.imem_read(aram, self.pc.wrapping_add(1))?;
            let back: u16 = self.pc.wrapping_add(2);
            self.push_stack(0, back);
            self.pc = dest;
        } else {
            self.advance(2);
        }
        Ok(())
    }

    /// `RET`: where the condition `c` holds, the program counter takes the
    /// top of the call stack, which is popped; otherwise it moves on. A
    /// condition that fails is reported and changes nothing.
    pub open spec fn spec_op_ret(self, c: u16) -> (Self, Result<(), Fault>) {
        match self.spec_condition(c) {
            Err(f) => (self, Err(f)),
            Ok(false) => (self.advanced(1), Ok(())),
            Ok(true) => (self.spec_pop_stack(0).at(self.reg(crate::dsp::REG_ST0)), Ok(())),
        }
    }

    /// Executes `RET`.
    pub fn op_ret(&mut self, c: u16) -> (res: Result<(), Fault>)
        ensures
            (*final(self), res) == old(self).spec_op_ret(c),
    {
        if self.condition(c)? {
            let back: u16 = self.pop_stack(0);
            self.pc = back;
        } else {
            self.advance(1);
        }
        Ok(())
    }
}

} // verus!
