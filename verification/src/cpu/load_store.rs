use vstd::prelude::*;
use crate::cpu::instr::Instruction;
use crate::cpu::util::{as_unsigned, convert_to_double, convert_to_single, dequantized, sext_12, spec_dequantized, unsigned32, wrap32, SINGLE_ONE};
use crate::cpu::{Cpu, FloatingPointRegister, PROGRAM_EXCEPTION};
use crate::fault::Fault;
use crate::{Datum, Gamecube};

verus! {

/// The effective address of a load or store with a displacement: `rA`, or
/// zero where the field is 0, plus the signed immediate, modulo 2^32.
pub open spec fn spec_effective_address(gc: &Gamecube, i: &Instruction) -> u32 {
    wrap32(gc.cpu.gpr_or_zero(i.a()) + i.simm())
}

/// The effective address of a load or store with a displacement.
#[verifier::when_used_as_spec(spec_effective_address)]
pub fn effective_address(gc: &Gamecube, i: &Instruction) -> (r: u32)
    ensures
        r == spec_effective_address(gc, i),
{
    let base: u32 = if i.a() == 0 { 0 } else { gc.cpu.gprs[i.a()] };
    base.wrapping_add(i.simm_word())
}

/// The effective address of a load or store with update: `rA` plus the
/// signed immediate, modulo 2^32.
pub open spec fn spec_update_address(gc: &Gamecube, i: &Instruction) -> u32 {
    wrap32(gc.cpu.gpr(i.a()) + i.simm())
}

/// The effective address of a load or store with update.
#[verifier::when_used_as_spec(spec_update_address)]
pub fn update_address(gc: &Gamecube, i: &Instruction) -> (r: u32)
    ensures
        r == spec_update_address(gc, i),
{
    gc.cpu.gprs[i.a()].wrapping_add(i.simm_word())
}

/// The effective address of an indexed load or store: `rA`, or zero where
/// the field is 0, plus `rB`, modulo 2^32.
pub open spec fn spec_indexed_address(gc: &Gamecube, i: &Instruction) -> u32 {
    wrap32(gc.cpu.gpr_or_zero(i.a()) + gc.cpu.gpr(i.b()))
}

/// The effective address of an indexed load or store.
#[verifier::when_used_as_spec(spec_indexed_address)]
pub fn indexed_address(gc: &Gamecube, i: &Instruction) -> (r: u32)
    ensures
        r == spec_indexed_address(gc, i),
{
    let base: u32 = if i.a() == 0 { 0 } else { gc.cpu.gprs[i.a()] };
    base.wrapping_add(gc.cpu.gprs[i.b()])
}

/// What a store of `datum` at `ea` leaves of the machine `pre`: what the
/// write leaves, and, where the write succeeds and the instruction is one
/// with update, `ea` in the register `update`.
pub open spec fn store_post(pre: Gamecube, post: Gamecube, ea: u32, datum: Datum, update: Option<usize>, res: Result<(), Fault>) -> bool {
    &&& Gamecube::write_post(pre, Gamecube { cpu: pre.cpu, ..post }, ea, datum, res)
    &&& post.cpu == (match update {
        Some(a) => if res is Ok { pre.cpu.with_gpr(a, ea) } else { pre.cpu },
        None => pre.cpu,
    })
}

/// Stores `datum` at `ea`, and on success writes `ea` to the register
/// `update`, if there is one.
fn store(gc: &mut Gamecube, ea: u32, datum: Datum, update: Option<usize>) -> (res: Result<(), Fault>)
    requires
        update matches Some(a) ==> a < 32,
    ensures
        store_post(*old(gc), *final(gc), ea, datum, update, res),
{
    let res: Result<(), Fault> = gc.write(ea, datum);
    let ghost written: Gamecube = *gc;
    if res.is_ok() {
        match update {
            Some(a) => {
                gc.cpu.set_gpr(a, ea);
            },
            None => {},
        }
    }
    assert((Gamecube { cpu: old(gc).cpu, ..*gc }) == written);
    res
}

/// `stb`: the low byte of `rS` is stored at the effective address.
pub open spec fn stb_post(pre: Gamecube, post: Gamecube, i: Instruction, res: Result<(), Fault>) -> bool {
    store_post(pre, post, spec_effective_address(&pre, &i), Datum::Byte((pre.cpu.gpr(i.s()) & 0xFF) as u8), None, res)
}

/// Executes `stb`.
pub fn stb(gc: &mut Gamecube, instr: &Instruction) -> (res: Result<(), Fault>)
    ensures
        stb_post(*old(gc), *final(gc), *instr, res),
{
    let ea: u32 = effective_address(gc, instr);
    let val: u8 = (gc.cpu.gprs[instr.s()] & 0xFF) as u8;
    store(gc, ea, Datum::Byte(val), None)
}

/// `stbu`: as `stb`, and the effective address goes to `rA`.
pub open spec fn stbu_post(pre: Gamecube, post: Gamecube, i: Instruction, res: Result<(), Fault>) -> bool {
    store_post(pre, post, spec_effective_address(&pre, &i), Datum::Byte((pre.cpu.gpr(i.s()) & 0xFF) as u8), Some(i.a()), res)
}

/// Executes `stbu`.
pub fn stbu(gc: &mut Gamecube, instr: &Instruction) -> (res: Result<(), Fault>)
    ensures
        stbu_post(*old(gc), *final(gc), *instr, res),
{
    let ea: u32 = effective_address(gc, instr);
    let val: u8 = (gc.cpu.gprs[instr.s()] & 0xFF) as u8;
    store(gc, ea, Datum::Byte(val), Some(instr.a()))
}

/// `sth`: the low half of `rS` is stored at the effective address.
pub open spec fn sth_post(pre: Gamecube, post: Gamecube, i: Instruction, res: Result<(), Fault>) -> bool {
    store_post(pre, post, spec_effective_address(&pre, &i), Datum::Half((pre.cpu.gpr(i.s()) & 0xFFFF) as u16), None, res)
}

/// Executes `sth`.
pub fn sth(gc: &mut Gamecube, instr: &Instruction) -> (res: Result<(), Fault>)
    ensures
        sth_post(*old(gc), *final(gc), *instr, res),
{
    let ea: u32 = effective_address(gc, instr);
    let val: u16 = (gc.cpu.gprs[instr.s()] & 0xFFFF) as u16;
    store(gc, ea, Datum::Half(val), None)
}

/// `stw`: `rS` is stored at the effective address.
pub open spec fn stw_post(pre: Gamecube, post: Gamecube, i: Instruction, res: Result<(), Fault>) -> bool {
    store_post(pre, post, spec_effective_address(&pre, &i), Datum::Word(pre.cpu.gpr(i.s())), None, res)
}

/// Executes `stw`.
pub fn stw(gc: &mut Gamecube, instr: &Instruction) -> (res: Result<(), Fault>)
    ensures
        stw_post(*old(gc), *final(gc), *instr, res),
{
    let ea: u32 = effective_address(gc, instr);
    let val: u32 = gc.cpu.gprs[instr.s()];
    store(gc, ea, Datum::Word(val), None)
}

/// `stwu`: `rS` is stored at `rA` plus the displacement, and that address
/// goes to `rA`.
pub open spec fn stwu_post(pre: Gamecube, post: Gamecube, i: Instruction, res: Result<(), Fault>) -> bool {
    store_post(pre, post, spec_update_address(&pre, &i), Datum::Word(pre.cpu.gpr(i.s())), Some(i.a()), res)
}

/// Executes `stwu`.
pub fn stwu(gc: &mut Gamecube, instr: &Instruction) -> (res: Result<(), Fault>)
    ensures
        stwu_post(*old(gc), *final(gc), *instr, res),
{
    let ea: u32 = update_address(gc, instr);
    let val: u32 = gc.cpu.gprs[instr.s()];
    store(gc, ea, Datum::Word(val), Some(instr.a()))
}

/// `stwx`: `rS` is stored at the indexed effective address.
pub open spec fn stwx_post(pre: Gamecube, post: Gamecube, i: Instruction, res: Result<(), Fault>) -> bool {
    store_post(pre, post, spec_indexed_address(&pre, &i), Datum::Word(pre.cpu.gpr(i.s())), None, res)
}

/// Executes `stwx`.
pub fn stwx(gc: &mut Gamecube, instr: &Instruction) -> (res: Result<(), Fault>)
    ensures
        stwx_post(*old(gc), *final(gc), *instr, res),
{
    let ea: u32 = indexed_address(gc, instr);
    let val: u32 = gc.cpu.gprs[instr.s()];
    store(gc, ea, Datum::Word(val), None)
}

/// `stfs`: `frS`, converted to single precision, is stored at the effective
/// address.
pub open spec fn stfs_post(pre: Gamecube, post: Gamecube, i: Instruction, res: Result<(), Fault>) -> bool {
    store_post(pre, post, spec_effective_address(&pre, &i), Datum::Word(convert_to_single(pre.cpu.fprs[i.s() as int].as_u64())), None, res)
}

/// Executes `stfs`.
pub fn stfs(gc: &mut Gamecube, instr: &Instruction) -> (res: Result<(), Fault>)
    ensures
        stfs_post(*old(gc), *final(gc), *instr, res),
{
    let ea: u32 = effective_address(gc, instr);
    let val: u32 = convert_to_single(gc.cpu.fprs[instr.s()].as_u64());
    store(gc, ea, Datum::Word(val), None)
}

/// `stfsu`: `frS`, converted to single precision, is stored at `rA` plus
/// `rB`, and that address goes to `rA`.
pub open spec fn stfsu_post(pre: Gamecube, post: Gamecube, i: Instruction, res: Result<(), Fault>) -> bool {
    store_post(pre, post, wrap32(pre.cpu.gpr(i.a()) + pre.cpu.gpr(i.b())), Datum::Word(convert_to_single(pre.cpu.fprs[i.s() as int].as_u64())), Some(i.a()), res)
}

/// Executes `stfsu`.
pub fn stfsu(gc: &mut Gamecube, instr: &Instruction) -> (res: Result<(), Fault>)
    ensures
        stfsu_post(*old(gc), *final(gc), *instr, res),
{
    let ea: u32 = gc.cpu.gprs[instr.a()].wrapping_add(gc.cpu.gprs[instr.b()]);
    let val: u32 = convert_to_single(gc.cpu.fprs[instr.s()].as_u64());
    store(gc, ea, Datum::Word(val), Some(instr.a()))
}

/// `stfd`: the 64-bit image of `frS` is stored at the effective address.
pub open spec fn stfd_post(pre: Gamecube, post: Gamecube, i: Instruction, res: Result<(), Fault>) -> bool {
    store_post(pre, post, spec_effective_address(&pre, &i), Datum::Double(pre.cpu.fprs[i.s() as int].as_u64()), None, res)
}

/// Executes `stfd`.
pub fn stfd(gc: &mut Gamecube, instr: &Instruction) -> (res: Result<(), Fault>)
    ensures
        stfd_post(*old(gc), *final(gc), *instr, res),
{
    let ea: u32 = effective_address(gc, instr);
    let val: u64 = gc.cpu.fprs[instr.s()].as_u64();
    store(gc, ea, Datum::Double(val), None)
}

/// What storing the registers from `r` to 31 at consecutive words from
/// `addr` on leaves of the machine `pre`. The first store that fails ends
/// the instruction; the stores before it stay made.
pub open spec fn stmw_from_post(pre: Gamecube, post: Gamecube, r: int, addr: u32, res: Result<(), Fault>) -> bool
    decreases 32 - r,
{
    if r > 31 {
        post == pre && res is Ok
    } else {
        exists|mid: Gamecube, first: Result<(), Fault>|
            {
                &&& #[trigger] Gamecube::write_u32_post(pre, mid, addr, pre.cpu.gpr(r as usize), first)
                &&& if first is Ok {
                    stmw_from_post(mid, post, r + 1, wrap32(addr + 4), res)
                } else {
                    post == mid && res == first
                }
            }
    }
}

/// Stores the registers from `r` to 31 at consecutive words from `addr` on.
fn stmw_from(gc: &mut Gamecube, r: usize, addr: u32) -> (res: Result<(), Fault>)
    requires
        r <= 32,
    ensures
        stmw_from_post(*old(gc), *final(gc), r as int, addr, res),
    decreases 32 - r,
{
    if r > 31 {
        return Ok(());
    }
    let val: u32 = gc.cpu.gprs[r];
    let first: Result<(), Fault> = gc.write_u32(addr, val);
    let ghost mid: Gamecube = *gc;
    assert(val == old(gc).cpu.gpr(r as int as usize));
    match first {
        Err(f) => {
            assert(Gamecube::write_u32_post(*old(gc), mid, addr, val, first) && !(first is Ok) && *gc == mid && Err::<(), Fault>(f) == first);
            Err(f)
        },
        Ok(()) => {
            let res: Result<(), Fault> = stmw_from(gc, r + 1, addr.wrapping_add(4));
            assert(Gamecube::write_u32_post(*old(gc), mid, addr, val, first) && first is Ok && stmw_from_post(mid, *gc, r + 1, wrap32(addr + 4), res));
            res
        },
    }
}

/// `stmw`: the registers from `rS` to 31 are stored at consecutive words
/// from the effective address on.
pub open spec fn stmw_post(pre: Gamecube, post: Gamecube, i: Instruction, res: Result<(), Fault>) -> bool {
    stmw_from_post(pre, post, i.s() as int, spec_effective_address(&pre, &i), res)
}

/// Executes `stmw`.
pub fn stmw(gc: &mut Gamecube, instr: &Instruction) -> (res: Result<(), Fault>)
    ensures
        stmw_post(*old(gc), *final(gc), *instr, res),
{
    let ea: u32 = effective_address(gc, instr);
    stmw_from(gc, instr.s(), ea)
}

/// What a load makes of the CPU: the loaded value in `rD`, and after it the
/// effective address in the register `update`, if there is one. A read
/// that fails leaves the CPU as it is.
pub open spec fn loaded(cpu: Cpu, read: Result<u32, Fault>, d: usize, update: Option<(usize, u32)>) -> (Cpu, Result<(), Fault>) {
    match read {
        Ok(val) => (match update {
            Some((a, ea)) => cpu.with_gpr(d, val).with_gpr(a, ea),
            None => cpu.with_gpr(d, val),
        }, Ok(())),
        Err(f) => (cpu, Err(f)),
    }
}

/// A byte that was read, as a word.
pub open spec fn byte_word(read: Result<u8, Fault>) -> Result<u32, Fault> {
    match read {
        Ok(val) => Ok(val as u32),
        Err(f) => Err(f),
    }
}

/// A half word that was read, as a word.
pub open spec fn half_word(read: Result<u16, Fault>) -> Result<u32, Fault> {
    match read {
        Ok(val) => Ok(val as u32),
        Err(f) => Err(f),
    }
}

/// Writes a loaded value to `rD` and, for a load with update, the effective
/// address to `rA`.
fn load(gc: &mut Gamecube, read: Result<u32, Fault>, d: usize, update: Option<(usize, u32)>) -> (res: Result<(), Fault>)
    requires
        d < 32,
        update matches Some(u) ==> u.0 < 32,
    ensures
        *final(gc) == (Gamecube { cpu: loaded(old(gc).cpu, read, d, update).0, ..*old(gc) }),
        res == loaded(old(gc).cpu, read, d, update).1,
{
    let val: u32 = read?;
    gc.cpu.set_gpr(d, val);
    match update {
        Some(u) => {
            gc.cpu.set_gpr(u.0, u.1);
        },
        None => {},
    }
    Ok(())
}

/// `lbz`: the byte at the effective address goes to `rD`.
pub open spec fn spec_lbz(gc: Gamecube, i: Instruction) -> (Cpu, Result<(), Fault>) {
    loaded(gc.cpu, byte_word(gc.read_u8(spec_effective_address(&gc, &i))), i.d(), None)
}

/// Executes `lbz`.
pub fn lbz(gc: &mut Gamecube, instr: &Instruction) -> (res: Result<(), Fault>)
    ensures
        *final(gc) == (Gamecube { cpu: spec_lbz(*old(gc), *instr).0, ..*old(gc) }),
        res == spec_lbz(*old(gc), *instr).1,
{
    let ea: u32 = effective_address(gc, instr);
    let read: Result<u32, Fault> = match gc.read_u8(ea) {
        Ok(v) => Ok(v as u32),
        Err(f) => Err(f),
    };
    load(gc, read, instr.d(), None)
}

/// `lbzu`: as `lbz`, and the effective address goes to `rA`.
pub open spec fn spec_lbzu(gc: Gamecube, i: Instruction) -> (Cpu, Result<(), Fault>) {
    let ea: u32 = spec_effective_address(&gc, &i);
    loaded(gc.cpu, byte_word(gc.read_u8(ea)), i.d(), Some((i.a(), ea)))
}

/// Executes `lbzu`.
pub fn lbzu(gc: &mut Gamecube, instr: &Instruction) -> (res: Result<(), Fault>)
    ensures
        *final(gc) == (Gamecube { cpu: spec_lbzu(*old(gc), *instr).0, ..*old(gc) }),
        res == spec_lbzu(*old(gc), *instr).1,
{
    let ea: u32 = effective_address(gc, instr);
    let read: Result<u32, Fault> = match gc.read_u8(ea) {
        Ok(v) => Ok(v as u32),
        Err(f) => Err(f),
    };
    load(gc, read, instr.d(), Some((instr.a(), ea)))
}

/// `lhz`: the half word at the effective address goes to `rD`.
pub open spec fn spec_lhz(gc: Gamecube, i: Instruction) -> (Cpu, Result<(), Fault>) {
    loaded(gc.cpu, half_word(gc.read_u16(spec_effective_address(&gc, &i))), i.d(), None)
}

/// Executes `lhz`.
pub fn lhz(gc: &mut Gamecube, instr: &Instruction) -> (res: Result<(), Fault>)
    ensures
        *final(gc) == (Gamecube { cpu: spec_lhz(*old(gc), *instr).0, ..*old(gc) }),
        res == spec_lhz(*old(gc), *instr).1,
{
    let ea: u32 = effective_address(gc, instr);
    let read: Result<u32, Fault> = match gc.read_u16(ea) {
        Ok(v) => Ok(v as u32),
        Err(f) => Err(f),
    };
    load(gc, read, instr.d(), None)
}

/// `lhzu`: the half word at `rA` plus the displacement goes to `rD`, and
/// that address to `rA`.
pub open spec fn spec_lhzu(gc: Gamecube, i: Instruction) -> (Cpu, Result<(), Fault>) {
    let ea: u32 = spec_update_address(&gc, &i);
    loaded(gc.cpu, half_word(gc.read_u16(ea)), i.d(), Some((i.a(), ea)))
}

/// Executes `lhzu`.
pub fn lhzu(gc: &mut Gamecube, instr: &Instruction) -> (res: Result<(), Fault>)
    ensures
        *final(gc) == (Gamecube { cpu: spec_lhzu(*old(gc), *instr).0, ..*old(gc) }),
        res == spec_lhzu(*old(gc), *instr).1,
{
    let ea: u32 = update_address(gc, instr);
    let read: Result<u32, Fault> = match gc.read_u16(ea) {
        Ok(v) => Ok(v as u32),
        Err(f) => Err(f),
    };
    load(gc, read, instr.d(), Some((instr.a(), ea)))
}

/// `lhzx`: the half word at the indexed effective address goes to `rD`.
pub open spec fn spec_lhzx(gc: Gamecube, i: Instruction) -> (Cpu, Result<(), Fault>) {
    loaded(gc.cpu, half_word(gc.read_u16(spec_indexed_address(&gc, &i))), i.d(), None)
}

/// Executes `lhzx`.
pub fn lhzx(gc: &mut Gamecube, instr: &Instruction) -> (res: Result<(), Fault>)
    ensures
        *final(gc) == (Gamecube { cpu: spec_lhzx(*old(gc), *instr).0, ..*old(gc) }),
        res == spec_lhzx(*old(gc), *instr).1,
{
    let ea: u32 = indexed_address(gc, instr);
    let read: Result<u32, Fault> = match gc.read_u16(ea) {
        Ok(v) => Ok(v as u32),
        Err(f) => Err(f),
    };
    load(gc, read, instr.d(), None)
}

/// `lwz`: the word at the effective address goes to `rD`.
pub open spec fn spec_lwz(gc: Gamecube, i: Instruction) -> (Cpu, Result<(), Fault>) {
    loaded(gc.cpu, gc.read_u32(spec_effective_address(&gc, &i), false), i.d(), None)
}

/// Executes `lwz`.
pub fn lwz(gc: &mut Gamecube, instr: &Instruction) -> (res: Result<(), Fault>)
    ensures
        *final(gc) == (Gamecube { cpu: spec_lwz(*old(gc), *instr).0, ..*old(gc) }),
        res == spec_lwz(*old(gc), *instr).1,
{
    let ea: u32 = effective_address(gc, instr);
    let read: Result<u32, Fault> = gc.read_u32(ea, false);
    load(gc, read, instr.d(), None)
}

/// `lwzx`: the word at the indexed effective address goes to `rD`.
pub open spec fn spec_lwzx(gc: Gamecube, i: Instruction) -> (Cpu, Result<(), Fault>) {
    loaded(gc.cpu, gc.read_u32(spec_indexed_address(&gc, &i), false), i.d(), None)
}

/// Executes `lwzx`.
pub fn lwzx(gc: &mut Gamecube, instr: &Instruction) -> (res: Result<(), Fault>)
    ensures
        *final(gc) == (Gamecube { cpu: spec_lwzx(*old(gc), *instr).0, ..*old(gc) }),
        res == spec_lwzx(*old(gc), *instr).1,
{
    let ea: u32 = indexed_address(gc, instr);
    let read: Result<u32, Fault> = gc.read_u32(ea, false);
    load(gc, read, instr.d(), None)
}

/// Whether the form of `lwzu` is invalid: `rA` is register 0, or `rA` and
/// `rD` are the same register.
pub open spec fn lwzu_invalid(i: Instruction) -> bool {
    i.a() == 0 || i.a() == i.d()
}

/// `lwzu`: the word at `rA` plus the displacement goes to `rD`, and that
/// address to `rA`. An invalid form raises the program exception, and is
/// executed all the same.
pub open spec fn spec_lwzu(gc: Gamecube, i: Instruction) -> (Cpu, Result<(), Fault>) {
    let ea: u32 = spec_update_address(&gc, &i);
    let flagged = if lwzu_invalid(i) {
        Cpu { exceptions: gc.cpu.exceptions | PROGRAM_EXCEPTION, ..gc.cpu }
    } else {
        gc.cpu
    };
    loaded(flagged, gc.read_u32(ea, false), i.d(), Some((i.a(), ea)))
}

/// Executes `lwzu`.
pub fn lwzu(gc: &mut Gamecube, instr: &Instruction) -> (res: Result<(), Fault>)
    ensures
        *final(gc) == (Gamecube { cpu: spec_lwzu(*old(gc), *instr).0, ..*old(gc) }),
        res == spec_lwzu(*old(gc), *instr).1,
{
    let ea: u32 = update_address(gc, instr);
    let read: Result<u32, Fault> = gc.read_u32(ea, false);
    if instr.a() == 0 || instr.a() == instr.d() {
        gc.cpu.exceptions = gc.cpu.exceptions | PROGRAM_EXCEPTION;
    }
    load(gc, read, instr.d(), Some((instr.a(), ea)))
}

/// What loading the registers from `r` to 31 from consecutive words from
/// `addr` on makes of the CPU `cpu`, in the machine `gc`. The first read
/// that fails ends the instruction; the registers loaded before it stay
/// loaded.
pub open spec fn lmw_from(gc: Gamecube, cpu: Cpu, r: int, addr: u32) -> (Cpu, Result<(), Fault>)
    decreases 32 - r,
{
    if r > 31 {
        (cpu, Ok(()))
    } else {
        match gc.read_u32(addr, false) {
            Err(f) => (cpu, Err(f)),
            Ok(val) => lmw_from(gc, cpu.with_gpr(r as usize, val), r + 1, wrap32(addr + 4)),
        }
    }
}

/// `lmw`: the registers from `rD` to 31 are loaded from consecutive words
/// from the effective address on.
pub open spec fn spec_lmw(gc: Gamecube, i: Instruction) -> (Cpu, Result<(), Fault>) {
    lmw_from(gc, gc.cpu, i.d() as int, spec_effective_address(&gc, &i))
}

/// Executes `lmw`.
pub fn lmw(gc: &mut Gamecube, instr: &Instruction) -> (res: Result<(), Fault>)
    ensures
        *final(gc) == (Gamecube { cpu: spec_lmw(*old(gc), *instr).0, ..*old(gc) }),
        res == spec_lmw(*old(gc), *instr).1,
{
    let mut addr: u32 = effective_address(gc, instr);
    let mut r: usize = instr.d();
    while r <= 31
        invariant
            r <= 32,
            *gc == (Gamecube { cpu: gc.cpu, ..*old(gc) }),
            gc.cpu.mmu == old(gc).cpu.mmu,
            gc.cpu.msr == old(gc).cpu.msr,
            spec_lmw(*old(gc), *instr) == lmw_from(*old(gc), gc.cpu, r as int, addr),
        decreases 32 - r,
    {
        proof {
            old(gc).lemma_read_frame(gc.cpu, addr, false);
        }
        let val: u32 = match gc.read_u32(addr, false) {
            Ok(v) => v,
            Err(f) => {
                return Err(f);
            },
        };
        gc.cpu.set_gpr(r, val);
        r += 1;
        addr = addr.wrapping_add(4);
    }
    Ok(())
}

/// `lfs`: the single-precision word at the effective address goes to `frD`:
/// converted to double precision, or, in paired-single mode, as it is into
/// both elements of the pair.
pub open spec fn spec_lfs(gc: Gamecube, i: Instruction) -> (Cpu, Result<(), Fault>) {
    match gc.read_u32(spec_effective_address(&gc, &i), false) {
        Err(f) => (gc.cpu, Err(f)),
        Ok(val) => (gc.cpu.with_fpr(i.d(), if gc.cpu.hid2.pse() {
            FloatingPointRegister::Paired((val, val))
        } else {
            FloatingPointRegister::Double(convert_to_double(val))
        }), Ok(())),
    }
}

/// Executes `lfs`.
pub fn lfs(gc: &mut Gamecube, instr: &Instruction) -> (res: Result<(), Fault>)
    ensures
        *final(gc) == (Gamecube { cpu: spec_lfs(*old(gc), *instr).0, ..*old(gc) }),
        res == spec_lfs(*old(gc), *instr).1,
{
    let ea: u32 = effective_address(gc, instr);
    let val: u32 = gc.read_u32(ea, false)?;
    if !gc.cpu.hid2.pse() {
        gc.cpu.set_fpr(instr.d(), FloatingPointRegister::from_u64(convert_to_double(val)));
    } else {
        gc.cpu.set_fpr(instr.d(), FloatingPointRegister::from_paired_u32((val, val)));
    }
    Ok(())
}

/// `lfd`: the 64-bit image at the effective address goes to `frD`.
pub open spec fn spec_lfd(gc: Gamecube, i: Instruction) -> (Cpu, Result<(), Fault>) {
    match gc.read_u64(spec_effective_address(&gc, &i)) {
        Err(f) => (gc.cpu, Err(f)),
        Ok(val) => (gc.cpu.with_fpr(i.d(), FloatingPointRegister::Double(val)), Ok(())),
    }
}

/// Executes `lfd`.
pub fn lfd(gc: &mut Gamecube, instr: &Instruction) -> (res: Result<(), Fault>)
    ensures
        *final(gc) == (Gamecube { cpu: spec_lfd(*old(gc), *instr).0, ..*old(gc) }),
        res == spec_lfd(*old(gc), *instr).1,
{
    let ea: u32 = effective_address(gc, instr);
    let val: u64 = gc.read_u64(ea)?;
    gc.cpu.set_fpr(instr.d(), FloatingPointRegister::from_u64(val));
    Ok(())
}

/// The number of bytes that one quantized value of the type `ld_type`
/// takes in memory.
pub open spec fn spec_quantized_width(ld_type: usize) -> u32 {
    if ld_type == 4 || ld_type == 6 {
        1
    } else if ld_type == 5 || ld_type == 7 {
        2
    } else {
        4
    }
}

/// The number of bytes that one quantized value of the type `ld_type`
/// takes in memory.
#[verifier::when_used_as_spec(spec_quantized_width)]
pub fn quantized_width(ld_type: usize) -> (r: u32)
    ensures
        r == spec_quantized_width(ld_type),
{
    if ld_type == 4 || ld_type == 6 {
        1
    } else if ld_type == 5 || ld_type == 7 {
        2
    } else {
        4
    }
}

/// What a read of one quantized value of the type `ld_type` at `addr`
/// returns.
pub open spec fn spec_read_quantized(gc: &Gamecube, addr: u32, ld_type: usize) -> Result<u32, Fault> {
    if ld_type == 4 || ld_type == 6 {
        byte_word(gc.read_u8(addr))
    } else if ld_type == 5 || ld_type == 7 {
        half_word(gc.read_u16(addr))
    } else {
        gc.read_u32(addr, false)
    }
}

/// Reads one quantized value of the type `ld_type` at `addr`.
#[verifier::when_used_as_spec(spec_read_quantized)]
pub fn read_quantized(gc: &Gamecube, addr: u32, ld_type: usize) -> (res: Result<u32, Fault>)
    ensures
        res == spec_read_quantized(gc, addr, ld_type),
{
    if ld_type == 4 || ld_type == 6 {
        match gc.read_u8(addr) {
            Ok(v) => Ok(v as u32),
            Err(f) => Err(f),
        }
    } else if ld_type == 5 || ld_type == 7 {
        match gc.read_u16(addr) {
            Ok(v) => Ok(v as u32),
            Err(f) => Err(f),
        }
    } else {
        gc.read_u32(addr, false)
    }
}

/// The effective address of a quantized load: `rA`, or zero where the field
/// is 0, plus the twelve-bit displacement extended in two's complement,
/// modulo 2^32.
pub open spec fn spec_quantized_address(gc: &Gamecube, i: &Instruction) -> u32 {
    wrap32(gc.cpu.gpr_or_zero(i.a()) + sext_12(i.uimm_d()))
}

/// The effective address of a quantized load.
#[verifier::when_used_as_spec(spec_quantized_address)]
pub fn quantized_address(gc: &Gamecube, i: &Instruction) -> (r: u32)
    ensures
        r == spec_quantized_address(gc, i),
{
    let base: u32 = if i.a() == 0 { 0 } else { gc.cpu.gprs[i.a()] };
    base.wrapping_add(as_unsigned(sext_12(i.uimm_d())))
}

/// The pair that a quantized load writes: the dequantized first value, and
/// the dequantized second value or, where there is none, 1.
pub open spec fn spec_dequantized_pair(first: u32, second: Option<u32>, ty: usize, scale: usize) -> FloatingPointRegister {
    FloatingPointRegister::Paired((spec_dequantized(first, ty, scale), match second {
        Some(val) => spec_dequantized(val, ty, scale),
        None => SINGLE_ONE,
    }))
}

/// The pair that a quantized load writes.
#[verifier::when_used_as_spec(spec_dequantized_pair)]
pub fn dequantized_pair(first: u32, second: Option<u32>, ty: usize, scale: usize) -> (r: FloatingPointRegister)
    requires
        scale < 64,
    ensures
        r == spec_dequantized_pair(first, second, ty, scale),
{
    let low: u32 = dequantized(first, ty, scale);
    let high: u32 = match second {
        Some(val) => dequantized(val, ty, scale),
        None => SINGLE_ONE,
    };
    FloatingPointRegister::from_paired_u32((low, high))
}

/// `psq_l`: one quantized value, or a pair of them, is read at the effective
/// address in the format that the selected quantization register gives,
/// dequantized, and written to `frD` as a pair of single-precision images.
/// Where one value is loaded, the second element of the pair is 1. With
/// neither paired-single mode nor quantized loads switched on, the
/// instruction raises an exception, which is not modelled: it is reported
/// and nothing is loaded.
pub open spec fn spec_psq_l(gc: Gamecube, i: Instruction) -> (Cpu, Result<(), Fault>) {
    if !(gc.cpu.hid2.pse() || gc.cpu.hid2.lsqe()) {
        (gc.cpu, Err(i.fault()))
    } else {
        let ea: u32 = spec_quantized_address(&gc, &i);
        let gqr = gc.cpu.gqrs[i.i() as int];
        let ty: usize = gqr.ld_type();
        let scale: usize = gqr.ld_scale();
        match spec_read_quantized(&gc, ea, ty) {
            Err(f) => (gc.cpu, Err(f)),
            Ok(first) => if i.w() {
                (gc.cpu.with_fpr(i.d(), spec_dequantized_pair(first, None, ty, scale)), Ok(()))
            } else {
                match spec_read_quantized(&gc, wrap32(ea + spec_quantized_width(ty)), ty) {
                    Err(f) => (gc.cpu, Err(f)),
                    Ok(second) => (gc.cpu.with_fpr(i.d(), spec_dequantized_pair(first, Some(second), ty, scale)), Ok(())),
                }
            },
        }
    }
}

/// Executes `psq_l`.
pub fn psq_l(gc: &mut Gamecube, instr: &Instruction) -> (res: Result<(), Fault>)
    ensures
        *final(gc) == (Gamecube { cpu: spec_psq_l(*old(gc), *instr).0, ..*old(gc) }),
        res == spec_psq_l(*old(gc), *instr).1,
{
    if !(gc.cpu.hid2.pse() || gc.cpu.hid2.lsqe()) {
        return Err(instr.fault());
    }
    let ea: u32 = quantized_address(gc, instr);
    let gqr: crate::cpu::GraphicsQuantizationRegister = gc.cpu.gqrs[instr.i()];
    let ty: usize = gqr.ld_type();
    let scale: usize = gqr.ld_scale();
    let first: u32 = read_quantized(gc, ea, ty)?;
    let second: Option<u32> = if instr.w() {
        None
    } else {
        Some(read_quantized(gc, ea.wrapping_add(quantized_width(ty)), ty)?)
    };
    let pair: FloatingPointRegister = dequantized_pair(first, second, ty, scale);
    gc.cpu.set_fpr(instr.d(), pair);
    Ok(())
}

} // verus!
