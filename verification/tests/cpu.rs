use crude::cpu::arithmetic::{addc, adde, cmpl, mulhwu, mullw, neg, subfc, subfe, subfic};
use crude::cpu::bitwise::{crxor, extsh, rlwimi, rlwinm, sraw};
use crude::cpu::config::{mfspr, mftb, mtfsf, mtspr};
use crude::cpu::control_flow::{bc, bclr};
use crude::cpu::instr::Instruction;
use crude::cpu::mmu::{Bat, Mmu};
use crude::cpu::util::{mask, sext_12, sext_26};
use crude::cpu::{execute, ConditionRegister, Cpu, FloatingPointRegister, MachineStateRegister, HID2, XER};
use crude::dsp::DSP;
use crude::fault::Fault;
use crude::{run, step, Gamecube};

const RESET_VECTOR: usize = 0x100;

fn machine() -> Gamecube {
    let dump = vec![0u8; 0x1000];
    let (_dsp, client) = DSP::new(&dump);
    Gamecube::new(vec![0u8; 0x20_0000], vec![0u8; 0x4000], client)
}

fn load(gc: &mut Gamecube, words: &[u32]) {
    for (i, w) in words.iter().enumerate() {
        let at = RESET_VECTOR + 4 * i;
        gc.bios[at..at + 4].copy_from_slice(&w.to_be_bytes());
    }
}

fn d_form(op: u32, d: u32, a: u32, imm: u32) -> u32 {
    (op << 26) | (d << 21) | (a << 16) | (imm & 0xFFFF)
}

fn x_form(op: u32, d: u32, a: u32, b: u32, sec: u32, rc: u32) -> u32 {
    (op << 26) | (d << 21) | (a << 16) | (b << 11) | (sec << 1) | rc
}

#[test]
fn load_immediate_idiom_builds_a_word() {
    let mut gc = machine();
    load(&mut gc, &[d_form(15, 3, 0, 0x1234), d_form(14, 3, 3, 0x5678)]);
    assert_eq!(step(&mut gc), Ok(()));
    assert_eq!(gc.cpu.gprs[3], 0x1234_0000);
    assert_eq!(gc.cpu.cia, 0xFFF0_0104);
    assert_eq!(gc.cpu.nia, 0xFFF0_0108);
    assert_eq!(step(&mut gc), Ok(()));
    assert_eq!(gc.cpu.gprs[3], 0x1234_5678);
    assert_eq!(gc.cpu.tb, 2);
}

#[test]
fn reset_state_is_architected() {
    let cpu = Cpu::new();
    assert_eq!(cpu.cia, 0xFFF0_0100);
    assert_eq!(cpu.nia, 0xFFF0_0104);
    assert_eq!(cpu.msr, MachineStateRegister(0));
    assert_eq!(cpu.tb, 0);
    assert!(cpu.gprs.iter().all(|r| *r == 0));
    assert!(cpu.fprs.iter().all(|r| r.as_u64() == 0));
}

#[test]
fn conditional_branch_follows_the_inspected_bit() {
    // addi r3,0,5; cmpi cr0,r3,5; beq +0x10
    let program = [d_form(14, 3, 0, 5), d_form(11, 0, 3, 5), d_form(16, 12, 2, 0x10)];
    let mut gc = machine();
    load(&mut gc, &program);
    assert_eq!(run(&mut gc, 3), Ok(()));
    assert_eq!(gc.cpu.cr.get_reg(0), 0b0010);
    assert_eq!(gc.cpu.cia, 0xFFF0_0118);

    // the same with r3 = 4: the bit is clear and the branch falls through
    let program = [d_form(14, 3, 0, 4), d_form(11, 0, 3, 5), d_form(16, 12, 2, 0x10)];
    let mut gc = machine();
    load(&mut gc, &program);
    assert_eq!(run(&mut gc, 3), Ok(()));
    assert_eq!(gc.cpu.cr.get_reg(0), 0b1000);
    assert_eq!(gc.cpu.cia, 0xFFF0_010C);

    // bne: taken where the bit is clear
    let program = [d_form(14, 3, 0, 4), d_form(11, 0, 3, 5), d_form(16, 4, 2, 0x10)];
    let mut gc = machine();
    load(&mut gc, &program);
    assert_eq!(run(&mut gc, 3), Ok(()));
    assert_eq!(gc.cpu.cia, 0xFFF0_0118);
}

#[test]
fn branch_decision_table() {
    let mut gc = machine();
    // always: counter untouched
    gc.cpu.ctr = 7;
    bc(&mut gc, &Instruction(d_form(16, 0b10100, 0, 0x20)));
    assert_eq!((gc.cpu.nia, gc.cpu.ctr), (0xFFF0_0120, 7));
    // counter only, branch while the counter is not zero: 2 -> 1 taken
    gc.cpu.nia = 0;
    gc.cpu.ctr = 2;
    bc(&mut gc, &Instruction(d_form(16, 0b10000, 0, 0x20)));
    assert_eq!((gc.cpu.nia, gc.cpu.ctr), (0xFFF0_0120, 1));
    // 1 -> 0: the decrement comes before the test, so the branch is not taken
    gc.cpu.nia = 0;
    bc(&mut gc, &Instruction(d_form(16, 0b10000, 0, 0x20)));
    assert_eq!((gc.cpu.nia, gc.cpu.ctr), (0, 0));
    // branch when the counter reaches zero
    gc.cpu.ctr = 1;
    bc(&mut gc, &Instruction(d_form(16, 0b10010, 0, 0x20)));
    assert_eq!((gc.cpu.nia, gc.cpu.ctr), (0xFFF0_0120, 0));
    // the counter wraps around below zero
    gc.cpu.nia = 0;
    gc.cpu.ctr = 0;
    bc(&mut gc, &Instruction(d_form(16, 0b10000, 0, 0x20)));
    assert_eq!((gc.cpu.nia, gc.cpu.ctr), (0xFFF0_0120, 0xFFFF_FFFF));
    // condition only
    gc.cpu.nia = 0;
    gc.cpu.cr = ConditionRegister(0x2000_0000);
    bc(&mut gc, &Instruction(d_form(16, 0b01100, 2, 0x20)));
    assert_eq!((gc.cpu.nia, gc.cpu.ctr), (0xFFF0_0120, 0xFFFF_FFFF));
    gc.cpu.nia = 0;
    bc(&mut gc, &Instruction(d_form(16, 0b01100, 1, 0x20)));
    assert_eq!(gc.cpu.nia, 0);
    // both: all four combinations
    for (ctr, bit, taken) in [(2u32, true, true), (2, false, false), (1, true, false), (1, false, false)] {
        gc.cpu.nia = 0;
        gc.cpu.ctr = ctr;
        gc.cpu.cr = ConditionRegister(if bit { 0x2000_0000 } else { 0 });
        bc(&mut gc, &Instruction(d_form(16, 0b01000, 2, 0x20)));
        assert_eq!(gc.cpu.nia == 0xFFF0_0120, taken);
        assert_eq!(gc.cpu.ctr, ctr - 1);
    }
}

#[test]
fn branch_links_whether_taken_or_not() {
    let mut gc = machine();
    gc.cpu.cr = ConditionRegister(0);
    bc(&mut gc, &Instruction(d_form(16, 0b01100, 2, 0x20) | 1));
    assert_eq!(gc.cpu.lr, 0xFFF0_0104);
    assert_eq!(gc.cpu.nia, 0xFFF0_0104);
    // absolute, backwards displacement
    bc(&mut gc, &Instruction(d_form(16, 0b10100, 0, 0xFFF0) | 2));
    assert_eq!(gc.cpu.nia, 0xFFFF_FFF0);
    // bclr goes to the old link register with its low bits cleared
    gc.cpu.lr = 0x8000_1237;
    bclr(&mut gc, &Instruction(x_form(19, 0b10100, 0, 0, 16, 1)));
    assert_eq!(gc.cpu.nia, 0x8000_1234);
    assert_eq!(gc.cpu.lr, 0xFFF0_0104);
}

#[test]
fn unconditional_branch_targets() {
    let mut gc = machine();
    load(&mut gc, &[(18 << 26) | 0x40 | 1]);
    assert_eq!(step(&mut gc), Ok(()));
    assert_eq!(gc.cpu.cia, 0xFFF0_0140);
    assert_eq!(gc.cpu.lr, 0xFFF0_0104);
    assert_eq!(sext_26(0x03FF_FFFC), -4);
    assert_eq!(sext_26(0x0000_0040), 0x40);
    assert_eq!(sext_12(0x7FF), 0x7FF);
    assert_eq!(sext_12(0x800), -2048);
    assert_eq!(sext_12(0xFFF), -1);
}

#[test]
fn add_wraps_and_addc_carries() {
    let mut gc = machine();
    for (a, b) in [(0u32, 0u32), (1, 2), (0xFFFF_FFFF, 1), (0x8000_0000, 0x8000_0000), (0xFFFF_FFFF, 0xFFFF_FFFF), (0x1234_5678, 0xEDCB_A988)] {
        gc.cpu.gprs[4] = a;
        gc.cpu.gprs[5] = b;
        assert_eq!(execute(&mut gc, &Instruction(x_form(31, 3, 4, 5, 266, 0))), Ok(()));
        assert_eq!(gc.cpu.gprs[3] as u64, (a as u64 + b as u64) % (1u64 << 32));
        assert_eq!(addc(&mut gc, &Instruction(x_form(31, 3, 4, 5, 10, 0))), Ok(()));
        assert_eq!(gc.cpu.gprs[3], a.wrapping_add(b));
        assert_eq!(gc.cpu.xer.ca(), (a as u64 + b as u64) >> 32 != 0);
    }
    // adde takes the carry in
    gc.cpu.gprs[4] = 0xFFFF_FFFF;
    gc.cpu.gprs[5] = 0;
    gc.cpu.xer.set_ca(true);
    assert_eq!(adde(&mut gc, &Instruction(x_form(31, 3, 4, 5, 138, 0))), Ok(()));
    assert_eq!(gc.cpu.gprs[3], 0);
    assert!(gc.cpu.xer.ca());
}

#[test]
fn overflow_recording_forms_are_reported() {
    let mut gc = machine();
    gc.cpu.gprs[4] = 1;
    gc.cpu.gprs[5] = 2;
    let word = x_form(31, 3, 4, 5, 266, 0) | (1 << 10);
    let fault = Fault::UnimplementedOpcode { primary: 31, secondary: 266 + 512, instruction: word };
    assert_eq!(crude::cpu::arithmetic::add(&mut gc, &Instruction(word)), Err(fault));
    // the sum was written all the same
    assert_eq!(gc.cpu.gprs[3], 3);
    // through the dispatcher the form selects no handler, and nothing is written
    gc.cpu.gprs[3] = 0;
    assert_eq!(execute(&mut gc, &Instruction(word)), Err(fault));
    assert_eq!(gc.cpu.gprs[3], 0);
}

#[test]
fn subtract_family() {
    let mut gc = machine();
    gc.cpu.gprs[4] = 5;
    gc.cpu.gprs[5] = 3;
    // rD = rB - rA = 3 - 5
    assert_eq!(subfc(&mut gc, &Instruction(x_form(31, 3, 4, 5, 8, 0))), Ok(()));
    assert_eq!(gc.cpu.gprs[3], 0xFFFF_FFFE);
    assert!(!gc.cpu.xer.ca());
    gc.cpu.gprs[5] = 5;
    assert_eq!(subfc(&mut gc, &Instruction(x_form(31, 3, 4, 5, 8, 1))), Ok(()));
    assert_eq!(gc.cpu.gprs[3], 0);
    assert!(gc.cpu.xer.ca());
    assert_eq!(gc.cpu.cr.get_reg(0), 0b0010);
    // subfe with carry clear computes rB - rA - 1
    gc.cpu.xer.set_ca(false);
    assert_eq!(subfe(&mut gc, &Instruction(x_form(31, 3, 4, 5, 136, 0))), Ok(()));
    assert_eq!(gc.cpu.gprs[3], 0xFFFF_FFFF);
    // subfic: immediate minus rA, whatever the low bits of the immediate
    gc.cpu.gprs[4] = 1;
    subfic(&mut gc, &Instruction(d_form(8, 3, 4, 0x0401)));
    assert_eq!(gc.cpu.gprs[3], 0x400);
    assert!(gc.cpu.xer.ca());
    neg(&mut gc, &Instruction(x_form(31, 3, 4, 0, 104, 0)));
    assert_eq!(gc.cpu.gprs[3], 0xFFFF_FFFF);
}

#[test]
fn multiply_family() {
    let mut gc = machine();
    gc.cpu.gprs[4] = 0xFFFF_FFFE; // -2
    gc.cpu.gprs[5] = 3;
    mullw(&mut gc, &Instruction(x_form(31, 3, 4, 5, 235, 1) | (1 << 10)));
    assert_eq!(gc.cpu.gprs[3], 0xFFFF_FFFA);
    assert!(!gc.cpu.xer.ov());
    assert_eq!(gc.cpu.cr.get_reg(0), 0b1000);
    gc.cpu.gprs[4] = 0x4000_0000;
    gc.cpu.gprs[5] = 4;
    mullw(&mut gc, &Instruction(x_form(31, 3, 4, 5, 235, 0) | (1 << 10)));
    assert_eq!(gc.cpu.gprs[3], 0);
    assert!(gc.cpu.xer.ov());
    gc.cpu.gprs[4] = 0xFFFF_FFFF;
    gc.cpu.gprs[5] = 0xFFFF_FFFF;
    mulhwu(&mut gc, &Instruction(x_form(31, 3, 4, 5, 11, 0)));
    assert_eq!(gc.cpu.gprs[3], 0xFFFF_FFFE);
    assert_eq!(execute(&mut gc, &Instruction(d_form(7, 3, 4, 0xFFFF))), Ok(()));
    assert_eq!(gc.cpu.gprs[3], 1);
}

#[test]
fn compares_write_the_selected_field_only() {
    let mut gc = machine();
    gc.cpu.cr = ConditionRegister(0xFFFF_FFFF);
    gc.cpu.gprs[4] = 0xFFFF_FFFF;
    gc.cpu.gprs[5] = 1;
    // signed: -1 < 1, into field 3
    assert_eq!(execute(&mut gc, &Instruction(x_form(31, 3 << 2, 4, 5, 0, 0))), Ok(()));
    assert_eq!(gc.cpu.cr.0, 0xFFF8_FFFF);
    // unsigned: 0xFFFFFFFF > 1, into field 7
    cmpl(&mut gc, &Instruction(x_form(31, 7 << 2, 4, 5, 32, 0)));
    assert_eq!(gc.cpu.cr.0, 0xFFF8_FFF4);
    // the summary overflow bit comes along
    gc.cpu.xer = XER(0x8000_0000);
    assert_eq!(execute(&mut gc, &Instruction(d_form(10, 0, 5, 1))), Ok(()));
    assert_eq!(gc.cpu.cr.get_reg(0), 0b0011);
    assert_eq!(execute(&mut gc, &Instruction(d_form(11, 1 << 2, 4, 0xFFFE))), Ok(()));
    assert_eq!(gc.cpu.cr.get_reg(1), 0b0101);
}

#[test]
fn condition_field_write_is_isolated_and_idempotent() {
    for i in 0..8usize {
        let mut cr = ConditionRegister(0xA5A5_5A5A);
        let before: Vec<usize> = (0..8).map(|j| cr.get_reg(j)).collect();
        cr.set_reg(i, 0x1236);
        let once = cr;
        cr.set_reg(i, 0x1236);
        assert_eq!(cr, once);
        for j in 0..8usize {
            assert_eq!(cr.get_reg(j), if j == i { 6 } else { before[j] });
        }
    }
}

#[test]
fn rotate_masks() {
    assert_eq!(mask(0, 31), 0xFFFF_FFFF);
    assert_eq!(mask(0, 0), 0x8000_0000);
    assert_eq!(mask(31, 31), 0x0000_0001);
    assert_eq!(mask(8, 15), 0x00FF_0000);
    assert_eq!(mask(10, 5), !mask(6, 9));
    assert_eq!(mask(10, 5), 0xFC3F_FFFF);
    assert_eq!(mask(1, 0), 0xFFFF_FFFF);
    for mb in 0..32usize {
        for me in 0..32usize {
            let m = mask(mb, me);
            for k in 0..32usize {
                let inside = if mb <= me { mb <= k && k <= me } else { k <= me || mb <= k };
                assert_eq!((m >> (31 - k)) & 1 == 1, inside);
            }
        }
    }
}

#[test]
fn rotate_and_mask_instructions() {
    let mut gc = machine();
    gc.cpu.gprs[4] = 0x1234_5678;
    // rlwinm r3,r4,8,24,31: the top byte
    let word = (21 << 26) | (4 << 21) | (3 << 16) | (8 << 11) | (24 << 6) | (31 << 1);
    rlwinm(&mut gc, &Instruction(word));
    assert_eq!(gc.cpu.gprs[3], 0x12);
    // shift of zero leaves the word
    rlwinm(&mut gc, &Instruction((21 << 26) | (4 << 21) | (3 << 16) | (31 << 1)));
    assert_eq!(gc.cpu.gprs[3], 0x1234_5678);
    // rlwimi inserts under the mask
    gc.cpu.gprs[3] = 0xFFFF_FFFF;
    rlwimi(&mut gc, &Instruction((20 << 26) | (4 << 21) | (3 << 16) | (16 << 11) | (0 << 6) | (15 << 1)));
    assert_eq!(gc.cpu.gprs[3], 0x5678_FFFF);
}

#[test]
fn logical_instructions() {
    let mut gc = machine();
    gc.cpu.gprs[4] = 0xF0F0_8001;
    gc.cpu.gprs[5] = 0x0FF0_0003;
    for (sec, expect) in [(28u32, 0x00F0_0001u32), (444, 0xFFF0_8003), (316, 0xFF00_8002), (124, 0x000F_7FFC), (60, 0xF000_8000)] {
        assert_eq!(execute(&mut gc, &Instruction(x_form(31, 4, 3, 5, sec, 0))), Ok(()));
        assert_eq!(gc.cpu.gprs[3], expect);
    }
    assert_eq!(execute(&mut gc, &Instruction(d_form(24, 4, 3, 0x0F0E))), Ok(()));
    assert_eq!(gc.cpu.gprs[3], 0xF0F0_8F0F);
    assert_eq!(execute(&mut gc, &Instruction(d_form(25, 4, 3, 0x0F0E))), Ok(()));
    assert_eq!(gc.cpu.gprs[3], 0xFFFE_8001);
    assert_eq!(execute(&mut gc, &Instruction(d_form(27, 4, 3, 0xF0F0))), Ok(()));
    assert_eq!(gc.cpu.gprs[3], 0x0000_8001);
    assert_eq!(execute(&mut gc, &Instruction(d_form(28, 4, 3, 0x8000))), Ok(()));
    assert_eq!(gc.cpu.gprs[3], 0x8000);
    assert_eq!(gc.cpu.cr.get_reg(0), 0b0100);
    extsh(&mut gc, &Instruction(x_form(31, 4, 3, 0, 922, 0)));
    assert_eq!(gc.cpu.gprs[3], 0xFFFF_8001);
    assert_eq!(execute(&mut gc, &Instruction(x_form(31, 5, 3, 0, 26, 0))), Ok(()));
    assert_eq!(gc.cpu.gprs[3], 4);
    // slw and srw by the low five bits
    gc.cpu.gprs[5] = 36;
    assert_eq!(execute(&mut gc, &Instruction(x_form(31, 4, 3, 5, 24, 0))), Ok(()));
    assert_eq!(gc.cpu.gprs[3], 0x0F08_0010);
    assert_eq!(execute(&mut gc, &Instruction(x_form(31, 4, 3, 5, 536, 0))), Ok(()));
    assert_eq!(gc.cpu.gprs[3], 0x0F0F_0800);
}

#[test]
fn arithmetic_shift_and_its_carry() {
    let mut gc = machine();
    let word = Instruction(x_form(31, 4, 3, 5, 792, 0));
    for (value, shift, result, carry) in [
        (0x8000_0001u32, 1u32, 0xC000_0000u32, true),
        (0x8000_0000, 1, 0xC000_0000, false),
        (0x7FFF_FFFF, 4, 0x07FF_FFFF, false),
        (0xFFFF_FFFF, 0, 0xFFFF_FFFF, false),
        (0xFFFF_FFFF, 31, 0xFFFF_FFFF, true),
        (0x8000_0000, 32, 0xFFFF_FFFF, true),
        (0x7000_0000, 33, 0, false),
    ] {
        gc.cpu.gprs[4] = value;
        gc.cpu.gprs[5] = shift;
        sraw(&mut gc, &word);
        assert_eq!(gc.cpu.gprs[3], result);
        assert_eq!(gc.cpu.xer.ca(), carry);
    }
    assert_eq!(gc.cpu.cr.get_reg(0), 0b0010);
}

#[test]
fn condition_register_bit_operations() {
    let mut gc = machine();
    gc.cpu.cr = ConditionRegister(0x4000_0000);
    // crxor 6,1,2: bit 6 = bit 1 xor bit 2 = 1
    crxor(&mut gc, &Instruction(x_form(19, 6, 1, 2, 193, 0)));
    assert_eq!(gc.cpu.cr.0, 0x4200_0000);
    // crclr 6
    crxor(&mut gc, &Instruction(x_form(19, 6, 6, 6, 193, 0)));
    assert_eq!(gc.cpu.cr.0, 0x4000_0000);
    assert!(gc.cpu.cr.bit(1));
    assert!(!gc.cpu.cr.bit(0));
}

#[test]
fn decoder_fields() {
    let i = Instruction(0xFFFF_FFFF);
    assert_eq!((i.opcd(), i.d(), i.a(), i.b(), i.s()), (63, 31, 31, 31, 31));
    assert_eq!((i.simm(), i.uimm(), i.sec_opcd(), i.spr(), i.tbr()), (-1, 0xFFFF, 0x3FF, 0x3FF, 0x3FF));
    assert_eq!((i.sr(), i.me(), i.mb(), i.sh(), i.crd(), i.bi(), i.bo()), (15, 31, 31, 31, 7, 31, 31));
    assert_eq!((i.bd(), i.li(), i.uimm_d(), i.i(), i.fm()), (0x3FFF, 0xFF_FFFF, 0xFFF, 7, 0xFF));
    assert!(i.rc() && i.oe() && i.lk() && i.aa() && i.w());
    let z = Instruction(0);
    assert_eq!((z.opcd(), z.simm(), z.spr()), (0, 0, 0));
    assert!(!z.rc() && !z.oe() && !z.lk() && !z.aa() && !z.w());
    // mtspr r4 to LR: the halves of the register number are swapped in the word
    let lr = Instruction(x_form(31, 4, 8, 0, 467, 0));
    assert_eq!(lr.spr(), 8);
    let hid0 = Instruction(x_form(31, 4, 0b10000, 0b11111, 467, 0));
    assert_eq!(hid0.spr(), 0b11111_10000);
    assert_eq!(Instruction(x_form(31, 4, 0b01100, 0b01000, 371, 0)).tbr(), 268);
    assert_eq!(Instruction(0x0000_8000).simm(), -32768);
    assert_eq!(Instruction(0x0000_7FFF).simm(), 32767);
    assert_eq!(Instruction(0x0000_8000).simm_word(), 0xFFFF_8000);
}

#[test]
fn special_register_moves() {
    let mut gc = machine();
    gc.cpu.gprs[4] = 0xCAFE_F00D;
    for (spr, read_back) in [(8usize, true), (9, false), (0b11100_10011, true), (0b11100_11000, true), (0b11101_11010, true), (0b11111_10000, true), (0b11111_11001, true)] {
        let field = (((spr & 0x1F) << 5) | (spr >> 5)) as u32;
        let to = Instruction((31 << 26) | (4 << 21) | (field << 11) | (467 << 1));
        assert_eq!(mtspr(&mut gc, &to), Ok(()));
        let from = Instruction((31 << 26) | (6 << 21) | (field << 11) | (339 << 1));
        gc.cpu.gprs[6] = 0;
        if read_back {
            assert_eq!(mfspr(&mut gc, &from), Ok(()));
            assert_eq!(gc.cpu.gprs[6], 0xCAFE_F00D);
        } else {
            assert_eq!(mfspr(&mut gc, &from), Err(Fault::UnimplementedSpr { spr, instruction: from.0 }));
        }
    }
    assert_eq!((gc.cpu.lr, gc.cpu.ctr, gc.cpu.gqrs[3].0, gc.cpu.hid2, gc.cpu.pmcs[1], gc.cpu.hid0, gc.cpu.l2cr), (0xCAFE_F00D, 0xCAFE_F00D, 0xCAFE_F00D, HID2(0xCAFE_F00D), 0xCAFE_F00D, 0xCAFE_F00D, 0xCAFE_F00D));
    // the translation registers: IBAT2L and DBAT3U
    for spr in [0b10000_10101usize, 0b10000_11110] {
        let field = (((spr & 0x1F) << 5) | (spr >> 5)) as u32;
        assert_eq!(mtspr(&mut gc, &Instruction((31 << 26) | (4 << 21) | (field << 11) | (467 << 1))), Ok(()));
    }
    assert_eq!(gc.cpu.mmu.ibats[2], Bat(0, 0xCAFE_F00D));
    assert_eq!(gc.cpu.mmu.dbats[3], Bat(0xCAFE_F00D, 0));
    // an unknown register is reported and changes nothing
    let unknown = Instruction((31 << 26) | (4 << 21) | (1 << 16) | (467 << 1));
    assert_eq!(mtspr(&mut gc, &unknown), Err(Fault::UnimplementedSpr { spr: 1, instruction: unknown.0 }));
    // time base
    gc.cpu.tb = 0x1122_3344_5566_7788;
    assert_eq!(mftb(&mut gc, &Instruction(x_form(31, 6, 0b01100, 0b01000, 371, 0))), Ok(()));
    assert_eq!(gc.cpu.gprs[6], 0x5566_7788);
    assert_eq!(mftb(&mut gc, &Instruction(x_form(31, 6, 0b01101, 0b01000, 371, 0))), Ok(()));
    assert_eq!(gc.cpu.gprs[6], 0x1122_3344);
    let bad = Instruction(x_form(31, 6, 0, 0, 371, 0));
    assert_eq!(mftb(&mut gc, &bad), Err(Fault::UnimplementedSpr { spr: 0, instruction: bad.0 }));
    // machine state and segment registers, through the dispatcher
    assert_eq!(execute(&mut gc, &Instruction(x_form(31, 4, 0, 0, 146, 0))), Ok(()));
    assert_eq!(gc.cpu.msr.0, 0xCAFE_F00D);
    assert_eq!(execute(&mut gc, &Instruction(x_form(31, 7, 0, 0, 83, 0))), Ok(()));
    assert_eq!(gc.cpu.gprs[7], 0xCAFE_F00D);
    assert_eq!(execute(&mut gc, &Instruction(x_form(31, 4, 5, 0, 210, 0))), Ok(()));
    assert_eq!(gc.cpu.mmu.srs[5], 0xCAFE_F00D);
}

#[test]
fn floating_point_status_moves() {
    let mut gc = machine();
    gc.cpu.fpscr.0 = 0x1234_5678;
    gc.cpu.fprs[2] = FloatingPointRegister::from_u64(0xAAAA_BBBB_CCCC_DDDD);
    assert_eq!(execute(&mut gc, &Instruction(x_form(63, 2, 0, 0, 583, 0))), Ok(()));
    assert_eq!(gc.cpu.fprs[2].as_u64(), 0xAAAA_BBBB_1234_5678);
    // mtfsf with field mask 0b1000_0001: the top and the bottom field
    gc.cpu.fprs[3] = FloatingPointRegister::from_paired_u32((0xFEDC_BA98, 0));
    let word = (63 << 26) | (0x81 << 17) | (3 << 11) | (711 << 1);
    assert_eq!(mtfsf(&mut gc, &Instruction(word)), Ok(()));
    assert_eq!(gc.cpu.fpscr.0, 0xF234_5678 & 0xFFFF_FFF0 | 0x8);
    // the recording forms are reported after the move
    let word = x_form(63, 4, 0, 2, 72, 1);
    assert_eq!(execute(&mut gc, &Instruction(word)), Err(Fault::UnimplementedOpcode { primary: 63, secondary: 72, instruction: word }));
    assert_eq!(gc.cpu.fprs[4].as_u64(), 0xAAAA_BBBB_1234_5678);
    // ps_mr needs paired-single mode
    let word = x_form(4, 5, 0, 2, 72, 0);
    assert_eq!(execute(&mut gc, &Instruction(word)), Err(Fault::UnimplementedOpcode { primary: 4, secondary: 72, instruction: word }));
    gc.cpu.hid2 = HID2(1 << 29);
    assert_eq!(execute(&mut gc, &Instruction(word)), Ok(()));
    assert_eq!(gc.cpu.fprs[5].as_paired_u32(), (0x1234_5678, 0xAAAA_BBBB));
}

#[test]
fn floating_point_register_views() {
    let mut r = FloatingPointRegister::from_paired_u32((1, 2));
    assert_eq!(r.as_u64(), 0x0000_0002_0000_0001);
    *r.as_u64_mut() = 0x0000_0004_0000_0003;
    assert_eq!(r.as_paired_u32(), (3, 4));
    r.as_paired_u32_mut().0 = 9;
    assert_eq!(r.as_u64(), 0x0000_0004_0000_0009);
}

#[test]
fn unknown_opcodes_are_reported_with_their_fields() {
    let mut gc = machine();
    load(&mut gc, &[0x0000_0000]);
    let before = gc.cpu.cia;
    assert_eq!(step(&mut gc), Err(Fault::UnimplementedOpcode { primary: 0, secondary: 0, instruction: 0 }));
    // the instruction did not retire
    assert_eq!(gc.cpu.cia, before);
    assert_eq!(gc.cpu.tb, 0);
    for word in [x_form(31, 1, 2, 3, 1, 0), x_form(19, 0, 0, 0, 17, 0), x_form(63, 0, 0, 0, 1, 0), 0xE800_0000u32] {
        let i = Instruction(word);
        assert_eq!(execute(&mut gc, &i), Err(Fault::UnimplementedOpcode { primary: i.opcd(), secondary: i.sec_opcd(), instruction: word }));
    }
    // run stops at the first fault
    load(&mut gc, &[d_form(14, 3, 0, 1), 0]);
    assert_eq!(run(&mut gc, 10), Err(Fault::UnimplementedOpcode { primary: 0, secondary: 0, instruction: 0 }));
    assert_eq!(gc.cpu.gprs[3], 1);
    assert_eq!(gc.cpu.cia, 0xFFF0_0104);
}

#[test]
fn block_address_translation() {
    let mut mmu = Mmu::new();
    let off = MachineStateRegister(0);
    assert_eq!(mmu.translate_addr(false, 0x8000_1234, &off), Ok(0x8000_1234));
    let data_on = MachineStateRegister(1 << 4);
    assert_eq!(mmu.translate_addr(false, 0x8000_1234, &data_on), Err(Fault::TranslationMiss { address: 0x8000_1234 }));
    // instruction fetches still go untranslated
    assert_eq!(mmu.translate_addr(true, 0x8000_1234, &data_on), Ok(0x8000_1234));
    mmu.write_dbatu(0, 0x8000_0003);
    mmu.write_dbatl(0, 0x0000_0002);
    assert_eq!(mmu.translate_addr(false, 0x8000_1234, &data_on), Ok(0x0000_1234));
    assert_eq!(mmu.translate_addr(false, 0x8001_FFFF, &data_on), Ok(0x0001_FFFF));
    assert_eq!(mmu.translate_addr(false, 0x8002_0000, &data_on), Err(Fault::TranslationMiss { address: 0x8002_0000 }));
    assert_eq!(mmu.translate_addr(false, 0x9000_0000, &data_on), Err(Fault::TranslationMiss { address: 0x9000_0000 }));
    // a longer block: 256 MiB at 0xC000_0000 to 0x1000_0000, supervisor only
    mmu.write_dbatu(2, 0xC000_0000 | (0x7FF << 2) | 2);
    mmu.write_dbatl(2, 0x1000_0000);
    assert_eq!(mmu.translate_addr(false, 0xC123_4567, &data_on), Ok(0x1123_4567));
    let user = MachineStateRegister((1 << 4) | (1 << 14));
    assert_eq!(mmu.translate_addr(false, 0xC123_4567, &user), Err(Fault::TranslationMiss { address: 0xC123_4567 }));
    assert_eq!(mmu.translate_addr(false, 0x8000_1234, &user), Ok(0x0000_1234));
    // the first matching entry wins
    mmu.write_dbatu(1, 0x8000_0003);
    mmu.write_dbatl(1, 0x0040_0000);
    assert_eq!(mmu.translate_addr(false, 0x8000_1234, &data_on), Ok(0x0000_1234));
    let bat = Bat(0x8000_1FFF, 0x0012_007A);
    assert_eq!((bat.bepi(), bat.bl(), bat.vs(), bat.vp(), bat.brpn(), bat.wimg(), bat.pp()), (0x4000, 0x7FF, true, true, 9, 0xF, 2));
}

#[test]
fn exceptions_are_taken_in_order() {
    let mut cpu = Cpu::new();
    cpu.exceptions = 3;
    cpu.exception();
    assert_eq!((cpu.cia, cpu.exceptions), (0x100, 2));
    cpu.msr = MachineStateRegister(0x0001_8041);
    cpu.nia = 0x1234;
    cpu.exception();
    assert_eq!((cpu.srr0, cpu.srr1, cpu.exceptions), (0x1234, 0x0000_8041, 0));
    assert_eq!(cpu.msr.0, 0x0001_8041 & !0x04EF36);
    cpu.exceptions = 1;
    cpu.msr = MachineStateRegister(1 << 6);
    cpu.exception();
    assert_eq!(cpu.cia, 0xFFF0_0100);
}

#[test]
fn status_register_bits() {
    let mut msr = MachineStateRegister(0);
    msr.set_le(true);
    assert!(msr.le());
    msr.set_le(false);
    assert_eq!(msr.0, 0);
    let all = MachineStateRegister(0xFFFF_FFFF);
    assert!(all.pow() && all.ile() && all.ee() && all.pr() && all.fp() && all.me() && all.fe0() && all.se() && all.be() && all.fe1() && all.ip() && all.ir() && all.dr() && all.pm() && all.ri() && all.le());
    let mut xer = XER(0x0000_007F);
    assert_eq!(xer.byte_count(), 0x7F);
    xer.set_ca(true);
    xer.set_ov(true);
    xer.set_so(true);
    assert_eq!(xer.0, 0xE000_007F);
    xer.set_ov(false);
    assert!(xer.ca() && !xer.ov() && xer.so());
    let gqr = crude::cpu::GraphicsQuantizationRegister(0x3F07_2A05);
    assert_eq!((gqr.st_type(), gqr.st_scale(), gqr.ld_type(), gqr.ld_scale()), (5, 0x2A, 7, 0x3F));
    let hid2 = HID2(0xA500_0000);
    assert!(hid2.lsqe() && !hid2.wpe() && hid2.pse() && !hid2.lce());
    assert_eq!(hid2.dmaql(), 5);
    let fpscr = crude::cpu::FloatingPointStatusControlRegister(0x8001_F003);
    assert_eq!((fpscr.rn(), fpscr.fprf(), fpscr.fx(), fpscr.ni()), (3, 0x1F, true, false));
}
