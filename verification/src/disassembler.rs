use vstd::prelude::*;
use crate::cpu::instr::{lemma_and_bound, Instruction};

verus! {

/// The character of the hexadecimal digit `k`, in upper case.
pub open spec fn spec_digit(k: u32) -> char {
    if k == 0 {
        '0'
    } else if k == 1 {
        '1'
    } else if k == 2 {
        '2'
    } else if k == 3 {
        '3'
    } else if k == 4 {
        '4'
    } else if k == 5 {
        '5'
    } else if k == 6 {
        '6'
    } else if k == 7 {
        '7'
    } else if k == 8 {
        '8'
    } else if k == 9 {
        '9'
    } else if k == 10 {
        'A'
    } else if k == 11 {
        'B'
    } else if k == 12 {
        'C'
    } else if k == 13 {
        'D'
    } else if k == 14 {
        'E'
    } else {
        'F'
    }
}

/// The character of the hexadecimal digit `k`.
#[verifier::when_used_as_spec(spec_digit)]
pub fn digit(k: u32) -> (r: char)
    ensures
        r == spec_digit(k),
{
    if k == 0 {
        '0'
    } else if k == 1 {
        '1'
    } else if k == 2 {
        '2'
    } else if k == 3 {
        '3'
    } else if k == 4 {
        '4'
    } else if k == 5 {
        '5'
    } else if k == 6 {
        '6'
    } else if k == 7 {
        '7'
    } else if k == 8 {
        '8'
    } else if k == 9 {
        '9'
    } else if k == 10 {
        'A'
    } else if k == 11 {
        'B'
    } else if k == 12 {
        'C'
    } else if k == 13 {
        'D'
    } else if k == 14 {
        'E'
    } else {
        'F'
    }
}

/// The name of the register `n`: the letter `r` and the number in decimal.
pub open spec fn register_text(n: usize) -> Seq<char> {
    if n >= 10 {
        seq!['r', spec_digit((n / 10) as u32), spec_digit((n % 10) as u32)]
    } else {
        seq!['r', spec_digit(n as u32)]
    }
}

/// The immediate `imm` as four hexadecimal digits after `0x`: its low
/// sixteen bits, so that a negative immediate shows in two's complement.
pub open spec fn immediate_text(imm: u32) -> Seq<char> {
    seq![
        '0',
        'x',
        spec_digit((imm >> 12) & 0xF),
        spec_digit((imm >> 8) & 0xF),
        spec_digit((imm >> 4) & 0xF),
        spec_digit(imm & 0xF),
    ]
}

/// The text of the instruction word `instr`: for `addis` the mnemonic, the
/// two registers and the immediate; for any other word `unknown_opcd`.
pub open spec fn disassembled(instr: u32) -> Seq<char> {
    let i = Instruction(instr);
    if i.opcd() == 15 {
        seq!['a', 'd', 'd', 'i', 's', ' '] + register_text(i.d()) + seq![','] + register_text(i.a()) + seq![','] + immediate_text(
            i.uimm_word(),
        )
    } else {
        seq!['u', 'n', 'k', 'n', 'o', 'w', 'n', '_', 'o', 'p', 'c', 'd']
    }
}

/// `String::from_iter` over the characters of `chars`: the string that is
/// made of them, in their order.
#[verifier::external_body]
fn string_of(chars: Vec<char>) -> (r: String)
    ensures
        r@ == chars@,
{
    String::from_iter(chars)
}

/// Appends the name of the register `n` to `out`.
fn push_register(out: &mut Vec<char>, n: usize)
    requires
        n < 32,
    ensures
        final(out)@ == old(out)@ + register_text(n),
{
    out.push('r');
    if n >= 10 {
        out.push(digit((n / 10) as u32));
        out.push(digit((n % 10) as u32));
    } else {
        out.push(digit(n as u32));
    }
    assert(out@ =~= old(out)@ + register_text(n));
}

/// Disassembles one instruction word.
pub fn disassemble(instr: u32) -> (r: String)
    ensures
        r@ == disassembled(instr),
{
    let i: Instruction = Instruction(instr);
    let mut out: Vec<char> = Vec::new();
    if i.opcd() == 15 {
        out.push('a');
        out.push('d');
        out.push('d');
        out.push('i');
        out.push('s');
        out.push(' ');
        push_register(&mut out, i.d());
        out.push(',');
        push_register(&mut out, i.a());
        out.push(',');
        let imm: u32 = i.uimm_word();
        out.push('0');
        out.push('x');
        out.push(digit((imm >> 12) & 0xF));
        out.push(digit((imm >> 8) & 0xF));
        out.push(digit((imm >> 4) & 0xF));
        out.push(digit(imm & 0xF));
        assert(out@ =~= disassembled(instr));
    } else {
        out.push('u');
        out.push('n');
        out.push('k');
        out.push('n');
        out.push('o');
        out.push('w');
        out.push('n');
        out.push('_');
        out.push('o');
        out.push('p');
        out.push('c');
        out.push('d');
        assert(out@ =~= disassembled(instr));
    }
    string_of(out)
}

} // verus!
