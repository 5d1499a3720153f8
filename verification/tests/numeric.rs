use crude::cpu::instr::Instruction;
use crude::cpu::load_store::{lfs, psq_l, stfs};
use crude::cpu::util::{convert_to_double, convert_to_single, dequantize_factor, dequantized, scale_single};
use crude::cpu::{FloatingPointRegister, GraphicsQuantizationRegister, HID2};
use crude::dsp::DSP;
use crude::fault::Fault;
use crude::Gamecube;

fn machine() -> Gamecube {
    let dump = vec![0u8; 0x1000];
    let (_dsp, client) = DSP::new(&dump);
    Gamecube::new(vec![0u8; 0x20_0000], vec![0u8; 0x4000], client)
}

fn table() -> Vec<f32> {
    (0..64u32).map(|s| if s < 32 { 1.0 / ((1u64 << s) as f32) } else { (1u64 << (64 - s)) as f32 }).collect()
}

const SAMPLES: [u32; 24] = [
    0x0000_0000, 0x8000_0000, 0x3F80_0000, 0xBF80_0000, 0x0000_0001, 0x8000_0001, 0x007F_FFFF, 0x0080_0000, 0x0080_0001,
    0x7F7F_FFFF, 0xFF7F_FFFF, 0x7F80_0000, 0xFF80_0000, 0x4F00_0000, 0x3000_0000, 0x0F80_0001, 0x0F80_0003, 0x1000_0005,
    0x0040_0000, 0x0000_0003, 0x4049_0FDB, 0x1234_5678, 0x0C7F_FFFF, 0x0E00_0001,
];

#[test]
fn dequantization_table_is_exact() {
    let table = table();
    for s in 0..64usize {
        assert_eq!(dequantize_factor(s), table[s].to_bits());
    }
    assert_eq!(dequantize_factor(0), 0x3F80_0000);
    assert_eq!(dequantize_factor(31), 0x3000_0000);
    assert_eq!(dequantize_factor(32), 0x4F80_0000);
    assert_eq!(dequantize_factor(63), 0x4000_0000);
}

#[test]
fn dequantized_integers_match_the_arithmetic() {
    let table = table();
    for s in 0..64usize {
        for val in [0u32, 1, 2, 3, 0x7F, 0x80, 0xFF, 0x100, 0x7FFF, 0x8000, 0xFFFF, 0x1_0000, 0xFFFF_FF85, 0x1234_ABCD] {
            assert_eq!(dequantized(val, 4, s), ((val as u8) as f32 * table[s]).to_bits());
            assert_eq!(dequantized(val, 5, s), ((val as u16) as f32 * table[s]).to_bits());
            assert_eq!(dequantized(val, 6, s), ((val as i8) as f32 * table[s]).to_bits());
            assert_eq!(dequantized(val, 7, s), ((val as i16) as f32 * table[s]).to_bits());
        }
    }
    assert_eq!(dequantized(200, 4, 3), 25.0f32.to_bits());
    assert_eq!(dequantized(0xFF, 6, 0), (-1.0f32).to_bits());
    assert_eq!(dequantized(3, 5, 63), 6.0f32.to_bits());
}

#[test]
fn dequantized_floats_match_the_arithmetic() {
    let table = table();
    for s in 0..64usize {
        for val in SAMPLES {
            for ty in [0usize, 1, 2, 3] {
                assert_eq!(dequantized(val, ty, s), (f32::from_bits(val) * table[s]).to_bits(), "{val:#010X} scale {s}");
            }
        }
    }
    // a NaN stays a NaN
    assert!(f32::from_bits(dequantized(0x7FC0_0001, 0, 5)).is_nan());
    assert!(f32::from_bits(dequantized(0x7F80_0001, 0, 40)).is_nan());
    assert_eq!(scale_single(0x3F80_0000, 1), 0x4000_0000);
    assert_eq!(scale_single(0x0000_0001, -1), 0);
    assert_eq!(scale_single(0x0000_0003, -1), 2);
    assert_eq!(scale_single(0x7F00_0000, 1), 0x7F80_0000);
}

#[test]
fn single_to_double_matches_the_widening() {
    for val in SAMPLES {
        assert_eq!(convert_to_double(val), (f32::from_bits(val) as f64).to_bits(), "{val:#010X}");
    }
    assert_eq!(convert_to_double(0x3F80_0000), 0x3FF0_0000_0000_0000);
    assert_eq!(convert_to_double(0x7FC0_0000), 0x7FF8_0000_0000_0000);
    assert_eq!(convert_to_double(0x0000_0001), 0x36A0_0000_0000_0000);
}

#[test]
fn double_to_single_matches_the_narrowing() {
    for val in SAMPLES {
        let wide = (f32::from_bits(val) as f64).to_bits();
        assert_eq!(convert_to_single(wide), val, "{val:#010X}");
    }
    assert_eq!(convert_to_single(0x3FF0_0000_0000_0000), 0x3F80_0000);
    // 2^-130 is a denormal in single precision
    assert_eq!(convert_to_single(2.0f64.powi(-130).to_bits()), 1 << 19);
    assert_eq!(convert_to_single(0x8000_0000_0000_0000), 0x8000_0000);
}

#[test]
fn quantized_load_reads_and_scales() {
    let mut gc = machine();
    gc.memory[0x100..0x108].copy_from_slice(&[0x10, 0xF0, 0x00, 0x03, 0x3F, 0x80, 0x00, 0x00]);
    gc.cpu.gprs[4] = 0x200;
    // psq_l fr1, -0x100(r4), 0, qr2
    let pair = Instruction((56 << 26) | (1 << 21) | (4 << 16) | (2 << 12) | 0xF00);
    let fault = Err(Fault::UnimplementedOpcode { primary: 56, secondary: pair.sec_opcd(), instruction: pair.0 });
    assert_eq!(psq_l(&mut gc, &pair), fault);
    gc.cpu.hid2 = HID2(1 << 31);
    // unsigned bytes, scale 4: divide by 16
    gc.cpu.gqrs[2] = GraphicsQuantizationRegister((4 << 24) | (4 << 16));
    assert_eq!(psq_l(&mut gc, &pair), Ok(()));
    assert_eq!(gc.cpu.fprs[1].as_paired_u32(), (1.0f32.to_bits(), 15.0f32.to_bits()));
    // signed bytes, scale -1: multiply by 2
    gc.cpu.gqrs[2] = GraphicsQuantizationRegister((63 << 24) | (6 << 16));
    assert_eq!(psq_l(&mut gc, &pair), Ok(()));
    assert_eq!(gc.cpu.fprs[1].as_paired_u32(), (32.0f32.to_bits(), (-32.0f32).to_bits()));
    // unsigned halves
    gc.cpu.gqrs[2] = GraphicsQuantizationRegister(5 << 16);
    assert_eq!(psq_l(&mut gc, &pair), Ok(()));
    assert_eq!(gc.cpu.fprs[1].as_paired_u32(), (4336.0f32.to_bits(), 3.0f32.to_bits()));
    // one value only: the second element is 1
    let one = Instruction(pair.0 | (1 << 15));
    gc.cpu.gqrs[2] = GraphicsQuantizationRegister(7 << 16);
    assert_eq!(psq_l(&mut gc, &one), Ok(()));
    assert_eq!(gc.cpu.fprs[1].as_paired_u32(), (4336.0f32.to_bits(), 1.0f32.to_bits()));
    // floats, unscaled, from the second word on
    gc.cpu.gqrs[2] = GraphicsQuantizationRegister(0);
    gc.cpu.gprs[4] = 0x204;
    assert_eq!(psq_l(&mut gc, &one), Ok(()));
    assert_eq!(gc.cpu.fprs[1].as_paired_u32(), (1.0f32.to_bits(), 1.0f32.to_bits()));
}

#[test]
fn single_precision_loads_and_stores() {
    let mut gc = machine();
    gc.memory[0x40..0x44].copy_from_slice(&0x4049_0FDBu32.to_be_bytes());
    let load = Instruction((48 << 26) | (2 << 21) | 0x40);
    assert_eq!(lfs(&mut gc, &load), Ok(()));
    assert_eq!(gc.cpu.fprs[2].as_u64(), (f32::from_bits(0x4049_0FDB) as f64).to_bits());
    let store = Instruction((52 << 26) | (2 << 21) | 0x48);
    assert_eq!(stfs(&mut gc, &store), Ok(()));
    assert_eq!(&gc.memory[0x48..0x4C], &[0x40, 0x49, 0x0F, 0xDB]);
    // in paired-single mode the word goes into both elements as it is
    gc.cpu.hid2 = HID2(1 << 29);
    assert_eq!(lfs(&mut gc, &load), Ok(()));
    assert_eq!(gc.cpu.fprs[2].as_paired_u32(), (0x4049_0FDB, 0x4049_0FDB));
    gc.cpu.fprs[3] = FloatingPointRegister::from_u64(0x0102_0304_0506_0708);
    assert_eq!(crude::cpu::load_store::stfd(&mut gc, &Instruction((54 << 26) | (3 << 21) | 0x50)), Ok(()));
    assert_eq!(&gc.memory[0x50..0x58], &[1, 2, 3, 4, 5, 6, 7, 8]);
    assert_eq!(crude::cpu::load_store::lfd(&mut gc, &Instruction((50 << 26) | (4 << 21) | 0x50)), Ok(()));
    assert_eq!(gc.cpu.fprs[4].as_u64(), 0x0102_0304_0506_0708);
}
