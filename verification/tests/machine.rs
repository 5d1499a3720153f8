use crude::audio_interface::{ai_read_u32, ai_write_u16, ai_write_u32};
use crude::cpu::instr::Instruction;
use crude::cpu::load_store::{lbzu, lhzx, lmw, lwzu, stbu, sth, stmw, stwu, stwx};
use crude::cpu::{execute, MachineStateRegister};
use crude::dsp::dsp_interface::{dsp_read_u16, dsp_write_u16, dsp_write_u32};
use crude::dsp::DSP;
use crude::external_interface::ad16::AD16;
use crude::external_interface::no_device::NoDevice;
use crude::external_interface::null::NullDevice;
use crude::external_interface::{dma_read, dma_write, exi_read_u32, exi_write_u32, imm_read, imm_write, EXIChannelControl, EXIChannelParams, EXIDevice};
use crude::fault::Fault;
use crude::memory_interface::mi_write_u16;
use crude::processor_interface::{pi_read_u32, pi_write_u32};
use crude::serial_interface::{si_read_u32, si_write_u32};
use crude::sram::Sram;
use crude::{descramble, Datum, Gamecube, Scrambler};

fn machine_over(bios: Vec<u8>) -> Gamecube {
    let dump = vec![0u8; 0x1000];
    let (_dsp, client) = DSP::new(&dump);
    Gamecube::new(bios, vec![0u8; 0x4000], client)
}

fn machine() -> Gamecube {
    machine_over(vec![0u8; 0x20_0000])
}

const KEY: [u8; 32] = [
    0x89, 0x7E, 0x47, 0x7F, 0xF4, 0x42, 0x3F, 0xE2, 0xA1, 0x44, 0x32, 0xA6, 0x30, 0x13, 0xBC, 0xD1, 0xDC, 0x12, 0xE0, 0xCC, 0xA5,
    0x65, 0x36, 0x8C, 0xDF, 0x2A, 0xBA, 0x9A, 0xEF, 0x28, 0x83, 0xAD,
];

#[test]
fn descrambling_reproduces_the_golden_vector() {
    let mut zeros = [0u8; 32];
    descramble(&mut zeros);
    assert_eq!(zeros, KEY);
    let mut counting: Vec<u8> = (0..16).collect();
    descramble(&mut counting);
    assert_eq!(counting, vec![0x89, 0x7F, 0x45, 0x7C, 0xF0, 0x47, 0x39, 0xE5, 0xA9, 0x4D, 0x38, 0xAD, 0x3C, 0x1E, 0xB2, 0xDE]);
    let mut nothing: [u8; 0] = [];
    descramble(&mut nothing);
    let mut s = Scrambler::start();
    for _ in 0..8 {
        s.clock();
    }
    assert_eq!(s.acc, 0x89);
}

#[test]
fn boot_image_is_descrambled_once_in_its_range() {
    let mut image = vec![0u8; 0x20_0000];
    image[0xFF] = 0x11;
    image[0x1A_FF00] = 0x22;
    let gc = machine_over(image);
    assert_eq!(gc.bios[0xFF], 0x11);
    assert_eq!(&gc.bios[0x100..0x120], &KEY);
    assert_eq!(gc.bios[0x1A_FF00], 0x22);
    assert_eq!(gc.bios.len(), 0x20_0000);
    assert_eq!(gc.memory.len(), 0x180_0000);
    assert!(gc.memory.iter().all(|b| *b == 0));
    // a fetch at the reset vector sees the descrambled image
    assert_eq!(gc.read_u32(0xFFF0_0100, true), Ok(0x897E_477F));
}

#[test]
fn memory_is_big_endian() {
    let mut gc = machine();
    assert_eq!(gc.write_u32(0x1000, 0x1122_3344), Ok(()));
    assert_eq!(&gc.memory[0x1000..0x1004], &[0x11, 0x22, 0x33, 0x44]);
    assert_eq!(gc.read_u8(0x1001), Ok(0x22));
    assert_eq!(gc.read_u16(0x1002), Ok(0x3344));
    assert_eq!(gc.read_u32(0x1000, false), Ok(0x1122_3344));
    assert_eq!(gc.write_u16(0x1006, 0xAABB), Ok(()));
    assert_eq!(gc.write_u8(0x1005, 0xCC), Ok(()));
    assert_eq!(gc.read_u64(0x1000), Ok(0x1122_3344_00CC_AABB));
    assert_eq!(gc.write_u64(0x2000, 0x0102_0304_0506_0708), Ok(()));
    assert_eq!(&gc.memory[0x1FFF..0x2009], &[0, 1, 2, 3, 4, 5, 6, 7, 8, 0]);
    assert_eq!(gc.write(0x2000, Datum::Half(0xFFEE)), Ok(()));
    assert_eq!(gc.read_u64(0x2000), Ok(0xFFEE_0304_0506_0708));
}

#[test]
fn unmapped_accesses_are_reported() {
    let mut gc = machine();
    assert_eq!(gc.read_u8(0x0180_0000), Err(Fault::UnmappedAddress { address: 0x0180_0000 }));
    assert_eq!(gc.read_u32(0x017F_FFFD, false), Err(Fault::UnmappedAddress { address: 0x017F_FFFD }));
    assert_eq!(gc.read_u32(0x017F_FFFC, false), Ok(0));
    assert_eq!(gc.read_u64(0x017F_FFF9), Err(Fault::UnmappedAddress { address: 0x017F_FFF9 }));
    assert_eq!(gc.write_u16(0x017F_FFFF, 1), Err(Fault::UnmappedAddress { address: 0x017F_FFFF }));
    assert_eq!(gc.write_u8(0x0C00_0000, 1), Err(Fault::UnmappedAddress { address: 0x0C00_0000 }));
    assert_eq!(gc.write_u32(0x0C00_7000, 1), Err(Fault::UnmappedAddress { address: 0x0C00_7000 }));
    assert_eq!(gc.write_u64(0xFFF0_0000, 1), Err(Fault::UnmappedAddress { address: 0xFFF0_0000 }));
    assert_eq!(gc.read_u32(0x8000_0000, false), Err(Fault::UnmappedAddress { address: 0x8000_0000 }));
    // the video and the disc interface are not modelled
    assert_eq!(gc.read_u16(0x0C00_2000), Err(Fault::UnimplementedPeripheralRegister { address: 0x0C00_2000 }));
    assert_eq!(gc.read_u32(0x0C00_6004, false), Err(Fault::UnimplementedPeripheralRegister { address: 0x0C00_6004 }));
    // with translation on and no entry, the access never reaches the bus
    gc.cpu.msr = MachineStateRegister(1 << 4);
    assert_eq!(gc.read_u8(0x10), Err(Fault::TranslationMiss { address: 0x10 }));
    assert_eq!(gc.write_u32(0x10, 1), Err(Fault::TranslationMiss { address: 0x10 }));
    assert_eq!(gc.read_u32(0xFFF0_0100, true), Ok(0x897E_477F));
    // a fetch beyond the end of a short image
    gc.bios.truncate(0x1000);
    let last = u32::from_be_bytes([gc.bios[0xFFC], gc.bios[0xFFD], gc.bios[0xFFE], gc.bios[0xFFF]]);
    assert_eq!(gc.read_u32(0xFFF0_0FFC, true), Ok(last));
    assert_eq!(gc.read_u32(0xFFF0_0FFD, true), Err(Fault::UnmappedAddress { address: 0xFFF0_0FFD }));
}

#[test]
fn peripheral_registers() {
    let mut gc = machine();
    assert_eq!(gc.write_u32(0x0C00_6C00, 0x55), Ok(()));
    assert_eq!(gc.ai.control, 0x55);
    assert_eq!(gc.read_u32(0x0C00_6C00, false), Ok(0x55));
    assert_eq!(ai_read_u32(&gc, 4), Err(Fault::UnimplementedPeripheralRegister { address: 0x0C00_6C04 }));
    assert_eq!(ai_write_u32(&mut gc, 8, 1), Err(Fault::UnimplementedPeripheralRegister { address: 0x0C00_6C08 }));
    ai_write_u16(&mut gc, 0, 0xFFFF);
    assert_eq!(gc.ai.control, 0x55);
    assert_eq!(gc.write_u16(0x0C00_401C, 0x1234), Ok(()));
    assert_eq!(gc.mi.mask_ints, 0x1234);
    assert_eq!(mi_write_u16(&mut gc, 0x26, 7), Ok(()));
    assert_eq!(mi_write_u16(&mut gc, 0x28, 7), Err(Fault::UnimplementedPeripheralRegister { address: 0x0C00_4028 }));
    assert_eq!(gc.write_u32(0x0C00_643C, 0x9), Ok(()));
    assert_eq!(gc.read_u32(0x0C00_643C, false), Ok(9));
    assert_eq!(si_read_u32(&gc, 0), 0);
    si_write_u32(&mut gc, 0, 5);
    assert_eq!(gc.si.clock_lock, 9);
    assert_eq!(gc.write_u32(0x0C00_3000, 0x9), Ok(()));
    assert_eq!(gc.read_u32(0x0C00_3004, false), Ok(0));
    pi_write_u32(&mut gc, 0, 1);
    assert_eq!(pi_read_u32(&gc, 0), 0);
}

#[test]
fn dsp_interface_registers_and_mailboxes() {
    let mut gc = machine();
    assert_eq!(gc.read_u16(0x0C00_500A), Ok(0x5));
    assert_eq!(gc.write_u16(0x0C00_5000, 0xBEEF), Ok(()));
    assert_eq!(gc.write_u16(0x0C00_5002, 0xF00D), Ok(()));
    assert_eq!((gc.dsp_client.dsp_mbox_h, gc.dsp_client.dsp_mbox_l), (0xBEEF, 0xF00D));
    gc.dsp_client.cpu_mbox_h = 0x8001;
    gc.dsp_client.cpu_mbox_l = 0x0002;
    assert_eq!((dsp_read_u16(&gc, 4), dsp_read_u16(&gc, 6)), (Ok(0x8001), Ok(0x0002)));
    assert_eq!(dsp_write_u16(&mut gc, 0x12, 3), Ok(()));
    assert_eq!(dsp_write_u16(&mut gc, 0x1A, 4), Ok(()));
    assert_eq!((gc.dsp.ar_size, gc.dsp.ar_refresh), (3, 4));
    assert_eq!(dsp_read_u16(&gc, 0), Err(Fault::UnimplementedPeripheralRegister { address: 0x0C00_5000 }));
    assert_eq!(dsp_write_u16(&mut gc, 0x04, 1), Err(Fault::UnimplementedPeripheralRegister { address: 0x0C00_5004 }));
    assert_eq!(dsp_write_u32(&mut gc, 0x2C, 1), Err(Fault::UnimplementedPeripheralRegister { address: 0x0C00_502C }));
    // a control write without the reset bit copies nothing
    gc.memory[0x0100_0000] = 0x77;
    assert_eq!(dsp_write_u16(&mut gc, 0x0A, 0x4), Ok(()));
    assert_eq!(gc.dsp_client.control_reg.0, 4);
    assert_eq!(gc.aram[0], 0);
}

#[test]
fn dsp_reset_copies_the_boot_image() {
    let mut gc = machine();
    // with translation off the boot image address is not backed by anything
    assert_eq!(dsp_write_u16(&mut gc, 0x0A, 0x1), Err(Fault::UnmappedAddress { address: 0x8100_0000 }));
    assert_eq!(gc.dsp_client.control_reg.0, 1);
    // map 0x8000_0000.. to physical 0 and try again
    gc.cpu.msr = MachineStateRegister(1 << 4);
    gc.cpu.mmu.write_dbatu(0, 0x8000_0000 | (0x7FF << 2) | 2);
    gc.cpu.mmu.write_dbatl(0, 0);
    for i in 0..0x2000 {
        gc.memory[0x0100_0000 + i] = (i % 251) as u8;
    }
    gc.aram[0x2000] = 0xEE;
    assert_eq!(gc.write_u16(0xCC00_500A, 0x0801), Err(Fault::TranslationMiss { address: 0xCC00_500A }));
    assert_eq!(dsp_write_u16(&mut gc, 0x0A, 0x0801), Ok(()));
    assert!(gc.dsp_client.control_reg.reset() && gc.dsp_client.control_reg.init() && !gc.dsp_client.control_reg.halt());
    for i in 0..0x2000 {
        assert_eq!(gc.aram[i], (i % 251) as u8);
    }
    assert_eq!(gc.aram[0x2000], 0xEE);
    // an audio RAM that is too small is reported
    gc.aram.truncate(0x1000);
    assert_eq!(dsp_write_u16(&mut gc, 0x0A, 0x1), Err(Fault::UnmappedAddress { address: 0x8100_0000 }));
}

#[test]
fn audio_ram_dma_moves_both_ways() {
    let mut gc = machine();
    gc.memory[0x100..0x108].copy_from_slice(&[1, 2, 3, 4, 5, 6, 7, 8]);
    assert_eq!(gc.write_u32(0x0C00_5020, 0x100), Ok(()));
    assert_eq!(gc.write_u32(0x0C00_5024, 0x10), Ok(()));
    // four half words to audio RAM
    assert_eq!(gc.write_u32(0x0C00_5028, 4), Ok(()));
    assert_eq!(&gc.aram[0x0F..0x19], &[0, 1, 2, 3, 4, 5, 6, 7, 8, 0]);
    assert_eq!(gc.dsp.ar_dma_cnt, 4);
    // two half words back, to another place
    assert_eq!(gc.write_u32(0x0C00_5020, 0x200), Ok(()));
    assert_eq!(gc.write_u32(0x0C00_5024, 0x12), Ok(()));
    assert_eq!(gc.write_u32(0x0C00_5028, 0x8000_0002), Ok(()));
    assert_eq!(&gc.memory[0x1FF..0x205], &[0, 3, 4, 5, 6, 0]);
    // a transfer that leaves audio RAM moves nothing
    assert_eq!(gc.write_u32(0x0C00_5024, 0x3FFE), Ok(()));
    assert_eq!(gc.write_u32(0x0C00_5028, 0x8000_0002), Err(Fault::UnmappedAddress { address: 0x3FFE }));
    assert_eq!(&gc.memory[0x200..0x204], &[3, 4, 5, 6]);
    assert_eq!(gc.write_u32(0x0C00_5020, 0x017F_FFFF), Ok(()));
    assert_eq!(gc.write_u32(0x0C00_5028, 0x7FFF_FFFF), Err(Fault::UnmappedAddress { address: 0x017F_FFFF }));
}

#[test]
fn integer_loads_and_stores() {
    let mut gc = machine();
    gc.cpu.gprs[4] = 0x1000;
    gc.cpu.gprs[5] = 0xDEAD_BEEF;
    gc.cpu.gprs[6] = 0x20;
    // stw r5, 8(r4); lwz r7, 8(r4)
    assert_eq!(execute(&mut gc, &Instruction((36 << 26) | (5 << 21) | (4 << 16) | 8)), Ok(()));
    assert_eq!(execute(&mut gc, &Instruction((32 << 26) | (7 << 21) | (4 << 16) | 8)), Ok(()));
    assert_eq!(gc.cpu.gprs[7], 0xDEAD_BEEF);
    // with rA = 0 the base is zero, and the displacement is signed
    assert_eq!(execute(&mut gc, &Instruction((38 << 26) | (5 << 21) | 0x30)), Ok(()));
    assert_eq!(gc.memory[0x30], 0xEF);
    assert_eq!(execute(&mut gc, &Instruction((34 << 26) | (8 << 21) | (4 << 16) | 0xF030)), Ok(()));
    assert_eq!(gc.cpu.gprs[8], 0xEF);
    assert_eq!(sth(&mut gc, &Instruction((44 << 26) | (5 << 21) | (4 << 16) | 0x10)), Ok(()));
    assert_eq!(execute(&mut gc, &Instruction((40 << 26) | (9 << 21) | (4 << 16) | 0x10)), Ok(()));
    assert_eq!(gc.cpu.gprs[9], 0xBEEF);
    // indexed forms
    assert_eq!(stwx(&mut gc, &Instruction((31 << 26) | (5 << 21) | (4 << 16) | (6 << 11) | (151 << 1))), Ok(()));
    assert_eq!(&gc.memory[0x1020..0x1024], &[0xDE, 0xAD, 0xBE, 0xEF]);
    assert_eq!(lhzx(&mut gc, &Instruction((31 << 26) | (10 << 21) | (4 << 16) | (6 << 11) | (279 << 1))), Ok(()));
    assert_eq!(gc.cpu.gprs[10], 0xDEAD);
    assert_eq!(execute(&mut gc, &Instruction((31 << 26) | (10 << 21) | (6 << 11) | (23 << 1))), Ok(()));
    assert_eq!(gc.cpu.gprs[10], 0);
    // update forms write the address back
    assert_eq!(stwu(&mut gc, &Instruction((37 << 26) | (5 << 21) | (4 << 16) | 0xFFF0)), Ok(()));
    assert_eq!(gc.cpu.gprs[4], 0x0FF0);
    assert_eq!(&gc.memory[0x0FF0..0x0FF4], &[0xDE, 0xAD, 0xBE, 0xEF]);
    assert_eq!(stbu(&mut gc, &Instruction((39 << 26) | (5 << 21) | (4 << 16) | 4)), Ok(()));
    assert_eq!(gc.cpu.gprs[4], 0x0FF4);
    assert_eq!(lbzu(&mut gc, &Instruction((35 << 26) | (11 << 21) | (4 << 16) | 0xFFFD)), Ok(()));
    assert_eq!((gc.cpu.gprs[11], gc.cpu.gprs[4]), (0xAD, 0x0FF1));
    assert_eq!(execute(&mut gc, &Instruction((41 << 26) | (11 << 21) | (4 << 16) | 1)), Ok(()));
    assert_eq!((gc.cpu.gprs[11], gc.cpu.gprs[4]), (0xBEEF, 0x0FF2));
    assert_eq!(lwzu(&mut gc, &Instruction((33 << 26) | (11 << 21) | (4 << 16) | 0xFFFE)), Ok(()));
    assert_eq!((gc.cpu.gprs[11], gc.cpu.gprs[4], gc.cpu.exceptions), (0xDEAD_BEEF, 0x0FF0, 0));
    // the invalid form raises the program exception and runs all the same
    assert_eq!(lwzu(&mut gc, &Instruction((33 << 26) | (4 << 21) | (4 << 16))), Ok(()));
    assert_eq!((gc.cpu.gprs[4], gc.cpu.exceptions), (0x0FF0, 2));
    // a store that fails does not write the address back
    gc.cpu.gprs[4] = 0x0200_0000;
    assert_eq!(stwu(&mut gc, &Instruction((37 << 26) | (5 << 21) | (4 << 16) | 4)), Err(Fault::UnmappedAddress { address: 0x0200_0004 }));
    assert_eq!(gc.cpu.gprs[4], 0x0200_0000);
}

#[test]
fn multiple_word_loads_and_stores() {
    let mut gc = machine();
    for r in 0..32 {
        gc.cpu.gprs[r] = 0x100 + r as u32;
    }
    gc.cpu.gprs[1] = 0x4000;
    assert_eq!(stmw(&mut gc, &Instruction((47 << 26) | (29 << 21) | (1 << 16) | 8)), Ok(()));
    assert_eq!(&gc.memory[0x4008..0x4014], &[0, 0, 1, 0x1D, 0, 0, 1, 0x1E, 0, 0, 1, 0x1F]);
    assert_eq!(gc.memory[0x4014], 0);
    gc.cpu.gprs[29] = 0;
    gc.cpu.gprs[30] = 0;
    gc.cpu.gprs[31] = 0;
    assert_eq!(lmw(&mut gc, &Instruction((46 << 26) | (30 << 21) | (1 << 16) | 8)), Ok(()));
    assert_eq!((gc.cpu.gprs[29], gc.cpu.gprs[30], gc.cpu.gprs[31]), (0, 0x11D, 0x11E));
    // a run that leaves memory stops at the first word that fails
    gc.cpu.gprs[1] = 0x017F_FFF8;
    gc.cpu.gprs[30] = 0xAAAA_AAAA;
    assert_eq!(stmw(&mut gc, &Instruction((47 << 26) | (29 << 21) | (1 << 16))), Err(Fault::UnmappedAddress { address: 0x0180_0000 }));
    assert_eq!(&gc.memory[0x017F_FFF8..], &[0, 0, 0, 0, 0xAA, 0xAA, 0xAA, 0xAA]);
    assert_eq!(lmw(&mut gc, &Instruction((46 << 26) | (29 << 21) | (1 << 16) | 4)), Err(Fault::UnmappedAddress { address: 0x0180_0000 }));
    assert_eq!((gc.cpu.gprs[29], gc.cpu.gprs[30]), (0xAAAA_AAAA, 0xAAAA_AAAA));
}

#[test]
fn boot_rom_is_read_through_the_external_interface() {
    let mut image = vec![0u8; 0x20_0000];
    image[0x10..0x14].copy_from_slice(&[0xDE, 0xAD, 0xBE, 0xEF]);
    let mut gc = machine_over(image);
    // select the second device of channel 0
    assert_eq!(gc.write_u32(0x0C00_6800, 0b010 << 7), Ok(()));
    assert_eq!(gc.read_u32(0x0C00_6800, false), Ok(0x100));
    // send the read command for address 0x10
    assert_eq!(gc.write_u32(0x0C00_6810, 0x10 << 6), Ok(()));
    assert_eq!(gc.write_u32(0x0C00_680C, 0x35), Ok(()));
    assert_eq!(gc.read_u32(0x0C00_680C, false), Ok(0x34));
    // read four bytes
    assert_eq!(gc.write_u32(0x0C00_680C, 0x31), Ok(()));
    assert_eq!(gc.read_u32(0x0C00_6810, false), Ok(0xDEAD_BEEF));
    // the same by DMA into main memory, from the descrambled part
    assert_eq!(gc.write_u32(0x0C00_6800, 0b010 << 7), Ok(()));
    assert_eq!(gc.write_u32(0x0C00_6810, 0x100 << 6), Ok(()));
    assert_eq!(gc.write_u32(0x0C00_680C, 0x35), Ok(()));
    assert_eq!(gc.write_u32(0x0C00_6804, 0x3000), Ok(()));
    assert_eq!(gc.write_u32(0x0C00_6808, 32), Ok(()));
    assert_eq!(gc.write_u32(0x0C00_680C, 0x03), Ok(()));
    assert_eq!(&gc.memory[0x3000..0x3020], &KEY);
    assert_eq!(gc.memory[0x3020], 0);
    assert_eq!(exi_read_u32(&gc, 0x04), Ok(0x3000));
    assert_eq!(exi_read_u32(&gc, 0x08), Ok(32));
}

#[test]
fn battery_backed_memory_is_reached_through_the_boot_rom() {
    let mut gc = machine();
    assert_eq!(exi_write_u32(&mut gc, 0x00, 0b010 << 7), Ok(()));
    assert_eq!(exi_write_u32(&mut gc, 0x10, 0x0080_0005 << 6), Ok(()));
    assert_eq!(exi_write_u32(&mut gc, 0x0C, 0x35), Ok(()));
    assert_eq!(exi_write_u32(&mut gc, 0x0C, 0x01), Ok(()));
    assert_eq!(exi_read_u32(&gc, 0x10), Ok(0x2C00_0000));
    // a write command stores the byte
    assert_eq!(exi_write_u32(&mut gc, 0x00, 0b010 << 7), Ok(()));
    assert_eq!(exi_write_u32(&mut gc, 0x10, 0x8000_0000 | (0x0080_0014 << 6)), Ok(()));
    assert_eq!(exi_write_u32(&mut gc, 0x0C, 0x35), Ok(()));
    assert_eq!(exi_write_u32(&mut gc, 0x10, 0x5A00_0000), Ok(()));
    assert_eq!(exi_write_u32(&mut gc, 0x0C, 0x05), Ok(()));
    match &gc.exi.channel0.devices[1] {
        crude::external_interface::Device::Bootrom(rom) => assert_eq!(rom.sram.as_byte_array()[0x14], 0x5A),
        _ => panic!("the second device of channel 0 is the boot ROM"),
    }
    // an address that selects neither the ROM nor the memory is reported
    assert_eq!(exi_write_u32(&mut gc, 0x00, 0b010 << 7), Ok(()));
    assert_eq!(exi_write_u32(&mut gc, 0x10, 0x0040_0000 << 6), Ok(()));
    assert_eq!(exi_write_u32(&mut gc, 0x0C, 0x35), Ok(()));
    assert_eq!(exi_write_u32(&mut gc, 0x0C, 0x01), Err(Fault::UnimplementedDeviceTransfer { command: 0x0040_0000 << 6 }));
}

#[test]
fn battery_backed_memory_at_reset() {
    let sram = Sram::new();
    let bytes = sram.as_byte_array();
    assert_eq!(&bytes[0..8], &[0, 0, 0, 0, 0x00, 0x2C, 0x00, 0x2C]);
    assert_eq!(bytes[23], 0x20);
    assert_eq!(&bytes[24..36], b"DOLPHINSLOTA");
    assert_eq!(&bytes[36..48], b"DOLPHINSLOTB");
    assert_eq!(&bytes[62..64], &[0x6E, 0x6D]);
    assert!(bytes[8..23].iter().chain(bytes[48..62].iter()).chain(bytes[64..].iter()).all(|b| *b == 0));
    let mut sram = sram;
    sram.as_byte_array_mut()[3] = 9;
    assert_eq!(sram.as_byte_array()[3], 9);
}

#[test]
fn external_interface_devices() {
    let mut gc = machine();
    // the AD16 is the first device of channel 2 and answers with its identifier
    assert_eq!(exi_write_u32(&mut gc, 0x28, 0b001 << 7), Ok(()));
    assert_eq!(exi_write_u32(&mut gc, 0x38, 0), Ok(()));
    assert_eq!(exi_write_u32(&mut gc, 0x34, 0x15), Ok(()));
    assert_eq!(exi_write_u32(&mut gc, 0x34, 0x31), Ok(()));
    assert_eq!(exi_read_u32(&gc, 0x38), Ok(0x0000_1204));
    // nothing is wired to channel 1
    assert_eq!(exi_write_u32(&mut gc, 0x14, 0b001 << 7), Ok(()));
    assert_eq!(exi_write_u32(&mut gc, 0x20, 0x01), Err(Fault::UnimplementedDeviceTransfer { command: 0 }));
    // the third device of channel 0 is an empty slot: reads give zero
    assert_eq!(exi_write_u32(&mut gc, 0x00, 0b100 << 7), Ok(()));
    assert_eq!(exi_write_u32(&mut gc, 0x10, 0xFFFF_FFFF), Ok(()));
    assert_eq!(exi_write_u32(&mut gc, 0x0C, 0x31), Ok(()));
    assert_eq!(exi_read_u32(&gc, 0x10), Ok(0));
    // direction 2 is reported
    assert_eq!(exi_write_u32(&mut gc, 0x0C, 0x09), Err(Fault::UnimplementedPeripheralRegister { address: 0x0C00_680C }));
    // offsets that are no register
    assert_eq!(exi_read_u32(&gc, 0x02), Err(Fault::UnimplementedPeripheralRegister { address: 0x0C00_6802 }));
    assert_eq!(exi_write_u32(&mut gc, 0x3C, 0), Err(Fault::UnimplementedPeripheralRegister { address: 0x0C00_683C }));
    assert_eq!(exi_read_u32(&gc, 0x3FC), Err(Fault::UnimplementedPeripheralRegister { address: 0x0C00_6BFC }));
    // an AD16 command that is not modelled
    let mut ad16 = AD16::new();
    assert_eq!(imm_write(&mut ad16, 0xA200_0000, 2), Err(Fault::UnimplementedDeviceTransfer { command: 0xA2 }));
    ad16.select();
    assert_eq!((ad16.position, ad16.command, ad16.reg), (0, 0, 0));
}

#[test]
fn byte_transfers_compose() {
    let mut slot = NoDevice;
    let mut memory = vec![9u8; 4];
    assert_eq!(imm_read(&mut slot, 4), Ok(0));
    assert_eq!(imm_write(&mut slot, 0x0102_0304, 4), Ok(()));
    assert_eq!(dma_read(&mut slot, &mut memory, 1, 2), Ok(()));
    assert_eq!(memory, vec![9, 0, 0, 9]);
    assert_eq!(dma_read(&mut slot, &mut memory, 3, 2), Err(Fault::UnmappedAddress { address: 4 }));
    assert_eq!(memory, vec![9, 0, 0, 0]);
    assert_eq!(dma_write(&mut slot, &memory, 2, 2), Ok(()));
    assert_eq!(dma_write(&mut slot, &memory, 2, 3), Err(Fault::UnmappedAddress { address: 4 }));
    assert_eq!(dma_write(&mut slot, &memory, 0xFFFF_FFFF, 0), Ok(()));
    let mut null = NullDevice;
    let mut byte = 7u8;
    assert_eq!(null.transfer_byte(&mut byte), Err(Fault::UnimplementedDeviceTransfer { command: 0 }));
    assert_eq!(byte, 7);
    assert_eq!(imm_read(&mut null, 0), Ok(0));
    let mut params = EXIChannelParams(0xFFFF_FFFF);
    assert!(params.exi_int_mask() && params.exi_int() && params.tc_int_mask() && params.tc_int() && params.ext_int_mask() && params.ext_int() && params.ext() && params.rom_dis());
    assert_eq!((params.clk(), params.cs()), (7, 7));
    params.clear_exi_int();
    params.clear_tc_int();
    params.clear_ext_int();
    assert_eq!(params.0, 0xFFFF_F7F5);
    let mut control = EXIChannelControl(0x3F);
    assert!(control.t_start() && control.dma());
    assert_eq!((control.rw(), control.t_len()), (3, 3));
    control.clear_t_start();
    assert_eq!(control.0, 0x3E);
}

#[test]
fn disassembly_of_addis() {
    assert_eq!(crude::disassembler::disassemble(0x3C60_1234), "addis r3,r0,0x1234");
    assert_eq!(crude::disassembler::disassemble((15 << 26) | (31 << 21) | (10 << 16) | 0xFFFF), "addis r31,r10,0xFFFF");
    assert_eq!(crude::disassembler::disassemble((15 << 26) | (9 << 21) | (19 << 16) | 0x00A0), "addis r9,r19,0x00A0");
    assert_eq!(crude::disassembler::disassemble(0x3860_5678), "unknown_opcd");
    assert_eq!(crude::disassembler::disassemble(0), "unknown_opcd");
}
