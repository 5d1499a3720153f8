use crude::backend::{update_instruction_buffer, BatchEnd, Command, Emulator, SharedProcessorState};
use crude::dsp::client::DSPClient;
use crude::dsp::dsp_int_arithmetic::sub_flags;
use crude::dsp::stacks::DSPStacks;
use crude::dsp::{DSPControlRegister, DSP};
use crude::fault::Fault;
use crude::Gamecube;

fn running(program: &[u16]) -> (DSP, DSPClient, Vec<u8>) {
    let dump = vec![0u8; 0x1000];
    let (dsp, mut client) = DSP::new(&dump);
    client.control_reg = DSPControlRegister(0);
    let mut aram = vec![0u8; 0x2000];
    for (i, w) in program.iter().enumerate() {
        aram[2 * i..2 * i + 2].copy_from_slice(&w.to_be_bytes());
    }
    (dsp, client, aram)
}

#[test]
fn dsp_starts_halted_with_a_reset_pending() {
    let mut dump = vec![0u8; 0x1000];
    dump[0] = 0x12;
    dump[1] = 0x34;
    dump[0xFFE] = 0xAB;
    dump[0xFFF] = 0xCD;
    let (mut dsp, mut client) = DSP::new(&dump);
    assert_eq!(client.control_reg.0, 0x5);
    assert!(client.control_reg.halt() && client.control_reg.reset() && !client.control_reg.init());
    assert_eq!((dsp.irom[0], dsp.irom[0x7FF], dsp.irom[0x800], dsp.pc), (0x1234, 0xABCD, 0, 0));
    let aram = vec![0u8; 0x2000];
    // the first step takes the reset and finds the DSP halted
    assert_eq!(dsp.step(&mut client, &aram), Ok(()));
    assert_eq!((dsp.pc, client.control_reg.0), (0x8000, 0x4));
    assert_eq!(dsp.step(&mut client, &aram), Ok(()));
    assert_eq!(dsp.pc, 0x8000);
    // released, it fetches from its ROM: 0x1234 matches no instruction
    client.control_reg.clear_halt();
    assert_eq!(dsp.step(&mut client, &aram), Err(Fault::UnimplementedDspOpcode { word: 0x1234 }));
    assert_eq!(dsp.pc, 0x8000);
    let fresh = DSPClient::new();
    assert_eq!((fresh.control_reg.0, fresh.cpu_mbox_h, fresh.cpu_mbox_l, fresh.dsp_mbox_h, fresh.dsp_mbox_l), (0, 0, 0, 0, 0));
    let stacks = DSPStacks::new();
    assert_eq!(stacks.pointers, [0; 4]);
    assert!(stacks.stacks.iter().all(|s| s.iter().all(|w| *w == 0)));
}

#[test]
fn clearing_an_accumulator() {
    let (mut dsp, mut client, aram) = running(&[0x8100, 0x8900]);
    dsp.registers[16] = 0x007F;
    dsp.registers[30] = 0x1234;
    dsp.registers[28] = 0x5678;
    dsp.registers[17] = 0x0001;
    dsp.registers[31] = 0x0002;
    dsp.registers[29] = 0x0003;
    assert_eq!(dsp.acc(0), 0x007F_1234_5678);
    assert_eq!(dsp.step(&mut client, &aram), Ok(()));
    assert_eq!((dsp.read_reg(16), dsp.read_reg(30), dsp.read_reg(28)), (0, 0, 0));
    assert_eq!(dsp.acc(0), 0);
    assert_ne!(dsp.registers[19] & 0x4, 0);
    assert_eq!(dsp.pc, 1);
    // the other accumulator is untouched until its own clear
    assert_eq!(dsp.acc(1), 0x0001_0002_0003);
    assert_eq!(dsp.step(&mut client, &aram), Ok(()));
    assert_eq!(dsp.acc(1), 0);
    assert_eq!(dsp.pc, 2);
}

#[test]
fn loads_stores_and_mailboxes() {
    let program = [
        0x0081, 0x0123, // LRI $1, #0x0123
        0x00E1, 0x0010, // SR @0x0010, $1
        0x00C2, 0x0010, // LR $2, @0x0010
        0x16FC, 0xBEEF, // SI @0xFFFC, #0xBEEF
        0x00E1, 0xFFFD, // SR @0xFFFD, $1
        0x00C3, 0xFFFE, // LR $3, @0xFFFE
        0x1C83, //         MRR $4, $3
        0x0092, 0x0002, // LRI $config, #0x0002
        0x2B45, //         SRS @0x0245, $ax1.h
        0x2145, //         LRS $ax1.l, @0x0245
        0x1924, //         LRRI $4, @$1
        0x0021, //         HALT
    ];
    let (mut dsp, mut client, aram) = running(&program);
    client.cpu_mbox_h = 0x8765;
    dsp.registers[27] = 0x4242;
    for _ in 0..12 {
        assert_eq!(dsp.step(&mut client, &aram), Ok(()));
    }
    assert_eq!(dsp.registers[1], 0x0124);
    assert_eq!(dsp.dram[0x10], 0x0123);
    assert_eq!(dsp.registers[2], 0x0123);
    assert_eq!((client.dsp_mbox_h, client.dsp_mbox_l), (0xBEEF, 0x0123));
    assert_eq!(dsp.registers[3], 0x8765);
    assert_eq!(dsp.registers[18], 0x0002);
    assert_eq!(dsp.dram[0x245], 0x4242);
    assert_eq!(dsp.registers[25], 0x4242);
    assert_eq!(dsp.registers[4], 0);
    assert!(client.control_reg.halt());
    let pc = dsp.pc;
    assert_eq!(dsp.step(&mut client, &aram), Ok(()));
    assert_eq!(dsp.pc, pc);
}

#[test]
fn register_writes_follow_the_register() {
    let (mut dsp, _client, _aram) = running(&[]);
    dsp.write_reg(16, 0x1280);
    assert_eq!(dsp.registers[16], 0xFF80);
    dsp.write_reg(17, 0x127F);
    assert_eq!(dsp.registers[17], 0x007F);
    dsp.write_reg(18, 0xABCD);
    dsp.write_reg(22, 0xABCD);
    assert_eq!((dsp.registers[18], dsp.registers[22]), (0xCD, 0xCD));
    dsp.write_reg(19, 0xFFFF);
    assert_eq!(dsp.registers[19], 0xFEFF);
    dsp.write_reg(5, 0xABCD);
    assert_eq!(dsp.registers[5], 0xABCD);
    // stack registers push and pop
    dsp.write_reg(12, 0x1111);
    dsp.write_reg(12, 0x2222);
    assert_eq!((dsp.registers[12], dsp.stacks.pointers[0], dsp.stacks.stacks[0][2]), (0x2222, 2, 0x1111));
    assert_eq!(dsp.read_reg(12), 0x2222);
    assert_eq!(dsp.read_reg(12), 0x1111);
    assert_eq!((dsp.read_reg(12), dsp.stacks.pointers[0]), (0, 31));
    // the stack pointers wrap around
    for i in 0..40u16 {
        dsp.write_reg(15, i);
    }
    assert_eq!(dsp.stacks.pointers[3], 8);
    assert_eq!(dsp.read_reg(15), 39);
}

#[test]
fn accumulator_reads_saturate_in_extended_mode() {
    let (mut dsp, _client, _aram) = running(&[]);
    dsp.registers[16] = 0x0001;
    dsp.registers[30] = 0x2345;
    assert_eq!(dsp.read_reg(30), 0x2345);
    dsp.registers[19] = 0x4000;
    assert_eq!(dsp.read_reg(30), 0x7FFF);
    dsp.registers[16] = 0xFFFE;
    assert_eq!(dsp.read_reg(30), 0x8000);
    dsp.registers[16] = 0xFFFF;
    dsp.registers[30] = 0x8000;
    assert_eq!(dsp.read_reg(30), 0x8000);
    dsp.registers[30] = 0x7FFF;
    assert_eq!(dsp.read_reg(30), 0x8000);
    dsp.registers[16] = 0;
    assert_eq!(dsp.read_reg(30), 0x7FFF);
    dsp.registers[30] = 0x8000;
    assert_eq!(dsp.read_reg(30), 0x7FFF);
    assert_eq!(dsp.acc_value(0), 0x8000_0000);
    // a write of the middle part extends to the whole accumulator
    dsp.registers[28] = 0x1111;
    dsp.conditional_extend_accum(30);
    assert_eq!((dsp.registers[16], dsp.registers[28]), (0xFFFF, 0));
    dsp.registers[31] = 0x0001;
    dsp.registers[17] = 0x00FF;
    dsp.conditional_extend_accum(31);
    assert_eq!(dsp.registers[17], 0);
    dsp.registers[19] = 0;
    dsp.registers[17] = 0x00FF;
    dsp.conditional_extend_accum(31);
    dsp.conditional_extend_accum(5);
    assert_eq!(dsp.registers[17], 0x00FF);
}

#[test]
fn status_flags() {
    let (mut dsp, mut client, aram) = running(&[0x8200, 0x1203, 0x8B00, 0x8A00, 0x02C0, 0x00F0, 0x02A0, 0x0003]);
    dsp.registers[19] = 0xFFFF;
    dsp.do_sr(0, true, true);
    assert_eq!(dsp.registers[19], 0xFFC0 | 0x1 | 0x2 | 0x80 | 0x4 | 0x20);
    dsp.registers[19] = 0;
    dsp.do_sr(-1, false, false);
    assert_eq!(dsp.registers[19], 0x8 | 0x20);
    dsp.do_sr(0x4000_0000, false, false);
    assert_eq!(dsp.registers[19], 0);
    dsp.do_sr(0x1_0000_0000, false, false);
    assert_eq!(dsp.registers[19], 0x10 | 0x20);
    dsp.do_sr(-0x8000_0001, false, false);
    assert_eq!(dsp.registers[19], 0x8 | 0x10);
    assert_eq!(sub_flags(5, 3, 2), (true, false));
    assert_eq!(sub_flags(1, 3, -2), (true, true));
    assert_eq!(sub_flags(-5, -3, 2), (false, true));
    // CMP: acc0 - acc1
    dsp.registers[19] = 0;
    dsp.registers[28] = 5;
    dsp.registers[29] = 5;
    assert_eq!(dsp.step(&mut client, &aram), Ok(()));
    assert_eq!(dsp.registers[19], 0x1 | 0x4 | 0x20);
    // SBSET #3 sets bit 9; SRBIT sets and clears mode bits
    assert_eq!(dsp.step(&mut client, &aram), Ok(()));
    assert_eq!(dsp.registers[19], 0x0225);
    assert_eq!(dsp.step(&mut client, &aram), Ok(()));
    assert_eq!(dsp.registers[19], 0x2225);
    assert_eq!(dsp.step(&mut client, &aram), Ok(()));
    assert_eq!(dsp.registers[19], 0x0225);
    // ANDF and ANDCF on the middle part of acc0
    dsp.registers[30] = 0x0F03;
    assert_eq!(dsp.step(&mut client, &aram), Ok(()));
    assert_eq!(dsp.registers[19] & 0x40, 0x40);
    assert_eq!(dsp.step(&mut client, &aram), Ok(()));
    assert_eq!(dsp.registers[19] & 0x40, 0x40);
    assert_eq!(dsp.pc, 8);
    dsp.pc = 6;
    dsp.registers[30] = 0x0F02;
    assert_eq!(dsp.step(&mut client, &aram), Ok(()));
    assert_eq!(dsp.registers[19] & 0x40, 0);
}

#[test]
fn address_register_arithmetic() {
    let (mut dsp, mut client, aram) = running(&[0x0005, 0x000A, 0x0016, 0x0210, 0x0214, 0x0318, 0x021C]);
    dsp.registers[1] = 0;
    dsp.registers[2] = 0xFFFF;
    dsp.registers[5] = 0x0010;
    dsp.registers[4] = 0xFFFE;
    dsp.registers[0] = 0x0002;
    for _ in 0..3 {
        assert_eq!(dsp.step(&mut client, &aram), Ok(()));
    }
    // DAR $1; IAR $2; ADDARN $2, $ix1
    assert_eq!((dsp.registers[1], dsp.registers[2]), (0xFFFF, 0x0010));
    // ILRR loads instruction words through $ar0 and steps it
    assert_eq!(dsp.step(&mut client, &aram), Ok(()));
    assert_eq!((dsp.registers[30], dsp.registers[0]), (0x0016, 2));
    assert_eq!(dsp.step(&mut client, &aram), Ok(()));
    assert_eq!((dsp.registers[30], dsp.registers[0]), (0x0016, 1));
    assert_eq!(dsp.step(&mut client, &aram), Ok(()));
    assert_eq!((dsp.registers[31], dsp.registers[0]), (0x000A, 2));
    assert_eq!(dsp.step(&mut client, &aram), Ok(()));
    assert_eq!((dsp.registers[30], dsp.registers[0]), (0x0016, 0));
    assert_eq!(dsp.pc, 7);
}

#[test]
fn jumps_calls_and_conditions() {
    let program = [
        0x029F, 0x0004, // J 4
        0x0000, 0x0000, //
        0x02BF, 0x0008, // CALL 8
        0x0295, 0x0000, // J(zero) 0
        0x02DF, //         RET
        0x0000, 0x0000, 0x0000,
    ];
    let (mut dsp, mut client, aram) = running(&program);
    assert_eq!(dsp.step(&mut client, &aram), Ok(()));
    assert_eq!(dsp.pc, 4);
    assert_eq!(dsp.step(&mut client, &aram), Ok(()));
    assert_eq!((dsp.pc, dsp.registers[12]), (8, 6));
    assert_eq!(dsp.step(&mut client, &aram), Ok(()));
    assert_eq!((dsp.pc, dsp.registers[12]), (6, 0));
    // the zero flag is clear: the jump falls through
    assert_eq!(dsp.step(&mut client, &aram), Ok(()));
    assert_eq!(dsp.pc, 8);
    dsp.pc = 6;
    dsp.registers[19] = 0x4;
    assert_eq!(dsp.step(&mut client, &aram), Ok(()));
    assert_eq!(dsp.pc, 0);
    assert_eq!(dsp.condition(0b1100), Ok(true));
    dsp.registers[19] = 0x40;
    assert_eq!(dsp.condition(0b1100), Ok(false));
    assert_eq!(dsp.condition(0b0101), Ok(false));
    assert_eq!(dsp.condition(0b1111), Ok(true));
    assert_eq!(dsp.condition(0), Err(Fault::UnimplementedDspCondition { code: 0 }));
    assert_eq!(dsp.op_j(&aram, 3), Err(Fault::UnimplementedDspCondition { code: 3 }));
    assert_eq!(dsp.op_ret(0b1100), Ok(()));
    assert_eq!(dsp.pc, 1);
}

#[test]
fn conditional_execution_and_loops() {
    let program = [
        0x027F, 0x0009, // IF(always) IAR $1
        0x0275, 0x0009, // IF(zero) IAR $1: skipped
        0x0080, 0x0003, // LRI $0, #3
        0x0040, //         LOOP $0
        0x0009, 0x0009, 0x0009, // three steps
        0x0000, //         skipped by the loop
        0x0060, 0x000E, // BLOOP $0, end at 0x000E
        0x000A, //         IAR $2
        0x0000, //         end of block
        0x0000,
    ];
    let (mut dsp, mut client, aram) = running(&program);
    assert_eq!(dsp.step(&mut client, &aram), Ok(()));
    assert_eq!((dsp.pc, dsp.registers[1]), (2, 1));
    assert_eq!(dsp.step(&mut client, &aram), Ok(()));
    assert_eq!((dsp.pc, dsp.registers[1]), (4, 1));
    assert_eq!(dsp.step(&mut client, &aram), Ok(()));
    assert_eq!(dsp.step(&mut client, &aram), Ok(()));
    assert_eq!((dsp.pc, dsp.registers[1]), (11, 4));
    assert_eq!(dsp.step(&mut client, &aram), Ok(()));
    assert_eq!((dsp.pc, dsp.registers[2], dsp.registers[15]), (15, 3, 0));
    assert_eq!((dsp.registers[12], dsp.registers[14]), (13, 14));
    // a count of zero runs nothing
    dsp.pc = 6;
    dsp.registers[0] = 0;
    assert_eq!(dsp.step(&mut client, &aram), Ok(()));
    assert_eq!((dsp.pc, dsp.registers[1]), (8, 4));
    dsp.pc = 11;
    assert_eq!(dsp.step(&mut client, &aram), Ok(()));
    assert_eq!((dsp.pc, dsp.registers[2]), (15, 3));
}

#[test]
fn dsp_faults() {
    let (mut dsp, mut client, aram) = running(&[0xFFFF, 0x8101, 0x00C1, 0x1000, 0x00E1, 0xFFFC + 2, 0x0080]);
    assert_eq!(dsp.step(&mut client, &aram), Err(Fault::UnimplementedDspOpcode { word: 0xFFFF }));
    assert_eq!(dsp.pc, 0);
    // an extension that is not modelled is reported after the instruction has run
    dsp.pc = 1;
    dsp.registers[30] = 1;
    assert_eq!(dsp.step(&mut client, &aram), Err(Fault::UnimplementedDspOpcode { word: 0x8101 }));
    assert_eq!((dsp.pc, dsp.registers[30]), (2, 0));
    // data addresses that are not modelled
    assert_eq!(dsp.step(&mut client, &aram), Err(Fault::UnimplementedDspAddress { dsp_address: 0x1000 }));
    dsp.pc = 4;
    assert_eq!(dsp.step(&mut client, &aram), Err(Fault::UnimplementedDspAddress { dsp_address: 0xFFFE }));
    assert_eq!(dsp.dmem_read(&client, 0xFFFD), Err(Fault::UnimplementedDspAddress { dsp_address: 0xFFFD }));
    assert_eq!(dsp.dmem_read(&client, 0xFFFC), Ok(0));
    // instruction addresses that are not modelled
    dsp.pc = 0x2000;
    assert_eq!(dsp.step(&mut client, &aram), Err(Fault::UnimplementedDspAddress { dsp_address: 0x2000 }));
    assert_eq!(dsp.imem_read(&aram, 0x9000), Err(Fault::UnimplementedDspAddress { dsp_address: 0x9000 }));
    // an immediate beyond the end of a short audio RAM
    let short = aram[..14].to_vec();
    dsp.pc = 6;
    assert_eq!(dsp.step(&mut client, &short), Err(Fault::UnimplementedDspAddress { dsp_address: 7 }));
}

#[test]
fn runaway_programs_are_cut_off() {
    // a block whose end is never reached
    let (mut dsp, mut client, aram) = running(&[0x0060, 0x0100, 0x029F, 0x0002]);
    dsp.registers[0] = 1;
    assert_eq!(dsp.step(&mut client, &aram), Err(Fault::DspBudgetExhausted));
    assert_eq!(dsp.pc, 2);
    // conditionals that nest without end
    let nest = vec![0x027Fu16; 0x100];
    let (mut dsp, mut client, aram) = running(&nest);
    assert_eq!(dsp.step(&mut client, &aram), Err(Fault::DspBudgetExhausted));
    assert_eq!(dsp.pc, 32);
    // a halt inside a block ends the block's progress, not the host
    let (mut dsp, mut client, aram) = running(&[0x0060, 0x0100, 0x0021]);
    dsp.registers[0] = 1;
    assert_eq!(dsp.step(&mut client, &aram), Err(Fault::DspBudgetExhausted));
    assert!(client.control_reg.halt());
}

fn emulator(cpu_program: &[u32], dsp_program: &[u16]) -> Emulator {
    let dump = vec![0u8; 0x1000];
    let (dsp, mut client) = DSP::new(&dump);
    client.control_reg = DSPControlRegister(0);
    let mut aram = vec![0u8; 0x2000];
    for (i, w) in dsp_program.iter().enumerate() {
        aram[2 * i..2 * i + 2].copy_from_slice(&w.to_be_bytes());
    }
    let mut gc = Gamecube::new(vec![0u8; 0x20_0000], aram, client);
    for (i, w) in cpu_program.iter().enumerate() {
        gc.bios[0x100 + 4 * i..0x104 + 4 * i].copy_from_slice(&w.to_be_bytes());
    }
    Emulator::new(gc, dsp)
}

const ADDI_R3_R3_1: u32 = (14 << 26) | (3 << 21) | (3 << 16) | 1;
const BRANCH_BACK_3: u32 = (18 << 26) | (0x03FF_FFF4 & 0x03FF_FFFC);

#[test]
fn driver_steps_both_engines() {
    let mut emu = emulator(&[ADDI_R3_R3_1, ADDI_R3_R3_1, 0], &[0x0009, 0x0021]);
    assert!(!emu.running);
    assert_eq!(emu.handle(Command::Step), Ok(()));
    assert_eq!((emu.gamecube.cpu.gprs[3], emu.dsp.registers[1], emu.dsp.pc), (1, 1, 1));
    assert_eq!(emu.handle(Command::Step), Ok(()));
    assert!(emu.gamecube.dsp_client.control_reg.halt());
    assert_eq!(emu.gamecube.cpu.gprs[3], 2);
    // the CPU lets the DSP run again through the bus
    assert_eq!(emu.gamecube.write_u16(0x0C00_500A, 0), Ok(()));
    emu.dsp.pc = 0;
    // the next CPU word is zero: the DSP step is made, the CPU step fails
    assert_eq!(emu.pair_step(), Err(Fault::UnimplementedOpcode { primary: 0, secondary: 0, instruction: 0 }));
    assert_eq!(emu.dsp.registers[1], 2);
    // a DSP fault keeps the CPU from stepping
    emu.dsp.pc = 0x4000;
    let tb = emu.gamecube.cpu.tb;
    assert_eq!(emu.handle(Command::Step), Err(Fault::UnimplementedDspAddress { dsp_address: 0x4000 }));
    assert_eq!(emu.gamecube.cpu.tb, tb);
}

#[test]
fn driver_batches_breakpoints_and_stops() {
    let mut emu = emulator(&[ADDI_R3_R3_1, ADDI_R3_R3_1, ADDI_R3_R3_1, BRANCH_BACK_3], &[]);
    assert_eq!(emu.handle(Command::Run), Ok(()));
    assert!(emu.running);
    assert_eq!(emu.run_batch(2000), BatchEnd::Completed);
    assert_eq!(emu.gamecube.cpu.gprs[3], 1500);
    assert_eq!(emu.gamecube.cpu.tb, 2000);
    emu.settle(BatchEnd::Completed, false);
    assert!(emu.running);
    // a breakpoint ends the batch when an instruction leaves execution there
    assert_eq!(emu.handle(Command::Breakpoint(0xFFF0_0108)), Ok(()));
    assert!(emu.breakpoints.contains(&0xFFF0_0108));
    let end = emu.run_batch(2000);
    assert_eq!(end, BatchEnd::Breakpoint(0xFFF0_0108));
    assert_eq!(emu.gamecube.cpu.gprs[3], 1502);
    emu.settle(end, false);
    assert!(!emu.running);
    // a stop that arrives during a batch ends the run at the batch boundary
    assert_eq!(emu.handle(Command::Run), Ok(()));
    emu.settle(BatchEnd::Completed, true);
    assert!(!emu.running);
    assert_eq!(emu.handle(Command::Run), Ok(()));
    assert_eq!(emu.handle(Command::Stop), Ok(()));
    assert!(!emu.running);
    // a fault ends the batch and the run; the driver stays usable
    emu.gamecube.bios[0x104..0x108].copy_from_slice(&[0, 0, 0, 0]);
    assert_eq!(emu.handle(Command::Run), Ok(()));
    let end = emu.run_batch(2000);
    assert_eq!(end, BatchEnd::Faulted(Fault::UnimplementedOpcode { primary: 0, secondary: 0, instruction: 0 }));
    emu.settle(end, false);
    assert!(!emu.running);
    assert_eq!(emu.run_batch(0), BatchEnd::Completed);
    assert_eq!(emu.gamecube.cpu.cia, 0xFFF0_0104);
}

#[test]
fn observability_snapshots() {
    let mut emu = emulator(&[ADDI_R3_R3_1, BRANCH_BACK_3], &[]);
    assert_eq!(emu.handle(Command::Step), Ok(()));
    emu.gamecube.cpu.lr = 7;
    emu.gamecube.cpu.ctr = 8;
    emu.gamecube.cpu.srr0 = 9;
    emu.gamecube.cpu.srr1 = 10;
    let mut state = SharedProcessorState::new();
    assert_eq!((state.cia, state.gprs[3]), (0, 0));
    state.update(&emu.gamecube);
    assert_eq!((state.cia, state.nia, state.lr, state.ctr, state.srr0, state.srr1, state.gprs[3]), (0xFFF0_0104, 0xFFF0_0108, 7, 8, 9, 10, 1));
    let mut window = vec![(0u32, 0u32); 20];
    update_instruction_buffer(&emu.gamecube, &mut window);
    for (i, entry) in window.iter().enumerate() {
        assert_eq!(entry.0, 0xFFF0_0104 - 20 + 4 * i as u32);
    }
    assert_eq!(window[4].1, ADDI_R3_R3_1);
    assert_eq!(window[5].1, BRANCH_BACK_3);
    assert_eq!(window[6].1, 0xA144_32A6);
    // words that cannot be fetched show as zero
    emu.gamecube.cpu.cia = 0x0180_0000;
    update_instruction_buffer(&emu.gamecube, &mut window);
    assert_eq!(window[4], (0x017F_FFFC, 0));
    assert_eq!(window[5], (0x0180_0000, 0));
}
