use riscv_sim::cpu::Cpu;
use riscv_sim::error::SimError;
use riscv_sim::memory::VirtualMemory;
use riscv_sim::reference::SingleCycle;

const BASE: u64 = 0x8000_0000;
const EBREAK: u32 = 0x0010_0073;

fn i_type(imm: i32, rs1: u32, f3: u32, rd: u32, opc: u32) -> u32 {
    (((imm as u32) & 0xfff) << 20) | (rs1 << 15) | (f3 << 12) | (rd << 7) | opc
}

fn r_type(f7: u32, rs2: u32, rs1: u32, f3: u32, rd: u32, opc: u32) -> u32 {
    (f7 << 25) | (rs2 << 20) | (rs1 << 15) | (f3 << 12) | (rd << 7) | opc
}

fn b_type(imm: i32, rs2: u32, rs1: u32, f3: u32) -> u32 {
    let imm = imm as u32;
    (((imm >> 12) & 1) << 31)
        | (((imm >> 5) & 0x3f) << 25)
        | (rs2 << 20)
        | (rs1 << 15)
        | (f3 << 12)
        | (((imm >> 1) & 0xf) << 8)
        | (((imm >> 11) & 1) << 7)
        | 0x63
}

fn j_type(imm: i32, rd: u32) -> u32 {
    let imm = imm as u32;
    (((imm >> 20) & 1) << 31)
        | (((imm >> 1) & 0x3ff) << 21)
        | (((imm >> 11) & 1) << 20)
        | (((imm >> 12) & 0xff) << 12)
        | (rd << 7)
        | 0x6f
}

fn s_type(imm: i32, rs2: u32, rs1: u32, f3: u32) -> u32 {
    let imm = imm as u32;
    (((imm >> 5) & 0x7f) << 25) | (rs2 << 20) | (rs1 << 15) | (f3 << 12) | ((imm & 0x1f) << 7) | 0x23
}

fn addi(rd: u32, rs1: u32, imm: i32) -> u32 {
    i_type(imm, rs1, 0, rd, 0x13)
}

fn image(prog: &[u32], size: usize) -> Vec<u8> {
    let mut bytes = vec![0u8; size];
    for (i, w) in prog.iter().enumerate() {
        bytes[4 * i..4 * i + 4].copy_from_slice(&w.to_le_bytes());
    }
    bytes
}

fn machine(prog: &[u32]) -> Cpu {
    Cpu::new(VirtualMemory::new(BASE, image(prog, 0x200)), BASE)
}

fn run(cpu: &mut Cpu) -> u64 {
    cpu.run_until_halt(1000).unwrap().expect("halts")
}

#[test]
fn addi_chain() {
    let mut cpu = machine(&[addi(1, 0, 5), addi(2, 1, 7), addi(3, 2, -3), EBREAK]);
    assert_eq!(run(&mut cpu), 0);
    assert_eq!(cpu.reg(1), 5);
    assert_eq!(cpu.reg(2), 12);
    assert_eq!(cpu.reg(3), 9);
    // four instructions, no stall: the last retires in cycle 4 + 4
    assert_eq!(cpu.cycles, 8);
}

fn load_use_program(use_first: bool) -> Vec<u32> {
    let auipc_x6 = (6 << 7) | 0x17;
    let ld = i_type(0, 6, 3, 5, 0x03);
    let use_ = addi(7, 5, 1);
    let indep = addi(11, 0, 3);
    let mut p = vec![auipc_x6, addi(6, 6, 0x100), ld];
    if use_first {
        p.push(use_);
        p.push(indep);
    } else {
        p.push(indep);
        p.push(use_);
    }
    p.push(addi(10, 7, 0));
    p.push(EBREAK);
    p
}

fn run_with_data(prog: &[u32]) -> Cpu {
    let mut bytes = image(prog, 0x200);
    bytes[0x100..0x108].copy_from_slice(&0x1122_3344_5566_7788u64.to_le_bytes());
    let mut cpu = Cpu::new(VirtualMemory::new(BASE, bytes), BASE);
    cpu.run_until_halt(1000).unwrap().expect("halts");
    cpu
}

#[test]
fn load_use_stall() {
    let cpu = run_with_data(&[
        (6 << 7) | 0x17,
        addi(6, 6, 0x100),
        i_type(0, 6, 3, 5, 0x03),
        addi(7, 5, 1),
        addi(10, 7, 0),
        EBREAK,
    ]);
    assert_eq!(cpu.exit_code, 0x1122_3344_5566_7789);
    // six instructions: bubble-free bound 6 + 4, plus the one stall
    assert_eq!(cpu.cycles, 11);
}

#[test]
fn load_use_costs_one_cycle_over_forwarding() {
    let stalled = run_with_data(&load_use_program(true));
    let forwarded = run_with_data(&load_use_program(false));
    assert_eq!(stalled.exit_code, forwarded.exit_code);
    assert_eq!(stalled.cycles, forwarded.cycles + 1);
}

#[test]
fn taken_branch_skips() {
    let mut cpu = machine(&[
        addi(1, 0, 1),
        addi(2, 0, 1),
        b_type(8, 2, 1, 0),
        addi(10, 0, 99),
        addi(10, 0, 7),
        EBREAK,
    ]);
    assert_eq!(run(&mut cpu), 7);
    // six words, five issued; the flush costs two cycles
    assert_eq!(cpu.cycles, 5 + 4 + 2);
}

#[test]
fn annulled_instructions_write_nothing() {
    // the two words after a taken jal would write x5 and store to memory
    let mut cpu = machine(&[
        j_type(12, 0),
        addi(5, 0, 77),
        s_type(0x100, 5, 0, 3),
        EBREAK,
    ]);
    assert_eq!(run(&mut cpu), 0);
    assert_eq!(cpu.reg(5), 0);
    assert!(cpu.mem.bytes.iter().skip(16).all(|b| *b == 0));
}

#[test]
fn jal_jalr_linkage() {
    let mut cpu = machine(&[
        j_type(12, 1),
        addi(10, 0, 1),
        EBREAK,
        addi(10, 0, 42),
        i_type(0, 1, 0, 0, 0x67),
    ]);
    assert_eq!(run(&mut cpu), 1);
    assert_eq!(cpu.reg(1), BASE + 4);
}

#[test]
fn word_shift_sign_extends() {
    let slliw = i_type(0, 1, 1, 2, 0x1b);
    let mut cpu = machine(&[addi(1, 0, -1), slliw, addi(10, 2, 0), EBREAK]);
    assert_eq!(run(&mut cpu), 0xffff_ffff_ffff_ffff);
    assert_eq!(cpu.reg(2), 0xffff_ffff_ffff_ffff);
}

#[test]
fn division_edge_cases() {
    let divw = r_type(1, 1, 1, 4, 2, 0x3b);
    let slli = i_type(63, 4, 1, 4, 0x13);
    let div = r_type(1, 1, 4, 4, 3, 0x33);
    let rem = r_type(1, 1, 4, 6, 5, 0x33);
    let divu0 = r_type(1, 0, 4, 5, 6, 0x33);
    let mut cpu = machine(&[addi(1, 0, -1), divw, addi(4, 0, 1), slli, div, rem, divu0, EBREAK]);
    run(&mut cpu);
    assert_eq!(cpu.reg(2), 1);
    assert_eq!(cpu.reg(3), 0x8000_0000_0000_0000);
    assert_eq!(cpu.reg(5), 0);
    assert_eq!(cpu.reg(6), u64::MAX);
}

#[test]
fn x0_stays_zero() {
    let mut cpu = machine(&[addi(0, 0, 5), addi(1, 0, 3), r_type(0, 1, 1, 0, 0, 0x33), EBREAK]);
    run(&mut cpu);
    assert_eq!(cpu.reg(0), 0);
    assert_eq!(cpu.reg(1), 3);
}

#[test]
fn store_then_load_round_trips() {
    let mut cpu = machine(&[
        (6 << 7) | 0x17,
        addi(6, 6, 0x100),
        addi(5, 0, -2),
        s_type(0, 5, 6, 2),
        i_type(0, 6, 2, 7, 0x03),
        i_type(0, 6, 6, 8, 0x03),
        i_type(0, 6, 0, 9, 0x03),
        EBREAK,
    ]);
    run(&mut cpu);
    assert_eq!(cpu.reg(7), 0xffff_ffff_ffff_fffe);
    assert_eq!(cpu.reg(8), 0xffff_fffe);
    assert_eq!(cpu.reg(9), 0xffff_ffff_ffff_fffe);
    assert_eq!(&cpu.mem.bytes[0x100..0x105], &[0xfe, 0xff, 0xff, 0xff, 0]);
}

#[test]
fn unknown_instruction_is_a_decode_fault() {
    let mut cpu = machine(&[addi(1, 0, 1), 0xffff_ffff, EBREAK]);
    assert_eq!(cpu.run_until_halt(100), Err(SimError::Decode { inst: 0xffff_ffff }));
}

#[test]
fn misaligned_pc_is_a_fetch_fault() {
    let mut cpu = Cpu::new(VirtualMemory::new(BASE, image(&[EBREAK], 16)), BASE + 2);
    assert_eq!(cpu.run_until_halt(100), Err(SimError::Fetch { pc: BASE + 2 }));
}

#[test]
fn load_outside_memory_is_a_memory_fault() {
    let mut cpu = machine(&[i_type(16, 0, 3, 5, 0x03), EBREAK]);
    assert_eq!(cpu.run_until_halt(100), Err(SimError::Memory { addr: 16 }));
}

#[test]
fn run_stops_at_the_cycle_limit() {
    let mut cpu = machine(&[addi(1, 0, 1), EBREAK]);
    assert_eq!(cpu.run_until_halt(3), Ok(None));
    assert_eq!(cpu.run_until_halt(10), Ok(Some(0)));
}

#[test]
fn pipeline_matches_single_cycle_reference() {
    // dependent ALU chains and stores, no branches and no loads
    let prog = [
        addi(1, 0, 100),
        addi(2, 1, -30),
        r_type(0, 2, 1, 0, 3, 0x33),  // add x3, x1, x2
        r_type(0x20, 1, 3, 0, 4, 0x33), // sub x4, x3, x1
        r_type(1, 4, 3, 0, 5, 0x33),  // mul x5, x3, x4
        i_type(3, 5, 1, 6, 0x13),     // slli x6, x5, 3
        (7 << 7) | 0x17,              // auipc x7, 0
        addi(7, 7, 0x100),
        s_type(0, 6, 7, 3),           // sd x6, 0(x7)
        s_type(8, 5, 7, 2),           // sw x5, 8(x7)
        r_type(1, 2, 6, 4, 8, 0x3b),  // divw x8, x6, x2
        addi(10, 8, 0),
        EBREAK,
    ];
    let mut pipe = machine(&prog);
    let mut single = SingleCycle::new(VirtualMemory::new(BASE, image(&prog, 0x200)), BASE);
    let a = pipe.run_until_halt(1000).unwrap();
    let b = single.run_until_halt(1000).unwrap();
    assert_eq!(a, b);
    assert_eq!(single.retired, prog.len() as u64);
    for i in 0..32u8 {
        assert_eq!(pipe.reg(i), single.regs.read(i), "x{i}");
    }
    assert_eq!(pipe.mem.bytes, single.mem.bytes);
    assert_eq!(pipe.reg(6), 170 * 70 * 8);
}
