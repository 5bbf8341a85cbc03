use riscv_sim::alu::{alu, branch_target};
use riscv_sim::cpu::Cpu;
use riscv_sim::debugger::{Command, Reply, REDB};
use riscv_sim::decode::inst_interpret;
use riscv_sim::error::SimError;
use riscv_sim::fields::{imm_b, imm_i, imm_j, imm_s, imm_u};
use riscv_sim::insts::{Inst64, SextType};
use riscv_sim::memory::VirtualMemory;
use riscv_sim::pipeline::{fetch, writeback, InternalMemWb, ProgramCounter};
use riscv_sim::regfile::RegisterFile;
use riscv_sim::regnames::reg_index;

#[test]
fn decode_addi_record() {
    // addi x5, x6, -7
    let w = (((-7i32 as u32) & 0xfff) << 20) | (6 << 15) | (5 << 7) | 0x13;
    let d = inst_interpret(0x1234, w).unwrap();
    assert_eq!(d.pc, 0x1234);
    assert_eq!(d.alu_op, Inst64::Addi);
    assert_eq!(d.sext, SextType::I);
    assert!(d.alu_src && d.reg_write && !d.mem_read && !d.mem_write && !d.branch);
    assert_eq!((d.rs1, d.rs2, d.rd), (6, 0, 5));
    assert_eq!(d.imm, (-7i64) as u64);
}

#[test]
fn decode_classes() {
    let cases: [(u32, Inst64); 12] = [
        (0x0003_3283, Inst64::Ld),         // ld x5, 0(x6)
        (0x4050_d093, Inst64::Srai),       // srai x1, x1, 5
        (0x0000_0097, Inst64::Auipc),      // auipc x1, 0
        (0x0010_909b, Inst64::Slliw),      // slliw x1, x1, 1
        (0x0053_3023, Inst64::Sd),         // sd x5, 0(x6)
        (0x0220_c0b3, Inst64::Div),        // div x1, x1, x2
        (0x1234_50b7, Inst64::Lui),        // lui x1, 0x12345
        (0x4020_80bb, Inst64::Subw),       // subw x1, x1, x2
        (0x0020_c463, Inst64::Blt),        // blt x1, x2, 8
        (0x0000_80e7, Inst64::Jalr),       // jalr x1, 0(x1)
        (0x0000_0073, Inst64::Ecall),      // ecall
        (0x3000_20f3, Inst64::Csrrs),      // csrrs x1, mstatus, x0
    ];
    for (w, op) in cases {
        assert_eq!(inst_interpret(0, w).unwrap().alu_op, op, "word {w:#x}");
    }
}

#[test]
fn decode_store_and_branch_have_no_destination() {
    let sd = inst_interpret(0, 0x0053_3023).unwrap();
    assert!(sd.mem_write && !sd.reg_write && sd.rd == 0 && sd.rs2 == 5);
    let blt = inst_interpret(0, 0x0020_c463).unwrap();
    assert!(blt.branch && !blt.pc_src && !blt.alu_src && blt.imm == 8);
}

#[test]
fn reserved_and_unknown_words_are_decode_errors() {
    for w in [0x0000_0007u32, 0x0000_000f, 0x0000_0027, 0x0000_002f, 0x0000_0043, 0x0000_0053, 0x0000_0000, 0x0000_707f] {
        assert_eq!(inst_interpret(0, w), Err(SimError::Decode { inst: w }));
    }
    // left shifts with a nonzero funct6 / funct7: slli, slliw, sllw
    for w in [0x4010_9093u32, 0x4010_909b, 0x4020_913b, 0x0220_913b] {
        assert_eq!(inst_interpret(0, w), Err(SimError::Decode { inst: w }));
    }
    assert_eq!(inst_interpret(0, 0x0020_913b).unwrap().alu_op, Inst64::Sllw);
    // srli with a funct6 that is neither logical nor arithmetic
    assert_eq!(inst_interpret(0, 0x2000_5013), Err(SimError::Decode { inst: 0x2000_5013 }));
}

#[test]
fn immediates_sign_extend() {
    assert_eq!(imm_i(0xfff0_0000), u64::MAX);
    assert_eq!(imm_i(0x7ff0_0000), 0x7ff);
    assert_eq!(imm_s(0xfe00_0f80), u64::MAX);
    assert_eq!(imm_b(0x8000_0000), (-4096i64) as u64);
    assert_eq!(imm_b(0x0000_0080), 0x800);
    assert_eq!(imm_u(0x8000_0000), 0xffff_ffff_8000_0000);
    assert_eq!(imm_j(0x8000_0000), (-(1i64 << 20)) as u64);
    assert_eq!(imm_j(0x0010_0000), 0x800);
}

#[test]
fn immediate_round_trip_examples() {
    for imm in [-2048i32, -1, 0, 1, 2047] {
        let w = (((imm as u32) & 0xfff) << 20) | 0x13;
        assert_eq!(imm_i(w), imm as i64 as u64);
    }
    for imm in [-4096i32, -2, 0, 2, 4094] {
        let u = imm as u32;
        let w = (((u >> 12) & 1) << 31) | (((u >> 5) & 0x3f) << 25) | (((u >> 1) & 0xf) << 8) | (((u >> 11) & 1) << 7) | 0x63;
        assert_eq!(imm_b(w), imm as i64 as u64);
    }
}

#[test]
fn alu_formulas() {
    let m1 = u64::MAX;
    let min = 1u64 << 63;
    assert_eq!(alu(Inst64::Add, 0, m1, 2), 1);
    assert_eq!(alu(Inst64::Sub, 0, 0, 1), m1);
    assert_eq!(alu(Inst64::Slt, 0, m1, 0), 1);
    assert_eq!(alu(Inst64::Sltu, 0, m1, 0), 0);
    assert_eq!(alu(Inst64::Sra, 0, min, 63), m1);
    assert_eq!(alu(Inst64::Srl, 0, min, 63), 1);
    assert_eq!(alu(Inst64::Sll, 0, 1, 64 + 3), 8);
    assert_eq!(alu(Inst64::Mulh, 0, m1, m1), 0);
    assert_eq!(alu(Inst64::Mulh, 0, min, min), 1 << 62);
    assert_eq!(alu(Inst64::Mulh, 0, m1, 5), m1);
    assert_eq!(alu(Inst64::Mulhu, 0, m1, m1), m1 - 1);
    assert_eq!(alu(Inst64::Mulhsu, 0, m1, m1), m1);
    assert_eq!(alu(Inst64::Div, 0, (-7i64) as u64, 2), (-3i64) as u64);
    assert_eq!(alu(Inst64::Rem, 0, (-7i64) as u64, 2), m1);
    assert_eq!(alu(Inst64::Div, 0, min, m1), min);
    assert_eq!(alu(Inst64::Rem, 0, min, m1), 0);
    assert_eq!(alu(Inst64::Div, 0, 5, 0), m1);
    assert_eq!(alu(Inst64::Rem, 0, 5, 0), 5);
    assert_eq!(alu(Inst64::Divuw, 0, 0xffff_fffe, 1), 0xffff_ffff_ffff_fffe);
    assert_eq!(alu(Inst64::Remw, 0, 0x8000_0000, m1), 0);
    assert_eq!(alu(Inst64::Divw, 0, 0x8000_0000, m1), 0xffff_ffff_8000_0000);
    assert_eq!(alu(Inst64::Addw, 0, 0x7fff_ffff, 1), 0xffff_ffff_8000_0000);
    assert_eq!(alu(Inst64::Sraw, 0, 0x8000_0000, 4), 0xffff_ffff_f800_0000);
    assert_eq!(alu(Inst64::Srlw, 0, 0xffff_ffff_8000_0000, 4), 0x0800_0000);
    assert_eq!(alu(Inst64::Mulw, 0, 0x1_0000_0001, 3), 3);
    assert_eq!(alu(Inst64::Auipc, 0x1000, 0, 0x2000), 0x3000);
    assert_eq!(alu(Inst64::Jal, 0x1000, 0, 0x40), 0x1004);
    assert_eq!(branch_target(Inst64::Jalr, 0x1000, 0x2001, 2), 0x2002);
    assert_eq!(branch_target(Inst64::Beq, 0x1000, 0, (-8i64) as u64), 0xff8);
}

#[test]
fn memory_little_endian() {
    let mut vm = VirtualMemory::new(0x100, vec![0u8; 16]);
    assert_eq!(vm.write(0x104, 4, 0xaabb_ccdd_1122_3344), Ok(()));
    assert_eq!(&vm.bytes[4..8], &[0x44, 0x33, 0x22, 0x11]);
    assert_eq!(vm.read(0x104, 2), Ok(0x3344));
    assert_eq!(vm.read(0x10c, 8), Err(SimError::Memory { addr: 0x10c }));
    assert_eq!(vm.write(0xff, 1, 0), Err(SimError::Memory { addr: 0xff }));
    assert_eq!(vm.fetch_inst(0x106), Err(SimError::Fetch { pc: 0x106 }));
    assert_eq!(vm.fetch_inst(0x104), Ok(0x1122_3344));
}

#[test]
fn fetch_keeps_pc_and_stops_at_ebreak() {
    let vm = VirtualMemory::new(0x40, vec![0x73, 0, 0x10, 0, 0x13, 0, 0, 0]);
    let (d, go) = fetch(&ProgramCounter { pc: 0x40 }, &vm).unwrap();
    assert_eq!((d.pc, d.alu_op, go), (0x40, Inst64::Ebreak, false));
    let (d, go) = fetch(&ProgramCounter { pc: 0x44 }, &vm).unwrap();
    assert_eq!((d.pc, d.alu_op, go), (0x44, Inst64::Addi, true));
}

#[test]
fn register_file_drops_x0_writes() {
    let mut rf = RegisterFile::new();
    rf.write(0, 9);
    rf.write(3, 9);
    assert_eq!((rf.read(0), rf.read(3)), (0, 9));
}

#[test]
fn writeback_commits_and_reports_ebreak() {
    let mut rf = RegisterFile::new();
    let mut d = inst_interpret(0, 0x0050_0293).unwrap(); // addi x5, x0, 5
    assert!(writeback(&InternalMemWb { d, regval: 5 }, &mut rf));
    assert_eq!(rf.read(5), 5);
    d = inst_interpret(0, 0x0010_0073).unwrap();
    assert!(!writeback(&InternalMemWb { d, regval: 0 }, &mut rf));
}

fn debugger() -> REDB {
    // addi x10, x0, 3; ebreak
    let mut bytes = vec![0u8; 64];
    bytes[0..4].copy_from_slice(&0x0030_0513u32.to_le_bytes());
    bytes[4..8].copy_from_slice(&0x0010_0073u32.to_le_bytes());
    REDB::new(Cpu::new(VirtualMemory::new(0x8000_0000, bytes), 0x8000_0000))
}

#[test]
fn debugger_steps_and_inspects() {
    let mut redb = debugger();
    assert_eq!(redb.execute(Command::Step { n: -1 }), Reply::NegativeSteps { n: -1 });
    assert_eq!(redb.execute(Command::Step { n: 2 }), Reply::Stepped { done: 2, fault: None });
    assert_eq!(redb.execute(Command::InfoPc), Reply::Pc { pc: 0x8000_0008 });
    assert_eq!(redb.execute(Command::InfoReg { idx: 40 }), Reply::NoSuchRegister { idx: 40 });
    assert_eq!(redb.execute(Command::Continue), Reply::Finished { exit_code: 3 });
    assert_eq!(redb.execute(Command::InfoReg { idx: 10 }), Reply::Register { idx: 10, value: 3 });
    match redb.execute(Command::Scan { count: 2, vaddr: 0x8000_0000 }) {
        Reply::Words { words } => {
            assert_eq!(words[0], (0x8000_0000, Ok(0x0010_0073_0030_0513)));
            assert_eq!(words[1].0, 0x8000_0004);
        }
        other => panic!("unexpected {other:?}"),
    }
    assert_eq!(redb.execute(Command::Quit), Reply::Quit);
}

#[test]
fn register_names() {
    assert_eq!(reg_index(b"x0"), Some(0));
    assert_eq!(reg_index(b"x31"), Some(31));
    assert_eq!(reg_index(b"x32"), None);
    assert_eq!(reg_index(b"x05"), None);
    assert_eq!(reg_index(b"a0"), Some(10));
    assert_eq!(reg_index(b"s11"), Some(27));
    assert_eq!(reg_index(b"fp"), Some(8));
    assert_eq!(reg_index(b"zero"), Some(0));
    assert_eq!(reg_index(b"t6"), Some(31));
    assert_eq!(reg_index(b"pc"), None);
    assert_eq!(reg_index(b""), None);
    let mut redb = debugger();
    redb.execute(Command::Continue);
    assert_eq!(redb.cpu.reg_val_by_name(b"a0"), Some(3));
    assert_eq!(redb.cpu.reg_val_by_name(b"bogus"), None);
}
