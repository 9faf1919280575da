use r32i::const_emulator::ConstantEmulator;
use r32i::exception::ErrorKind;
use r32i::exception::Fault;
use r32i::instruct_info::btype::beq;
use r32i::instruct_info::itype::addi;
use r32i::instruct_info::itype::andi;
use r32i::instruct_info::itype::lb;
use r32i::instruct_info::itype::lbu;
use r32i::instruct_info::itype::lw;
use r32i::instruct_info::itype::ori;
use r32i::instruct_info::itype::sltiu;
use r32i::instruct_info::itype::srai;
use r32i::instruct_info::jtype::jal;
use r32i::instruct_info::pseudo::jr;
use r32i::instruct_info::pseudo::li;
use r32i::instruct_info::pseudo::mv;
use r32i::instruct_info::pseudo::nop;
use r32i::instruct_info::pseudo::ret;
use r32i::instruct_info::pseudo::stop;
use r32i::instruct_info::rtype::add;
use r32i::instruct_info::rtype::sll;
use r32i::instruct_info::rtype::slt;
use r32i::instruct_info::rtype::sltu;
use r32i::instruct_info::rtype::sra;
use r32i::instruct_info::rtype::srl;
use r32i::instruct_info::rtype::sub;
use r32i::instruct_info::stype::sw;
use r32i::instruct_info::utype::auipc;
use r32i::instruct_info::utype::lui;
use r32i::instruction_type::Instruction;
use r32i::memory::MemoryWrapper;
use r32i::register::alias;
use r32i::register::alias::{a0, a1, a2, t0, t1, t2, t3};
use r32i::traits::GetCode;
use r32i::traits::RType;
use r32i::traits::ADD;
use r32i::traits::SUB;
use r32i::EmulatorContext;
use r32i::Registers;

// ---------------------------------------------------------------------
// Encoders produce the exact words of the base encoding.
// ---------------------------------------------------------------------

#[test]
fn encoder_exact_words() {
    assert_eq!(add(1, 2, 3), 0x003100B3);
    assert_eq!(addi(5, 6, -1), 0xFFF30293);
    assert_eq!(lw(6, 5, 8), 0x0082A303);
    assert_eq!(sw(6, 5, 8), 0x0062A423);
    assert_eq!(beq(5, 6, -4), 0xFE628CE3);
    assert_eq!(jal(1, -8), 0xFF1FF0EF);
    assert_eq!(lui(10, 0x12345), 0x12345537);
    assert_eq!(srai(6, 5, 3), 0x4032D313);
    assert_eq!(nop(), 0x00000013);
    assert_eq!(ret(), 0x00008067);
    assert_eq!(stop(), 0);
}

// ---------------------------------------------------------------------
// Decoding an encoded word reproduces the fields, sign extension
// included.
// ---------------------------------------------------------------------

#[test]
fn decode_r_fields() {
    let i = Instruction::from(0x003100B3);
    assert_eq!(i.opcode(), 0x33);
    let r = i.as_r();
    assert_eq!(r.rd(), 1);
    assert_eq!(r.rs1(), 2);
    assert_eq!(r.rs2(), 3);
    assert_eq!(r.funct3(), 0);
    assert_eq!(r.funct7(), 0);
}

#[test]
fn decode_i_fields() {
    let i = Instruction::from(0xFFF30293).as_i();
    assert_eq!(i.rd(), 5);
    assert_eq!(i.rs1(), 6);
    assert_eq!(i.funct3(), 0);
    assert_eq!(i.imm(), -1);
    assert_eq!(i.umm(), 0xFFF);
}

#[test]
fn decode_ishift_fields() {
    let s = Instruction::from(0x4032D313).as_i().as_s();
    assert_eq!(s.rd(), 6);
    assert_eq!(s.rs1(), 5);
    assert_eq!(s.funct3(), 5);
    assert_eq!(s.umm(), 3);
}

#[test]
fn decode_s_fields() {
    let s = Instruction::from(0x0062A423).as_s();
    assert_eq!(s.rs1(), 5);
    assert_eq!(s.rs2(), 6);
    assert_eq!(s.funct3(), 2);
    assert_eq!(s.imm(), 8);
    assert_eq!(s.umm(), 8);
}

#[test]
fn decode_b_fields() {
    let b = Instruction::from(0xFE628CE3).as_b();
    assert_eq!(b.rs1(), 5);
    assert_eq!(b.rs2(), 6);
    assert_eq!(b.funct3(), 0);
    assert_eq!(b.imm(), -8);
    assert_eq!(b.umm(), 0x1FF8);
}

#[test]
fn decode_u_fields() {
    let u = Instruction::from(0x12345537).as_u();
    assert_eq!(u.rd(), 10);
    assert_eq!(u.high_imm(), 0x12345000);
}

#[test]
fn decode_j_fields() {
    let j = Instruction::from(0xFF1FF0EF).as_j();
    assert_eq!(j.rd(), 1);
    assert_eq!(j.imm(), -16);
}

#[test]
fn mnemonic_selection() {
    assert_eq!(Instruction::from(add(1, 2, 3)).as_r().mnemonic(), Some("add"));
    assert_eq!(Instruction::from(sub(1, 2, 3)).as_r().mnemonic(), Some("sub"));
    assert_eq!(Instruction::from((3 << 25) | 0x33).as_r().mnemonic(), None);
    assert_eq!(Instruction::from(addi(5, 6, -1)).as_i().mnemonic(), Some("addi"));
    assert_eq!(Instruction::from(lw(6, 5, 8)).as_i().mnemonic(), Some("lw"));
    assert_eq!(Instruction::from(srai(6, 5, 3)).as_i().mnemonic(), Some("srai"));
    assert_eq!(Instruction::from(beq(5, 6, -4)).as_b().mnemonic(), Some("beq"));
    assert_eq!(Instruction::from(sw(6, 5, 8)).as_s().mnemonic(), Some("sw"));
    assert_eq!(Instruction::from(sw(6, 5, 8)).as_b().mnemonic(), None);
}

#[test]
fn instruction_mask_and_range() {
    let i = Instruction::from(0x003100B3);
    assert_eq!(i.mask(0x7F), 0x33);
    assert_eq!(i.range(7, 11), 1);
    assert_eq!(i.range(15, 19), 2);
    assert_eq!(i.range(20, 24), 3);
}

// ---------------------------------------------------------------------
// The memory image: word, halfword and byte lanes.
// ---------------------------------------------------------------------

#[test]
fn memory_word_round_trip() {
    let mut m = MemoryWrapper::default();
    m.write_word(&8, 0xDEADBEEF);
    assert_eq!(m.read_word(&8), 0xDEADBEEF);
    // The two low address bits are ignored for word access.
    assert_eq!(m.read_word(&10), 0xDEADBEEF);
    // Reads beyond the end return 0.
    assert_eq!(m.read_word(&400), 0);
    // The skipped word was zero-filled.
    assert_eq!(m.read_word(&0), 0);
    assert_eq!(m.read_word(&4), 0);
}

#[test]
fn memory_byte_lanes() {
    let mut m = MemoryWrapper::default();
    m.write_word(&0, 0x11223344);
    assert_eq!(m.read_byte(&0), 0x44);
    assert_eq!(m.read_byte(&1), 0x33);
    assert_eq!(m.read_byte(&2), 0x22);
    assert_eq!(m.read_byte(&3), 0x11);
    m.write_byte(&1, 0xAA);
    // The written byte reads back; the other three are unchanged.
    assert_eq!(m.read_byte(&1), 0xAA);
    assert_eq!(m.read_word(&0), 0x1122AA44);
}

#[test]
fn memory_halfword_lanes() {
    let mut m = MemoryWrapper::default();
    m.write_word(&0, 0x11223344);
    assert_eq!(m.read_halfword(&0), 0x3344);
    assert_eq!(m.read_halfword(&2), 0x1122);
    m.write_halfword(&2, 0xABCD);
    assert_eq!(m.read_halfword(&2), 0xABCD);
    assert_eq!(m.read_word(&0), 0xABCD3344);
    assert_eq!(m.read_halfword(&40), 0);
}

#[test]
fn memory_append() {
    let mut m = MemoryWrapper::default();
    m.append(&[1, 2, 3]);
    m.append(&[4]);
    assert_eq!(m.read_word(&0), 1);
    assert_eq!(m.read_word(&4), 2);
    assert_eq!(m.read_word(&8), 3);
    assert_eq!(m.read_word(&12), 4);
    assert_eq!(m.test_get_memory().len(), 4);
}

// ---------------------------------------------------------------------
// The register file and the hard-wired zero register.
// ---------------------------------------------------------------------

#[test]
fn register_zero_is_hard_wired() {
    let mut r = Registers::default();
    r.write(0, 99);
    assert_eq!(r.get(0), 0);
    assert_eq!(r.zero(), 0);
    *r.get_mut(0) = 77;
    assert_eq!(r.get(0), 0);
    r.write(1, 5);
    assert_eq!(r.get(1), 5);
    *r.get_mut(1) = 6;
    assert_eq!(r.get(1), 6);
}

#[test]
fn register_accessors() {
    let mut r = Registers::default();
    *r.ra() = 1;
    *r.sp() = 2;
    *r.gp() = 3;
    *r.tp() = 4;
    *r.fp() = 8;
    *r.t(3) = 28;
    *r.s(2) = 18;
    *r.a(7) = 17;
    assert_eq!(r.get(1), 1);
    assert_eq!(r.get(2), 2);
    assert_eq!(r.get(3), 3);
    assert_eq!(r.get(4), 4);
    assert_eq!(r.get(8), 8);
    assert_eq!(r.get(28), 28);
    assert_eq!(r.get(18), 18);
    assert_eq!(r.get(17), 17);
}

#[test]
fn alias_indices() {
    assert_eq!(alias::t(0), 5);
    assert_eq!(alias::t(2), 7);
    assert_eq!(alias::t(3), 28);
    assert_eq!(alias::t(6), 31);
    assert_eq!(alias::s(0), 8);
    assert_eq!(alias::s(1), 9);
    assert_eq!(alias::s(2), 18);
    assert_eq!(alias::s(11), 27);
    assert_eq!(alias::a(0), 10);
    assert_eq!(alias::a(7), 17);
    assert_eq!(alias::x31, 31);
    assert_eq!(alias::s11, 27);
}

// ---------------------------------------------------------------------
// Instruction semantics through the engine.
// ---------------------------------------------------------------------

#[test]
fn load_byte_sign_extension() {
    // A stored byte 0xFF loads as 0xFFFFFFFF through LB and as
    // 0x000000FF through LBU.
    let mut c = EmulatorContext::default();
    let code = vec![li(a1, 16), lb(a0, a1, 0), lbu(a2, a1, 0), stop()];
    c.set_code_segment(&code).set_data_segment(&[0xFF]).run().unwrap();
    assert_eq!(c.registers.get(a0), 0xFFFFFFFF);
    assert_eq!(c.registers.get(a2), 0x000000FF);
}

#[test]
fn shift_count_uses_low_five_bits() {
    // A register shift amount of 33 acts as 33 & 0x1F == 1.
    let mut c = EmulatorContext::default();
    let code = vec![li(t0, 1), li(t1, 33), sll(t2, t0, t1), stop()];
    c.set_code_segment(&code).run().unwrap();
    assert_eq!(c.registers.get(t2), 2);
}

#[test]
fn arithmetic_and_logical_ops() {
    let mut c = EmulatorContext::default();
    let code = vec![
        li(t0, 12),
        li(t1, 10),
        sub(t2, t0, t1),
        add(t3, t0, t1),
        stop(),
    ];
    c.set_code_segment(&code).run().unwrap();
    assert_eq!(c.registers.get(t2), 2);
    assert_eq!(c.registers.get(t3), 22);
}

#[test]
fn shift_right_arithmetic_vs_logical() {
    let mut c = EmulatorContext::default();
    let code = vec![
        li(t0, -8),
        li(t1, 1),
        sra(t2, t0, t1),
        srl(t3, t0, t1),
        srai(a0, t0, 1),
        stop(),
    ];
    c.set_code_segment(&code).run().unwrap();
    assert_eq!(c.registers.get(t2), 0xFFFFFFFC);
    assert_eq!(c.registers.get(t3), 0x7FFFFFFC);
    assert_eq!(c.registers.get(a0), 0xFFFFFFFC);
}

#[test]
fn signed_and_unsigned_compare() {
    let mut c = EmulatorContext::default();
    let code = vec![
        li(t0, -1),
        li(t1, 1),
        slt(t2, t0, t1),
        sltu(t3, t0, t1),
        stop(),
    ];
    c.set_code_segment(&code).run().unwrap();
    // Signed: -1 < 1. Unsigned: 0xFFFFFFFF > 1.
    assert_eq!(c.registers.get(t2), 1);
    assert_eq!(c.registers.get(t3), 0);
}

#[test]
fn immediate_ops_sign_and_zero_extension() {
    let mut c = EmulatorContext::default();
    let code = vec![
        li(t0, 2000),
        addi(t0, t0, 2000),
        addi(t0, t0, 1000),
        // ANDI and ORI sign-extend their immediate to 32 bits.
        li(t1, 0x555),
        andi(t2, t1, -1),
        ori(t3, 0, -1),
        // SLTIU zero-extends: 5000 < 4095 is false.
        sltiu(a0, t0, -1),
        stop(),
    ];
    c.set_code_segment(&code).run().unwrap();
    assert_eq!(c.registers.get(t0), 5000);
    assert_eq!(c.registers.get(t2), 0x555);
    assert_eq!(c.registers.get(t3), 0xFFFFFFFF);
    assert_eq!(c.registers.get(a0), 0);
}

#[test]
fn load_immediate_upper() {
    // li falls back to LUI for a value whose low 12 bits are zero.
    let mut c = EmulatorContext::default();
    let code = vec![li(a0, 8192), auipc(a1, 1), stop()];
    c.set_code_segment(&code).run().unwrap();
    assert_eq!(c.registers.get(a0), 8192);
    // AUIPC adds the shifted immediate to its own address (4).
    assert_eq!(c.registers.get(a1), 4096 + 4);
}

#[test]
fn empty_program_halts() {
    let mut c = EmulatorContext::default();
    c.run().unwrap();
}

// ---------------------------------------------------------------------
// Each fatal error kind, with the faulting address.
// ---------------------------------------------------------------------

#[test]
fn unknown_opcode_is_decode_error() {
    let mut c = EmulatorContext::default();
    c.set_code_segment(&[0x0000007F]);
    let f = c.run().unwrap_err();
    assert_eq!(f, Fault { kind: ErrorKind::DecodeError, pc: 0 });
}

#[test]
fn unknown_funct_is_decode_error() {
    let mut c = EmulatorContext::default();
    // OP with funct7 = 3: no such instruction.
    c.set_code_segment(&[(3 << 25) | 0x33, stop()]);
    let f = c.run().unwrap_err();
    assert_eq!(f, Fault { kind: ErrorKind::DecodeError, pc: 0 });
}

#[test]
fn misaligned_jump_is_alignment_error() {
    let mut c = EmulatorContext::default();
    c.set_code_segment(&[addi(t0, t0, 6), jr(t0), stop()]);
    let f = c.run().unwrap_err();
    assert_eq!(f, Fault { kind: ErrorKind::AlignmentError, pc: 4 });
}

#[test]
fn misaligned_branch_is_alignment_error() {
    let mut c = EmulatorContext::default();
    // Taken branch to a target 2 bytes ahead.
    c.set_code_segment(&[beq(0, 0, 1), stop()]);
    let f = c.run().unwrap_err();
    assert_eq!(f, Fault { kind: ErrorKind::AlignmentError, pc: 0 });
}

#[test]
fn negative_address_is_address_error() {
    let mut c = EmulatorContext::default();
    c.set_code_segment(&[lw(t1, t0, -4), stop()]);
    let f = c.run().unwrap_err();
    assert_eq!(f, Fault { kind: ErrorKind::AddressError, pc: 0 });
}

// ---------------------------------------------------------------------
// The self-contained runner and the type-level codes.
// ---------------------------------------------------------------------

#[test]
fn run_loop_returns_a0() {
    let code = [li(a0, 7), mv(a1, a0), stop()];
    assert_eq!(ConstantEmulator::run_loop(&code).unwrap(), 7);
}

#[test]
fn run_loop_reports_faults() {
    let f = ConstantEmulator::run_loop(&[0x0000007F]).unwrap_err();
    assert_eq!(f.kind, ErrorKind::DecodeError);
    assert_eq!(f.pc, 0);
}

#[test]
fn type_level_codes() {
    assert_eq!(<ADD<1, 2, 3> as RType>::funct7(), 0);
    assert_eq!(<SUB<1, 2, 3> as RType>::funct7(), 0x20);
    assert_eq!(ADD::<1, 2, 3>.code(), 0x33);
    assert_eq!(SUB::<1, 2, 3>.code(), 0x53);
}
