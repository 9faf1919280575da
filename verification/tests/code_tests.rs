use r32i::instruct_info::btype::beq;
use r32i::instruct_info::btype::blt;
use r32i::instruct_info::itype::addi;
use r32i::instruct_info::itype::lw;
use r32i::instruct_info::itype::slli;
use r32i::instruct_info::pseudo::j;
use r32i::instruct_info::pseudo::jr;
use r32i::instruct_info::pseudo::li;
use r32i::instruct_info::pseudo::ret;
use r32i::instruct_info::pseudo::call;
use r32i::instruct_info::pseudo::stop;
use r32i::instruct_info::stype::sw;
use r32i::register::alias::{a0, a1, a2, ra, t0, t1, t2};
use r32i::EmulatorContext;

#[test]
fn test_j() {
    let mut c = EmulatorContext::default();
    let code = vec![
        li(a0, 0),
        li(a1, 0),
        j(4),
        addi(a0, a0, 1),
        addi(a1, a1, 2),
        stop(),
    ];
    c.set_code_segment(&code).run().unwrap();
    println!("a0: {}, a1: {}", c.registers.get(a0), c.registers.get(a1));
    assert!(c.registers.a(0) == &0 && c.registers.a(1) == &2)
}

#[test]
fn test_jr() {
    let mut c = EmulatorContext::default();
    let code = vec![
        addi(ra, ra, 12),
        jr(ra),
        li(a0, 1),
        li(a0, 42),
        stop(),
    ];
    c.set_code_segment(&code).run().unwrap();
    println!("a0: {}", c.registers.get(a0));
    assert_eq!(c.registers.a(0), &42)
}

#[test]
fn test_sw_lw() {
    let mut c = EmulatorContext::default();
    let code = vec![
        addi(t0, t0, 24),
        lw(t1, t0, 0),
        addi(t1, t1, 1),
        sw(t1, t0, 0),
        lw(t2, t0, 0),
        stop(),
    ];
    c.set_code_segment(&code).run().unwrap();
    println!(
        "t0: {}, t1: {}, t2: {}",
        c.registers.get(t0),
        c.registers.get(t1),
        c.registers.get(t2)
    );
    assert_eq!(c.registers.get(t1), c.registers.get(t2));
}

#[test]
fn test_slli() {
    let mut c = EmulatorContext::default();
    let code = vec![li(a0, 1), slli(a1, a0, 2), stop()];
    c.set_code_segment(&code).run().unwrap();
    assert_eq!(c.registers.a(1), &4)
}

#[test]
fn test_blt() {
    let mut c = EmulatorContext::default();
    let code = vec![
        li(a0, 5),
        li(a1, 10),
        blt(a0, a1, 6),
        li(a2, 0),
        j(4),
        li(a2, 1),
        stop(),
    ];
    c.set_code_segment(&code).run().unwrap();
    assert_eq!(c.registers.a(2), &1)
}

#[test]
fn test_beq() {
    let mut c = EmulatorContext::default();
    let code = vec![
        li(a0, 7),
        li(a1, 7),
        beq(a0, a1, 6),
        li(a2, 0),
        j(4),
        li(a2, 1),
    ];
    c.set_code_segment(&code).run().unwrap();
    assert_eq!(c.registers.a(2), &1)
}

#[test]
fn test_call() {
    let mut c = EmulatorContext::default();
    let code = vec![
        call(4),
        j(6),
        li(a0, 1),
        ret(),
        addi(a0, a0, 1),
        stop(),
    ];
    c.set_code_segment(&code).run().unwrap();
    assert_eq!(c.registers.a(0), &2)
}
