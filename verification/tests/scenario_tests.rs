use r32i::const_emulator::ConstantEmulator;
use r32i::instruct_info::btype::beq;
use r32i::instruct_info::btype::bge;
use r32i::instruct_info::btype::ble;
use r32i::instruct_info::btype::blt;
use r32i::instruct_info::btype::bne;
use r32i::instruct_info::itype::addi;
use r32i::instruct_info::itype::lw;
use r32i::instruct_info::itype::slli;
use r32i::instruct_info::pseudo::call;
use r32i::instruct_info::pseudo::j;
use r32i::instruct_info::pseudo::jr;
use r32i::instruct_info::pseudo::li;
use r32i::instruct_info::pseudo::mv;
use r32i::instruct_info::pseudo::ret;
use r32i::instruct_info::pseudo::stop;
use r32i::instruct_info::rtype::add;
use r32i::instruct_info::stype::sw;
use r32i::register::alias::{a0, a1, a2, a3, a4, a5, a6, a7, ra, s0, s1, s2, sp, t0, t1, t2, t3};
use r32i::EmulatorContext;

/// t0 counts 1..=100 into t2; a0 ends as 1 + 2 + ... + 100.
fn accumulator_code() -> Vec<u32> {
    vec![
        li(t0, 1),
        li(t1, 101),
        li(t2, 0),
        add(t2, t2, t0),
        addi(t0, t0, 1),
        bne(t0, t1, -4),
        mv(a0, t2),
        stop(),
    ]
}

#[test]
fn accumulator_loop() {
    let mut c = EmulatorContext::default();
    c.set_code_segment(&accumulator_code()).run().unwrap();
    assert_eq!(c.registers.get(a0), 5050);
}

#[test]
fn accumulator_loop_via_run_loop() {
    assert_eq!(ConstantEmulator::run_loop(&accumulator_code()).unwrap(), 5050);
}

#[test]
fn fibonacci_thousand() {
    let mut c = EmulatorContext::default();
    let code = vec![
        li(t0, 1000),
        li(t1, 0),
        li(t2, 1),
        beq(t0, 0, 12),
        add(t3, t1, t2),
        mv(t1, t2),
        mv(t2, t3),
        addi(t0, t0, -1),
        j(-10),
        mv(a0, t1),
        stop(),
    ];
    c.set_code_segment(&code).run().unwrap();
    // Computed independently with 32-bit wrapping arithmetic.
    let mut x: u32 = 0;
    let mut y: u32 = 1;
    for _ in 0..1000 {
        let z: u32 = x.wrapping_add(y);
        x = y;
        y = z;
    }
    assert_eq!(x, 0x5CC0604B);
    assert_eq!(c.registers.get(a0), x);
}

#[test]
fn store_load_round_trip() {
    let mut c = EmulatorContext::default();
    let code = vec![
        addi(t0, t0, 24),
        lw(t1, t0, 0),
        addi(t1, t1, 1),
        sw(t1, t0, 0),
        lw(t2, t0, 0),
        stop(),
    ];
    c.set_code_segment(&code).set_data_segment(&[0x12345678]).run().unwrap();
    assert_eq!(c.registers.get(t1), 0x12345679);
    assert_eq!(c.registers.get(t2), 0x12345679);
}

#[test]
fn quicksort_ten_words() {
    let mut c = EmulatorContext::default();
    let code = vec![
        li(a0, 0),
        li(a1, 0),
        li(a2, 9),
        call(4),
        stop(),
        // quick_sort:
        addi(sp, sp, -16),
        slli(a5, a1, 2),
        sw(s1, sp, 4),
        sw(s2, sp, 0),
        add(a5, a0, a5),
        sw(ra, sp, 12),
        sw(s0, sp, 8),
        lw(a7, a5, 0),
        mv(s1, a0),
        mv(s2, a2),
        bge(a1, a2, 124),
        slli(a5, a2, 2),
        add(a5, a0, a5),
        lw(a4, a5, 0),
        mv(a3, a2),
        mv(a2, a1),
        addi(a6, a3, -1),
        slli(a6, a6, 2),
        add(a6, s1, a6),
        j(10),
        addi(a3, a3, -1),
        lw(a4, a5, 4),
        beq(a3, a2, 104),
        mv(a6, a5),
        addi(a5, a6, -4),
        ble(a7, a4, -10),
        slli(a5, a2, 2),
        add(a5, s1, a5),
        slli(a6, a3, 2),
        sw(a4, a5, 0),
        add(a6, s1, a6),
        ble(a3, a2, 92),
        mv(s0, a2),
        j(6),
        addi(a5, a5, 4),
        beq(a3, s0, 20),
        lw(a4, a5, 0),
        mv(a2, s0),
        addi(s0, s0, 1),
        ble(a4, a7, -10),
        sw(a4, a6, 0),
        blt(a2, a3, -50),
        mv(s0, a2),
        addi(a2, a2, -1),
        j(10),
        slli(a5, s0, 2),
        add(a5, s1, a5),
        lw(a4, a5, 0),
        sw(a4, a6, 0),
        sw(a7, a5, 0),
        bge(a1, a2, 6),
        mv(a0, s1),
        call(-104),
        addi(a1, s0, 1),
        blt(a1, s2, 16),
        lw(ra, sp, 12),
        lw(s0, sp, 8),
        lw(s1, sp, 4),
        lw(s2, sp, 0),
        li(a0, 0),
        addi(sp, sp, 16),
        ret(),
        mv(a2, s2),
        mv(a0, s1),
        call(-128),
        lw(ra, sp, 12),
        lw(s0, sp, 8),
        lw(s1, sp, 4),
        lw(s2, sp, 0),
        li(a0, 0),
        addi(sp, sp, 16),
        jr(ra),
        mv(s0, a1),
        j(-40),
        slli(a5, a2, 2),
        add(a5, s1, a5),
        sw(a4, a5, 0),
        mv(s0, a2),
        addi(a2, a2, -1),
        j(-62),
    ];
    assert_eq!(code.len(), 85);
    let nums = [18, 46, 62, 59, 78, 71, 7, 99, 18, 28];
    c.set_data_segment(&nums).set_code_segment(&code).run().unwrap();
    assert_eq!(
        &c.memory.test_get_memory()[..10],
        &[7, 18, 18, 28, 46, 59, 62, 71, 78, 99]
    );
}
