//! ABI register numbering: x0=zero, x1=ra, x2=sp, x3=gp, x4=tp,
//! x5–x7=t0–t2, x8=s0/fp, x9=s1, x10–x17=a0–a7, x18–x27=s2–s11,
//! x28–x31=t3–t6.

use vstd::prelude::*;

verus! {

#[allow(non_upper_case_globals)]
pub const x0: u8 = 0;

#[allow(non_upper_case_globals)]
pub const x1: u8 = 1;

#[allow(non_upper_case_globals)]
pub const x2: u8 = 2;

#[allow(non_upper_case_globals)]
pub const x3: u8 = 3;

#[allow(non_upper_case_globals)]
pub const x4: u8 = 4;

#[allow(non_upper_case_globals)]
pub const x5: u8 = 5;

#[allow(non_upper_case_globals)]
pub const x6: u8 = 6;

#[allow(non_upper_case_globals)]
pub const x7: u8 = 7;

#[allow(non_upper_case_globals)]
pub const x8: u8 = 8;

#[allow(non_upper_case_globals)]
pub const x9: u8 = 9;

#[allow(non_upper_case_globals)]
pub const x10: u8 = 10;

#[allow(non_upper_case_globals)]
pub const x11: u8 = 11;

#[allow(non_upper_case_globals)]
pub const x12: u8 = 12;

#[allow(non_upper_case_globals)]
pub const x13: u8 = 13;

#[allow(non_upper_case_globals)]
pub const x14: u8 = 14;

#[allow(non_upper_case_globals)]
pub const x15: u8 = 15;

#[allow(non_upper_case_globals)]
pub const x16: u8 = 16;

#[allow(non_upper_case_globals)]
pub const x17: u8 = 17;

#[allow(non_upper_case_globals)]
pub const x18: u8 = 18;

#[allow(non_upper_case_globals)]
pub const x19: u8 = 19;

#[allow(non_upper_case_globals)]
pub const x20: u8 = 20;

#[allow(non_upper_case_globals)]
pub const x21: u8 = 21;

#[allow(non_upper_case_globals)]
pub const x22: u8 = 22;

#[allow(non_upper_case_globals)]
pub const x23: u8 = 23;

#[allow(non_upper_case_globals)]
pub const x24: u8 = 24;

#[allow(non_upper_case_globals)]
pub const x25: u8 = 25;

#[allow(non_upper_case_globals)]
pub const x26: u8 = 26;

#[allow(non_upper_case_globals)]
pub const x27: u8 = 27;

#[allow(non_upper_case_globals)]
pub const x28: u8 = 28;

#[allow(non_upper_case_globals)]
pub const x29: u8 = 29;

#[allow(non_upper_case_globals)]
pub const x30: u8 = 30;

#[allow(non_upper_case_globals)]
pub const x31: u8 = 31;

#[allow(non_upper_case_globals)]
pub const zero: u8 = 0;

#[allow(non_upper_case_globals)]
pub const ra: u8 = 1;

#[allow(non_upper_case_globals)]
pub const sp: u8 = 2;

#[allow(non_upper_case_globals)]
pub const gp: u8 = 3;

#[allow(non_upper_case_globals)]
pub const tp: u8 = 4;

#[allow(non_upper_case_globals)]
pub const t0: u8 = 5;

#[allow(non_upper_case_globals)]
pub const t1: u8 = 6;

#[allow(non_upper_case_globals)]
pub const t2: u8 = 7;

#[allow(non_upper_case_globals)]
pub const fp: u8 = 8;

#[allow(non_upper_case_globals)]
pub const s0: u8 = 8;

#[allow(non_upper_case_globals)]
pub const s1: u8 = 9;

#[allow(non_upper_case_globals)]
pub const a0: u8 = 10;

#[allow(non_upper_case_globals)]
pub const a1: u8 = 11;

#[allow(non_upper_case_globals)]
pub const a2: u8 = 12;

#[allow(non_upper_case_globals)]
pub const a3: u8 = 13;

#[allow(non_upper_case_globals)]
pub const a4: u8 = 14;

#[allow(non_upper_case_globals)]
pub const a5: u8 = 15;

#[allow(non_upper_case_globals)]
pub const a6: u8 = 16;

#[allow(non_upper_case_globals)]
pub const a7: u8 = 17;

#[allow(non_upper_case_globals)]
pub const s2: u8 = 18;

#[allow(non_upper_case_globals)]
pub const s3: u8 = 19;

#[allow(non_upper_case_globals)]
pub const s4: u8 = 20;

#[allow(non_upper_case_globals)]
pub const s5: u8 = 21;

#[allow(non_upper_case_globals)]
pub const s6: u8 = 22;

#[allow(non_upper_case_globals)]
pub const s7: u8 = 23;

#[allow(non_upper_case_globals)]
pub const s8: u8 = 24;

#[allow(non_upper_case_globals)]
pub const s9: u8 = 25;

#[allow(non_upper_case_globals)]
pub const s10: u8 = 26;

#[allow(non_upper_case_globals)]
pub const s11: u8 = 27;

#[allow(non_upper_case_globals)]
pub const t3: u8 = 28;

#[allow(non_upper_case_globals)]
pub const t4: u8 = 29;

#[allow(non_upper_case_globals)]
pub const t5: u8 = 30;

#[allow(non_upper_case_globals)]
pub const t6: u8 = 31;

/// Register index of `t{n}`.
pub open spec fn spec_t_index(n: int) -> int {
    if n <= 2 {
        n + 5
    } else {
        n + 25
    }
}

/// Register index of `s{n}`.
pub open spec fn spec_s_index(n: int) -> int {
    if n <= 1 {
        n + 8
    } else {
        n + 16
    }
}

/// Register index of `t{n}`: x5–x7 for t0–t2, x28–x31 for t3–t6.
pub fn t(n: u8) -> (r: u8)
    requires
        n <= 6,
    ensures
        r == spec_t_index(n as int),
        r < 32,
{
    if n <= 2 {
        n + 5
    } else {
        n + 25
    }
}

/// Register index of `s{n}`: x8–x9 for s0–s1, x18–x27 for s2–s11.
pub fn s(n: u8) -> (r: u8)
    requires
        n <= 11,
    ensures
        r == spec_s_index(n as int),
        r < 32,
{
    if n <= 1 {
        n + 8
    } else {
        n + 16
    }
}

/// Register index of `a{n}`: x10–x17.
pub fn a(n: u8) -> (r: u8)
    requires
        n <= 7,
    ensures
        r == n + 10,
        r < 32,
{
    n + 10
}

} // verus!
