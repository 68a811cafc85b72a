//! ABI names of the integer and floating-point register files, and the
//! mask/match constants for the register fields of a 32-bit instruction.
use vstd::prelude::*;

verus! {

pub const MASK_RD: u32 = 0xf80;

pub const MASK_RS1: u32 = 0xf8000;

pub const MASK_RS2: u32 = 0x1f00000;

pub const MASK_I_TYPE_IMM: u32 = 0xfff00000;

pub const MATCH_RD_EQUALS_RA: u32 = 0x80;

pub const MATCH_RS1_EQUALS_RA: u32 = 0x8000;

pub const MATCH_I_TYPE_IMM_EQUALS_NEG1: u32 = 0xfff00000;

pub const MATCH_I_TYPE_IMM_EQUALS_1: u32 = 0x100000;

/// The ABI name of integer register `i`.
pub open spec fn spec_int_register_abi_name(i: u32) -> Seq<char>
    recommends
        i < 32,
{
    if i == 0 {
        "zero"@
    } else if i == 1 {
        "ra"@
    } else if i == 2 {
        "sp"@
    } else if i == 3 {
        "gp"@
    } else if i == 4 {
        "tp"@
    } else if i == 5 {
        "t0"@
    } else if i == 6 {
        "t1"@
    } else if i == 7 {
        "t2"@
    } else if i == 8 {
        "s0"@
    } else if i == 9 {
        "s1"@
    } else if i == 10 {
        "a0"@
    } else if i == 11 {
        "a1"@
    } else if i == 12 {
        "a2"@
    } else if i == 13 {
        "a3"@
    } else if i == 14 {
        "a4"@
    } else if i == 15 {
        "a5"@
    } else if i == 16 {
        "a6"@
    } else if i == 17 {
        "a7"@
    } else if i == 18 {
        "s2"@
    } else if i == 19 {
        "s3"@
    } else if i == 20 {
        "s4"@
    } else if i == 21 {
        "s5"@
    } else if i == 22 {
        "s6"@
    } else if i == 23 {
        "s7"@
    } else if i == 24 {
        "s8"@
    } else if i == 25 {
        "s9"@
    } else if i == 26 {
        "s10"@
    } else if i == 27 {
        "s11"@
    } else if i == 28 {
        "t3"@
    } else if i == 29 {
        "t4"@
    } else if i == 30 {
        "t5"@
    } else {
        "t6"@
    }
}

/// Looks up the ABI name of integer register `i`.
pub fn int_register_abi_name(i: u32) -> (r: &'static str)
    requires
        i < 32,
    ensures
        r@ == spec_int_register_abi_name(i),
{
    match i {
        0 => "zero",
        1 => "ra",
        2 => "sp",
        3 => "gp",
        4 => "tp",
        5 => "t0",
        6 => "t1",
        7 => "t2",
        8 => "s0",
        9 => "s1",
        10 => "a0",
        11 => "a1",
        12 => "a2",
        13 => "a3",
        14 => "a4",
        15 => "a5",
        16 => "a6",
        17 => "a7",
        18 => "s2",
        19 => "s3",
        20 => "s4",
        21 => "s5",
        22 => "s6",
        23 => "s7",
        24 => "s8",
        25 => "s9",
        26 => "s10",
        27 => "s11",
        28 => "t3",
        29 => "t4",
        30 => "t5",
        _ => "t6",
    }
}

/// The ABI name of floating-point register `i`.
pub open spec fn spec_fp_register_abi_name(i: u32) -> Seq<char>
    recommends
        i < 32,
{
    if i == 0 {
        "ft0"@
    } else if i == 1 {
        "ft1"@
    } else if i == 2 {
        "ft2"@
    } else if i == 3 {
        "ft3"@
    } else if i == 4 {
        "ft4"@
    } else if i == 5 {
        "ft5"@
    } else if i == 6 {
        "ft6"@
    } else if i == 7 {
        "ft7"@
    } else if i == 8 {
        "fs0"@
    } else if i == 9 {
        "fs1"@
    } else if i == 10 {
        "fa0"@
    } else if i == 11 {
        "fa1"@
    } else if i == 12 {
        "fa2"@
    } else if i == 13 {
        "fa3"@
    } else if i == 14 {
        "fa4"@
    } else if i == 15 {
        "fa5"@
    } else if i == 16 {
        "fa6"@
    } else if i == 17 {
        "fa7"@
    } else if i == 18 {
        "fs2"@
    } else if i == 19 {
        "fs3"@
    } else if i == 20 {
        "fs4"@
    } else if i == 21 {
        "fs5"@
    } else if i == 22 {
        "fs6"@
    } else if i == 23 {
        "fs7"@
    } else if i == 24 {
        "fs8"@
    } else if i == 25 {
        "fs9"@
    } else if i == 26 {
        "fs10"@
    } else if i == 27 {
        "fs11"@
    } else if i == 28 {
        "ft8"@
    } else if i == 29 {
        "ft9"@
    } else if i == 30 {
        "ft10"@
    } else {
        "ft11"@
    }
}

/// Looks up the ABI name of floating-point register `i`.
pub fn fp_register_abi_name(i: u32) -> (r: &'static str)
    requires
        i < 32,
    ensures
        r@ == spec_fp_register_abi_name(i),
{
    match i {
        0 => "ft0",
        1 => "ft1",
        2 => "ft2",
        3 => "ft3",
        4 => "ft4",
        5 => "ft5",
        6 => "ft6",
        7 => "ft7",
        8 => "fs0",
        9 => "fs1",
        10 => "fa0",
        11 => "fa1",
        12 => "fa2",
        13 => "fa3",
        14 => "fa4",
        15 => "fa5",
        16 => "fa6",
        17 => "fa7",
        18 => "fs2",
        19 => "fs3",
        20 => "fs4",
        21 => "fs5",
        22 => "fs6",
        23 => "fs7",
        24 => "fs8",
        25 => "fs9",
        26 => "fs10",
        27 => "fs11",
        28 => "ft8",
        29 => "ft9",
        30 => "ft10",
        _ => "ft11",
    }
}

} // verus!
