//! Architectural names of the control and status registers.
use vstd::prelude::*;

verus! {

/// The architectural name of the CSR at `index`, or `None` where the index
/// is not a recognized CSR address.
pub open spec fn spec_lookup_csr(index: u32) -> Option<Seq<char>> {
    if index == 0x001 {
        Some("fflags"@)
    } else if index == 0x002 {
        Some("frm"@)
    } else if index == 0x003 {
        Some("fcsr"@)
    } else if index == 0x100 {
        Some("sstatus"@)
    } else if index == 0x104 {
        Some("sie"@)
    } else if index == 0x105 {
        Some("stvec"@)
    } else if index == 0x106 {
        Some("scounteren"@)
    } else if index == 0x140 {
        Some("sscratch"@)
    } else if index == 0x141 {
        Some("sepc"@)
    } else if index == 0x142 {
        Some("scause"@)
    } else if index == 0x143 {
        Some("stval"@)
    } else if index == 0x144 {
        Some("sip"@)
    } else if index == 0x180 {
        Some("satp"@)
    } else if index == 0x300 {
        Some("mstatus"@)
    } else if index == 0x301 {
        Some("misa"@)
    } else if index == 0x302 {
        Some("medeleg"@)
    } else if index == 0x303 {
        Some("mideleg"@)
    } else if index == 0x304 {
        Some("mie"@)
    } else if index == 0x305 {
        Some("mtvec"@)
    } else if index == 0x306 {
        Some("mcounteren"@)
    } else if index == 0x340 {
        Some("mscratch"@)
    } else if index == 0x341 {
        Some("mepc"@)
    } else if index == 0x342 {
        Some("mcause"@)
    } else if index == 0x343 {
        Some("mtval"@)
    } else if index == 0x344 {
        Some("mip"@)
    } else if index == 0x3a0 {
        Some("pmpcfg0"@)
    } else if index == 0x3a1 {
        Some("pmpcfg1"@)
    } else if index == 0x3a2 {
        Some("pmpcfg2"@)
    } else if index == 0x3a3 {
        Some("pmpcfg3"@)
    } else if index == 0x3b0 {
        Some("pmpaddr0"@)
    } else if index == 0x3b1 {
        Some("pmpaddr1"@)
    } else if index == 0x3b2 {
        Some("pmpaddr2"@)
    } else if index == 0x3b3 {
        Some("pmpaddr3"@)
    } else if index == 0x3b4 {
        Some("pmpaddr4"@)
    } else if index == 0x3b5 {
        Some("pmpaddr5"@)
    } else if index == 0x3b6 {
        Some("pmpaddr6"@)
    } else if index == 0x3b7 {
        Some("pmpaddr7"@)
    } else if index == 0x3b8 {
        Some("pmpaddr8"@)
    } else if index == 0x3b9 {
        Some("pmpaddr9"@)
    } else if index == 0x3ba {
        Some("pmpaddr10"@)
    } else if index == 0x3bb {
        Some("pmpaddr11"@)
    } else if index == 0x3bc {
        Some("pmpaddr12"@)
    } else if index == 0x3bd {
        Some("pmpaddr13"@)
    } else if index == 0x3be {
        Some("pmpaddr14"@)
    } else if index == 0x3bf {
        Some("pmpaddr15"@)
    } else if index == 0xb00 {
        Some("mcycle"@)
    } else if index == 0xb02 {
        Some("minstret"@)
    } else if index == 0xb80 {
        Some("mcycleh"@)
    } else if index == 0xb82 {
        Some("minstreth"@)
    } else if index == 0xc00 {
        Some("cycle"@)
    } else if index == 0xc01 {
        Some("time"@)
    } else if index == 0xc02 {
        Some("instret"@)
    } else if index == 0xc80 {
        Some("cycleh"@)
    } else if index == 0xc81 {
        Some("timeh"@)
    } else if index == 0xc82 {
        Some("instreth"@)
    } else if index == 0xf11 {
        Some("mvendorid"@)
    } else if index == 0xf12 {
        Some("marchid"@)
    } else if index == 0xf13 {
        Some("mimpid"@)
    } else if index == 0xf14 {
        Some("mhartid"@)
    } else {
        None
    }
}

/// Looks up the architectural name of the CSR at `index`.
pub fn lookup_csr(index: u32) -> (r: Option<&'static str>)
    ensures
        r is Some <==> spec_lookup_csr(index) is Some,
        r matches Some(s) ==> spec_lookup_csr(index) == Some(s@),
{
    match index {
        0x001 => Some("fflags"),
        0x002 => Some("frm"),
        0x003 => Some("fcsr"),
        0x100 => Some("sstatus"),
        0x104 => Some("sie"),
        0x105 => Some("stvec"),
        0x106 => Some("scounteren"),
        0x140 => Some("sscratch"),
        0x141 => Some("sepc"),
        0x142 => Some("scause"),
        0x143 => Some("stval"),
        0x144 => Some("sip"),
        0x180 => Some("satp"),
        0x300 => Some("mstatus"),
        0x301 => Some("misa"),
        0x302 => Some("medeleg"),
        0x303 => Some("mideleg"),
        0x304 => Some("mie"),
        0x305 => Some("mtvec"),
        0x306 => Some("mcounteren"),
        0x340 => Some("mscratch"),
        0x341 => Some("mepc"),
        0x342 => Some("mcause"),
        0x343 => Some("mtval"),
        0x344 => Some("mip"),
        0x3a0 => Some("pmpcfg0"),
        0x3a1 => Some("pmpcfg1"),
        0x3a2 => Some("pmpcfg2"),
        0x3a3 => Some("pmpcfg3"),
        0x3b0 => Some("pmpaddr0"),
        0x3b1 => Some("pmpaddr1"),
        0x3b2 => Some("pmpaddr2"),
        0x3b3 => Some("pmpaddr3"),
        0x3b4 => Some("pmpaddr4"),
        0x3b5 => Some("pmpaddr5"),
        0x3b6 => Some("pmpaddr6"),
        0x3b7 => Some("pmpaddr7"),
        0x3b8 => Some("pmpaddr8"),
        0x3b9 => Some("pmpaddr9"),
        0x3ba => Some("pmpaddr10"),
        0x3bb => Some("pmpaddr11"),
        0x3bc => Some("pmpaddr12"),
        0x3bd => Some("pmpaddr13"),
        0x3be => Some("pmpaddr14"),
        0x3bf => Some("pmpaddr15"),
        0xb00 => Some("mcycle"),
        0xb02 => Some("minstret"),
        0xb80 => Some("mcycleh"),
        0xb82 => Some("minstreth"),
        0xc00 => Some("cycle"),
        0xc01 => Some("time"),
        0xc02 => Some("instret"),
        0xc80 => Some("cycleh"),
        0xc81 => Some("timeh"),
        0xc82 => Some("instreth"),
        0xf11 => Some("mvendorid"),
        0xf12 => Some("marchid"),
        0xf13 => Some("mimpid"),
        0xf14 => Some("mhartid"),
        _ => None,
    }
}

} // verus!
