//! A disassembler core for the RISC-V base ISA with the M, A, F, D and C
//! extensions: bit-field extraction from raw instruction words, an ordered
//! table of mask/match filters with operand formatters, and a first-match
//! decoder that renders a word as its canonical mnemonic text.
use vstd::prelude::*;

pub mod csrs;
pub mod disasm;
pub mod inst;
pub mod instruction;
pub mod parser;
pub mod registers;
pub mod render;

verus! {

/// Word width of the decoded architecture.
pub enum Xlen {
    Rv32,
    Rv64,
}

/// The supported ISA extension sets. Each larger set is a superset of the
/// previous one.
pub enum Extensions {
    I,
    IMC,
    IMAC,
    IMAFDC,
}

impl Extensions {
    /// Whether the set includes the M (integer multiply/divide) extension.
    pub open spec fn spec_has_m(&self) -> bool {
        match self {
            Extensions::I => false,
            Extensions::IMC => true,
            Extensions::IMAC => true,
            Extensions::IMAFDC => true,
        }
    }

    pub fn has_m(&self) -> (r: bool)
        ensures
            r == self.spec_has_m(),
    {
        match self {
            Extensions::I => false,
            Extensions::IMC => true,
            Extensions::IMAC => true,
            Extensions::IMAFDC => true,
        }
    }

    /// Whether the set includes the A (atomics) extension.
    pub open spec fn spec_has_a(&self) -> bool {
        match self {
            Extensions::I => false,
            Extensions::IMC => false,
            Extensions::IMAC => true,
            Extensions::IMAFDC => true,
        }
    }

    pub fn has_a(&self) -> (r: bool)
        ensures
            r == self.spec_has_a(),
    {
        match self {
            Extensions::I => false,
            Extensions::IMC => false,
            Extensions::IMAC => true,
            Extensions::IMAFDC => true,
        }
    }

    /// Whether the set includes the F (single-precision floating-point)
    /// extension.
    pub open spec fn spec_has_f(&self) -> bool {
        match self {
            Extensions::I => false,
            Extensions::IMC => false,
            Extensions::IMAC => false,
            Extensions::IMAFDC => true,
        }
    }

    pub fn has_f(&self) -> (r: bool)
        ensures
            r == self.spec_has_f(),
    {
        match self {
            Extensions::I => false,
            Extensions::IMC => false,
            Extensions::IMAC => false,
            Extensions::IMAFDC => true,
        }
    }

    /// Whether the set includes the D (double-precision floating-point)
    /// extension.
    pub open spec fn spec_has_d(&self) -> bool {
        match self {
            Extensions::I => false,
            Extensions::IMC => false,
            Extensions::IMAC => false,
            Extensions::IMAFDC => true,
        }
    }

    pub fn has_d(&self) -> (r: bool)
        ensures
            r == self.spec_has_d(),
    {
        match self {
            Extensions::I => false,
            Extensions::IMC => false,
            Extensions::IMAC => false,
            Extensions::IMAFDC => true,
        }
    }

    /// Whether the set includes the C (compressed instructions) extension.
    pub open spec fn spec_has_c(&self) -> bool {
        match self {
            Extensions::I => false,
            Extensions::IMC => true,
            Extensions::IMAC => true,
            Extensions::IMAFDC => true,
        }
    }

    pub fn has_c(&self) -> (r: bool)
        ensures
            r == self.spec_has_c(),
    {
        match self {
            Extensions::I => false,
            Extensions::IMC => true,
            Extensions::IMAC => true,
            Extensions::IMAFDC => true,
        }
    }
}

} // verus!
