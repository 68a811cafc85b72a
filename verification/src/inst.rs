//! Mask and match constants for every recognized instruction encoding: an
//! instruction word `x` carries the encoding named `X` exactly when
//! `x & MASK_X == MATCH_X`.
use vstd::prelude::*;

verus! {

// Base integer ISA, Zifencei, Zicsr and privileged encodings
pub const MASK_ADDI: u32 = 0x707f;

pub const MATCH_ADDI: u32 = 0x13;

pub const MASK_SLTI: u32 = 0x707f;

pub const MATCH_SLTI: u32 = 0x2013;

pub const MASK_SLTIU: u32 = 0x707f;

pub const MATCH_SLTIU: u32 = 0x3013;

pub const MASK_XORI: u32 = 0x707f;

pub const MATCH_XORI: u32 = 0x4013;

pub const MASK_ORI: u32 = 0x707f;

pub const MATCH_ORI: u32 = 0x6013;

pub const MASK_ANDI: u32 = 0x707f;

pub const MATCH_ANDI: u32 = 0x7013;

pub const MASK_SLLI: u32 = 0xfc00707f;

pub const MATCH_SLLI: u32 = 0x1013;

pub const MASK_SRLI: u32 = 0xfc00707f;

pub const MATCH_SRLI: u32 = 0x5013;

pub const MASK_SRAI: u32 = 0xfc00707f;

pub const MATCH_SRAI: u32 = 0x40005013;

pub const MASK_LUI: u32 = 0x7f;

pub const MATCH_LUI: u32 = 0x37;

pub const MASK_AUIPC: u32 = 0x7f;

pub const MATCH_AUIPC: u32 = 0x17;

pub const MASK_ADD: u32 = 0xfe00707f;

pub const MATCH_ADD: u32 = 0x33;

pub const MASK_SUB: u32 = 0xfe00707f;

pub const MATCH_SUB: u32 = 0x40000033;

pub const MASK_SLL: u32 = 0xfe00707f;

pub const MATCH_SLL: u32 = 0x1033;

pub const MASK_SLT: u32 = 0xfe00707f;

pub const MATCH_SLT: u32 = 0x2033;

pub const MASK_SLTU: u32 = 0xfe00707f;

pub const MATCH_SLTU: u32 = 0x3033;

pub const MASK_XOR: u32 = 0xfe00707f;

pub const MATCH_XOR: u32 = 0x4033;

pub const MASK_SRL: u32 = 0xfe00707f;

pub const MATCH_SRL: u32 = 0x5033;

pub const MASK_SRA: u32 = 0xfe00707f;

pub const MATCH_SRA: u32 = 0x40005033;

pub const MASK_OR: u32 = 0xfe00707f;

pub const MATCH_OR: u32 = 0x6033;

pub const MASK_AND: u32 = 0xfe00707f;

pub const MATCH_AND: u32 = 0x7033;

pub const MASK_JAL: u32 = 0x7f;

pub const MATCH_JAL: u32 = 0x6f;

pub const MASK_JALR: u32 = 0x707f;

pub const MATCH_JALR: u32 = 0x67;

pub const MASK_BEQ: u32 = 0x707f;

pub const MATCH_BEQ: u32 = 0x63;

pub const MASK_BNE: u32 = 0x707f;

pub const MATCH_BNE: u32 = 0x1063;

pub const MASK_BLT: u32 = 0x707f;

pub const MATCH_BLT: u32 = 0x4063;

pub const MASK_BGE: u32 = 0x707f;

pub const MATCH_BGE: u32 = 0x5063;

pub const MASK_BLTU: u32 = 0x707f;

pub const MATCH_BLTU: u32 = 0x6063;

pub const MASK_BGEU: u32 = 0x707f;

pub const MATCH_BGEU: u32 = 0x7063;

pub const MASK_LB: u32 = 0x707f;

pub const MATCH_LB: u32 = 0x3;

pub const MASK_LH: u32 = 0x707f;

pub const MATCH_LH: u32 = 0x1003;

pub const MASK_LW: u32 = 0x707f;

pub const MATCH_LW: u32 = 0x2003;

pub const MASK_LBU: u32 = 0x707f;

pub const MATCH_LBU: u32 = 0x4003;

pub const MASK_LHU: u32 = 0x707f;

pub const MATCH_LHU: u32 = 0x5003;

pub const MASK_LWU: u32 = 0x707f;

pub const MATCH_LWU: u32 = 0x6003;

pub const MASK_LD: u32 = 0x707f;

pub const MATCH_LD: u32 = 0x3003;

pub const MASK_SB: u32 = 0x707f;

pub const MATCH_SB: u32 = 0x23;

pub const MASK_SH: u32 = 0x707f;

pub const MATCH_SH: u32 = 0x1023;

pub const MASK_SW: u32 = 0x707f;

pub const MATCH_SW: u32 = 0x2023;

pub const MASK_SD: u32 = 0x707f;

pub const MATCH_SD: u32 = 0x3023;

pub const MASK_ADDIW: u32 = 0x707f;

pub const MATCH_ADDIW: u32 = 0x1b;

pub const MASK_SLLIW: u32 = 0xfe00707f;

pub const MATCH_SLLIW: u32 = 0x101b;

pub const MASK_SRLIW: u32 = 0xfe00707f;

pub const MATCH_SRLIW: u32 = 0x501b;

pub const MASK_SRAIW: u32 = 0xfe00707f;

pub const MATCH_SRAIW: u32 = 0x4000501b;

pub const MASK_ADDW: u32 = 0xfe00707f;

pub const MATCH_ADDW: u32 = 0x3b;

pub const MASK_SUBW: u32 = 0xfe00707f;

pub const MATCH_SUBW: u32 = 0x4000003b;

pub const MASK_SLLW: u32 = 0xfe00707f;

pub const MATCH_SLLW: u32 = 0x103b;

pub const MASK_SRLW: u32 = 0xfe00707f;

pub const MATCH_SRLW: u32 = 0x503b;

pub const MASK_SRAW: u32 = 0xfe00707f;

pub const MATCH_SRAW: u32 = 0x4000503b;

pub const MASK_FENCE: u32 = 0x707f;

pub const MATCH_FENCE: u32 = 0xf;

pub const MASK_FENCE_I: u32 = 0x707f;

pub const MATCH_FENCE_I: u32 = 0x100f;

pub const MASK_ECALL: u32 = 0xffffffff;

pub const MATCH_ECALL: u32 = 0x73;

pub const MASK_EBREAK: u32 = 0xffffffff;

pub const MATCH_EBREAK: u32 = 0x100073;

pub const MASK_WFI: u32 = 0xffffffff;

pub const MATCH_WFI: u32 = 0x10500073;

pub const MASK_MRET: u32 = 0xffffffff;

pub const MATCH_MRET: u32 = 0x30200073;

pub const MASK_SRET: u32 = 0xffffffff;

pub const MATCH_SRET: u32 = 0x10200073;

pub const MASK_URET: u32 = 0xffffffff;

pub const MATCH_URET: u32 = 0x200073;

pub const MASK_SFENCE_VMA: u32 = 0xfe007fff;

pub const MATCH_SFENCE_VMA: u32 = 0x12000073;

pub const MASK_CSRRW: u32 = 0x707f;

pub const MATCH_CSRRW: u32 = 0x1073;

pub const MASK_CSRRS: u32 = 0x707f;

pub const MATCH_CSRRS: u32 = 0x2073;

pub const MASK_CSRRC: u32 = 0x707f;

pub const MATCH_CSRRC: u32 = 0x3073;

pub const MASK_CSRRWI: u32 = 0x707f;

pub const MATCH_CSRRWI: u32 = 0x5073;

pub const MASK_CSRRSI: u32 = 0x707f;

pub const MATCH_CSRRSI: u32 = 0x6073;

pub const MASK_CSRRCI: u32 = 0x707f;

pub const MATCH_CSRRCI: u32 = 0x7073;

// M extension, integer multiplication and division
pub const MASK_MUL: u32 = 0xfe00707f;

pub const MATCH_MUL: u32 = 0x2000033;

pub const MASK_MULH: u32 = 0xfe00707f;

pub const MATCH_MULH: u32 = 0x2001033;

pub const MASK_MULHSU: u32 = 0xfe00707f;

pub const MATCH_MULHSU: u32 = 0x2002033;

pub const MASK_MULHU: u32 = 0xfe00707f;

pub const MATCH_MULHU: u32 = 0x2003033;

pub const MASK_DIV: u32 = 0xfe00707f;

pub const MATCH_DIV: u32 = 0x2004033;

pub const MASK_DIVU: u32 = 0xfe00707f;

pub const MATCH_DIVU: u32 = 0x2005033;

pub const MASK_REM: u32 = 0xfe00707f;

pub const MATCH_REM: u32 = 0x2006033;

pub const MASK_REMU: u32 = 0xfe00707f;

pub const MATCH_REMU: u32 = 0x2007033;

pub const MASK_MULW: u32 = 0xfe00707f;

pub const MATCH_MULW: u32 = 0x200003b;

pub const MASK_DIVW: u32 = 0xfe00707f;

pub const MATCH_DIVW: u32 = 0x200403b;

pub const MASK_DIVUW: u32 = 0xfe00707f;

pub const MATCH_DIVUW: u32 = 0x200503b;

pub const MASK_REMW: u32 = 0xfe00707f;

pub const MATCH_REMW: u32 = 0x200603b;

pub const MASK_REMUW: u32 = 0xfe00707f;

pub const MATCH_REMUW: u32 = 0x200703b;

// A extension, atomic memory operations
pub const MASK_LR_W: u32 = 0xf9f0707f;

pub const MATCH_LR_W: u32 = 0x1000202f;

pub const MASK_SC_W: u32 = 0xf800707f;

pub const MATCH_SC_W: u32 = 0x1800202f;

pub const MASK_LR_D: u32 = 0xf9f0707f;

pub const MATCH_LR_D: u32 = 0x1000302f;

pub const MASK_SC_D: u32 = 0xf800707f;

pub const MATCH_SC_D: u32 = 0x1800302f;

pub const MASK_AMOSWAP_W: u32 = 0xf800707f;

pub const MATCH_AMOSWAP_W: u32 = 0x800202f;

pub const MASK_AMOSWAP_D: u32 = 0xf800707f;

pub const MATCH_AMOSWAP_D: u32 = 0x800302f;

pub const MASK_AMOADD_W: u32 = 0xf800707f;

pub const MATCH_AMOADD_W: u32 = 0x202f;

pub const MASK_AMOADD_D: u32 = 0xf800707f;

pub const MATCH_AMOADD_D: u32 = 0x302f;

pub const MASK_AMOAND_W: u32 = 0xf800707f;

pub const MATCH_AMOAND_W: u32 = 0x6000202f;

pub const MASK_AMOAND_D: u32 = 0xf800707f;

pub const MATCH_AMOAND_D: u32 = 0x6000302f;

pub const MASK_AMOOR_W: u32 = 0xf800707f;

pub const MATCH_AMOOR_W: u32 = 0x4000202f;

pub const MASK_AMOOR_D: u32 = 0xf800707f;

pub const MATCH_AMOOR_D: u32 = 0x4000302f;

pub const MASK_AMOXOR_W: u32 = 0xf800707f;

pub const MATCH_AMOXOR_W: u32 = 0x2000202f;

pub const MASK_AMOXOR_D: u32 = 0xf800707f;

pub const MATCH_AMOXOR_D: u32 = 0x2000302f;

pub const MASK_AMOMAX_W: u32 = 0xf800707f;

pub const MATCH_AMOMAX_W: u32 = 0xa000202f;

pub const MASK_AMOMAX_D: u32 = 0xf800707f;

pub const MATCH_AMOMAX_D: u32 = 0xa000302f;

pub const MASK_AMOMAXU_W: u32 = 0xf800707f;

pub const MATCH_AMOMAXU_W: u32 = 0xe000202f;

pub const MASK_AMOMAXU_D: u32 = 0xf800707f;

pub const MATCH_AMOMAXU_D: u32 = 0xe000302f;

pub const MASK_AMOMIN_W: u32 = 0xf800707f;

pub const MATCH_AMOMIN_W: u32 = 0x8000202f;

pub const MASK_AMOMIN_D: u32 = 0xf800707f;

pub const MATCH_AMOMIN_D: u32 = 0x8000302f;

pub const MASK_AMOMINU_W: u32 = 0xf800707f;

pub const MATCH_AMOMINU_W: u32 = 0xc000202f;

pub const MASK_AMOMINU_D: u32 = 0xf800707f;

pub const MATCH_AMOMINU_D: u32 = 0xc000302f;

// F extension, single-precision floating-point
pub const MASK_FLW: u32 = 0x707f;

pub const MATCH_FLW: u32 = 0x2007;

pub const MASK_FSW: u32 = 0x707f;

pub const MATCH_FSW: u32 = 0x2027;

pub const MASK_FADD_S: u32 = 0xfe00007f;

pub const MATCH_FADD_S: u32 = 0x53;

pub const MASK_FSUB_S: u32 = 0xfe00007f;

pub const MATCH_FSUB_S: u32 = 0x8000053;

pub const MASK_FMUL_S: u32 = 0xfe00007f;

pub const MATCH_FMUL_S: u32 = 0x10000053;

pub const MASK_FDIV_S: u32 = 0xfe00007f;

pub const MATCH_FDIV_S: u32 = 0x18000053;

pub const MASK_FSQRT_S: u32 = 0xfff0007f;

pub const MATCH_FSQRT_S: u32 = 0x58000053;

pub const MASK_FMIN_S: u32 = 0xfe00707f;

pub const MATCH_FMIN_S: u32 = 0x28000053;

pub const MASK_FMAX_S: u32 = 0xfe00707f;

pub const MATCH_FMAX_S: u32 = 0x28001053;

pub const MASK_FMADD_S: u32 = 0x600007f;

pub const MATCH_FMADD_S: u32 = 0x43;

pub const MASK_FNMADD_S: u32 = 0x600007f;

pub const MATCH_FNMADD_S: u32 = 0x4f;

pub const MASK_FMSUB_S: u32 = 0x600007f;

pub const MATCH_FMSUB_S: u32 = 0x47;

pub const MASK_FNMSUB_S: u32 = 0x600007f;

pub const MATCH_FNMSUB_S: u32 = 0x4b;

pub const MASK_FCVT_S_W: u32 = 0xfff0007f;

pub const MATCH_FCVT_S_W: u32 = 0xd0000053;

pub const MASK_FCVT_S_L: u32 = 0xfff0007f;

pub const MATCH_FCVT_S_L: u32 = 0xd0200053;

pub const MASK_FCVT_S_WU: u32 = 0xfff0007f;

pub const MATCH_FCVT_S_WU: u32 = 0xd0100053;

pub const MASK_FCVT_S_LU: u32 = 0xfff0007f;

pub const MATCH_FCVT_S_LU: u32 = 0xd0300053;

pub const MASK_FCVT_W_S: u32 = 0xfff0007f;

pub const MATCH_FCVT_W_S: u32 = 0xc0000053;

pub const MASK_FCVT_L_S: u32 = 0xfff0007f;

pub const MATCH_FCVT_L_S: u32 = 0xc0200053;

pub const MASK_FCVT_WU_S: u32 = 0xfff0007f;

pub const MATCH_FCVT_WU_S: u32 = 0xc0100053;

pub const MASK_FCVT_LU_S: u32 = 0xfff0007f;

pub const MATCH_FCVT_LU_S: u32 = 0xc0300053;

pub const MASK_FSGNJ_S: u32 = 0xfe00707f;

pub const MATCH_FSGNJ_S: u32 = 0x20000053;

pub const MASK_FSGNJN_S: u32 = 0xfe00707f;

pub const MATCH_FSGNJN_S: u32 = 0x20001053;

pub const MASK_FSGNJX_S: u32 = 0xfe00707f;

pub const MATCH_FSGNJX_S: u32 = 0x20002053;

pub const MASK_FMV_W_X: u32 = 0xfff0707f;

pub const MATCH_FMV_W_X: u32 = 0xf0000053;

pub const MASK_FMV_X_W: u32 = 0xfff0707f;

pub const MATCH_FMV_X_W: u32 = 0xe0000053;

pub const MASK_FEQ_S: u32 = 0xfe00707f;

pub const MATCH_FEQ_S: u32 = 0xa0002053;

pub const MASK_FLT_S: u32 = 0xfe00707f;

pub const MATCH_FLT_S: u32 = 0xa0001053;

pub const MASK_FLE_S: u32 = 0xfe00707f;

pub const MATCH_FLE_S: u32 = 0xa0000053;

pub const MASK_FCLASS_S: u32 = 0xfff0707f;

pub const MATCH_FCLASS_S: u32 = 0xe0001053;

// D extension, double-precision floating-point
pub const MASK_FLD: u32 = 0x707f;

pub const MATCH_FLD: u32 = 0x3007;

pub const MASK_FSD: u32 = 0x707f;

pub const MATCH_FSD: u32 = 0x3027;

pub const MASK_FADD_D: u32 = 0xfe00007f;

pub const MATCH_FADD_D: u32 = 0x2000053;

pub const MASK_FSUB_D: u32 = 0xfe00007f;

pub const MATCH_FSUB_D: u32 = 0xa000053;

pub const MASK_FMUL_D: u32 = 0xfe00007f;

pub const MATCH_FMUL_D: u32 = 0x12000053;

pub const MASK_FDIV_D: u32 = 0xfe00007f;

pub const MATCH_FDIV_D: u32 = 0x1a000053;

pub const MASK_FSQRT_D: u32 = 0xfff0007f;

pub const MATCH_FSQRT_D: u32 = 0x5a000053;

pub const MASK_FMIN_D: u32 = 0xfe00707f;

pub const MATCH_FMIN_D: u32 = 0x2a000053;

pub const MASK_FMAX_D: u32 = 0xfe00707f;

pub const MATCH_FMAX_D: u32 = 0x2a001053;

pub const MASK_FMADD_D: u32 = 0x600007f;

pub const MATCH_FMADD_D: u32 = 0x2000043;

pub const MASK_FNMADD_D: u32 = 0x600007f;

pub const MATCH_FNMADD_D: u32 = 0x200004f;

pub const MASK_FMSUB_D: u32 = 0x600007f;

pub const MATCH_FMSUB_D: u32 = 0x2000047;

pub const MASK_FNMSUB_D: u32 = 0x600007f;

pub const MATCH_FNMSUB_D: u32 = 0x200004b;

pub const MASK_FCVT_D_W: u32 = 0xfff0007f;

pub const MATCH_FCVT_D_W: u32 = 0xd2000053;

pub const MASK_FCVT_D_L: u32 = 0xfff0007f;

pub const MATCH_FCVT_D_L: u32 = 0xd2200053;

pub const MASK_FCVT_D_WU: u32 = 0xfff0007f;

pub const MATCH_FCVT_D_WU: u32 = 0xd2100053;

pub const MASK_FCVT_D_LU: u32 = 0xfff0007f;

pub const MATCH_FCVT_D_LU: u32 = 0xd2300053;

pub const MASK_FCVT_W_D: u32 = 0xfff0007f;

pub const MATCH_FCVT_W_D: u32 = 0xc2000053;

pub const MASK_FCVT_L_D: u32 = 0xfff0007f;

pub const MATCH_FCVT_L_D: u32 = 0xc2200053;

pub const MASK_FCVT_WU_D: u32 = 0xfff0007f;

pub const MATCH_FCVT_WU_D: u32 = 0xc2100053;

pub const MASK_FCVT_LU_D: u32 = 0xfff0007f;

pub const MATCH_FCVT_LU_D: u32 = 0xc2300053;

pub const MASK_FCVT_S_D: u32 = 0xfff0007f;

pub const MATCH_FCVT_S_D: u32 = 0x40100053;

pub const MASK_FCVT_D_S: u32 = 0xfff0007f;

pub const MATCH_FCVT_D_S: u32 = 0x42000053;

pub const MASK_FSGNJ_D: u32 = 0xfe00707f;

pub const MATCH_FSGNJ_D: u32 = 0x22000053;

pub const MASK_FSGNJN_D: u32 = 0xfe00707f;

pub const MATCH_FSGNJN_D: u32 = 0x22001053;

pub const MASK_FSGNJX_D: u32 = 0xfe00707f;

pub const MATCH_FSGNJX_D: u32 = 0x22002053;

pub const MASK_FMV_X_D: u32 = 0xfff0707f;

pub const MATCH_FMV_X_D: u32 = 0xe2000053;

pub const MASK_FMV_D_X: u32 = 0xfff0707f;

pub const MATCH_FMV_D_X: u32 = 0xf2000053;

pub const MASK_FEQ_D: u32 = 0xfe00707f;

pub const MATCH_FEQ_D: u32 = 0xa2002053;

pub const MASK_FLT_D: u32 = 0xfe00707f;

pub const MATCH_FLT_D: u32 = 0xa2001053;

pub const MASK_FLE_D: u32 = 0xfe00707f;

pub const MATCH_FLE_D: u32 = 0xa2000053;

pub const MASK_FCLASS_D: u32 = 0xfff0707f;

pub const MATCH_FCLASS_D: u32 = 0xe2001053;

// C extension, compressed encodings (low 16 bits)
pub const MASK_C_ADDI4SPN: u32 = 0xe003;

pub const MATCH_C_ADDI4SPN: u32 = 0x0;

pub const MASK_C_FLD: u32 = 0xe003;

pub const MATCH_C_FLD: u32 = 0x2000;

pub const MASK_C_LW: u32 = 0xe003;

pub const MATCH_C_LW: u32 = 0x4000;

pub const MASK_C_FLW: u32 = 0xe003;

pub const MATCH_C_FLW: u32 = 0x6000;

pub const MASK_C_LD: u32 = 0xe003;

pub const MATCH_C_LD: u32 = 0x6000;

pub const MASK_C_FSD: u32 = 0xe003;

pub const MATCH_C_FSD: u32 = 0xa000;

pub const MASK_C_SW: u32 = 0xe003;

pub const MATCH_C_SW: u32 = 0xc000;

pub const MASK_C_FSW: u32 = 0xe003;

pub const MATCH_C_FSW: u32 = 0xe000;

pub const MASK_C_SD: u32 = 0xe003;

pub const MATCH_C_SD: u32 = 0xe000;

pub const MASK_C_NOP: u32 = 0xffff;

pub const MATCH_C_NOP: u32 = 0x1;

pub const MASK_C_ADDI: u32 = 0xe003;

pub const MATCH_C_ADDI: u32 = 0x1;

pub const MASK_C_JAL: u32 = 0xe003;

pub const MATCH_C_JAL: u32 = 0x2001;

pub const MASK_C_ADDIW: u32 = 0xe003;

pub const MATCH_C_ADDIW: u32 = 0x2001;

pub const MASK_C_LI: u32 = 0xe003;

pub const MATCH_C_LI: u32 = 0x4001;

pub const MASK_C_ADDI16SP: u32 = 0xef83;

pub const MATCH_C_ADDI16SP: u32 = 0x6101;

pub const MASK_C_LUI: u32 = 0xe003;

pub const MATCH_C_LUI: u32 = 0x6001;

pub const MASK_C_SRLI: u32 = 0xec03;

pub const MATCH_C_SRLI: u32 = 0x8001;

pub const MASK_C_SRAI: u32 = 0xec03;

pub const MATCH_C_SRAI: u32 = 0x8401;

pub const MASK_C_ANDI: u32 = 0xec03;

pub const MATCH_C_ANDI: u32 = 0x8801;

pub const MASK_C_SUB: u32 = 0xfc63;

pub const MATCH_C_SUB: u32 = 0x8c01;

pub const MASK_C_XOR: u32 = 0xfc63;

pub const MATCH_C_XOR: u32 = 0x8c21;

pub const MASK_C_OR: u32 = 0xfc63;

pub const MATCH_C_OR: u32 = 0x8c41;

pub const MASK_C_AND: u32 = 0xfc63;

pub const MATCH_C_AND: u32 = 0x8c61;

pub const MASK_C_SUBW: u32 = 0xfc63;

pub const MATCH_C_SUBW: u32 = 0x9c01;

pub const MASK_C_ADDW: u32 = 0xfc63;

pub const MATCH_C_ADDW: u32 = 0x9c21;

pub const MASK_C_J: u32 = 0xe003;

pub const MATCH_C_J: u32 = 0xa001;

pub const MASK_C_BEQZ: u32 = 0xe003;

pub const MATCH_C_BEQZ: u32 = 0xc001;

pub const MASK_C_BNEZ: u32 = 0xe003;

pub const MATCH_C_BNEZ: u32 = 0xe001;

pub const MASK_C_SLLI: u32 = 0xe003;

pub const MATCH_C_SLLI: u32 = 0x2;

pub const MASK_C_FLDSP: u32 = 0xe003;

pub const MATCH_C_FLDSP: u32 = 0x2002;

pub const MASK_C_LWSP: u32 = 0xe003;

pub const MATCH_C_LWSP: u32 = 0x4002;

pub const MASK_C_FLWSP: u32 = 0xe003;

pub const MATCH_C_FLWSP: u32 = 0x6002;

pub const MASK_C_LDSP: u32 = 0xe003;

pub const MATCH_C_LDSP: u32 = 0x6002;

pub const MASK_C_JR: u32 = 0xf07f;

pub const MATCH_C_JR: u32 = 0x8002;

pub const MASK_C_MV: u32 = 0xf003;

pub const MATCH_C_MV: u32 = 0x8002;

pub const MASK_C_EBREAK: u32 = 0xffff;

pub const MATCH_C_EBREAK: u32 = 0x9002;

pub const MASK_C_JALR: u32 = 0xf07f;

pub const MATCH_C_JALR: u32 = 0x9002;

pub const MASK_C_ADD: u32 = 0xf003;

pub const MATCH_C_ADD: u32 = 0x9002;

pub const MASK_C_FSDSP: u32 = 0xe003;

pub const MATCH_C_FSDSP: u32 = 0xa002;

pub const MASK_C_SWSP: u32 = 0xe003;

pub const MATCH_C_SWSP: u32 = 0xc002;

pub const MASK_C_FSWSP: u32 = 0xe003;

pub const MATCH_C_FSWSP: u32 = 0xe002;

pub const MASK_C_SDSP: u32 = 0xe003;

pub const MATCH_C_SDSP: u32 = 0xe002;

} // verus!
