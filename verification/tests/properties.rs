use spike_dasm_rs::disasm::Disassembler;
use spike_dasm_rs::instruction;
use spike_dasm_rs::instruction::InstructionBits;
use spike_dasm_rs::csrs;
use spike_dasm_rs::registers;
use spike_dasm_rs::{render, Extensions, Xlen};

#[test]
fn decoding_is_deterministic() {
    let disasm = Disassembler::new(instruction::gen_instructions(
        Xlen::Rv64,
        Extensions::IMAFDC,
        true,
    ));
    for word in [0xfc050513u32, 0x00000013, 0x00008082, 0x12345678] {
        let inst = InstructionBits::new(word).unwrap();
        let first = disasm.fmt_inst(inst);
        let second = disasm.fmt_inst(inst);
        assert_eq!(first, second);
    }
}

#[test]
fn pseudo_instruction_takes_precedence() {
    // With pseudo-instructions enabled, the all-zero-fields addi word is
    // reported under its pseudo form.
    let with_pseudo = Disassembler::new(instruction::gen_instructions(
        Xlen::Rv64,
        Extensions::IMAFDC,
        true,
    ));
    let inst = InstructionBits::new(0x00000013).unwrap();
    assert_eq!(with_pseudo.fmt_inst(inst).unwrap(), "nop");

    // With pseudo-instructions disabled, the general form is spelled out.
    let without_pseudo = Disassembler::new(instruction::gen_instructions(
        Xlen::Rv64,
        Extensions::IMAFDC,
        false,
    ));
    assert_eq!(
        without_pseudo.fmt_inst(inst).unwrap(),
        "addi    zero, zero, 0"
    );
}

#[test]
fn rv32_omits_rv64_only_mnemonics() {
    // Words that decode to RV64-only base mnemonics on RV64 find no filter
    // in an RV32 table.
    let rv32 = Disassembler::new(instruction::gen_instructions(
        Xlen::Rv32,
        Extensions::IMAFDC,
        true,
    ));
    let rv64 = Disassembler::new(instruction::gen_instructions(
        Xlen::Rv64,
        Extensions::IMAFDC,
        true,
    ));
    // addiw t4, zero, -1 / ld t0, 11(ra) / sd sp, -24(ra) / lwu a4, -8(ra)
    // and the sext.w pseudo encoding (addiw a0, a1, 0).
    for word in [0xfff00e9bu32, 0x00b0b283, 0xfe20b423, 0xff80e703, 0x0005851b] {
        let inst = InstructionBits::new(word).unwrap();
        assert!(rv32.fmt_inst(inst).is_none());
        assert!(rv64.fmt_inst(inst).is_some());
    }
    // c.ldsp s1, 40(sp) decodes only on RV64 (on RV32 the same encoding is
    // c.flwsp).
    let inst = InstructionBits::new(0x000074a2).unwrap();
    assert_eq!(rv64.fmt_inst(inst).unwrap(), "c.ldsp  s1, 40(sp)");
    assert_eq!(rv32.fmt_inst(inst).unwrap(), "c.flwsp fs1, 40(sp)");
    // c.jal exists only on RV32; on RV64 the same encoding is c.addiw.
    let inst = InstructionBits::new(0x00002001).unwrap();
    assert_eq!(rv32.fmt_inst(inst).unwrap(), "c.jal   pc + 0");
    assert_eq!(rv64.fmt_inst(inst).unwrap(), "c.addiw zero, 0");
}

#[test]
fn base_only_extension_set_omits_extension_mnemonics() {
    let base_only = Disassembler::new(instruction::gen_instructions(
        Xlen::Rv64,
        Extensions::I,
        true,
    ));
    // mul / lr.w / flw / fld / c.addi words all decode to nothing.
    for word in [0x02208733u32, 0x1005272f, 0x00452087, 0x01053107, 0x00000785] {
        let inst = InstructionBits::new(word).unwrap();
        assert!(base_only.fmt_inst(inst).is_none());
    }
    // The base instructions themselves still decode.
    let inst = InstructionBits::new(0xfc050513).unwrap();
    assert_eq!(base_only.fmt_inst(inst).unwrap(), "addi    a0, a0, -64");
}

#[test]
fn imc_includes_m_and_c_but_not_a() {
    let imc = Disassembler::new(instruction::gen_instructions(
        Xlen::Rv64,
        Extensions::IMC,
        true,
    ));
    let mul = InstructionBits::new(0x02208733).unwrap();
    assert_eq!(imc.fmt_inst(mul).unwrap(), "mul     a4, ra, sp");
    let c_addi = InstructionBits::new(0x00000785).unwrap();
    assert_eq!(imc.fmt_inst(c_addi).unwrap(), "c.addi  a5, 1");
    let lr_w = InstructionBits::new(0x1005272f).unwrap();
    assert!(imc.fmt_inst(lr_w).is_none());
    let flw = InstructionBits::new(0x00452087).unwrap();
    assert!(imc.fmt_inst(flw).is_none());
}

#[test]
fn concrete_rv64_scenarios() {
    let disasm = Disassembler::new(instruction::gen_instructions(
        Xlen::Rv64,
        Extensions::IMAFDC,
        true,
    ));
    let cases: [(u32, &str); 6] = [
        (0xfc050513, "addi    a0, a0, -64"),
        (0x020005b7, "lui     a1, 0x2000"),
        (0x03ff0a63, "beq     t5, t6, pc + 52"),
        (0x00000013, "nop"),
        (0x30200073, "mret"),
        (0x00008082, "ret"),
    ];
    for (word, expected) in cases {
        let inst = InstructionBits::new(word).unwrap();
        assert_eq!(disasm.fmt_inst(inst).unwrap(), expected);
    }
}

#[test]
fn unknown_words_decode_to_nothing() {
    let disasm = Disassembler::new(instruction::gen_instructions(
        Xlen::Rv64,
        Extensions::IMAFDC,
        true,
    ));
    // A SYSTEM-opcode word with a funct12 no filter recognizes.
    let inst = InstructionBits::new(0x77700073).unwrap();
    assert!(disasm.fmt_inst(inst).is_none());
}

#[test]
fn unknown_csr_renders_as_unknown() {
    let disasm = Disassembler::new(instruction::gen_instructions(
        Xlen::Rv64,
        Extensions::IMAFDC,
        true,
    ));
    // csrr a0, with CSR address 0x007, which names no architectural CSR.
    let inst = InstructionBits::new(0x00702573).unwrap();
    assert_eq!(disasm.fmt_inst(inst).unwrap(), "csrr    a0, unknown");
}

#[test]
fn decimal_rendering() {
    assert_eq!(render::dec_u32(0), "0");
    assert_eq!(render::dec_u32(7), "7");
    assert_eq!(render::dec_u32(4096), "4096");
    assert_eq!(render::dec_u32(u32::MAX), "4294967295");
    assert_eq!(render::dec_i32(0), "0");
    assert_eq!(render::dec_i32(-1), "-1");
    assert_eq!(render::dec_i32(2047), "2047");
    assert_eq!(render::dec_i32(i32::MIN), "-2147483648");
    assert_eq!(render::dec_i32(i32::MAX), "2147483647");
}

#[test]
fn hexadecimal_rendering() {
    assert_eq!(render::hex_u32(0), "0");
    assert_eq!(render::hex_u32(0x1f), "1f");
    assert_eq!(render::hex_u32(0xdeadbeef), "deadbeef");
    assert_eq!(render::hex_u32_0x(0), "0x0");
    assert_eq!(render::hex_u32_0x(0x2000), "0x2000");
    assert_eq!(render::hex_u32_0x(u32::MAX), "0xffffffff");
}

#[test]
fn mnemonic_padding() {
    assert_eq!(render::pad_name("addi"), "addi   ");
    assert_eq!(render::pad_name("fence.i"), "fence.i");
    assert_eq!(render::pad_name("sfence.vma"), "sfence.vma");
    assert_eq!(render::pad_name(""), "       ");
}

#[test]
fn register_names() {
    assert_eq!(registers::int_register_abi_name(0), "zero");
    assert_eq!(registers::int_register_abi_name(2), "sp");
    assert_eq!(registers::int_register_abi_name(31), "t6");
    assert_eq!(registers::fp_register_abi_name(0), "ft0");
    assert_eq!(registers::fp_register_abi_name(10), "fa0");
    assert_eq!(registers::fp_register_abi_name(31), "ft11");
}

#[test]
fn csr_names() {
    assert_eq!(csrs::lookup_csr(0x180), Some("satp"));
    assert_eq!(csrs::lookup_csr(0x300), Some("mstatus"));
    assert_eq!(csrs::lookup_csr(0x3b0), Some("pmpaddr0"));
    assert_eq!(csrs::lookup_csr(0xc00), Some("cycle"));
    assert_eq!(csrs::lookup_csr(0x007), None);
}

#[test]
fn extension_sets() {
    assert!(!Extensions::I.has_m());
    assert!(!Extensions::I.has_c());
    assert!(Extensions::IMC.has_m());
    assert!(Extensions::IMC.has_c());
    assert!(!Extensions::IMC.has_a());
    assert!(Extensions::IMAC.has_a());
    assert!(!Extensions::IMAC.has_f());
    assert!(Extensions::IMAFDC.has_f());
    assert!(Extensions::IMAFDC.has_d());
}
