use spike_dasm_rs::instruction::{InstructionBits, InstructionLen};

#[test]
fn instruction_len() {
    let inst_4byte = InstructionBits::new(0x0000_0003).unwrap();
    let inst_2byte = InstructionBits::new(0x0000_0000).unwrap();

    assert_eq!(inst_4byte.length, InstructionLen::FourByte);
    assert_eq!(inst_2byte.length, InstructionLen::TwoByte);

    assert!(InstructionBits::new(0x0000_001f).is_err());
}

#[test]
fn shift_and_mask() {
    let inst = InstructionBits::new(0x0000_0f03).unwrap();

    assert_eq!(inst.shift_and_mask(8, 3), 0x7);
    assert_eq!(inst.shift_and_mask_signed(8, 3), u32::MAX);
    assert_eq!(inst.shift_and_mask(8, 4), 0xf);
    assert_eq!(inst.shift_and_mask_signed(8, 4), u32::MAX);
    assert_eq!(inst.shift_and_mask(8, 5), 0xf);
    assert_eq!(inst.shift_and_mask_signed(8, 5), 0xf);
}

#[test]
fn zero_width_field_reads_as_zero() {
    let inst = InstructionBits::new(0x0000_0f03).unwrap();
    assert_eq!(inst.shift_and_mask(8, 0), 0);
    assert_eq!(inst.shift_and_mask(0, 0), 0);
}

#[test]
fn unsupported_length_error_message() {
    let err = InstructionBits::new(0x0000_001f).unwrap_err();
    assert_eq!(err, "Unsupported instruction length for 1f");
    let err = InstructionBits::new(0xdeadbf7f).unwrap_err();
    assert_eq!(err, "Unsupported instruction length for deadbf7f");
}

#[test]
fn two_byte_words_are_masked() {
    let inst = InstructionBits::new(0xffff_8082).unwrap();
    assert_eq!(inst.length, InstructionLen::TwoByte);
    assert_eq!(inst.bits, 0x8082);
}

#[test]
fn signed_field_round_trip() {
    // Encoding a twelve-bit signed value at bits 31..20 of an otherwise-zero
    // word and extracting it signed yields the value back.
    for v in [-2048i32, -64, -1, 0, 1, 13, 2047] {
        // The low two bits mark the word as a four-byte instruction and lie
        // outside the field at bits 31..20.
        let word = (((v as u32) & 0xfff) << 20) | 0b11;
        let inst = InstructionBits::new(word).unwrap_or_else(|e| panic!("{}", e));
        let extracted = inst.shift_and_mask_signed(20, 12) as i32;
        assert_eq!(extracted, v);
    }
}

#[test]
fn register_field_accessors() {
    // addi a0, a0, -64: rd = a0 (x10), rs1 = a0, I-immediate = -64.
    let inst = InstructionBits::new(0xfc050513).unwrap();
    assert_eq!(inst.get_x_rd(), "a0");
    assert_eq!(inst.get_x_rs1(), "a0");
    assert_eq!(inst.get_i_imm(), -64);
    // beq t5, t6: rs1 = t5 (x30), rs2 = t6 (x31), B-immediate = 52.
    let inst = InstructionBits::new(0x03ff0a63).unwrap();
    assert_eq!(inst.get_x_rs1(), "t5");
    assert_eq!(inst.get_x_rs2(), "t6");
    assert_eq!(inst.get_b_imm(), 52);
}

#[test]
fn immediate_accessors() {
    // lui a1, 0x2000: U-immediate 0x2000 << 12, big immediate 0x2000.
    let inst = InstructionBits::new(0x020005b7).unwrap();
    assert_eq!(inst.get_u_imm(), 0x02000000);
    assert_eq!(inst.get_big_imm(), 0x2000);
    // sd sp, -24(ra): S-immediate -24.
    let inst = InstructionBits::new(0xfe20b423).unwrap();
    assert_eq!(inst.get_s_imm(), -24);
    // jal pc - 0x9b8: J-immediate -0x9b8.
    let inst = InstructionBits::new(0xe48ff0ef).unwrap();
    assert_eq!(inst.get_j_imm(), -0x9b8);
    // csrrw a0, satp, t1: CSR address 0x180.
    let inst = InstructionBits::new(0x18031573).unwrap();
    assert_eq!(inst.get_csr(), 0x180);
    // slli a0, a0, 31: shift amount 31.
    let inst = InstructionBits::new(0x01f51513).unwrap();
    assert_eq!(inst.get_shamt(), 31);
}

#[test]
fn compressed_immediate_accessors() {
    // c.lwsp a1, 8(sp)
    let inst = InstructionBits::new(0x000045a2).unwrap();
    assert_eq!(inst.get_ci_lwsp_imm(), 8);
    // c.ldsp s1, 40(sp)
    let inst = InstructionBits::new(0x000074a2).unwrap();
    assert_eq!(inst.get_ci_ldsp_imm(), 40);
    // c.swsp a0, 12(sp)
    let inst = InstructionBits::new(0x0000c62a).unwrap();
    assert_eq!(inst.get_css_swsp_imm(), 12);
    // c.sdsp t6, 248(sp)
    let inst = InstructionBits::new(0x0000fdfe).unwrap();
    assert_eq!(inst.get_css_sdsp_imm(), 248);
    // c.lw a0, 16(s0)
    let inst = InstructionBits::new(0x00004808).unwrap();
    assert_eq!(inst.get_cl_lw_imm(), 16);
    // c.ld a2, 16(s1)
    let inst = InstructionBits::new(0x00006890).unwrap();
    assert_eq!(inst.get_cl_ld_imm(), 16);
    // c.j pc - 164
    let inst = InstructionBits::new(0x0000bfb1).unwrap();
    assert_eq!(inst.get_cj_imm(), -164);
    // c.beqz a0, pc + 6
    let inst = InstructionBits::new(0x0000c119).unwrap();
    assert_eq!(inst.get_cb_imm(), 6);
    // c.li a5, -16
    let inst = InstructionBits::new(0x000057c1).unwrap();
    assert_eq!(inst.get_ci_imm(), -16);
    // c.addi16sp sp, -512
    let inst = InstructionBits::new(0x00007101).unwrap();
    assert_eq!(inst.get_ci_addi16sp_imm(), -512);
    // c.addi4spn a0, sp, 1020
    let inst = InstructionBits::new(0x00001fe8).unwrap();
    assert_eq!(inst.get_ciw_addi4spn_imm(), 1020);
    // c.slli a5, 63
    let inst = InstructionBits::new(0x000017fe).unwrap();
    assert_eq!(inst.get_c_shamt(), 63);
}
