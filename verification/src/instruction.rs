//! Raw instruction words, bit-field extraction, and the instruction filter
//! table with its operand formatters.
use vstd::prelude::*;

use crate::csrs;
use crate::inst;
use crate::registers;
use crate::render;
use crate::{Extensions, Xlen};

verus! {

/// The length class of an instruction word, decided by its low bits.
#[derive(Clone, Copy, Debug, PartialEq, Eq, Structural)]
pub enum InstructionLen {
    TwoByte,
    FourByte,
}

/// A raw instruction word. Two-byte (compressed) words are masked to their
/// low 16 bits on construction.
#[derive(Clone, Copy, Debug)]
pub struct InstructionBits {
    pub bits: u32,
    pub length: InstructionLen,
}

/// A word whose two lowest bits are not both set is a two-byte (compressed)
/// instruction.
pub open spec fn spec_is_two_byte(x: u32) -> bool {
    x & 0b11 != 0b11
}

/// A word with the two lowest bits set, but not bits two to four all set, is
/// a four-byte instruction.
pub open spec fn spec_is_four_byte(x: u32) -> bool {
    x & 0b11 == 0b11 && x & 0b11100 != 0b11100
}

/// The message of the construction error for a word of unsupported length.
pub open spec fn spec_unsupported_length_msg(x: u32) -> Seq<char> {
    "Unsupported instruction length for "@ + render::spec_hex_nat(x as nat)
}

/// A mask of `width` one bits in the low positions.
pub open spec fn spec_low_mask(width: u32) -> u32
    recommends
        width < 32,
{
    ((1u32 << width) - 1) as u32
}

fn low_mask(width: u32) -> (r: u32)
    requires
        width < 32,
    ensures
        r == spec_low_mask(width),
{
    proof {
        assert(width < 32 ==> (1u32 << width) >= 1) by (bit_vector);
    }
    (1u32 << width) - 1
}

/// The unsigned field of `width` bits starting at `offset`; empty (zero)
/// where `width` is zero.
pub open spec fn spec_field(bits: u32, offset: u32, width: u32) -> u32
    recommends
        offset < 32,
        width < 32,
{
    (bits >> offset) & spec_low_mask(width)
}

/// The field of `width` bits starting at `offset`, sign-extended to the full
/// 32-bit word.
pub open spec fn spec_signed_field(bits: u32, offset: u32, width: u32) -> u32
    recommends
        0 < width,
        offset + width <= 32,
{
    if width == 32 {
        bits
    } else {
        let field = spec_field(bits, offset, width);
        if field & (1u32 << (width - 1) as u32) != 0 {
            field | !spec_low_mask(width)
        } else {
            field
        }
    }
}

/// Any masked field stays below any power of two above its mask.
proof fn lemma_masked_field_bound(bits: u32, offset: u32, mask: u32)
    ensures
        (bits >> offset) & mask <= mask,
{
    assert((bits >> offset) & mask <= mask) by (bit_vector);
}

/// The concrete values of the low masks the field accessors use.
proof fn lemma_low_mask_values()
    ensures
        spec_low_mask(1) == 0x1,
        spec_low_mask(2) == 0x3,
        spec_low_mask(3) == 0x7,
        spec_low_mask(4) == 0xf,
        spec_low_mask(5) == 0x1f,
        spec_low_mask(6) == 0x3f,
        spec_low_mask(7) == 0x7f,
        spec_low_mask(8) == 0xff,
        spec_low_mask(10) == 0x3ff,
        spec_low_mask(12) == 0xfff,
        spec_low_mask(20) == 0xfffff,
{
    assert(((1u32 << 1u32) - 1) as u32 == 0x1 && ((1u32 << 2u32) - 1) as u32 == 0x3 && ((1u32
        << 3u32) - 1) as u32 == 0x7 && ((1u32 << 4u32) - 1) as u32 == 0xf && ((1u32 << 5u32)
        - 1) as u32 == 0x1f && ((1u32 << 6u32) - 1) as u32 == 0x3f && ((1u32 << 7u32) - 1) as u32
        == 0x7f && ((1u32 << 8u32) - 1) as u32 == 0xff && ((1u32 << 10u32) - 1) as u32 == 0x3ff && (
    (1u32 << 12u32) - 1) as u32 == 0xfff && ((1u32 << 20u32) - 1) as u32 == 0xfffff)
        by (bit_vector);
}

/// The sign-extended field, read back as a signed 32-bit value, is the
/// two's-complement value of the `width`-bit field: the unsigned field
/// itself while its top bit is clear, and the field less `2^width` while it
/// is set.
pub proof fn lemma_signed_field_value(bits: u32, offset: u32, width: u32)
    requires
        0 < width < 32,
        offset + width <= 32,
    ensures
        ({
            let f = spec_field(bits, offset, width) as int;
            let half = (1u32 << ((width - 1) as u32)) as int;
            render::to_signed32(spec_signed_field(bits, offset, width)) == if f < half {
                f
            } else {
                f - 2 * half
            }
        }),
{
    let mask = spec_low_mask(width);
    let f = spec_field(bits, offset, width);
    let half = 1u32 << ((width - 1) as u32);
    assert(f <= mask && (2 * (half as int) == ((1u32 << width) as int)) && ((mask as int) + 1
        == ((1u32 << width) as int)) && (mask < 0x8000_0000u32) && ((f & half == 0) <==> f
        < half)) by (bit_vector)
        requires
            0 < width < 32,
            mask == ((1u32 << width) - 1) as u32,
            f == (bits >> offset) & mask,
            half == 1u32 << ((width - 1) as u32),
    ;
    if f & half == 0 {
        assert(spec_signed_field(bits, offset, width) == f);
    } else {
        let g = f | !mask;
        assert(g >= 0x8000_0000u32 && ((g as u64) == (f as u64) + (0xffff_ffffu64 - (
        mask as u64)))) by (bit_vector)
            requires
                0 < width < 32,
                mask == ((1u32 << width) - 1) as u32,
                f <= mask,
                f & half != 0,
                half == 1u32 << ((width - 1) as u32),
                g == f | !mask,
        ;
        assert(render::to_signed32(g) == g - 0x1_0000_0000);
    }
}

/// A twelve-bit signed value `v` encoded at bits 31..20 of an
/// otherwise-zero word.
pub open spec fn spec_encode_i_imm(v: int) -> u32
    recommends
        -2048 <= v < 2048,
{
    ((v % 4096) * 0x100000) as u32
}

/// Round trip for the I-type immediate field: encoding any twelve-bit
/// signed value at bits 31..20 of an otherwise-zero word and extracting
/// that field signed yields the value back.
pub proof fn lemma_extract_signed_round_trip(v: int)
    requires
        -2048 <= v < 2048,
    ensures
        render::to_signed32(spec_signed_field(spec_encode_i_imm(v), 20, 12)) == v,
{
    let u = v % 4096;
    assert(0 <= u < 4096);
    if v >= 0 {
        assert(u == v);
    } else {
        assert((v + 4096) % 4096 == v % 4096) by {
            vstd::arithmetic::div_mod::lemma_mod_add_multiples_vanish(v, 4096);
        }
        assert(0 <= v + 4096 < 4096);
        assert((v + 4096) % 4096 == v + 4096) by {
            vstd::arithmetic::div_mod::lemma_small_mod((v + 4096) as nat, 4096);
        }
        assert(u == v + 4096);
    }
    let uu = u as u32;
    vstd::arithmetic::power2::lemma2_to64();
    vstd::bits::lemma_u32_shl_is_mul(uu, 20);
    assert(spec_encode_i_imm(v) == uu << 20);
    lemma_low_mask_values();
    assert((1u32 << 11u32) == 0x800) by (bit_vector);
    let field = spec_field(uu << 20, 20, 12);
    assert(field == uu) by (bit_vector)
        requires
            uu < 4096,
            field == ((uu << 20u32) >> 20u32) & 0xfffu32,
    ;
    if v >= 0 {
        assert(uu & 0x800u32 == 0) by (bit_vector)
            requires
                uu < 0x800,
        ;
    } else {
        assert(uu & 0x800u32 != 0 && ((uu | !0xfffu32) as u64) == (uu as u64) + 0xfffff000u64)
            by (bit_vector)
            requires
                0x800 <= uu < 4096,
        ;
    }
}

impl InstructionBits {
    /// Classifies the raw word `x` by length. Two-byte words keep only their
    /// low 16 bits; a word announcing a length of 48 bits or more is
    /// rejected with a message naming it.
    pub fn new(x: u32) -> (r: Result<Self, String>)
        ensures
            spec_is_two_byte(x) ==> (r matches Ok(ib) && ib.bits == x & 0xffff && ib.length
                is TwoByte),
            spec_is_four_byte(x) ==> (r matches Ok(ib) && ib.bits == x && ib.length is FourByte),
            !spec_is_two_byte(x) && !spec_is_four_byte(x) ==> (r matches Err(e) && e@
                == spec_unsupported_length_msg(x)),
    {
        if x & 0b11 != 0b11 {
            Ok(Self { bits: x & 0x0000_ffff, length: InstructionLen::TwoByte })
        } else if x & 0b11100 != 0b11100 {
            Ok(Self { bits: x, length: InstructionLen::FourByte })
        } else {
            let mut msg = String::from_str("Unsupported instruction length for ");
            let digits = render::hex_u32(x);
            msg.append(digits.as_str());
            Err(msg)
        }
    }

    /// Extracts the unsigned field of `mask_width` bits at `offset`. A
    /// zero-width field is empty and reads as zero.
    pub fn shift_and_mask(&self, offset: u32, mask_width: u32) -> (r: u32)
        requires
            offset < 32,
            mask_width < 32,
        ensures
            r == spec_field(self.bits, offset, mask_width),
    {
        let mask = low_mask(mask_width);
        (self.bits >> offset) & mask
    }

    /// Extracts the field of `mask_width` bits at `offset`, sign-extended to
    /// the full 32-bit word.
    pub fn shift_and_mask_signed(&self, offset: u32, mask_width: u32) -> (r: u32)
        requires
            0 < mask_width,
            offset + mask_width <= 32,
        ensures
            r == spec_signed_field(self.bits, offset, mask_width),
    {
        if mask_width == 32 {
            self.bits
        } else {
            let field = self.shift_and_mask(offset, mask_width);
            if field & (1u32 << (mask_width - 1)) != 0 {
                field | !low_mask(mask_width)
            } else {
                field
            }
        }
    }

    /// The index of register `rd`.
    pub open spec fn spec_idx_rd(&self) -> u32 {
        spec_field(self.bits, 7, 5)
    }

    fn get_idx_rd(&self) -> (r: u32)
        ensures
            r == self.spec_idx_rd(),
            r < 32,
    {
        proof {
            lemma_low_mask_values();
            lemma_masked_field_bound(self.bits, 7, spec_low_mask(5));
        }
        self.shift_and_mask(7, 5)
    }

    /// The index of register `rs1`.
    pub open spec fn spec_idx_rs1(&self) -> u32 {
        spec_field(self.bits, 15, 5)
    }

    fn get_idx_rs1(&self) -> (r: u32)
        ensures
            r == self.spec_idx_rs1(),
            r < 32,
    {
        proof {
            lemma_low_mask_values();
            lemma_masked_field_bound(self.bits, 15, spec_low_mask(5));
        }
        self.shift_and_mask(15, 5)
    }

    /// The index of register `rs2`.
    pub open spec fn spec_idx_rs2(&self) -> u32 {
        spec_field(self.bits, 20, 5)
    }

    fn get_idx_rs2(&self) -> (r: u32)
        ensures
            r == self.spec_idx_rs2(),
            r < 32,
    {
        proof {
            lemma_low_mask_values();
            lemma_masked_field_bound(self.bits, 20, spec_low_mask(5));
        }
        self.shift_and_mask(20, 5)
    }

    /// The index of register `rs3`.
    pub open spec fn spec_idx_rs3(&self) -> u32 {
        spec_field(self.bits, 27, 5)
    }

    fn get_idx_rs3(&self) -> (r: u32)
        ensures
            r == self.spec_idx_rs3(),
            r < 32,
    {
        proof {
            lemma_low_mask_values();
            lemma_masked_field_bound(self.bits, 27, spec_low_mask(5));
        }
        self.shift_and_mask(27, 5)
    }

    /// The index of register `rs1` in compressed instructions.
    pub open spec fn spec_idx_c_rs1(&self) -> u32 {
        spec_field(self.bits, 7, 5)
    }

    fn get_idx_c_rs1(&self) -> (r: u32)
        ensures
            r == self.spec_idx_c_rs1(),
            r < 32,
    {
        proof {
            lemma_low_mask_values();
            lemma_masked_field_bound(self.bits, 7, spec_low_mask(5));
        }
        self.shift_and_mask(7, 5)
    }

    /// The index of register `rs2` in compressed instructions.
    pub open spec fn spec_idx_c_rs2(&self) -> u32 {
        spec_field(self.bits, 2, 5)
    }

    fn get_idx_c_rs2(&self) -> (r: u32)
        ensures
            r == self.spec_idx_c_rs2(),
            r < 32,
    {
        proof {
            lemma_low_mask_values();
            lemma_masked_field_bound(self.bits, 2, spec_low_mask(5));
        }
        self.shift_and_mask(2, 5)
    }

    /// The index of register `rd'` (three-bit encoding) in compressed
    /// instructions; the same field encodes `rs2'`.
    pub open spec fn spec_idx_c3_rd(&self) -> u32 {
        spec_field(self.bits, 2, 3)
    }

    fn get_idx_c3_rd(&self) -> (r: u32)
        ensures
            r == self.spec_idx_c3_rd(),
            r < 8,
    {
        proof {
            lemma_low_mask_values();
            lemma_masked_field_bound(self.bits, 2, spec_low_mask(3));
        }
        self.shift_and_mask(2, 3)
    }

    /// The index of register `rs1'` (three-bit encoding) in compressed
    /// instructions.
    pub open spec fn spec_idx_c3_rs1(&self) -> u32 {
        spec_field(self.bits, 7, 3)
    }

    fn get_idx_c3_rs1(&self) -> (r: u32)
        ensures
            r == self.spec_idx_c3_rs1(),
            r < 8,
    {
        proof {
            lemma_low_mask_values();
            lemma_masked_field_bound(self.bits, 7, spec_low_mask(3));
        }
        self.shift_and_mask(7, 3)
    }

    /// The ABI name of integer register `rd`.
    pub fn get_x_rd(&self) -> (r: &'static str)
        ensures
            r@ == registers::spec_int_register_abi_name(self.spec_idx_rd()),
    {
        registers::int_register_abi_name(self.get_idx_rd())
    }

    /// The ABI name of integer register `rs1`.
    pub fn get_x_rs1(&self) -> (r: &'static str)
        ensures
            r@ == registers::spec_int_register_abi_name(self.spec_idx_rs1()),
    {
        registers::int_register_abi_name(self.get_idx_rs1())
    }

    /// The ABI name of integer register `rs2`.
    pub fn get_x_rs2(&self) -> (r: &'static str)
        ensures
            r@ == registers::spec_int_register_abi_name(self.spec_idx_rs2()),
    {
        registers::int_register_abi_name(self.get_idx_rs2())
    }

    /// The ABI name of floating-point register `rd`.
    pub fn get_f_rd(&self) -> (r: &'static str)
        ensures
            r@ == registers::spec_fp_register_abi_name(self.spec_idx_rd()),
    {
        registers::fp_register_abi_name(self.get_idx_rd())
    }

    /// The ABI name of floating-point register `rs1`.
    pub fn get_f_rs1(&self) -> (r: &'static str)
        ensures
            r@ == registers::spec_fp_register_abi_name(self.spec_idx_rs1()),
    {
        registers::fp_register_abi_name(self.get_idx_rs1())
    }

    /// The ABI name of floating-point register `rs2`.
    pub fn get_f_rs2(&self) -> (r: &'static str)
        ensures
            r@ == registers::spec_fp_register_abi_name(self.spec_idx_rs2()),
    {
        registers::fp_register_abi_name(self.get_idx_rs2())
    }

    /// The ABI name of floating-point register `rs3`.
    pub fn get_f_rs3(&self) -> (r: &'static str)
        ensures
            r@ == registers::spec_fp_register_abi_name(self.spec_idx_rs3()),
    {
        registers::fp_register_abi_name(self.get_idx_rs3())
    }

    /// The ABI name of integer register `rs1` in compressed instructions.
    pub fn get_x_c_rs1(&self) -> (r: &'static str)
        ensures
            r@ == registers::spec_int_register_abi_name(self.spec_idx_c_rs1()),
    {
        registers::int_register_abi_name(self.get_idx_c_rs1())
    }

    /// The ABI name of integer register `rs2` in compressed instructions.
    pub fn get_x_c_rs2(&self) -> (r: &'static str)
        ensures
            r@ == registers::spec_int_register_abi_name(self.spec_idx_c_rs2()),
    {
        registers::int_register_abi_name(self.get_idx_c_rs2())
    }

    /// The ABI name of integer register `rd'` (three-bit encoding, offset
    /// into `x8..x15`) in compressed instructions; the same name serves for
    /// `rs2'`.
    pub fn get_x_c3_rd(&self) -> (r: &'static str)
        ensures
            r@ == registers::spec_int_register_abi_name((self.spec_idx_c3_rd() + 8) as u32),
    {
        registers::int_register_abi_name(self.get_idx_c3_rd() + 8)
    }

    /// The ABI name of integer register `rs1'` (three-bit encoding, offset
    /// into `x8..x15`) in compressed instructions.
    pub fn get_x_c3_rs1(&self) -> (r: &'static str)
        ensures
            r@ == registers::spec_int_register_abi_name((self.spec_idx_c3_rs1() + 8) as u32),
    {
        registers::int_register_abi_name(self.get_idx_c3_rs1() + 8)
    }

    /// The ABI name of floating-point register `rd'` (three-bit encoding,
    /// offset into `f8..f15`) in compressed instructions; the same name
    /// serves for `rs2'`.
    pub fn get_f_c3_rd(&self) -> (r: &'static str)
        ensures
            r@ == registers::spec_fp_register_abi_name((self.spec_idx_c3_rd() + 8) as u32),
    {
        registers::fp_register_abi_name(self.get_idx_c3_rd() + 8)
    }

    /// The ABI name of floating-point register `rs2` in compressed
    /// instructions.
    pub fn get_f_c_rs2(&self) -> (r: &'static str)
        ensures
            r@ == registers::spec_fp_register_abi_name(self.spec_idx_c_rs2()),
    {
        registers::fp_register_abi_name(self.get_idx_c_rs2())
    }

    /// The I-type immediate: bits 31..20, sign-extended.
    pub open spec fn spec_i_imm(&self) -> u32 {
        spec_signed_field(self.bits, 20, 12)
    }

    pub fn get_i_imm(&self) -> (r: i32)
        ensures
            r as int == render::to_signed32(self.spec_i_imm()),
    {
        render::reinterpret_signed(self.shift_and_mask_signed(20, 12))
    }

    /// The U-type immediate: bits 31..12, sign-extended and shifted left by
    /// twelve.
    pub open spec fn spec_u_imm(&self) -> u32 {
        spec_signed_field(self.bits, 12, 20) << 12
    }

    pub fn get_u_imm(&self) -> (r: u32)
        ensures
            r == self.spec_u_imm(),
    {
        self.shift_and_mask_signed(12, 20) << 12
    }

    /// The S-type immediate: bits 31..25 (sign-extended) over bits 11..7.
    pub open spec fn spec_s_imm(&self) -> u32 {
        spec_field(self.bits, 7, 5) | (spec_signed_field(self.bits, 25, 7) << 5)
    }

    pub fn get_s_imm(&self) -> (r: i32)
        ensures
            r as int == render::to_signed32(self.spec_s_imm()),
    {
        let lower_imm = self.shift_and_mask(7, 5);
        let upper_imm = self.shift_and_mask_signed(25, 7) << 5;
        render::reinterpret_signed(lower_imm | upper_imm)
    }

    /// The U-type immediate shown as a bare 20-bit constant.
    pub open spec fn spec_big_imm(&self) -> u32 {
        self.spec_u_imm() >> 12
    }

    pub fn get_big_imm(&self) -> (r: u32)
        ensures
            r == self.spec_big_imm(),
    {
        self.get_u_imm() >> 12
    }

    /// The J-type immediate, reassembled from its scattered fields with an
    /// implicit trailing zero; the sign bit is word bit 31.
    pub open spec fn spec_j_imm(&self) -> u32 {
        (spec_field(self.bits, 21, 10) << 1) | (spec_field(self.bits, 20, 1) << 11) | (spec_field(
            self.bits,
            12,
            8,
        ) << 12) | (spec_signed_field(self.bits, 31, 1) << 20)
    }

    pub fn get_j_imm(&self) -> (r: i32)
        ensures
            r as int == render::to_signed32(self.spec_j_imm()),
    {
        let imm_10_1 = self.shift_and_mask(21, 10) << 1;
        let imm_11 = self.shift_and_mask(20, 1) << 11;
        let imm_19_12 = self.shift_and_mask(12, 8) << 12;
        let imm_20 = self.shift_and_mask_signed(31, 1) << 20;
        render::reinterpret_signed(imm_10_1 | imm_11 | imm_19_12 | imm_20)
    }

    /// The B-type immediate, reassembled from its scattered fields with an
    /// implicit trailing zero; the sign bit is word bit 31.
    pub open spec fn spec_b_imm(&self) -> u32 {
        (spec_field(self.bits, 8, 4) << 1) | (spec_field(self.bits, 25, 6) << 5) | (spec_field(
            self.bits,
            7,
            1,
        ) << 11) | (spec_signed_field(self.bits, 31, 1) << 12)
    }

    pub fn get_b_imm(&self) -> (r: i32)
        ensures
            r as int == render::to_signed32(self.spec_b_imm()),
    {
        let imm_4_1 = self.shift_and_mask(8, 4) << 1;
        let imm_10_5 = self.shift_and_mask(25, 6) << 5;
        let imm_11 = self.shift_and_mask(7, 1) << 11;
        let imm_12 = self.shift_and_mask_signed(31, 1) << 12;
        render::reinterpret_signed(imm_4_1 | imm_10_5 | imm_11 | imm_12)
    }

    /// The five-bit immediate of the CSR immediate forms: bits 19..15.
    pub open spec fn spec_uimm5(&self) -> u32 {
        spec_field(self.bits, 15, 5)
    }

    pub fn get_uimm5(&self) -> (r: u32)
        ensures
            r == self.spec_uimm5(),
    {
        self.shift_and_mask(15, 5)
    }

    /// The shift amount: bits 25..20. Six bits cover both widths, since the
    /// most significant bit is always encoded as zero where only five bits
    /// are meaningful.
    pub open spec fn spec_shamt(&self) -> u32 {
        spec_field(self.bits, 20, 6)
    }

    pub fn get_shamt(&self) -> (r: u32)
        ensures
            r == self.spec_shamt(),
    {
        self.shift_and_mask(20, 6)
    }

    /// The CSR address: bits 31..20.
    pub open spec fn spec_csr(&self) -> u32 {
        spec_field(self.bits, 20, 12)
    }

    pub fn get_csr(&self) -> (r: u32)
        ensures
            r == self.spec_csr(),
    {
        self.shift_and_mask(20, 12)
    }

    /// The CI-format load-word-from-SP displacement, scaled by four.
    pub open spec fn spec_ci_lwsp_imm(&self) -> u32 {
        (spec_field(self.bits, 4, 3) << 2) | (spec_field(self.bits, 12, 1) << 5) | (spec_field(
            self.bits,
            2,
            2,
        ) << 6)
    }

    pub fn get_ci_lwsp_imm(&self) -> (r: u32)
        ensures
            r == self.spec_ci_lwsp_imm(),
    {
        let imm_4_2 = self.shift_and_mask(4, 3) << 2;
        let imm_5 = self.shift_and_mask(12, 1) << 5;
        let imm_7_6 = self.shift_and_mask(2, 2) << 6;
        imm_4_2 | imm_5 | imm_7_6
    }

    /// The CI-format load-double-from-SP displacement, scaled by eight.
    pub open spec fn spec_ci_ldsp_imm(&self) -> u32 {
        (spec_field(self.bits, 5, 2) << 3) | (spec_field(self.bits, 12, 1) << 5) | (spec_field(
            self.bits,
            2,
            3,
        ) << 6)
    }

    pub fn get_ci_ldsp_imm(&self) -> (r: u32)
        ensures
            r == self.spec_ci_ldsp_imm(),
    {
        let imm_4_3 = self.shift_and_mask(5, 2) << 3;
        let imm_5 = self.shift_and_mask(12, 1) << 5;
        let imm_8_6 = self.shift_and_mask(2, 3) << 6;
        imm_4_3 | imm_5 | imm_8_6
    }

    /// The CSS-format store-word-to-SP displacement, scaled by four.
    pub open spec fn spec_css_swsp_imm(&self) -> u32 {
        (spec_field(self.bits, 9, 4) << 2) | (spec_field(self.bits, 7, 2) << 6)
    }

    pub fn get_css_swsp_imm(&self) -> (r: u32)
        ensures
            r == self.spec_css_swsp_imm(),
    {
        let imm_5_2 = self.shift_and_mask(9, 4) << 2;
        let imm_7_6 = self.shift_and_mask(7, 2) << 6;
        imm_5_2 | imm_7_6
    }

    /// The CSS-format store-double-to-SP displacement, scaled by eight.
    pub open spec fn spec_css_sdsp_imm(&self) -> u32 {
        (spec_field(self.bits, 10, 3) << 3) | (spec_field(self.bits, 7, 3) << 6)
    }

    pub fn get_css_sdsp_imm(&self) -> (r: u32)
        ensures
            r == self.spec_css_sdsp_imm(),
    {
        let imm_5_3 = self.shift_and_mask(10, 3) << 3;
        let imm_8_6 = self.shift_and_mask(7, 3) << 6;
        imm_5_3 | imm_8_6
    }

    /// The CL-format load-word displacement, scaled by four.
    pub open spec fn spec_cl_lw_imm(&self) -> u32 {
        (spec_field(self.bits, 6, 1) << 2) | (spec_field(self.bits, 10, 3) << 3) | (spec_field(
            self.bits,
            5,
            1,
        ) << 6)
    }

    pub fn get_cl_lw_imm(&self) -> (r: u32)
        ensures
            r == self.spec_cl_lw_imm(),
    {
        let imm_2 = self.shift_and_mask(6, 1) << 2;
        let imm_5_3 = self.shift_and_mask(10, 3) << 3;
        let imm_6 = self.shift_and_mask(5, 1) << 6;
        imm_2 | imm_5_3 | imm_6
    }

    /// The CL-format load-double displacement, scaled by eight.
    pub open spec fn spec_cl_ld_imm(&self) -> u32 {
        (spec_field(self.bits, 10, 3) << 3) | (spec_field(self.bits, 5, 2) << 6)
    }

    pub fn get_cl_ld_imm(&self) -> (r: u32)
        ensures
            r == self.spec_cl_ld_imm(),
    {
        let imm_5_3 = self.shift_and_mask(10, 3) << 3;
        let imm_7_6 = self.shift_and_mask(5, 2) << 6;
        imm_5_3 | imm_7_6
    }

    /// The CJ-format jump displacement, reassembled from its scattered
    /// fields with an implicit trailing zero; the sign bit is word bit 12.
    pub open spec fn spec_cj_imm(&self) -> u32 {
        (spec_field(self.bits, 3, 3) << 1) | (spec_field(self.bits, 11, 1) << 4) | (spec_field(
            self.bits,
            2,
            1,
        ) << 5) | (spec_field(self.bits, 7, 1) << 6) | (spec_field(self.bits, 6, 1) << 7) | (
        spec_field(self.bits, 9, 2) << 8) | (spec_field(self.bits, 8, 1) << 10) | (
        spec_signed_field(self.bits, 12, 1) << 11)
    }

    pub fn get_cj_imm(&self) -> (r: i32)
        ensures
            r as int == render::to_signed32(self.spec_cj_imm()),
    {
        let imm_3_1 = self.shift_and_mask(3, 3) << 1;
        let imm_4 = self.shift_and_mask(11, 1) << 4;
        let imm_5 = self.shift_and_mask(2, 1) << 5;
        let imm_6 = self.shift_and_mask(7, 1) << 6;
        let imm_7 = self.shift_and_mask(6, 1) << 7;
        let imm_9_8 = self.shift_and_mask(9, 2) << 8;
        let imm_10 = self.shift_and_mask(8, 1) << 10;
        let imm_11 = self.shift_and_mask_signed(12, 1) << 11;
        render::reinterpret_signed(
            imm_3_1 | imm_4 | imm_5 | imm_6 | imm_7 | imm_9_8 | imm_10 | imm_11,
        )
    }

    /// The CB-format branch displacement, reassembled from its scattered
    /// fields with an implicit trailing zero; the sign bit is word bit 12.
    pub open spec fn spec_cb_imm(&self) -> u32 {
        (spec_field(self.bits, 3, 2) << 1) | (spec_field(self.bits, 10, 2) << 3) | (spec_field(
            self.bits,
            2,
            1,
        ) << 5) | (spec_field(self.bits, 5, 2) << 6) | (spec_signed_field(self.bits, 12, 1) << 8)
    }

    pub fn get_cb_imm(&self) -> (r: i32)
        ensures
            r as int == render::to_signed32(self.spec_cb_imm()),
    {
        let imm_2_1 = self.shift_and_mask(3, 2) << 1;
        let imm_4_3 = self.shift_and_mask(10, 2) << 3;
        let imm_5 = self.shift_and_mask(2, 1) << 5;
        let imm_7_6 = self.shift_and_mask(5, 2) << 6;
        let imm_8 = self.shift_and_mask_signed(12, 1) << 8;
        render::reinterpret_signed(imm_2_1 | imm_4_3 | imm_5 | imm_7_6 | imm_8)
    }

    /// The CI-format signed immediate: bits 6..2, sign bit at word bit 12.
    pub open spec fn spec_ci_imm(&self) -> u32 {
        spec_field(self.bits, 2, 5) | (spec_signed_field(self.bits, 12, 1) << 5)
    }

    pub fn get_ci_imm(&self) -> (r: i32)
        ensures
            r as int == render::to_signed32(self.spec_ci_imm()),
    {
        let imm_4_0 = self.shift_and_mask(2, 5);
        let imm_5 = self.shift_and_mask_signed(12, 1) << 5;
        render::reinterpret_signed(imm_4_0 | imm_5)
    }

    /// The CI-format stack-pointer adjustment, scaled by sixteen; the sign
    /// bit is word bit 12.
    pub open spec fn spec_ci_addi16sp_imm(&self) -> u32 {
        (spec_field(self.bits, 6, 1) << 4) | (spec_field(self.bits, 2, 1) << 5) | (spec_field(
            self.bits,
            5,
            1,
        ) << 6) | (spec_field(self.bits, 3, 2) << 7) | (spec_signed_field(self.bits, 12, 1) << 9)
    }

    pub fn get_ci_addi16sp_imm(&self) -> (r: i32)
        ensures
            r as int == render::to_signed32(self.spec_ci_addi16sp_imm()),
    {
        let imm_4 = self.shift_and_mask(6, 1) << 4;
        let imm_5 = self.shift_and_mask(2, 1) << 5;
        let imm_6 = self.shift_and_mask(5, 1) << 6;
        let imm_8_7 = self.shift_and_mask(3, 2) << 7;
        let imm_9 = self.shift_and_mask_signed(12, 1) << 9;
        render::reinterpret_signed(imm_4 | imm_5 | imm_6 | imm_8_7 | imm_9)
    }

    /// The CIW-format stack-pointer offset, scaled by four, zero-extended.
    pub open spec fn spec_ciw_addi4spn_imm(&self) -> u32 {
        (spec_field(self.bits, 6, 1) << 2) | (spec_field(self.bits, 5, 1) << 3) | (spec_field(
            self.bits,
            11,
            2,
        ) << 4) | (spec_field(self.bits, 7, 4) << 6)
    }

    pub fn get_ciw_addi4spn_imm(&self) -> (r: u32)
        ensures
            r == self.spec_ciw_addi4spn_imm(),
    {
        let imm_2 = self.shift_and_mask(6, 1) << 2;
        let imm_3 = self.shift_and_mask(5, 1) << 3;
        let imm_5_4 = self.shift_and_mask(11, 2) << 4;
        let imm_9_6 = self.shift_and_mask(7, 4) << 6;
        imm_2 | imm_3 | imm_5_4 | imm_9_6
    }

    /// The compressed shift amount: the CI immediate's scattered fields,
    /// zero-extended rather than sign-extended, six bits in all.
    pub open spec fn spec_c_shamt(&self) -> u32 {
        spec_field(self.bits, 2, 5) | (spec_field(self.bits, 12, 1) << 5)
    }

    pub fn get_c_shamt(&self) -> (r: u32)
        ensures
            r == self.spec_c_shamt(),
    {
        self.shift_and_mask(2, 5) | (self.shift_and_mask(12, 1) << 5)
    }
}


/// The operand shape a filter renders with: one variant per distinct
/// operand layout among the recognized encodings.
#[derive(Clone, Copy, Debug, PartialEq, Eq, Structural)]
pub enum Formatter {
    IType,
    ITypeShift,
    ITypeJustRs1,
    ITypeNoRs1,
    ITypeNoImm,
    UType,
    RType,
    RTypeNoRs1,
    JType,
    JTypeNoRd,
    BType,
    BTypeNoRs2,
    Load,
    Store,
    NoArgs,
    Csr,
    CsrNoRs1,
    CsrNoRd,
    CsrImm,
    CsrImmNoRd,
    SfenceVma,
    AmoLr,
    Amo,
    FpLoad,
    FpStore,
    FpRType,
    FpRTypeNoRs2,
    FpRTypeWithRs3,
    FpRTypeFromInt,
    FpRTypeToInt,
    FpRTypeIntRd,
    CiLwsp,
    CiFlwsp,
    CiLdsp,
    CiFldsp,
    CssSwsp,
    CssFswsp,
    CssSdsp,
    CssFsdsp,
    ClLw,
    ClLd,
    ClFlw,
    ClFld,
    CjType,
    CrType,
    CrTypeNoRs2,
    CbType,
    CbTypeShift,
    CbTypeAndi,
    CiType,
    CiLui,
    CiAddi16sp,
    CiwAddi4spn,
    CiShift,
    CaType,
}

/// The mathematical content of an instruction filter: its mnemonic, its
/// mask/match pair, and its operand shape.
pub ghost struct FilterSpec {
    pub name: Seq<char>,
    pub mask: u32,
    pub match_value: u32,
    pub formatter: Formatter,
}

/// One entry of the filter table: a word `x` is rendered under `name` with
/// `formatter` exactly when `x & mask == match_value` and no earlier entry
/// matches.
pub struct InstructionFilter {
    name: &'static str,
    mask: u32,
    match_value: u32,
    pub formatter: Formatter,
}

impl View for InstructionFilter {
    type V = FilterSpec;

    closed spec fn view(&self) -> FilterSpec {
        FilterSpec {
            name: self.name@,
            mask: self.mask,
            match_value: self.match_value,
            formatter: self.formatter,
        }
    }
}

/// Whether filter `f` accepts the instruction word `bits`.
pub open spec fn spec_filter_matches(f: FilterSpec, bits: u32) -> bool {
    bits & f.mask == f.match_value
}

impl InstructionFilter {
    pub fn new(name: &'static str, mask: u32, match_value: u32, formatter: Formatter) -> (r: Self)
        ensures
            r@ == (FilterSpec { name: name@, mask, match_value, formatter }),
    {
        Self { name, mask, match_value, formatter }
    }

    /// Whether this filter accepts the given instruction word.
    pub fn is_eq(&self, other: InstructionBits) -> (r: bool)
        ensures
            r == spec_filter_matches(self@, other.bits),
    {
        (other.bits & self.mask) == self.match_value
    }
}

/// A pc-relative offset as sign, space and hexadecimal magnitude.
pub open spec fn spec_pc_offset_hex(v: int) -> Seq<char> {
    if v < 0 {
        "pc - "@ + render::spec_hex_0x((-v) as nat)
    } else {
        "pc + "@ + render::spec_hex_0x(v as nat)
    }
}

fn pc_offset_hex(v: i32) -> (r: String)
    ensures
        r@ == spec_pc_offset_hex(v as int),
{
    let mut s = if v < 0 {
        String::from_str("pc - ")
    } else {
        String::from_str("pc + ")
    };
    let m = render::hex_u32_0x(render::magnitude(v));
    s.append(m.as_str());
    s
}

/// A pc-relative offset as sign, space and decimal magnitude.
pub open spec fn spec_pc_offset_dec(v: int) -> Seq<char> {
    if v < 0 {
        "pc - "@ + render::spec_dec_nat((-v) as nat)
    } else {
        "pc + "@ + render::spec_dec_nat(v as nat)
    }
}

fn pc_offset_dec(v: i32) -> (r: String)
    ensures
        r@ == spec_pc_offset_dec(v as int),
{
    let mut s = if v < 0 {
        String::from_str("pc - ")
    } else {
        String::from_str("pc + ")
    };
    let m = render::dec_u32(render::magnitude(v));
    s.append(m.as_str());
    s
}

/// The display name of the CSR at `index`: its architectural name, or
/// `unknown` where the index is not a recognized CSR address.
pub open spec fn spec_csr_display(index: u32) -> Seq<char> {
    match csrs::spec_lookup_csr(index) {
        Some(s) => s,
        None => "unknown"@,
    }
}

fn csr_display(index: u32) -> (r: &'static str)
    ensures
        r@ == spec_csr_display(index),
{
    match csrs::lookup_csr(index) {
        Some(s) => s,
        None => "unknown",
    }
}

/// Renders `name rd, rs1, imm`.
pub open spec fn spec_fmt_i_type(name: Seq<char>, b: InstructionBits) -> Seq<char> {
    render::spec_pad7(name) + " "@ + registers::spec_int_register_abi_name(b.spec_idx_rd()) + ", "@ + registers::spec_int_register_abi_name(b.spec_idx_rs1()) + ", "@ + render::spec_dec_int(render::to_signed32(b.spec_i_imm()))
}

fn fmt_i_type(inst_filter: &InstructionFilter, inst_bits: InstructionBits) -> (r: String)
    ensures
        r@ == spec_fmt_i_type(inst_filter@.name, inst_bits),
{
    let mut s = render::pad_name(inst_filter.name);
    s.append(" ");
    s.append(inst_bits.get_x_rd());
    s.append(", ");
    s.append(inst_bits.get_x_rs1());
    s.append(", ");
    let t0 = render::dec_i32(inst_bits.get_i_imm());
    s.append(t0.as_str());
    proof {
        assert(s@ =~= spec_fmt_i_type(inst_filter@.name, inst_bits));
    }
    s
}

/// Renders `name rd, rs1, shamt`.
pub open spec fn spec_fmt_i_type_shift(name: Seq<char>, b: InstructionBits) -> Seq<char> {
    render::spec_pad7(name) + " "@ + registers::spec_int_register_abi_name(b.spec_idx_rd()) + ", "@ + registers::spec_int_register_abi_name(b.spec_idx_rs1()) + ", "@ + render::spec_dec_nat(b.spec_shamt() as nat)
}

fn fmt_i_type_shift(inst_filter: &InstructionFilter, inst_bits: InstructionBits) -> (r: String)
    ensures
        r@ == spec_fmt_i_type_shift(inst_filter@.name, inst_bits),
{
    let mut s = render::pad_name(inst_filter.name);
    s.append(" ");
    s.append(inst_bits.get_x_rd());
    s.append(", ");
    s.append(inst_bits.get_x_rs1());
    s.append(", ");
    let t0 = render::dec_u32(inst_bits.get_shamt());
    s.append(t0.as_str());
    proof {
        assert(s@ =~= spec_fmt_i_type_shift(inst_filter@.name, inst_bits));
    }
    s
}

/// Renders `name rs1`.
pub open spec fn spec_fmt_i_type_just_rs1(name: Seq<char>, b: InstructionBits) -> Seq<char> {
    render::spec_pad7(name) + " "@ + registers::spec_int_register_abi_name(b.spec_idx_rs1())
}

fn fmt_i_type_just_rs1(inst_filter: &InstructionFilter, inst_bits: InstructionBits) -> (r: String)
    ensures
        r@ == spec_fmt_i_type_just_rs1(inst_filter@.name, inst_bits),
{
    let mut s = render::pad_name(inst_filter.name);
    s.append(" ");
    s.append(inst_bits.get_x_rs1());
    proof {
        assert(s@ =~= spec_fmt_i_type_just_rs1(inst_filter@.name, inst_bits));
    }
    s
}

/// Renders `name rd, imm`.
pub open spec fn spec_fmt_i_type_no_rs1(name: Seq<char>, b: InstructionBits) -> Seq<char> {
    render::spec_pad7(name) + " "@ + registers::spec_int_register_abi_name(b.spec_idx_rd()) + ", "@ + render::spec_dec_int(render::to_signed32(b.spec_i_imm()))
}

fn fmt_i_type_no_rs1(inst_filter: &InstructionFilter, inst_bits: InstructionBits) -> (r: String)
    ensures
        r@ == spec_fmt_i_type_no_rs1(inst_filter@.name, inst_bits),
{
    let mut s = render::pad_name(inst_filter.name);
    s.append(" ");
    s.append(inst_bits.get_x_rd());
    s.append(", ");
    let t0 = render::dec_i32(inst_bits.get_i_imm());
    s.append(t0.as_str());
    proof {
        assert(s@ =~= spec_fmt_i_type_no_rs1(inst_filter@.name, inst_bits));
    }
    s
}

/// Renders `name rd, rs1`.
pub open spec fn spec_fmt_i_type_no_imm(name: Seq<char>, b: InstructionBits) -> Seq<char> {
    render::spec_pad7(name) + " "@ + registers::spec_int_register_abi_name(b.spec_idx_rd()) + ", "@ + registers::spec_int_register_abi_name(b.spec_idx_rs1())
}

fn fmt_i_type_no_imm(inst_filter: &InstructionFilter, inst_bits: InstructionBits) -> (r: String)
    ensures
        r@ == spec_fmt_i_type_no_imm(inst_filter@.name, inst_bits),
{
    let mut s = render::pad_name(inst_filter.name);
    s.append(" ");
    s.append(inst_bits.get_x_rd());
    s.append(", ");
    s.append(inst_bits.get_x_rs1());
    proof {
        assert(s@ =~= spec_fmt_i_type_no_imm(inst_filter@.name, inst_bits));
    }
    s
}

/// Renders `name rd, 0x...`.
pub open spec fn spec_fmt_u_type(name: Seq<char>, b: InstructionBits) -> Seq<char> {
    render::spec_pad7(name) + " "@ + registers::spec_int_register_abi_name(b.spec_idx_rd()) + ", "@ + render::spec_hex_0x(b.spec_big_imm() as nat)
}

fn fmt_u_type(inst_filter: &InstructionFilter, inst_bits: InstructionBits) -> (r: String)
    ensures
        r@ == spec_fmt_u_type(inst_filter@.name, inst_bits),
{
    let mut s = render::pad_name(inst_filter.name);
    s.append(" ");
    s.append(inst_bits.get_x_rd());
    s.append(", ");
    let t0 = render::hex_u32_0x(inst_bits.get_big_imm());
    s.append(t0.as_str());
    proof {
        assert(s@ =~= spec_fmt_u_type(inst_filter@.name, inst_bits));
    }
    s
}

/// Renders `name rd, rs1, rs2`.
pub open spec fn spec_fmt_r_type(name: Seq<char>, b: InstructionBits) -> Seq<char> {
    render::spec_pad7(name) + " "@ + registers::spec_int_register_abi_name(b.spec_idx_rd()) + ", "@ + registers::spec_int_register_abi_name(b.spec_idx_rs1()) + ", "@ + registers::spec_int_register_abi_name(b.spec_idx_rs2())
}

fn fmt_r_type(inst_filter: &InstructionFilter, inst_bits: InstructionBits) -> (r: String)
    ensures
        r@ == spec_fmt_r_type(inst_filter@.name, inst_bits),
{
    let mut s = render::pad_name(inst_filter.name);
    s.append(" ");
    s.append(inst_bits.get_x_rd());
    s.append(", ");
    s.append(inst_bits.get_x_rs1());
    s.append(", ");
    s.append(inst_bits.get_x_rs2());
    proof {
        assert(s@ =~= spec_fmt_r_type(inst_filter@.name, inst_bits));
    }
    s
}

/// Renders `name rd, rs2`.
pub open spec fn spec_fmt_r_type_no_rs1(name: Seq<char>, b: InstructionBits) -> Seq<char> {
    render::spec_pad7(name) + " "@ + registers::spec_int_register_abi_name(b.spec_idx_rd()) + ", "@ + registers::spec_int_register_abi_name(b.spec_idx_rs2())
}

fn fmt_r_type_no_rs1(inst_filter: &InstructionFilter, inst_bits: InstructionBits) -> (r: String)
    ensures
        r@ == spec_fmt_r_type_no_rs1(inst_filter@.name, inst_bits),
{
    let mut s = render::pad_name(inst_filter.name);
    s.append(" ");
    s.append(inst_bits.get_x_rd());
    s.append(", ");
    s.append(inst_bits.get_x_rs2());
    proof {
        assert(s@ =~= spec_fmt_r_type_no_rs1(inst_filter@.name, inst_bits));
    }
    s
}

/// Renders `name rd, pc +/- 0x...`.
pub open spec fn spec_fmt_j_type(name: Seq<char>, b: InstructionBits) -> Seq<char> {
    render::spec_pad7(name) + " "@ + registers::spec_int_register_abi_name(b.spec_idx_rd()) + ", "@ + spec_pc_offset_hex(render::to_signed32(b.spec_j_imm()))
}

fn fmt_j_type(inst_filter: &InstructionFilter, inst_bits: InstructionBits) -> (r: String)
    ensures
        r@ == spec_fmt_j_type(inst_filter@.name, inst_bits),
{
    let mut s = render::pad_name(inst_filter.name);
    s.append(" ");
    s.append(inst_bits.get_x_rd());
    s.append(", ");
    let t0 = pc_offset_hex(inst_bits.get_j_imm());
    s.append(t0.as_str());
    proof {
        assert(s@ =~= spec_fmt_j_type(inst_filter@.name, inst_bits));
    }
    s
}

/// Renders `name pc +/- 0x...`.
pub open spec fn spec_fmt_j_type_no_rd(name: Seq<char>, b: InstructionBits) -> Seq<char> {
    render::spec_pad7(name) + " "@ + spec_pc_offset_hex(render::to_signed32(b.spec_j_imm()))
}

fn fmt_j_type_no_rd(inst_filter: &InstructionFilter, inst_bits: InstructionBits) -> (r: String)
    ensures
        r@ == spec_fmt_j_type_no_rd(inst_filter@.name, inst_bits),
{
    let mut s = render::pad_name(inst_filter.name);
    s.append(" ");
    let t0 = pc_offset_hex(inst_bits.get_j_imm());
    s.append(t0.as_str());
    proof {
        assert(s@ =~= spec_fmt_j_type_no_rd(inst_filter@.name, inst_bits));
    }
    s
}

/// Renders `name rs1, rs2, pc +/- n`.
pub open spec fn spec_fmt_b_type(name: Seq<char>, b: InstructionBits) -> Seq<char> {
    render::spec_pad7(name) + " "@ + registers::spec_int_register_abi_name(b.spec_idx_rs1()) + ", "@ + registers::spec_int_register_abi_name(b.spec_idx_rs2()) + ", "@ + spec_pc_offset_dec(render::to_signed32(b.spec_b_imm()))
}

fn fmt_b_type(inst_filter: &InstructionFilter, inst_bits: InstructionBits) -> (r: String)
    ensures
        r@ == spec_fmt_b_type(inst_filter@.name, inst_bits),
{
    let mut s = render::pad_name(inst_filter.name);
    s.append(" ");
    s.append(inst_bits.get_x_rs1());
    s.append(", ");
    s.append(inst_bits.get_x_rs2());
    s.append(", ");
    let t0 = pc_offset_dec(inst_bits.get_b_imm());
    s.append(t0.as_str());
    proof {
        assert(s@ =~= spec_fmt_b_type(inst_filter@.name, inst_bits));
    }
    s
}

/// Renders `name rs1, pc +/- n`.
pub open spec fn spec_fmt_b_type_no_rs2(name: Seq<char>, b: InstructionBits) -> Seq<char> {
    render::spec_pad7(name) + " "@ + registers::spec_int_register_abi_name(b.spec_idx_rs1()) + ", "@ + spec_pc_offset_dec(render::to_signed32(b.spec_b_imm()))
}

fn fmt_b_type_no_rs2(inst_filter: &InstructionFilter, inst_bits: InstructionBits) -> (r: String)
    ensures
        r@ == spec_fmt_b_type_no_rs2(inst_filter@.name, inst_bits),
{
    let mut s = render::pad_name(inst_filter.name);
    s.append(" ");
    s.append(inst_bits.get_x_rs1());
    s.append(", ");
    let t0 = pc_offset_dec(inst_bits.get_b_imm());
    s.append(t0.as_str());
    proof {
        assert(s@ =~= spec_fmt_b_type_no_rs2(inst_filter@.name, inst_bits));
    }
    s
}

/// Renders `name rd, imm(rs1)`.
pub open spec fn spec_fmt_load(name: Seq<char>, b: InstructionBits) -> Seq<char> {
    render::spec_pad7(name) + " "@ + registers::spec_int_register_abi_name(b.spec_idx_rd()) + ", "@ + render::spec_dec_int(render::to_signed32(b.spec_i_imm())) + "("@ + registers::spec_int_register_abi_name(b.spec_idx_rs1()) + ")"@
}

fn fmt_load(inst_filter: &InstructionFilter, inst_bits: InstructionBits) -> (r: String)
    ensures
        r@ == spec_fmt_load(inst_filter@.name, inst_bits),
{
    let mut s = render::pad_name(inst_filter.name);
    s.append(" ");
    s.append(inst_bits.get_x_rd());
    s.append(", ");
    let t0 = render::dec_i32(inst_bits.get_i_imm());
    s.append(t0.as_str());
    s.append("(");
    s.append(inst_bits.get_x_rs1());
    s.append(")");
    proof {
        assert(s@ =~= spec_fmt_load(inst_filter@.name, inst_bits));
    }
    s
}

/// Renders `name rs2, imm(rs1)`.
pub open spec fn spec_fmt_store(name: Seq<char>, b: InstructionBits) -> Seq<char> {
    render::spec_pad7(name) + " "@ + registers::spec_int_register_abi_name(b.spec_idx_rs2()) + ", "@ + render::spec_dec_int(render::to_signed32(b.spec_s_imm())) + "("@ + registers::spec_int_register_abi_name(b.spec_idx_rs1()) + ")"@
}

fn fmt_store(inst_filter: &InstructionFilter, inst_bits: InstructionBits) -> (r: String)
    ensures
        r@ == spec_fmt_store(inst_filter@.name, inst_bits),
{
    let mut s = render::pad_name(inst_filter.name);
    s.append(" ");
    s.append(inst_bits.get_x_rs2());
    s.append(", ");
    let t0 = render::dec_i32(inst_bits.get_s_imm());
    s.append(t0.as_str());
    s.append("(");
    s.append(inst_bits.get_x_rs1());
    s.append(")");
    proof {
        assert(s@ =~= spec_fmt_store(inst_filter@.name, inst_bits));
    }
    s
}

/// Renders the bare mnemonic.
pub open spec fn spec_fmt_no_args(name: Seq<char>, b: InstructionBits) -> Seq<char> {
    name
}

fn fmt_no_args(inst_filter: &InstructionFilter, inst_bits: InstructionBits) -> (r: String)
    ensures
        r@ == spec_fmt_no_args(inst_filter@.name, inst_bits),
{
    let s = String::from_str(inst_filter.name);
    proof {
        assert(s@ =~= spec_fmt_no_args(inst_filter@.name, inst_bits));
    }
    s
}

/// Renders `name rd, csr, rs1`.
pub open spec fn spec_fmt_csr(name: Seq<char>, b: InstructionBits) -> Seq<char> {
    render::spec_pad7(name) + " "@ + registers::spec_int_register_abi_name(b.spec_idx_rd()) + ", "@ + spec_csr_display(b.spec_csr()) + ", "@ + registers::spec_int_register_abi_name(b.spec_idx_rs1())
}

fn fmt_csr(inst_filter: &InstructionFilter, inst_bits: InstructionBits) -> (r: String)
    ensures
        r@ == spec_fmt_csr(inst_filter@.name, inst_bits),
{
    let mut s = render::pad_name(inst_filter.name);
    s.append(" ");
    s.append(inst_bits.get_x_rd());
    s.append(", ");
    let t0 = csr_display(inst_bits.get_csr());
    s.append(t0);
    s.append(", ");
    s.append(inst_bits.get_x_rs1());
    proof {
        assert(s@ =~= spec_fmt_csr(inst_filter@.name, inst_bits));
    }
    s
}

/// Renders `name rd, csr`.
pub open spec fn spec_fmt_csr_no_rs1(name: Seq<char>, b: InstructionBits) -> Seq<char> {
    render::spec_pad7(name) + " "@ + registers::spec_int_register_abi_name(b.spec_idx_rd()) + ", "@ + spec_csr_display(b.spec_csr())
}

fn fmt_csr_no_rs1(inst_filter: &InstructionFilter, inst_bits: InstructionBits) -> (r: String)
    ensures
        r@ == spec_fmt_csr_no_rs1(inst_filter@.name, inst_bits),
{
    let mut s = render::pad_name(inst_filter.name);
    s.append(" ");
    s.append(inst_bits.get_x_rd());
    s.append(", ");
    let t0 = csr_display(inst_bits.get_csr());
    s.append(t0);
    proof {
        assert(s@ =~= spec_fmt_csr_no_rs1(inst_filter@.name, inst_bits));
    }
    s
}

/// Renders `name csr, rs1`.
pub open spec fn spec_fmt_csr_no_rd(name: Seq<char>, b: InstructionBits) -> Seq<char> {
    render::spec_pad7(name) + " "@ + spec_csr_display(b.spec_csr()) + ", "@ + registers::spec_int_register_abi_name(b.spec_idx_rs1())
}

fn fmt_csr_no_rd(inst_filter: &InstructionFilter, inst_bits: InstructionBits) -> (r: String)
    ensures
        r@ == spec_fmt_csr_no_rd(inst_filter@.name, inst_bits),
{
    let mut s = render::pad_name(inst_filter.name);
    s.append(" ");
    let t0 = csr_display(inst_bits.get_csr());
    s.append(t0);
    s.append(", ");
    s.append(inst_bits.get_x_rs1());
    proof {
        assert(s@ =~= spec_fmt_csr_no_rd(inst_filter@.name, inst_bits));
    }
    s
}

/// Renders `name rd, csr, uimm`.
pub open spec fn spec_fmt_csr_imm(name: Seq<char>, b: InstructionBits) -> Seq<char> {
    render::spec_pad7(name) + " "@ + registers::spec_int_register_abi_name(b.spec_idx_rd()) + ", "@ + spec_csr_display(b.spec_csr()) + ", "@ + render::spec_dec_nat(b.spec_uimm5() as nat)
}

fn fmt_csr_imm(inst_filter: &InstructionFilter, inst_bits: InstructionBits) -> (r: String)
    ensures
        r@ == spec_fmt_csr_imm(inst_filter@.name, inst_bits),
{
    let mut s = render::pad_name(inst_filter.name);
    s.append(" ");
    s.append(inst_bits.get_x_rd());
    s.append(", ");
    let t0 = csr_display(inst_bits.get_csr());
    s.append(t0);
    s.append(", ");
    let t1 = render::dec_u32(inst_bits.get_uimm5());
    s.append(t1.as_str());
    proof {
        assert(s@ =~= spec_fmt_csr_imm(inst_filter@.name, inst_bits));
    }
    s
}

/// Renders `name csr, uimm`.
pub open spec fn spec_fmt_csr_imm_no_rd(name: Seq<char>, b: InstructionBits) -> Seq<char> {
    render::spec_pad7(name) + " "@ + spec_csr_display(b.spec_csr()) + ", "@ + render::spec_dec_nat(b.spec_uimm5() as nat)
}

fn fmt_csr_imm_no_rd(inst_filter: &InstructionFilter, inst_bits: InstructionBits) -> (r: String)
    ensures
        r@ == spec_fmt_csr_imm_no_rd(inst_filter@.name, inst_bits),
{
    let mut s = render::pad_name(inst_filter.name);
    s.append(" ");
    let t0 = csr_display(inst_bits.get_csr());
    s.append(t0);
    s.append(", ");
    let t1 = render::dec_u32(inst_bits.get_uimm5());
    s.append(t1.as_str());
    proof {
        assert(s@ =~= spec_fmt_csr_imm_no_rd(inst_filter@.name, inst_bits));
    }
    s
}

/// Renders `name rs1, rs2`.
pub open spec fn spec_fmt_sfence_vma(name: Seq<char>, b: InstructionBits) -> Seq<char> {
    render::spec_pad7(name) + " "@ + registers::spec_int_register_abi_name(b.spec_idx_rs1()) + ", "@ + registers::spec_int_register_abi_name(b.spec_idx_rs2())
}

fn fmt_sfence_vma(inst_filter: &InstructionFilter, inst_bits: InstructionBits) -> (r: String)
    ensures
        r@ == spec_fmt_sfence_vma(inst_filter@.name, inst_bits),
{
    let mut s = render::pad_name(inst_filter.name);
    s.append(" ");
    s.append(inst_bits.get_x_rs1());
    s.append(", ");
    s.append(inst_bits.get_x_rs2());
    proof {
        assert(s@ =~= spec_fmt_sfence_vma(inst_filter@.name, inst_bits));
    }
    s
}

/// Renders `name rd, (rs1)`.
pub open spec fn spec_fmt_amo_lr(name: Seq<char>, b: InstructionBits) -> Seq<char> {
    render::spec_pad7(name) + " "@ + registers::spec_int_register_abi_name(b.spec_idx_rd()) + ", ("@ + registers::spec_int_register_abi_name(b.spec_idx_rs1()) + ")"@
}

fn fmt_amo_lr(inst_filter: &InstructionFilter, inst_bits: InstructionBits) -> (r: String)
    ensures
        r@ == spec_fmt_amo_lr(inst_filter@.name, inst_bits),
{
    let mut s = render::pad_name(inst_filter.name);
    s.append(" ");
    s.append(inst_bits.get_x_rd());
    s.append(", (");
    s.append(inst_bits.get_x_rs1());
    s.append(")");
    proof {
        assert(s@ =~= spec_fmt_amo_lr(inst_filter@.name, inst_bits));
    }
    s
}

/// Renders `name rd, rs2, (rs1)`.
pub open spec fn spec_fmt_amo(name: Seq<char>, b: InstructionBits) -> Seq<char> {
    render::spec_pad7(name) + " "@ + registers::spec_int_register_abi_name(b.spec_idx_rd()) + ", "@ + registers::spec_int_register_abi_name(b.spec_idx_rs2()) + ", ("@ + registers::spec_int_register_abi_name(b.spec_idx_rs1()) + ")"@
}

fn fmt_amo(inst_filter: &InstructionFilter, inst_bits: InstructionBits) -> (r: String)
    ensures
        r@ == spec_fmt_amo(inst_filter@.name, inst_bits),
{
    let mut s = render::pad_name(inst_filter.name);
    s.append(" ");
    s.append(inst_bits.get_x_rd());
    s.append(", ");
    s.append(inst_bits.get_x_rs2());
    s.append(", (");
    s.append(inst_bits.get_x_rs1());
    s.append(")");
    proof {
        assert(s@ =~= spec_fmt_amo(inst_filter@.name, inst_bits));
    }
    s
}

/// Renders `name frd, imm(rs1)`.
pub open spec fn spec_fmt_fp_load(name: Seq<char>, b: InstructionBits) -> Seq<char> {
    render::spec_pad7(name) + " "@ + registers::spec_fp_register_abi_name(b.spec_idx_rd()) + ", "@ + render::spec_dec_int(render::to_signed32(b.spec_i_imm())) + "("@ + registers::spec_int_register_abi_name(b.spec_idx_rs1()) + ")"@
}

fn fmt_fp_load(inst_filter: &InstructionFilter, inst_bits: InstructionBits) -> (r: String)
    ensures
        r@ == spec_fmt_fp_load(inst_filter@.name, inst_bits),
{
    let mut s = render::pad_name(inst_filter.name);
    s.append(" ");
    s.append(inst_bits.get_f_rd());
    s.append(", ");
    let t0 = render::dec_i32(inst_bits.get_i_imm());
    s.append(t0.as_str());
    s.append("(");
    s.append(inst_bits.get_x_rs1());
    s.append(")");
    proof {
        assert(s@ =~= spec_fmt_fp_load(inst_filter@.name, inst_bits));
    }
    s
}

/// Renders `name frs2, imm(rs1)`.
pub open spec fn spec_fmt_fp_store(name: Seq<char>, b: InstructionBits) -> Seq<char> {
    render::spec_pad7(name) + " "@ + registers::spec_fp_register_abi_name(b.spec_idx_rs2()) + ", "@ + render::spec_dec_int(render::to_signed32(b.spec_s_imm())) + "("@ + registers::spec_int_register_abi_name(b.spec_idx_rs1()) + ")"@
}

fn fmt_fp_store(inst_filter: &InstructionFilter, inst_bits: InstructionBits) -> (r: String)
    ensures
        r@ == spec_fmt_fp_store(inst_filter@.name, inst_bits),
{
    let mut s = render::pad_name(inst_filter.name);
    s.append(" ");
    s.append(inst_bits.get_f_rs2());
    s.append(", ");
    let t0 = render::dec_i32(inst_bits.get_s_imm());
    s.append(t0.as_str());
    s.append("(");
    s.append(inst_bits.get_x_rs1());
    s.append(")");
    proof {
        assert(s@ =~= spec_fmt_fp_store(inst_filter@.name, inst_bits));
    }
    s
}

/// Renders `name frd, frs1, frs2`.
pub open spec fn spec_fmt_fp_r_type(name: Seq<char>, b: InstructionBits) -> Seq<char> {
    render::spec_pad7(name) + " "@ + registers::spec_fp_register_abi_name(b.spec_idx_rd()) + ", "@ + registers::spec_fp_register_abi_name(b.spec_idx_rs1()) + ", "@ + registers::spec_fp_register_abi_name(b.spec_idx_rs2())
}

fn fmt_fp_r_type(inst_filter: &InstructionFilter, inst_bits: InstructionBits) -> (r: String)
    ensures
        r@ == spec_fmt_fp_r_type(inst_filter@.name, inst_bits),
{
    let mut s = render::pad_name(inst_filter.name);
    s.append(" ");
    s.append(inst_bits.get_f_rd());
    s.append(", ");
    s.append(inst_bits.get_f_rs1());
    s.append(", ");
    s.append(inst_bits.get_f_rs2());
    proof {
        assert(s@ =~= spec_fmt_fp_r_type(inst_filter@.name, inst_bits));
    }
    s
}

/// Renders `name frd, frs1`.
pub open spec fn spec_fmt_fp_r_type_no_rs2(name: Seq<char>, b: InstructionBits) -> Seq<char> {
    render::spec_pad7(name) + " "@ + registers::spec_fp_register_abi_name(b.spec_idx_rd()) + ", "@ + registers::spec_fp_register_abi_name(b.spec_idx_rs1())
}

fn fmt_fp_r_type_no_rs2(inst_filter: &InstructionFilter, inst_bits: InstructionBits) -> (r: String)
    ensures
        r@ == spec_fmt_fp_r_type_no_rs2(inst_filter@.name, inst_bits),
{
    let mut s = render::pad_name(inst_filter.name);
    s.append(" ");
    s.append(inst_bits.get_f_rd());
    s.append(", ");
    s.append(inst_bits.get_f_rs1());
    proof {
        assert(s@ =~= spec_fmt_fp_r_type_no_rs2(inst_filter@.name, inst_bits));
    }
    s
}

/// Renders `name frd, frs1, frs2, frs3`.
pub open spec fn spec_fmt_fp_r_type_with_rs3(name: Seq<char>, b: InstructionBits) -> Seq<char> {
    render::spec_pad7(name) + " "@ + registers::spec_fp_register_abi_name(b.spec_idx_rd()) + ", "@ + registers::spec_fp_register_abi_name(b.spec_idx_rs1()) + ", "@ + registers::spec_fp_register_abi_name(b.spec_idx_rs2()) + ", "@ + registers::spec_fp_register_abi_name(b.spec_idx_rs3())
}

fn fmt_fp_r_type_with_rs3(inst_filter: &InstructionFilter, inst_bits: InstructionBits) -> (r: String)
    ensures
        r@ == spec_fmt_fp_r_type_with_rs3(inst_filter@.name, inst_bits),
{
    let mut s = render::pad_name(inst_filter.name);
    s.append(" ");
    s.append(inst_bits.get_f_rd());
    s.append(", ");
    s.append(inst_bits.get_f_rs1());
    s.append(", ");
    s.append(inst_bits.get_f_rs2());
    s.append(", ");
    s.append(inst_bits.get_f_rs3());
    proof {
        assert(s@ =~= spec_fmt_fp_r_type_with_rs3(inst_filter@.name, inst_bits));
    }
    s
}

/// Renders `name frd, rs1`.
pub open spec fn spec_fmt_fp_r_type_from_int(name: Seq<char>, b: InstructionBits) -> Seq<char> {
    render::spec_pad7(name) + " "@ + registers::spec_fp_register_abi_name(b.spec_idx_rd()) + ", "@ + registers::spec_int_register_abi_name(b.spec_idx_rs1())
}

fn fmt_fp_r_type_from_int(inst_filter: &InstructionFilter, inst_bits: InstructionBits) -> (r: String)
    ensures
        r@ == spec_fmt_fp_r_type_from_int(inst_filter@.name, inst_bits),
{
    let mut s = render::pad_name(inst_filter.name);
    s.append(" ");
    s.append(inst_bits.get_f_rd());
    s.append(", ");
    s.append(inst_bits.get_x_rs1());
    proof {
        assert(s@ =~= spec_fmt_fp_r_type_from_int(inst_filter@.name, inst_bits));
    }
    s
}

/// Renders `name rd, frs1`.
pub open spec fn spec_fmt_fp_r_type_to_int(name: Seq<char>, b: InstructionBits) -> Seq<char> {
    render::spec_pad7(name) + " "@ + registers::spec_int_register_abi_name(b.spec_idx_rd()) + ", "@ + registers::spec_fp_register_abi_name(b.spec_idx_rs1())
}

fn fmt_fp_r_type_to_int(inst_filter: &InstructionFilter, inst_bits: InstructionBits) -> (r: String)
    ensures
        r@ == spec_fmt_fp_r_type_to_int(inst_filter@.name, inst_bits),
{
    let mut s = render::pad_name(inst_filter.name);
    s.append(" ");
    s.append(inst_bits.get_x_rd());
    s.append(", ");
    s.append(inst_bits.get_f_rs1());
    proof {
        assert(s@ =~= spec_fmt_fp_r_type_to_int(inst_filter@.name, inst_bits));
    }
    s
}

/// Renders `name rd, frs1, frs2`.
pub open spec fn spec_fmt_fp_r_type_int_rd(name: Seq<char>, b: InstructionBits) -> Seq<char> {
    render::spec_pad7(name) + " "@ + registers::spec_int_register_abi_name(b.spec_idx_rd()) + ", "@ + registers::spec_fp_register_abi_name(b.spec_idx_rs1()) + ", "@ + registers::spec_fp_register_abi_name(b.spec_idx_rs2())
}

fn fmt_fp_r_type_int_rd(inst_filter: &InstructionFilter, inst_bits: InstructionBits) -> (r: String)
    ensures
        r@ == spec_fmt_fp_r_type_int_rd(inst_filter@.name, inst_bits),
{
    let mut s = render::pad_name(inst_filter.name);
    s.append(" ");
    s.append(inst_bits.get_x_rd());
    s.append(", ");
    s.append(inst_bits.get_f_rs1());
    s.append(", ");
    s.append(inst_bits.get_f_rs2());
    proof {
        assert(s@ =~= spec_fmt_fp_r_type_int_rd(inst_filter@.name, inst_bits));
    }
    s
}

/// Renders `name rd, imm(sp)`.
pub open spec fn spec_fmt_ci_type_lwsp(name: Seq<char>, b: InstructionBits) -> Seq<char> {
    render::spec_pad7(name) + " "@ + registers::spec_int_register_abi_name(b.spec_idx_rd()) + ", "@ + render::spec_dec_nat(b.spec_ci_lwsp_imm() as nat) + "(sp)"@
}

fn fmt_ci_type_lwsp(inst_filter: &InstructionFilter, inst_bits: InstructionBits) -> (r: String)
    ensures
        r@ == spec_fmt_ci_type_lwsp(inst_filter@.name, inst_bits),
{
    let mut s = render::pad_name(inst_filter.name);
    s.append(" ");
    s.append(inst_bits.get_x_rd());
    s.append(", ");
    let t0 = render::dec_u32(inst_bits.get_ci_lwsp_imm());
    s.append(t0.as_str());
    s.append("(sp)");
    proof {
        assert(s@ =~= spec_fmt_ci_type_lwsp(inst_filter@.name, inst_bits));
    }
    s
}

/// Renders `name frd, imm(sp)`.
pub open spec fn spec_fmt_ci_type_flwsp(name: Seq<char>, b: InstructionBits) -> Seq<char> {
    render::spec_pad7(name) + " "@ + registers::spec_fp_register_abi_name(b.spec_idx_rd()) + ", "@ + render::spec_dec_nat(b.spec_ci_lwsp_imm() as nat) + "(sp)"@
}

fn fmt_ci_type_flwsp(inst_filter: &InstructionFilter, inst_bits: InstructionBits) -> (r: String)
    ensures
        r@ == spec_fmt_ci_type_flwsp(inst_filter@.name, inst_bits),
{
    let mut s = render::pad_name(inst_filter.name);
    s.append(" ");
    s.append(inst_bits.get_f_rd());
    s.append(", ");
    let t0 = render::dec_u32(inst_bits.get_ci_lwsp_imm());
    s.append(t0.as_str());
    s.append("(sp)");
    proof {
        assert(s@ =~= spec_fmt_ci_type_flwsp(inst_filter@.name, inst_bits));
    }
    s
}

/// Renders `name rd, imm(sp)`.
pub open spec fn spec_fmt_ci_type_ldsp(name: Seq<char>, b: InstructionBits) -> Seq<char> {
    render::spec_pad7(name) + " "@ + registers::spec_int_register_abi_name(b.spec_idx_rd()) + ", "@ + render::spec_dec_nat(b.spec_ci_ldsp_imm() as nat) + "(sp)"@
}

fn fmt_ci_type_ldsp(inst_filter: &InstructionFilter, inst_bits: InstructionBits) -> (r: String)
    ensures
        r@ == spec_fmt_ci_type_ldsp(inst_filter@.name, inst_bits),
{
    let mut s = render::pad_name(inst_filter.name);
    s.append(" ");
    s.append(inst_bits.get_x_rd());
    s.append(", ");
    let t0 = render::dec_u32(inst_bits.get_ci_ldsp_imm());
    s.append(t0.as_str());
    s.append("(sp)");
    proof {
        assert(s@ =~= spec_fmt_ci_type_ldsp(inst_filter@.name, inst_bits));
    }
    s
}

/// Renders `name frd, imm(sp)`.
pub open spec fn spec_fmt_ci_type_fldsp(name: Seq<char>, b: InstructionBits) -> Seq<char> {
    render::spec_pad7(name) + " "@ + registers::spec_fp_register_abi_name(b.spec_idx_rd()) + ", "@ + render::spec_dec_nat(b.spec_ci_ldsp_imm() as nat) + "(sp)"@
}

fn fmt_ci_type_fldsp(inst_filter: &InstructionFilter, inst_bits: InstructionBits) -> (r: String)
    ensures
        r@ == spec_fmt_ci_type_fldsp(inst_filter@.name, inst_bits),
{
    let mut s = render::pad_name(inst_filter.name);
    s.append(" ");
    s.append(inst_bits.get_f_rd());
    s.append(", ");
    let t0 = render::dec_u32(inst_bits.get_ci_ldsp_imm());
    s.append(t0.as_str());
    s.append("(sp)");
    proof {
        assert(s@ =~= spec_fmt_ci_type_fldsp(inst_filter@.name, inst_bits));
    }
    s
}

/// Renders `name rs2, imm(sp)`.
pub open spec fn spec_fmt_css_type_swsp(name: Seq<char>, b: InstructionBits) -> Seq<char> {
    render::spec_pad7(name) + " "@ + registers::spec_int_register_abi_name(b.spec_idx_c_rs2()) + ", "@ + render::spec_dec_nat(b.spec_css_swsp_imm() as nat) + "(sp)"@
}

fn fmt_css_type_swsp(inst_filter: &InstructionFilter, inst_bits: InstructionBits) -> (r: String)
    ensures
        r@ == spec_fmt_css_type_swsp(inst_filter@.name, inst_bits),
{
    let mut s = render::pad_name(inst_filter.name);
    s.append(" ");
    s.append(inst_bits.get_x_c_rs2());
    s.append(", ");
    let t0 = render::dec_u32(inst_bits.get_css_swsp_imm());
    s.append(t0.as_str());
    s.append("(sp)");
    proof {
        assert(s@ =~= spec_fmt_css_type_swsp(inst_filter@.name, inst_bits));
    }
    s
}

/// Renders `name frs2, imm(sp)`.
pub open spec fn spec_fmt_css_type_fswsp(name: Seq<char>, b: InstructionBits) -> Seq<char> {
    render::spec_pad7(name) + " "@ + registers::spec_fp_register_abi_name(b.spec_idx_c_rs2()) + ", "@ + render::spec_dec_nat(b.spec_css_swsp_imm() as nat) + "(sp)"@
}

fn fmt_css_type_fswsp(inst_filter: &InstructionFilter, inst_bits: InstructionBits) -> (r: String)
    ensures
        r@ == spec_fmt_css_type_fswsp(inst_filter@.name, inst_bits),
{
    let mut s = render::pad_name(inst_filter.name);
    s.append(" ");
    s.append(inst_bits.get_f_c_rs2());
    s.append(", ");
    let t0 = render::dec_u32(inst_bits.get_css_swsp_imm());
    s.append(t0.as_str());
    s.append("(sp)");
    proof {
        assert(s@ =~= spec_fmt_css_type_fswsp(inst_filter@.name, inst_bits));
    }
    s
}

/// Renders `name rs2, imm(sp)`.
pub open spec fn spec_fmt_css_type_sdsp(name: Seq<char>, b: InstructionBits) -> Seq<char> {
    render::spec_pad7(name) + " "@ + registers::spec_int_register_abi_name(b.spec_idx_c_rs2()) + ", "@ + render::spec_dec_nat(b.spec_css_sdsp_imm() as nat) + "(sp)"@
}

fn fmt_css_type_sdsp(inst_filter: &InstructionFilter, inst_bits: InstructionBits) -> (r: String)
    ensures
        r@ == spec_fmt_css_type_sdsp(inst_filter@.name, inst_bits),
{
    let mut s = render::pad_name(inst_filter.name);
    s.append(" ");
    s.append(inst_bits.get_x_c_rs2());
    s.append(", ");
    let t0 = render::dec_u32(inst_bits.get_css_sdsp_imm());
    s.append(t0.as_str());
    s.append("(sp)");
    proof {
        assert(s@ =~= spec_fmt_css_type_sdsp(inst_filter@.name, inst_bits));
    }
    s
}

/// Renders `name frs2, imm(sp)`.
pub open spec fn spec_fmt_css_type_fsdsp(name: Seq<char>, b: InstructionBits) -> Seq<char> {
    render::spec_pad7(name) + " "@ + registers::spec_fp_register_abi_name(b.spec_idx_c_rs2()) + ", "@ + render::spec_dec_nat(b.spec_css_sdsp_imm() as nat) + "(sp)"@
}

fn fmt_css_type_fsdsp(inst_filter: &InstructionFilter, inst_bits: InstructionBits) -> (r: String)
    ensures
        r@ == spec_fmt_css_type_fsdsp(inst_filter@.name, inst_bits),
{
    let mut s = render::pad_name(inst_filter.name);
    s.append(" ");
    s.append(inst_bits.get_f_c_rs2());
    s.append(", ");
    let t0 = render::dec_u32(inst_bits.get_css_sdsp_imm());
    s.append(t0.as_str());
    s.append("(sp)");
    proof {
        assert(s@ =~= spec_fmt_css_type_fsdsp(inst_filter@.name, inst_bits));
    }
    s
}

/// Renders `name rd', imm(rs1')`.
pub open spec fn spec_fmt_cl_type_lw(name: Seq<char>, b: InstructionBits) -> Seq<char> {
    render::spec_pad7(name) + " "@ + registers::spec_int_register_abi_name((b.spec_idx_c3_rd() + 8) as u32) + ", "@ + render::spec_dec_nat(b.spec_cl_lw_imm() as nat) + "("@ + registers::spec_int_register_abi_name((b.spec_idx_c3_rs1() + 8) as u32) + ")"@
}

fn fmt_cl_type_lw(inst_filter: &InstructionFilter, inst_bits: InstructionBits) -> (r: String)
    ensures
        r@ == spec_fmt_cl_type_lw(inst_filter@.name, inst_bits),
{
    let mut s = render::pad_name(inst_filter.name);
    s.append(" ");
    s.append(inst_bits.get_x_c3_rd());
    s.append(", ");
    let t0 = render::dec_u32(inst_bits.get_cl_lw_imm());
    s.append(t0.as_str());
    s.append("(");
    s.append(inst_bits.get_x_c3_rs1());
    s.append(")");
    proof {
        assert(s@ =~= spec_fmt_cl_type_lw(inst_filter@.name, inst_bits));
    }
    s
}

/// Renders `name rd', imm(rs1')`.
pub open spec fn spec_fmt_cl_type_ld(name: Seq<char>, b: InstructionBits) -> Seq<char> {
    render::spec_pad7(name) + " "@ + registers::spec_int_register_abi_name((b.spec_idx_c3_rd() + 8) as u32) + ", "@ + render::spec_dec_nat(b.spec_cl_ld_imm() as nat) + "("@ + registers::spec_int_register_abi_name((b.spec_idx_c3_rs1() + 8) as u32) + ")"@
}

fn fmt_cl_type_ld(inst_filter: &InstructionFilter, inst_bits: InstructionBits) -> (r: String)
    ensures
        r@ == spec_fmt_cl_type_ld(inst_filter@.name, inst_bits),
{
    let mut s = render::pad_name(inst_filter.name);
    s.append(" ");
    s.append(inst_bits.get_x_c3_rd());
    s.append(", ");
    let t0 = render::dec_u32(inst_bits.get_cl_ld_imm());
    s.append(t0.as_str());
    s.append("(");
    s.append(inst_bits.get_x_c3_rs1());
    s.append(")");
    proof {
        assert(s@ =~= spec_fmt_cl_type_ld(inst_filter@.name, inst_bits));
    }
    s
}

/// Renders `name frd', imm(rs1')`.
pub open spec fn spec_fmt_cl_type_flw(name: Seq<char>, b: InstructionBits) -> Seq<char> {
    render::spec_pad7(name) + " "@ + registers::spec_fp_register_abi_name((b.spec_idx_c3_rd() + 8) as u32) + ", "@ + render::spec_dec_nat(b.spec_cl_lw_imm() as nat) + "("@ + registers::spec_int_register_abi_name((b.spec_idx_c3_rs1() + 8) as u32) + ")"@
}

fn fmt_cl_type_flw(inst_filter: &InstructionFilter, inst_bits: InstructionBits) -> (r: String)
    ensures
        r@ == spec_fmt_cl_type_flw(inst_filter@.name, inst_bits),
{
    let mut s = render::pad_name(inst_filter.name);
    s.append(" ");
    s.append(inst_bits.get_f_c3_rd());
    s.append(", ");
    let t0 = render::dec_u32(inst_bits.get_cl_lw_imm());
    s.append(t0.as_str());
    s.append("(");
    s.append(inst_bits.get_x_c3_rs1());
    s.append(")");
    proof {
        assert(s@ =~= spec_fmt_cl_type_flw(inst_filter@.name, inst_bits));
    }
    s
}

/// Renders `name frd', imm(rs1')`.
pub open spec fn spec_fmt_cl_type_fld(name: Seq<char>, b: InstructionBits) -> Seq<char> {
    render::spec_pad7(name) + " "@ + registers::spec_fp_register_abi_name((b.spec_idx_c3_rd() + 8) as u32) + ", "@ + render::spec_dec_nat(b.spec_cl_ld_imm() as nat) + "("@ + registers::spec_int_register_abi_name((b.spec_idx_c3_rs1() + 8) as u32) + ")"@
}

fn fmt_cl_type_fld(inst_filter: &InstructionFilter, inst_bits: InstructionBits) -> (r: String)
    ensures
        r@ == spec_fmt_cl_type_fld(inst_filter@.name, inst_bits),
{
    let mut s = render::pad_name(inst_filter.name);
    s.append(" ");
    s.append(inst_bits.get_f_c3_rd());
    s.append(", ");
    let t0 = render::dec_u32(inst_bits.get_cl_ld_imm());
    s.append(t0.as_str());
    s.append("(");
    s.append(inst_bits.get_x_c3_rs1());
    s.append(")");
    proof {
        assert(s@ =~= spec_fmt_cl_type_fld(inst_filter@.name, inst_bits));
    }
    s
}

/// Renders `name pc +/- n`.
pub open spec fn spec_fmt_cj_type(name: Seq<char>, b: InstructionBits) -> Seq<char> {
    render::spec_pad7(name) + " "@ + spec_pc_offset_dec(render::to_signed32(b.spec_cj_imm()))
}

fn fmt_cj_type(inst_filter: &InstructionFilter, inst_bits: InstructionBits) -> (r: String)
    ensures
        r@ == spec_fmt_cj_type(inst_filter@.name, inst_bits),
{
    let mut s = render::pad_name(inst_filter.name);
    s.append(" ");
    let t0 = pc_offset_dec(inst_bits.get_cj_imm());
    s.append(t0.as_str());
    proof {
        assert(s@ =~= spec_fmt_cj_type(inst_filter@.name, inst_bits));
    }
    s
}

/// Renders `name rs1, rs2`.
pub open spec fn spec_fmt_cr_type(name: Seq<char>, b: InstructionBits) -> Seq<char> {
    render::spec_pad7(name) + " "@ + registers::spec_int_register_abi_name(b.spec_idx_c_rs1()) + ", "@ + registers::spec_int_register_abi_name(b.spec_idx_c_rs2())
}

fn fmt_cr_type(inst_filter: &InstructionFilter, inst_bits: InstructionBits) -> (r: String)
    ensures
        r@ == spec_fmt_cr_type(inst_filter@.name, inst_bits),
{
    let mut s = render::pad_name(inst_filter.name);
    s.append(" ");
    s.append(inst_bits.get_x_c_rs1());
    s.append(", ");
    s.append(inst_bits.get_x_c_rs2());
    proof {
        assert(s@ =~= spec_fmt_cr_type(inst_filter@.name, inst_bits));
    }
    s
}

/// Renders `name rs1`.
pub open spec fn spec_fmt_cr_type_no_rs2(name: Seq<char>, b: InstructionBits) -> Seq<char> {
    render::spec_pad7(name) + " "@ + registers::spec_int_register_abi_name(b.spec_idx_c_rs1())
}

fn fmt_cr_type_no_rs2(inst_filter: &InstructionFilter, inst_bits: InstructionBits) -> (r: String)
    ensures
        r@ == spec_fmt_cr_type_no_rs2(inst_filter@.name, inst_bits),
{
    let mut s = render::pad_name(inst_filter.name);
    s.append(" ");
    s.append(inst_bits.get_x_c_rs1());
    proof {
        assert(s@ =~= spec_fmt_cr_type_no_rs2(inst_filter@.name, inst_bits));
    }
    s
}

/// Renders `name rs1', pc +/- n`.
pub open spec fn spec_fmt_cb_type(name: Seq<char>, b: InstructionBits) -> Seq<char> {
    render::spec_pad7(name) + " "@ + registers::spec_int_register_abi_name((b.spec_idx_c3_rs1() + 8) as u32) + ", "@ + spec_pc_offset_dec(render::to_signed32(b.spec_cb_imm()))
}

fn fmt_cb_type(inst_filter: &InstructionFilter, inst_bits: InstructionBits) -> (r: String)
    ensures
        r@ == spec_fmt_cb_type(inst_filter@.name, inst_bits),
{
    let mut s = render::pad_name(inst_filter.name);
    s.append(" ");
    s.append(inst_bits.get_x_c3_rs1());
    s.append(", ");
    let t0 = pc_offset_dec(inst_bits.get_cb_imm());
    s.append(t0.as_str());
    proof {
        assert(s@ =~= spec_fmt_cb_type(inst_filter@.name, inst_bits));
    }
    s
}

/// Renders `name rs1', shamt`.
pub open spec fn spec_fmt_cb_type_shift(name: Seq<char>, b: InstructionBits) -> Seq<char> {
    render::spec_pad7(name) + " "@ + registers::spec_int_register_abi_name((b.spec_idx_c3_rs1() + 8) as u32) + ", "@ + render::spec_dec_nat(b.spec_c_shamt() as nat)
}

fn fmt_cb_type_shift(inst_filter: &InstructionFilter, inst_bits: InstructionBits) -> (r: String)
    ensures
        r@ == spec_fmt_cb_type_shift(inst_filter@.name, inst_bits),
{
    let mut s = render::pad_name(inst_filter.name);
    s.append(" ");
    s.append(inst_bits.get_x_c3_rs1());
    s.append(", ");
    let t0 = render::dec_u32(inst_bits.get_c_shamt());
    s.append(t0.as_str());
    proof {
        assert(s@ =~= spec_fmt_cb_type_shift(inst_filter@.name, inst_bits));
    }
    s
}

/// Renders `name rs1', imm`.
pub open spec fn spec_fmt_cb_type_andi(name: Seq<char>, b: InstructionBits) -> Seq<char> {
    render::spec_pad7(name) + " "@ + registers::spec_int_register_abi_name((b.spec_idx_c3_rs1() + 8) as u32) + ", "@ + render::spec_dec_int(render::to_signed32(b.spec_ci_imm()))
}

fn fmt_cb_type_andi(inst_filter: &InstructionFilter, inst_bits: InstructionBits) -> (r: String)
    ensures
        r@ == spec_fmt_cb_type_andi(inst_filter@.name, inst_bits),
{
    let mut s = render::pad_name(inst_filter.name);
    s.append(" ");
    s.append(inst_bits.get_x_c3_rs1());
    s.append(", ");
    let t0 = render::dec_i32(inst_bits.get_ci_imm());
    s.append(t0.as_str());
    proof {
        assert(s@ =~= spec_fmt_cb_type_andi(inst_filter@.name, inst_bits));
    }
    s
}

/// Renders `name rd, imm` (rd and rs1 overlap in compressed instructions).
pub open spec fn spec_fmt_ci_type(name: Seq<char>, b: InstructionBits) -> Seq<char> {
    render::spec_pad7(name) + " "@ + registers::spec_int_register_abi_name(b.spec_idx_c_rs1()) + ", "@ + render::spec_dec_int(render::to_signed32(b.spec_ci_imm()))
}

fn fmt_ci_type(inst_filter: &InstructionFilter, inst_bits: InstructionBits) -> (r: String)
    ensures
        r@ == spec_fmt_ci_type(inst_filter@.name, inst_bits),
{
    let mut s = render::pad_name(inst_filter.name);
    s.append(" ");
    s.append(inst_bits.get_x_c_rs1());
    s.append(", ");
    let t0 = render::dec_i32(inst_bits.get_ci_imm());
    s.append(t0.as_str());
    proof {
        assert(s@ =~= spec_fmt_ci_type(inst_filter@.name, inst_bits));
    }
    s
}

/// Renders `name rd, 0x...` with the 20-bit sign-extended constant.
pub open spec fn spec_fmt_ci_type_lui(name: Seq<char>, b: InstructionBits) -> Seq<char> {
    render::spec_pad7(name) + " "@ + registers::spec_int_register_abi_name(b.spec_idx_c_rs1()) + ", "@ + render::spec_hex_0x(((b.spec_ci_imm() << 12) >> 12) as nat)
}

fn fmt_ci_type_lui(inst_filter: &InstructionFilter, inst_bits: InstructionBits) -> (r: String)
    ensures
        r@ == spec_fmt_ci_type_lui(inst_filter@.name, inst_bits),
{
    let mut s = render::pad_name(inst_filter.name);
    s.append(" ");
    s.append(inst_bits.get_x_c_rs1());
    s.append(", ");
    let imm = (inst_bits.shift_and_mask(2, 5) | (inst_bits.shift_and_mask_signed(12, 1) << 5)) << 12 >> 12;
    let t0 = render::hex_u32_0x(imm);
    s.append(t0.as_str());
    proof {
        assert(s@ =~= spec_fmt_ci_type_lui(inst_filter@.name, inst_bits));
    }
    s
}

/// Renders `name sp, imm`.
pub open spec fn spec_fmt_ci_type_addi16sp(name: Seq<char>, b: InstructionBits) -> Seq<char> {
    render::spec_pad7(name) + " "@ + "sp, "@ + render::spec_dec_int(render::to_signed32(b.spec_ci_addi16sp_imm()))
}

fn fmt_ci_type_addi16sp(inst_filter: &InstructionFilter, inst_bits: InstructionBits) -> (r: String)
    ensures
        r@ == spec_fmt_ci_type_addi16sp(inst_filter@.name, inst_bits),
{
    let mut s = render::pad_name(inst_filter.name);
    s.append(" ");
    s.append("sp, ");
    let t0 = render::dec_i32(inst_bits.get_ci_addi16sp_imm());
    s.append(t0.as_str());
    proof {
        assert(s@ =~= spec_fmt_ci_type_addi16sp(inst_filter@.name, inst_bits));
    }
    s
}

/// Renders `name rd', sp, imm`.
pub open spec fn spec_fmt_ciw_type_addi4spn(name: Seq<char>, b: InstructionBits) -> Seq<char> {
    render::spec_pad7(name) + " "@ + registers::spec_int_register_abi_name((b.spec_idx_c3_rd() + 8) as u32) + ", sp, "@ + render::spec_dec_nat(b.spec_ciw_addi4spn_imm() as nat)
}

fn fmt_ciw_type_addi4spn(inst_filter: &InstructionFilter, inst_bits: InstructionBits) -> (r: String)
    ensures
        r@ == spec_fmt_ciw_type_addi4spn(inst_filter@.name, inst_bits),
{
    let mut s = render::pad_name(inst_filter.name);
    s.append(" ");
    s.append(inst_bits.get_x_c3_rd());
    s.append(", sp, ");
    let t0 = render::dec_u32(inst_bits.get_ciw_addi4spn_imm());
    s.append(t0.as_str());
    proof {
        assert(s@ =~= spec_fmt_ciw_type_addi4spn(inst_filter@.name, inst_bits));
    }
    s
}

/// Renders `name rd, shamt`.
pub open spec fn spec_fmt_ci_type_shift(name: Seq<char>, b: InstructionBits) -> Seq<char> {
    render::spec_pad7(name) + " "@ + registers::spec_int_register_abi_name(b.spec_idx_c_rs1()) + ", "@ + render::spec_dec_nat(b.spec_c_shamt() as nat)
}

fn fmt_ci_type_shift(inst_filter: &InstructionFilter, inst_bits: InstructionBits) -> (r: String)
    ensures
        r@ == spec_fmt_ci_type_shift(inst_filter@.name, inst_bits),
{
    let mut s = render::pad_name(inst_filter.name);
    s.append(" ");
    s.append(inst_bits.get_x_c_rs1());
    s.append(", ");
    let t0 = render::dec_u32(inst_bits.get_c_shamt());
    s.append(t0.as_str());
    proof {
        assert(s@ =~= spec_fmt_ci_type_shift(inst_filter@.name, inst_bits));
    }
    s
}

/// Renders `name rs1', rd'`.
pub open spec fn spec_fmt_ca_type(name: Seq<char>, b: InstructionBits) -> Seq<char> {
    render::spec_pad7(name) + " "@ + registers::spec_int_register_abi_name((b.spec_idx_c3_rs1() + 8) as u32) + ", "@ + registers::spec_int_register_abi_name((b.spec_idx_c3_rd() + 8) as u32)
}

fn fmt_ca_type(inst_filter: &InstructionFilter, inst_bits: InstructionBits) -> (r: String)
    ensures
        r@ == spec_fmt_ca_type(inst_filter@.name, inst_bits),
{
    let mut s = render::pad_name(inst_filter.name);
    s.append(" ");
    s.append(inst_bits.get_x_c3_rs1());
    s.append(", ");
    s.append(inst_bits.get_x_c3_rd());
    proof {
        assert(s@ =~= spec_fmt_ca_type(inst_filter@.name, inst_bits));
    }
    s
}



/// The text a filter renders for an instruction word, by its shape.
pub open spec fn spec_render(f: FilterSpec, b: InstructionBits) -> Seq<char> {
    match f.formatter {
        Formatter::IType => spec_fmt_i_type(f.name, b),
        Formatter::ITypeShift => spec_fmt_i_type_shift(f.name, b),
        Formatter::ITypeJustRs1 => spec_fmt_i_type_just_rs1(f.name, b),
        Formatter::ITypeNoRs1 => spec_fmt_i_type_no_rs1(f.name, b),
        Formatter::ITypeNoImm => spec_fmt_i_type_no_imm(f.name, b),
        Formatter::UType => spec_fmt_u_type(f.name, b),
        Formatter::RType => spec_fmt_r_type(f.name, b),
        Formatter::RTypeNoRs1 => spec_fmt_r_type_no_rs1(f.name, b),
        Formatter::JType => spec_fmt_j_type(f.name, b),
        Formatter::JTypeNoRd => spec_fmt_j_type_no_rd(f.name, b),
        Formatter::BType => spec_fmt_b_type(f.name, b),
        Formatter::BTypeNoRs2 => spec_fmt_b_type_no_rs2(f.name, b),
        Formatter::Load => spec_fmt_load(f.name, b),
        Formatter::Store => spec_fmt_store(f.name, b),
        Formatter::NoArgs => spec_fmt_no_args(f.name, b),
        Formatter::Csr => spec_fmt_csr(f.name, b),
        Formatter::CsrNoRs1 => spec_fmt_csr_no_rs1(f.name, b),
        Formatter::CsrNoRd => spec_fmt_csr_no_rd(f.name, b),
        Formatter::CsrImm => spec_fmt_csr_imm(f.name, b),
        Formatter::CsrImmNoRd => spec_fmt_csr_imm_no_rd(f.name, b),
        Formatter::SfenceVma => spec_fmt_sfence_vma(f.name, b),
        Formatter::AmoLr => spec_fmt_amo_lr(f.name, b),
        Formatter::Amo => spec_fmt_amo(f.name, b),
        Formatter::FpLoad => spec_fmt_fp_load(f.name, b),
        Formatter::FpStore => spec_fmt_fp_store(f.name, b),
        Formatter::FpRType => spec_fmt_fp_r_type(f.name, b),
        Formatter::FpRTypeNoRs2 => spec_fmt_fp_r_type_no_rs2(f.name, b),
        Formatter::FpRTypeWithRs3 => spec_fmt_fp_r_type_with_rs3(f.name, b),
        Formatter::FpRTypeFromInt => spec_fmt_fp_r_type_from_int(f.name, b),
        Formatter::FpRTypeToInt => spec_fmt_fp_r_type_to_int(f.name, b),
        Formatter::FpRTypeIntRd => spec_fmt_fp_r_type_int_rd(f.name, b),
        Formatter::CiLwsp => spec_fmt_ci_type_lwsp(f.name, b),
        Formatter::CiFlwsp => spec_fmt_ci_type_flwsp(f.name, b),
        Formatter::CiLdsp => spec_fmt_ci_type_ldsp(f.name, b),
        Formatter::CiFldsp => spec_fmt_ci_type_fldsp(f.name, b),
        Formatter::CssSwsp => spec_fmt_css_type_swsp(f.name, b),
        Formatter::CssFswsp => spec_fmt_css_type_fswsp(f.name, b),
        Formatter::CssSdsp => spec_fmt_css_type_sdsp(f.name, b),
        Formatter::CssFsdsp => spec_fmt_css_type_fsdsp(f.name, b),
        Formatter::ClLw => spec_fmt_cl_type_lw(f.name, b),
        Formatter::ClLd => spec_fmt_cl_type_ld(f.name, b),
        Formatter::ClFlw => spec_fmt_cl_type_flw(f.name, b),
        Formatter::ClFld => spec_fmt_cl_type_fld(f.name, b),
        Formatter::CjType => spec_fmt_cj_type(f.name, b),
        Formatter::CrType => spec_fmt_cr_type(f.name, b),
        Formatter::CrTypeNoRs2 => spec_fmt_cr_type_no_rs2(f.name, b),
        Formatter::CbType => spec_fmt_cb_type(f.name, b),
        Formatter::CbTypeShift => spec_fmt_cb_type_shift(f.name, b),
        Formatter::CbTypeAndi => spec_fmt_cb_type_andi(f.name, b),
        Formatter::CiType => spec_fmt_ci_type(f.name, b),
        Formatter::CiLui => spec_fmt_ci_type_lui(f.name, b),
        Formatter::CiAddi16sp => spec_fmt_ci_type_addi16sp(f.name, b),
        Formatter::CiwAddi4spn => spec_fmt_ciw_type_addi4spn(f.name, b),
        Formatter::CiShift => spec_fmt_ci_type_shift(f.name, b),
        Formatter::CaType => spec_fmt_ca_type(f.name, b),
    }
}

/// Renders the instruction word `inst_bits` under the matching filter
/// `inst_filter`.
pub fn render_filter(inst_filter: &InstructionFilter, inst_bits: InstructionBits) -> (r: String)
    ensures
        r@ == spec_render(inst_filter@, inst_bits),
{
    match inst_filter.formatter {
        Formatter::IType => fmt_i_type(inst_filter, inst_bits),
        Formatter::ITypeShift => fmt_i_type_shift(inst_filter, inst_bits),
        Formatter::ITypeJustRs1 => fmt_i_type_just_rs1(inst_filter, inst_bits),
        Formatter::ITypeNoRs1 => fmt_i_type_no_rs1(inst_filter, inst_bits),
        Formatter::ITypeNoImm => fmt_i_type_no_imm(inst_filter, inst_bits),
        Formatter::UType => fmt_u_type(inst_filter, inst_bits),
        Formatter::RType => fmt_r_type(inst_filter, inst_bits),
        Formatter::RTypeNoRs1 => fmt_r_type_no_rs1(inst_filter, inst_bits),
        Formatter::JType => fmt_j_type(inst_filter, inst_bits),
        Formatter::JTypeNoRd => fmt_j_type_no_rd(inst_filter, inst_bits),
        Formatter::BType => fmt_b_type(inst_filter, inst_bits),
        Formatter::BTypeNoRs2 => fmt_b_type_no_rs2(inst_filter, inst_bits),
        Formatter::Load => fmt_load(inst_filter, inst_bits),
        Formatter::Store => fmt_store(inst_filter, inst_bits),
        Formatter::NoArgs => fmt_no_args(inst_filter, inst_bits),
        Formatter::Csr => fmt_csr(inst_filter, inst_bits),
        Formatter::CsrNoRs1 => fmt_csr_no_rs1(inst_filter, inst_bits),
        Formatter::CsrNoRd => fmt_csr_no_rd(inst_filter, inst_bits),
        Formatter::CsrImm => fmt_csr_imm(inst_filter, inst_bits),
        Formatter::CsrImmNoRd => fmt_csr_imm_no_rd(inst_filter, inst_bits),
        Formatter::SfenceVma => fmt_sfence_vma(inst_filter, inst_bits),
        Formatter::AmoLr => fmt_amo_lr(inst_filter, inst_bits),
        Formatter::Amo => fmt_amo(inst_filter, inst_bits),
        Formatter::FpLoad => fmt_fp_load(inst_filter, inst_bits),
        Formatter::FpStore => fmt_fp_store(inst_filter, inst_bits),
        Formatter::FpRType => fmt_fp_r_type(inst_filter, inst_bits),
        Formatter::FpRTypeNoRs2 => fmt_fp_r_type_no_rs2(inst_filter, inst_bits),
        Formatter::FpRTypeWithRs3 => fmt_fp_r_type_with_rs3(inst_filter, inst_bits),
        Formatter::FpRTypeFromInt => fmt_fp_r_type_from_int(inst_filter, inst_bits),
        Formatter::FpRTypeToInt => fmt_fp_r_type_to_int(inst_filter, inst_bits),
        Formatter::FpRTypeIntRd => fmt_fp_r_type_int_rd(inst_filter, inst_bits),
        Formatter::CiLwsp => fmt_ci_type_lwsp(inst_filter, inst_bits),
        Formatter::CiFlwsp => fmt_ci_type_flwsp(inst_filter, inst_bits),
        Formatter::CiLdsp => fmt_ci_type_ldsp(inst_filter, inst_bits),
        Formatter::CiFldsp => fmt_ci_type_fldsp(inst_filter, inst_bits),
        Formatter::CssSwsp => fmt_css_type_swsp(inst_filter, inst_bits),
        Formatter::CssFswsp => fmt_css_type_fswsp(inst_filter, inst_bits),
        Formatter::CssSdsp => fmt_css_type_sdsp(inst_filter, inst_bits),
        Formatter::CssFsdsp => fmt_css_type_fsdsp(inst_filter, inst_bits),
        Formatter::ClLw => fmt_cl_type_lw(inst_filter, inst_bits),
        Formatter::ClLd => fmt_cl_type_ld(inst_filter, inst_bits),
        Formatter::ClFlw => fmt_cl_type_flw(inst_filter, inst_bits),
        Formatter::ClFld => fmt_cl_type_fld(inst_filter, inst_bits),
        Formatter::CjType => fmt_cj_type(inst_filter, inst_bits),
        Formatter::CrType => fmt_cr_type(inst_filter, inst_bits),
        Formatter::CrTypeNoRs2 => fmt_cr_type_no_rs2(inst_filter, inst_bits),
        Formatter::CbType => fmt_cb_type(inst_filter, inst_bits),
        Formatter::CbTypeShift => fmt_cb_type_shift(inst_filter, inst_bits),
        Formatter::CbTypeAndi => fmt_cb_type_andi(inst_filter, inst_bits),
        Formatter::CiType => fmt_ci_type(inst_filter, inst_bits),
        Formatter::CiLui => fmt_ci_type_lui(inst_filter, inst_bits),
        Formatter::CiAddi16sp => fmt_ci_type_addi16sp(inst_filter, inst_bits),
        Formatter::CiwAddi4spn => fmt_ciw_type_addi4spn(inst_filter, inst_bits),
        Formatter::CiShift => fmt_ci_type_shift(inst_filter, inst_bits),
        Formatter::CaType => fmt_ca_type(inst_filter, inst_bits),
    }
}

/// Entry `k` of the pseudo-instruction filters, each over-constraining its general form.
pub open spec fn pseudo_filter_at(k: int) -> FilterSpec {
    if k == 0 {
        FilterSpec { name: "nop"@, mask: inst::MASK_ADDI | registers::MASK_RD | registers::MASK_RS1 | registers::MASK_I_TYPE_IMM, match_value: inst::MATCH_ADDI, formatter: Formatter::NoArgs }
    } else if k == 1 {
        FilterSpec { name: "li"@, mask: inst::MASK_ADDI | registers::MASK_RS1, match_value: inst::MATCH_ADDI, formatter: Formatter::ITypeNoRs1 }
    } else if k == 2 {
        FilterSpec { name: "mv"@, mask: inst::MASK_ADDI | registers::MASK_I_TYPE_IMM, match_value: inst::MATCH_ADDI, formatter: Formatter::ITypeNoImm }
    } else if k == 3 {
        FilterSpec { name: "not"@, mask: inst::MASK_XORI | registers::MASK_I_TYPE_IMM, match_value: inst::MATCH_XORI | registers::MATCH_I_TYPE_IMM_EQUALS_NEG1, formatter: Formatter::ITypeNoImm }
    } else if k == 4 {
        FilterSpec { name: "seqz"@, mask: inst::MASK_SLTIU | registers::MASK_I_TYPE_IMM, match_value: inst::MATCH_SLTIU | registers::MATCH_I_TYPE_IMM_EQUALS_1, formatter: Formatter::ITypeNoImm }
    } else if k == 5 {
        FilterSpec { name: "snez"@, mask: inst::MASK_SLTU | registers::MASK_RS1, match_value: inst::MATCH_SLTU, formatter: Formatter::RTypeNoRs1 }
    } else if k == 6 {
        FilterSpec { name: "j"@, mask: inst::MASK_JAL | registers::MASK_RD, match_value: inst::MATCH_JAL, formatter: Formatter::JTypeNoRd }
    } else if k == 7 {
        FilterSpec { name: "jal"@, mask: inst::MASK_JAL | registers::MASK_RD, match_value: inst::MATCH_JAL | registers::MATCH_RD_EQUALS_RA, formatter: Formatter::JTypeNoRd }
    } else if k == 8 {
        FilterSpec { name: "ret"@, mask: inst::MASK_JALR | registers::MASK_RD | registers::MASK_RS1 | registers::MASK_I_TYPE_IMM, match_value: inst::MATCH_JALR | registers::MATCH_RS1_EQUALS_RA, formatter: Formatter::NoArgs }
    } else if k == 9 {
        FilterSpec { name: "jr"@, mask: inst::MASK_JALR | registers::MASK_RD | registers::MASK_I_TYPE_IMM, match_value: inst::MATCH_JALR, formatter: Formatter::ITypeJustRs1 }
    } else if k == 10 {
        FilterSpec { name: "jalr"@, mask: inst::MASK_JALR | registers::MASK_RD | registers::MASK_I_TYPE_IMM, match_value: inst::MATCH_JALR | registers::MATCH_RD_EQUALS_RA, formatter: Formatter::ITypeJustRs1 }
    } else if k == 11 {
        FilterSpec { name: "beqz"@, mask: inst::MASK_BEQ | registers::MASK_RS2, match_value: inst::MATCH_BEQ, formatter: Formatter::BTypeNoRs2 }
    } else if k == 12 {
        FilterSpec { name: "bnez"@, mask: inst::MASK_BNE | registers::MASK_RS2, match_value: inst::MATCH_BNE, formatter: Formatter::BTypeNoRs2 }
    } else if k == 13 {
        FilterSpec { name: "bltz"@, mask: inst::MASK_BLT | registers::MASK_RS2, match_value: inst::MATCH_BLT, formatter: Formatter::BTypeNoRs2 }
    } else if k == 14 {
        FilterSpec { name: "bgez"@, mask: inst::MASK_BGE | registers::MASK_RS2, match_value: inst::MATCH_BGE, formatter: Formatter::BTypeNoRs2 }
    } else if k == 15 {
        FilterSpec { name: "csrr"@, mask: inst::MASK_CSRRS | registers::MASK_RS1, match_value: inst::MATCH_CSRRS, formatter: Formatter::CsrNoRs1 }
    } else if k == 16 {
        FilterSpec { name: "csrw"@, mask: inst::MASK_CSRRW | registers::MASK_RD, match_value: inst::MATCH_CSRRW, formatter: Formatter::CsrNoRd }
    } else if k == 17 {
        FilterSpec { name: "csrs"@, mask: inst::MASK_CSRRS | registers::MASK_RD, match_value: inst::MATCH_CSRRS, formatter: Formatter::CsrNoRd }
    } else if k == 18 {
        FilterSpec { name: "csrc"@, mask: inst::MASK_CSRRC | registers::MASK_RD, match_value: inst::MATCH_CSRRC, formatter: Formatter::CsrNoRd }
    } else if k == 19 {
        FilterSpec { name: "csrwi"@, mask: inst::MASK_CSRRWI | registers::MASK_RD, match_value: inst::MATCH_CSRRWI, formatter: Formatter::CsrImmNoRd }
    } else if k == 20 {
        FilterSpec { name: "csrsi"@, mask: inst::MASK_CSRRSI | registers::MASK_RD, match_value: inst::MATCH_CSRRSI, formatter: Formatter::CsrImmNoRd }
    } else {
        FilterSpec { name: "csrci"@, mask: inst::MASK_CSRRCI | registers::MASK_RD, match_value: inst::MATCH_CSRRCI, formatter: Formatter::CsrImmNoRd }
    }
}

/// In order, the pseudo-instruction filters, each over-constraining its general form.
pub open spec fn spec_pseudo_filters() -> Seq<FilterSpec> {
    Seq::new(22, |k: int| pseudo_filter_at(k))
}

fn pseudo_filter(k: usize) -> (r: InstructionFilter)
    requires
        k < 22,
    ensures
        r@ == pseudo_filter_at(k as int),
{
    match k {
        0 => InstructionFilter::new("nop", inst::MASK_ADDI | registers::MASK_RD | registers::MASK_RS1 | registers::MASK_I_TYPE_IMM, inst::MATCH_ADDI, Formatter::NoArgs),
        1 => InstructionFilter::new("li", inst::MASK_ADDI | registers::MASK_RS1, inst::MATCH_ADDI, Formatter::ITypeNoRs1),
        2 => InstructionFilter::new("mv", inst::MASK_ADDI | registers::MASK_I_TYPE_IMM, inst::MATCH_ADDI, Formatter::ITypeNoImm),
        3 => InstructionFilter::new("not", inst::MASK_XORI | registers::MASK_I_TYPE_IMM, inst::MATCH_XORI | registers::MATCH_I_TYPE_IMM_EQUALS_NEG1, Formatter::ITypeNoImm),
        4 => InstructionFilter::new("seqz", inst::MASK_SLTIU | registers::MASK_I_TYPE_IMM, inst::MATCH_SLTIU | registers::MATCH_I_TYPE_IMM_EQUALS_1, Formatter::ITypeNoImm),
        5 => InstructionFilter::new("snez", inst::MASK_SLTU | registers::MASK_RS1, inst::MATCH_SLTU, Formatter::RTypeNoRs1),
        6 => InstructionFilter::new("j", inst::MASK_JAL | registers::MASK_RD, inst::MATCH_JAL, Formatter::JTypeNoRd),
        7 => InstructionFilter::new("jal", inst::MASK_JAL | registers::MASK_RD, inst::MATCH_JAL | registers::MATCH_RD_EQUALS_RA, Formatter::JTypeNoRd),
        8 => InstructionFilter::new("ret", inst::MASK_JALR | registers::MASK_RD | registers::MASK_RS1 | registers::MASK_I_TYPE_IMM, inst::MATCH_JALR | registers::MATCH_RS1_EQUALS_RA, Formatter::NoArgs),
        9 => InstructionFilter::new("jr", inst::MASK_JALR | registers::MASK_RD | registers::MASK_I_TYPE_IMM, inst::MATCH_JALR, Formatter::ITypeJustRs1),
        10 => InstructionFilter::new("jalr", inst::MASK_JALR | registers::MASK_RD | registers::MASK_I_TYPE_IMM, inst::MATCH_JALR | registers::MATCH_RD_EQUALS_RA, Formatter::ITypeJustRs1),
        11 => InstructionFilter::new("beqz", inst::MASK_BEQ | registers::MASK_RS2, inst::MATCH_BEQ, Formatter::BTypeNoRs2),
        12 => InstructionFilter::new("bnez", inst::MASK_BNE | registers::MASK_RS2, inst::MATCH_BNE, Formatter::BTypeNoRs2),
        13 => InstructionFilter::new("bltz", inst::MASK_BLT | registers::MASK_RS2, inst::MATCH_BLT, Formatter::BTypeNoRs2),
        14 => InstructionFilter::new("bgez", inst::MASK_BGE | registers::MASK_RS2, inst::MATCH_BGE, Formatter::BTypeNoRs2),
        15 => InstructionFilter::new("csrr", inst::MASK_CSRRS | registers::MASK_RS1, inst::MATCH_CSRRS, Formatter::CsrNoRs1),
        16 => InstructionFilter::new("csrw", inst::MASK_CSRRW | registers::MASK_RD, inst::MATCH_CSRRW, Formatter::CsrNoRd),
        17 => InstructionFilter::new("csrs", inst::MASK_CSRRS | registers::MASK_RD, inst::MATCH_CSRRS, Formatter::CsrNoRd),
        18 => InstructionFilter::new("csrc", inst::MASK_CSRRC | registers::MASK_RD, inst::MATCH_CSRRC, Formatter::CsrNoRd),
        19 => InstructionFilter::new("csrwi", inst::MASK_CSRRWI | registers::MASK_RD, inst::MATCH_CSRRWI, Formatter::CsrImmNoRd),
        20 => InstructionFilter::new("csrsi", inst::MASK_CSRRSI | registers::MASK_RD, inst::MATCH_CSRRSI, Formatter::CsrImmNoRd),
        _ => InstructionFilter::new("csrci", inst::MASK_CSRRCI | registers::MASK_RD, inst::MATCH_CSRRCI, Formatter::CsrImmNoRd),
    }
}

fn push_pseudo_filters(v: &mut Vec<InstructionFilter>)
    ensures
        final(v)@.map_values(|f: InstructionFilter| f@) == old(v)@.map_values(|f: InstructionFilter| f@) + spec_pseudo_filters(),
{
    let ghost base = v@.map_values(|f: InstructionFilter| f@);
    let ghost n0 = v@.len();
    let mut k: usize = 0;
    while k < 22
        invariant
            k <= 22,
            v@.len() == n0 + k,
            base == old(v)@.map_values(|f: InstructionFilter| f@),
            base.len() == n0,
            v@.map_values(|f: InstructionFilter| f@) =~= base + Seq::new(k as nat, |i: int| pseudo_filter_at(i)),
        decreases 22 - k,
    {
        let ghost prev = v@;
        let fl = pseudo_filter(k);
        v.push(fl);
        proof {
            prev.lemma_push_map_commute(|f: InstructionFilter| f@, fl);
            assert(v@.map_values(|f: InstructionFilter| f@) =~= base + Seq::new((k + 1) as nat, |j: int| pseudo_filter_at(j)));
        }
        k = k + 1;
    }
    proof {
        assert(v@.map_values(|f: InstructionFilter| f@) =~= old(v)@.map_values(|f: InstructionFilter| f@) + spec_pseudo_filters());
    }
}

/// Entry `k` of the pseudo-instruction filter that exists only on RV64: `sext.w`, the pseudo form of `addiw`.
pub open spec fn pseudo_rv64_filter_at(k: int) -> FilterSpec {
    FilterSpec { name: "sext.w"@, mask: inst::MASK_ADDIW | registers::MASK_I_TYPE_IMM, match_value: inst::MATCH_ADDIW, formatter: Formatter::ITypeNoImm }
}

/// In order, the pseudo-instruction filter that exists only on RV64: `sext.w`, the pseudo form of `addiw`.
pub open spec fn spec_pseudo_rv64_filters() -> Seq<FilterSpec> {
    Seq::new(1, |k: int| pseudo_rv64_filter_at(k))
}

fn pseudo_rv64_filter(k: usize) -> (r: InstructionFilter)
    requires
        k < 1,
    ensures
        r@ == pseudo_rv64_filter_at(k as int),
{
    InstructionFilter::new("sext.w", inst::MASK_ADDIW | registers::MASK_I_TYPE_IMM, inst::MATCH_ADDIW, Formatter::ITypeNoImm)
}

fn push_pseudo_rv64_filters(v: &mut Vec<InstructionFilter>)
    ensures
        final(v)@.map_values(|f: InstructionFilter| f@) == old(v)@.map_values(|f: InstructionFilter| f@) + spec_pseudo_rv64_filters(),
{
    let ghost base = v@.map_values(|f: InstructionFilter| f@);
    let ghost n0 = v@.len();
    let mut k: usize = 0;
    while k < 1
        invariant
            k <= 1,
            v@.len() == n0 + k,
            base == old(v)@.map_values(|f: InstructionFilter| f@),
            base.len() == n0,
            v@.map_values(|f: InstructionFilter| f@) =~= base + Seq::new(k as nat, |i: int| pseudo_rv64_filter_at(i)),
        decreases 1 - k,
    {
        let ghost prev = v@;
        let fl = pseudo_rv64_filter(k);
        v.push(fl);
        proof {
            prev.lemma_push_map_commute(|f: InstructionFilter| f@, fl);
            assert(v@.map_values(|f: InstructionFilter| f@) =~= base + Seq::new((k + 1) as nat, |j: int| pseudo_rv64_filter_at(j)));
        }
        k = k + 1;
    }
    proof {
        assert(v@.map_values(|f: InstructionFilter| f@) =~= old(v)@.map_values(|f: InstructionFilter| f@) + spec_pseudo_rv64_filters());
    }
}

/// Entry `k` of the base-ISA filters that exist only on RV64.
pub open spec fn base_rv64_filter_at(k: int) -> FilterSpec {
    if k == 0 {
        FilterSpec { name: "addiw"@, mask: inst::MASK_ADDIW, match_value: inst::MATCH_ADDIW, formatter: Formatter::IType }
    } else if k == 1 {
        FilterSpec { name: "slliw"@, mask: inst::MASK_SLLIW, match_value: inst::MATCH_SLLIW, formatter: Formatter::ITypeShift }
    } else if k == 2 {
        FilterSpec { name: "srliw"@, mask: inst::MASK_SRLIW, match_value: inst::MATCH_SRLIW, formatter: Formatter::ITypeShift }
    } else if k == 3 {
        FilterSpec { name: "sraiw"@, mask: inst::MASK_SRAIW, match_value: inst::MATCH_SRAIW, formatter: Formatter::ITypeShift }
    } else if k == 4 {
        FilterSpec { name: "addw"@, mask: inst::MASK_ADDW, match_value: inst::MATCH_ADDW, formatter: Formatter::RType }
    } else if k == 5 {
        FilterSpec { name: "subw"@, mask: inst::MASK_SUBW, match_value: inst::MATCH_SUBW, formatter: Formatter::RType }
    } else if k == 6 {
        FilterSpec { name: "sllw"@, mask: inst::MASK_SLLW, match_value: inst::MATCH_SLLW, formatter: Formatter::RType }
    } else if k == 7 {
        FilterSpec { name: "srlw"@, mask: inst::MASK_SRLW, match_value: inst::MATCH_SRLW, formatter: Formatter::RType }
    } else if k == 8 {
        FilterSpec { name: "sraw"@, mask: inst::MASK_SRAW, match_value: inst::MATCH_SRAW, formatter: Formatter::RType }
    } else if k == 9 {
        FilterSpec { name: "lwu"@, mask: inst::MASK_LWU, match_value: inst::MATCH_LWU, formatter: Formatter::Load }
    } else if k == 10 {
        FilterSpec { name: "ld"@, mask: inst::MASK_LD, match_value: inst::MATCH_LD, formatter: Formatter::Load }
    } else {
        FilterSpec { name: "sd"@, mask: inst::MASK_SD, match_value: inst::MATCH_SD, formatter: Formatter::Store }
    }
}

/// In order, the base-ISA filters that exist only on RV64.
pub open spec fn spec_base_rv64_filters() -> Seq<FilterSpec> {
    Seq::new(12, |k: int| base_rv64_filter_at(k))
}

fn base_rv64_filter(k: usize) -> (r: InstructionFilter)
    requires
        k < 12,
    ensures
        r@ == base_rv64_filter_at(k as int),
{
    match k {
        0 => InstructionFilter::new("addiw", inst::MASK_ADDIW, inst::MATCH_ADDIW, Formatter::IType),
        1 => InstructionFilter::new("slliw", inst::MASK_SLLIW, inst::MATCH_SLLIW, Formatter::ITypeShift),
        2 => InstructionFilter::new("srliw", inst::MASK_SRLIW, inst::MATCH_SRLIW, Formatter::ITypeShift),
        3 => InstructionFilter::new("sraiw", inst::MASK_SRAIW, inst::MATCH_SRAIW, Formatter::ITypeShift),
        4 => InstructionFilter::new("addw", inst::MASK_ADDW, inst::MATCH_ADDW, Formatter::RType),
        5 => InstructionFilter::new("subw", inst::MASK_SUBW, inst::MATCH_SUBW, Formatter::RType),
        6 => InstructionFilter::new("sllw", inst::MASK_SLLW, inst::MATCH_SLLW, Formatter::RType),
        7 => InstructionFilter::new("srlw", inst::MASK_SRLW, inst::MATCH_SRLW, Formatter::RType),
        8 => InstructionFilter::new("sraw", inst::MASK_SRAW, inst::MATCH_SRAW, Formatter::RType),
        9 => InstructionFilter::new("lwu", inst::MASK_LWU, inst::MATCH_LWU, Formatter::Load),
        10 => InstructionFilter::new("ld", inst::MASK_LD, inst::MATCH_LD, Formatter::Load),
        _ => InstructionFilter::new("sd", inst::MASK_SD, inst::MATCH_SD, Formatter::Store),
    }
}

fn push_base_rv64_filters(v: &mut Vec<InstructionFilter>)
    ensures
        final(v)@.map_values(|f: InstructionFilter| f@) == old(v)@.map_values(|f: InstructionFilter| f@) + spec_base_rv64_filters(),
{
    let ghost base = v@.map_values(|f: InstructionFilter| f@);
    let ghost n0 = v@.len();
    let mut k: usize = 0;
    while k < 12
        invariant
            k <= 12,
            v@.len() == n0 + k,
            base == old(v)@.map_values(|f: InstructionFilter| f@),
            base.len() == n0,
            v@.map_values(|f: InstructionFilter| f@) =~= base + Seq::new(k as nat, |i: int| base_rv64_filter_at(i)),
        decreases 12 - k,
    {
        let ghost prev = v@;
        let fl = base_rv64_filter(k);
        v.push(fl);
        proof {
            prev.lemma_push_map_commute(|f: InstructionFilter| f@, fl);
            assert(v@.map_values(|f: InstructionFilter| f@) =~= base + Seq::new((k + 1) as nat, |j: int| base_rv64_filter_at(j)));
        }
        k = k + 1;
    }
    proof {
        assert(v@.map_values(|f: InstructionFilter| f@) =~= old(v)@.map_values(|f: InstructionFilter| f@) + spec_base_rv64_filters());
    }
}

/// Entry `k` of the base-ISA filters common to both word widths.
pub open spec fn base_global_filter_at(k: int) -> FilterSpec {
    if k == 0 {
        FilterSpec { name: "addi"@, mask: inst::MASK_ADDI, match_value: inst::MATCH_ADDI, formatter: Formatter::IType }
    } else if k == 1 {
        FilterSpec { name: "slti"@, mask: inst::MASK_SLTI, match_value: inst::MATCH_SLTI, formatter: Formatter::IType }
    } else if k == 2 {
        FilterSpec { name: "sltiu"@, mask: inst::MASK_SLTIU, match_value: inst::MATCH_SLTIU, formatter: Formatter::IType }
    } else if k == 3 {
        FilterSpec { name: "ori"@, mask: inst::MASK_ORI, match_value: inst::MATCH_ORI, formatter: Formatter::IType }
    } else if k == 4 {
        FilterSpec { name: "xori"@, mask: inst::MASK_XORI, match_value: inst::MATCH_XORI, formatter: Formatter::IType }
    } else if k == 5 {
        FilterSpec { name: "andi"@, mask: inst::MASK_ANDI, match_value: inst::MATCH_ANDI, formatter: Formatter::IType }
    } else if k == 6 {
        FilterSpec { name: "slli"@, mask: inst::MASK_SLLI, match_value: inst::MATCH_SLLI, formatter: Formatter::ITypeShift }
    } else if k == 7 {
        FilterSpec { name: "srli"@, mask: inst::MASK_SRLI, match_value: inst::MATCH_SRLI, formatter: Formatter::ITypeShift }
    } else if k == 8 {
        FilterSpec { name: "srai"@, mask: inst::MASK_SRAI, match_value: inst::MATCH_SRAI, formatter: Formatter::ITypeShift }
    } else if k == 9 {
        FilterSpec { name: "lui"@, mask: inst::MASK_LUI, match_value: inst::MATCH_LUI, formatter: Formatter::UType }
    } else if k == 10 {
        FilterSpec { name: "auipc"@, mask: inst::MASK_AUIPC, match_value: inst::MATCH_AUIPC, formatter: Formatter::UType }
    } else if k == 11 {
        FilterSpec { name: "add"@, mask: inst::MASK_ADD, match_value: inst::MATCH_ADD, formatter: Formatter::RType }
    } else if k == 12 {
        FilterSpec { name: "slt"@, mask: inst::MASK_SLT, match_value: inst::MATCH_SLT, formatter: Formatter::RType }
    } else if k == 13 {
        FilterSpec { name: "sltu"@, mask: inst::MASK_SLTU, match_value: inst::MATCH_SLTU, formatter: Formatter::RType }
    } else if k == 14 {
        FilterSpec { name: "and"@, mask: inst::MASK_AND, match_value: inst::MATCH_AND, formatter: Formatter::RType }
    } else if k == 15 {
        FilterSpec { name: "or"@, mask: inst::MASK_OR, match_value: inst::MATCH_OR, formatter: Formatter::RType }
    } else if k == 16 {
        FilterSpec { name: "xor"@, mask: inst::MASK_XOR, match_value: inst::MATCH_XOR, formatter: Formatter::RType }
    } else if k == 17 {
        FilterSpec { name: "sll"@, mask: inst::MASK_SLL, match_value: inst::MATCH_SLL, formatter: Formatter::RType }
    } else if k == 18 {
        FilterSpec { name: "srl"@, mask: inst::MASK_SRL, match_value: inst::MATCH_SRL, formatter: Formatter::RType }
    } else if k == 19 {
        FilterSpec { name: "sub"@, mask: inst::MASK_SUB, match_value: inst::MATCH_SUB, formatter: Formatter::RType }
    } else if k == 20 {
        FilterSpec { name: "sra"@, mask: inst::MASK_SRA, match_value: inst::MATCH_SRA, formatter: Formatter::RType }
    } else if k == 21 {
        FilterSpec { name: "jal"@, mask: inst::MASK_JAL, match_value: inst::MATCH_JAL, formatter: Formatter::JType }
    } else if k == 22 {
        FilterSpec { name: "jalr"@, mask: inst::MASK_JALR, match_value: inst::MATCH_JALR, formatter: Formatter::IType }
    } else if k == 23 {
        FilterSpec { name: "beq"@, mask: inst::MASK_BEQ, match_value: inst::MATCH_BEQ, formatter: Formatter::BType }
    } else if k == 24 {
        FilterSpec { name: "bne"@, mask: inst::MASK_BNE, match_value: inst::MATCH_BNE, formatter: Formatter::BType }
    } else if k == 25 {
        FilterSpec { name: "blt"@, mask: inst::MASK_BLT, match_value: inst::MATCH_BLT, formatter: Formatter::BType }
    } else if k == 26 {
        FilterSpec { name: "bltu"@, mask: inst::MASK_BLTU, match_value: inst::MATCH_BLTU, formatter: Formatter::BType }
    } else if k == 27 {
        FilterSpec { name: "bge"@, mask: inst::MASK_BGE, match_value: inst::MATCH_BGE, formatter: Formatter::BType }
    } else if k == 28 {
        FilterSpec { name: "bgeu"@, mask: inst::MASK_BGEU, match_value: inst::MATCH_BGEU, formatter: Formatter::BType }
    } else if k == 29 {
        FilterSpec { name: "lb"@, mask: inst::MASK_LB, match_value: inst::MATCH_LB, formatter: Formatter::Load }
    } else if k == 30 {
        FilterSpec { name: "lbu"@, mask: inst::MASK_LBU, match_value: inst::MATCH_LBU, formatter: Formatter::Load }
    } else if k == 31 {
        FilterSpec { name: "lh"@, mask: inst::MASK_LH, match_value: inst::MATCH_LH, formatter: Formatter::Load }
    } else if k == 32 {
        FilterSpec { name: "lhu"@, mask: inst::MASK_LHU, match_value: inst::MATCH_LHU, formatter: Formatter::Load }
    } else if k == 33 {
        FilterSpec { name: "lw"@, mask: inst::MASK_LW, match_value: inst::MATCH_LW, formatter: Formatter::Load }
    } else if k == 34 {
        FilterSpec { name: "sb"@, mask: inst::MASK_SB, match_value: inst::MATCH_SB, formatter: Formatter::Store }
    } else if k == 35 {
        FilterSpec { name: "sh"@, mask: inst::MASK_SH, match_value: inst::MATCH_SH, formatter: Formatter::Store }
    } else if k == 36 {
        FilterSpec { name: "sw"@, mask: inst::MASK_SW, match_value: inst::MATCH_SW, formatter: Formatter::Store }
    } else if k == 37 {
        FilterSpec { name: "fence"@, mask: inst::MASK_FENCE, match_value: inst::MATCH_FENCE, formatter: Formatter::NoArgs }
    } else if k == 38 {
        FilterSpec { name: "fence.i"@, mask: inst::MASK_FENCE_I, match_value: inst::MATCH_FENCE_I, formatter: Formatter::NoArgs }
    } else if k == 39 {
        FilterSpec { name: "ecall"@, mask: inst::MASK_ECALL, match_value: inst::MATCH_ECALL, formatter: Formatter::NoArgs }
    } else if k == 40 {
        FilterSpec { name: "ebreak"@, mask: inst::MASK_EBREAK, match_value: inst::MATCH_EBREAK, formatter: Formatter::NoArgs }
    } else if k == 41 {
        FilterSpec { name: "wfi"@, mask: inst::MASK_WFI, match_value: inst::MATCH_WFI, formatter: Formatter::NoArgs }
    } else if k == 42 {
        FilterSpec { name: "mret"@, mask: inst::MASK_MRET, match_value: inst::MATCH_MRET, formatter: Formatter::NoArgs }
    } else if k == 43 {
        FilterSpec { name: "sret"@, mask: inst::MASK_SRET, match_value: inst::MATCH_SRET, formatter: Formatter::NoArgs }
    } else if k == 44 {
        FilterSpec { name: "uret"@, mask: inst::MASK_URET, match_value: inst::MATCH_URET, formatter: Formatter::NoArgs }
    } else if k == 45 {
        FilterSpec { name: "sfence.vma"@, mask: inst::MASK_SFENCE_VMA, match_value: inst::MATCH_SFENCE_VMA, formatter: Formatter::SfenceVma }
    } else if k == 46 {
        FilterSpec { name: "csrrw"@, mask: inst::MASK_CSRRW, match_value: inst::MATCH_CSRRW, formatter: Formatter::Csr }
    } else if k == 47 {
        FilterSpec { name: "csrrs"@, mask: inst::MASK_CSRRS, match_value: inst::MATCH_CSRRS, formatter: Formatter::Csr }
    } else if k == 48 {
        FilterSpec { name: "csrrc"@, mask: inst::MASK_CSRRC, match_value: inst::MATCH_CSRRC, formatter: Formatter::Csr }
    } else if k == 49 {
        FilterSpec { name: "csrrwi"@, mask: inst::MASK_CSRRWI, match_value: inst::MATCH_CSRRWI, formatter: Formatter::CsrImm }
    } else if k == 50 {
        FilterSpec { name: "csrrsi"@, mask: inst::MASK_CSRRSI, match_value: inst::MATCH_CSRRSI, formatter: Formatter::CsrImm }
    } else {
        FilterSpec { name: "csrrci"@, mask: inst::MASK_CSRRCI, match_value: inst::MATCH_CSRRCI, formatter: Formatter::CsrImm }
    }
}

/// In order, the base-ISA filters common to both word widths.
pub open spec fn spec_base_global_filters() -> Seq<FilterSpec> {
    Seq::new(52, |k: int| base_global_filter_at(k))
}

fn base_global_filter(k: usize) -> (r: InstructionFilter)
    requires
        k < 52,
    ensures
        r@ == base_global_filter_at(k as int),
{
    match k {
        0 => InstructionFilter::new("addi", inst::MASK_ADDI, inst::MATCH_ADDI, Formatter::IType),
        1 => InstructionFilter::new("slti", inst::MASK_SLTI, inst::MATCH_SLTI, Formatter::IType),
        2 => InstructionFilter::new("sltiu", inst::MASK_SLTIU, inst::MATCH_SLTIU, Formatter::IType),
        3 => InstructionFilter::new("ori", inst::MASK_ORI, inst::MATCH_ORI, Formatter::IType),
        4 => InstructionFilter::new("xori", inst::MASK_XORI, inst::MATCH_XORI, Formatter::IType),
        5 => InstructionFilter::new("andi", inst::MASK_ANDI, inst::MATCH_ANDI, Formatter::IType),
        6 => InstructionFilter::new("slli", inst::MASK_SLLI, inst::MATCH_SLLI, Formatter::ITypeShift),
        7 => InstructionFilter::new("srli", inst::MASK_SRLI, inst::MATCH_SRLI, Formatter::ITypeShift),
        8 => InstructionFilter::new("srai", inst::MASK_SRAI, inst::MATCH_SRAI, Formatter::ITypeShift),
        9 => InstructionFilter::new("lui", inst::MASK_LUI, inst::MATCH_LUI, Formatter::UType),
        10 => InstructionFilter::new("auipc", inst::MASK_AUIPC, inst::MATCH_AUIPC, Formatter::UType),
        11 => InstructionFilter::new("add", inst::MASK_ADD, inst::MATCH_ADD, Formatter::RType),
        12 => InstructionFilter::new("slt", inst::MASK_SLT, inst::MATCH_SLT, Formatter::RType),
        13 => InstructionFilter::new("sltu", inst::MASK_SLTU, inst::MATCH_SLTU, Formatter::RType),
        14 => InstructionFilter::new("and", inst::MASK_AND, inst::MATCH_AND, Formatter::RType),
        15 => InstructionFilter::new("or", inst::MASK_OR, inst::MATCH_OR, Formatter::RType),
        16 => InstructionFilter::new("xor", inst::MASK_XOR, inst::MATCH_XOR, Formatter::RType),
        17 => InstructionFilter::new("sll", inst::MASK_SLL, inst::MATCH_SLL, Formatter::RType),
        18 => InstructionFilter::new("srl", inst::MASK_SRL, inst::MATCH_SRL, Formatter::RType),
        19 => InstructionFilter::new("sub", inst::MASK_SUB, inst::MATCH_SUB, Formatter::RType),
        20 => InstructionFilter::new("sra", inst::MASK_SRA, inst::MATCH_SRA, Formatter::RType),
        21 => InstructionFilter::new("jal", inst::MASK_JAL, inst::MATCH_JAL, Formatter::JType),
        22 => InstructionFilter::new("jalr", inst::MASK_JALR, inst::MATCH_JALR, Formatter::IType),
        23 => InstructionFilter::new("beq", inst::MASK_BEQ, inst::MATCH_BEQ, Formatter::BType),
        24 => InstructionFilter::new("bne", inst::MASK_BNE, inst::MATCH_BNE, Formatter::BType),
        25 => InstructionFilter::new("blt", inst::MASK_BLT, inst::MATCH_BLT, Formatter::BType),
        26 => InstructionFilter::new("bltu", inst::MASK_BLTU, inst::MATCH_BLTU, Formatter::BType),
        27 => InstructionFilter::new("bge", inst::MASK_BGE, inst::MATCH_BGE, Formatter::BType),
        28 => InstructionFilter::new("bgeu", inst::MASK_BGEU, inst::MATCH_BGEU, Formatter::BType),
        29 => InstructionFilter::new("lb", inst::MASK_LB, inst::MATCH_LB, Formatter::Load),
        30 => InstructionFilter::new("lbu", inst::MASK_LBU, inst::MATCH_LBU, Formatter::Load),
        31 => InstructionFilter::new("lh", inst::MASK_LH, inst::MATCH_LH, Formatter::Load),
        32 => InstructionFilter::new("lhu", inst::MASK_LHU, inst::MATCH_LHU, Formatter::Load),
        33 => InstructionFilter::new("lw", inst::MASK_LW, inst::MATCH_LW, Formatter::Load),
        34 => InstructionFilter::new("sb", inst::MASK_SB, inst::MATCH_SB, Formatter::Store),
        35 => InstructionFilter::new("sh", inst::MASK_SH, inst::MATCH_SH, Formatter::Store),
        36 => InstructionFilter::new("sw", inst::MASK_SW, inst::MATCH_SW, Formatter::Store),
        37 => InstructionFilter::new("fence", inst::MASK_FENCE, inst::MATCH_FENCE, Formatter::NoArgs),
        38 => InstructionFilter::new("fence.i", inst::MASK_FENCE_I, inst::MATCH_FENCE_I, Formatter::NoArgs),
        39 => InstructionFilter::new("ecall", inst::MASK_ECALL, inst::MATCH_ECALL, Formatter::NoArgs),
        40 => InstructionFilter::new("ebreak", inst::MASK_EBREAK, inst::MATCH_EBREAK, Formatter::NoArgs),
        41 => InstructionFilter::new("wfi", inst::MASK_WFI, inst::MATCH_WFI, Formatter::NoArgs),
        42 => InstructionFilter::new("mret", inst::MASK_MRET, inst::MATCH_MRET, Formatter::NoArgs),
        43 => InstructionFilter::new("sret", inst::MASK_SRET, inst::MATCH_SRET, Formatter::NoArgs),
        44 => InstructionFilter::new("uret", inst::MASK_URET, inst::MATCH_URET, Formatter::NoArgs),
        45 => InstructionFilter::new("sfence.vma", inst::MASK_SFENCE_VMA, inst::MATCH_SFENCE_VMA, Formatter::SfenceVma),
        46 => InstructionFilter::new("csrrw", inst::MASK_CSRRW, inst::MATCH_CSRRW, Formatter::Csr),
        47 => InstructionFilter::new("csrrs", inst::MASK_CSRRS, inst::MATCH_CSRRS, Formatter::Csr),
        48 => InstructionFilter::new("csrrc", inst::MASK_CSRRC, inst::MATCH_CSRRC, Formatter::Csr),
        49 => InstructionFilter::new("csrrwi", inst::MASK_CSRRWI, inst::MATCH_CSRRWI, Formatter::CsrImm),
        50 => InstructionFilter::new("csrrsi", inst::MASK_CSRRSI, inst::MATCH_CSRRSI, Formatter::CsrImm),
        _ => InstructionFilter::new("csrrci", inst::MASK_CSRRCI, inst::MATCH_CSRRCI, Formatter::CsrImm),
    }
}

fn push_base_global_filters(v: &mut Vec<InstructionFilter>)
    ensures
        final(v)@.map_values(|f: InstructionFilter| f@) == old(v)@.map_values(|f: InstructionFilter| f@) + spec_base_global_filters(),
{
    let ghost base = v@.map_values(|f: InstructionFilter| f@);
    let ghost n0 = v@.len();
    let mut k: usize = 0;
    while k < 52
        invariant
            k <= 52,
            v@.len() == n0 + k,
            base == old(v)@.map_values(|f: InstructionFilter| f@),
            base.len() == n0,
            v@.map_values(|f: InstructionFilter| f@) =~= base + Seq::new(k as nat, |i: int| base_global_filter_at(i)),
        decreases 52 - k,
    {
        let ghost prev = v@;
        let fl = base_global_filter(k);
        v.push(fl);
        proof {
            prev.lemma_push_map_commute(|f: InstructionFilter| f@, fl);
            assert(v@.map_values(|f: InstructionFilter| f@) =~= base + Seq::new((k + 1) as nat, |j: int| base_global_filter_at(j)));
        }
        k = k + 1;
    }
    proof {
        assert(v@.map_values(|f: InstructionFilter| f@) =~= old(v)@.map_values(|f: InstructionFilter| f@) + spec_base_global_filters());
    }
}

/// Entry `k` of the M-extension filters.
pub open spec fn m_ext_filter_at(k: int) -> FilterSpec {
    if k == 0 {
        FilterSpec { name: "mul"@, mask: inst::MASK_MUL, match_value: inst::MATCH_MUL, formatter: Formatter::RType }
    } else if k == 1 {
        FilterSpec { name: "mulh"@, mask: inst::MASK_MULH, match_value: inst::MATCH_MULH, formatter: Formatter::RType }
    } else if k == 2 {
        FilterSpec { name: "mulhu"@, mask: inst::MASK_MULHU, match_value: inst::MATCH_MULHU, formatter: Formatter::RType }
    } else if k == 3 {
        FilterSpec { name: "mulhsu"@, mask: inst::MASK_MULHSU, match_value: inst::MATCH_MULHSU, formatter: Formatter::RType }
    } else if k == 4 {
        FilterSpec { name: "mulw"@, mask: inst::MASK_MULW, match_value: inst::MATCH_MULW, formatter: Formatter::RType }
    } else if k == 5 {
        FilterSpec { name: "div"@, mask: inst::MASK_DIV, match_value: inst::MATCH_DIV, formatter: Formatter::RType }
    } else if k == 6 {
        FilterSpec { name: "divu"@, mask: inst::MASK_DIVU, match_value: inst::MATCH_DIVU, formatter: Formatter::RType }
    } else if k == 7 {
        FilterSpec { name: "rem"@, mask: inst::MASK_REM, match_value: inst::MATCH_REM, formatter: Formatter::RType }
    } else if k == 8 {
        FilterSpec { name: "remu"@, mask: inst::MASK_REMU, match_value: inst::MATCH_REMU, formatter: Formatter::RType }
    } else if k == 9 {
        FilterSpec { name: "divw"@, mask: inst::MASK_DIVW, match_value: inst::MATCH_DIVW, formatter: Formatter::RType }
    } else if k == 10 {
        FilterSpec { name: "divuw"@, mask: inst::MASK_DIVUW, match_value: inst::MATCH_DIVUW, formatter: Formatter::RType }
    } else if k == 11 {
        FilterSpec { name: "remw"@, mask: inst::MASK_REMW, match_value: inst::MATCH_REMW, formatter: Formatter::RType }
    } else {
        FilterSpec { name: "remuw"@, mask: inst::MASK_REMUW, match_value: inst::MATCH_REMUW, formatter: Formatter::RType }
    }
}

/// In order, the M-extension filters.
pub open spec fn spec_m_ext_filters() -> Seq<FilterSpec> {
    Seq::new(13, |k: int| m_ext_filter_at(k))
}

fn m_ext_filter(k: usize) -> (r: InstructionFilter)
    requires
        k < 13,
    ensures
        r@ == m_ext_filter_at(k as int),
{
    match k {
        0 => InstructionFilter::new("mul", inst::MASK_MUL, inst::MATCH_MUL, Formatter::RType),
        1 => InstructionFilter::new("mulh", inst::MASK_MULH, inst::MATCH_MULH, Formatter::RType),
        2 => InstructionFilter::new("mulhu", inst::MASK_MULHU, inst::MATCH_MULHU, Formatter::RType),
        3 => InstructionFilter::new("mulhsu", inst::MASK_MULHSU, inst::MATCH_MULHSU, Formatter::RType),
        4 => InstructionFilter::new("mulw", inst::MASK_MULW, inst::MATCH_MULW, Formatter::RType),
        5 => InstructionFilter::new("div", inst::MASK_DIV, inst::MATCH_DIV, Formatter::RType),
        6 => InstructionFilter::new("divu", inst::MASK_DIVU, inst::MATCH_DIVU, Formatter::RType),
        7 => InstructionFilter::new("rem", inst::MASK_REM, inst::MATCH_REM, Formatter::RType),
        8 => InstructionFilter::new("remu", inst::MASK_REMU, inst::MATCH_REMU, Formatter::RType),
        9 => InstructionFilter::new("divw", inst::MASK_DIVW, inst::MATCH_DIVW, Formatter::RType),
        10 => InstructionFilter::new("divuw", inst::MASK_DIVUW, inst::MATCH_DIVUW, Formatter::RType),
        11 => InstructionFilter::new("remw", inst::MASK_REMW, inst::MATCH_REMW, Formatter::RType),
        _ => InstructionFilter::new("remuw", inst::MASK_REMUW, inst::MATCH_REMUW, Formatter::RType),
    }
}

fn push_m_ext_filters(v: &mut Vec<InstructionFilter>)
    ensures
        final(v)@.map_values(|f: InstructionFilter| f@) == old(v)@.map_values(|f: InstructionFilter| f@) + spec_m_ext_filters(),
{
    let ghost base = v@.map_values(|f: InstructionFilter| f@);
    let ghost n0 = v@.len();
    let mut k: usize = 0;
    while k < 13
        invariant
            k <= 13,
            v@.len() == n0 + k,
            base == old(v)@.map_values(|f: InstructionFilter| f@),
            base.len() == n0,
            v@.map_values(|f: InstructionFilter| f@) =~= base + Seq::new(k as nat, |i: int| m_ext_filter_at(i)),
        decreases 13 - k,
    {
        let ghost prev = v@;
        let fl = m_ext_filter(k);
        v.push(fl);
        proof {
            prev.lemma_push_map_commute(|f: InstructionFilter| f@, fl);
            assert(v@.map_values(|f: InstructionFilter| f@) =~= base + Seq::new((k + 1) as nat, |j: int| m_ext_filter_at(j)));
        }
        k = k + 1;
    }
    proof {
        assert(v@.map_values(|f: InstructionFilter| f@) =~= old(v)@.map_values(|f: InstructionFilter| f@) + spec_m_ext_filters());
    }
}

/// Entry `k` of the A-extension filters.
pub open spec fn a_ext_filter_at(k: int) -> FilterSpec {
    if k == 0 {
        FilterSpec { name: "lr.w"@, mask: inst::MASK_LR_W, match_value: inst::MATCH_LR_W, formatter: Formatter::AmoLr }
    } else if k == 1 {
        FilterSpec { name: "sc.w"@, mask: inst::MASK_SC_W, match_value: inst::MATCH_SC_W, formatter: Formatter::Amo }
    } else if k == 2 {
        FilterSpec { name: "lr.d"@, mask: inst::MASK_LR_D, match_value: inst::MATCH_LR_D, formatter: Formatter::AmoLr }
    } else if k == 3 {
        FilterSpec { name: "sc.d"@, mask: inst::MASK_SC_D, match_value: inst::MATCH_SC_D, formatter: Formatter::Amo }
    } else if k == 4 {
        FilterSpec { name: "amoswap.w"@, mask: inst::MASK_AMOSWAP_W, match_value: inst::MATCH_AMOSWAP_W, formatter: Formatter::Amo }
    } else if k == 5 {
        FilterSpec { name: "amoswap.d"@, mask: inst::MASK_AMOSWAP_D, match_value: inst::MATCH_AMOSWAP_D, formatter: Formatter::Amo }
    } else if k == 6 {
        FilterSpec { name: "amoadd.w"@, mask: inst::MASK_AMOADD_W, match_value: inst::MATCH_AMOADD_W, formatter: Formatter::Amo }
    } else if k == 7 {
        FilterSpec { name: "amoadd.d"@, mask: inst::MASK_AMOADD_D, match_value: inst::MATCH_AMOADD_D, formatter: Formatter::Amo }
    } else if k == 8 {
        FilterSpec { name: "amoand.w"@, mask: inst::MASK_AMOAND_W, match_value: inst::MATCH_AMOAND_W, formatter: Formatter::Amo }
    } else if k == 9 {
        FilterSpec { name: "amoand.d"@, mask: inst::MASK_AMOAND_D, match_value: inst::MATCH_AMOAND_D, formatter: Formatter::Amo }
    } else if k == 10 {
        FilterSpec { name: "amoor.w"@, mask: inst::MASK_AMOOR_W, match_value: inst::MATCH_AMOOR_W, formatter: Formatter::Amo }
    } else if k == 11 {
        FilterSpec { name: "amoor.d"@, mask: inst::MASK_AMOOR_D, match_value: inst::MATCH_AMOOR_D, formatter: Formatter::Amo }
    } else if k == 12 {
        FilterSpec { name: "amoxor.w"@, mask: inst::MASK_AMOXOR_W, match_value: inst::MATCH_AMOXOR_W, formatter: Formatter::Amo }
    } else if k == 13 {
        FilterSpec { name: "amoxor.d"@, mask: inst::MASK_AMOXOR_D, match_value: inst::MATCH_AMOXOR_D, formatter: Formatter::Amo }
    } else if k == 14 {
        FilterSpec { name: "amomax.w"@, mask: inst::MASK_AMOMAX_W, match_value: inst::MATCH_AMOMAX_W, formatter: Formatter::Amo }
    } else if k == 15 {
        FilterSpec { name: "amomax.d"@, mask: inst::MASK_AMOMAX_D, match_value: inst::MATCH_AMOMAX_D, formatter: Formatter::Amo }
    } else if k == 16 {
        FilterSpec { name: "amomaxu.w"@, mask: inst::MASK_AMOMAXU_W, match_value: inst::MATCH_AMOMAXU_W, formatter: Formatter::Amo }
    } else if k == 17 {
        FilterSpec { name: "amomaxu.d"@, mask: inst::MASK_AMOMAXU_D, match_value: inst::MATCH_AMOMAXU_D, formatter: Formatter::Amo }
    } else if k == 18 {
        FilterSpec { name: "amomin.w"@, mask: inst::MASK_AMOMIN_W, match_value: inst::MATCH_AMOMIN_W, formatter: Formatter::Amo }
    } else if k == 19 {
        FilterSpec { name: "amomin.d"@, mask: inst::MASK_AMOMIN_D, match_value: inst::MATCH_AMOMIN_D, formatter: Formatter::Amo }
    } else if k == 20 {
        FilterSpec { name: "amominu.w"@, mask: inst::MASK_AMOMINU_W, match_value: inst::MATCH_AMOMINU_W, formatter: Formatter::Amo }
    } else {
        FilterSpec { name: "amominu.d"@, mask: inst::MASK_AMOMINU_D, match_value: inst::MATCH_AMOMINU_D, formatter: Formatter::Amo }
    }
}

/// In order, the A-extension filters.
pub open spec fn spec_a_ext_filters() -> Seq<FilterSpec> {
    Seq::new(22, |k: int| a_ext_filter_at(k))
}

fn a_ext_filter(k: usize) -> (r: InstructionFilter)
    requires
        k < 22,
    ensures
        r@ == a_ext_filter_at(k as int),
{
    match k {
        0 => InstructionFilter::new("lr.w", inst::MASK_LR_W, inst::MATCH_LR_W, Formatter::AmoLr),
        1 => InstructionFilter::new("sc.w", inst::MASK_SC_W, inst::MATCH_SC_W, Formatter::Amo),
        2 => InstructionFilter::new("lr.d", inst::MASK_LR_D, inst::MATCH_LR_D, Formatter::AmoLr),
        3 => InstructionFilter::new("sc.d", inst::MASK_SC_D, inst::MATCH_SC_D, Formatter::Amo),
        4 => InstructionFilter::new("amoswap.w", inst::MASK_AMOSWAP_W, inst::MATCH_AMOSWAP_W, Formatter::Amo),
        5 => InstructionFilter::new("amoswap.d", inst::MASK_AMOSWAP_D, inst::MATCH_AMOSWAP_D, Formatter::Amo),
        6 => InstructionFilter::new("amoadd.w", inst::MASK_AMOADD_W, inst::MATCH_AMOADD_W, Formatter::Amo),
        7 => InstructionFilter::new("amoadd.d", inst::MASK_AMOADD_D, inst::MATCH_AMOADD_D, Formatter::Amo),
        8 => InstructionFilter::new("amoand.w", inst::MASK_AMOAND_W, inst::MATCH_AMOAND_W, Formatter::Amo),
        9 => InstructionFilter::new("amoand.d", inst::MASK_AMOAND_D, inst::MATCH_AMOAND_D, Formatter::Amo),
        10 => InstructionFilter::new("amoor.w", inst::MASK_AMOOR_W, inst::MATCH_AMOOR_W, Formatter::Amo),
        11 => InstructionFilter::new("amoor.d", inst::MASK_AMOOR_D, inst::MATCH_AMOOR_D, Formatter::Amo),
        12 => InstructionFilter::new("amoxor.w", inst::MASK_AMOXOR_W, inst::MATCH_AMOXOR_W, Formatter::Amo),
        13 => InstructionFilter::new("amoxor.d", inst::MASK_AMOXOR_D, inst::MATCH_AMOXOR_D, Formatter::Amo),
        14 => InstructionFilter::new("amomax.w", inst::MASK_AMOMAX_W, inst::MATCH_AMOMAX_W, Formatter::Amo),
        15 => InstructionFilter::new("amomax.d", inst::MASK_AMOMAX_D, inst::MATCH_AMOMAX_D, Formatter::Amo),
        16 => InstructionFilter::new("amomaxu.w", inst::MASK_AMOMAXU_W, inst::MATCH_AMOMAXU_W, Formatter::Amo),
        17 => InstructionFilter::new("amomaxu.d", inst::MASK_AMOMAXU_D, inst::MATCH_AMOMAXU_D, Formatter::Amo),
        18 => InstructionFilter::new("amomin.w", inst::MASK_AMOMIN_W, inst::MATCH_AMOMIN_W, Formatter::Amo),
        19 => InstructionFilter::new("amomin.d", inst::MASK_AMOMIN_D, inst::MATCH_AMOMIN_D, Formatter::Amo),
        20 => InstructionFilter::new("amominu.w", inst::MASK_AMOMINU_W, inst::MATCH_AMOMINU_W, Formatter::Amo),
        _ => InstructionFilter::new("amominu.d", inst::MASK_AMOMINU_D, inst::MATCH_AMOMINU_D, Formatter::Amo),
    }
}

fn push_a_ext_filters(v: &mut Vec<InstructionFilter>)
    ensures
        final(v)@.map_values(|f: InstructionFilter| f@) == old(v)@.map_values(|f: InstructionFilter| f@) + spec_a_ext_filters(),
{
    let ghost base = v@.map_values(|f: InstructionFilter| f@);
    let ghost n0 = v@.len();
    let mut k: usize = 0;
    while k < 22
        invariant
            k <= 22,
            v@.len() == n0 + k,
            base == old(v)@.map_values(|f: InstructionFilter| f@),
            base.len() == n0,
            v@.map_values(|f: InstructionFilter| f@) =~= base + Seq::new(k as nat, |i: int| a_ext_filter_at(i)),
        decreases 22 - k,
    {
        let ghost prev = v@;
        let fl = a_ext_filter(k);
        v.push(fl);
        proof {
            prev.lemma_push_map_commute(|f: InstructionFilter| f@, fl);
            assert(v@.map_values(|f: InstructionFilter| f@) =~= base + Seq::new((k + 1) as nat, |j: int| a_ext_filter_at(j)));
        }
        k = k + 1;
    }
    proof {
        assert(v@.map_values(|f: InstructionFilter| f@) =~= old(v)@.map_values(|f: InstructionFilter| f@) + spec_a_ext_filters());
    }
}

/// Entry `k` of the F-extension filters.
pub open spec fn f_ext_filter_at(k: int) -> FilterSpec {
    if k == 0 {
        FilterSpec { name: "flw"@, mask: inst::MASK_FLW, match_value: inst::MATCH_FLW, formatter: Formatter::FpLoad }
    } else if k == 1 {
        FilterSpec { name: "fsw"@, mask: inst::MASK_FSW, match_value: inst::MATCH_FSW, formatter: Formatter::FpStore }
    } else if k == 2 {
        FilterSpec { name: "fadd.s"@, mask: inst::MASK_FADD_S, match_value: inst::MATCH_FADD_S, formatter: Formatter::FpRType }
    } else if k == 3 {
        FilterSpec { name: "fsub.s"@, mask: inst::MASK_FSUB_S, match_value: inst::MATCH_FSUB_S, formatter: Formatter::FpRType }
    } else if k == 4 {
        FilterSpec { name: "fmul.s"@, mask: inst::MASK_FMUL_S, match_value: inst::MATCH_FMUL_S, formatter: Formatter::FpRType }
    } else if k == 5 {
        FilterSpec { name: "fdiv.s"@, mask: inst::MASK_FDIV_S, match_value: inst::MATCH_FDIV_S, formatter: Formatter::FpRType }
    } else if k == 6 {
        FilterSpec { name: "fsqrt.s"@, mask: inst::MASK_FSQRT_S, match_value: inst::MATCH_FSQRT_S, formatter: Formatter::FpRTypeNoRs2 }
    } else if k == 7 {
        FilterSpec { name: "fmin.s"@, mask: inst::MASK_FMIN_S, match_value: inst::MATCH_FMIN_S, formatter: Formatter::FpRType }
    } else if k == 8 {
        FilterSpec { name: "fmax.s"@, mask: inst::MASK_FMAX_S, match_value: inst::MATCH_FMAX_S, formatter: Formatter::FpRType }
    } else if k == 9 {
        FilterSpec { name: "fmadd.s"@, mask: inst::MASK_FMADD_S, match_value: inst::MATCH_FMADD_S, formatter: Formatter::FpRTypeWithRs3 }
    } else if k == 10 {
        FilterSpec { name: "fnmadd.s"@, mask: inst::MASK_FNMADD_S, match_value: inst::MATCH_FNMADD_S, formatter: Formatter::FpRTypeWithRs3 }
    } else if k == 11 {
        FilterSpec { name: "fmsub.s"@, mask: inst::MASK_FMSUB_S, match_value: inst::MATCH_FMSUB_S, formatter: Formatter::FpRTypeWithRs3 }
    } else if k == 12 {
        FilterSpec { name: "fnmsub.s"@, mask: inst::MASK_FNMSUB_S, match_value: inst::MATCH_FNMSUB_S, formatter: Formatter::FpRTypeWithRs3 }
    } else if k == 13 {
        FilterSpec { name: "fcvt.s.w"@, mask: inst::MASK_FCVT_S_W, match_value: inst::MATCH_FCVT_S_W, formatter: Formatter::FpRTypeFromInt }
    } else if k == 14 {
        FilterSpec { name: "fcvt.s.l"@, mask: inst::MASK_FCVT_S_L, match_value: inst::MATCH_FCVT_S_L, formatter: Formatter::FpRTypeFromInt }
    } else if k == 15 {
        FilterSpec { name: "fcvt.s.wu"@, mask: inst::MASK_FCVT_S_WU, match_value: inst::MATCH_FCVT_S_WU, formatter: Formatter::FpRTypeFromInt }
    } else if k == 16 {
        FilterSpec { name: "fcvt.s.lu"@, mask: inst::MASK_FCVT_S_LU, match_value: inst::MATCH_FCVT_S_LU, formatter: Formatter::FpRTypeFromInt }
    } else if k == 17 {
        FilterSpec { name: "fcvt.w.s"@, mask: inst::MASK_FCVT_W_S, match_value: inst::MATCH_FCVT_W_S, formatter: Formatter::FpRTypeToInt }
    } else if k == 18 {
        FilterSpec { name: "fcvt.l.s"@, mask: inst::MASK_FCVT_L_S, match_value: inst::MATCH_FCVT_L_S, formatter: Formatter::FpRTypeToInt }
    } else if k == 19 {
        FilterSpec { name: "fcvt.wu.s"@, mask: inst::MASK_FCVT_WU_S, match_value: inst::MATCH_FCVT_WU_S, formatter: Formatter::FpRTypeToInt }
    } else if k == 20 {
        FilterSpec { name: "fcvt.lu.s"@, mask: inst::MASK_FCVT_LU_S, match_value: inst::MATCH_FCVT_LU_S, formatter: Formatter::FpRTypeToInt }
    } else if k == 21 {
        FilterSpec { name: "fsgnj.s"@, mask: inst::MASK_FSGNJ_S, match_value: inst::MATCH_FSGNJ_S, formatter: Formatter::FpRType }
    } else if k == 22 {
        FilterSpec { name: "fsgnjn.s"@, mask: inst::MASK_FSGNJN_S, match_value: inst::MATCH_FSGNJN_S, formatter: Formatter::FpRType }
    } else if k == 23 {
        FilterSpec { name: "fsgnjx.s"@, mask: inst::MASK_FSGNJX_S, match_value: inst::MATCH_FSGNJX_S, formatter: Formatter::FpRType }
    } else if k == 24 {
        FilterSpec { name: "fmv.w.x"@, mask: inst::MASK_FMV_W_X, match_value: inst::MATCH_FMV_W_X, formatter: Formatter::FpRTypeFromInt }
    } else if k == 25 {
        FilterSpec { name: "fmv.x.w"@, mask: inst::MASK_FMV_X_W, match_value: inst::MATCH_FMV_X_W, formatter: Formatter::FpRTypeToInt }
    } else if k == 26 {
        FilterSpec { name: "feq.s"@, mask: inst::MASK_FEQ_S, match_value: inst::MATCH_FEQ_S, formatter: Formatter::FpRTypeIntRd }
    } else if k == 27 {
        FilterSpec { name: "flt.s"@, mask: inst::MASK_FLT_S, match_value: inst::MATCH_FLT_S, formatter: Formatter::FpRTypeIntRd }
    } else if k == 28 {
        FilterSpec { name: "fle.s"@, mask: inst::MASK_FLE_S, match_value: inst::MATCH_FLE_S, formatter: Formatter::FpRTypeIntRd }
    } else {
        FilterSpec { name: "fclass.s"@, mask: inst::MASK_FCLASS_S, match_value: inst::MATCH_FCLASS_S, formatter: Formatter::FpRTypeToInt }
    }
}

/// In order, the F-extension filters.
pub open spec fn spec_f_ext_filters() -> Seq<FilterSpec> {
    Seq::new(30, |k: int| f_ext_filter_at(k))
}

fn f_ext_filter(k: usize) -> (r: InstructionFilter)
    requires
        k < 30,
    ensures
        r@ == f_ext_filter_at(k as int),
{
    match k {
        0 => InstructionFilter::new("flw", inst::MASK_FLW, inst::MATCH_FLW, Formatter::FpLoad),
        1 => InstructionFilter::new("fsw", inst::MASK_FSW, inst::MATCH_FSW, Formatter::FpStore),
        2 => InstructionFilter::new("fadd.s", inst::MASK_FADD_S, inst::MATCH_FADD_S, Formatter::FpRType),
        3 => InstructionFilter::new("fsub.s", inst::MASK_FSUB_S, inst::MATCH_FSUB_S, Formatter::FpRType),
        4 => InstructionFilter::new("fmul.s", inst::MASK_FMUL_S, inst::MATCH_FMUL_S, Formatter::FpRType),
        5 => InstructionFilter::new("fdiv.s", inst::MASK_FDIV_S, inst::MATCH_FDIV_S, Formatter::FpRType),
        6 => InstructionFilter::new("fsqrt.s", inst::MASK_FSQRT_S, inst::MATCH_FSQRT_S, Formatter::FpRTypeNoRs2),
        7 => InstructionFilter::new("fmin.s", inst::MASK_FMIN_S, inst::MATCH_FMIN_S, Formatter::FpRType),
        8 => InstructionFilter::new("fmax.s", inst::MASK_FMAX_S, inst::MATCH_FMAX_S, Formatter::FpRType),
        9 => InstructionFilter::new("fmadd.s", inst::MASK_FMADD_S, inst::MATCH_FMADD_S, Formatter::FpRTypeWithRs3),
        10 => InstructionFilter::new("fnmadd.s", inst::MASK_FNMADD_S, inst::MATCH_FNMADD_S, Formatter::FpRTypeWithRs3),
        11 => InstructionFilter::new("fmsub.s", inst::MASK_FMSUB_S, inst::MATCH_FMSUB_S, Formatter::FpRTypeWithRs3),
        12 => InstructionFilter::new("fnmsub.s", inst::MASK_FNMSUB_S, inst::MATCH_FNMSUB_S, Formatter::FpRTypeWithRs3),
        13 => InstructionFilter::new("fcvt.s.w", inst::MASK_FCVT_S_W, inst::MATCH_FCVT_S_W, Formatter::FpRTypeFromInt),
        14 => InstructionFilter::new("fcvt.s.l", inst::MASK_FCVT_S_L, inst::MATCH_FCVT_S_L, Formatter::FpRTypeFromInt),
        15 => InstructionFilter::new("fcvt.s.wu", inst::MASK_FCVT_S_WU, inst::MATCH_FCVT_S_WU, Formatter::FpRTypeFromInt),
        16 => InstructionFilter::new("fcvt.s.lu", inst::MASK_FCVT_S_LU, inst::MATCH_FCVT_S_LU, Formatter::FpRTypeFromInt),
        17 => InstructionFilter::new("fcvt.w.s", inst::MASK_FCVT_W_S, inst::MATCH_FCVT_W_S, Formatter::FpRTypeToInt),
        18 => InstructionFilter::new("fcvt.l.s", inst::MASK_FCVT_L_S, inst::MATCH_FCVT_L_S, Formatter::FpRTypeToInt),
        19 => InstructionFilter::new("fcvt.wu.s", inst::MASK_FCVT_WU_S, inst::MATCH_FCVT_WU_S, Formatter::FpRTypeToInt),
        20 => InstructionFilter::new("fcvt.lu.s", inst::MASK_FCVT_LU_S, inst::MATCH_FCVT_LU_S, Formatter::FpRTypeToInt),
        21 => InstructionFilter::new("fsgnj.s", inst::MASK_FSGNJ_S, inst::MATCH_FSGNJ_S, Formatter::FpRType),
        22 => InstructionFilter::new("fsgnjn.s", inst::MASK_FSGNJN_S, inst::MATCH_FSGNJN_S, Formatter::FpRType),
        23 => InstructionFilter::new("fsgnjx.s", inst::MASK_FSGNJX_S, inst::MATCH_FSGNJX_S, Formatter::FpRType),
        24 => InstructionFilter::new("fmv.w.x", inst::MASK_FMV_W_X, inst::MATCH_FMV_W_X, Formatter::FpRTypeFromInt),
        25 => InstructionFilter::new("fmv.x.w", inst::MASK_FMV_X_W, inst::MATCH_FMV_X_W, Formatter::FpRTypeToInt),
        26 => InstructionFilter::new("feq.s", inst::MASK_FEQ_S, inst::MATCH_FEQ_S, Formatter::FpRTypeIntRd),
        27 => InstructionFilter::new("flt.s", inst::MASK_FLT_S, inst::MATCH_FLT_S, Formatter::FpRTypeIntRd),
        28 => InstructionFilter::new("fle.s", inst::MASK_FLE_S, inst::MATCH_FLE_S, Formatter::FpRTypeIntRd),
        _ => InstructionFilter::new("fclass.s", inst::MASK_FCLASS_S, inst::MATCH_FCLASS_S, Formatter::FpRTypeToInt),
    }
}

fn push_f_ext_filters(v: &mut Vec<InstructionFilter>)
    ensures
        final(v)@.map_values(|f: InstructionFilter| f@) == old(v)@.map_values(|f: InstructionFilter| f@) + spec_f_ext_filters(),
{
    let ghost base = v@.map_values(|f: InstructionFilter| f@);
    let ghost n0 = v@.len();
    let mut k: usize = 0;
    while k < 30
        invariant
            k <= 30,
            v@.len() == n0 + k,
            base == old(v)@.map_values(|f: InstructionFilter| f@),
            base.len() == n0,
            v@.map_values(|f: InstructionFilter| f@) =~= base + Seq::new(k as nat, |i: int| f_ext_filter_at(i)),
        decreases 30 - k,
    {
        let ghost prev = v@;
        let fl = f_ext_filter(k);
        v.push(fl);
        proof {
            prev.lemma_push_map_commute(|f: InstructionFilter| f@, fl);
            assert(v@.map_values(|f: InstructionFilter| f@) =~= base + Seq::new((k + 1) as nat, |j: int| f_ext_filter_at(j)));
        }
        k = k + 1;
    }
    proof {
        assert(v@.map_values(|f: InstructionFilter| f@) =~= old(v)@.map_values(|f: InstructionFilter| f@) + spec_f_ext_filters());
    }
}

/// Entry `k` of the D-extension filters.
pub open spec fn d_ext_filter_at(k: int) -> FilterSpec {
    if k == 0 {
        FilterSpec { name: "fld"@, mask: inst::MASK_FLD, match_value: inst::MATCH_FLD, formatter: Formatter::FpLoad }
    } else if k == 1 {
        FilterSpec { name: "fsd"@, mask: inst::MASK_FSD, match_value: inst::MATCH_FSD, formatter: Formatter::FpStore }
    } else if k == 2 {
        FilterSpec { name: "fadd.d"@, mask: inst::MASK_FADD_D, match_value: inst::MATCH_FADD_D, formatter: Formatter::FpRType }
    } else if k == 3 {
        FilterSpec { name: "fsub.d"@, mask: inst::MASK_FSUB_D, match_value: inst::MATCH_FSUB_D, formatter: Formatter::FpRType }
    } else if k == 4 {
        FilterSpec { name: "fmul.d"@, mask: inst::MASK_FMUL_D, match_value: inst::MATCH_FMUL_D, formatter: Formatter::FpRType }
    } else if k == 5 {
        FilterSpec { name: "fdiv.d"@, mask: inst::MASK_FDIV_D, match_value: inst::MATCH_FDIV_D, formatter: Formatter::FpRType }
    } else if k == 6 {
        FilterSpec { name: "fsqrt.d"@, mask: inst::MASK_FSQRT_D, match_value: inst::MATCH_FSQRT_D, formatter: Formatter::FpRTypeNoRs2 }
    } else if k == 7 {
        FilterSpec { name: "fmin.d"@, mask: inst::MASK_FMIN_D, match_value: inst::MATCH_FMIN_D, formatter: Formatter::FpRType }
    } else if k == 8 {
        FilterSpec { name: "fmax.d"@, mask: inst::MASK_FMAX_D, match_value: inst::MATCH_FMAX_D, formatter: Formatter::FpRType }
    } else if k == 9 {
        FilterSpec { name: "fmadd.d"@, mask: inst::MASK_FMADD_D, match_value: inst::MATCH_FMADD_D, formatter: Formatter::FpRTypeWithRs3 }
    } else if k == 10 {
        FilterSpec { name: "fnmadd.d"@, mask: inst::MASK_FNMADD_D, match_value: inst::MATCH_FNMADD_D, formatter: Formatter::FpRTypeWithRs3 }
    } else if k == 11 {
        FilterSpec { name: "fmsub.d"@, mask: inst::MASK_FMSUB_D, match_value: inst::MATCH_FMSUB_D, formatter: Formatter::FpRTypeWithRs3 }
    } else if k == 12 {
        FilterSpec { name: "fnmsub.d"@, mask: inst::MASK_FNMSUB_D, match_value: inst::MATCH_FNMSUB_D, formatter: Formatter::FpRTypeWithRs3 }
    } else if k == 13 {
        FilterSpec { name: "fcvt.d.w"@, mask: inst::MASK_FCVT_D_W, match_value: inst::MATCH_FCVT_D_W, formatter: Formatter::FpRTypeFromInt }
    } else if k == 14 {
        FilterSpec { name: "fcvt.d.l"@, mask: inst::MASK_FCVT_D_L, match_value: inst::MATCH_FCVT_D_L, formatter: Formatter::FpRTypeFromInt }
    } else if k == 15 {
        FilterSpec { name: "fcvt.d.wu"@, mask: inst::MASK_FCVT_D_WU, match_value: inst::MATCH_FCVT_D_WU, formatter: Formatter::FpRTypeFromInt }
    } else if k == 16 {
        FilterSpec { name: "fcvt.d.lu"@, mask: inst::MASK_FCVT_D_LU, match_value: inst::MATCH_FCVT_D_LU, formatter: Formatter::FpRTypeFromInt }
    } else if k == 17 {
        FilterSpec { name: "fcvt.w.d"@, mask: inst::MASK_FCVT_W_D, match_value: inst::MATCH_FCVT_W_D, formatter: Formatter::FpRTypeToInt }
    } else if k == 18 {
        FilterSpec { name: "fcvt.l.d"@, mask: inst::MASK_FCVT_L_D, match_value: inst::MATCH_FCVT_L_D, formatter: Formatter::FpRTypeToInt }
    } else if k == 19 {
        FilterSpec { name: "fcvt.wu.d"@, mask: inst::MASK_FCVT_WU_D, match_value: inst::MATCH_FCVT_WU_D, formatter: Formatter::FpRTypeToInt }
    } else if k == 20 {
        FilterSpec { name: "fcvt.lu.d"@, mask: inst::MASK_FCVT_LU_D, match_value: inst::MATCH_FCVT_LU_D, formatter: Formatter::FpRTypeToInt }
    } else if k == 21 {
        FilterSpec { name: "fcvt.s.d"@, mask: inst::MASK_FCVT_S_D, match_value: inst::MATCH_FCVT_S_D, formatter: Formatter::FpRTypeNoRs2 }
    } else if k == 22 {
        FilterSpec { name: "fcvt.d.s"@, mask: inst::MASK_FCVT_D_S, match_value: inst::MATCH_FCVT_D_S, formatter: Formatter::FpRTypeNoRs2 }
    } else if k == 23 {
        FilterSpec { name: "fsgnj.d"@, mask: inst::MASK_FSGNJ_D, match_value: inst::MATCH_FSGNJ_D, formatter: Formatter::FpRType }
    } else if k == 24 {
        FilterSpec { name: "fsgnjn.d"@, mask: inst::MASK_FSGNJN_D, match_value: inst::MATCH_FSGNJN_D, formatter: Formatter::FpRType }
    } else if k == 25 {
        FilterSpec { name: "fsgnjx.d"@, mask: inst::MASK_FSGNJX_D, match_value: inst::MATCH_FSGNJX_D, formatter: Formatter::FpRType }
    } else if k == 26 {
        FilterSpec { name: "fmv.x.d"@, mask: inst::MASK_FMV_X_D, match_value: inst::MATCH_FMV_X_D, formatter: Formatter::FpRTypeToInt }
    } else if k == 27 {
        FilterSpec { name: "fmv.d.x"@, mask: inst::MASK_FMV_D_X, match_value: inst::MATCH_FMV_D_X, formatter: Formatter::FpRTypeFromInt }
    } else if k == 28 {
        FilterSpec { name: "feq.d"@, mask: inst::MASK_FEQ_D, match_value: inst::MATCH_FEQ_D, formatter: Formatter::FpRTypeIntRd }
    } else if k == 29 {
        FilterSpec { name: "flt.d"@, mask: inst::MASK_FLT_D, match_value: inst::MATCH_FLT_D, formatter: Formatter::FpRTypeIntRd }
    } else if k == 30 {
        FilterSpec { name: "fle.d"@, mask: inst::MASK_FLE_D, match_value: inst::MATCH_FLE_D, formatter: Formatter::FpRTypeIntRd }
    } else {
        FilterSpec { name: "fclass.d"@, mask: inst::MASK_FCLASS_D, match_value: inst::MATCH_FCLASS_D, formatter: Formatter::FpRTypeToInt }
    }
}

/// In order, the D-extension filters.
pub open spec fn spec_d_ext_filters() -> Seq<FilterSpec> {
    Seq::new(32, |k: int| d_ext_filter_at(k))
}

fn d_ext_filter(k: usize) -> (r: InstructionFilter)
    requires
        k < 32,
    ensures
        r@ == d_ext_filter_at(k as int),
{
    match k {
        0 => InstructionFilter::new("fld", inst::MASK_FLD, inst::MATCH_FLD, Formatter::FpLoad),
        1 => InstructionFilter::new("fsd", inst::MASK_FSD, inst::MATCH_FSD, Formatter::FpStore),
        2 => InstructionFilter::new("fadd.d", inst::MASK_FADD_D, inst::MATCH_FADD_D, Formatter::FpRType),
        3 => InstructionFilter::new("fsub.d", inst::MASK_FSUB_D, inst::MATCH_FSUB_D, Formatter::FpRType),
        4 => InstructionFilter::new("fmul.d", inst::MASK_FMUL_D, inst::MATCH_FMUL_D, Formatter::FpRType),
        5 => InstructionFilter::new("fdiv.d", inst::MASK_FDIV_D, inst::MATCH_FDIV_D, Formatter::FpRType),
        6 => InstructionFilter::new("fsqrt.d", inst::MASK_FSQRT_D, inst::MATCH_FSQRT_D, Formatter::FpRTypeNoRs2),
        7 => InstructionFilter::new("fmin.d", inst::MASK_FMIN_D, inst::MATCH_FMIN_D, Formatter::FpRType),
        8 => InstructionFilter::new("fmax.d", inst::MASK_FMAX_D, inst::MATCH_FMAX_D, Formatter::FpRType),
        9 => InstructionFilter::new("fmadd.d", inst::MASK_FMADD_D, inst::MATCH_FMADD_D, Formatter::FpRTypeWithRs3),
        10 => InstructionFilter::new("fnmadd.d", inst::MASK_FNMADD_D, inst::MATCH_FNMADD_D, Formatter::FpRTypeWithRs3),
        11 => InstructionFilter::new("fmsub.d", inst::MASK_FMSUB_D, inst::MATCH_FMSUB_D, Formatter::FpRTypeWithRs3),
        12 => InstructionFilter::new("fnmsub.d", inst::MASK_FNMSUB_D, inst::MATCH_FNMSUB_D, Formatter::FpRTypeWithRs3),
        13 => InstructionFilter::new("fcvt.d.w", inst::MASK_FCVT_D_W, inst::MATCH_FCVT_D_W, Formatter::FpRTypeFromInt),
        14 => InstructionFilter::new("fcvt.d.l", inst::MASK_FCVT_D_L, inst::MATCH_FCVT_D_L, Formatter::FpRTypeFromInt),
        15 => InstructionFilter::new("fcvt.d.wu", inst::MASK_FCVT_D_WU, inst::MATCH_FCVT_D_WU, Formatter::FpRTypeFromInt),
        16 => InstructionFilter::new("fcvt.d.lu", inst::MASK_FCVT_D_LU, inst::MATCH_FCVT_D_LU, Formatter::FpRTypeFromInt),
        17 => InstructionFilter::new("fcvt.w.d", inst::MASK_FCVT_W_D, inst::MATCH_FCVT_W_D, Formatter::FpRTypeToInt),
        18 => InstructionFilter::new("fcvt.l.d", inst::MASK_FCVT_L_D, inst::MATCH_FCVT_L_D, Formatter::FpRTypeToInt),
        19 => InstructionFilter::new("fcvt.wu.d", inst::MASK_FCVT_WU_D, inst::MATCH_FCVT_WU_D, Formatter::FpRTypeToInt),
        20 => InstructionFilter::new("fcvt.lu.d", inst::MASK_FCVT_LU_D, inst::MATCH_FCVT_LU_D, Formatter::FpRTypeToInt),
        21 => InstructionFilter::new("fcvt.s.d", inst::MASK_FCVT_S_D, inst::MATCH_FCVT_S_D, Formatter::FpRTypeNoRs2),
        22 => InstructionFilter::new("fcvt.d.s", inst::MASK_FCVT_D_S, inst::MATCH_FCVT_D_S, Formatter::FpRTypeNoRs2),
        23 => InstructionFilter::new("fsgnj.d", inst::MASK_FSGNJ_D, inst::MATCH_FSGNJ_D, Formatter::FpRType),
        24 => InstructionFilter::new("fsgnjn.d", inst::MASK_FSGNJN_D, inst::MATCH_FSGNJN_D, Formatter::FpRType),
        25 => InstructionFilter::new("fsgnjx.d", inst::MASK_FSGNJX_D, inst::MATCH_FSGNJX_D, Formatter::FpRType),
        26 => InstructionFilter::new("fmv.x.d", inst::MASK_FMV_X_D, inst::MATCH_FMV_X_D, Formatter::FpRTypeToInt),
        27 => InstructionFilter::new("fmv.d.x", inst::MASK_FMV_D_X, inst::MATCH_FMV_D_X, Formatter::FpRTypeFromInt),
        28 => InstructionFilter::new("feq.d", inst::MASK_FEQ_D, inst::MATCH_FEQ_D, Formatter::FpRTypeIntRd),
        29 => InstructionFilter::new("flt.d", inst::MASK_FLT_D, inst::MATCH_FLT_D, Formatter::FpRTypeIntRd),
        30 => InstructionFilter::new("fle.d", inst::MASK_FLE_D, inst::MATCH_FLE_D, Formatter::FpRTypeIntRd),
        _ => InstructionFilter::new("fclass.d", inst::MASK_FCLASS_D, inst::MATCH_FCLASS_D, Formatter::FpRTypeToInt),
    }
}

fn push_d_ext_filters(v: &mut Vec<InstructionFilter>)
    ensures
        final(v)@.map_values(|f: InstructionFilter| f@) == old(v)@.map_values(|f: InstructionFilter| f@) + spec_d_ext_filters(),
{
    let ghost base = v@.map_values(|f: InstructionFilter| f@);
    let ghost n0 = v@.len();
    let mut k: usize = 0;
    while k < 32
        invariant
            k <= 32,
            v@.len() == n0 + k,
            base == old(v)@.map_values(|f: InstructionFilter| f@),
            base.len() == n0,
            v@.map_values(|f: InstructionFilter| f@) =~= base + Seq::new(k as nat, |i: int| d_ext_filter_at(i)),
        decreases 32 - k,
    {
        let ghost prev = v@;
        let fl = d_ext_filter(k);
        v.push(fl);
        proof {
            prev.lemma_push_map_commute(|f: InstructionFilter| f@, fl);
            assert(v@.map_values(|f: InstructionFilter| f@) =~= base + Seq::new((k + 1) as nat, |j: int| d_ext_filter_at(j)));
        }
        k = k + 1;
    }
    proof {
        assert(v@.map_values(|f: InstructionFilter| f@) =~= old(v)@.map_values(|f: InstructionFilter| f@) + spec_d_ext_filters());
    }
}

/// Entry `k` of the compressed `ret` pseudo-instruction filter.
pub open spec fn c_ret_filter_at(k: int) -> FilterSpec {
    FilterSpec { name: "ret"@, mask: inst::MASK_C_JR | registers::MASK_RD, match_value: inst::MATCH_C_JR | registers::MATCH_RD_EQUALS_RA, formatter: Formatter::NoArgs }
}

/// In order, the compressed `ret` pseudo-instruction filter.
pub open spec fn spec_c_ret_filters() -> Seq<FilterSpec> {
    Seq::new(1, |k: int| c_ret_filter_at(k))
}

fn c_ret_filter(k: usize) -> (r: InstructionFilter)
    requires
        k < 1,
    ensures
        r@ == c_ret_filter_at(k as int),
{
    InstructionFilter::new("ret", inst::MASK_C_JR | registers::MASK_RD, inst::MATCH_C_JR | registers::MATCH_RD_EQUALS_RA, Formatter::NoArgs)
}

fn push_c_ret_filters(v: &mut Vec<InstructionFilter>)
    ensures
        final(v)@.map_values(|f: InstructionFilter| f@) == old(v)@.map_values(|f: InstructionFilter| f@) + spec_c_ret_filters(),
{
    let ghost base = v@.map_values(|f: InstructionFilter| f@);
    let ghost n0 = v@.len();
    let mut k: usize = 0;
    while k < 1
        invariant
            k <= 1,
            v@.len() == n0 + k,
            base == old(v)@.map_values(|f: InstructionFilter| f@),
            base.len() == n0,
            v@.map_values(|f: InstructionFilter| f@) =~= base + Seq::new(k as nat, |i: int| c_ret_filter_at(i)),
        decreases 1 - k,
    {
        let ghost prev = v@;
        let fl = c_ret_filter(k);
        v.push(fl);
        proof {
            prev.lemma_push_map_commute(|f: InstructionFilter| f@, fl);
            assert(v@.map_values(|f: InstructionFilter| f@) =~= base + Seq::new((k + 1) as nat, |j: int| c_ret_filter_at(j)));
        }
        k = k + 1;
    }
    proof {
        assert(v@.map_values(|f: InstructionFilter| f@) =~= old(v)@.map_values(|f: InstructionFilter| f@) + spec_c_ret_filters());
    }
}

/// Entry `k` of the compressed filters that exist only on RV32.
pub open spec fn c_rv32_filter_at(k: int) -> FilterSpec {
    FilterSpec { name: "c.jal"@, mask: inst::MASK_C_JAL, match_value: inst::MATCH_C_JAL, formatter: Formatter::CjType }
}

/// In order, the compressed filters that exist only on RV32.
pub open spec fn spec_c_rv32_filters() -> Seq<FilterSpec> {
    Seq::new(1, |k: int| c_rv32_filter_at(k))
}

fn c_rv32_filter(k: usize) -> (r: InstructionFilter)
    requires
        k < 1,
    ensures
        r@ == c_rv32_filter_at(k as int),
{
    InstructionFilter::new("c.jal", inst::MASK_C_JAL, inst::MATCH_C_JAL, Formatter::CjType)
}

fn push_c_rv32_filters(v: &mut Vec<InstructionFilter>)
    ensures
        final(v)@.map_values(|f: InstructionFilter| f@) == old(v)@.map_values(|f: InstructionFilter| f@) + spec_c_rv32_filters(),
{
    let ghost base = v@.map_values(|f: InstructionFilter| f@);
    let ghost n0 = v@.len();
    let mut k: usize = 0;
    while k < 1
        invariant
            k <= 1,
            v@.len() == n0 + k,
            base == old(v)@.map_values(|f: InstructionFilter| f@),
            base.len() == n0,
            v@.map_values(|f: InstructionFilter| f@) =~= base + Seq::new(k as nat, |i: int| c_rv32_filter_at(i)),
        decreases 1 - k,
    {
        let ghost prev = v@;
        let fl = c_rv32_filter(k);
        v.push(fl);
        proof {
            prev.lemma_push_map_commute(|f: InstructionFilter| f@, fl);
            assert(v@.map_values(|f: InstructionFilter| f@) =~= base + Seq::new((k + 1) as nat, |j: int| c_rv32_filter_at(j)));
        }
        k = k + 1;
    }
    proof {
        assert(v@.map_values(|f: InstructionFilter| f@) =~= old(v)@.map_values(|f: InstructionFilter| f@) + spec_c_rv32_filters());
    }
}

/// Entry `k` of the compressed F-extension filters (RV32 only).
pub open spec fn c_rv32f_filter_at(k: int) -> FilterSpec {
    if k == 0 {
        FilterSpec { name: "c.flwsp"@, mask: inst::MASK_C_FLWSP, match_value: inst::MATCH_C_FLWSP, formatter: Formatter::CiFlwsp }
    } else if k == 1 {
        FilterSpec { name: "c.fswsp"@, mask: inst::MASK_C_FSWSP, match_value: inst::MATCH_C_FSWSP, formatter: Formatter::CssFswsp }
    } else if k == 2 {
        FilterSpec { name: "c.flw"@, mask: inst::MASK_C_FLW, match_value: inst::MATCH_C_FLW, formatter: Formatter::ClFlw }
    } else {
        FilterSpec { name: "c.fsw"@, mask: inst::MASK_C_FSW, match_value: inst::MATCH_C_FSW, formatter: Formatter::ClFlw }
    }
}

/// In order, the compressed F-extension filters (RV32 only).
pub open spec fn spec_c_rv32f_filters() -> Seq<FilterSpec> {
    Seq::new(4, |k: int| c_rv32f_filter_at(k))
}

fn c_rv32f_filter(k: usize) -> (r: InstructionFilter)
    requires
        k < 4,
    ensures
        r@ == c_rv32f_filter_at(k as int),
{
    match k {
        0 => InstructionFilter::new("c.flwsp", inst::MASK_C_FLWSP, inst::MATCH_C_FLWSP, Formatter::CiFlwsp),
        1 => InstructionFilter::new("c.fswsp", inst::MASK_C_FSWSP, inst::MATCH_C_FSWSP, Formatter::CssFswsp),
        2 => InstructionFilter::new("c.flw", inst::MASK_C_FLW, inst::MATCH_C_FLW, Formatter::ClFlw),
        _ => InstructionFilter::new("c.fsw", inst::MASK_C_FSW, inst::MATCH_C_FSW, Formatter::ClFlw),
    }
}

fn push_c_rv32f_filters(v: &mut Vec<InstructionFilter>)
    ensures
        final(v)@.map_values(|f: InstructionFilter| f@) == old(v)@.map_values(|f: InstructionFilter| f@) + spec_c_rv32f_filters(),
{
    let ghost base = v@.map_values(|f: InstructionFilter| f@);
    let ghost n0 = v@.len();
    let mut k: usize = 0;
    while k < 4
        invariant
            k <= 4,
            v@.len() == n0 + k,
            base == old(v)@.map_values(|f: InstructionFilter| f@),
            base.len() == n0,
            v@.map_values(|f: InstructionFilter| f@) =~= base + Seq::new(k as nat, |i: int| c_rv32f_filter_at(i)),
        decreases 4 - k,
    {
        let ghost prev = v@;
        let fl = c_rv32f_filter(k);
        v.push(fl);
        proof {
            prev.lemma_push_map_commute(|f: InstructionFilter| f@, fl);
            assert(v@.map_values(|f: InstructionFilter| f@) =~= base + Seq::new((k + 1) as nat, |j: int| c_rv32f_filter_at(j)));
        }
        k = k + 1;
    }
    proof {
        assert(v@.map_values(|f: InstructionFilter| f@) =~= old(v)@.map_values(|f: InstructionFilter| f@) + spec_c_rv32f_filters());
    }
}

/// Entry `k` of the compressed filters that exist only on RV64.
pub open spec fn c_rv64_filter_at(k: int) -> FilterSpec {
    if k == 0 {
        FilterSpec { name: "c.ldsp"@, mask: inst::MASK_C_LDSP, match_value: inst::MATCH_C_LDSP, formatter: Formatter::CiLdsp }
    } else if k == 1 {
        FilterSpec { name: "c.sdsp"@, mask: inst::MASK_C_SDSP, match_value: inst::MATCH_C_SDSP, formatter: Formatter::CssSdsp }
    } else if k == 2 {
        FilterSpec { name: "c.ld"@, mask: inst::MASK_C_LD, match_value: inst::MATCH_C_LD, formatter: Formatter::ClLd }
    } else if k == 3 {
        FilterSpec { name: "c.sd"@, mask: inst::MASK_C_SD, match_value: inst::MATCH_C_SD, formatter: Formatter::ClLd }
    } else if k == 4 {
        FilterSpec { name: "c.addiw"@, mask: inst::MASK_C_ADDIW, match_value: inst::MATCH_C_ADDIW, formatter: Formatter::CiType }
    } else if k == 5 {
        FilterSpec { name: "c.addw"@, mask: inst::MASK_C_ADDW, match_value: inst::MATCH_C_ADDW, formatter: Formatter::CaType }
    } else {
        FilterSpec { name: "c.subw"@, mask: inst::MASK_C_SUBW, match_value: inst::MATCH_C_SUBW, formatter: Formatter::CaType }
    }
}

/// In order, the compressed filters that exist only on RV64.
pub open spec fn spec_c_rv64_filters() -> Seq<FilterSpec> {
    Seq::new(7, |k: int| c_rv64_filter_at(k))
}

fn c_rv64_filter(k: usize) -> (r: InstructionFilter)
    requires
        k < 7,
    ensures
        r@ == c_rv64_filter_at(k as int),
{
    match k {
        0 => InstructionFilter::new("c.ldsp", inst::MASK_C_LDSP, inst::MATCH_C_LDSP, Formatter::CiLdsp),
        1 => InstructionFilter::new("c.sdsp", inst::MASK_C_SDSP, inst::MATCH_C_SDSP, Formatter::CssSdsp),
        2 => InstructionFilter::new("c.ld", inst::MASK_C_LD, inst::MATCH_C_LD, Formatter::ClLd),
        3 => InstructionFilter::new("c.sd", inst::MASK_C_SD, inst::MATCH_C_SD, Formatter::ClLd),
        4 => InstructionFilter::new("c.addiw", inst::MASK_C_ADDIW, inst::MATCH_C_ADDIW, Formatter::CiType),
        5 => InstructionFilter::new("c.addw", inst::MASK_C_ADDW, inst::MATCH_C_ADDW, Formatter::CaType),
        _ => InstructionFilter::new("c.subw", inst::MASK_C_SUBW, inst::MATCH_C_SUBW, Formatter::CaType),
    }
}

fn push_c_rv64_filters(v: &mut Vec<InstructionFilter>)
    ensures
        final(v)@.map_values(|f: InstructionFilter| f@) == old(v)@.map_values(|f: InstructionFilter| f@) + spec_c_rv64_filters(),
{
    let ghost base = v@.map_values(|f: InstructionFilter| f@);
    let ghost n0 = v@.len();
    let mut k: usize = 0;
    while k < 7
        invariant
            k <= 7,
            v@.len() == n0 + k,
            base == old(v)@.map_values(|f: InstructionFilter| f@),
            base.len() == n0,
            v@.map_values(|f: InstructionFilter| f@) =~= base + Seq::new(k as nat, |i: int| c_rv64_filter_at(i)),
        decreases 7 - k,
    {
        let ghost prev = v@;
        let fl = c_rv64_filter(k);
        v.push(fl);
        proof {
            prev.lemma_push_map_commute(|f: InstructionFilter| f@, fl);
            assert(v@.map_values(|f: InstructionFilter| f@) =~= base + Seq::new((k + 1) as nat, |j: int| c_rv64_filter_at(j)));
        }
        k = k + 1;
    }
    proof {
        assert(v@.map_values(|f: InstructionFilter| f@) =~= old(v)@.map_values(|f: InstructionFilter| f@) + spec_c_rv64_filters());
    }
}

/// Entry `k` of the compressed D-extension filters.
pub open spec fn c_d_filter_at(k: int) -> FilterSpec {
    if k == 0 {
        FilterSpec { name: "c.fldsp"@, mask: inst::MASK_C_FLDSP, match_value: inst::MATCH_C_FLDSP, formatter: Formatter::CiFldsp }
    } else if k == 1 {
        FilterSpec { name: "c.fsdsp"@, mask: inst::MASK_C_FSDSP, match_value: inst::MATCH_C_FSDSP, formatter: Formatter::CssFsdsp }
    } else if k == 2 {
        FilterSpec { name: "c.fld"@, mask: inst::MASK_C_FLD, match_value: inst::MATCH_C_FLD, formatter: Formatter::ClFld }
    } else {
        FilterSpec { name: "c.fsd"@, mask: inst::MASK_C_FSD, match_value: inst::MATCH_C_FSD, formatter: Formatter::ClFld }
    }
}

/// In order, the compressed D-extension filters.
pub open spec fn spec_c_d_filters() -> Seq<FilterSpec> {
    Seq::new(4, |k: int| c_d_filter_at(k))
}

fn c_d_filter(k: usize) -> (r: InstructionFilter)
    requires
        k < 4,
    ensures
        r@ == c_d_filter_at(k as int),
{
    match k {
        0 => InstructionFilter::new("c.fldsp", inst::MASK_C_FLDSP, inst::MATCH_C_FLDSP, Formatter::CiFldsp),
        1 => InstructionFilter::new("c.fsdsp", inst::MASK_C_FSDSP, inst::MATCH_C_FSDSP, Formatter::CssFsdsp),
        2 => InstructionFilter::new("c.fld", inst::MASK_C_FLD, inst::MATCH_C_FLD, Formatter::ClFld),
        _ => InstructionFilter::new("c.fsd", inst::MASK_C_FSD, inst::MATCH_C_FSD, Formatter::ClFld),
    }
}

fn push_c_d_filters(v: &mut Vec<InstructionFilter>)
    ensures
        final(v)@.map_values(|f: InstructionFilter| f@) == old(v)@.map_values(|f: InstructionFilter| f@) + spec_c_d_filters(),
{
    let ghost base = v@.map_values(|f: InstructionFilter| f@);
    let ghost n0 = v@.len();
    let mut k: usize = 0;
    while k < 4
        invariant
            k <= 4,
            v@.len() == n0 + k,
            base == old(v)@.map_values(|f: InstructionFilter| f@),
            base.len() == n0,
            v@.map_values(|f: InstructionFilter| f@) =~= base + Seq::new(k as nat, |i: int| c_d_filter_at(i)),
        decreases 4 - k,
    {
        let ghost prev = v@;
        let fl = c_d_filter(k);
        v.push(fl);
        proof {
            prev.lemma_push_map_commute(|f: InstructionFilter| f@, fl);
            assert(v@.map_values(|f: InstructionFilter| f@) =~= base + Seq::new((k + 1) as nat, |j: int| c_d_filter_at(j)));
        }
        k = k + 1;
    }
    proof {
        assert(v@.map_values(|f: InstructionFilter| f@) =~= old(v)@.map_values(|f: InstructionFilter| f@) + spec_c_d_filters());
    }
}

/// Entry `k` of the compressed filters common to both word widths.
pub open spec fn c_global_filter_at(k: int) -> FilterSpec {
    if k == 0 {
        FilterSpec { name: "c.lwsp"@, mask: inst::MASK_C_LWSP, match_value: inst::MATCH_C_LWSP, formatter: Formatter::CiLwsp }
    } else if k == 1 {
        FilterSpec { name: "c.swsp"@, mask: inst::MASK_C_SWSP, match_value: inst::MATCH_C_SWSP, formatter: Formatter::CssSwsp }
    } else if k == 2 {
        FilterSpec { name: "c.lw"@, mask: inst::MASK_C_LW, match_value: inst::MATCH_C_LW, formatter: Formatter::ClLw }
    } else if k == 3 {
        FilterSpec { name: "c.sw"@, mask: inst::MASK_C_SW, match_value: inst::MATCH_C_SW, formatter: Formatter::ClLw }
    } else if k == 4 {
        FilterSpec { name: "c.ebreak"@, mask: inst::MASK_C_EBREAK, match_value: inst::MATCH_C_EBREAK, formatter: Formatter::NoArgs }
    } else if k == 5 {
        FilterSpec { name: "c.j"@, mask: inst::MASK_C_J, match_value: inst::MATCH_C_J, formatter: Formatter::CjType }
    } else if k == 6 {
        FilterSpec { name: "c.jr"@, mask: inst::MASK_C_JR, match_value: inst::MATCH_C_JR, formatter: Formatter::CrTypeNoRs2 }
    } else if k == 7 {
        FilterSpec { name: "c.jalr"@, mask: inst::MASK_C_JALR, match_value: inst::MATCH_C_JALR, formatter: Formatter::CrTypeNoRs2 }
    } else if k == 8 {
        FilterSpec { name: "c.beqz"@, mask: inst::MASK_C_BEQZ, match_value: inst::MATCH_C_BEQZ, formatter: Formatter::CbType }
    } else if k == 9 {
        FilterSpec { name: "c.bnez"@, mask: inst::MASK_C_BNEZ, match_value: inst::MATCH_C_BNEZ, formatter: Formatter::CbType }
    } else if k == 10 {
        FilterSpec { name: "c.li"@, mask: inst::MASK_C_LI, match_value: inst::MATCH_C_LI, formatter: Formatter::CiType }
    } else if k == 11 {
        FilterSpec { name: "c.nop"@, mask: inst::MASK_C_NOP, match_value: inst::MATCH_C_NOP, formatter: Formatter::NoArgs }
    } else if k == 12 {
        FilterSpec { name: "c.addi"@, mask: inst::MASK_C_ADDI, match_value: inst::MATCH_C_ADDI, formatter: Formatter::CiType }
    } else if k == 13 {
        FilterSpec { name: "c.addi16sp"@, mask: inst::MASK_C_ADDI16SP, match_value: inst::MATCH_C_ADDI16SP, formatter: Formatter::CiAddi16sp }
    } else if k == 14 {
        FilterSpec { name: "c.addi4spn"@, mask: inst::MASK_C_ADDI4SPN, match_value: inst::MATCH_C_ADDI4SPN, formatter: Formatter::CiwAddi4spn }
    } else if k == 15 {
        FilterSpec { name: "c.slli"@, mask: inst::MASK_C_SLLI, match_value: inst::MATCH_C_SLLI, formatter: Formatter::CiShift }
    } else if k == 16 {
        FilterSpec { name: "c.srli"@, mask: inst::MASK_C_SRLI, match_value: inst::MATCH_C_SRLI, formatter: Formatter::CbTypeShift }
    } else if k == 17 {
        FilterSpec { name: "c.srai"@, mask: inst::MASK_C_SRAI, match_value: inst::MATCH_C_SRAI, formatter: Formatter::CbTypeShift }
    } else if k == 18 {
        FilterSpec { name: "c.andi"@, mask: inst::MASK_C_ANDI, match_value: inst::MATCH_C_ANDI, formatter: Formatter::CbTypeAndi }
    } else if k == 19 {
        FilterSpec { name: "c.mv"@, mask: inst::MASK_C_MV, match_value: inst::MATCH_C_MV, formatter: Formatter::CrType }
    } else if k == 20 {
        FilterSpec { name: "c.add"@, mask: inst::MASK_C_ADD, match_value: inst::MATCH_C_ADD, formatter: Formatter::CrType }
    } else if k == 21 {
        FilterSpec { name: "c.and"@, mask: inst::MASK_C_AND, match_value: inst::MATCH_C_AND, formatter: Formatter::CaType }
    } else if k == 22 {
        FilterSpec { name: "c.or"@, mask: inst::MASK_C_OR, match_value: inst::MATCH_C_OR, formatter: Formatter::CaType }
    } else if k == 23 {
        FilterSpec { name: "c.xor"@, mask: inst::MASK_C_XOR, match_value: inst::MATCH_C_XOR, formatter: Formatter::CaType }
    } else if k == 24 {
        FilterSpec { name: "c.sub"@, mask: inst::MASK_C_SUB, match_value: inst::MATCH_C_SUB, formatter: Formatter::CaType }
    } else {
        FilterSpec { name: "c.lui"@, mask: inst::MASK_C_LUI, match_value: inst::MATCH_C_LUI, formatter: Formatter::CiLui }
    }
}

/// In order, the compressed filters common to both word widths.
pub open spec fn spec_c_global_filters() -> Seq<FilterSpec> {
    Seq::new(26, |k: int| c_global_filter_at(k))
}

fn c_global_filter(k: usize) -> (r: InstructionFilter)
    requires
        k < 26,
    ensures
        r@ == c_global_filter_at(k as int),
{
    match k {
        0 => InstructionFilter::new("c.lwsp", inst::MASK_C_LWSP, inst::MATCH_C_LWSP, Formatter::CiLwsp),
        1 => InstructionFilter::new("c.swsp", inst::MASK_C_SWSP, inst::MATCH_C_SWSP, Formatter::CssSwsp),
        2 => InstructionFilter::new("c.lw", inst::MASK_C_LW, inst::MATCH_C_LW, Formatter::ClLw),
        3 => InstructionFilter::new("c.sw", inst::MASK_C_SW, inst::MATCH_C_SW, Formatter::ClLw),
        4 => InstructionFilter::new("c.ebreak", inst::MASK_C_EBREAK, inst::MATCH_C_EBREAK, Formatter::NoArgs),
        5 => InstructionFilter::new("c.j", inst::MASK_C_J, inst::MATCH_C_J, Formatter::CjType),
        6 => InstructionFilter::new("c.jr", inst::MASK_C_JR, inst::MATCH_C_JR, Formatter::CrTypeNoRs2),
        // `c.jalr` must come after `c.ebreak`, whose encoding it would
        // otherwise capture.
        7 => InstructionFilter::new("c.jalr", inst::MASK_C_JALR, inst::MATCH_C_JALR, Formatter::CrTypeNoRs2),
        8 => InstructionFilter::new("c.beqz", inst::MASK_C_BEQZ, inst::MATCH_C_BEQZ, Formatter::CbType),
        9 => InstructionFilter::new("c.bnez", inst::MASK_C_BNEZ, inst::MATCH_C_BNEZ, Formatter::CbType),
        10 => InstructionFilter::new("c.li", inst::MASK_C_LI, inst::MATCH_C_LI, Formatter::CiType),
        11 => InstructionFilter::new("c.nop", inst::MASK_C_NOP, inst::MATCH_C_NOP, Formatter::NoArgs),
        // `c.addi` must come after `c.nop`, whose encoding it would
        // otherwise capture.
        12 => InstructionFilter::new("c.addi", inst::MASK_C_ADDI, inst::MATCH_C_ADDI, Formatter::CiType),
        13 => InstructionFilter::new("c.addi16sp", inst::MASK_C_ADDI16SP, inst::MATCH_C_ADDI16SP, Formatter::CiAddi16sp),
        14 => InstructionFilter::new("c.addi4spn", inst::MASK_C_ADDI4SPN, inst::MATCH_C_ADDI4SPN, Formatter::CiwAddi4spn),
        15 => InstructionFilter::new("c.slli", inst::MASK_C_SLLI, inst::MATCH_C_SLLI, Formatter::CiShift),
        16 => InstructionFilter::new("c.srli", inst::MASK_C_SRLI, inst::MATCH_C_SRLI, Formatter::CbTypeShift),
        17 => InstructionFilter::new("c.srai", inst::MASK_C_SRAI, inst::MATCH_C_SRAI, Formatter::CbTypeShift),
        18 => InstructionFilter::new("c.andi", inst::MASK_C_ANDI, inst::MATCH_C_ANDI, Formatter::CbTypeAndi),
        // `c.mv` must come after `c.jr`, whose encoding it would otherwise
        // capture.
        19 => InstructionFilter::new("c.mv", inst::MASK_C_MV, inst::MATCH_C_MV, Formatter::CrType),
        // `c.add` must come after `c.jalr` and `c.ebreak`, whose encodings
        // it would otherwise capture.
        20 => InstructionFilter::new("c.add", inst::MASK_C_ADD, inst::MATCH_C_ADD, Formatter::CrType),
        21 => InstructionFilter::new("c.and", inst::MASK_C_AND, inst::MATCH_C_AND, Formatter::CaType),
        22 => InstructionFilter::new("c.or", inst::MASK_C_OR, inst::MATCH_C_OR, Formatter::CaType),
        23 => InstructionFilter::new("c.xor", inst::MASK_C_XOR, inst::MATCH_C_XOR, Formatter::CaType),
        24 => InstructionFilter::new("c.sub", inst::MASK_C_SUB, inst::MATCH_C_SUB, Formatter::CaType),
        // `c.lui` must come after `c.addi16sp`, whose encoding it would
        // otherwise capture.
        _ => InstructionFilter::new("c.lui", inst::MASK_C_LUI, inst::MATCH_C_LUI, Formatter::CiLui),
    }
}

fn push_c_global_filters(v: &mut Vec<InstructionFilter>)
    ensures
        final(v)@.map_values(|f: InstructionFilter| f@) == old(v)@.map_values(|f: InstructionFilter| f@) + spec_c_global_filters(),
{
    let ghost base = v@.map_values(|f: InstructionFilter| f@);
    let ghost n0 = v@.len();
    let mut k: usize = 0;
    while k < 26
        invariant
            k <= 26,
            v@.len() == n0 + k,
            base == old(v)@.map_values(|f: InstructionFilter| f@),
            base.len() == n0,
            v@.map_values(|f: InstructionFilter| f@) =~= base + Seq::new(k as nat, |i: int| c_global_filter_at(i)),
        decreases 26 - k,
    {
        let ghost prev = v@;
        let fl = c_global_filter(k);
        v.push(fl);
        proof {
            prev.lemma_push_map_commute(|f: InstructionFilter| f@, fl);
            assert(v@.map_values(|f: InstructionFilter| f@) =~= base + Seq::new((k + 1) as nat, |j: int| c_global_filter_at(j)));
        }
        k = k + 1;
    }
    proof {
        assert(v@.map_values(|f: InstructionFilter| f@) =~= old(v)@.map_values(|f: InstructionFilter| f@) + spec_c_global_filters());
    }
}

/// The compressed-extension part of the table for a configuration: the
/// compressed `ret` pseudo-instruction first when pseudo-instructions are
/// enabled, then the width-specific filters (F forms are further gated on F
/// being present), then the D forms, then the common compressed filters.
pub open spec fn spec_c_filters(
    xlen: Xlen,
    isa_extensions: Extensions,
    enable_pseudo_instructions: bool,
) -> Seq<FilterSpec> {
    (if enable_pseudo_instructions {
        spec_c_ret_filters()
    } else {
        Seq::empty()
    }) + (match xlen {
        Xlen::Rv32 => spec_c_rv32_filters() + (if isa_extensions.spec_has_f() {
            spec_c_rv32f_filters()
        } else {
            Seq::empty()
        }),
        Xlen::Rv64 => spec_c_rv64_filters(),
    }) + (if isa_extensions.spec_has_d() {
        spec_c_d_filters()
    } else {
        Seq::empty()
    }) + spec_c_global_filters()
}

/// The complete ordered filter table for a configuration. Insertion order
/// encodes precedence: pseudo-instruction filters come before the general
/// forms they over-constrain (the `sext.w` pseudo filter, gated on RV64,
/// comes right before the `addiw` filter it over-constrains), and the
/// compressed filters keep the ordering constraints among overlapping
/// encodings.
pub open spec fn spec_filters(
    xlen: Xlen,
    isa_extensions: Extensions,
    enable_pseudo_instructions: bool,
) -> Seq<FilterSpec> {
    (if enable_pseudo_instructions {
        spec_pseudo_filters()
    } else {
        Seq::empty()
    }) + (match xlen {
        Xlen::Rv32 => Seq::empty(),
        Xlen::Rv64 => (if enable_pseudo_instructions {
            spec_pseudo_rv64_filters()
        } else {
            Seq::empty()
        }) + spec_base_rv64_filters(),
    }) + spec_base_global_filters() + (if isa_extensions.spec_has_m() {
        spec_m_ext_filters()
    } else {
        Seq::empty()
    }) + (if isa_extensions.spec_has_a() {
        spec_a_ext_filters()
    } else {
        Seq::empty()
    }) + (if isa_extensions.spec_has_f() {
        spec_f_ext_filters()
    } else {
        Seq::empty()
    }) + (if isa_extensions.spec_has_d() {
        spec_d_ext_filters()
    } else {
        Seq::empty()
    }) + (if isa_extensions.spec_has_c() {
        spec_c_filters(xlen, isa_extensions, enable_pseudo_instructions)
    } else {
        Seq::empty()
    })
}

/// Builds the complete ordered filter table for the given word width,
/// extension set and pseudo-instruction toggle.
pub fn gen_instructions(
    xlen: Xlen,
    isa_extensions: Extensions,
    enable_pseudo_instructions: bool,
) -> (r: Vec<InstructionFilter>)
    ensures
        r@.map_values(|f: InstructionFilter| f@) == spec_filters(
            xlen,
            isa_extensions,
            enable_pseudo_instructions,
        ),
{
    let mut v: Vec<InstructionFilter> = Vec::new();
    if enable_pseudo_instructions {
        push_pseudo_filters(&mut v);
    }
    match &xlen {
        Xlen::Rv32 => {},
        Xlen::Rv64 => {
            if enable_pseudo_instructions {
                push_pseudo_rv64_filters(&mut v);
            }
            push_base_rv64_filters(&mut v);
        },
    }
    push_base_global_filters(&mut v);
    if isa_extensions.has_m() {
        push_m_ext_filters(&mut v);
    }
    if isa_extensions.has_a() {
        push_a_ext_filters(&mut v);
    }
    if isa_extensions.has_f() {
        push_f_ext_filters(&mut v);
    }
    if isa_extensions.has_d() {
        push_d_ext_filters(&mut v);
    }
    if isa_extensions.has_c() {
        if enable_pseudo_instructions {
            push_c_ret_filters(&mut v);
        }
        match &xlen {
            Xlen::Rv32 => {
                push_c_rv32_filters(&mut v);
                if isa_extensions.has_f() {
                    push_c_rv32f_filters(&mut v);
                }
            },
            Xlen::Rv64 => push_c_rv64_filters(&mut v),
        }
        if isa_extensions.has_d() {
            push_c_d_filters(&mut v);
        }
        push_c_global_filters(&mut v);
    }
    proof {
        assert(v@.map_values(|f: InstructionFilter| f@) =~= spec_filters(
            xlen,
            isa_extensions,
            enable_pseudo_instructions,
        ));
    }
    v
}
/// The mnemonics of the base integer table that exist only on RV64.
pub open spec fn spec_is_rv64_base_mnemonic(s: Seq<char>) -> bool {
    ||| s == "addiw"@
    ||| s == "slliw"@
    ||| s == "srliw"@
    ||| s == "sraiw"@
    ||| s == "addw"@
    ||| s == "subw"@
    ||| s == "sllw"@
    ||| s == "srlw"@
    ||| s == "sraw"@
    ||| s == "lwu"@
    ||| s == "ld"@
    ||| s == "sd"@
}

/// The mnemonics of the compressed table that exist only on RV64.
pub open spec fn spec_is_rv64_compressed_mnemonic(s: Seq<char>) -> bool {
    ||| s == "c.ldsp"@
    ||| s == "c.sdsp"@
    ||| s == "c.ld"@
    ||| s == "c.sd"@
    ||| s == "c.addiw"@
    ||| s == "c.addw"@
    ||| s == "c.subw"@
}

/// A mnemonic that exists only on RV64: an RV64-only base op, an
/// RV64-only compressed op, or the pseudo-instruction `sext.w` (the pseudo
/// form of `addiw`).
pub open spec fn spec_is_rv64_only_mnemonic(s: Seq<char>) -> bool {
    spec_is_rv64_base_mnemonic(s) || spec_is_rv64_compressed_mnemonic(s) || s == "sext.w"@
}

/// The compressed mnemonics that exist only on RV32: the compressed jump-and-link and the compressed single-precision load/store forms.
pub open spec fn spec_is_rv32_only_mnemonic(s: Seq<char>) -> bool {
    ||| s == "c.jal"@
    ||| s == "c.flwsp"@
    ||| s == "c.fswsp"@
    ||| s == "c.flw"@
    ||| s == "c.fsw"@
}

/// The mnemonics of the M extension.
pub open spec fn spec_is_m_mnemonic(s: Seq<char>) -> bool {
    ||| s == "mul"@
    ||| s == "mulh"@
    ||| s == "mulhu"@
    ||| s == "mulhsu"@
    ||| s == "mulw"@
    ||| s == "div"@
    ||| s == "divu"@
    ||| s == "rem"@
    ||| s == "remu"@
    ||| s == "divw"@
    ||| s == "divuw"@
    ||| s == "remw"@
    ||| s == "remuw"@
}

/// The mnemonics of the A extension.
pub open spec fn spec_is_a_mnemonic(s: Seq<char>) -> bool {
    ||| s == "lr.w"@
    ||| s == "sc.w"@
    ||| s == "lr.d"@
    ||| s == "sc.d"@
    ||| s == "amoswap.w"@
    ||| s == "amoswap.d"@
    ||| s == "amoadd.w"@
    ||| s == "amoadd.d"@
    ||| s == "amoand.w"@
    ||| s == "amoand.d"@
    ||| s == "amoor.w"@
    ||| s == "amoor.d"@
    ||| s == "amoxor.w"@
    ||| s == "amoxor.d"@
    ||| s == "amomax.w"@
    ||| s == "amomax.d"@
    ||| s == "amomaxu.w"@
    ||| s == "amomaxu.d"@
    ||| s == "amomin.w"@
    ||| s == "amomin.d"@
    ||| s == "amominu.w"@
    ||| s == "amominu.d"@
}

/// The mnemonics of the F extension.
pub open spec fn spec_is_f_mnemonic(s: Seq<char>) -> bool {
    ||| s == "flw"@
    ||| s == "fsw"@
    ||| s == "fadd.s"@
    ||| s == "fsub.s"@
    ||| s == "fmul.s"@
    ||| s == "fdiv.s"@
    ||| s == "fsqrt.s"@
    ||| s == "fmin.s"@
    ||| s == "fmax.s"@
    ||| s == "fmadd.s"@
    ||| s == "fnmadd.s"@
    ||| s == "fmsub.s"@
    ||| s == "fnmsub.s"@
    ||| s == "fcvt.s.w"@
    ||| s == "fcvt.s.l"@
    ||| s == "fcvt.s.wu"@
    ||| s == "fcvt.s.lu"@
    ||| s == "fcvt.w.s"@
    ||| s == "fcvt.l.s"@
    ||| s == "fcvt.wu.s"@
    ||| s == "fcvt.lu.s"@
    ||| s == "fsgnj.s"@
    ||| s == "fsgnjn.s"@
    ||| s == "fsgnjx.s"@
    ||| s == "fmv.w.x"@
    ||| s == "fmv.x.w"@
    ||| s == "feq.s"@
    ||| s == "flt.s"@
    ||| s == "fle.s"@
    ||| s == "fclass.s"@
}

/// The mnemonics of the D extension.
pub open spec fn spec_is_d_mnemonic(s: Seq<char>) -> bool {
    ||| s == "fld"@
    ||| s == "fsd"@
    ||| s == "fadd.d"@
    ||| s == "fsub.d"@
    ||| s == "fmul.d"@
    ||| s == "fdiv.d"@
    ||| s == "fsqrt.d"@
    ||| s == "fmin.d"@
    ||| s == "fmax.d"@
    ||| s == "fmadd.d"@
    ||| s == "fnmadd.d"@
    ||| s == "fmsub.d"@
    ||| s == "fnmsub.d"@
    ||| s == "fcvt.d.w"@
    ||| s == "fcvt.d.l"@
    ||| s == "fcvt.d.wu"@
    ||| s == "fcvt.d.lu"@
    ||| s == "fcvt.w.d"@
    ||| s == "fcvt.l.d"@
    ||| s == "fcvt.wu.d"@
    ||| s == "fcvt.lu.d"@
    ||| s == "fcvt.s.d"@
    ||| s == "fcvt.d.s"@
    ||| s == "fsgnj.d"@
    ||| s == "fsgnjn.d"@
    ||| s == "fsgnjx.d"@
    ||| s == "fmv.x.d"@
    ||| s == "fmv.d.x"@
    ||| s == "feq.d"@
    ||| s == "flt.d"@
    ||| s == "fle.d"@
    ||| s == "fclass.d"@
}

/// A mnemonic of the compressed (C) extension: one spelled with the `c.`
/// prefix.
pub open spec fn spec_is_compressed_mnemonic(s: Seq<char>) -> bool {
    s.len() >= 2 && s[0] == 'c' && s[1] == '.'
}

/// No entry of this group carries an RV64-only mnemonic.
#[verifier::rlimit(60)]
pub proof fn lemma_pseudo_filters_rv32_safe(j: int)
    requires
        0 <= j < 22,
    ensures
        !spec_is_rv64_only_mnemonic(pseudo_filter_at(j).name),
{
    reveal_strlit("addiw");
    reveal_strlit("addw");
    reveal_strlit("beqz");
    reveal_strlit("bgez");
    reveal_strlit("bltz");
    reveal_strlit("bnez");
    reveal_strlit("c.addiw");
    reveal_strlit("c.addw");
    reveal_strlit("c.ld");
    reveal_strlit("c.ldsp");
    reveal_strlit("c.sd");
    reveal_strlit("c.sdsp");
    reveal_strlit("c.subw");
    reveal_strlit("csrc");
    reveal_strlit("csrci");
    reveal_strlit("csrr");
    reveal_strlit("csrs");
    reveal_strlit("csrsi");
    reveal_strlit("csrw");
    reveal_strlit("csrwi");
    reveal_strlit("j");
    reveal_strlit("jal");
    reveal_strlit("jalr");
    reveal_strlit("jr");
    reveal_strlit("ld");
    reveal_strlit("li");
    reveal_strlit("lwu");
    reveal_strlit("mv");
    reveal_strlit("nop");
    reveal_strlit("not");
    reveal_strlit("ret");
    reveal_strlit("sd");
    reveal_strlit("seqz");
    reveal_strlit("sext.w");
    reveal_strlit("slliw");
    reveal_strlit("sllw");
    reveal_strlit("snez");
    reveal_strlit("sraiw");
    reveal_strlit("sraw");
    reveal_strlit("srliw");
    reveal_strlit("srlw");
    reveal_strlit("subw");
    assert("addiw"@.len() == 5);
    assert("addw"@.len() == 4);
    assert("c.addiw"@.len() == 7);
    assert("c.addw"@.len() == 6);
    assert("c.ld"@.len() == 4);
    assert("c.ldsp"@.len() == 6);
    assert("c.sd"@.len() == 4);
    assert("c.sdsp"@.len() == 6);
    assert("c.subw"@.len() == 6);
    assert("ld"@.len() == 2);
    assert("lwu"@.len() == 3);
    assert("sd"@.len() == 2);
    assert("sext.w"@.len() == 6);
    assert("slliw"@.len() == 5);
    assert("sllw"@.len() == 4);
    assert("sraiw"@.len() == 5);
    assert("sraw"@.len() == 4);
    assert("srliw"@.len() == 5);
    assert("srlw"@.len() == 4);
    assert("subw"@.len() == 4);
    let nm = pseudo_filter_at(j).name;
    if j == 0 {
        assert(nm == "nop"@);
        assert(nm.len() == 3);
        assert("nop"@[0] != "lwu"@[0]);
        assert(!spec_is_rv64_only_mnemonic(nm));
    } else if j == 1 {
        assert(nm == "li"@);
        assert(nm.len() == 2);
        assert("li"@[1] != "ld"@[1]);
        assert("li"@[0] != "sd"@[0]);
        assert(!spec_is_rv64_only_mnemonic(nm));
    } else if j == 2 {
        assert(nm == "mv"@);
        assert(nm.len() == 2);
        assert("mv"@[0] != "ld"@[0]);
        assert("mv"@[0] != "sd"@[0]);
        assert(!spec_is_rv64_only_mnemonic(nm));
    } else if j == 3 {
        assert(nm == "not"@);
        assert(nm.len() == 3);
        assert("not"@[0] != "lwu"@[0]);
        assert(!spec_is_rv64_only_mnemonic(nm));
    } else if j == 4 {
        assert(nm == "seqz"@);
        assert(nm.len() == 4);
        assert("seqz"@[0] != "addw"@[0]);
        assert("seqz"@[1] != "subw"@[1]);
        assert("seqz"@[1] != "sllw"@[1]);
        assert("seqz"@[1] != "srlw"@[1]);
        assert("seqz"@[1] != "sraw"@[1]);
        assert("seqz"@[0] != "c.ld"@[0]);
        assert("seqz"@[0] != "c.sd"@[0]);
        assert(!spec_is_rv64_only_mnemonic(nm));
    } else if j == 5 {
        assert(nm == "snez"@);
        assert(nm.len() == 4);
        assert("snez"@[0] != "addw"@[0]);
        assert("snez"@[1] != "subw"@[1]);
        assert("snez"@[1] != "sllw"@[1]);
        assert("snez"@[1] != "srlw"@[1]);
        assert("snez"@[1] != "sraw"@[1]);
        assert("snez"@[0] != "c.ld"@[0]);
        assert("snez"@[0] != "c.sd"@[0]);
        assert(!spec_is_rv64_only_mnemonic(nm));
    } else if j == 6 {
        assert(nm == "j"@);
        assert(nm.len() == 1);
        assert(!spec_is_rv64_only_mnemonic(nm));
    } else if j == 7 {
        assert(nm == "jal"@);
        assert(nm.len() == 3);
        assert("jal"@[0] != "lwu"@[0]);
        assert(!spec_is_rv64_only_mnemonic(nm));
    } else if j == 8 {
        assert(nm == "ret"@);
        assert(nm.len() == 3);
        assert("ret"@[0] != "lwu"@[0]);
        assert(!spec_is_rv64_only_mnemonic(nm));
    } else if j == 9 {
        assert(nm == "jr"@);
        assert(nm.len() == 2);
        assert("jr"@[0] != "ld"@[0]);
        assert("jr"@[0] != "sd"@[0]);
        assert(!spec_is_rv64_only_mnemonic(nm));
    } else if j == 10 {
        assert(nm == "jalr"@);
        assert(nm.len() == 4);
        assert("jalr"@[0] != "addw"@[0]);
        assert("jalr"@[0] != "subw"@[0]);
        assert("jalr"@[0] != "sllw"@[0]);
        assert("jalr"@[0] != "srlw"@[0]);
        assert("jalr"@[0] != "sraw"@[0]);
        assert("jalr"@[0] != "c.ld"@[0]);
        assert("jalr"@[0] != "c.sd"@[0]);
        assert(!spec_is_rv64_only_mnemonic(nm));
    } else if j == 11 {
        assert(nm == "beqz"@);
        assert(nm.len() == 4);
        assert("beqz"@[0] != "addw"@[0]);
        assert("beqz"@[0] != "subw"@[0]);
        assert("beqz"@[0] != "sllw"@[0]);
        assert("beqz"@[0] != "srlw"@[0]);
        assert("beqz"@[0] != "sraw"@[0]);
        assert("beqz"@[0] != "c.ld"@[0]);
        assert("beqz"@[0] != "c.sd"@[0]);
        assert(!spec_is_rv64_only_mnemonic(nm));
    } else if j == 12 {
        assert(nm == "bnez"@);
        assert(nm.len() == 4);
        assert("bnez"@[0] != "addw"@[0]);
        assert("bnez"@[0] != "subw"@[0]);
        assert("bnez"@[0] != "sllw"@[0]);
        assert("bnez"@[0] != "srlw"@[0]);
        assert("bnez"@[0] != "sraw"@[0]);
        assert("bnez"@[0] != "c.ld"@[0]);
        assert("bnez"@[0] != "c.sd"@[0]);
        assert(!spec_is_rv64_only_mnemonic(nm));
    } else if j == 13 {
        assert(nm == "bltz"@);
        assert(nm.len() == 4);
        assert("bltz"@[0] != "addw"@[0]);
        assert("bltz"@[0] != "subw"@[0]);
        assert("bltz"@[0] != "sllw"@[0]);
        assert("bltz"@[0] != "srlw"@[0]);
        assert("bltz"@[0] != "sraw"@[0]);
        assert("bltz"@[0] != "c.ld"@[0]);
        assert("bltz"@[0] != "c.sd"@[0]);
        assert(!spec_is_rv64_only_mnemonic(nm));
    } else if j == 14 {
        assert(nm == "bgez"@);
        assert(nm.len() == 4);
        assert("bgez"@[0] != "addw"@[0]);
        assert("bgez"@[0] != "subw"@[0]);
        assert("bgez"@[0] != "sllw"@[0]);
        assert("bgez"@[0] != "srlw"@[0]);
        assert("bgez"@[0] != "sraw"@[0]);
        assert("bgez"@[0] != "c.ld"@[0]);
        assert("bgez"@[0] != "c.sd"@[0]);
        assert(!spec_is_rv64_only_mnemonic(nm));
    } else if j == 15 {
        assert(nm == "csrr"@);
        assert(nm.len() == 4);
        assert("csrr"@[0] != "addw"@[0]);
        assert("csrr"@[0] != "subw"@[0]);
        assert("csrr"@[0] != "sllw"@[0]);
        assert("csrr"@[0] != "srlw"@[0]);
        assert("csrr"@[0] != "sraw"@[0]);
        assert("csrr"@[1] != "c.ld"@[1]);
        assert("csrr"@[1] != "c.sd"@[1]);
        assert(!spec_is_rv64_only_mnemonic(nm));
    } else if j == 16 {
        assert(nm == "csrw"@);
        assert(nm.len() == 4);
        assert("csrw"@[0] != "addw"@[0]);
        assert("csrw"@[0] != "subw"@[0]);
        assert("csrw"@[0] != "sllw"@[0]);
        assert("csrw"@[0] != "srlw"@[0]);
        assert("csrw"@[0] != "sraw"@[0]);
        assert("csrw"@[1] != "c.ld"@[1]);
        assert("csrw"@[1] != "c.sd"@[1]);
        assert(!spec_is_rv64_only_mnemonic(nm));
    } else if j == 17 {
        assert(nm == "csrs"@);
        assert(nm.len() == 4);
        assert("csrs"@[0] != "addw"@[0]);
        assert("csrs"@[0] != "subw"@[0]);
        assert("csrs"@[0] != "sllw"@[0]);
        assert("csrs"@[0] != "srlw"@[0]);
        assert("csrs"@[0] != "sraw"@[0]);
        assert("csrs"@[1] != "c.ld"@[1]);
        assert("csrs"@[1] != "c.sd"@[1]);
        assert(!spec_is_rv64_only_mnemonic(nm));
    } else if j == 18 {
        assert(nm == "csrc"@);
        assert(nm.len() == 4);
        assert("csrc"@[0] != "addw"@[0]);
        assert("csrc"@[0] != "subw"@[0]);
        assert("csrc"@[0] != "sllw"@[0]);
        assert("csrc"@[0] != "srlw"@[0]);
        assert("csrc"@[0] != "sraw"@[0]);
        assert("csrc"@[1] != "c.ld"@[1]);
        assert("csrc"@[1] != "c.sd"@[1]);
        assert(!spec_is_rv64_only_mnemonic(nm));
    } else if j == 19 {
        assert(nm == "csrwi"@);
        assert(nm.len() == 5);
        assert("csrwi"@[0] != "addiw"@[0]);
        assert("csrwi"@[0] != "slliw"@[0]);
        assert("csrwi"@[0] != "srliw"@[0]);
        assert("csrwi"@[0] != "sraiw"@[0]);
        assert(!spec_is_rv64_only_mnemonic(nm));
    } else if j == 20 {
        assert(nm == "csrsi"@);
        assert(nm.len() == 5);
        assert("csrsi"@[0] != "addiw"@[0]);
        assert("csrsi"@[0] != "slliw"@[0]);
        assert("csrsi"@[0] != "srliw"@[0]);
        assert("csrsi"@[0] != "sraiw"@[0]);
        assert(!spec_is_rv64_only_mnemonic(nm));
    } else {
        assert(nm == "csrci"@);
        assert(nm.len() == 5);
        assert("csrci"@[0] != "addiw"@[0]);
        assert("csrci"@[0] != "slliw"@[0]);
        assert("csrci"@[0] != "srliw"@[0]);
        assert("csrci"@[0] != "sraiw"@[0]);
        assert(!spec_is_rv64_only_mnemonic(nm));
    }
}

/// No entry of this group carries an RV64-only mnemonic.
#[verifier::rlimit(60)]
pub proof fn lemma_base_global_filters_rv32_safe(j: int)
    requires
        0 <= j < 52,
    ensures
        !spec_is_rv64_only_mnemonic(base_global_filter_at(j).name),
{
    reveal_strlit("add");
    reveal_strlit("addi");
    reveal_strlit("addiw");
    reveal_strlit("addw");
    reveal_strlit("and");
    reveal_strlit("andi");
    reveal_strlit("auipc");
    reveal_strlit("beq");
    reveal_strlit("bge");
    reveal_strlit("bgeu");
    reveal_strlit("blt");
    reveal_strlit("bltu");
    reveal_strlit("bne");
    reveal_strlit("c.addiw");
    reveal_strlit("c.addw");
    reveal_strlit("c.ld");
    reveal_strlit("c.ldsp");
    reveal_strlit("c.sd");
    reveal_strlit("c.sdsp");
    reveal_strlit("c.subw");
    reveal_strlit("csrrc");
    reveal_strlit("csrrci");
    reveal_strlit("csrrs");
    reveal_strlit("csrrsi");
    reveal_strlit("csrrw");
    reveal_strlit("csrrwi");
    reveal_strlit("ebreak");
    reveal_strlit("ecall");
    reveal_strlit("fence");
    reveal_strlit("fence.i");
    reveal_strlit("jal");
    reveal_strlit("jalr");
    reveal_strlit("lb");
    reveal_strlit("lbu");
    reveal_strlit("ld");
    reveal_strlit("lh");
    reveal_strlit("lhu");
    reveal_strlit("lui");
    reveal_strlit("lw");
    reveal_strlit("lwu");
    reveal_strlit("mret");
    reveal_strlit("or");
    reveal_strlit("ori");
    reveal_strlit("sb");
    reveal_strlit("sd");
    reveal_strlit("sext.w");
    reveal_strlit("sfence.vma");
    reveal_strlit("sh");
    reveal_strlit("sll");
    reveal_strlit("slli");
    reveal_strlit("slliw");
    reveal_strlit("sllw");
    reveal_strlit("slt");
    reveal_strlit("slti");
    reveal_strlit("sltiu");
    reveal_strlit("sltu");
    reveal_strlit("sra");
    reveal_strlit("srai");
    reveal_strlit("sraiw");
    reveal_strlit("sraw");
    reveal_strlit("sret");
    reveal_strlit("srl");
    reveal_strlit("srli");
    reveal_strlit("srliw");
    reveal_strlit("srlw");
    reveal_strlit("sub");
    reveal_strlit("subw");
    reveal_strlit("sw");
    reveal_strlit("uret");
    reveal_strlit("wfi");
    reveal_strlit("xor");
    reveal_strlit("xori");
    assert("addiw"@.len() == 5);
    assert("addw"@.len() == 4);
    assert("c.addiw"@.len() == 7);
    assert("c.addw"@.len() == 6);
    assert("c.ld"@.len() == 4);
    assert("c.ldsp"@.len() == 6);
    assert("c.sd"@.len() == 4);
    assert("c.sdsp"@.len() == 6);
    assert("c.subw"@.len() == 6);
    assert("ld"@.len() == 2);
    assert("lwu"@.len() == 3);
    assert("sd"@.len() == 2);
    assert("sext.w"@.len() == 6);
    assert("slliw"@.len() == 5);
    assert("sllw"@.len() == 4);
    assert("sraiw"@.len() == 5);
    assert("sraw"@.len() == 4);
    assert("srliw"@.len() == 5);
    assert("srlw"@.len() == 4);
    assert("subw"@.len() == 4);
    let nm = base_global_filter_at(j).name;
    if j == 0 {
        assert(nm == "addi"@);
        assert(nm.len() == 4);
        assert("addi"@[3] != "addw"@[3]);
        assert("addi"@[0] != "subw"@[0]);
        assert("addi"@[0] != "sllw"@[0]);
        assert("addi"@[0] != "srlw"@[0]);
        assert("addi"@[0] != "sraw"@[0]);
        assert("addi"@[0] != "c.ld"@[0]);
        assert("addi"@[0] != "c.sd"@[0]);
        assert(!spec_is_rv64_only_mnemonic(nm));
    } else if j == 1 {
        assert(nm == "slti"@);
        assert(nm.len() == 4);
        assert("slti"@[0] != "addw"@[0]);
        assert("slti"@[1] != "subw"@[1]);
        assert("slti"@[2] != "sllw"@[2]);
        assert("slti"@[1] != "srlw"@[1]);
        assert("slti"@[1] != "sraw"@[1]);
        assert("slti"@[0] != "c.ld"@[0]);
        assert("slti"@[0] != "c.sd"@[0]);
        assert(!spec_is_rv64_only_mnemonic(nm));
    } else if j == 2 {
        assert(nm == "sltiu"@);
        assert(nm.len() == 5);
        assert("sltiu"@[0] != "addiw"@[0]);
        assert("sltiu"@[2] != "slliw"@[2]);
        assert("sltiu"@[1] != "srliw"@[1]);
        assert("sltiu"@[1] != "sraiw"@[1]);
        assert(!spec_is_rv64_only_mnemonic(nm));
    } else if j == 3 {
        assert(nm == "ori"@);
        assert(nm.len() == 3);
        assert("ori"@[0] != "lwu"@[0]);
        assert(!spec_is_rv64_only_mnemonic(nm));
    } else if j == 4 {
        assert(nm == "xori"@);
        assert(nm.len() == 4);
        assert("xori"@[0] != "addw"@[0]);
        assert("xori"@[0] != "subw"@[0]);
        assert("xori"@[0] != "sllw"@[0]);
        assert("xori"@[0] != "srlw"@[0]);
        assert("xori"@[0] != "sraw"@[0]);
        assert("xori"@[0] != "c.ld"@[0]);
        assert("xori"@[0] != "c.sd"@[0]);
        assert(!spec_is_rv64_only_mnemonic(nm));
    } else if j == 5 {
        assert(nm == "andi"@);
        assert(nm.len() == 4);
        assert("andi"@[1] != "addw"@[1]);
        assert("andi"@[0] != "subw"@[0]);
        assert("andi"@[0] != "sllw"@[0]);
        assert("andi"@[0] != "srlw"@[0]);
        assert("andi"@[0] != "sraw"@[0]);
        assert("andi"@[0] != "c.ld"@[0]);
        assert("andi"@[0] != "c.sd"@[0]);
        assert(!spec_is_rv64_only_mnemonic(nm));
    } else if j == 6 {
        assert(nm == "slli"@);
        assert(nm.len() == 4);
        assert("slli"@[0] != "addw"@[0]);
        assert("slli"@[1] != "subw"@[1]);
        assert("slli"@[3] != "sllw"@[3]);
        assert("slli"@[1] != "srlw"@[1]);
        assert("slli"@[1] != "sraw"@[1]);
        assert("slli"@[0] != "c.ld"@[0]);
        assert("slli"@[0] != "c.sd"@[0]);
        assert(!spec_is_rv64_only_mnemonic(nm));
    } else if j == 7 {
        assert(nm == "srli"@);
        assert(nm.len() == 4);
        assert("srli"@[0] != "addw"@[0]);
        assert("srli"@[1] != "subw"@[1]);
        assert("srli"@[1] != "sllw"@[1]);
        assert("srli"@[3] != "srlw"@[3]);
        assert("srli"@[2] != "sraw"@[2]);
        assert("srli"@[0] != "c.ld"@[0]);
        assert("srli"@[0] != "c.sd"@[0]);
        assert(!spec_is_rv64_only_mnemonic(nm));
    } else if j == 8 {
        assert(nm == "srai"@);
        assert(nm.len() == 4);
        assert("srai"@[0] != "addw"@[0]);
        assert("srai"@[1] != "subw"@[1]);
        assert("srai"@[1] != "sllw"@[1]);
        assert("srai"@[2] != "srlw"@[2]);
        assert("srai"@[3] != "sraw"@[3]);
        assert("srai"@[0] != "c.ld"@[0]);
        assert("srai"@[0] != "c.sd"@[0]);
        assert(!spec_is_rv64_only_mnemonic(nm));
    } else if j == 9 {
        assert(nm == "lui"@);
        assert(nm.len() == 3);
        assert("lui"@[1] != "lwu"@[1]);
        assert(!spec_is_rv64_only_mnemonic(nm));
    } else if j == 10 {
        assert(nm == "auipc"@);
        assert(nm.len() == 5);
        assert("auipc"@[1] != "addiw"@[1]);
        assert("auipc"@[0] != "slliw"@[0]);
        assert("auipc"@[0] != "srliw"@[0]);
        assert("auipc"@[0] != "sraiw"@[0]);
        assert(!spec_is_rv64_only_mnemonic(nm));
    } else if j == 11 {
        assert(nm == "add"@);
        assert(nm.len() == 3);
        assert("add"@[0] != "lwu"@[0]);
        assert(!spec_is_rv64_only_mnemonic(nm));
    } else if j == 12 {
        assert(nm == "slt"@);
        assert(nm.len() == 3);
        assert("slt"@[0] != "lwu"@[0]);
        assert(!spec_is_rv64_only_mnemonic(nm));
    } else if j == 13 {
        assert(nm == "sltu"@);
        assert(nm.len() == 4);
        assert("sltu"@[0] != "addw"@[0]);
        assert("sltu"@[1] != "subw"@[1]);
        assert("sltu"@[2] != "sllw"@[2]);
        assert("sltu"@[1] != "srlw"@[1]);
        assert("sltu"@[1] != "sraw"@[1]);
        assert("sltu"@[0] != "c.ld"@[0]);
        assert("sltu"@[0] != "c.sd"@[0]);
        assert(!spec_is_rv64_only_mnemonic(nm));
    } else if j == 14 {
        assert(nm == "and"@);
        assert(nm.len() == 3);
        assert("and"@[0] != "lwu"@[0]);
        assert(!spec_is_rv64_only_mnemonic(nm));
    } else if j == 15 {
        assert(nm == "or"@);
        assert(nm.len() == 2);
        assert("or"@[0] != "ld"@[0]);
        assert("or"@[0] != "sd"@[0]);
        assert(!spec_is_rv64_only_mnemonic(nm));
    } else if j == 16 {
        assert(nm == "xor"@);
        assert(nm.len() == 3);
        assert("xor"@[0] != "lwu"@[0]);
        assert(!spec_is_rv64_only_mnemonic(nm));
    } else if j == 17 {
        assert(nm == "sll"@);
        assert(nm.len() == 3);
        assert("sll"@[0] != "lwu"@[0]);
        assert(!spec_is_rv64_only_mnemonic(nm));
    } else if j == 18 {
        assert(nm == "srl"@);
        assert(nm.len() == 3);
        assert("srl"@[0] != "lwu"@[0]);
        assert(!spec_is_rv64_only_mnemonic(nm));
    } else if j == 19 {
        assert(nm == "sub"@);
        assert(nm.len() == 3);
        assert("sub"@[0] != "lwu"@[0]);
        assert(!spec_is_rv64_only_mnemonic(nm));
    } else if j == 20 {
        assert(nm == "sra"@);
        assert(nm.len() == 3);
        assert("sra"@[0] != "lwu"@[0]);
        assert(!spec_is_rv64_only_mnemonic(nm));
    } else if j == 21 {
        assert(nm == "jal"@);
        assert(nm.len() == 3);
        assert("jal"@[0] != "lwu"@[0]);
        assert(!spec_is_rv64_only_mnemonic(nm));
    } else if j == 22 {
        assert(nm == "jalr"@);
        assert(nm.len() == 4);
        assert("jalr"@[0] != "addw"@[0]);
        assert("jalr"@[0] != "subw"@[0]);
        assert("jalr"@[0] != "sllw"@[0]);
        assert("jalr"@[0] != "srlw"@[0]);
        assert("jalr"@[0] != "sraw"@[0]);
        assert("jalr"@[0] != "c.ld"@[0]);
        assert("jalr"@[0] != "c.sd"@[0]);
        assert(!spec_is_rv64_only_mnemonic(nm));
    } else if j == 23 {
        assert(nm == "beq"@);
        assert(nm.len() == 3);
        assert("beq"@[0] != "lwu"@[0]);
        assert(!spec_is_rv64_only_mnemonic(nm));
    } else if j == 24 {
        assert(nm == "bne"@);
        assert(nm.len() == 3);
        assert("bne"@[0] != "lwu"@[0]);
        assert(!spec_is_rv64_only_mnemonic(nm));
    } else if j == 25 {
        assert(nm == "blt"@);
        assert(nm.len() == 3);
        assert("blt"@[0] != "lwu"@[0]);
        assert(!spec_is_rv64_only_mnemonic(nm));
    } else if j == 26 {
        assert(nm == "bltu"@);
        assert(nm.len() == 4);
        assert("bltu"@[0] != "addw"@[0]);
        assert("bltu"@[0] != "subw"@[0]);
        assert("bltu"@[0] != "sllw"@[0]);
        assert("bltu"@[0] != "srlw"@[0]);
        assert("bltu"@[0] != "sraw"@[0]);
        assert("bltu"@[0] != "c.ld"@[0]);
        assert("bltu"@[0] != "c.sd"@[0]);
        assert(!spec_is_rv64_only_mnemonic(nm));
    } else if j == 27 {
        assert(nm == "bge"@);
        assert(nm.len() == 3);
        assert("bge"@[0] != "lwu"@[0]);
        assert(!spec_is_rv64_only_mnemonic(nm));
    } else if j == 28 {
        assert(nm == "bgeu"@);
        assert(nm.len() == 4);
        assert("bgeu"@[0] != "addw"@[0]);
        assert("bgeu"@[0] != "subw"@[0]);
        assert("bgeu"@[0] != "sllw"@[0]);
        assert("bgeu"@[0] != "srlw"@[0]);
        assert("bgeu"@[0] != "sraw"@[0]);
        assert("bgeu"@[0] != "c.ld"@[0]);
        assert("bgeu"@[0] != "c.sd"@[0]);
        assert(!spec_is_rv64_only_mnemonic(nm));
    } else if j == 29 {
        assert(nm == "lb"@);
        assert(nm.len() == 2);
        assert("lb"@[1] != "ld"@[1]);
        assert("lb"@[0] != "sd"@[0]);
        assert(!spec_is_rv64_only_mnemonic(nm));
    } else if j == 30 {
        assert(nm == "lbu"@);
        assert(nm.len() == 3);
        assert("lbu"@[1] != "lwu"@[1]);
        assert(!spec_is_rv64_only_mnemonic(nm));
    } else if j == 31 {
        assert(nm == "lh"@);
        assert(nm.len() == 2);
        assert("lh"@[1] != "ld"@[1]);
        assert("lh"@[0] != "sd"@[0]);
        assert(!spec_is_rv64_only_mnemonic(nm));
    } else if j == 32 {
        assert(nm == "lhu"@);
        assert(nm.len() == 3);
        assert("lhu"@[1] != "lwu"@[1]);
        assert(!spec_is_rv64_only_mnemonic(nm));
    } else if j == 33 {
        assert(nm == "lw"@);
        assert(nm.len() == 2);
        assert("lw"@[1] != "ld"@[1]);
        assert("lw"@[0] != "sd"@[0]);
        assert(!spec_is_rv64_only_mnemonic(nm));
    } else if j == 34 {
        assert(nm == "sb"@);
        assert(nm.len() == 2);
        assert("sb"@[0] != "ld"@[0]);
        assert("sb"@[1] != "sd"@[1]);
        assert(!spec_is_rv64_only_mnemonic(nm));
    } else if j == 35 {
        assert(nm == "sh"@);
        assert(nm.len() == 2);
        assert("sh"@[0] != "ld"@[0]);
        assert("sh"@[1] != "sd"@[1]);
        assert(!spec_is_rv64_only_mnemonic(nm));
    } else if j == 36 {
        assert(nm == "sw"@);
        assert(nm.len() == 2);
        assert("sw"@[0] != "ld"@[0]);
        assert("sw"@[1] != "sd"@[1]);
        assert(!spec_is_rv64_only_mnemonic(nm));
    } else if j == 37 {
        assert(nm == "fence"@);
        assert(nm.len() == 5);
        assert("fence"@[0] != "addiw"@[0]);
        assert("fence"@[0] != "slliw"@[0]);
        assert("fence"@[0] != "srliw"@[0]);
        assert("fence"@[0] != "sraiw"@[0]);
        assert(!spec_is_rv64_only_mnemonic(nm));
    } else if j == 38 {
        assert(nm == "fence.i"@);
        assert(nm.len() == 7);
        assert("fence.i"@[0] != "c.addiw"@[0]);
        assert(!spec_is_rv64_only_mnemonic(nm));
    } else if j == 39 {
        assert(nm == "ecall"@);
        assert(nm.len() == 5);
        assert("ecall"@[0] != "addiw"@[0]);
        assert("ecall"@[0] != "slliw"@[0]);
        assert("ecall"@[0] != "srliw"@[0]);
        assert("ecall"@[0] != "sraiw"@[0]);
        assert(!spec_is_rv64_only_mnemonic(nm));
    } else if j == 40 {
        assert(nm == "ebreak"@);
        assert(nm.len() == 6);
        assert("ebreak"@[0] != "c.ldsp"@[0]);
        assert("ebreak"@[0] != "c.sdsp"@[0]);
        assert("ebreak"@[0] != "c.addw"@[0]);
        assert("ebreak"@[0] != "c.subw"@[0]);
        assert("ebreak"@[0] != "sext.w"@[0]);
        assert(!spec_is_rv64_only_mnemonic(nm));
    } else if j == 41 {
        assert(nm == "wfi"@);
        assert(nm.len() == 3);
        assert("wfi"@[0] != "lwu"@[0]);
        assert(!spec_is_rv64_only_mnemonic(nm));
    } else if j == 42 {
        assert(nm == "mret"@);
        assert(nm.len() == 4);
        assert("mret"@[0] != "addw"@[0]);
        assert("mret"@[0] != "subw"@[0]);
        assert("mret"@[0] != "sllw"@[0]);
        assert("mret"@[0] != "srlw"@[0]);
        assert("mret"@[0] != "sraw"@[0]);
        assert("mret"@[0] != "c.ld"@[0]);
        assert("mret"@[0] != "c.sd"@[0]);
        assert(!spec_is_rv64_only_mnemonic(nm));
    } else if j == 43 {
        assert(nm == "sret"@);
        assert(nm.len() == 4);
        assert("sret"@[0] != "addw"@[0]);
        assert("sret"@[1] != "subw"@[1]);
        assert("sret"@[1] != "sllw"@[1]);
        assert("sret"@[2] != "srlw"@[2]);
        assert("sret"@[2] != "sraw"@[2]);
        assert("sret"@[0] != "c.ld"@[0]);
        assert("sret"@[0] != "c.sd"@[0]);
        assert(!spec_is_rv64_only_mnemonic(nm));
    } else if j == 44 {
        assert(nm == "uret"@);
        assert(nm.len() == 4);
        assert("uret"@[0] != "addw"@[0]);
        assert("uret"@[0] != "subw"@[0]);
        assert("uret"@[0] != "sllw"@[0]);
        assert("uret"@[0] != "srlw"@[0]);
        assert("uret"@[0] != "sraw"@[0]);
        assert("uret"@[0] != "c.ld"@[0]);
        assert("uret"@[0] != "c.sd"@[0]);
        assert(!spec_is_rv64_only_mnemonic(nm));
    } else if j == 45 {
        assert(nm == "sfence.vma"@);
        assert(nm.len() == 10);
        assert(!spec_is_rv64_only_mnemonic(nm));
    } else if j == 46 {
        assert(nm == "csrrw"@);
        assert(nm.len() == 5);
        assert("csrrw"@[0] != "addiw"@[0]);
        assert("csrrw"@[0] != "slliw"@[0]);
        assert("csrrw"@[0] != "srliw"@[0]);
        assert("csrrw"@[0] != "sraiw"@[0]);
        assert(!spec_is_rv64_only_mnemonic(nm));
    } else if j == 47 {
        assert(nm == "csrrs"@);
        assert(nm.len() == 5);
        assert("csrrs"@[0] != "addiw"@[0]);
        assert("csrrs"@[0] != "slliw"@[0]);
        assert("csrrs"@[0] != "srliw"@[0]);
        assert("csrrs"@[0] != "sraiw"@[0]);
        assert(!spec_is_rv64_only_mnemonic(nm));
    } else if j == 48 {
        assert(nm == "csrrc"@);
        assert(nm.len() == 5);
        assert("csrrc"@[0] != "addiw"@[0]);
        assert("csrrc"@[0] != "slliw"@[0]);
        assert("csrrc"@[0] != "srliw"@[0]);
        assert("csrrc"@[0] != "sraiw"@[0]);
        assert(!spec_is_rv64_only_mnemonic(nm));
    } else if j == 49 {
        assert(nm == "csrrwi"@);
        assert(nm.len() == 6);
        assert("csrrwi"@[1] != "c.ldsp"@[1]);
        assert("csrrwi"@[1] != "c.sdsp"@[1]);
        assert("csrrwi"@[1] != "c.addw"@[1]);
        assert("csrrwi"@[1] != "c.subw"@[1]);
        assert("csrrwi"@[0] != "sext.w"@[0]);
        assert(!spec_is_rv64_only_mnemonic(nm));
    } else if j == 50 {
        assert(nm == "csrrsi"@);
        assert(nm.len() == 6);
        assert("csrrsi"@[1] != "c.ldsp"@[1]);
        assert("csrrsi"@[1] != "c.sdsp"@[1]);
        assert("csrrsi"@[1] != "c.addw"@[1]);
        assert("csrrsi"@[1] != "c.subw"@[1]);
        assert("csrrsi"@[0] != "sext.w"@[0]);
        assert(!spec_is_rv64_only_mnemonic(nm));
    } else {
        assert(nm == "csrrci"@);
        assert(nm.len() == 6);
        assert("csrrci"@[1] != "c.ldsp"@[1]);
        assert("csrrci"@[1] != "c.sdsp"@[1]);
        assert("csrrci"@[1] != "c.addw"@[1]);
        assert("csrrci"@[1] != "c.subw"@[1]);
        assert("csrrci"@[0] != "sext.w"@[0]);
        assert(!spec_is_rv64_only_mnemonic(nm));
    }
}

/// No entry of this group carries an RV64-only mnemonic.
#[verifier::rlimit(60)]
pub proof fn lemma_m_ext_filters_rv32_safe(j: int)
    requires
        0 <= j < 13,
    ensures
        !spec_is_rv64_only_mnemonic(m_ext_filter_at(j).name),
{
    reveal_strlit("addiw");
    reveal_strlit("addw");
    reveal_strlit("c.addiw");
    reveal_strlit("c.addw");
    reveal_strlit("c.ld");
    reveal_strlit("c.ldsp");
    reveal_strlit("c.sd");
    reveal_strlit("c.sdsp");
    reveal_strlit("c.subw");
    reveal_strlit("div");
    reveal_strlit("divu");
    reveal_strlit("divuw");
    reveal_strlit("divw");
    reveal_strlit("ld");
    reveal_strlit("lwu");
    reveal_strlit("mul");
    reveal_strlit("mulh");
    reveal_strlit("mulhsu");
    reveal_strlit("mulhu");
    reveal_strlit("mulw");
    reveal_strlit("rem");
    reveal_strlit("remu");
    reveal_strlit("remuw");
    reveal_strlit("remw");
    reveal_strlit("sd");
    reveal_strlit("sext.w");
    reveal_strlit("slliw");
    reveal_strlit("sllw");
    reveal_strlit("sraiw");
    reveal_strlit("sraw");
    reveal_strlit("srliw");
    reveal_strlit("srlw");
    reveal_strlit("subw");
    assert("addiw"@.len() == 5);
    assert("addw"@.len() == 4);
    assert("c.addiw"@.len() == 7);
    assert("c.addw"@.len() == 6);
    assert("c.ld"@.len() == 4);
    assert("c.ldsp"@.len() == 6);
    assert("c.sd"@.len() == 4);
    assert("c.sdsp"@.len() == 6);
    assert("c.subw"@.len() == 6);
    assert("ld"@.len() == 2);
    assert("lwu"@.len() == 3);
    assert("sd"@.len() == 2);
    assert("sext.w"@.len() == 6);
    assert("slliw"@.len() == 5);
    assert("sllw"@.len() == 4);
    assert("sraiw"@.len() == 5);
    assert("sraw"@.len() == 4);
    assert("srliw"@.len() == 5);
    assert("srlw"@.len() == 4);
    assert("subw"@.len() == 4);
    let nm = m_ext_filter_at(j).name;
    if j == 0 {
        assert(nm == "mul"@);
        assert(nm.len() == 3);
        assert("mul"@[0] != "lwu"@[0]);
        assert(!spec_is_rv64_only_mnemonic(nm));
    } else if j == 1 {
        assert(nm == "mulh"@);
        assert(nm.len() == 4);
        assert("mulh"@[0] != "addw"@[0]);
        assert("mulh"@[0] != "subw"@[0]);
        assert("mulh"@[0] != "sllw"@[0]);
        assert("mulh"@[0] != "srlw"@[0]);
        assert("mulh"@[0] != "sraw"@[0]);
        assert("mulh"@[0] != "c.ld"@[0]);
        assert("mulh"@[0] != "c.sd"@[0]);
        assert(!spec_is_rv64_only_mnemonic(nm));
    } else if j == 2 {
        assert(nm == "mulhu"@);
        assert(nm.len() == 5);
        assert("mulhu"@[0] != "addiw"@[0]);
        assert("mulhu"@[0] != "slliw"@[0]);
        assert("mulhu"@[0] != "srliw"@[0]);
        assert("mulhu"@[0] != "sraiw"@[0]);
        assert(!spec_is_rv64_only_mnemonic(nm));
    } else if j == 3 {
        assert(nm == "mulhsu"@);
        assert(nm.len() == 6);
        assert("mulhsu"@[0] != "c.ldsp"@[0]);
        assert("mulhsu"@[0] != "c.sdsp"@[0]);
        assert("mulhsu"@[0] != "c.addw"@[0]);
        assert("mulhsu"@[0] != "c.subw"@[0]);
        assert("mulhsu"@[0] != "sext.w"@[0]);
        assert(!spec_is_rv64_only_mnemonic(nm));
    } else if j == 4 {
        assert(nm == "mulw"@);
        assert(nm.len() == 4);
        assert("mulw"@[0] != "addw"@[0]);
        assert("mulw"@[0] != "subw"@[0]);
        assert("mulw"@[0] != "sllw"@[0]);
        assert("mulw"@[0] != "srlw"@[0]);
        assert("mulw"@[0] != "sraw"@[0]);
        assert("mulw"@[0] != "c.ld"@[0]);
        assert("mulw"@[0] != "c.sd"@[0]);
        assert(!spec_is_rv64_only_mnemonic(nm));
    } else if j == 5 {
        assert(nm == "div"@);
        assert(nm.len() == 3);
        assert("div"@[0] != "lwu"@[0]);
        assert(!spec_is_rv64_only_mnemonic(nm));
    } else if j == 6 {
        assert(nm == "divu"@);
        assert(nm.len() == 4);
        assert("divu"@[0] != "addw"@[0]);
        assert("divu"@[0] != "subw"@[0]);
        assert("divu"@[0] != "sllw"@[0]);
        assert("divu"@[0] != "srlw"@[0]);
        assert("divu"@[0] != "sraw"@[0]);
        assert("divu"@[0] != "c.ld"@[0]);
        assert("divu"@[0] != "c.sd"@[0]);
        assert(!spec_is_rv64_only_mnemonic(nm));
    } else if j == 7 {
        assert(nm == "rem"@);
        assert(nm.len() == 3);
        assert("rem"@[0] != "lwu"@[0]);
        assert(!spec_is_rv64_only_mnemonic(nm));
    } else if j == 8 {
        assert(nm == "remu"@);
        assert(nm.len() == 4);
        assert("remu"@[0] != "addw"@[0]);
        assert("remu"@[0] != "subw"@[0]);
        assert("remu"@[0] != "sllw"@[0]);
        assert("remu"@[0] != "srlw"@[0]);
        assert("remu"@[0] != "sraw"@[0]);
        assert("remu"@[0] != "c.ld"@[0]);
        assert("remu"@[0] != "c.sd"@[0]);
        assert(!spec_is_rv64_only_mnemonic(nm));
    } else if j == 9 {
        assert(nm == "divw"@);
        assert(nm.len() == 4);
        assert("divw"@[0] != "addw"@[0]);
        assert("divw"@[0] != "subw"@[0]);
        assert("divw"@[0] != "sllw"@[0]);
        assert("divw"@[0] != "srlw"@[0]);
        assert("divw"@[0] != "sraw"@[0]);
        assert("divw"@[0] != "c.ld"@[0]);
        assert("divw"@[0] != "c.sd"@[0]);
        assert(!spec_is_rv64_only_mnemonic(nm));
    } else if j == 10 {
        assert(nm == "divuw"@);
        assert(nm.len() == 5);
        assert("divuw"@[0] != "addiw"@[0]);
        assert("divuw"@[0] != "slliw"@[0]);
        assert("divuw"@[0] != "srliw"@[0]);
        assert("divuw"@[0] != "sraiw"@[0]);
        assert(!spec_is_rv64_only_mnemonic(nm));
    } else if j == 11 {
        assert(nm == "remw"@);
        assert(nm.len() == 4);
        assert("remw"@[0] != "addw"@[0]);
        assert("remw"@[0] != "subw"@[0]);
        assert("remw"@[0] != "sllw"@[0]);
        assert("remw"@[0] != "srlw"@[0]);
        assert("remw"@[0] != "sraw"@[0]);
        assert("remw"@[0] != "c.ld"@[0]);
        assert("remw"@[0] != "c.sd"@[0]);
        assert(!spec_is_rv64_only_mnemonic(nm));
    } else {
        assert(nm == "remuw"@);
        assert(nm.len() == 5);
        assert("remuw"@[0] != "addiw"@[0]);
        assert("remuw"@[0] != "slliw"@[0]);
        assert("remuw"@[0] != "srliw"@[0]);
        assert("remuw"@[0] != "sraiw"@[0]);
        assert(!spec_is_rv64_only_mnemonic(nm));
    }
}

/// No entry of this group carries an RV64-only mnemonic.
#[verifier::rlimit(60)]
pub proof fn lemma_a_ext_filters_rv32_safe(j: int)
    requires
        0 <= j < 22,
    ensures
        !spec_is_rv64_only_mnemonic(a_ext_filter_at(j).name),
{
    reveal_strlit("addiw");
    reveal_strlit("addw");
    reveal_strlit("amoadd.d");
    reveal_strlit("amoadd.w");
    reveal_strlit("amoand.d");
    reveal_strlit("amoand.w");
    reveal_strlit("amomax.d");
    reveal_strlit("amomax.w");
    reveal_strlit("amomaxu.d");
    reveal_strlit("amomaxu.w");
    reveal_strlit("amomin.d");
    reveal_strlit("amomin.w");
    reveal_strlit("amominu.d");
    reveal_strlit("amominu.w");
    reveal_strlit("amoor.d");
    reveal_strlit("amoor.w");
    reveal_strlit("amoswap.d");
    reveal_strlit("amoswap.w");
    reveal_strlit("amoxor.d");
    reveal_strlit("amoxor.w");
    reveal_strlit("c.addiw");
    reveal_strlit("c.addw");
    reveal_strlit("c.ld");
    reveal_strlit("c.ldsp");
    reveal_strlit("c.sd");
    reveal_strlit("c.sdsp");
    reveal_strlit("c.subw");
    reveal_strlit("ld");
    reveal_strlit("lr.d");
    reveal_strlit("lr.w");
    reveal_strlit("lwu");
    reveal_strlit("sc.d");
    reveal_strlit("sc.w");
    reveal_strlit("sd");
    reveal_strlit("sext.w");
    reveal_strlit("slliw");
    reveal_strlit("sllw");
    reveal_strlit("sraiw");
    reveal_strlit("sraw");
    reveal_strlit("srliw");
    reveal_strlit("srlw");
    reveal_strlit("subw");
    assert("addiw"@.len() == 5);
    assert("addw"@.len() == 4);
    assert("c.addiw"@.len() == 7);
    assert("c.addw"@.len() == 6);
    assert("c.ld"@.len() == 4);
    assert("c.ldsp"@.len() == 6);
    assert("c.sd"@.len() == 4);
    assert("c.sdsp"@.len() == 6);
    assert("c.subw"@.len() == 6);
    assert("ld"@.len() == 2);
    assert("lwu"@.len() == 3);
    assert("sd"@.len() == 2);
    assert("sext.w"@.len() == 6);
    assert("slliw"@.len() == 5);
    assert("sllw"@.len() == 4);
    assert("sraiw"@.len() == 5);
    assert("sraw"@.len() == 4);
    assert("srliw"@.len() == 5);
    assert("srlw"@.len() == 4);
    assert("subw"@.len() == 4);
    let nm = a_ext_filter_at(j).name;
    if j == 0 {
        assert(nm == "lr.w"@);
        assert(nm.len() == 4);
        assert("lr.w"@[0] != "addw"@[0]);
        assert("lr.w"@[0] != "subw"@[0]);
        assert("lr.w"@[0] != "sllw"@[0]);
        assert("lr.w"@[0] != "srlw"@[0]);
        assert("lr.w"@[0] != "sraw"@[0]);
        assert("lr.w"@[0] != "c.ld"@[0]);
        assert("lr.w"@[0] != "c.sd"@[0]);
        assert(!spec_is_rv64_only_mnemonic(nm));
    } else if j == 1 {
        assert(nm == "sc.w"@);
        assert(nm.len() == 4);
        assert("sc.w"@[0] != "addw"@[0]);
        assert("sc.w"@[1] != "subw"@[1]);
        assert("sc.w"@[1] != "sllw"@[1]);
        assert("sc.w"@[1] != "srlw"@[1]);
        assert("sc.w"@[1] != "sraw"@[1]);
        assert("sc.w"@[0] != "c.ld"@[0]);
        assert("sc.w"@[0] != "c.sd"@[0]);
        assert(!spec_is_rv64_only_mnemonic(nm));
    } else if j == 2 {
        assert(nm == "lr.d"@);
        assert(nm.len() == 4);
        assert("lr.d"@[0] != "addw"@[0]);
        assert("lr.d"@[0] != "subw"@[0]);
        assert("lr.d"@[0] != "sllw"@[0]);
        assert("lr.d"@[0] != "srlw"@[0]);
        assert("lr.d"@[0] != "sraw"@[0]);
        assert("lr.d"@[0] != "c.ld"@[0]);
        assert("lr.d"@[0] != "c.sd"@[0]);
        assert(!spec_is_rv64_only_mnemonic(nm));
    } else if j == 3 {
        assert(nm == "sc.d"@);
        assert(nm.len() == 4);
        assert("sc.d"@[0] != "addw"@[0]);
        assert("sc.d"@[1] != "subw"@[1]);
        assert("sc.d"@[1] != "sllw"@[1]);
        assert("sc.d"@[1] != "srlw"@[1]);
        assert("sc.d"@[1] != "sraw"@[1]);
        assert("sc.d"@[0] != "c.ld"@[0]);
        assert("sc.d"@[0] != "c.sd"@[0]);
        assert(!spec_is_rv64_only_mnemonic(nm));
    } else if j == 4 {
        assert(nm == "amoswap.w"@);
        assert(nm.len() == 9);
        assert(!spec_is_rv64_only_mnemonic(nm));
    } else if j == 5 {
        assert(nm == "amoswap.d"@);
        assert(nm.len() == 9);
        assert(!spec_is_rv64_only_mnemonic(nm));
    } else if j == 6 {
        assert(nm == "amoadd.w"@);
        assert(nm.len() == 8);
        assert(!spec_is_rv64_only_mnemonic(nm));
    } else if j == 7 {
        assert(nm == "amoadd.d"@);
        assert(nm.len() == 8);
        assert(!spec_is_rv64_only_mnemonic(nm));
    } else if j == 8 {
        assert(nm == "amoand.w"@);
        assert(nm.len() == 8);
        assert(!spec_is_rv64_only_mnemonic(nm));
    } else if j == 9 {
        assert(nm == "amoand.d"@);
        assert(nm.len() == 8);
        assert(!spec_is_rv64_only_mnemonic(nm));
    } else if j == 10 {
        assert(nm == "amoor.w"@);
        assert(nm.len() == 7);
        assert("amoor.w"@[0] != "c.addiw"@[0]);
        assert(!spec_is_rv64_only_mnemonic(nm));
    } else if j == 11 {
        assert(nm == "amoor.d"@);
        assert(nm.len() == 7);
        assert("amoor.d"@[0] != "c.addiw"@[0]);
        assert(!spec_is_rv64_only_mnemonic(nm));
    } else if j == 12 {
        assert(nm == "amoxor.w"@);
        assert(nm.len() == 8);
        assert(!spec_is_rv64_only_mnemonic(nm));
    } else if j == 13 {
        assert(nm == "amoxor.d"@);
        assert(nm.len() == 8);
        assert(!spec_is_rv64_only_mnemonic(nm));
    } else if j == 14 {
        assert(nm == "amomax.w"@);
        assert(nm.len() == 8);
        assert(!spec_is_rv64_only_mnemonic(nm));
    } else if j == 15 {
        assert(nm == "amomax.d"@);
        assert(nm.len() == 8);
        assert(!spec_is_rv64_only_mnemonic(nm));
    } else if j == 16 {
        assert(nm == "amomaxu.w"@);
        assert(nm.len() == 9);
        assert(!spec_is_rv64_only_mnemonic(nm));
    } else if j == 17 {
        assert(nm == "amomaxu.d"@);
        assert(nm.len() == 9);
        assert(!spec_is_rv64_only_mnemonic(nm));
    } else if j == 18 {
        assert(nm == "amomin.w"@);
        assert(nm.len() == 8);
        assert(!spec_is_rv64_only_mnemonic(nm));
    } else if j == 19 {
        assert(nm == "amomin.d"@);
        assert(nm.len() == 8);
        assert(!spec_is_rv64_only_mnemonic(nm));
    } else if j == 20 {
        assert(nm == "amominu.w"@);
        assert(nm.len() == 9);
        assert(!spec_is_rv64_only_mnemonic(nm));
    } else {
        assert(nm == "amominu.d"@);
        assert(nm.len() == 9);
        assert(!spec_is_rv64_only_mnemonic(nm));
    }
}

/// No entry of this group carries an RV64-only mnemonic.
#[verifier::rlimit(60)]
pub proof fn lemma_f_ext_filters_rv32_safe(j: int)
    requires
        0 <= j < 30,
    ensures
        !spec_is_rv64_only_mnemonic(f_ext_filter_at(j).name),
{
    reveal_strlit("addiw");
    reveal_strlit("addw");
    reveal_strlit("c.addiw");
    reveal_strlit("c.addw");
    reveal_strlit("c.ld");
    reveal_strlit("c.ldsp");
    reveal_strlit("c.sd");
    reveal_strlit("c.sdsp");
    reveal_strlit("c.subw");
    reveal_strlit("fadd.s");
    reveal_strlit("fclass.s");
    reveal_strlit("fcvt.l.s");
    reveal_strlit("fcvt.lu.s");
    reveal_strlit("fcvt.s.l");
    reveal_strlit("fcvt.s.lu");
    reveal_strlit("fcvt.s.w");
    reveal_strlit("fcvt.s.wu");
    reveal_strlit("fcvt.w.s");
    reveal_strlit("fcvt.wu.s");
    reveal_strlit("fdiv.s");
    reveal_strlit("feq.s");
    reveal_strlit("fle.s");
    reveal_strlit("flt.s");
    reveal_strlit("flw");
    reveal_strlit("fmadd.s");
    reveal_strlit("fmax.s");
    reveal_strlit("fmin.s");
    reveal_strlit("fmsub.s");
    reveal_strlit("fmul.s");
    reveal_strlit("fmv.w.x");
    reveal_strlit("fmv.x.w");
    reveal_strlit("fnmadd.s");
    reveal_strlit("fnmsub.s");
    reveal_strlit("fsgnj.s");
    reveal_strlit("fsgnjn.s");
    reveal_strlit("fsgnjx.s");
    reveal_strlit("fsqrt.s");
    reveal_strlit("fsub.s");
    reveal_strlit("fsw");
    reveal_strlit("ld");
    reveal_strlit("lwu");
    reveal_strlit("sd");
    reveal_strlit("sext.w");
    reveal_strlit("slliw");
    reveal_strlit("sllw");
    reveal_strlit("sraiw");
    reveal_strlit("sraw");
    reveal_strlit("srliw");
    reveal_strlit("srlw");
    reveal_strlit("subw");
    assert("addiw"@.len() == 5);
    assert("addw"@.len() == 4);
    assert("c.addiw"@.len() == 7);
    assert("c.addw"@.len() == 6);
    assert("c.ld"@.len() == 4);
    assert("c.ldsp"@.len() == 6);
    assert("c.sd"@.len() == 4);
    assert("c.sdsp"@.len() == 6);
    assert("c.subw"@.len() == 6);
    assert("ld"@.len() == 2);
    assert("lwu"@.len() == 3);
    assert("sd"@.len() == 2);
    assert("sext.w"@.len() == 6);
    assert("slliw"@.len() == 5);
    assert("sllw"@.len() == 4);
    assert("sraiw"@.len() == 5);
    assert("sraw"@.len() == 4);
    assert("srliw"@.len() == 5);
    assert("srlw"@.len() == 4);
    assert("subw"@.len() == 4);
    let nm = f_ext_filter_at(j).name;
    if j == 0 {
        assert(nm == "flw"@);
        assert(nm.len() == 3);
        assert("flw"@[0] != "lwu"@[0]);
        assert(!spec_is_rv64_only_mnemonic(nm));
    } else if j == 1 {
        assert(nm == "fsw"@);
        assert(nm.len() == 3);
        assert("fsw"@[0] != "lwu"@[0]);
        assert(!spec_is_rv64_only_mnemonic(nm));
    } else if j == 2 {
        assert(nm == "fadd.s"@);
        assert(nm.len() == 6);
        assert("fadd.s"@[0] != "c.ldsp"@[0]);
        assert("fadd.s"@[0] != "c.sdsp"@[0]);
        assert("fadd.s"@[0] != "c.addw"@[0]);
        assert("fadd.s"@[0] != "c.subw"@[0]);
        assert("fadd.s"@[0] != "sext.w"@[0]);
        assert(!spec_is_rv64_only_mnemonic(nm));
    } else if j == 3 {
        assert(nm == "fsub.s"@);
        assert(nm.len() == 6);
        assert("fsub.s"@[0] != "c.ldsp"@[0]);
        assert("fsub.s"@[0] != "c.sdsp"@[0]);
        assert("fsub.s"@[0] != "c.addw"@[0]);
        assert("fsub.s"@[0] != "c.subw"@[0]);
        assert("fsub.s"@[0] != "sext.w"@[0]);
        assert(!spec_is_rv64_only_mnemonic(nm));
    } else if j == 4 {
        assert(nm == "fmul.s"@);
        assert(nm.len() == 6);
        assert("fmul.s"@[0] != "c.ldsp"@[0]);
        assert("fmul.s"@[0] != "c.sdsp"@[0]);
        assert("fmul.s"@[0] != "c.addw"@[0]);
        assert("fmul.s"@[0] != "c.subw"@[0]);
        assert("fmul.s"@[0] != "sext.w"@[0]);
        assert(!spec_is_rv64_only_mnemonic(nm));
    } else if j == 5 {
        assert(nm == "fdiv.s"@);
        assert(nm.len() == 6);
        assert("fdiv.s"@[0] != "c.ldsp"@[0]);
        assert("fdiv.s"@[0] != "c.sdsp"@[0]);
        assert("fdiv.s"@[0] != "c.addw"@[0]);
        assert("fdiv.s"@[0] != "c.subw"@[0]);
        assert("fdiv.s"@[0] != "sext.w"@[0]);
        assert(!spec_is_rv64_only_mnemonic(nm));
    } else if j == 6 {
        assert(nm == "fsqrt.s"@);
        assert(nm.len() == 7);
        assert("fsqrt.s"@[0] != "c.addiw"@[0]);
        assert(!spec_is_rv64_only_mnemonic(nm));
    } else if j == 7 {
        assert(nm == "fmin.s"@);
        assert(nm.len() == 6);
        assert("fmin.s"@[0] != "c.ldsp"@[0]);
        assert("fmin.s"@[0] != "c.sdsp"@[0]);
        assert("fmin.s"@[0] != "c.addw"@[0]);
        assert("fmin.s"@[0] != "c.subw"@[0]);
        assert("fmin.s"@[0] != "sext.w"@[0]);
        assert(!spec_is_rv64_only_mnemonic(nm));
    } else if j == 8 {
        assert(nm == "fmax.s"@);
        assert(nm.len() == 6);
        assert("fmax.s"@[0] != "c.ldsp"@[0]);
        assert("fmax.s"@[0] != "c.sdsp"@[0]);
        assert("fmax.s"@[0] != "c.addw"@[0]);
        assert("fmax.s"@[0] != "c.subw"@[0]);
        assert("fmax.s"@[0] != "sext.w"@[0]);
        assert(!spec_is_rv64_only_mnemonic(nm));
    } else if j == 9 {
        assert(nm == "fmadd.s"@);
        assert(nm.len() == 7);
        assert("fmadd.s"@[0] != "c.addiw"@[0]);
        assert(!spec_is_rv64_only_mnemonic(nm));
    } else if j == 10 {
        assert(nm == "fnmadd.s"@);
        assert(nm.len() == 8);
        assert(!spec_is_rv64_only_mnemonic(nm));
    } else if j == 11 {
        assert(nm == "fmsub.s"@);
        assert(nm.len() == 7);
        assert("fmsub.s"@[0] != "c.addiw"@[0]);
        assert(!spec_is_rv64_only_mnemonic(nm));
    } else if j == 12 {
        assert(nm == "fnmsub.s"@);
        assert(nm.len() == 8);
        assert(!spec_is_rv64_only_mnemonic(nm));
    } else if j == 13 {
        assert(nm == "fcvt.s.w"@);
        assert(nm.len() == 8);
        assert(!spec_is_rv64_only_mnemonic(nm));
    } else if j == 14 {
        assert(nm == "fcvt.s.l"@);
        assert(nm.len() == 8);
        assert(!spec_is_rv64_only_mnemonic(nm));
    } else if j == 15 {
        assert(nm == "fcvt.s.wu"@);
        assert(nm.len() == 9);
        assert(!spec_is_rv64_only_mnemonic(nm));
    } else if j == 16 {
        assert(nm == "fcvt.s.lu"@);
        assert(nm.len() == 9);
        assert(!spec_is_rv64_only_mnemonic(nm));
    } else if j == 17 {
        assert(nm == "fcvt.w.s"@);
        assert(nm.len() == 8);
        assert(!spec_is_rv64_only_mnemonic(nm));
    } else if j == 18 {
        assert(nm == "fcvt.l.s"@);
        assert(nm.len() == 8);
        assert(!spec_is_rv64_only_mnemonic(nm));
    } else if j == 19 {
        assert(nm == "fcvt.wu.s"@);
        assert(nm.len() == 9);
        assert(!spec_is_rv64_only_mnemonic(nm));
    } else if j == 20 {
        assert(nm == "fcvt.lu.s"@);
        assert(nm.len() == 9);
        assert(!spec_is_rv64_only_mnemonic(nm));
    } else if j == 21 {
        assert(nm == "fsgnj.s"@);
        assert(nm.len() == 7);
        assert("fsgnj.s"@[0] != "c.addiw"@[0]);
        assert(!spec_is_rv64_only_mnemonic(nm));
    } else if j == 22 {
        assert(nm == "fsgnjn.s"@);
        assert(nm.len() == 8);
        assert(!spec_is_rv64_only_mnemonic(nm));
    } else if j == 23 {
        assert(nm == "fsgnjx.s"@);
        assert(nm.len() == 8);
        assert(!spec_is_rv64_only_mnemonic(nm));
    } else if j == 24 {
        assert(nm == "fmv.w.x"@);
        assert(nm.len() == 7);
        assert("fmv.w.x"@[0] != "c.addiw"@[0]);
        assert(!spec_is_rv64_only_mnemonic(nm));
    } else if j == 25 {
        assert(nm == "fmv.x.w"@);
        assert(nm.len() == 7);
        assert("fmv.x.w"@[0] != "c.addiw"@[0]);
        assert(!spec_is_rv64_only_mnemonic(nm));
    } else if j == 26 {
        assert(nm == "feq.s"@);
        assert(nm.len() == 5);
        assert("feq.s"@[0] != "addiw"@[0]);
        assert("feq.s"@[0] != "slliw"@[0]);
        assert("feq.s"@[0] != "srliw"@[0]);
        assert("feq.s"@[0] != "sraiw"@[0]);
        assert(!spec_is_rv64_only_mnemonic(nm));
    } else if j == 27 {
        assert(nm == "flt.s"@);
        assert(nm.len() == 5);
        assert("flt.s"@[0] != "addiw"@[0]);
        assert("flt.s"@[0] != "slliw"@[0]);
        assert("flt.s"@[0] != "srliw"@[0]);
        assert("flt.s"@[0] != "sraiw"@[0]);
        assert(!spec_is_rv64_only_mnemonic(nm));
    } else if j == 28 {
        assert(nm == "fle.s"@);
        assert(nm.len() == 5);
        assert("fle.s"@[0] != "addiw"@[0]);
        assert("fle.s"@[0] != "slliw"@[0]);
        assert("fle.s"@[0] != "srliw"@[0]);
        assert("fle.s"@[0] != "sraiw"@[0]);
        assert(!spec_is_rv64_only_mnemonic(nm));
    } else {
        assert(nm == "fclass.s"@);
        assert(nm.len() == 8);
        assert(!spec_is_rv64_only_mnemonic(nm));
    }
}

/// No entry of this group carries an RV64-only mnemonic.
#[verifier::rlimit(60)]
pub proof fn lemma_d_ext_filters_rv32_safe(j: int)
    requires
        0 <= j < 32,
    ensures
        !spec_is_rv64_only_mnemonic(d_ext_filter_at(j).name),
{
    reveal_strlit("addiw");
    reveal_strlit("addw");
    reveal_strlit("c.addiw");
    reveal_strlit("c.addw");
    reveal_strlit("c.ld");
    reveal_strlit("c.ldsp");
    reveal_strlit("c.sd");
    reveal_strlit("c.sdsp");
    reveal_strlit("c.subw");
    reveal_strlit("fadd.d");
    reveal_strlit("fclass.d");
    reveal_strlit("fcvt.d.l");
    reveal_strlit("fcvt.d.lu");
    reveal_strlit("fcvt.d.s");
    reveal_strlit("fcvt.d.w");
    reveal_strlit("fcvt.d.wu");
    reveal_strlit("fcvt.l.d");
    reveal_strlit("fcvt.lu.d");
    reveal_strlit("fcvt.s.d");
    reveal_strlit("fcvt.w.d");
    reveal_strlit("fcvt.wu.d");
    reveal_strlit("fdiv.d");
    reveal_strlit("feq.d");
    reveal_strlit("fld");
    reveal_strlit("fle.d");
    reveal_strlit("flt.d");
    reveal_strlit("fmadd.d");
    reveal_strlit("fmax.d");
    reveal_strlit("fmin.d");
    reveal_strlit("fmsub.d");
    reveal_strlit("fmul.d");
    reveal_strlit("fmv.d.x");
    reveal_strlit("fmv.x.d");
    reveal_strlit("fnmadd.d");
    reveal_strlit("fnmsub.d");
    reveal_strlit("fsd");
    reveal_strlit("fsgnj.d");
    reveal_strlit("fsgnjn.d");
    reveal_strlit("fsgnjx.d");
    reveal_strlit("fsqrt.d");
    reveal_strlit("fsub.d");
    reveal_strlit("ld");
    reveal_strlit("lwu");
    reveal_strlit("sd");
    reveal_strlit("sext.w");
    reveal_strlit("slliw");
    reveal_strlit("sllw");
    reveal_strlit("sraiw");
    reveal_strlit("sraw");
    reveal_strlit("srliw");
    reveal_strlit("srlw");
    reveal_strlit("subw");
    assert("addiw"@.len() == 5);
    assert("addw"@.len() == 4);
    assert("c.addiw"@.len() == 7);
    assert("c.addw"@.len() == 6);
    assert("c.ld"@.len() == 4);
    assert("c.ldsp"@.len() == 6);
    assert("c.sd"@.len() == 4);
    assert("c.sdsp"@.len() == 6);
    assert("c.subw"@.len() == 6);
    assert("ld"@.len() == 2);
    assert("lwu"@.len() == 3);
    assert("sd"@.len() == 2);
    assert("sext.w"@.len() == 6);
    assert("slliw"@.len() == 5);
    assert("sllw"@.len() == 4);
    assert("sraiw"@.len() == 5);
    assert("sraw"@.len() == 4);
    assert("srliw"@.len() == 5);
    assert("srlw"@.len() == 4);
    assert("subw"@.len() == 4);
    let nm = d_ext_filter_at(j).name;
    if j == 0 {
        assert(nm == "fld"@);
        assert(nm.len() == 3);
        assert("fld"@[0] != "lwu"@[0]);
        assert(!spec_is_rv64_only_mnemonic(nm));
    } else if j == 1 {
        assert(nm == "fsd"@);
        assert(nm.len() == 3);
        assert("fsd"@[0] != "lwu"@[0]);
        assert(!spec_is_rv64_only_mnemonic(nm));
    } else if j == 2 {
        assert(nm == "fadd.d"@);
        assert(nm.len() == 6);
        assert("fadd.d"@[0] != "c.ldsp"@[0]);
        assert("fadd.d"@[0] != "c.sdsp"@[0]);
        assert("fadd.d"@[0] != "c.addw"@[0]);
        assert("fadd.d"@[0] != "c.subw"@[0]);
        assert("fadd.d"@[0] != "sext.w"@[0]);
        assert(!spec_is_rv64_only_mnemonic(nm));
    } else if j == 3 {
        assert(nm == "fsub.d"@);
        assert(nm.len() == 6);
        assert("fsub.d"@[0] != "c.ldsp"@[0]);
        assert("fsub.d"@[0] != "c.sdsp"@[0]);
        assert("fsub.d"@[0] != "c.addw"@[0]);
        assert("fsub.d"@[0] != "c.subw"@[0]);
        assert("fsub.d"@[0] != "sext.w"@[0]);
        assert(!spec_is_rv64_only_mnemonic(nm));
    } else if j == 4 {
        assert(nm == "fmul.d"@);
        assert(nm.len() == 6);
        assert("fmul.d"@[0] != "c.ldsp"@[0]);
        assert("fmul.d"@[0] != "c.sdsp"@[0]);
        assert("fmul.d"@[0] != "c.addw"@[0]);
        assert("fmul.d"@[0] != "c.subw"@[0]);
        assert("fmul.d"@[0] != "sext.w"@[0]);
        assert(!spec_is_rv64_only_mnemonic(nm));
    } else if j == 5 {
        assert(nm == "fdiv.d"@);
        assert(nm.len() == 6);
        assert("fdiv.d"@[0] != "c.ldsp"@[0]);
        assert("fdiv.d"@[0] != "c.sdsp"@[0]);
        assert("fdiv.d"@[0] != "c.addw"@[0]);
        assert("fdiv.d"@[0] != "c.subw"@[0]);
        assert("fdiv.d"@[0] != "sext.w"@[0]);
        assert(!spec_is_rv64_only_mnemonic(nm));
    } else if j == 6 {
        assert(nm == "fsqrt.d"@);
        assert(nm.len() == 7);
        assert("fsqrt.d"@[0] != "c.addiw"@[0]);
        assert(!spec_is_rv64_only_mnemonic(nm));
    } else if j == 7 {
        assert(nm == "fmin.d"@);
        assert(nm.len() == 6);
        assert("fmin.d"@[0] != "c.ldsp"@[0]);
        assert("fmin.d"@[0] != "c.sdsp"@[0]);
        assert("fmin.d"@[0] != "c.addw"@[0]);
        assert("fmin.d"@[0] != "c.subw"@[0]);
        assert("fmin.d"@[0] != "sext.w"@[0]);
        assert(!spec_is_rv64_only_mnemonic(nm));
    } else if j == 8 {
        assert(nm == "fmax.d"@);
        assert(nm.len() == 6);
        assert("fmax.d"@[0] != "c.ldsp"@[0]);
        assert("fmax.d"@[0] != "c.sdsp"@[0]);
        assert("fmax.d"@[0] != "c.addw"@[0]);
        assert("fmax.d"@[0] != "c.subw"@[0]);
        assert("fmax.d"@[0] != "sext.w"@[0]);
        assert(!spec_is_rv64_only_mnemonic(nm));
    } else if j == 9 {
        assert(nm == "fmadd.d"@);
        assert(nm.len() == 7);
        assert("fmadd.d"@[0] != "c.addiw"@[0]);
        assert(!spec_is_rv64_only_mnemonic(nm));
    } else if j == 10 {
        assert(nm == "fnmadd.d"@);
        assert(nm.len() == 8);
        assert(!spec_is_rv64_only_mnemonic(nm));
    } else if j == 11 {
        assert(nm == "fmsub.d"@);
        assert(nm.len() == 7);
        assert("fmsub.d"@[0] != "c.addiw"@[0]);
        assert(!spec_is_rv64_only_mnemonic(nm));
    } else if j == 12 {
        assert(nm == "fnmsub.d"@);
        assert(nm.len() == 8);
        assert(!spec_is_rv64_only_mnemonic(nm));
    } else if j == 13 {
        assert(nm == "fcvt.d.w"@);
        assert(nm.len() == 8);
        assert(!spec_is_rv64_only_mnemonic(nm));
    } else if j == 14 {
        assert(nm == "fcvt.d.l"@);
        assert(nm.len() == 8);
        assert(!spec_is_rv64_only_mnemonic(nm));
    } else if j == 15 {
        assert(nm == "fcvt.d.wu"@);
        assert(nm.len() == 9);
        assert(!spec_is_rv64_only_mnemonic(nm));
    } else if j == 16 {
        assert(nm == "fcvt.d.lu"@);
        assert(nm.len() == 9);
        assert(!spec_is_rv64_only_mnemonic(nm));
    } else if j == 17 {
        assert(nm == "fcvt.w.d"@);
        assert(nm.len() == 8);
        assert(!spec_is_rv64_only_mnemonic(nm));
    } else if j == 18 {
        assert(nm == "fcvt.l.d"@);
        assert(nm.len() == 8);
        assert(!spec_is_rv64_only_mnemonic(nm));
    } else if j == 19 {
        assert(nm == "fcvt.wu.d"@);
        assert(nm.len() == 9);
        assert(!spec_is_rv64_only_mnemonic(nm));
    } else if j == 20 {
        assert(nm == "fcvt.lu.d"@);
        assert(nm.len() == 9);
        assert(!spec_is_rv64_only_mnemonic(nm));
    } else if j == 21 {
        assert(nm == "fcvt.s.d"@);
        assert(nm.len() == 8);
        assert(!spec_is_rv64_only_mnemonic(nm));
    } else if j == 22 {
        assert(nm == "fcvt.d.s"@);
        assert(nm.len() == 8);
        assert(!spec_is_rv64_only_mnemonic(nm));
    } else if j == 23 {
        assert(nm == "fsgnj.d"@);
        assert(nm.len() == 7);
        assert("fsgnj.d"@[0] != "c.addiw"@[0]);
        assert(!spec_is_rv64_only_mnemonic(nm));
    } else if j == 24 {
        assert(nm == "fsgnjn.d"@);
        assert(nm.len() == 8);
        assert(!spec_is_rv64_only_mnemonic(nm));
    } else if j == 25 {
        assert(nm == "fsgnjx.d"@);
        assert(nm.len() == 8);
        assert(!spec_is_rv64_only_mnemonic(nm));
    } else if j == 26 {
        assert(nm == "fmv.x.d"@);
        assert(nm.len() == 7);
        assert("fmv.x.d"@[0] != "c.addiw"@[0]);
        assert(!spec_is_rv64_only_mnemonic(nm));
    } else if j == 27 {
        assert(nm == "fmv.d.x"@);
        assert(nm.len() == 7);
        assert("fmv.d.x"@[0] != "c.addiw"@[0]);
        assert(!spec_is_rv64_only_mnemonic(nm));
    } else if j == 28 {
        assert(nm == "feq.d"@);
        assert(nm.len() == 5);
        assert("feq.d"@[0] != "addiw"@[0]);
        assert("feq.d"@[0] != "slliw"@[0]);
        assert("feq.d"@[0] != "srliw"@[0]);
        assert("feq.d"@[0] != "sraiw"@[0]);
        assert(!spec_is_rv64_only_mnemonic(nm));
    } else if j == 29 {
        assert(nm == "flt.d"@);
        assert(nm.len() == 5);
        assert("flt.d"@[0] != "addiw"@[0]);
        assert("flt.d"@[0] != "slliw"@[0]);
        assert("flt.d"@[0] != "srliw"@[0]);
        assert("flt.d"@[0] != "sraiw"@[0]);
        assert(!spec_is_rv64_only_mnemonic(nm));
    } else if j == 30 {
        assert(nm == "fle.d"@);
        assert(nm.len() == 5);
        assert("fle.d"@[0] != "addiw"@[0]);
        assert("fle.d"@[0] != "slliw"@[0]);
        assert("fle.d"@[0] != "srliw"@[0]);
        assert("fle.d"@[0] != "sraiw"@[0]);
        assert(!spec_is_rv64_only_mnemonic(nm));
    } else {
        assert(nm == "fclass.d"@);
        assert(nm.len() == 8);
        assert(!spec_is_rv64_only_mnemonic(nm));
    }
}

/// No entry of this group carries an RV64-only mnemonic.
#[verifier::rlimit(60)]
pub proof fn lemma_c_ret_filters_rv32_safe(j: int)
    requires
        0 <= j < 1,
    ensures
        !spec_is_rv64_only_mnemonic(c_ret_filter_at(j).name),
{
    reveal_strlit("addiw");
    reveal_strlit("addw");
    reveal_strlit("c.addiw");
    reveal_strlit("c.addw");
    reveal_strlit("c.ld");
    reveal_strlit("c.ldsp");
    reveal_strlit("c.sd");
    reveal_strlit("c.sdsp");
    reveal_strlit("c.subw");
    reveal_strlit("ld");
    reveal_strlit("lwu");
    reveal_strlit("ret");
    reveal_strlit("sd");
    reveal_strlit("sext.w");
    reveal_strlit("slliw");
    reveal_strlit("sllw");
    reveal_strlit("sraiw");
    reveal_strlit("sraw");
    reveal_strlit("srliw");
    reveal_strlit("srlw");
    reveal_strlit("subw");
    assert("addiw"@.len() == 5);
    assert("addw"@.len() == 4);
    assert("c.addiw"@.len() == 7);
    assert("c.addw"@.len() == 6);
    assert("c.ld"@.len() == 4);
    assert("c.ldsp"@.len() == 6);
    assert("c.sd"@.len() == 4);
    assert("c.sdsp"@.len() == 6);
    assert("c.subw"@.len() == 6);
    assert("ld"@.len() == 2);
    assert("lwu"@.len() == 3);
    assert("sd"@.len() == 2);
    assert("sext.w"@.len() == 6);
    assert("slliw"@.len() == 5);
    assert("sllw"@.len() == 4);
    assert("sraiw"@.len() == 5);
    assert("sraw"@.len() == 4);
    assert("srliw"@.len() == 5);
    assert("srlw"@.len() == 4);
    assert("subw"@.len() == 4);
    let nm = c_ret_filter_at(j).name;
    if j == 0 {
        assert(nm == "ret"@);
        assert(nm.len() == 3);
        assert("ret"@[0] != "lwu"@[0]);
        assert(!spec_is_rv64_only_mnemonic(nm));
    }
}

/// No entry of this group carries an RV64-only mnemonic.
#[verifier::rlimit(60)]
pub proof fn lemma_c_rv32_filters_rv32_safe(j: int)
    requires
        0 <= j < 1,
    ensures
        !spec_is_rv64_only_mnemonic(c_rv32_filter_at(j).name),
{
    reveal_strlit("addiw");
    reveal_strlit("addw");
    reveal_strlit("c.addiw");
    reveal_strlit("c.addw");
    reveal_strlit("c.jal");
    reveal_strlit("c.ld");
    reveal_strlit("c.ldsp");
    reveal_strlit("c.sd");
    reveal_strlit("c.sdsp");
    reveal_strlit("c.subw");
    reveal_strlit("ld");
    reveal_strlit("lwu");
    reveal_strlit("sd");
    reveal_strlit("sext.w");
    reveal_strlit("slliw");
    reveal_strlit("sllw");
    reveal_strlit("sraiw");
    reveal_strlit("sraw");
    reveal_strlit("srliw");
    reveal_strlit("srlw");
    reveal_strlit("subw");
    assert("addiw"@.len() == 5);
    assert("addw"@.len() == 4);
    assert("c.addiw"@.len() == 7);
    assert("c.addw"@.len() == 6);
    assert("c.ld"@.len() == 4);
    assert("c.ldsp"@.len() == 6);
    assert("c.sd"@.len() == 4);
    assert("c.sdsp"@.len() == 6);
    assert("c.subw"@.len() == 6);
    assert("ld"@.len() == 2);
    assert("lwu"@.len() == 3);
    assert("sd"@.len() == 2);
    assert("sext.w"@.len() == 6);
    assert("slliw"@.len() == 5);
    assert("sllw"@.len() == 4);
    assert("sraiw"@.len() == 5);
    assert("sraw"@.len() == 4);
    assert("srliw"@.len() == 5);
    assert("srlw"@.len() == 4);
    assert("subw"@.len() == 4);
    let nm = c_rv32_filter_at(j).name;
    if j == 0 {
        assert(nm == "c.jal"@);
        assert(nm.len() == 5);
        assert("c.jal"@[0] != "addiw"@[0]);
        assert("c.jal"@[0] != "slliw"@[0]);
        assert("c.jal"@[0] != "srliw"@[0]);
        assert("c.jal"@[0] != "sraiw"@[0]);
        assert(!spec_is_rv64_only_mnemonic(nm));
    }
}

/// No entry of this group carries an RV64-only mnemonic.
#[verifier::rlimit(60)]
pub proof fn lemma_c_rv32f_filters_rv32_safe(j: int)
    requires
        0 <= j < 4,
    ensures
        !spec_is_rv64_only_mnemonic(c_rv32f_filter_at(j).name),
{
    reveal_strlit("addiw");
    reveal_strlit("addw");
    reveal_strlit("c.addiw");
    reveal_strlit("c.addw");
    reveal_strlit("c.flw");
    reveal_strlit("c.flwsp");
    reveal_strlit("c.fsw");
    reveal_strlit("c.fswsp");
    reveal_strlit("c.ld");
    reveal_strlit("c.ldsp");
    reveal_strlit("c.sd");
    reveal_strlit("c.sdsp");
    reveal_strlit("c.subw");
    reveal_strlit("ld");
    reveal_strlit("lwu");
    reveal_strlit("sd");
    reveal_strlit("sext.w");
    reveal_strlit("slliw");
    reveal_strlit("sllw");
    reveal_strlit("sraiw");
    reveal_strlit("sraw");
    reveal_strlit("srliw");
    reveal_strlit("srlw");
    reveal_strlit("subw");
    assert("addiw"@.len() == 5);
    assert("addw"@.len() == 4);
    assert("c.addiw"@.len() == 7);
    assert("c.addw"@.len() == 6);
    assert("c.ld"@.len() == 4);
    assert("c.ldsp"@.len() == 6);
    assert("c.sd"@.len() == 4);
    assert("c.sdsp"@.len() == 6);
    assert("c.subw"@.len() == 6);
    assert("ld"@.len() == 2);
    assert("lwu"@.len() == 3);
    assert("sd"@.len() == 2);
    assert("sext.w"@.len() == 6);
    assert("slliw"@.len() == 5);
    assert("sllw"@.len() == 4);
    assert("sraiw"@.len() == 5);
    assert("sraw"@.len() == 4);
    assert("srliw"@.len() == 5);
    assert("srlw"@.len() == 4);
    assert("subw"@.len() == 4);
    let nm = c_rv32f_filter_at(j).name;
    if j == 0 {
        assert(nm == "c.flwsp"@);
        assert(nm.len() == 7);
        assert("c.flwsp"@[2] != "c.addiw"@[2]);
        assert(!spec_is_rv64_only_mnemonic(nm));
    } else if j == 1 {
        assert(nm == "c.fswsp"@);
        assert(nm.len() == 7);
        assert("c.fswsp"@[2] != "c.addiw"@[2]);
        assert(!spec_is_rv64_only_mnemonic(nm));
    } else if j == 2 {
        assert(nm == "c.flw"@);
        assert(nm.len() == 5);
        assert("c.flw"@[0] != "addiw"@[0]);
        assert("c.flw"@[0] != "slliw"@[0]);
        assert("c.flw"@[0] != "srliw"@[0]);
        assert("c.flw"@[0] != "sraiw"@[0]);
        assert(!spec_is_rv64_only_mnemonic(nm));
    } else {
        assert(nm == "c.fsw"@);
        assert(nm.len() == 5);
        assert("c.fsw"@[0] != "addiw"@[0]);
        assert("c.fsw"@[0] != "slliw"@[0]);
        assert("c.fsw"@[0] != "srliw"@[0]);
        assert("c.fsw"@[0] != "sraiw"@[0]);
        assert(!spec_is_rv64_only_mnemonic(nm));
    }
}

/// No entry of this group carries an RV64-only mnemonic.
#[verifier::rlimit(60)]
pub proof fn lemma_c_d_filters_safe(j: int)
    requires
        0 <= j < 4,
    ensures
        !spec_is_rv64_only_mnemonic(c_d_filter_at(j).name),
{
    reveal_strlit("addiw");
    reveal_strlit("addw");
    reveal_strlit("c.addiw");
    reveal_strlit("c.addw");
    reveal_strlit("c.fld");
    reveal_strlit("c.fldsp");
    reveal_strlit("c.fsd");
    reveal_strlit("c.fsdsp");
    reveal_strlit("c.ld");
    reveal_strlit("c.ldsp");
    reveal_strlit("c.sd");
    reveal_strlit("c.sdsp");
    reveal_strlit("c.subw");
    reveal_strlit("ld");
    reveal_strlit("lwu");
    reveal_strlit("sd");
    reveal_strlit("sext.w");
    reveal_strlit("slliw");
    reveal_strlit("sllw");
    reveal_strlit("sraiw");
    reveal_strlit("sraw");
    reveal_strlit("srliw");
    reveal_strlit("srlw");
    reveal_strlit("subw");
    assert("addiw"@.len() == 5);
    assert("addw"@.len() == 4);
    assert("c.addiw"@.len() == 7);
    assert("c.addw"@.len() == 6);
    assert("c.ld"@.len() == 4);
    assert("c.ldsp"@.len() == 6);
    assert("c.sd"@.len() == 4);
    assert("c.sdsp"@.len() == 6);
    assert("c.subw"@.len() == 6);
    assert("ld"@.len() == 2);
    assert("lwu"@.len() == 3);
    assert("sd"@.len() == 2);
    assert("sext.w"@.len() == 6);
    assert("slliw"@.len() == 5);
    assert("sllw"@.len() == 4);
    assert("sraiw"@.len() == 5);
    assert("sraw"@.len() == 4);
    assert("srliw"@.len() == 5);
    assert("srlw"@.len() == 4);
    assert("subw"@.len() == 4);
    let nm = c_d_filter_at(j).name;
    if j == 0 {
        assert(nm == "c.fldsp"@);
        assert(nm.len() == 7);
        assert("c.fldsp"@[2] != "c.addiw"@[2]);
        assert(!spec_is_rv64_only_mnemonic(nm));
    } else if j == 1 {
        assert(nm == "c.fsdsp"@);
        assert(nm.len() == 7);
        assert("c.fsdsp"@[2] != "c.addiw"@[2]);
        assert(!spec_is_rv64_only_mnemonic(nm));
    } else if j == 2 {
        assert(nm == "c.fld"@);
        assert(nm.len() == 5);
        assert("c.fld"@[0] != "addiw"@[0]);
        assert("c.fld"@[0] != "slliw"@[0]);
        assert("c.fld"@[0] != "srliw"@[0]);
        assert("c.fld"@[0] != "sraiw"@[0]);
        assert(!spec_is_rv64_only_mnemonic(nm));
    } else {
        assert(nm == "c.fsd"@);
        assert(nm.len() == 5);
        assert("c.fsd"@[0] != "addiw"@[0]);
        assert("c.fsd"@[0] != "slliw"@[0]);
        assert("c.fsd"@[0] != "srliw"@[0]);
        assert("c.fsd"@[0] != "sraiw"@[0]);
        assert(!spec_is_rv64_only_mnemonic(nm));
    }
}

/// No entry of this group carries an RV64-only mnemonic.
#[verifier::rlimit(60)]
pub proof fn lemma_c_global_filters_rv32_safe(j: int)
    requires
        0 <= j < 26,
    ensures
        !spec_is_rv64_only_mnemonic(c_global_filter_at(j).name),
{
    reveal_strlit("addiw");
    reveal_strlit("addw");
    reveal_strlit("c.add");
    reveal_strlit("c.addi");
    reveal_strlit("c.addi16sp");
    reveal_strlit("c.addi4spn");
    reveal_strlit("c.addiw");
    reveal_strlit("c.addw");
    reveal_strlit("c.and");
    reveal_strlit("c.andi");
    reveal_strlit("c.beqz");
    reveal_strlit("c.bnez");
    reveal_strlit("c.ebreak");
    reveal_strlit("c.j");
    reveal_strlit("c.jalr");
    reveal_strlit("c.jr");
    reveal_strlit("c.ld");
    reveal_strlit("c.ldsp");
    reveal_strlit("c.li");
    reveal_strlit("c.lui");
    reveal_strlit("c.lw");
    reveal_strlit("c.lwsp");
    reveal_strlit("c.mv");
    reveal_strlit("c.nop");
    reveal_strlit("c.or");
    reveal_strlit("c.sd");
    reveal_strlit("c.sdsp");
    reveal_strlit("c.slli");
    reveal_strlit("c.srai");
    reveal_strlit("c.srli");
    reveal_strlit("c.sub");
    reveal_strlit("c.subw");
    reveal_strlit("c.sw");
    reveal_strlit("c.swsp");
    reveal_strlit("c.xor");
    reveal_strlit("ld");
    reveal_strlit("lwu");
    reveal_strlit("sd");
    reveal_strlit("sext.w");
    reveal_strlit("slliw");
    reveal_strlit("sllw");
    reveal_strlit("sraiw");
    reveal_strlit("sraw");
    reveal_strlit("srliw");
    reveal_strlit("srlw");
    reveal_strlit("subw");
    assert("addiw"@.len() == 5);
    assert("addw"@.len() == 4);
    assert("c.addiw"@.len() == 7);
    assert("c.addw"@.len() == 6);
    assert("c.ld"@.len() == 4);
    assert("c.ldsp"@.len() == 6);
    assert("c.sd"@.len() == 4);
    assert("c.sdsp"@.len() == 6);
    assert("c.subw"@.len() == 6);
    assert("ld"@.len() == 2);
    assert("lwu"@.len() == 3);
    assert("sd"@.len() == 2);
    assert("sext.w"@.len() == 6);
    assert("slliw"@.len() == 5);
    assert("sllw"@.len() == 4);
    assert("sraiw"@.len() == 5);
    assert("sraw"@.len() == 4);
    assert("srliw"@.len() == 5);
    assert("srlw"@.len() == 4);
    assert("subw"@.len() == 4);
    let nm = c_global_filter_at(j).name;
    if j == 0 {
        assert(nm == "c.lwsp"@);
        assert(nm.len() == 6);
        assert("c.lwsp"@[3] != "c.ldsp"@[3]);
        assert("c.lwsp"@[2] != "c.sdsp"@[2]);
        assert("c.lwsp"@[2] != "c.addw"@[2]);
        assert("c.lwsp"@[2] != "c.subw"@[2]);
        assert("c.lwsp"@[0] != "sext.w"@[0]);
        assert(!spec_is_rv64_only_mnemonic(nm));
    } else if j == 1 {
        assert(nm == "c.swsp"@);
        assert(nm.len() == 6);
        assert("c.swsp"@[2] != "c.ldsp"@[2]);
        assert("c.swsp"@[3] != "c.sdsp"@[3]);
        assert("c.swsp"@[2] != "c.addw"@[2]);
        assert("c.swsp"@[3] != "c.subw"@[3]);
        assert("c.swsp"@[0] != "sext.w"@[0]);
        assert(!spec_is_rv64_only_mnemonic(nm));
    } else if j == 2 {
        assert(nm == "c.lw"@);
        assert(nm.len() == 4);
        assert("c.lw"@[0] != "addw"@[0]);
        assert("c.lw"@[0] != "subw"@[0]);
        assert("c.lw"@[0] != "sllw"@[0]);
        assert("c.lw"@[0] != "srlw"@[0]);
        assert("c.lw"@[0] != "sraw"@[0]);
        assert("c.lw"@[3] != "c.ld"@[3]);
        assert("c.lw"@[2] != "c.sd"@[2]);
        assert(!spec_is_rv64_only_mnemonic(nm));
    } else if j == 3 {
        assert(nm == "c.sw"@);
        assert(nm.len() == 4);
        assert("c.sw"@[0] != "addw"@[0]);
        assert("c.sw"@[0] != "subw"@[0]);
        assert("c.sw"@[0] != "sllw"@[0]);
        assert("c.sw"@[0] != "srlw"@[0]);
        assert("c.sw"@[0] != "sraw"@[0]);
        assert("c.sw"@[2] != "c.ld"@[2]);
        assert("c.sw"@[3] != "c.sd"@[3]);
        assert(!spec_is_rv64_only_mnemonic(nm));
    } else if j == 4 {
        assert(nm == "c.ebreak"@);
        assert(nm.len() == 8);
        assert(!spec_is_rv64_only_mnemonic(nm));
    } else if j == 5 {
        assert(nm == "c.j"@);
        assert(nm.len() == 3);
        assert("c.j"@[0] != "lwu"@[0]);
        assert(!spec_is_rv64_only_mnemonic(nm));
    } else if j == 6 {
        assert(nm == "c.jr"@);
        assert(nm.len() == 4);
        assert("c.jr"@[0] != "addw"@[0]);
        assert("c.jr"@[0] != "subw"@[0]);
        assert("c.jr"@[0] != "sllw"@[0]);
        assert("c.jr"@[0] != "srlw"@[0]);
        assert("c.jr"@[0] != "sraw"@[0]);
        assert("c.jr"@[2] != "c.ld"@[2]);
        assert("c.jr"@[2] != "c.sd"@[2]);
        assert(!spec_is_rv64_only_mnemonic(nm));
    } else if j == 7 {
        assert(nm == "c.jalr"@);
        assert(nm.len() == 6);
        assert("c.jalr"@[2] != "c.ldsp"@[2]);
        assert("c.jalr"@[2] != "c.sdsp"@[2]);
        assert("c.jalr"@[2] != "c.addw"@[2]);
        assert("c.jalr"@[2] != "c.subw"@[2]);
        assert("c.jalr"@[0] != "sext.w"@[0]);
        assert(!spec_is_rv64_only_mnemonic(nm));
    } else if j == 8 {
        assert(nm == "c.beqz"@);
        assert(nm.len() == 6);
        assert("c.beqz"@[2] != "c.ldsp"@[2]);
        assert("c.beqz"@[2] != "c.sdsp"@[2]);
        assert("c.beqz"@[2] != "c.addw"@[2]);
        assert("c.beqz"@[2] != "c.subw"@[2]);
        assert("c.beqz"@[0] != "sext.w"@[0]);
        assert(!spec_is_rv64_only_mnemonic(nm));
    } else if j == 9 {
        assert(nm == "c.bnez"@);
        assert(nm.len() == 6);
        assert("c.bnez"@[2] != "c.ldsp"@[2]);
        assert("c.bnez"@[2] != "c.sdsp"@[2]);
        assert("c.bnez"@[2] != "c.addw"@[2]);
        assert("c.bnez"@[2] != "c.subw"@[2]);
        assert("c.bnez"@[0] != "sext.w"@[0]);
        assert(!spec_is_rv64_only_mnemonic(nm));
    } else if j == 10 {
        assert(nm == "c.li"@);
        assert(nm.len() == 4);
        assert("c.li"@[0] != "addw"@[0]);
        assert("c.li"@[0] != "subw"@[0]);
        assert("c.li"@[0] != "sllw"@[0]);
        assert("c.li"@[0] != "srlw"@[0]);
        assert("c.li"@[0] != "sraw"@[0]);
        assert("c.li"@[3] != "c.ld"@[3]);
        assert("c.li"@[2] != "c.sd"@[2]);
        assert(!spec_is_rv64_only_mnemonic(nm));
    } else if j == 11 {
        assert(nm == "c.nop"@);
        assert(nm.len() == 5);
        assert("c.nop"@[0] != "addiw"@[0]);
        assert("c.nop"@[0] != "slliw"@[0]);
        assert("c.nop"@[0] != "srliw"@[0]);
        assert("c.nop"@[0] != "sraiw"@[0]);
        assert(!spec_is_rv64_only_mnemonic(nm));
    } else if j == 12 {
        assert(nm == "c.addi"@);
        assert(nm.len() == 6);
        assert("c.addi"@[2] != "c.ldsp"@[2]);
        assert("c.addi"@[2] != "c.sdsp"@[2]);
        assert("c.addi"@[5] != "c.addw"@[5]);
        assert("c.addi"@[2] != "c.subw"@[2]);
        assert("c.addi"@[0] != "sext.w"@[0]);
        assert(!spec_is_rv64_only_mnemonic(nm));
    } else if j == 13 {
        assert(nm == "c.addi16sp"@);
        assert(nm.len() == 10);
        assert(!spec_is_rv64_only_mnemonic(nm));
    } else if j == 14 {
        assert(nm == "c.addi4spn"@);
        assert(nm.len() == 10);
        assert(!spec_is_rv64_only_mnemonic(nm));
    } else if j == 15 {
        assert(nm == "c.slli"@);
        assert(nm.len() == 6);
        assert("c.slli"@[2] != "c.ldsp"@[2]);
        assert("c.slli"@[3] != "c.sdsp"@[3]);
        assert("c.slli"@[2] != "c.addw"@[2]);
        assert("c.slli"@[3] != "c.subw"@[3]);
        assert("c.slli"@[0] != "sext.w"@[0]);
        assert(!spec_is_rv64_only_mnemonic(nm));
    } else if j == 16 {
        assert(nm == "c.srli"@);
        assert(nm.len() == 6);
        assert("c.srli"@[2] != "c.ldsp"@[2]);
        assert("c.srli"@[3] != "c.sdsp"@[3]);
        assert("c.srli"@[2] != "c.addw"@[2]);
        assert("c.srli"@[3] != "c.subw"@[3]);
        assert("c.srli"@[0] != "sext.w"@[0]);
        assert(!spec_is_rv64_only_mnemonic(nm));
    } else if j == 17 {
        assert(nm == "c.srai"@);
        assert(nm.len() == 6);
        assert("c.srai"@[2] != "c.ldsp"@[2]);
        assert("c.srai"@[3] != "c.sdsp"@[3]);
        assert("c.srai"@[2] != "c.addw"@[2]);
        assert("c.srai"@[3] != "c.subw"@[3]);
        assert("c.srai"@[0] != "sext.w"@[0]);
        assert(!spec_is_rv64_only_mnemonic(nm));
    } else if j == 18 {
        assert(nm == "c.andi"@);
        assert(nm.len() == 6);
        assert("c.andi"@[2] != "c.ldsp"@[2]);
        assert("c.andi"@[2] != "c.sdsp"@[2]);
        assert("c.andi"@[3] != "c.addw"@[3]);
        assert("c.andi"@[2] != "c.subw"@[2]);
        assert("c.andi"@[0] != "sext.w"@[0]);
        assert(!spec_is_rv64_only_mnemonic(nm));
    } else if j == 19 {
        assert(nm == "c.mv"@);
        assert(nm.len() == 4);
        assert("c.mv"@[0] != "addw"@[0]);
        assert("c.mv"@[0] != "subw"@[0]);
        assert("c.mv"@[0] != "sllw"@[0]);
        assert("c.mv"@[0] != "srlw"@[0]);
        assert("c.mv"@[0] != "sraw"@[0]);
        assert("c.mv"@[2] != "c.ld"@[2]);
        assert("c.mv"@[2] != "c.sd"@[2]);
        assert(!spec_is_rv64_only_mnemonic(nm));
    } else if j == 20 {
        assert(nm == "c.add"@);
        assert(nm.len() == 5);
        assert("c.add"@[0] != "addiw"@[0]);
        assert("c.add"@[0] != "slliw"@[0]);
        assert("c.add"@[0] != "srliw"@[0]);
        assert("c.add"@[0] != "sraiw"@[0]);
        assert(!spec_is_rv64_only_mnemonic(nm));
    } else if j == 21 {
        assert(nm == "c.and"@);
        assert(nm.len() == 5);
        assert("c.and"@[0] != "addiw"@[0]);
        assert("c.and"@[0] != "slliw"@[0]);
        assert("c.and"@[0] != "srliw"@[0]);
        assert("c.and"@[0] != "sraiw"@[0]);
        assert(!spec_is_rv64_only_mnemonic(nm));
    } else if j == 22 {
        assert(nm == "c.or"@);
        assert(nm.len() == 4);
        assert("c.or"@[0] != "addw"@[0]);
        assert("c.or"@[0] != "subw"@[0]);
        assert("c.or"@[0] != "sllw"@[0]);
        assert("c.or"@[0] != "srlw"@[0]);
        assert("c.or"@[0] != "sraw"@[0]);
        assert("c.or"@[2] != "c.ld"@[2]);
        assert("c.or"@[2] != "c.sd"@[2]);
        assert(!spec_is_rv64_only_mnemonic(nm));
    } else if j == 23 {
        assert(nm == "c.xor"@);
        assert(nm.len() == 5);
        assert("c.xor"@[0] != "addiw"@[0]);
        assert("c.xor"@[0] != "slliw"@[0]);
        assert("c.xor"@[0] != "srliw"@[0]);
        assert("c.xor"@[0] != "sraiw"@[0]);
        assert(!spec_is_rv64_only_mnemonic(nm));
    } else if j == 24 {
        assert(nm == "c.sub"@);
        assert(nm.len() == 5);
        assert("c.sub"@[0] != "addiw"@[0]);
        assert("c.sub"@[0] != "slliw"@[0]);
        assert("c.sub"@[0] != "srliw"@[0]);
        assert("c.sub"@[0] != "sraiw"@[0]);
        assert(!spec_is_rv64_only_mnemonic(nm));
    } else {
        assert(nm == "c.lui"@);
        assert(nm.len() == 5);
        assert("c.lui"@[0] != "addiw"@[0]);
        assert("c.lui"@[0] != "slliw"@[0]);
        assert("c.lui"@[0] != "srliw"@[0]);
        assert("c.lui"@[0] != "sraiw"@[0]);
        assert(!spec_is_rv64_only_mnemonic(nm));
    }
}

/// No entry of this group carries an RV32-only mnemonic.
#[verifier::rlimit(60)]
pub proof fn lemma_pseudo_filters_rv64_safe(j: int)
    requires
        0 <= j < 22,
    ensures
        !spec_is_rv32_only_mnemonic(pseudo_filter_at(j).name),
{
    reveal_strlit("beqz");
    reveal_strlit("bgez");
    reveal_strlit("bltz");
    reveal_strlit("bnez");
    reveal_strlit("c.flw");
    reveal_strlit("c.flwsp");
    reveal_strlit("c.fsw");
    reveal_strlit("c.fswsp");
    reveal_strlit("c.jal");
    reveal_strlit("csrc");
    reveal_strlit("csrci");
    reveal_strlit("csrr");
    reveal_strlit("csrs");
    reveal_strlit("csrsi");
    reveal_strlit("csrw");
    reveal_strlit("csrwi");
    reveal_strlit("j");
    reveal_strlit("jal");
    reveal_strlit("jalr");
    reveal_strlit("jr");
    reveal_strlit("li");
    reveal_strlit("mv");
    reveal_strlit("nop");
    reveal_strlit("not");
    reveal_strlit("ret");
    reveal_strlit("seqz");
    reveal_strlit("snez");
    assert("c.flw"@.len() == 5);
    assert("c.flwsp"@.len() == 7);
    assert("c.fsw"@.len() == 5);
    assert("c.fswsp"@.len() == 7);
    assert("c.jal"@.len() == 5);
    let nm = pseudo_filter_at(j).name;
    if j == 0 {
        assert(nm == "nop"@);
        assert(nm.len() == 3);
        assert(!spec_is_rv32_only_mnemonic(nm));
    } else if j == 1 {
        assert(nm == "li"@);
        assert(nm.len() == 2);
        assert(!spec_is_rv32_only_mnemonic(nm));
    } else if j == 2 {
        assert(nm == "mv"@);
        assert(nm.len() == 2);
        assert(!spec_is_rv32_only_mnemonic(nm));
    } else if j == 3 {
        assert(nm == "not"@);
        assert(nm.len() == 3);
        assert(!spec_is_rv32_only_mnemonic(nm));
    } else if j == 4 {
        assert(nm == "seqz"@);
        assert(nm.len() == 4);
        assert(!spec_is_rv32_only_mnemonic(nm));
    } else if j == 5 {
        assert(nm == "snez"@);
        assert(nm.len() == 4);
        assert(!spec_is_rv32_only_mnemonic(nm));
    } else if j == 6 {
        assert(nm == "j"@);
        assert(nm.len() == 1);
        assert(!spec_is_rv32_only_mnemonic(nm));
    } else if j == 7 {
        assert(nm == "jal"@);
        assert(nm.len() == 3);
        assert(!spec_is_rv32_only_mnemonic(nm));
    } else if j == 8 {
        assert(nm == "ret"@);
        assert(nm.len() == 3);
        assert(!spec_is_rv32_only_mnemonic(nm));
    } else if j == 9 {
        assert(nm == "jr"@);
        assert(nm.len() == 2);
        assert(!spec_is_rv32_only_mnemonic(nm));
    } else if j == 10 {
        assert(nm == "jalr"@);
        assert(nm.len() == 4);
        assert(!spec_is_rv32_only_mnemonic(nm));
    } else if j == 11 {
        assert(nm == "beqz"@);
        assert(nm.len() == 4);
        assert(!spec_is_rv32_only_mnemonic(nm));
    } else if j == 12 {
        assert(nm == "bnez"@);
        assert(nm.len() == 4);
        assert(!spec_is_rv32_only_mnemonic(nm));
    } else if j == 13 {
        assert(nm == "bltz"@);
        assert(nm.len() == 4);
        assert(!spec_is_rv32_only_mnemonic(nm));
    } else if j == 14 {
        assert(nm == "bgez"@);
        assert(nm.len() == 4);
        assert(!spec_is_rv32_only_mnemonic(nm));
    } else if j == 15 {
        assert(nm == "csrr"@);
        assert(nm.len() == 4);
        assert(!spec_is_rv32_only_mnemonic(nm));
    } else if j == 16 {
        assert(nm == "csrw"@);
        assert(nm.len() == 4);
        assert(!spec_is_rv32_only_mnemonic(nm));
    } else if j == 17 {
        assert(nm == "csrs"@);
        assert(nm.len() == 4);
        assert(!spec_is_rv32_only_mnemonic(nm));
    } else if j == 18 {
        assert(nm == "csrc"@);
        assert(nm.len() == 4);
        assert(!spec_is_rv32_only_mnemonic(nm));
    } else if j == 19 {
        assert(nm == "csrwi"@);
        assert(nm.len() == 5);
        assert("csrwi"@[1] != "c.jal"@[1]);
        assert("csrwi"@[1] != "c.flw"@[1]);
        assert("csrwi"@[1] != "c.fsw"@[1]);
        assert(!spec_is_rv32_only_mnemonic(nm));
    } else if j == 20 {
        assert(nm == "csrsi"@);
        assert(nm.len() == 5);
        assert("csrsi"@[1] != "c.jal"@[1]);
        assert("csrsi"@[1] != "c.flw"@[1]);
        assert("csrsi"@[1] != "c.fsw"@[1]);
        assert(!spec_is_rv32_only_mnemonic(nm));
    } else {
        assert(nm == "csrci"@);
        assert(nm.len() == 5);
        assert("csrci"@[1] != "c.jal"@[1]);
        assert("csrci"@[1] != "c.flw"@[1]);
        assert("csrci"@[1] != "c.fsw"@[1]);
        assert(!spec_is_rv32_only_mnemonic(nm));
    }
}

/// No entry of this group carries an RV32-only mnemonic.
#[verifier::rlimit(60)]
pub proof fn lemma_pseudo_rv64_filters_rv64_safe(j: int)
    requires
        0 <= j < 1,
    ensures
        !spec_is_rv32_only_mnemonic(pseudo_rv64_filter_at(j).name),
{
    reveal_strlit("c.flw");
    reveal_strlit("c.flwsp");
    reveal_strlit("c.fsw");
    reveal_strlit("c.fswsp");
    reveal_strlit("c.jal");
    reveal_strlit("sext.w");
    assert("c.flw"@.len() == 5);
    assert("c.flwsp"@.len() == 7);
    assert("c.fsw"@.len() == 5);
    assert("c.fswsp"@.len() == 7);
    assert("c.jal"@.len() == 5);
    let nm = pseudo_rv64_filter_at(j).name;
    if j == 0 {
        assert(nm == "sext.w"@);
        assert(nm.len() == 6);
        assert(!spec_is_rv32_only_mnemonic(nm));
    }
}

/// No entry of this group carries an RV32-only mnemonic.
#[verifier::rlimit(60)]
pub proof fn lemma_base_rv64_filters_rv64_safe(j: int)
    requires
        0 <= j < 12,
    ensures
        !spec_is_rv32_only_mnemonic(base_rv64_filter_at(j).name),
{
    reveal_strlit("addiw");
    reveal_strlit("addw");
    reveal_strlit("c.flw");
    reveal_strlit("c.flwsp");
    reveal_strlit("c.fsw");
    reveal_strlit("c.fswsp");
    reveal_strlit("c.jal");
    reveal_strlit("ld");
    reveal_strlit("lwu");
    reveal_strlit("sd");
    reveal_strlit("slliw");
    reveal_strlit("sllw");
    reveal_strlit("sraiw");
    reveal_strlit("sraw");
    reveal_strlit("srliw");
    reveal_strlit("srlw");
    reveal_strlit("subw");
    assert("c.flw"@.len() == 5);
    assert("c.flwsp"@.len() == 7);
    assert("c.fsw"@.len() == 5);
    assert("c.fswsp"@.len() == 7);
    assert("c.jal"@.len() == 5);
    let nm = base_rv64_filter_at(j).name;
    if j == 0 {
        assert(nm == "addiw"@);
        assert(nm.len() == 5);
        assert("addiw"@[0] != "c.jal"@[0]);
        assert("addiw"@[0] != "c.flw"@[0]);
        assert("addiw"@[0] != "c.fsw"@[0]);
        assert(!spec_is_rv32_only_mnemonic(nm));
    } else if j == 1 {
        assert(nm == "slliw"@);
        assert(nm.len() == 5);
        assert("slliw"@[0] != "c.jal"@[0]);
        assert("slliw"@[0] != "c.flw"@[0]);
        assert("slliw"@[0] != "c.fsw"@[0]);
        assert(!spec_is_rv32_only_mnemonic(nm));
    } else if j == 2 {
        assert(nm == "srliw"@);
        assert(nm.len() == 5);
        assert("srliw"@[0] != "c.jal"@[0]);
        assert("srliw"@[0] != "c.flw"@[0]);
        assert("srliw"@[0] != "c.fsw"@[0]);
        assert(!spec_is_rv32_only_mnemonic(nm));
    } else if j == 3 {
        assert(nm == "sraiw"@);
        assert(nm.len() == 5);
        assert("sraiw"@[0] != "c.jal"@[0]);
        assert("sraiw"@[0] != "c.flw"@[0]);
        assert("sraiw"@[0] != "c.fsw"@[0]);
        assert(!spec_is_rv32_only_mnemonic(nm));
    } else if j == 4 {
        assert(nm == "addw"@);
        assert(nm.len() == 4);
        assert(!spec_is_rv32_only_mnemonic(nm));
    } else if j == 5 {
        assert(nm == "subw"@);
        assert(nm.len() == 4);
        assert(!spec_is_rv32_only_mnemonic(nm));
    } else if j == 6 {
        assert(nm == "sllw"@);
        assert(nm.len() == 4);
        assert(!spec_is_rv32_only_mnemonic(nm));
    } else if j == 7 {
        assert(nm == "srlw"@);
        assert(nm.len() == 4);
        assert(!spec_is_rv32_only_mnemonic(nm));
    } else if j == 8 {
        assert(nm == "sraw"@);
        assert(nm.len() == 4);
        assert(!spec_is_rv32_only_mnemonic(nm));
    } else if j == 9 {
        assert(nm == "lwu"@);
        assert(nm.len() == 3);
        assert(!spec_is_rv32_only_mnemonic(nm));
    } else if j == 10 {
        assert(nm == "ld"@);
        assert(nm.len() == 2);
        assert(!spec_is_rv32_only_mnemonic(nm));
    } else {
        assert(nm == "sd"@);
        assert(nm.len() == 2);
        assert(!spec_is_rv32_only_mnemonic(nm));
    }
}

/// No entry of this group carries an RV32-only mnemonic.
#[verifier::rlimit(60)]
pub proof fn lemma_base_global_filters_rv64_safe(j: int)
    requires
        0 <= j < 52,
    ensures
        !spec_is_rv32_only_mnemonic(base_global_filter_at(j).name),
{
    reveal_strlit("add");
    reveal_strlit("addi");
    reveal_strlit("and");
    reveal_strlit("andi");
    reveal_strlit("auipc");
    reveal_strlit("beq");
    reveal_strlit("bge");
    reveal_strlit("bgeu");
    reveal_strlit("blt");
    reveal_strlit("bltu");
    reveal_strlit("bne");
    reveal_strlit("c.flw");
    reveal_strlit("c.flwsp");
    reveal_strlit("c.fsw");
    reveal_strlit("c.fswsp");
    reveal_strlit("c.jal");
    reveal_strlit("csrrc");
    reveal_strlit("csrrci");
    reveal_strlit("csrrs");
    reveal_strlit("csrrsi");
    reveal_strlit("csrrw");
    reveal_strlit("csrrwi");
    reveal_strlit("ebreak");
    reveal_strlit("ecall");
    reveal_strlit("fence");
    reveal_strlit("fence.i");
    reveal_strlit("jal");
    reveal_strlit("jalr");
    reveal_strlit("lb");
    reveal_strlit("lbu");
    reveal_strlit("lh");
    reveal_strlit("lhu");
    reveal_strlit("lui");
    reveal_strlit("lw");
    reveal_strlit("mret");
    reveal_strlit("or");
    reveal_strlit("ori");
    reveal_strlit("sb");
    reveal_strlit("sfence.vma");
    reveal_strlit("sh");
    reveal_strlit("sll");
    reveal_strlit("slli");
    reveal_strlit("slt");
    reveal_strlit("slti");
    reveal_strlit("sltiu");
    reveal_strlit("sltu");
    reveal_strlit("sra");
    reveal_strlit("srai");
    reveal_strlit("sret");
    reveal_strlit("srl");
    reveal_strlit("srli");
    reveal_strlit("sub");
    reveal_strlit("sw");
    reveal_strlit("uret");
    reveal_strlit("wfi");
    reveal_strlit("xor");
    reveal_strlit("xori");
    assert("c.flw"@.len() == 5);
    assert("c.flwsp"@.len() == 7);
    assert("c.fsw"@.len() == 5);
    assert("c.fswsp"@.len() == 7);
    assert("c.jal"@.len() == 5);
    let nm = base_global_filter_at(j).name;
    if j == 0 {
        assert(nm == "addi"@);
        assert(nm.len() == 4);
        assert(!spec_is_rv32_only_mnemonic(nm));
    } else if j == 1 {
        assert(nm == "slti"@);
        assert(nm.len() == 4);
        assert(!spec_is_rv32_only_mnemonic(nm));
    } else if j == 2 {
        assert(nm == "sltiu"@);
        assert(nm.len() == 5);
        assert("sltiu"@[0] != "c.jal"@[0]);
        assert("sltiu"@[0] != "c.flw"@[0]);
        assert("sltiu"@[0] != "c.fsw"@[0]);
        assert(!spec_is_rv32_only_mnemonic(nm));
    } else if j == 3 {
        assert(nm == "ori"@);
        assert(nm.len() == 3);
        assert(!spec_is_rv32_only_mnemonic(nm));
    } else if j == 4 {
        assert(nm == "xori"@);
        assert(nm.len() == 4);
        assert(!spec_is_rv32_only_mnemonic(nm));
    } else if j == 5 {
        assert(nm == "andi"@);
        assert(nm.len() == 4);
        assert(!spec_is_rv32_only_mnemonic(nm));
    } else if j == 6 {
        assert(nm == "slli"@);
        assert(nm.len() == 4);
        assert(!spec_is_rv32_only_mnemonic(nm));
    } else if j == 7 {
        assert(nm == "srli"@);
        assert(nm.len() == 4);
        assert(!spec_is_rv32_only_mnemonic(nm));
    } else if j == 8 {
        assert(nm == "srai"@);
        assert(nm.len() == 4);
        assert(!spec_is_rv32_only_mnemonic(nm));
    } else if j == 9 {
        assert(nm == "lui"@);
        assert(nm.len() == 3);
        assert(!spec_is_rv32_only_mnemonic(nm));
    } else if j == 10 {
        assert(nm == "auipc"@);
        assert(nm.len() == 5);
        assert("auipc"@[0] != "c.jal"@[0]);
        assert("auipc"@[0] != "c.flw"@[0]);
        assert("auipc"@[0] != "c.fsw"@[0]);
        assert(!spec_is_rv32_only_mnemonic(nm));
    } else if j == 11 {
        assert(nm == "add"@);
        assert(nm.len() == 3);
        assert(!spec_is_rv32_only_mnemonic(nm));
    } else if j == 12 {
        assert(nm == "slt"@);
        assert(nm.len() == 3);
        assert(!spec_is_rv32_only_mnemonic(nm));
    } else if j == 13 {
        assert(nm == "sltu"@);
        assert(nm.len() == 4);
        assert(!spec_is_rv32_only_mnemonic(nm));
    } else if j == 14 {
        assert(nm == "and"@);
        assert(nm.len() == 3);
        assert(!spec_is_rv32_only_mnemonic(nm));
    } else if j == 15 {
        assert(nm == "or"@);
        assert(nm.len() == 2);
        assert(!spec_is_rv32_only_mnemonic(nm));
    } else if j == 16 {
        assert(nm == "xor"@);
        assert(nm.len() == 3);
        assert(!spec_is_rv32_only_mnemonic(nm));
    } else if j == 17 {
        assert(nm == "sll"@);
        assert(nm.len() == 3);
        assert(!spec_is_rv32_only_mnemonic(nm));
    } else if j == 18 {
        assert(nm == "srl"@);
        assert(nm.len() == 3);
        assert(!spec_is_rv32_only_mnemonic(nm));
    } else if j == 19 {
        assert(nm == "sub"@);
        assert(nm.len() == 3);
        assert(!spec_is_rv32_only_mnemonic(nm));
    } else if j == 20 {
        assert(nm == "sra"@);
        assert(nm.len() == 3);
        assert(!spec_is_rv32_only_mnemonic(nm));
    } else if j == 21 {
        assert(nm == "jal"@);
        assert(nm.len() == 3);
        assert(!spec_is_rv32_only_mnemonic(nm));
    } else if j == 22 {
        assert(nm == "jalr"@);
        assert(nm.len() == 4);
        assert(!spec_is_rv32_only_mnemonic(nm));
    } else if j == 23 {
        assert(nm == "beq"@);
        assert(nm.len() == 3);
        assert(!spec_is_rv32_only_mnemonic(nm));
    } else if j == 24 {
        assert(nm == "bne"@);
        assert(nm.len() == 3);
        assert(!spec_is_rv32_only_mnemonic(nm));
    } else if j == 25 {
        assert(nm == "blt"@);
        assert(nm.len() == 3);
        assert(!spec_is_rv32_only_mnemonic(nm));
    } else if j == 26 {
        assert(nm == "bltu"@);
        assert(nm.len() == 4);
        assert(!spec_is_rv32_only_mnemonic(nm));
    } else if j == 27 {
        assert(nm == "bge"@);
        assert(nm.len() == 3);
        assert(!spec_is_rv32_only_mnemonic(nm));
    } else if j == 28 {
        assert(nm == "bgeu"@);
        assert(nm.len() == 4);
        assert(!spec_is_rv32_only_mnemonic(nm));
    } else if j == 29 {
        assert(nm == "lb"@);
        assert(nm.len() == 2);
        assert(!spec_is_rv32_only_mnemonic(nm));
    } else if j == 30 {
        assert(nm == "lbu"@);
        assert(nm.len() == 3);
        assert(!spec_is_rv32_only_mnemonic(nm));
    } else if j == 31 {
        assert(nm == "lh"@);
        assert(nm.len() == 2);
        assert(!spec_is_rv32_only_mnemonic(nm));
    } else if j == 32 {
        assert(nm == "lhu"@);
        assert(nm.len() == 3);
        assert(!spec_is_rv32_only_mnemonic(nm));
    } else if j == 33 {
        assert(nm == "lw"@);
        assert(nm.len() == 2);
        assert(!spec_is_rv32_only_mnemonic(nm));
    } else if j == 34 {
        assert(nm == "sb"@);
        assert(nm.len() == 2);
        assert(!spec_is_rv32_only_mnemonic(nm));
    } else if j == 35 {
        assert(nm == "sh"@);
        assert(nm.len() == 2);
        assert(!spec_is_rv32_only_mnemonic(nm));
    } else if j == 36 {
        assert(nm == "sw"@);
        assert(nm.len() == 2);
        assert(!spec_is_rv32_only_mnemonic(nm));
    } else if j == 37 {
        assert(nm == "fence"@);
        assert(nm.len() == 5);
        assert("fence"@[0] != "c.jal"@[0]);
        assert("fence"@[0] != "c.flw"@[0]);
        assert("fence"@[0] != "c.fsw"@[0]);
        assert(!spec_is_rv32_only_mnemonic(nm));
    } else if j == 38 {
        assert(nm == "fence.i"@);
        assert(nm.len() == 7);
        assert("fence.i"@[0] != "c.flwsp"@[0]);
        assert("fence.i"@[0] != "c.fswsp"@[0]);
        assert(!spec_is_rv32_only_mnemonic(nm));
    } else if j == 39 {
        assert(nm == "ecall"@);
        assert(nm.len() == 5);
        assert("ecall"@[0] != "c.jal"@[0]);
        assert("ecall"@[0] != "c.flw"@[0]);
        assert("ecall"@[0] != "c.fsw"@[0]);
        assert(!spec_is_rv32_only_mnemonic(nm));
    } else if j == 40 {
        assert(nm == "ebreak"@);
        assert(nm.len() == 6);
        assert(!spec_is_rv32_only_mnemonic(nm));
    } else if j == 41 {
        assert(nm == "wfi"@);
        assert(nm.len() == 3);
        assert(!spec_is_rv32_only_mnemonic(nm));
    } else if j == 42 {
        assert(nm == "mret"@);
        assert(nm.len() == 4);
        assert(!spec_is_rv32_only_mnemonic(nm));
    } else if j == 43 {
        assert(nm == "sret"@);
        assert(nm.len() == 4);
        assert(!spec_is_rv32_only_mnemonic(nm));
    } else if j == 44 {
        assert(nm == "uret"@);
        assert(nm.len() == 4);
        assert(!spec_is_rv32_only_mnemonic(nm));
    } else if j == 45 {
        assert(nm == "sfence.vma"@);
        assert(nm.len() == 10);
        assert(!spec_is_rv32_only_mnemonic(nm));
    } else if j == 46 {
        assert(nm == "csrrw"@);
        assert(nm.len() == 5);
        assert("csrrw"@[1] != "c.jal"@[1]);
        assert("csrrw"@[1] != "c.flw"@[1]);
        assert("csrrw"@[1] != "c.fsw"@[1]);
        assert(!spec_is_rv32_only_mnemonic(nm));
    } else if j == 47 {
        assert(nm == "csrrs"@);
        assert(nm.len() == 5);
        assert("csrrs"@[1] != "c.jal"@[1]);
        assert("csrrs"@[1] != "c.flw"@[1]);
        assert("csrrs"@[1] != "c.fsw"@[1]);
        assert(!spec_is_rv32_only_mnemonic(nm));
    } else if j == 48 {
        assert(nm == "csrrc"@);
        assert(nm.len() == 5);
        assert("csrrc"@[1] != "c.jal"@[1]);
        assert("csrrc"@[1] != "c.flw"@[1]);
        assert("csrrc"@[1] != "c.fsw"@[1]);
        assert(!spec_is_rv32_only_mnemonic(nm));
    } else if j == 49 {
        assert(nm == "csrrwi"@);
        assert(nm.len() == 6);
        assert(!spec_is_rv32_only_mnemonic(nm));
    } else if j == 50 {
        assert(nm == "csrrsi"@);
        assert(nm.len() == 6);
        assert(!spec_is_rv32_only_mnemonic(nm));
    } else {
        assert(nm == "csrrci"@);
        assert(nm.len() == 6);
        assert(!spec_is_rv32_only_mnemonic(nm));
    }
}

/// No entry of this group carries an RV32-only mnemonic.
#[verifier::rlimit(60)]
pub proof fn lemma_m_ext_filters_rv64_safe(j: int)
    requires
        0 <= j < 13,
    ensures
        !spec_is_rv32_only_mnemonic(m_ext_filter_at(j).name),
{
    reveal_strlit("c.flw");
    reveal_strlit("c.flwsp");
    reveal_strlit("c.fsw");
    reveal_strlit("c.fswsp");
    reveal_strlit("c.jal");
    reveal_strlit("div");
    reveal_strlit("divu");
    reveal_strlit("divuw");
    reveal_strlit("divw");
    reveal_strlit("mul");
    reveal_strlit("mulh");
    reveal_strlit("mulhsu");
    reveal_strlit("mulhu");
    reveal_strlit("mulw");
    reveal_strlit("rem");
    reveal_strlit("remu");
    reveal_strlit("remuw");
    reveal_strlit("remw");
    assert("c.flw"@.len() == 5);
    assert("c.flwsp"@.len() == 7);
    assert("c.fsw"@.len() == 5);
    assert("c.fswsp"@.len() == 7);
    assert("c.jal"@.len() == 5);
    let nm = m_ext_filter_at(j).name;
    if j == 0 {
        assert(nm == "mul"@);
        assert(nm.len() == 3);
        assert(!spec_is_rv32_only_mnemonic(nm));
    } else if j == 1 {
        assert(nm == "mulh"@);
        assert(nm.len() == 4);
        assert(!spec_is_rv32_only_mnemonic(nm));
    } else if j == 2 {
        assert(nm == "mulhu"@);
        assert(nm.len() == 5);
        assert("mulhu"@[0] != "c.jal"@[0]);
        assert("mulhu"@[0] != "c.flw"@[0]);
        assert("mulhu"@[0] != "c.fsw"@[0]);
        assert(!spec_is_rv32_only_mnemonic(nm));
    } else if j == 3 {
        assert(nm == "mulhsu"@);
        assert(nm.len() == 6);
        assert(!spec_is_rv32_only_mnemonic(nm));
    } else if j == 4 {
        assert(nm == "mulw"@);
        assert(nm.len() == 4);
        assert(!spec_is_rv32_only_mnemonic(nm));
    } else if j == 5 {
        assert(nm == "div"@);
        assert(nm.len() == 3);
        assert(!spec_is_rv32_only_mnemonic(nm));
    } else if j == 6 {
        assert(nm == "divu"@);
        assert(nm.len() == 4);
        assert(!spec_is_rv32_only_mnemonic(nm));
    } else if j == 7 {
        assert(nm == "rem"@);
        assert(nm.len() == 3);
        assert(!spec_is_rv32_only_mnemonic(nm));
    } else if j == 8 {
        assert(nm == "remu"@);
        assert(nm.len() == 4);
        assert(!spec_is_rv32_only_mnemonic(nm));
    } else if j == 9 {
        assert(nm == "divw"@);
        assert(nm.len() == 4);
        assert(!spec_is_rv32_only_mnemonic(nm));
    } else if j == 10 {
        assert(nm == "divuw"@);
        assert(nm.len() == 5);
        assert("divuw"@[0] != "c.jal"@[0]);
        assert("divuw"@[0] != "c.flw"@[0]);
        assert("divuw"@[0] != "c.fsw"@[0]);
        assert(!spec_is_rv32_only_mnemonic(nm));
    } else if j == 11 {
        assert(nm == "remw"@);
        assert(nm.len() == 4);
        assert(!spec_is_rv32_only_mnemonic(nm));
    } else {
        assert(nm == "remuw"@);
        assert(nm.len() == 5);
        assert("remuw"@[0] != "c.jal"@[0]);
        assert("remuw"@[0] != "c.flw"@[0]);
        assert("remuw"@[0] != "c.fsw"@[0]);
        assert(!spec_is_rv32_only_mnemonic(nm));
    }
}

/// No entry of this group carries an RV32-only mnemonic.
#[verifier::rlimit(60)]
pub proof fn lemma_a_ext_filters_rv64_safe(j: int)
    requires
        0 <= j < 22,
    ensures
        !spec_is_rv32_only_mnemonic(a_ext_filter_at(j).name),
{
    reveal_strlit("amoadd.d");
    reveal_strlit("amoadd.w");
    reveal_strlit("amoand.d");
    reveal_strlit("amoand.w");
    reveal_strlit("amomax.d");
    reveal_strlit("amomax.w");
    reveal_strlit("amomaxu.d");
    reveal_strlit("amomaxu.w");
    reveal_strlit("amomin.d");
    reveal_strlit("amomin.w");
    reveal_strlit("amominu.d");
    reveal_strlit("amominu.w");
    reveal_strlit("amoor.d");
    reveal_strlit("amoor.w");
    reveal_strlit("amoswap.d");
    reveal_strlit("amoswap.w");
    reveal_strlit("amoxor.d");
    reveal_strlit("amoxor.w");
    reveal_strlit("c.flw");
    reveal_strlit("c.flwsp");
    reveal_strlit("c.fsw");
    reveal_strlit("c.fswsp");
    reveal_strlit("c.jal");
    reveal_strlit("lr.d");
    reveal_strlit("lr.w");
    reveal_strlit("sc.d");
    reveal_strlit("sc.w");
    assert("c.flw"@.len() == 5);
    assert("c.flwsp"@.len() == 7);
    assert("c.fsw"@.len() == 5);
    assert("c.fswsp"@.len() == 7);
    assert("c.jal"@.len() == 5);
    let nm = a_ext_filter_at(j).name;
    if j == 0 {
        assert(nm == "lr.w"@);
        assert(nm.len() == 4);
        assert(!spec_is_rv32_only_mnemonic(nm));
    } else if j == 1 {
        assert(nm == "sc.w"@);
        assert(nm.len() == 4);
        assert(!spec_is_rv32_only_mnemonic(nm));
    } else if j == 2 {
        assert(nm == "lr.d"@);
        assert(nm.len() == 4);
        assert(!spec_is_rv32_only_mnemonic(nm));
    } else if j == 3 {
        assert(nm == "sc.d"@);
        assert(nm.len() == 4);
        assert(!spec_is_rv32_only_mnemonic(nm));
    } else if j == 4 {
        assert(nm == "amoswap.w"@);
        assert(nm.len() == 9);
        assert(!spec_is_rv32_only_mnemonic(nm));
    } else if j == 5 {
        assert(nm == "amoswap.d"@);
        assert(nm.len() == 9);
        assert(!spec_is_rv32_only_mnemonic(nm));
    } else if j == 6 {
        assert(nm == "amoadd.w"@);
        assert(nm.len() == 8);
        assert(!spec_is_rv32_only_mnemonic(nm));
    } else if j == 7 {
        assert(nm == "amoadd.d"@);
        assert(nm.len() == 8);
        assert(!spec_is_rv32_only_mnemonic(nm));
    } else if j == 8 {
        assert(nm == "amoand.w"@);
        assert(nm.len() == 8);
        assert(!spec_is_rv32_only_mnemonic(nm));
    } else if j == 9 {
        assert(nm == "amoand.d"@);
        assert(nm.len() == 8);
        assert(!spec_is_rv32_only_mnemonic(nm));
    } else if j == 10 {
        assert(nm == "amoor.w"@);
        assert(nm.len() == 7);
        assert("amoor.w"@[0] != "c.flwsp"@[0]);
        assert("amoor.w"@[0] != "c.fswsp"@[0]);
        assert(!spec_is_rv32_only_mnemonic(nm));
    } else if j == 11 {
        assert(nm == "amoor.d"@);
        assert(nm.len() == 7);
        assert("amoor.d"@[0] != "c.flwsp"@[0]);
        assert("amoor.d"@[0] != "c.fswsp"@[0]);
        assert(!spec_is_rv32_only_mnemonic(nm));
    } else if j == 12 {
        assert(nm == "amoxor.w"@);
        assert(nm.len() == 8);
        assert(!spec_is_rv32_only_mnemonic(nm));
    } else if j == 13 {
        assert(nm == "amoxor.d"@);
        assert(nm.len() == 8);
        assert(!spec_is_rv32_only_mnemonic(nm));
    } else if j == 14 {
        assert(nm == "amomax.w"@);
        assert(nm.len() == 8);
        assert(!spec_is_rv32_only_mnemonic(nm));
    } else if j == 15 {
        assert(nm == "amomax.d"@);
        assert(nm.len() == 8);
        assert(!spec_is_rv32_only_mnemonic(nm));
    } else if j == 16 {
        assert(nm == "amomaxu.w"@);
        assert(nm.len() == 9);
        assert(!spec_is_rv32_only_mnemonic(nm));
    } else if j == 17 {
        assert(nm == "amomaxu.d"@);
        assert(nm.len() == 9);
        assert(!spec_is_rv32_only_mnemonic(nm));
    } else if j == 18 {
        assert(nm == "amomin.w"@);
        assert(nm.len() == 8);
        assert(!spec_is_rv32_only_mnemonic(nm));
    } else if j == 19 {
        assert(nm == "amomin.d"@);
        assert(nm.len() == 8);
        assert(!spec_is_rv32_only_mnemonic(nm));
    } else if j == 20 {
        assert(nm == "amominu.w"@);
        assert(nm.len() == 9);
        assert(!spec_is_rv32_only_mnemonic(nm));
    } else {
        assert(nm == "amominu.d"@);
        assert(nm.len() == 9);
        assert(!spec_is_rv32_only_mnemonic(nm));
    }
}

/// No entry of this group carries an RV32-only mnemonic.
#[verifier::rlimit(60)]
pub proof fn lemma_f_ext_filters_rv64_safe(j: int)
    requires
        0 <= j < 30,
    ensures
        !spec_is_rv32_only_mnemonic(f_ext_filter_at(j).name),
{
    reveal_strlit("c.flw");
    reveal_strlit("c.flwsp");
    reveal_strlit("c.fsw");
    reveal_strlit("c.fswsp");
    reveal_strlit("c.jal");
    reveal_strlit("fadd.s");
    reveal_strlit("fclass.s");
    reveal_strlit("fcvt.l.s");
    reveal_strlit("fcvt.lu.s");
    reveal_strlit("fcvt.s.l");
    reveal_strlit("fcvt.s.lu");
    reveal_strlit("fcvt.s.w");
    reveal_strlit("fcvt.s.wu");
    reveal_strlit("fcvt.w.s");
    reveal_strlit("fcvt.wu.s");
    reveal_strlit("fdiv.s");
    reveal_strlit("feq.s");
    reveal_strlit("fle.s");
    reveal_strlit("flt.s");
    reveal_strlit("flw");
    reveal_strlit("fmadd.s");
    reveal_strlit("fmax.s");
    reveal_strlit("fmin.s");
    reveal_strlit("fmsub.s");
    reveal_strlit("fmul.s");
    reveal_strlit("fmv.w.x");
    reveal_strlit("fmv.x.w");
    reveal_strlit("fnmadd.s");
    reveal_strlit("fnmsub.s");
    reveal_strlit("fsgnj.s");
    reveal_strlit("fsgnjn.s");
    reveal_strlit("fsgnjx.s");
    reveal_strlit("fsqrt.s");
    reveal_strlit("fsub.s");
    reveal_strlit("fsw");
    assert("c.flw"@.len() == 5);
    assert("c.flwsp"@.len() == 7);
    assert("c.fsw"@.len() == 5);
    assert("c.fswsp"@.len() == 7);
    assert("c.jal"@.len() == 5);
    let nm = f_ext_filter_at(j).name;
    if j == 0 {
        assert(nm == "flw"@);
        assert(nm.len() == 3);
        assert(!spec_is_rv32_only_mnemonic(nm));
    } else if j == 1 {
        assert(nm == "fsw"@);
        assert(nm.len() == 3);
        assert(!spec_is_rv32_only_mnemonic(nm));
    } else if j == 2 {
        assert(nm == "fadd.s"@);
        assert(nm.len() == 6);
        assert(!spec_is_rv32_only_mnemonic(nm));
    } else if j == 3 {
        assert(nm == "fsub.s"@);
        assert(nm.len() == 6);
        assert(!spec_is_rv32_only_mnemonic(nm));
    } else if j == 4 {
        assert(nm == "fmul.s"@);
        assert(nm.len() == 6);
        assert(!spec_is_rv32_only_mnemonic(nm));
    } else if j == 5 {
        assert(nm == "fdiv.s"@);
        assert(nm.len() == 6);
        assert(!spec_is_rv32_only_mnemonic(nm));
    } else if j == 6 {
        assert(nm == "fsqrt.s"@);
        assert(nm.len() == 7);
        assert("fsqrt.s"@[0] != "c.flwsp"@[0]);
        assert("fsqrt.s"@[0] != "c.fswsp"@[0]);
        assert(!spec_is_rv32_only_mnemonic(nm));
    } else if j == 7 {
        assert(nm == "fmin.s"@);
        assert(nm.len() == 6);
        assert(!spec_is_rv32_only_mnemonic(nm));
    } else if j == 8 {
        assert(nm == "fmax.s"@);
        assert(nm.len() == 6);
        assert(!spec_is_rv32_only_mnemonic(nm));
    } else if j == 9 {
        assert(nm == "fmadd.s"@);
        assert(nm.len() == 7);
        assert("fmadd.s"@[0] != "c.flwsp"@[0]);
        assert("fmadd.s"@[0] != "c.fswsp"@[0]);
        assert(!spec_is_rv32_only_mnemonic(nm));
    } else if j == 10 {
        assert(nm == "fnmadd.s"@);
        assert(nm.len() == 8);
        assert(!spec_is_rv32_only_mnemonic(nm));
    } else if j == 11 {
        assert(nm == "fmsub.s"@);
        assert(nm.len() == 7);
        assert("fmsub.s"@[0] != "c.flwsp"@[0]);
        assert("fmsub.s"@[0] != "c.fswsp"@[0]);
        assert(!spec_is_rv32_only_mnemonic(nm));
    } else if j == 12 {
        assert(nm == "fnmsub.s"@);
        assert(nm.len() == 8);
        assert(!spec_is_rv32_only_mnemonic(nm));
    } else if j == 13 {
        assert(nm == "fcvt.s.w"@);
        assert(nm.len() == 8);
        assert(!spec_is_rv32_only_mnemonic(nm));
    } else if j == 14 {
        assert(nm == "fcvt.s.l"@);
        assert(nm.len() == 8);
        assert(!spec_is_rv32_only_mnemonic(nm));
    } else if j == 15 {
        assert(nm == "fcvt.s.wu"@);
        assert(nm.len() == 9);
        assert(!spec_is_rv32_only_mnemonic(nm));
    } else if j == 16 {
        assert(nm == "fcvt.s.lu"@);
        assert(nm.len() == 9);
        assert(!spec_is_rv32_only_mnemonic(nm));
    } else if j == 17 {
        assert(nm == "fcvt.w.s"@);
        assert(nm.len() == 8);
        assert(!spec_is_rv32_only_mnemonic(nm));
    } else if j == 18 {
        assert(nm == "fcvt.l.s"@);
        assert(nm.len() == 8);
        assert(!spec_is_rv32_only_mnemonic(nm));
    } else if j == 19 {
        assert(nm == "fcvt.wu.s"@);
        assert(nm.len() == 9);
        assert(!spec_is_rv32_only_mnemonic(nm));
    } else if j == 20 {
        assert(nm == "fcvt.lu.s"@);
        assert(nm.len() == 9);
        assert(!spec_is_rv32_only_mnemonic(nm));
    } else if j == 21 {
        assert(nm == "fsgnj.s"@);
        assert(nm.len() == 7);
        assert("fsgnj.s"@[0] != "c.flwsp"@[0]);
        assert("fsgnj.s"@[0] != "c.fswsp"@[0]);
        assert(!spec_is_rv32_only_mnemonic(nm));
    } else if j == 22 {
        assert(nm == "fsgnjn.s"@);
        assert(nm.len() == 8);
        assert(!spec_is_rv32_only_mnemonic(nm));
    } else if j == 23 {
        assert(nm == "fsgnjx.s"@);
        assert(nm.len() == 8);
        assert(!spec_is_rv32_only_mnemonic(nm));
    } else if j == 24 {
        assert(nm == "fmv.w.x"@);
        assert(nm.len() == 7);
        assert("fmv.w.x"@[0] != "c.flwsp"@[0]);
        assert("fmv.w.x"@[0] != "c.fswsp"@[0]);
        assert(!spec_is_rv32_only_mnemonic(nm));
    } else if j == 25 {
        assert(nm == "fmv.x.w"@);
        assert(nm.len() == 7);
        assert("fmv.x.w"@[0] != "c.flwsp"@[0]);
        assert("fmv.x.w"@[0] != "c.fswsp"@[0]);
        assert(!spec_is_rv32_only_mnemonic(nm));
    } else if j == 26 {
        assert(nm == "feq.s"@);
        assert(nm.len() == 5);
        assert("feq.s"@[0] != "c.jal"@[0]);
        assert("feq.s"@[0] != "c.flw"@[0]);
        assert("feq.s"@[0] != "c.fsw"@[0]);
        assert(!spec_is_rv32_only_mnemonic(nm));
    } else if j == 27 {
        assert(nm == "flt.s"@);
        assert(nm.len() == 5);
        assert("flt.s"@[0] != "c.jal"@[0]);
        assert("flt.s"@[0] != "c.flw"@[0]);
        assert("flt.s"@[0] != "c.fsw"@[0]);
        assert(!spec_is_rv32_only_mnemonic(nm));
    } else if j == 28 {
        assert(nm == "fle.s"@);
        assert(nm.len() == 5);
        assert("fle.s"@[0] != "c.jal"@[0]);
        assert("fle.s"@[0] != "c.flw"@[0]);
        assert("fle.s"@[0] != "c.fsw"@[0]);
        assert(!spec_is_rv32_only_mnemonic(nm));
    } else {
        assert(nm == "fclass.s"@);
        assert(nm.len() == 8);
        assert(!spec_is_rv32_only_mnemonic(nm));
    }
}

/// No entry of this group carries an RV32-only mnemonic.
#[verifier::rlimit(60)]
pub proof fn lemma_d_ext_filters_rv64_safe(j: int)
    requires
        0 <= j < 32,
    ensures
        !spec_is_rv32_only_mnemonic(d_ext_filter_at(j).name),
{
    reveal_strlit("c.flw");
    reveal_strlit("c.flwsp");
    reveal_strlit("c.fsw");
    reveal_strlit("c.fswsp");
    reveal_strlit("c.jal");
    reveal_strlit("fadd.d");
    reveal_strlit("fclass.d");
    reveal_strlit("fcvt.d.l");
    reveal_strlit("fcvt.d.lu");
    reveal_strlit("fcvt.d.s");
    reveal_strlit("fcvt.d.w");
    reveal_strlit("fcvt.d.wu");
    reveal_strlit("fcvt.l.d");
    reveal_strlit("fcvt.lu.d");
    reveal_strlit("fcvt.s.d");
    reveal_strlit("fcvt.w.d");
    reveal_strlit("fcvt.wu.d");
    reveal_strlit("fdiv.d");
    reveal_strlit("feq.d");
    reveal_strlit("fld");
    reveal_strlit("fle.d");
    reveal_strlit("flt.d");
    reveal_strlit("fmadd.d");
    reveal_strlit("fmax.d");
    reveal_strlit("fmin.d");
    reveal_strlit("fmsub.d");
    reveal_strlit("fmul.d");
    reveal_strlit("fmv.d.x");
    reveal_strlit("fmv.x.d");
    reveal_strlit("fnmadd.d");
    reveal_strlit("fnmsub.d");
    reveal_strlit("fsd");
    reveal_strlit("fsgnj.d");
    reveal_strlit("fsgnjn.d");
    reveal_strlit("fsgnjx.d");
    reveal_strlit("fsqrt.d");
    reveal_strlit("fsub.d");
    assert("c.flw"@.len() == 5);
    assert("c.flwsp"@.len() == 7);
    assert("c.fsw"@.len() == 5);
    assert("c.fswsp"@.len() == 7);
    assert("c.jal"@.len() == 5);
    let nm = d_ext_filter_at(j).name;
    if j == 0 {
        assert(nm == "fld"@);
        assert(nm.len() == 3);
        assert(!spec_is_rv32_only_mnemonic(nm));
    } else if j == 1 {
        assert(nm == "fsd"@);
        assert(nm.len() == 3);
        assert(!spec_is_rv32_only_mnemonic(nm));
    } else if j == 2 {
        assert(nm == "fadd.d"@);
        assert(nm.len() == 6);
        assert(!spec_is_rv32_only_mnemonic(nm));
    } else if j == 3 {
        assert(nm == "fsub.d"@);
        assert(nm.len() == 6);
        assert(!spec_is_rv32_only_mnemonic(nm));
    } else if j == 4 {
        assert(nm == "fmul.d"@);
        assert(nm.len() == 6);
        assert(!spec_is_rv32_only_mnemonic(nm));
    } else if j == 5 {
        assert(nm == "fdiv.d"@);
        assert(nm.len() == 6);
        assert(!spec_is_rv32_only_mnemonic(nm));
    } else if j == 6 {
        assert(nm == "fsqrt.d"@);
        assert(nm.len() == 7);
        assert("fsqrt.d"@[0] != "c.flwsp"@[0]);
        assert("fsqrt.d"@[0] != "c.fswsp"@[0]);
        assert(!spec_is_rv32_only_mnemonic(nm));
    } else if j == 7 {
        assert(nm == "fmin.d"@);
        assert(nm.len() == 6);
        assert(!spec_is_rv32_only_mnemonic(nm));
    } else if j == 8 {
        assert(nm == "fmax.d"@);
        assert(nm.len() == 6);
        assert(!spec_is_rv32_only_mnemonic(nm));
    } else if j == 9 {
        assert(nm == "fmadd.d"@);
        assert(nm.len() == 7);
        assert("fmadd.d"@[0] != "c.flwsp"@[0]);
        assert("fmadd.d"@[0] != "c.fswsp"@[0]);
        assert(!spec_is_rv32_only_mnemonic(nm));
    } else if j == 10 {
        assert(nm == "fnmadd.d"@);
        assert(nm.len() == 8);
        assert(!spec_is_rv32_only_mnemonic(nm));
    } else if j == 11 {
        assert(nm == "fmsub.d"@);
        assert(nm.len() == 7);
        assert("fmsub.d"@[0] != "c.flwsp"@[0]);
        assert("fmsub.d"@[0] != "c.fswsp"@[0]);
        assert(!spec_is_rv32_only_mnemonic(nm));
    } else if j == 12 {
        assert(nm == "fnmsub.d"@);
        assert(nm.len() == 8);
        assert(!spec_is_rv32_only_mnemonic(nm));
    } else if j == 13 {
        assert(nm == "fcvt.d.w"@);
        assert(nm.len() == 8);
        assert(!spec_is_rv32_only_mnemonic(nm));
    } else if j == 14 {
        assert(nm == "fcvt.d.l"@);
        assert(nm.len() == 8);
        assert(!spec_is_rv32_only_mnemonic(nm));
    } else if j == 15 {
        assert(nm == "fcvt.d.wu"@);
        assert(nm.len() == 9);
        assert(!spec_is_rv32_only_mnemonic(nm));
    } else if j == 16 {
        assert(nm == "fcvt.d.lu"@);
        assert(nm.len() == 9);
        assert(!spec_is_rv32_only_mnemonic(nm));
    } else if j == 17 {
        assert(nm == "fcvt.w.d"@);
        assert(nm.len() == 8);
        assert(!spec_is_rv32_only_mnemonic(nm));
    } else if j == 18 {
        assert(nm == "fcvt.l.d"@);
        assert(nm.len() == 8);
        assert(!spec_is_rv32_only_mnemonic(nm));
    } else if j == 19 {
        assert(nm == "fcvt.wu.d"@);
        assert(nm.len() == 9);
        assert(!spec_is_rv32_only_mnemonic(nm));
    } else if j == 20 {
        assert(nm == "fcvt.lu.d"@);
        assert(nm.len() == 9);
        assert(!spec_is_rv32_only_mnemonic(nm));
    } else if j == 21 {
        assert(nm == "fcvt.s.d"@);
        assert(nm.len() == 8);
        assert(!spec_is_rv32_only_mnemonic(nm));
    } else if j == 22 {
        assert(nm == "fcvt.d.s"@);
        assert(nm.len() == 8);
        assert(!spec_is_rv32_only_mnemonic(nm));
    } else if j == 23 {
        assert(nm == "fsgnj.d"@);
        assert(nm.len() == 7);
        assert("fsgnj.d"@[0] != "c.flwsp"@[0]);
        assert("fsgnj.d"@[0] != "c.fswsp"@[0]);
        assert(!spec_is_rv32_only_mnemonic(nm));
    } else if j == 24 {
        assert(nm == "fsgnjn.d"@);
        assert(nm.len() == 8);
        assert(!spec_is_rv32_only_mnemonic(nm));
    } else if j == 25 {
        assert(nm == "fsgnjx.d"@);
        assert(nm.len() == 8);
        assert(!spec_is_rv32_only_mnemonic(nm));
    } else if j == 26 {
        assert(nm == "fmv.x.d"@);
        assert(nm.len() == 7);
        assert("fmv.x.d"@[0] != "c.flwsp"@[0]);
        assert("fmv.x.d"@[0] != "c.fswsp"@[0]);
        assert(!spec_is_rv32_only_mnemonic(nm));
    } else if j == 27 {
        assert(nm == "fmv.d.x"@);
        assert(nm.len() == 7);
        assert("fmv.d.x"@[0] != "c.flwsp"@[0]);
        assert("fmv.d.x"@[0] != "c.fswsp"@[0]);
        assert(!spec_is_rv32_only_mnemonic(nm));
    } else if j == 28 {
        assert(nm == "feq.d"@);
        assert(nm.len() == 5);
        assert("feq.d"@[0] != "c.jal"@[0]);
        assert("feq.d"@[0] != "c.flw"@[0]);
        assert("feq.d"@[0] != "c.fsw"@[0]);
        assert(!spec_is_rv32_only_mnemonic(nm));
    } else if j == 29 {
        assert(nm == "flt.d"@);
        assert(nm.len() == 5);
        assert("flt.d"@[0] != "c.jal"@[0]);
        assert("flt.d"@[0] != "c.flw"@[0]);
        assert("flt.d"@[0] != "c.fsw"@[0]);
        assert(!spec_is_rv32_only_mnemonic(nm));
    } else if j == 30 {
        assert(nm == "fle.d"@);
        assert(nm.len() == 5);
        assert("fle.d"@[0] != "c.jal"@[0]);
        assert("fle.d"@[0] != "c.flw"@[0]);
        assert("fle.d"@[0] != "c.fsw"@[0]);
        assert(!spec_is_rv32_only_mnemonic(nm));
    } else {
        assert(nm == "fclass.d"@);
        assert(nm.len() == 8);
        assert(!spec_is_rv32_only_mnemonic(nm));
    }
}

/// No entry of this group carries an RV32-only mnemonic.
#[verifier::rlimit(60)]
pub proof fn lemma_c_ret_filters_rv64_safe(j: int)
    requires
        0 <= j < 1,
    ensures
        !spec_is_rv32_only_mnemonic(c_ret_filter_at(j).name),
{
    reveal_strlit("c.flw");
    reveal_strlit("c.flwsp");
    reveal_strlit("c.fsw");
    reveal_strlit("c.fswsp");
    reveal_strlit("c.jal");
    reveal_strlit("ret");
    assert("c.flw"@.len() == 5);
    assert("c.flwsp"@.len() == 7);
    assert("c.fsw"@.len() == 5);
    assert("c.fswsp"@.len() == 7);
    assert("c.jal"@.len() == 5);
    let nm = c_ret_filter_at(j).name;
    if j == 0 {
        assert(nm == "ret"@);
        assert(nm.len() == 3);
        assert(!spec_is_rv32_only_mnemonic(nm));
    }
}

/// No entry of this group carries an RV32-only mnemonic.
#[verifier::rlimit(60)]
pub proof fn lemma_c_rv64_filters_rv64_safe(j: int)
    requires
        0 <= j < 7,
    ensures
        !spec_is_rv32_only_mnemonic(c_rv64_filter_at(j).name),
{
    reveal_strlit("c.addiw");
    reveal_strlit("c.addw");
    reveal_strlit("c.flw");
    reveal_strlit("c.flwsp");
    reveal_strlit("c.fsw");
    reveal_strlit("c.fswsp");
    reveal_strlit("c.jal");
    reveal_strlit("c.ld");
    reveal_strlit("c.ldsp");
    reveal_strlit("c.sd");
    reveal_strlit("c.sdsp");
    reveal_strlit("c.subw");
    assert("c.flw"@.len() == 5);
    assert("c.flwsp"@.len() == 7);
    assert("c.fsw"@.len() == 5);
    assert("c.fswsp"@.len() == 7);
    assert("c.jal"@.len() == 5);
    let nm = c_rv64_filter_at(j).name;
    if j == 0 {
        assert(nm == "c.ldsp"@);
        assert(nm.len() == 6);
        assert(!spec_is_rv32_only_mnemonic(nm));
    } else if j == 1 {
        assert(nm == "c.sdsp"@);
        assert(nm.len() == 6);
        assert(!spec_is_rv32_only_mnemonic(nm));
    } else if j == 2 {
        assert(nm == "c.ld"@);
        assert(nm.len() == 4);
        assert(!spec_is_rv32_only_mnemonic(nm));
    } else if j == 3 {
        assert(nm == "c.sd"@);
        assert(nm.len() == 4);
        assert(!spec_is_rv32_only_mnemonic(nm));
    } else if j == 4 {
        assert(nm == "c.addiw"@);
        assert(nm.len() == 7);
        assert("c.addiw"@[2] != "c.flwsp"@[2]);
        assert("c.addiw"@[2] != "c.fswsp"@[2]);
        assert(!spec_is_rv32_only_mnemonic(nm));
    } else if j == 5 {
        assert(nm == "c.addw"@);
        assert(nm.len() == 6);
        assert(!spec_is_rv32_only_mnemonic(nm));
    } else {
        assert(nm == "c.subw"@);
        assert(nm.len() == 6);
        assert(!spec_is_rv32_only_mnemonic(nm));
    }
}

/// No entry of this group carries an RV32-only mnemonic.
#[verifier::rlimit(60)]
pub proof fn lemma_c_d_filters_rv64_safe(j: int)
    requires
        0 <= j < 4,
    ensures
        !spec_is_rv32_only_mnemonic(c_d_filter_at(j).name),
{
    reveal_strlit("c.fld");
    reveal_strlit("c.fldsp");
    reveal_strlit("c.flw");
    reveal_strlit("c.flwsp");
    reveal_strlit("c.fsd");
    reveal_strlit("c.fsdsp");
    reveal_strlit("c.fsw");
    reveal_strlit("c.fswsp");
    reveal_strlit("c.jal");
    assert("c.flw"@.len() == 5);
    assert("c.flwsp"@.len() == 7);
    assert("c.fsw"@.len() == 5);
    assert("c.fswsp"@.len() == 7);
    assert("c.jal"@.len() == 5);
    let nm = c_d_filter_at(j).name;
    if j == 0 {
        assert(nm == "c.fldsp"@);
        assert(nm.len() == 7);
        assert("c.fldsp"@[4] != "c.flwsp"@[4]);
        assert("c.fldsp"@[3] != "c.fswsp"@[3]);
        assert(!spec_is_rv32_only_mnemonic(nm));
    } else if j == 1 {
        assert(nm == "c.fsdsp"@);
        assert(nm.len() == 7);
        assert("c.fsdsp"@[3] != "c.flwsp"@[3]);
        assert("c.fsdsp"@[4] != "c.fswsp"@[4]);
        assert(!spec_is_rv32_only_mnemonic(nm));
    } else if j == 2 {
        assert(nm == "c.fld"@);
        assert(nm.len() == 5);
        assert("c.fld"@[2] != "c.jal"@[2]);
        assert("c.fld"@[4] != "c.flw"@[4]);
        assert("c.fld"@[3] != "c.fsw"@[3]);
        assert(!spec_is_rv32_only_mnemonic(nm));
    } else {
        assert(nm == "c.fsd"@);
        assert(nm.len() == 5);
        assert("c.fsd"@[2] != "c.jal"@[2]);
        assert("c.fsd"@[3] != "c.flw"@[3]);
        assert("c.fsd"@[4] != "c.fsw"@[4]);
        assert(!spec_is_rv32_only_mnemonic(nm));
    }
}

/// No entry of this group carries an RV32-only mnemonic.
#[verifier::rlimit(60)]
pub proof fn lemma_c_global_filters_rv64_safe(j: int)
    requires
        0 <= j < 26,
    ensures
        !spec_is_rv32_only_mnemonic(c_global_filter_at(j).name),
{
    reveal_strlit("c.add");
    reveal_strlit("c.addi");
    reveal_strlit("c.addi16sp");
    reveal_strlit("c.addi4spn");
    reveal_strlit("c.and");
    reveal_strlit("c.andi");
    reveal_strlit("c.beqz");
    reveal_strlit("c.bnez");
    reveal_strlit("c.ebreak");
    reveal_strlit("c.flw");
    reveal_strlit("c.flwsp");
    reveal_strlit("c.fsw");
    reveal_strlit("c.fswsp");
    reveal_strlit("c.j");
    reveal_strlit("c.jal");
    reveal_strlit("c.jalr");
    reveal_strlit("c.jr");
    reveal_strlit("c.li");
    reveal_strlit("c.lui");
    reveal_strlit("c.lw");
    reveal_strlit("c.lwsp");
    reveal_strlit("c.mv");
    reveal_strlit("c.nop");
    reveal_strlit("c.or");
    reveal_strlit("c.slli");
    reveal_strlit("c.srai");
    reveal_strlit("c.srli");
    reveal_strlit("c.sub");
    reveal_strlit("c.sw");
    reveal_strlit("c.swsp");
    reveal_strlit("c.xor");
    assert("c.flw"@.len() == 5);
    assert("c.flwsp"@.len() == 7);
    assert("c.fsw"@.len() == 5);
    assert("c.fswsp"@.len() == 7);
    assert("c.jal"@.len() == 5);
    let nm = c_global_filter_at(j).name;
    if j == 0 {
        assert(nm == "c.lwsp"@);
        assert(nm.len() == 6);
        assert(!spec_is_rv32_only_mnemonic(nm));
    } else if j == 1 {
        assert(nm == "c.swsp"@);
        assert(nm.len() == 6);
        assert(!spec_is_rv32_only_mnemonic(nm));
    } else if j == 2 {
        assert(nm == "c.lw"@);
        assert(nm.len() == 4);
        assert(!spec_is_rv32_only_mnemonic(nm));
    } else if j == 3 {
        assert(nm == "c.sw"@);
        assert(nm.len() == 4);
        assert(!spec_is_rv32_only_mnemonic(nm));
    } else if j == 4 {
        assert(nm == "c.ebreak"@);
        assert(nm.len() == 8);
        assert(!spec_is_rv32_only_mnemonic(nm));
    } else if j == 5 {
        assert(nm == "c.j"@);
        assert(nm.len() == 3);
        assert(!spec_is_rv32_only_mnemonic(nm));
    } else if j == 6 {
        assert(nm == "c.jr"@);
        assert(nm.len() == 4);
        assert(!spec_is_rv32_only_mnemonic(nm));
    } else if j == 7 {
        assert(nm == "c.jalr"@);
        assert(nm.len() == 6);
        assert(!spec_is_rv32_only_mnemonic(nm));
    } else if j == 8 {
        assert(nm == "c.beqz"@);
        assert(nm.len() == 6);
        assert(!spec_is_rv32_only_mnemonic(nm));
    } else if j == 9 {
        assert(nm == "c.bnez"@);
        assert(nm.len() == 6);
        assert(!spec_is_rv32_only_mnemonic(nm));
    } else if j == 10 {
        assert(nm == "c.li"@);
        assert(nm.len() == 4);
        assert(!spec_is_rv32_only_mnemonic(nm));
    } else if j == 11 {
        assert(nm == "c.nop"@);
        assert(nm.len() == 5);
        assert("c.nop"@[2] != "c.jal"@[2]);
        assert("c.nop"@[2] != "c.flw"@[2]);
        assert("c.nop"@[2] != "c.fsw"@[2]);
        assert(!spec_is_rv32_only_mnemonic(nm));
    } else if j == 12 {
        assert(nm == "c.addi"@);
        assert(nm.len() == 6);
        assert(!spec_is_rv32_only_mnemonic(nm));
    } else if j == 13 {
        assert(nm == "c.addi16sp"@);
        assert(nm.len() == 10);
        assert(!spec_is_rv32_only_mnemonic(nm));
    } else if j == 14 {
        assert(nm == "c.addi4spn"@);
        assert(nm.len() == 10);
        assert(!spec_is_rv32_only_mnemonic(nm));
    } else if j == 15 {
        assert(nm == "c.slli"@);
        assert(nm.len() == 6);
        assert(!spec_is_rv32_only_mnemonic(nm));
    } else if j == 16 {
        assert(nm == "c.srli"@);
        assert(nm.len() == 6);
        assert(!spec_is_rv32_only_mnemonic(nm));
    } else if j == 17 {
        assert(nm == "c.srai"@);
        assert(nm.len() == 6);
        assert(!spec_is_rv32_only_mnemonic(nm));
    } else if j == 18 {
        assert(nm == "c.andi"@);
        assert(nm.len() == 6);
        assert(!spec_is_rv32_only_mnemonic(nm));
    } else if j == 19 {
        assert(nm == "c.mv"@);
        assert(nm.len() == 4);
        assert(!spec_is_rv32_only_mnemonic(nm));
    } else if j == 20 {
        assert(nm == "c.add"@);
        assert(nm.len() == 5);
        assert("c.add"@[2] != "c.jal"@[2]);
        assert("c.add"@[2] != "c.flw"@[2]);
        assert("c.add"@[2] != "c.fsw"@[2]);
        assert(!spec_is_rv32_only_mnemonic(nm));
    } else if j == 21 {
        assert(nm == "c.and"@);
        assert(nm.len() == 5);
        assert("c.and"@[2] != "c.jal"@[2]);
        assert("c.and"@[2] != "c.flw"@[2]);
        assert("c.and"@[2] != "c.fsw"@[2]);
        assert(!spec_is_rv32_only_mnemonic(nm));
    } else if j == 22 {
        assert(nm == "c.or"@);
        assert(nm.len() == 4);
        assert(!spec_is_rv32_only_mnemonic(nm));
    } else if j == 23 {
        assert(nm == "c.xor"@);
        assert(nm.len() == 5);
        assert("c.xor"@[2] != "c.jal"@[2]);
        assert("c.xor"@[2] != "c.flw"@[2]);
        assert("c.xor"@[2] != "c.fsw"@[2]);
        assert(!spec_is_rv32_only_mnemonic(nm));
    } else if j == 24 {
        assert(nm == "c.sub"@);
        assert(nm.len() == 5);
        assert("c.sub"@[2] != "c.jal"@[2]);
        assert("c.sub"@[2] != "c.flw"@[2]);
        assert("c.sub"@[2] != "c.fsw"@[2]);
        assert(!spec_is_rv32_only_mnemonic(nm));
    } else {
        assert(nm == "c.lui"@);
        assert(nm.len() == 5);
        assert("c.lui"@[2] != "c.jal"@[2]);
        assert("c.lui"@[2] != "c.flw"@[2]);
        assert("c.lui"@[2] != "c.fsw"@[2]);
        assert(!spec_is_rv32_only_mnemonic(nm));
    }
}

/// No entry of this group carries a mnemonic of the M, A, F, D or C extension.
#[verifier::rlimit(60)]
pub proof fn lemma_pseudo_filters_base_only(j: int)
    requires
        0 <= j < 22,
    ensures
        !spec_is_m_mnemonic(pseudo_filter_at(j).name),
        !spec_is_a_mnemonic(pseudo_filter_at(j).name),
        !spec_is_f_mnemonic(pseudo_filter_at(j).name),
        !spec_is_d_mnemonic(pseudo_filter_at(j).name),
        !spec_is_compressed_mnemonic(pseudo_filter_at(j).name),
{
    reveal_strlit("amoadd.d");
    reveal_strlit("amoadd.w");
    reveal_strlit("amoand.d");
    reveal_strlit("amoand.w");
    reveal_strlit("amomax.d");
    reveal_strlit("amomax.w");
    reveal_strlit("amomaxu.d");
    reveal_strlit("amomaxu.w");
    reveal_strlit("amomin.d");
    reveal_strlit("amomin.w");
    reveal_strlit("amominu.d");
    reveal_strlit("amominu.w");
    reveal_strlit("amoor.d");
    reveal_strlit("amoor.w");
    reveal_strlit("amoswap.d");
    reveal_strlit("amoswap.w");
    reveal_strlit("amoxor.d");
    reveal_strlit("amoxor.w");
    reveal_strlit("beqz");
    reveal_strlit("bgez");
    reveal_strlit("bltz");
    reveal_strlit("bnez");
    reveal_strlit("csrc");
    reveal_strlit("csrci");
    reveal_strlit("csrr");
    reveal_strlit("csrs");
    reveal_strlit("csrsi");
    reveal_strlit("csrw");
    reveal_strlit("csrwi");
    reveal_strlit("div");
    reveal_strlit("divu");
    reveal_strlit("divuw");
    reveal_strlit("divw");
    reveal_strlit("fadd.d");
    reveal_strlit("fadd.s");
    reveal_strlit("fclass.d");
    reveal_strlit("fclass.s");
    reveal_strlit("fcvt.d.l");
    reveal_strlit("fcvt.d.lu");
    reveal_strlit("fcvt.d.s");
    reveal_strlit("fcvt.d.w");
    reveal_strlit("fcvt.d.wu");
    reveal_strlit("fcvt.l.d");
    reveal_strlit("fcvt.l.s");
    reveal_strlit("fcvt.lu.d");
    reveal_strlit("fcvt.lu.s");
    reveal_strlit("fcvt.s.d");
    reveal_strlit("fcvt.s.l");
    reveal_strlit("fcvt.s.lu");
    reveal_strlit("fcvt.s.w");
    reveal_strlit("fcvt.s.wu");
    reveal_strlit("fcvt.w.d");
    reveal_strlit("fcvt.w.s");
    reveal_strlit("fcvt.wu.d");
    reveal_strlit("fcvt.wu.s");
    reveal_strlit("fdiv.d");
    reveal_strlit("fdiv.s");
    reveal_strlit("feq.d");
    reveal_strlit("feq.s");
    reveal_strlit("fld");
    reveal_strlit("fle.d");
    reveal_strlit("fle.s");
    reveal_strlit("flt.d");
    reveal_strlit("flt.s");
    reveal_strlit("flw");
    reveal_strlit("fmadd.d");
    reveal_strlit("fmadd.s");
    reveal_strlit("fmax.d");
    reveal_strlit("fmax.s");
    reveal_strlit("fmin.d");
    reveal_strlit("fmin.s");
    reveal_strlit("fmsub.d");
    reveal_strlit("fmsub.s");
    reveal_strlit("fmul.d");
    reveal_strlit("fmul.s");
    reveal_strlit("fmv.d.x");
    reveal_strlit("fmv.w.x");
    reveal_strlit("fmv.x.d");
    reveal_strlit("fmv.x.w");
    reveal_strlit("fnmadd.d");
    reveal_strlit("fnmadd.s");
    reveal_strlit("fnmsub.d");
    reveal_strlit("fnmsub.s");
    reveal_strlit("fsd");
    reveal_strlit("fsgnj.d");
    reveal_strlit("fsgnj.s");
    reveal_strlit("fsgnjn.d");
    reveal_strlit("fsgnjn.s");
    reveal_strlit("fsgnjx.d");
    reveal_strlit("fsgnjx.s");
    reveal_strlit("fsqrt.d");
    reveal_strlit("fsqrt.s");
    reveal_strlit("fsub.d");
    reveal_strlit("fsub.s");
    reveal_strlit("fsw");
    reveal_strlit("j");
    reveal_strlit("jal");
    reveal_strlit("jalr");
    reveal_strlit("jr");
    reveal_strlit("li");
    reveal_strlit("lr.d");
    reveal_strlit("lr.w");
    reveal_strlit("mul");
    reveal_strlit("mulh");
    reveal_strlit("mulhsu");
    reveal_strlit("mulhu");
    reveal_strlit("mulw");
    reveal_strlit("mv");
    reveal_strlit("nop");
    reveal_strlit("not");
    reveal_strlit("rem");
    reveal_strlit("remu");
    reveal_strlit("remuw");
    reveal_strlit("remw");
    reveal_strlit("ret");
    reveal_strlit("sc.d");
    reveal_strlit("sc.w");
    reveal_strlit("seqz");
    reveal_strlit("snez");
    assert("amoadd.d"@.len() == 8);
    assert("amoadd.w"@.len() == 8);
    assert("amoand.d"@.len() == 8);
    assert("amoand.w"@.len() == 8);
    assert("amomax.d"@.len() == 8);
    assert("amomax.w"@.len() == 8);
    assert("amomaxu.d"@.len() == 9);
    assert("amomaxu.w"@.len() == 9);
    assert("amomin.d"@.len() == 8);
    assert("amomin.w"@.len() == 8);
    assert("amominu.d"@.len() == 9);
    assert("amominu.w"@.len() == 9);
    assert("amoor.d"@.len() == 7);
    assert("amoor.w"@.len() == 7);
    assert("amoswap.d"@.len() == 9);
    assert("amoswap.w"@.len() == 9);
    assert("amoxor.d"@.len() == 8);
    assert("amoxor.w"@.len() == 8);
    assert("div"@.len() == 3);
    assert("divu"@.len() == 4);
    assert("divuw"@.len() == 5);
    assert("divw"@.len() == 4);
    assert("fadd.d"@.len() == 6);
    assert("fadd.s"@.len() == 6);
    assert("fclass.d"@.len() == 8);
    assert("fclass.s"@.len() == 8);
    assert("fcvt.d.l"@.len() == 8);
    assert("fcvt.d.lu"@.len() == 9);
    assert("fcvt.d.s"@.len() == 8);
    assert("fcvt.d.w"@.len() == 8);
    assert("fcvt.d.wu"@.len() == 9);
    assert("fcvt.l.d"@.len() == 8);
    assert("fcvt.l.s"@.len() == 8);
    assert("fcvt.lu.d"@.len() == 9);
    assert("fcvt.lu.s"@.len() == 9);
    assert("fcvt.s.d"@.len() == 8);
    assert("fcvt.s.l"@.len() == 8);
    assert("fcvt.s.lu"@.len() == 9);
    assert("fcvt.s.w"@.len() == 8);
    assert("fcvt.s.wu"@.len() == 9);
    assert("fcvt.w.d"@.len() == 8);
    assert("fcvt.w.s"@.len() == 8);
    assert("fcvt.wu.d"@.len() == 9);
    assert("fcvt.wu.s"@.len() == 9);
    assert("fdiv.d"@.len() == 6);
    assert("fdiv.s"@.len() == 6);
    assert("feq.d"@.len() == 5);
    assert("feq.s"@.len() == 5);
    assert("fld"@.len() == 3);
    assert("fle.d"@.len() == 5);
    assert("fle.s"@.len() == 5);
    assert("flt.d"@.len() == 5);
    assert("flt.s"@.len() == 5);
    assert("flw"@.len() == 3);
    assert("fmadd.d"@.len() == 7);
    assert("fmadd.s"@.len() == 7);
    assert("fmax.d"@.len() == 6);
    assert("fmax.s"@.len() == 6);
    assert("fmin.d"@.len() == 6);
    assert("fmin.s"@.len() == 6);
    assert("fmsub.d"@.len() == 7);
    assert("fmsub.s"@.len() == 7);
    assert("fmul.d"@.len() == 6);
    assert("fmul.s"@.len() == 6);
    assert("fmv.d.x"@.len() == 7);
    assert("fmv.w.x"@.len() == 7);
    assert("fmv.x.d"@.len() == 7);
    assert("fmv.x.w"@.len() == 7);
    assert("fnmadd.d"@.len() == 8);
    assert("fnmadd.s"@.len() == 8);
    assert("fnmsub.d"@.len() == 8);
    assert("fnmsub.s"@.len() == 8);
    assert("fsd"@.len() == 3);
    assert("fsgnj.d"@.len() == 7);
    assert("fsgnj.s"@.len() == 7);
    assert("fsgnjn.d"@.len() == 8);
    assert("fsgnjn.s"@.len() == 8);
    assert("fsgnjx.d"@.len() == 8);
    assert("fsgnjx.s"@.len() == 8);
    assert("fsqrt.d"@.len() == 7);
    assert("fsqrt.s"@.len() == 7);
    assert("fsub.d"@.len() == 6);
    assert("fsub.s"@.len() == 6);
    assert("fsw"@.len() == 3);
    assert("lr.d"@.len() == 4);
    assert("lr.w"@.len() == 4);
    assert("mul"@.len() == 3);
    assert("mulh"@.len() == 4);
    assert("mulhsu"@.len() == 6);
    assert("mulhu"@.len() == 5);
    assert("mulw"@.len() == 4);
    assert("rem"@.len() == 3);
    assert("remu"@.len() == 4);
    assert("remuw"@.len() == 5);
    assert("remw"@.len() == 4);
    assert("sc.d"@.len() == 4);
    assert("sc.w"@.len() == 4);
    let nm = pseudo_filter_at(j).name;
    if j == 0 {
        assert(nm == "nop"@);
        assert(nm.len() == 3);
        assert("nop"@[0] != "mul"@[0]);
        assert("nop"@[0] != "div"@[0]);
        assert("nop"@[0] != "rem"@[0]);
        assert("nop"@[0] != "flw"@[0]);
        assert("nop"@[0] != "fsw"@[0]);
        assert("nop"@[0] != "fld"@[0]);
        assert("nop"@[0] != "fsd"@[0]);
        assert("nop"@[0] != 'c');
        assert(!spec_is_m_mnemonic(nm));
        assert(!spec_is_a_mnemonic(nm));
        assert(!spec_is_f_mnemonic(nm));
        assert(!spec_is_d_mnemonic(nm));
        assert(!spec_is_compressed_mnemonic(nm));
    } else if j == 1 {
        assert(nm == "li"@);
        assert(nm.len() == 2);
        assert("li"@[0] != 'c');
        assert(!spec_is_m_mnemonic(nm));
        assert(!spec_is_a_mnemonic(nm));
        assert(!spec_is_f_mnemonic(nm));
        assert(!spec_is_d_mnemonic(nm));
        assert(!spec_is_compressed_mnemonic(nm));
    } else if j == 2 {
        assert(nm == "mv"@);
        assert(nm.len() == 2);
        assert("mv"@[0] != 'c');
        assert(!spec_is_m_mnemonic(nm));
        assert(!spec_is_a_mnemonic(nm));
        assert(!spec_is_f_mnemonic(nm));
        assert(!spec_is_d_mnemonic(nm));
        assert(!spec_is_compressed_mnemonic(nm));
    } else if j == 3 {
        assert(nm == "not"@);
        assert(nm.len() == 3);
        assert("not"@[0] != "mul"@[0]);
        assert("not"@[0] != "div"@[0]);
        assert("not"@[0] != "rem"@[0]);
        assert("not"@[0] != "flw"@[0]);
        assert("not"@[0] != "fsw"@[0]);
        assert("not"@[0] != "fld"@[0]);
        assert("not"@[0] != "fsd"@[0]);
        assert("not"@[0] != 'c');
        assert(!spec_is_m_mnemonic(nm));
        assert(!spec_is_a_mnemonic(nm));
        assert(!spec_is_f_mnemonic(nm));
        assert(!spec_is_d_mnemonic(nm));
        assert(!spec_is_compressed_mnemonic(nm));
    } else if j == 4 {
        assert(nm == "seqz"@);
        assert(nm.len() == 4);
        assert("seqz"@[0] != "mulh"@[0]);
        assert("seqz"@[0] != "mulw"@[0]);
        assert("seqz"@[0] != "divu"@[0]);
        assert("seqz"@[0] != "remu"@[0]);
        assert("seqz"@[0] != "divw"@[0]);
        assert("seqz"@[0] != "remw"@[0]);
        assert("seqz"@[0] != "lr.w"@[0]);
        assert("seqz"@[1] != "sc.w"@[1]);
        assert("seqz"@[0] != "lr.d"@[0]);
        assert("seqz"@[1] != "sc.d"@[1]);
        assert("seqz"@[0] != 'c');
        assert(!spec_is_m_mnemonic(nm));
        assert(!spec_is_a_mnemonic(nm));
        assert(!spec_is_f_mnemonic(nm));
        assert(!spec_is_d_mnemonic(nm));
        assert(!spec_is_compressed_mnemonic(nm));
    } else if j == 5 {
        assert(nm == "snez"@);
        assert(nm.len() == 4);
        assert("snez"@[0] != "mulh"@[0]);
        assert("snez"@[0] != "mulw"@[0]);
        assert("snez"@[0] != "divu"@[0]);
        assert("snez"@[0] != "remu"@[0]);
        assert("snez"@[0] != "divw"@[0]);
        assert("snez"@[0] != "remw"@[0]);
        assert("snez"@[0] != "lr.w"@[0]);
        assert("snez"@[1] != "sc.w"@[1]);
        assert("snez"@[0] != "lr.d"@[0]);
        assert("snez"@[1] != "sc.d"@[1]);
        assert("snez"@[0] != 'c');
        assert(!spec_is_m_mnemonic(nm));
        assert(!spec_is_a_mnemonic(nm));
        assert(!spec_is_f_mnemonic(nm));
        assert(!spec_is_d_mnemonic(nm));
        assert(!spec_is_compressed_mnemonic(nm));
    } else if j == 6 {
        assert(nm == "j"@);
        assert(nm.len() == 1);
        assert(!spec_is_m_mnemonic(nm));
        assert(!spec_is_a_mnemonic(nm));
        assert(!spec_is_f_mnemonic(nm));
        assert(!spec_is_d_mnemonic(nm));
        assert(!spec_is_compressed_mnemonic(nm));
    } else if j == 7 {
        assert(nm == "jal"@);
        assert(nm.len() == 3);
        assert("jal"@[0] != "mul"@[0]);
        assert("jal"@[0] != "div"@[0]);
        assert("jal"@[0] != "rem"@[0]);
        assert("jal"@[0] != "flw"@[0]);
        assert("jal"@[0] != "fsw"@[0]);
        assert("jal"@[0] != "fld"@[0]);
        assert("jal"@[0] != "fsd"@[0]);
        assert("jal"@[0] != 'c');
        assert(!spec_is_m_mnemonic(nm));
        assert(!spec_is_a_mnemonic(nm));
        assert(!spec_is_f_mnemonic(nm));
        assert(!spec_is_d_mnemonic(nm));
        assert(!spec_is_compressed_mnemonic(nm));
    } else if j == 8 {
        assert(nm == "ret"@);
        assert(nm.len() == 3);
        assert("ret"@[0] != "mul"@[0]);
        assert("ret"@[0] != "div"@[0]);
        assert("ret"@[2] != "rem"@[2]);
        assert("ret"@[0] != "flw"@[0]);
        assert("ret"@[0] != "fsw"@[0]);
        assert("ret"@[0] != "fld"@[0]);
        assert("ret"@[0] != "fsd"@[0]);
        assert("ret"@[0] != 'c');
        assert(!spec_is_m_mnemonic(nm));
        assert(!spec_is_a_mnemonic(nm));
        assert(!spec_is_f_mnemonic(nm));
        assert(!spec_is_d_mnemonic(nm));
        assert(!spec_is_compressed_mnemonic(nm));
    } else if j == 9 {
        assert(nm == "jr"@);
        assert(nm.len() == 2);
        assert("jr"@[0] != 'c');
        assert(!spec_is_m_mnemonic(nm));
        assert(!spec_is_a_mnemonic(nm));
        assert(!spec_is_f_mnemonic(nm));
        assert(!spec_is_d_mnemonic(nm));
        assert(!spec_is_compressed_mnemonic(nm));
    } else if j == 10 {
        assert(nm == "jalr"@);
        assert(nm.len() == 4);
        assert("jalr"@[0] != "mulh"@[0]);
        assert("jalr"@[0] != "mulw"@[0]);
        assert("jalr"@[0] != "divu"@[0]);
        assert("jalr"@[0] != "remu"@[0]);
        assert("jalr"@[0] != "divw"@[0]);
        assert("jalr"@[0] != "remw"@[0]);
        assert("jalr"@[0] != "lr.w"@[0]);
        assert("jalr"@[0] != "sc.w"@[0]);
        assert("jalr"@[0] != "lr.d"@[0]);
        assert("jalr"@[0] != "sc.d"@[0]);
        assert("jalr"@[0] != 'c');
        assert(!spec_is_m_mnemonic(nm));
        assert(!spec_is_a_mnemonic(nm));
        assert(!spec_is_f_mnemonic(nm));
        assert(!spec_is_d_mnemonic(nm));
        assert(!spec_is_compressed_mnemonic(nm));
    } else if j == 11 {
        assert(nm == "beqz"@);
        assert(nm.len() == 4);
        assert("beqz"@[0] != "mulh"@[0]);
        assert("beqz"@[0] != "mulw"@[0]);
        assert("beqz"@[0] != "divu"@[0]);
        assert("beqz"@[0] != "remu"@[0]);
        assert("beqz"@[0] != "divw"@[0]);
        assert("beqz"@[0] != "remw"@[0]);
        assert("beqz"@[0] != "lr.w"@[0]);
        assert("beqz"@[0] != "sc.w"@[0]);
        assert("beqz"@[0] != "lr.d"@[0]);
        assert("beqz"@[0] != "sc.d"@[0]);
        assert("beqz"@[0] != 'c');
        assert(!spec_is_m_mnemonic(nm));
        assert(!spec_is_a_mnemonic(nm));
        assert(!spec_is_f_mnemonic(nm));
        assert(!spec_is_d_mnemonic(nm));
        assert(!spec_is_compressed_mnemonic(nm));
    } else if j == 12 {
        assert(nm == "bnez"@);
        assert(nm.len() == 4);
        assert("bnez"@[0] != "mulh"@[0]);
        assert("bnez"@[0] != "mulw"@[0]);
        assert("bnez"@[0] != "divu"@[0]);
        assert("bnez"@[0] != "remu"@[0]);
        assert("bnez"@[0] != "divw"@[0]);
        assert("bnez"@[0] != "remw"@[0]);
        assert("bnez"@[0] != "lr.w"@[0]);
        assert("bnez"@[0] != "sc.w"@[0]);
        assert("bnez"@[0] != "lr.d"@[0]);
        assert("bnez"@[0] != "sc.d"@[0]);
        assert("bnez"@[0] != 'c');
        assert(!spec_is_m_mnemonic(nm));
        assert(!spec_is_a_mnemonic(nm));
        assert(!spec_is_f_mnemonic(nm));
        assert(!spec_is_d_mnemonic(nm));
        assert(!spec_is_compressed_mnemonic(nm));
    } else if j == 13 {
        assert(nm == "bltz"@);
        assert(nm.len() == 4);
        assert("bltz"@[0] != "mulh"@[0]);
        assert("bltz"@[0] != "mulw"@[0]);
        assert("bltz"@[0] != "divu"@[0]);
        assert("bltz"@[0] != "remu"@[0]);
        assert("bltz"@[0] != "divw"@[0]);
        assert("bltz"@[0] != "remw"@[0]);
        assert("bltz"@[0] != "lr.w"@[0]);
        assert("bltz"@[0] != "sc.w"@[0]);
        assert("bltz"@[0] != "lr.d"@[0]);
        assert("bltz"@[0] != "sc.d"@[0]);
        assert("bltz"@[0] != 'c');
        assert(!spec_is_m_mnemonic(nm));
        assert(!spec_is_a_mnemonic(nm));
        assert(!spec_is_f_mnemonic(nm));
        assert(!spec_is_d_mnemonic(nm));
        assert(!spec_is_compressed_mnemonic(nm));
    } else if j == 14 {
        assert(nm == "bgez"@);
        assert(nm.len() == 4);
        assert("bgez"@[0] != "mulh"@[0]);
        assert("bgez"@[0] != "mulw"@[0]);
        assert("bgez"@[0] != "divu"@[0]);
        assert("bgez"@[0] != "remu"@[0]);
        assert("bgez"@[0] != "divw"@[0]);
        assert("bgez"@[0] != "remw"@[0]);
        assert("bgez"@[0] != "lr.w"@[0]);
        assert("bgez"@[0] != "sc.w"@[0]);
        assert("bgez"@[0] != "lr.d"@[0]);
        assert("bgez"@[0] != "sc.d"@[0]);
        assert("bgez"@[0] != 'c');
        assert(!spec_is_m_mnemonic(nm));
        assert(!spec_is_a_mnemonic(nm));
        assert(!spec_is_f_mnemonic(nm));
        assert(!spec_is_d_mnemonic(nm));
        assert(!spec_is_compressed_mnemonic(nm));
    } else if j == 15 {
        assert(nm == "csrr"@);
        assert(nm.len() == 4);
        assert("csrr"@[0] != "mulh"@[0]);
        assert("csrr"@[0] != "mulw"@[0]);
        assert("csrr"@[0] != "divu"@[0]);
        assert("csrr"@[0] != "remu"@[0]);
        assert("csrr"@[0] != "divw"@[0]);
        assert("csrr"@[0] != "remw"@[0]);
        assert("csrr"@[0] != "lr.w"@[0]);
        assert("csrr"@[0] != "sc.w"@[0]);
        assert("csrr"@[0] != "lr.d"@[0]);
        assert("csrr"@[0] != "sc.d"@[0]);
        assert("csrr"@[1] != '.');
        assert(!spec_is_m_mnemonic(nm));
        assert(!spec_is_a_mnemonic(nm));
        assert(!spec_is_f_mnemonic(nm));
        assert(!spec_is_d_mnemonic(nm));
        assert(!spec_is_compressed_mnemonic(nm));
    } else if j == 16 {
        assert(nm == "csrw"@);
        assert(nm.len() == 4);
        assert("csrw"@[0] != "mulh"@[0]);
        assert("csrw"@[0] != "mulw"@[0]);
        assert("csrw"@[0] != "divu"@[0]);
        assert("csrw"@[0] != "remu"@[0]);
        assert("csrw"@[0] != "divw"@[0]);
        assert("csrw"@[0] != "remw"@[0]);
        assert("csrw"@[0] != "lr.w"@[0]);
        assert("csrw"@[0] != "sc.w"@[0]);
        assert("csrw"@[0] != "lr.d"@[0]);
        assert("csrw"@[0] != "sc.d"@[0]);
        assert("csrw"@[1] != '.');
        assert(!spec_is_m_mnemonic(nm));
        assert(!spec_is_a_mnemonic(nm));
        assert(!spec_is_f_mnemonic(nm));
        assert(!spec_is_d_mnemonic(nm));
        assert(!spec_is_compressed_mnemonic(nm));
    } else if j == 17 {
        assert(nm == "csrs"@);
        assert(nm.len() == 4);
        assert("csrs"@[0] != "mulh"@[0]);
        assert("csrs"@[0] != "mulw"@[0]);
        assert("csrs"@[0] != "divu"@[0]);
        assert("csrs"@[0] != "remu"@[0]);
        assert("csrs"@[0] != "divw"@[0]);
        assert("csrs"@[0] != "remw"@[0]);
        assert("csrs"@[0] != "lr.w"@[0]);
        assert("csrs"@[0] != "sc.w"@[0]);
        assert("csrs"@[0] != "lr.d"@[0]);
        assert("csrs"@[0] != "sc.d"@[0]);
        assert("csrs"@[1] != '.');
        assert(!spec_is_m_mnemonic(nm));
        assert(!spec_is_a_mnemonic(nm));
        assert(!spec_is_f_mnemonic(nm));
        assert(!spec_is_d_mnemonic(nm));
        assert(!spec_is_compressed_mnemonic(nm));
    } else if j == 18 {
        assert(nm == "csrc"@);
        assert(nm.len() == 4);
        assert("csrc"@[0] != "mulh"@[0]);
        assert("csrc"@[0] != "mulw"@[0]);
        assert("csrc"@[0] != "divu"@[0]);
        assert("csrc"@[0] != "remu"@[0]);
        assert("csrc"@[0] != "divw"@[0]);
        assert("csrc"@[0] != "remw"@[0]);
        assert("csrc"@[0] != "lr.w"@[0]);
        assert("csrc"@[0] != "sc.w"@[0]);
        assert("csrc"@[0] != "lr.d"@[0]);
        assert("csrc"@[0] != "sc.d"@[0]);
        assert("csrc"@[1] != '.');
        assert(!spec_is_m_mnemonic(nm));
        assert(!spec_is_a_mnemonic(nm));
        assert(!spec_is_f_mnemonic(nm));
        assert(!spec_is_d_mnemonic(nm));
        assert(!spec_is_compressed_mnemonic(nm));
    } else if j == 19 {
        assert(nm == "csrwi"@);
        assert(nm.len() == 5);
        assert("csrwi"@[0] != "mulhu"@[0]);
        assert("csrwi"@[0] != "divuw"@[0]);
        assert("csrwi"@[0] != "remuw"@[0]);
        assert("csrwi"@[0] != "feq.s"@[0]);
        assert("csrwi"@[0] != "flt.s"@[0]);
        assert("csrwi"@[0] != "fle.s"@[0]);
        assert("csrwi"@[0] != "feq.d"@[0]);
        assert("csrwi"@[0] != "flt.d"@[0]);
        assert("csrwi"@[0] != "fle.d"@[0]);
        assert("csrwi"@[1] != '.');
        assert(!spec_is_m_mnemonic(nm));
        assert(!spec_is_a_mnemonic(nm));
        assert(!spec_is_f_mnemonic(nm));
        assert(!spec_is_d_mnemonic(nm));
        assert(!spec_is_compressed_mnemonic(nm));
    } else if j == 20 {
        assert(nm == "csrsi"@);
        assert(nm.len() == 5);
        assert("csrsi"@[0] != "mulhu"@[0]);
        assert("csrsi"@[0] != "divuw"@[0]);
        assert("csrsi"@[0] != "remuw"@[0]);
        assert("csrsi"@[0] != "feq.s"@[0]);
        assert("csrsi"@[0] != "flt.s"@[0]);
        assert("csrsi"@[0] != "fle.s"@[0]);
        assert("csrsi"@[0] != "feq.d"@[0]);
        assert("csrsi"@[0] != "flt.d"@[0]);
        assert("csrsi"@[0] != "fle.d"@[0]);
        assert("csrsi"@[1] != '.');
        assert(!spec_is_m_mnemonic(nm));
        assert(!spec_is_a_mnemonic(nm));
        assert(!spec_is_f_mnemonic(nm));
        assert(!spec_is_d_mnemonic(nm));
        assert(!spec_is_compressed_mnemonic(nm));
    } else {
        assert(nm == "csrci"@);
        assert(nm.len() == 5);
        assert("csrci"@[0] != "mulhu"@[0]);
        assert("csrci"@[0] != "divuw"@[0]);
        assert("csrci"@[0] != "remuw"@[0]);
        assert("csrci"@[0] != "feq.s"@[0]);
        assert("csrci"@[0] != "flt.s"@[0]);
        assert("csrci"@[0] != "fle.s"@[0]);
        assert("csrci"@[0] != "feq.d"@[0]);
        assert("csrci"@[0] != "flt.d"@[0]);
        assert("csrci"@[0] != "fle.d"@[0]);
        assert("csrci"@[1] != '.');
        assert(!spec_is_m_mnemonic(nm));
        assert(!spec_is_a_mnemonic(nm));
        assert(!spec_is_f_mnemonic(nm));
        assert(!spec_is_d_mnemonic(nm));
        assert(!spec_is_compressed_mnemonic(nm));
    }
}

/// No entry of this group carries a mnemonic of the M, A, F, D or C extension.
#[verifier::rlimit(60)]
pub proof fn lemma_pseudo_rv64_filters_base_only(j: int)
    requires
        0 <= j < 1,
    ensures
        !spec_is_m_mnemonic(pseudo_rv64_filter_at(j).name),
        !spec_is_a_mnemonic(pseudo_rv64_filter_at(j).name),
        !spec_is_f_mnemonic(pseudo_rv64_filter_at(j).name),
        !spec_is_d_mnemonic(pseudo_rv64_filter_at(j).name),
        !spec_is_compressed_mnemonic(pseudo_rv64_filter_at(j).name),
{
    reveal_strlit("amoadd.d");
    reveal_strlit("amoadd.w");
    reveal_strlit("amoand.d");
    reveal_strlit("amoand.w");
    reveal_strlit("amomax.d");
    reveal_strlit("amomax.w");
    reveal_strlit("amomaxu.d");
    reveal_strlit("amomaxu.w");
    reveal_strlit("amomin.d");
    reveal_strlit("amomin.w");
    reveal_strlit("amominu.d");
    reveal_strlit("amominu.w");
    reveal_strlit("amoor.d");
    reveal_strlit("amoor.w");
    reveal_strlit("amoswap.d");
    reveal_strlit("amoswap.w");
    reveal_strlit("amoxor.d");
    reveal_strlit("amoxor.w");
    reveal_strlit("div");
    reveal_strlit("divu");
    reveal_strlit("divuw");
    reveal_strlit("divw");
    reveal_strlit("fadd.d");
    reveal_strlit("fadd.s");
    reveal_strlit("fclass.d");
    reveal_strlit("fclass.s");
    reveal_strlit("fcvt.d.l");
    reveal_strlit("fcvt.d.lu");
    reveal_strlit("fcvt.d.s");
    reveal_strlit("fcvt.d.w");
    reveal_strlit("fcvt.d.wu");
    reveal_strlit("fcvt.l.d");
    reveal_strlit("fcvt.l.s");
    reveal_strlit("fcvt.lu.d");
    reveal_strlit("fcvt.lu.s");
    reveal_strlit("fcvt.s.d");
    reveal_strlit("fcvt.s.l");
    reveal_strlit("fcvt.s.lu");
    reveal_strlit("fcvt.s.w");
    reveal_strlit("fcvt.s.wu");
    reveal_strlit("fcvt.w.d");
    reveal_strlit("fcvt.w.s");
    reveal_strlit("fcvt.wu.d");
    reveal_strlit("fcvt.wu.s");
    reveal_strlit("fdiv.d");
    reveal_strlit("fdiv.s");
    reveal_strlit("feq.d");
    reveal_strlit("feq.s");
    reveal_strlit("fld");
    reveal_strlit("fle.d");
    reveal_strlit("fle.s");
    reveal_strlit("flt.d");
    reveal_strlit("flt.s");
    reveal_strlit("flw");
    reveal_strlit("fmadd.d");
    reveal_strlit("fmadd.s");
    reveal_strlit("fmax.d");
    reveal_strlit("fmax.s");
    reveal_strlit("fmin.d");
    reveal_strlit("fmin.s");
    reveal_strlit("fmsub.d");
    reveal_strlit("fmsub.s");
    reveal_strlit("fmul.d");
    reveal_strlit("fmul.s");
    reveal_strlit("fmv.d.x");
    reveal_strlit("fmv.w.x");
    reveal_strlit("fmv.x.d");
    reveal_strlit("fmv.x.w");
    reveal_strlit("fnmadd.d");
    reveal_strlit("fnmadd.s");
    reveal_strlit("fnmsub.d");
    reveal_strlit("fnmsub.s");
    reveal_strlit("fsd");
    reveal_strlit("fsgnj.d");
    reveal_strlit("fsgnj.s");
    reveal_strlit("fsgnjn.d");
    reveal_strlit("fsgnjn.s");
    reveal_strlit("fsgnjx.d");
    reveal_strlit("fsgnjx.s");
    reveal_strlit("fsqrt.d");
    reveal_strlit("fsqrt.s");
    reveal_strlit("fsub.d");
    reveal_strlit("fsub.s");
    reveal_strlit("fsw");
    reveal_strlit("lr.d");
    reveal_strlit("lr.w");
    reveal_strlit("mul");
    reveal_strlit("mulh");
    reveal_strlit("mulhsu");
    reveal_strlit("mulhu");
    reveal_strlit("mulw");
    reveal_strlit("rem");
    reveal_strlit("remu");
    reveal_strlit("remuw");
    reveal_strlit("remw");
    reveal_strlit("sc.d");
    reveal_strlit("sc.w");
    reveal_strlit("sext.w");
    assert("amoadd.d"@.len() == 8);
    assert("amoadd.w"@.len() == 8);
    assert("amoand.d"@.len() == 8);
    assert("amoand.w"@.len() == 8);
    assert("amomax.d"@.len() == 8);
    assert("amomax.w"@.len() == 8);
    assert("amomaxu.d"@.len() == 9);
    assert("amomaxu.w"@.len() == 9);
    assert("amomin.d"@.len() == 8);
    assert("amomin.w"@.len() == 8);
    assert("amominu.d"@.len() == 9);
    assert("amominu.w"@.len() == 9);
    assert("amoor.d"@.len() == 7);
    assert("amoor.w"@.len() == 7);
    assert("amoswap.d"@.len() == 9);
    assert("amoswap.w"@.len() == 9);
    assert("amoxor.d"@.len() == 8);
    assert("amoxor.w"@.len() == 8);
    assert("div"@.len() == 3);
    assert("divu"@.len() == 4);
    assert("divuw"@.len() == 5);
    assert("divw"@.len() == 4);
    assert("fadd.d"@.len() == 6);
    assert("fadd.s"@.len() == 6);
    assert("fclass.d"@.len() == 8);
    assert("fclass.s"@.len() == 8);
    assert("fcvt.d.l"@.len() == 8);
    assert("fcvt.d.lu"@.len() == 9);
    assert("fcvt.d.s"@.len() == 8);
    assert("fcvt.d.w"@.len() == 8);
    assert("fcvt.d.wu"@.len() == 9);
    assert("fcvt.l.d"@.len() == 8);
    assert("fcvt.l.s"@.len() == 8);
    assert("fcvt.lu.d"@.len() == 9);
    assert("fcvt.lu.s"@.len() == 9);
    assert("fcvt.s.d"@.len() == 8);
    assert("fcvt.s.l"@.len() == 8);
    assert("fcvt.s.lu"@.len() == 9);
    assert("fcvt.s.w"@.len() == 8);
    assert("fcvt.s.wu"@.len() == 9);
    assert("fcvt.w.d"@.len() == 8);
    assert("fcvt.w.s"@.len() == 8);
    assert("fcvt.wu.d"@.len() == 9);
    assert("fcvt.wu.s"@.len() == 9);
    assert("fdiv.d"@.len() == 6);
    assert("fdiv.s"@.len() == 6);
    assert("feq.d"@.len() == 5);
    assert("feq.s"@.len() == 5);
    assert("fld"@.len() == 3);
    assert("fle.d"@.len() == 5);
    assert("fle.s"@.len() == 5);
    assert("flt.d"@.len() == 5);
    assert("flt.s"@.len() == 5);
    assert("flw"@.len() == 3);
    assert("fmadd.d"@.len() == 7);
    assert("fmadd.s"@.len() == 7);
    assert("fmax.d"@.len() == 6);
    assert("fmax.s"@.len() == 6);
    assert("fmin.d"@.len() == 6);
    assert("fmin.s"@.len() == 6);
    assert("fmsub.d"@.len() == 7);
    assert("fmsub.s"@.len() == 7);
    assert("fmul.d"@.len() == 6);
    assert("fmul.s"@.len() == 6);
    assert("fmv.d.x"@.len() == 7);
    assert("fmv.w.x"@.len() == 7);
    assert("fmv.x.d"@.len() == 7);
    assert("fmv.x.w"@.len() == 7);
    assert("fnmadd.d"@.len() == 8);
    assert("fnmadd.s"@.len() == 8);
    assert("fnmsub.d"@.len() == 8);
    assert("fnmsub.s"@.len() == 8);
    assert("fsd"@.len() == 3);
    assert("fsgnj.d"@.len() == 7);
    assert("fsgnj.s"@.len() == 7);
    assert("fsgnjn.d"@.len() == 8);
    assert("fsgnjn.s"@.len() == 8);
    assert("fsgnjx.d"@.len() == 8);
    assert("fsgnjx.s"@.len() == 8);
    assert("fsqrt.d"@.len() == 7);
    assert("fsqrt.s"@.len() == 7);
    assert("fsub.d"@.len() == 6);
    assert("fsub.s"@.len() == 6);
    assert("fsw"@.len() == 3);
    assert("lr.d"@.len() == 4);
    assert("lr.w"@.len() == 4);
    assert("mul"@.len() == 3);
    assert("mulh"@.len() == 4);
    assert("mulhsu"@.len() == 6);
    assert("mulhu"@.len() == 5);
    assert("mulw"@.len() == 4);
    assert("rem"@.len() == 3);
    assert("remu"@.len() == 4);
    assert("remuw"@.len() == 5);
    assert("remw"@.len() == 4);
    assert("sc.d"@.len() == 4);
    assert("sc.w"@.len() == 4);
    let nm = pseudo_rv64_filter_at(j).name;
    if j == 0 {
        assert(nm == "sext.w"@);
        assert(nm.len() == 6);
        assert("sext.w"@[0] != "mulhsu"@[0]);
        assert("sext.w"@[0] != "fadd.s"@[0]);
        assert("sext.w"@[0] != "fsub.s"@[0]);
        assert("sext.w"@[0] != "fmul.s"@[0]);
        assert("sext.w"@[0] != "fdiv.s"@[0]);
        assert("sext.w"@[0] != "fmin.s"@[0]);
        assert("sext.w"@[0] != "fmax.s"@[0]);
        assert("sext.w"@[0] != "fadd.d"@[0]);
        assert("sext.w"@[0] != "fsub.d"@[0]);
        assert("sext.w"@[0] != "fmul.d"@[0]);
        assert("sext.w"@[0] != "fdiv.d"@[0]);
        assert("sext.w"@[0] != "fmin.d"@[0]);
        assert("sext.w"@[0] != "fmax.d"@[0]);
        assert("sext.w"@[0] != 'c');
        assert(!spec_is_m_mnemonic(nm));
        assert(!spec_is_a_mnemonic(nm));
        assert(!spec_is_f_mnemonic(nm));
        assert(!spec_is_d_mnemonic(nm));
        assert(!spec_is_compressed_mnemonic(nm));
    }
}

/// No entry of this group carries a mnemonic of the M, A, F, D or C extension.
#[verifier::rlimit(60)]
pub proof fn lemma_base_rv64_filters_base_only(j: int)
    requires
        0 <= j < 12,
    ensures
        !spec_is_m_mnemonic(base_rv64_filter_at(j).name),
        !spec_is_a_mnemonic(base_rv64_filter_at(j).name),
        !spec_is_f_mnemonic(base_rv64_filter_at(j).name),
        !spec_is_d_mnemonic(base_rv64_filter_at(j).name),
        !spec_is_compressed_mnemonic(base_rv64_filter_at(j).name),
{
    reveal_strlit("addiw");
    reveal_strlit("addw");
    reveal_strlit("amoadd.d");
    reveal_strlit("amoadd.w");
    reveal_strlit("amoand.d");
    reveal_strlit("amoand.w");
    reveal_strlit("amomax.d");
    reveal_strlit("amomax.w");
    reveal_strlit("amomaxu.d");
    reveal_strlit("amomaxu.w");
    reveal_strlit("amomin.d");
    reveal_strlit("amomin.w");
    reveal_strlit("amominu.d");
    reveal_strlit("amominu.w");
    reveal_strlit("amoor.d");
    reveal_strlit("amoor.w");
    reveal_strlit("amoswap.d");
    reveal_strlit("amoswap.w");
    reveal_strlit("amoxor.d");
    reveal_strlit("amoxor.w");
    reveal_strlit("div");
    reveal_strlit("divu");
    reveal_strlit("divuw");
    reveal_strlit("divw");
    reveal_strlit("fadd.d");
    reveal_strlit("fadd.s");
    reveal_strlit("fclass.d");
    reveal_strlit("fclass.s");
    reveal_strlit("fcvt.d.l");
    reveal_strlit("fcvt.d.lu");
    reveal_strlit("fcvt.d.s");
    reveal_strlit("fcvt.d.w");
    reveal_strlit("fcvt.d.wu");
    reveal_strlit("fcvt.l.d");
    reveal_strlit("fcvt.l.s");
    reveal_strlit("fcvt.lu.d");
    reveal_strlit("fcvt.lu.s");
    reveal_strlit("fcvt.s.d");
    reveal_strlit("fcvt.s.l");
    reveal_strlit("fcvt.s.lu");
    reveal_strlit("fcvt.s.w");
    reveal_strlit("fcvt.s.wu");
    reveal_strlit("fcvt.w.d");
    reveal_strlit("fcvt.w.s");
    reveal_strlit("fcvt.wu.d");
    reveal_strlit("fcvt.wu.s");
    reveal_strlit("fdiv.d");
    reveal_strlit("fdiv.s");
    reveal_strlit("feq.d");
    reveal_strlit("feq.s");
    reveal_strlit("fld");
    reveal_strlit("fle.d");
    reveal_strlit("fle.s");
    reveal_strlit("flt.d");
    reveal_strlit("flt.s");
    reveal_strlit("flw");
    reveal_strlit("fmadd.d");
    reveal_strlit("fmadd.s");
    reveal_strlit("fmax.d");
    reveal_strlit("fmax.s");
    reveal_strlit("fmin.d");
    reveal_strlit("fmin.s");
    reveal_strlit("fmsub.d");
    reveal_strlit("fmsub.s");
    reveal_strlit("fmul.d");
    reveal_strlit("fmul.s");
    reveal_strlit("fmv.d.x");
    reveal_strlit("fmv.w.x");
    reveal_strlit("fmv.x.d");
    reveal_strlit("fmv.x.w");
    reveal_strlit("fnmadd.d");
    reveal_strlit("fnmadd.s");
    reveal_strlit("fnmsub.d");
    reveal_strlit("fnmsub.s");
    reveal_strlit("fsd");
    reveal_strlit("fsgnj.d");
    reveal_strlit("fsgnj.s");
    reveal_strlit("fsgnjn.d");
    reveal_strlit("fsgnjn.s");
    reveal_strlit("fsgnjx.d");
    reveal_strlit("fsgnjx.s");
    reveal_strlit("fsqrt.d");
    reveal_strlit("fsqrt.s");
    reveal_strlit("fsub.d");
    reveal_strlit("fsub.s");
    reveal_strlit("fsw");
    reveal_strlit("ld");
    reveal_strlit("lr.d");
    reveal_strlit("lr.w");
    reveal_strlit("lwu");
    reveal_strlit("mul");
    reveal_strlit("mulh");
    reveal_strlit("mulhsu");
    reveal_strlit("mulhu");
    reveal_strlit("mulw");
    reveal_strlit("rem");
    reveal_strlit("remu");
    reveal_strlit("remuw");
    reveal_strlit("remw");
    reveal_strlit("sc.d");
    reveal_strlit("sc.w");
    reveal_strlit("sd");
    reveal_strlit("slliw");
    reveal_strlit("sllw");
    reveal_strlit("sraiw");
    reveal_strlit("sraw");
    reveal_strlit("srliw");
    reveal_strlit("srlw");
    reveal_strlit("subw");
    assert("amoadd.d"@.len() == 8);
    assert("amoadd.w"@.len() == 8);
    assert("amoand.d"@.len() == 8);
    assert("amoand.w"@.len() == 8);
    assert("amomax.d"@.len() == 8);
    assert("amomax.w"@.len() == 8);
    assert("amomaxu.d"@.len() == 9);
    assert("amomaxu.w"@.len() == 9);
    assert("amomin.d"@.len() == 8);
    assert("amomin.w"@.len() == 8);
    assert("amominu.d"@.len() == 9);
    assert("amominu.w"@.len() == 9);
    assert("amoor.d"@.len() == 7);
    assert("amoor.w"@.len() == 7);
    assert("amoswap.d"@.len() == 9);
    assert("amoswap.w"@.len() == 9);
    assert("amoxor.d"@.len() == 8);
    assert("amoxor.w"@.len() == 8);
    assert("div"@.len() == 3);
    assert("divu"@.len() == 4);
    assert("divuw"@.len() == 5);
    assert("divw"@.len() == 4);
    assert("fadd.d"@.len() == 6);
    assert("fadd.s"@.len() == 6);
    assert("fclass.d"@.len() == 8);
    assert("fclass.s"@.len() == 8);
    assert("fcvt.d.l"@.len() == 8);
    assert("fcvt.d.lu"@.len() == 9);
    assert("fcvt.d.s"@.len() == 8);
    assert("fcvt.d.w"@.len() == 8);
    assert("fcvt.d.wu"@.len() == 9);
    assert("fcvt.l.d"@.len() == 8);
    assert("fcvt.l.s"@.len() == 8);
    assert("fcvt.lu.d"@.len() == 9);
    assert("fcvt.lu.s"@.len() == 9);
    assert("fcvt.s.d"@.len() == 8);
    assert("fcvt.s.l"@.len() == 8);
    assert("fcvt.s.lu"@.len() == 9);
    assert("fcvt.s.w"@.len() == 8);
    assert("fcvt.s.wu"@.len() == 9);
    assert("fcvt.w.d"@.len() == 8);
    assert("fcvt.w.s"@.len() == 8);
    assert("fcvt.wu.d"@.len() == 9);
    assert("fcvt.wu.s"@.len() == 9);
    assert("fdiv.d"@.len() == 6);
    assert("fdiv.s"@.len() == 6);
    assert("feq.d"@.len() == 5);
    assert("feq.s"@.len() == 5);
    assert("fld"@.len() == 3);
    assert("fle.d"@.len() == 5);
    assert("fle.s"@.len() == 5);
    assert("flt.d"@.len() == 5);
    assert("flt.s"@.len() == 5);
    assert("flw"@.len() == 3);
    assert("fmadd.d"@.len() == 7);
    assert("fmadd.s"@.len() == 7);
    assert("fmax.d"@.len() == 6);
    assert("fmax.s"@.len() == 6);
    assert("fmin.d"@.len() == 6);
    assert("fmin.s"@.len() == 6);
    assert("fmsub.d"@.len() == 7);
    assert("fmsub.s"@.len() == 7);
    assert("fmul.d"@.len() == 6);
    assert("fmul.s"@.len() == 6);
    assert("fmv.d.x"@.len() == 7);
    assert("fmv.w.x"@.len() == 7);
    assert("fmv.x.d"@.len() == 7);
    assert("fmv.x.w"@.len() == 7);
    assert("fnmadd.d"@.len() == 8);
    assert("fnmadd.s"@.len() == 8);
    assert("fnmsub.d"@.len() == 8);
    assert("fnmsub.s"@.len() == 8);
    assert("fsd"@.len() == 3);
    assert("fsgnj.d"@.len() == 7);
    assert("fsgnj.s"@.len() == 7);
    assert("fsgnjn.d"@.len() == 8);
    assert("fsgnjn.s"@.len() == 8);
    assert("fsgnjx.d"@.len() == 8);
    assert("fsgnjx.s"@.len() == 8);
    assert("fsqrt.d"@.len() == 7);
    assert("fsqrt.s"@.len() == 7);
    assert("fsub.d"@.len() == 6);
    assert("fsub.s"@.len() == 6);
    assert("fsw"@.len() == 3);
    assert("lr.d"@.len() == 4);
    assert("lr.w"@.len() == 4);
    assert("mul"@.len() == 3);
    assert("mulh"@.len() == 4);
    assert("mulhsu"@.len() == 6);
    assert("mulhu"@.len() == 5);
    assert("mulw"@.len() == 4);
    assert("rem"@.len() == 3);
    assert("remu"@.len() == 4);
    assert("remuw"@.len() == 5);
    assert("remw"@.len() == 4);
    assert("sc.d"@.len() == 4);
    assert("sc.w"@.len() == 4);
    let nm = base_rv64_filter_at(j).name;
    if j == 0 {
        assert(nm == "addiw"@);
        assert(nm.len() == 5);
        assert("addiw"@[0] != "mulhu"@[0]);
        assert("addiw"@[0] != "divuw"@[0]);
        assert("addiw"@[0] != "remuw"@[0]);
        assert("addiw"@[0] != "feq.s"@[0]);
        assert("addiw"@[0] != "flt.s"@[0]);
        assert("addiw"@[0] != "fle.s"@[0]);
        assert("addiw"@[0] != "feq.d"@[0]);
        assert("addiw"@[0] != "flt.d"@[0]);
        assert("addiw"@[0] != "fle.d"@[0]);
        assert("addiw"@[0] != 'c');
        assert(!spec_is_m_mnemonic(nm));
        assert(!spec_is_a_mnemonic(nm));
        assert(!spec_is_f_mnemonic(nm));
        assert(!spec_is_d_mnemonic(nm));
        assert(!spec_is_compressed_mnemonic(nm));
    } else if j == 1 {
        assert(nm == "slliw"@);
        assert(nm.len() == 5);
        assert("slliw"@[0] != "mulhu"@[0]);
        assert("slliw"@[0] != "divuw"@[0]);
        assert("slliw"@[0] != "remuw"@[0]);
        assert("slliw"@[0] != "feq.s"@[0]);
        assert("slliw"@[0] != "flt.s"@[0]);
        assert("slliw"@[0] != "fle.s"@[0]);
        assert("slliw"@[0] != "feq.d"@[0]);
        assert("slliw"@[0] != "flt.d"@[0]);
        assert("slliw"@[0] != "fle.d"@[0]);
        assert("slliw"@[0] != 'c');
        assert(!spec_is_m_mnemonic(nm));
        assert(!spec_is_a_mnemonic(nm));
        assert(!spec_is_f_mnemonic(nm));
        assert(!spec_is_d_mnemonic(nm));
        assert(!spec_is_compressed_mnemonic(nm));
    } else if j == 2 {
        assert(nm == "srliw"@);
        assert(nm.len() == 5);
        assert("srliw"@[0] != "mulhu"@[0]);
        assert("srliw"@[0] != "divuw"@[0]);
        assert("srliw"@[0] != "remuw"@[0]);
        assert("srliw"@[0] != "feq.s"@[0]);
        assert("srliw"@[0] != "flt.s"@[0]);
        assert("srliw"@[0] != "fle.s"@[0]);
        assert("srliw"@[0] != "feq.d"@[0]);
        assert("srliw"@[0] != "flt.d"@[0]);
        assert("srliw"@[0] != "fle.d"@[0]);
        assert("srliw"@[0] != 'c');
        assert(!spec_is_m_mnemonic(nm));
        assert(!spec_is_a_mnemonic(nm));
        assert(!spec_is_f_mnemonic(nm));
        assert(!spec_is_d_mnemonic(nm));
        assert(!spec_is_compressed_mnemonic(nm));
    } else if j == 3 {
        assert(nm == "sraiw"@);
        assert(nm.len() == 5);
        assert("sraiw"@[0] != "mulhu"@[0]);
        assert("sraiw"@[0] != "divuw"@[0]);
        assert("sraiw"@[0] != "remuw"@[0]);
        assert("sraiw"@[0] != "feq.s"@[0]);
        assert("sraiw"@[0] != "flt.s"@[0]);
        assert("sraiw"@[0] != "fle.s"@[0]);
        assert("sraiw"@[0] != "feq.d"@[0]);
        assert("sraiw"@[0] != "flt.d"@[0]);
        assert("sraiw"@[0] != "fle.d"@[0]);
        assert("sraiw"@[0] != 'c');
        assert(!spec_is_m_mnemonic(nm));
        assert(!spec_is_a_mnemonic(nm));
        assert(!spec_is_f_mnemonic(nm));
        assert(!spec_is_d_mnemonic(nm));
        assert(!spec_is_compressed_mnemonic(nm));
    } else if j == 4 {
        assert(nm == "addw"@);
        assert(nm.len() == 4);
        assert("addw"@[0] != "mulh"@[0]);
        assert("addw"@[0] != "mulw"@[0]);
        assert("addw"@[0] != "divu"@[0]);
        assert("addw"@[0] != "remu"@[0]);
        assert("addw"@[0] != "divw"@[0]);
        assert("addw"@[0] != "remw"@[0]);
        assert("addw"@[0] != "lr.w"@[0]);
        assert("addw"@[0] != "sc.w"@[0]);
        assert("addw"@[0] != "lr.d"@[0]);
        assert("addw"@[0] != "sc.d"@[0]);
        assert("addw"@[0] != 'c');
        assert(!spec_is_m_mnemonic(nm));
        assert(!spec_is_a_mnemonic(nm));
        assert(!spec_is_f_mnemonic(nm));
        assert(!spec_is_d_mnemonic(nm));
        assert(!spec_is_compressed_mnemonic(nm));
    } else if j == 5 {
        assert(nm == "subw"@);
        assert(nm.len() == 4);
        assert("subw"@[0] != "mulh"@[0]);
        assert("subw"@[0] != "mulw"@[0]);
        assert("subw"@[0] != "divu"@[0]);
        assert("subw"@[0] != "remu"@[0]);
        assert("subw"@[0] != "divw"@[0]);
        assert("subw"@[0] != "remw"@[0]);
        assert("subw"@[0] != "lr.w"@[0]);
        assert("subw"@[1] != "sc.w"@[1]);
        assert("subw"@[0] != "lr.d"@[0]);
        assert("subw"@[1] != "sc.d"@[1]);
        assert("subw"@[0] != 'c');
        assert(!spec_is_m_mnemonic(nm));
        assert(!spec_is_a_mnemonic(nm));
        assert(!spec_is_f_mnemonic(nm));
        assert(!spec_is_d_mnemonic(nm));
        assert(!spec_is_compressed_mnemonic(nm));
    } else if j == 6 {
        assert(nm == "sllw"@);
        assert(nm.len() == 4);
        assert("sllw"@[0] != "mulh"@[0]);
        assert("sllw"@[0] != "mulw"@[0]);
        assert("sllw"@[0] != "divu"@[0]);
        assert("sllw"@[0] != "remu"@[0]);
        assert("sllw"@[0] != "divw"@[0]);
        assert("sllw"@[0] != "remw"@[0]);
        assert("sllw"@[0] != "lr.w"@[0]);
        assert("sllw"@[1] != "sc.w"@[1]);
        assert("sllw"@[0] != "lr.d"@[0]);
        assert("sllw"@[1] != "sc.d"@[1]);
        assert("sllw"@[0] != 'c');
        assert(!spec_is_m_mnemonic(nm));
        assert(!spec_is_a_mnemonic(nm));
        assert(!spec_is_f_mnemonic(nm));
        assert(!spec_is_d_mnemonic(nm));
        assert(!spec_is_compressed_mnemonic(nm));
    } else if j == 7 {
        assert(nm == "srlw"@);
        assert(nm.len() == 4);
        assert("srlw"@[0] != "mulh"@[0]);
        assert("srlw"@[0] != "mulw"@[0]);
        assert("srlw"@[0] != "divu"@[0]);
        assert("srlw"@[0] != "remu"@[0]);
        assert("srlw"@[0] != "divw"@[0]);
        assert("srlw"@[0] != "remw"@[0]);
        assert("srlw"@[0] != "lr.w"@[0]);
        assert("srlw"@[1] != "sc.w"@[1]);
        assert("srlw"@[0] != "lr.d"@[0]);
        assert("srlw"@[1] != "sc.d"@[1]);
        assert("srlw"@[0] != 'c');
        assert(!spec_is_m_mnemonic(nm));
        assert(!spec_is_a_mnemonic(nm));
        assert(!spec_is_f_mnemonic(nm));
        assert(!spec_is_d_mnemonic(nm));
        assert(!spec_is_compressed_mnemonic(nm));
    } else if j == 8 {
        assert(nm == "sraw"@);
        assert(nm.len() == 4);
        assert("sraw"@[0] != "mulh"@[0]);
        assert("sraw"@[0] != "mulw"@[0]);
        assert("sraw"@[0] != "divu"@[0]);
        assert("sraw"@[0] != "remu"@[0]);
        assert("sraw"@[0] != "divw"@[0]);
        assert("sraw"@[0] != "remw"@[0]);
        assert("sraw"@[0] != "lr.w"@[0]);
        assert("sraw"@[1] != "sc.w"@[1]);
        assert("sraw"@[0] != "lr.d"@[0]);
        assert("sraw"@[1] != "sc.d"@[1]);
        assert("sraw"@[0] != 'c');
        assert(!spec_is_m_mnemonic(nm));
        assert(!spec_is_a_mnemonic(nm));
        assert(!spec_is_f_mnemonic(nm));
        assert(!spec_is_d_mnemonic(nm));
        assert(!spec_is_compressed_mnemonic(nm));
    } else if j == 9 {
        assert(nm == "lwu"@);
        assert(nm.len() == 3);
        assert("lwu"@[0] != "mul"@[0]);
        assert("lwu"@[0] != "div"@[0]);
        assert("lwu"@[0] != "rem"@[0]);
        assert("lwu"@[0] != "flw"@[0]);
        assert("lwu"@[0] != "fsw"@[0]);
        assert("lwu"@[0] != "fld"@[0]);
        assert("lwu"@[0] != "fsd"@[0]);
        assert("lwu"@[0] != 'c');
        assert(!spec_is_m_mnemonic(nm));
        assert(!spec_is_a_mnemonic(nm));
        assert(!spec_is_f_mnemonic(nm));
        assert(!spec_is_d_mnemonic(nm));
        assert(!spec_is_compressed_mnemonic(nm));
    } else if j == 10 {
        assert(nm == "ld"@);
        assert(nm.len() == 2);
        assert("ld"@[0] != 'c');
        assert(!spec_is_m_mnemonic(nm));
        assert(!spec_is_a_mnemonic(nm));
        assert(!spec_is_f_mnemonic(nm));
        assert(!spec_is_d_mnemonic(nm));
        assert(!spec_is_compressed_mnemonic(nm));
    } else {
        assert(nm == "sd"@);
        assert(nm.len() == 2);
        assert("sd"@[0] != 'c');
        assert(!spec_is_m_mnemonic(nm));
        assert(!spec_is_a_mnemonic(nm));
        assert(!spec_is_f_mnemonic(nm));
        assert(!spec_is_d_mnemonic(nm));
        assert(!spec_is_compressed_mnemonic(nm));
    }
}

/// No entry of this group carries a mnemonic of the M, A, F, D or C extension.
#[verifier::rlimit(60)]
pub proof fn lemma_base_global_filters_base_only(j: int)
    requires
        0 <= j < 52,
    ensures
        !spec_is_m_mnemonic(base_global_filter_at(j).name),
        !spec_is_a_mnemonic(base_global_filter_at(j).name),
        !spec_is_f_mnemonic(base_global_filter_at(j).name),
        !spec_is_d_mnemonic(base_global_filter_at(j).name),
        !spec_is_compressed_mnemonic(base_global_filter_at(j).name),
{
    reveal_strlit("add");
    reveal_strlit("addi");
    reveal_strlit("amoadd.d");
    reveal_strlit("amoadd.w");
    reveal_strlit("amoand.d");
    reveal_strlit("amoand.w");
    reveal_strlit("amomax.d");
    reveal_strlit("amomax.w");
    reveal_strlit("amomaxu.d");
    reveal_strlit("amomaxu.w");
    reveal_strlit("amomin.d");
    reveal_strlit("amomin.w");
    reveal_strlit("amominu.d");
    reveal_strlit("amominu.w");
    reveal_strlit("amoor.d");
    reveal_strlit("amoor.w");
    reveal_strlit("amoswap.d");
    reveal_strlit("amoswap.w");
    reveal_strlit("amoxor.d");
    reveal_strlit("amoxor.w");
    reveal_strlit("and");
    reveal_strlit("andi");
    reveal_strlit("auipc");
    reveal_strlit("beq");
    reveal_strlit("bge");
    reveal_strlit("bgeu");
    reveal_strlit("blt");
    reveal_strlit("bltu");
    reveal_strlit("bne");
    reveal_strlit("csrrc");
    reveal_strlit("csrrci");
    reveal_strlit("csrrs");
    reveal_strlit("csrrsi");
    reveal_strlit("csrrw");
    reveal_strlit("csrrwi");
    reveal_strlit("div");
    reveal_strlit("divu");
    reveal_strlit("divuw");
    reveal_strlit("divw");
    reveal_strlit("ebreak");
    reveal_strlit("ecall");
    reveal_strlit("fadd.d");
    reveal_strlit("fadd.s");
    reveal_strlit("fclass.d");
    reveal_strlit("fclass.s");
    reveal_strlit("fcvt.d.l");
    reveal_strlit("fcvt.d.lu");
    reveal_strlit("fcvt.d.s");
    reveal_strlit("fcvt.d.w");
    reveal_strlit("fcvt.d.wu");
    reveal_strlit("fcvt.l.d");
    reveal_strlit("fcvt.l.s");
    reveal_strlit("fcvt.lu.d");
    reveal_strlit("fcvt.lu.s");
    reveal_strlit("fcvt.s.d");
    reveal_strlit("fcvt.s.l");
    reveal_strlit("fcvt.s.lu");
    reveal_strlit("fcvt.s.w");
    reveal_strlit("fcvt.s.wu");
    reveal_strlit("fcvt.w.d");
    reveal_strlit("fcvt.w.s");
    reveal_strlit("fcvt.wu.d");
    reveal_strlit("fcvt.wu.s");
    reveal_strlit("fdiv.d");
    reveal_strlit("fdiv.s");
    reveal_strlit("fence");
    reveal_strlit("fence.i");
    reveal_strlit("feq.d");
    reveal_strlit("feq.s");
    reveal_strlit("fld");
    reveal_strlit("fle.d");
    reveal_strlit("fle.s");
    reveal_strlit("flt.d");
    reveal_strlit("flt.s");
    reveal_strlit("flw");
    reveal_strlit("fmadd.d");
    reveal_strlit("fmadd.s");
    reveal_strlit("fmax.d");
    reveal_strlit("fmax.s");
    reveal_strlit("fmin.d");
    reveal_strlit("fmin.s");
    reveal_strlit("fmsub.d");
    reveal_strlit("fmsub.s");
    reveal_strlit("fmul.d");
    reveal_strlit("fmul.s");
    reveal_strlit("fmv.d.x");
    reveal_strlit("fmv.w.x");
    reveal_strlit("fmv.x.d");
    reveal_strlit("fmv.x.w");
    reveal_strlit("fnmadd.d");
    reveal_strlit("fnmadd.s");
    reveal_strlit("fnmsub.d");
    reveal_strlit("fnmsub.s");
    reveal_strlit("fsd");
    reveal_strlit("fsgnj.d");
    reveal_strlit("fsgnj.s");
    reveal_strlit("fsgnjn.d");
    reveal_strlit("fsgnjn.s");
    reveal_strlit("fsgnjx.d");
    reveal_strlit("fsgnjx.s");
    reveal_strlit("fsqrt.d");
    reveal_strlit("fsqrt.s");
    reveal_strlit("fsub.d");
    reveal_strlit("fsub.s");
    reveal_strlit("fsw");
    reveal_strlit("jal");
    reveal_strlit("jalr");
    reveal_strlit("lb");
    reveal_strlit("lbu");
    reveal_strlit("lh");
    reveal_strlit("lhu");
    reveal_strlit("lr.d");
    reveal_strlit("lr.w");
    reveal_strlit("lui");
    reveal_strlit("lw");
    reveal_strlit("mret");
    reveal_strlit("mul");
    reveal_strlit("mulh");
    reveal_strlit("mulhsu");
    reveal_strlit("mulhu");
    reveal_strlit("mulw");
    reveal_strlit("or");
    reveal_strlit("ori");
    reveal_strlit("rem");
    reveal_strlit("remu");
    reveal_strlit("remuw");
    reveal_strlit("remw");
    reveal_strlit("sb");
    reveal_strlit("sc.d");
    reveal_strlit("sc.w");
    reveal_strlit("sfence.vma");
    reveal_strlit("sh");
    reveal_strlit("sll");
    reveal_strlit("slli");
    reveal_strlit("slt");
    reveal_strlit("slti");
    reveal_strlit("sltiu");
    reveal_strlit("sltu");
    reveal_strlit("sra");
    reveal_strlit("srai");
    reveal_strlit("sret");
    reveal_strlit("srl");
    reveal_strlit("srli");
    reveal_strlit("sub");
    reveal_strlit("sw");
    reveal_strlit("uret");
    reveal_strlit("wfi");
    reveal_strlit("xor");
    reveal_strlit("xori");
    assert("amoadd.d"@.len() == 8);
    assert("amoadd.w"@.len() == 8);
    assert("amoand.d"@.len() == 8);
    assert("amoand.w"@.len() == 8);
    assert("amomax.d"@.len() == 8);
    assert("amomax.w"@.len() == 8);
    assert("amomaxu.d"@.len() == 9);
    assert("amomaxu.w"@.len() == 9);
    assert("amomin.d"@.len() == 8);
    assert("amomin.w"@.len() == 8);
    assert("amominu.d"@.len() == 9);
    assert("amominu.w"@.len() == 9);
    assert("amoor.d"@.len() == 7);
    assert("amoor.w"@.len() == 7);
    assert("amoswap.d"@.len() == 9);
    assert("amoswap.w"@.len() == 9);
    assert("amoxor.d"@.len() == 8);
    assert("amoxor.w"@.len() == 8);
    assert("div"@.len() == 3);
    assert("divu"@.len() == 4);
    assert("divuw"@.len() == 5);
    assert("divw"@.len() == 4);
    assert("fadd.d"@.len() == 6);
    assert("fadd.s"@.len() == 6);
    assert("fclass.d"@.len() == 8);
    assert("fclass.s"@.len() == 8);
    assert("fcvt.d.l"@.len() == 8);
    assert("fcvt.d.lu"@.len() == 9);
    assert("fcvt.d.s"@.len() == 8);
    assert("fcvt.d.w"@.len() == 8);
    assert("fcvt.d.wu"@.len() == 9);
    assert("fcvt.l.d"@.len() == 8);
    assert("fcvt.l.s"@.len() == 8);
    assert("fcvt.lu.d"@.len() == 9);
    assert("fcvt.lu.s"@.len() == 9);
    assert("fcvt.s.d"@.len() == 8);
    assert("fcvt.s.l"@.len() == 8);
    assert("fcvt.s.lu"@.len() == 9);
    assert("fcvt.s.w"@.len() == 8);
    assert("fcvt.s.wu"@.len() == 9);
    assert("fcvt.w.d"@.len() == 8);
    assert("fcvt.w.s"@.len() == 8);
    assert("fcvt.wu.d"@.len() == 9);
    assert("fcvt.wu.s"@.len() == 9);
    assert("fdiv.d"@.len() == 6);
    assert("fdiv.s"@.len() == 6);
    assert("feq.d"@.len() == 5);
    assert("feq.s"@.len() == 5);
    assert("fld"@.len() == 3);
    assert("fle.d"@.len() == 5);
    assert("fle.s"@.len() == 5);
    assert("flt.d"@.len() == 5);
    assert("flt.s"@.len() == 5);
    assert("flw"@.len() == 3);
    assert("fmadd.d"@.len() == 7);
    assert("fmadd.s"@.len() == 7);
    assert("fmax.d"@.len() == 6);
    assert("fmax.s"@.len() == 6);
    assert("fmin.d"@.len() == 6);
    assert("fmin.s"@.len() == 6);
    assert("fmsub.d"@.len() == 7);
    assert("fmsub.s"@.len() == 7);
    assert("fmul.d"@.len() == 6);
    assert("fmul.s"@.len() == 6);
    assert("fmv.d.x"@.len() == 7);
    assert("fmv.w.x"@.len() == 7);
    assert("fmv.x.d"@.len() == 7);
    assert("fmv.x.w"@.len() == 7);
    assert("fnmadd.d"@.len() == 8);
    assert("fnmadd.s"@.len() == 8);
    assert("fnmsub.d"@.len() == 8);
    assert("fnmsub.s"@.len() == 8);
    assert("fsd"@.len() == 3);
    assert("fsgnj.d"@.len() == 7);
    assert("fsgnj.s"@.len() == 7);
    assert("fsgnjn.d"@.len() == 8);
    assert("fsgnjn.s"@.len() == 8);
    assert("fsgnjx.d"@.len() == 8);
    assert("fsgnjx.s"@.len() == 8);
    assert("fsqrt.d"@.len() == 7);
    assert("fsqrt.s"@.len() == 7);
    assert("fsub.d"@.len() == 6);
    assert("fsub.s"@.len() == 6);
    assert("fsw"@.len() == 3);
    assert("lr.d"@.len() == 4);
    assert("lr.w"@.len() == 4);
    assert("mul"@.len() == 3);
    assert("mulh"@.len() == 4);
    assert("mulhsu"@.len() == 6);
    assert("mulhu"@.len() == 5);
    assert("mulw"@.len() == 4);
    assert("rem"@.len() == 3);
    assert("remu"@.len() == 4);
    assert("remuw"@.len() == 5);
    assert("remw"@.len() == 4);
    assert("sc.d"@.len() == 4);
    assert("sc.w"@.len() == 4);
    let nm = base_global_filter_at(j).name;
    if j == 0 {
        assert(nm == "addi"@);
        assert(nm.len() == 4);
        assert("addi"@[0] != "mulh"@[0]);
        assert("addi"@[0] != "mulw"@[0]);
        assert("addi"@[0] != "divu"@[0]);
        assert("addi"@[0] != "remu"@[0]);
        assert("addi"@[0] != "divw"@[0]);
        assert("addi"@[0] != "remw"@[0]);
        assert("addi"@[0] != "lr.w"@[0]);
        assert("addi"@[0] != "sc.w"@[0]);
        assert("addi"@[0] != "lr.d"@[0]);
        assert("addi"@[0] != "sc.d"@[0]);
        assert("addi"@[0] != 'c');
        assert(!spec_is_m_mnemonic(nm));
        assert(!spec_is_a_mnemonic(nm));
        assert(!spec_is_f_mnemonic(nm));
        assert(!spec_is_d_mnemonic(nm));
        assert(!spec_is_compressed_mnemonic(nm));
    } else if j == 1 {
        assert(nm == "slti"@);
        assert(nm.len() == 4);
        assert("slti"@[0] != "mulh"@[0]);
        assert("slti"@[0] != "mulw"@[0]);
        assert("slti"@[0] != "divu"@[0]);
        assert("slti"@[0] != "remu"@[0]);
        assert("slti"@[0] != "divw"@[0]);
        assert("slti"@[0] != "remw"@[0]);
        assert("slti"@[0] != "lr.w"@[0]);
        assert("slti"@[1] != "sc.w"@[1]);
        assert("slti"@[0] != "lr.d"@[0]);
        assert("slti"@[1] != "sc.d"@[1]);
        assert("slti"@[0] != 'c');
        assert(!spec_is_m_mnemonic(nm));
        assert(!spec_is_a_mnemonic(nm));
        assert(!spec_is_f_mnemonic(nm));
        assert(!spec_is_d_mnemonic(nm));
        assert(!spec_is_compressed_mnemonic(nm));
    } else if j == 2 {
        assert(nm == "sltiu"@);
        assert(nm.len() == 5);
        assert("sltiu"@[0] != "mulhu"@[0]);
        assert("sltiu"@[0] != "divuw"@[0]);
        assert("sltiu"@[0] != "remuw"@[0]);
        assert("sltiu"@[0] != "feq.s"@[0]);
        assert("sltiu"@[0] != "flt.s"@[0]);
        assert("sltiu"@[0] != "fle.s"@[0]);
        assert("sltiu"@[0] != "feq.d"@[0]);
        assert("sltiu"@[0] != "flt.d"@[0]);
        assert("sltiu"@[0] != "fle.d"@[0]);
        assert("sltiu"@[0] != 'c');
        assert(!spec_is_m_mnemonic(nm));
        assert(!spec_is_a_mnemonic(nm));
        assert(!spec_is_f_mnemonic(nm));
        assert(!spec_is_d_mnemonic(nm));
        assert(!spec_is_compressed_mnemonic(nm));
    } else if j == 3 {
        assert(nm == "ori"@);
        assert(nm.len() == 3);
        assert("ori"@[0] != "mul"@[0]);
        assert("ori"@[0] != "div"@[0]);
        assert("ori"@[0] != "rem"@[0]);
        assert("ori"@[0] != "flw"@[0]);
        assert("ori"@[0] != "fsw"@[0]);
        assert("ori"@[0] != "fld"@[0]);
        assert("ori"@[0] != "fsd"@[0]);
        assert("ori"@[0] != 'c');
        assert(!spec_is_m_mnemonic(nm));
        assert(!spec_is_a_mnemonic(nm));
        assert(!spec_is_f_mnemonic(nm));
        assert(!spec_is_d_mnemonic(nm));
        assert(!spec_is_compressed_mnemonic(nm));
    } else if j == 4 {
        assert(nm == "xori"@);
        assert(nm.len() == 4);
        assert("xori"@[0] != "mulh"@[0]);
        assert("xori"@[0] != "mulw"@[0]);
        assert("xori"@[0] != "divu"@[0]);
        assert("xori"@[0] != "remu"@[0]);
        assert("xori"@[0] != "divw"@[0]);
        assert("xori"@[0] != "remw"@[0]);
        assert("xori"@[0] != "lr.w"@[0]);
        assert("xori"@[0] != "sc.w"@[0]);
        assert("xori"@[0] != "lr.d"@[0]);
        assert("xori"@[0] != "sc.d"@[0]);
        assert("xori"@[0] != 'c');
        assert(!spec_is_m_mnemonic(nm));
        assert(!spec_is_a_mnemonic(nm));
        assert(!spec_is_f_mnemonic(nm));
        assert(!spec_is_d_mnemonic(nm));
        assert(!spec_is_compressed_mnemonic(nm));
    } else if j == 5 {
        assert(nm == "andi"@);
        assert(nm.len() == 4);
        assert("andi"@[0] != "mulh"@[0]);
        assert("andi"@[0] != "mulw"@[0]);
        assert("andi"@[0] != "divu"@[0]);
        assert("andi"@[0] != "remu"@[0]);
        assert("andi"@[0] != "divw"@[0]);
        assert("andi"@[0] != "remw"@[0]);
        assert("andi"@[0] != "lr.w"@[0]);
        assert("andi"@[0] != "sc.w"@[0]);
        assert("andi"@[0] != "lr.d"@[0]);
        assert("andi"@[0] != "sc.d"@[0]);
        assert("andi"@[0] != 'c');
        assert(!spec_is_m_mnemonic(nm));
        assert(!spec_is_a_mnemonic(nm));
        assert(!spec_is_f_mnemonic(nm));
        assert(!spec_is_d_mnemonic(nm));
        assert(!spec_is_compressed_mnemonic(nm));
    } else if j == 6 {
        assert(nm == "slli"@);
        assert(nm.len() == 4);
        assert("slli"@[0] != "mulh"@[0]);
        assert("slli"@[0] != "mulw"@[0]);
        assert("slli"@[0] != "divu"@[0]);
        assert("slli"@[0] != "remu"@[0]);
        assert("slli"@[0] != "divw"@[0]);
        assert("slli"@[0] != "remw"@[0]);
        assert("slli"@[0] != "lr.w"@[0]);
        assert("slli"@[1] != "sc.w"@[1]);
        assert("slli"@[0] != "lr.d"@[0]);
        assert("slli"@[1] != "sc.d"@[1]);
        assert("slli"@[0] != 'c');
        assert(!spec_is_m_mnemonic(nm));
        assert(!spec_is_a_mnemonic(nm));
        assert(!spec_is_f_mnemonic(nm));
        assert(!spec_is_d_mnemonic(nm));
        assert(!spec_is_compressed_mnemonic(nm));
    } else if j == 7 {
        assert(nm == "srli"@);
        assert(nm.len() == 4);
        assert("srli"@[0] != "mulh"@[0]);
        assert("srli"@[0] != "mulw"@[0]);
        assert("srli"@[0] != "divu"@[0]);
        assert("srli"@[0] != "remu"@[0]);
        assert("srli"@[0] != "divw"@[0]);
        assert("srli"@[0] != "remw"@[0]);
        assert("srli"@[0] != "lr.w"@[0]);
        assert("srli"@[1] != "sc.w"@[1]);
        assert("srli"@[0] != "lr.d"@[0]);
        assert("srli"@[1] != "sc.d"@[1]);
        assert("srli"@[0] != 'c');
        assert(!spec_is_m_mnemonic(nm));
        assert(!spec_is_a_mnemonic(nm));
        assert(!spec_is_f_mnemonic(nm));
        assert(!spec_is_d_mnemonic(nm));
        assert(!spec_is_compressed_mnemonic(nm));
    } else if j == 8 {
        assert(nm == "srai"@);
        assert(nm.len() == 4);
        assert("srai"@[0] != "mulh"@[0]);
        assert("srai"@[0] != "mulw"@[0]);
        assert("srai"@[0] != "divu"@[0]);
        assert("srai"@[0] != "remu"@[0]);
        assert("srai"@[0] != "divw"@[0]);
        assert("srai"@[0] != "remw"@[0]);
        assert("srai"@[0] != "lr.w"@[0]);
        assert("srai"@[1] != "sc.w"@[1]);
        assert("srai"@[0] != "lr.d"@[0]);
        assert("srai"@[1] != "sc.d"@[1]);
        assert("srai"@[0] != 'c');
        assert(!spec_is_m_mnemonic(nm));
        assert(!spec_is_a_mnemonic(nm));
        assert(!spec_is_f_mnemonic(nm));
        assert(!spec_is_d_mnemonic(nm));
        assert(!spec_is_compressed_mnemonic(nm));
    } else if j == 9 {
        assert(nm == "lui"@);
        assert(nm.len() == 3);
        assert("lui"@[0] != "mul"@[0]);
        assert("lui"@[0] != "div"@[0]);
        assert("lui"@[0] != "rem"@[0]);
        assert("lui"@[0] != "flw"@[0]);
        assert("lui"@[0] != "fsw"@[0]);
        assert("lui"@[0] != "fld"@[0]);
        assert("lui"@[0] != "fsd"@[0]);
        assert("lui"@[0] != 'c');
        assert(!spec_is_m_mnemonic(nm));
        assert(!spec_is_a_mnemonic(nm));
        assert(!spec_is_f_mnemonic(nm));
        assert(!spec_is_d_mnemonic(nm));
        assert(!spec_is_compressed_mnemonic(nm));
    } else if j == 10 {
        assert(nm == "auipc"@);
        assert(nm.len() == 5);
        assert("auipc"@[0] != "mulhu"@[0]);
        assert("auipc"@[0] != "divuw"@[0]);
        assert("auipc"@[0] != "remuw"@[0]);
        assert("auipc"@[0] != "feq.s"@[0]);
        assert("auipc"@[0] != "flt.s"@[0]);
        assert("auipc"@[0] != "fle.s"@[0]);
        assert("auipc"@[0] != "feq.d"@[0]);
        assert("auipc"@[0] != "flt.d"@[0]);
        assert("auipc"@[0] != "fle.d"@[0]);
        assert("auipc"@[0] != 'c');
        assert(!spec_is_m_mnemonic(nm));
        assert(!spec_is_a_mnemonic(nm));
        assert(!spec_is_f_mnemonic(nm));
        assert(!spec_is_d_mnemonic(nm));
        assert(!spec_is_compressed_mnemonic(nm));
    } else if j == 11 {
        assert(nm == "add"@);
        assert(nm.len() == 3);
        assert("add"@[0] != "mul"@[0]);
        assert("add"@[0] != "div"@[0]);
        assert("add"@[0] != "rem"@[0]);
        assert("add"@[0] != "flw"@[0]);
        assert("add"@[0] != "fsw"@[0]);
        assert("add"@[0] != "fld"@[0]);
        assert("add"@[0] != "fsd"@[0]);
        assert("add"@[0] != 'c');
        assert(!spec_is_m_mnemonic(nm));
        assert(!spec_is_a_mnemonic(nm));
        assert(!spec_is_f_mnemonic(nm));
        assert(!spec_is_d_mnemonic(nm));
        assert(!spec_is_compressed_mnemonic(nm));
    } else if j == 12 {
        assert(nm == "slt"@);
        assert(nm.len() == 3);
        assert("slt"@[0] != "mul"@[0]);
        assert("slt"@[0] != "div"@[0]);
        assert("slt"@[0] != "rem"@[0]);
        assert("slt"@[0] != "flw"@[0]);
        assert("slt"@[0] != "fsw"@[0]);
        assert("slt"@[0] != "fld"@[0]);
        assert("slt"@[0] != "fsd"@[0]);
        assert("slt"@[0] != 'c');
        assert(!spec_is_m_mnemonic(nm));
        assert(!spec_is_a_mnemonic(nm));
        assert(!spec_is_f_mnemonic(nm));
        assert(!spec_is_d_mnemonic(nm));
        assert(!spec_is_compressed_mnemonic(nm));
    } else if j == 13 {
        assert(nm == "sltu"@);
        assert(nm.len() == 4);
        assert("sltu"@[0] != "mulh"@[0]);
        assert("sltu"@[0] != "mulw"@[0]);
        assert("sltu"@[0] != "divu"@[0]);
        assert("sltu"@[0] != "remu"@[0]);
        assert("sltu"@[0] != "divw"@[0]);
        assert("sltu"@[0] != "remw"@[0]);
        assert("sltu"@[0] != "lr.w"@[0]);
        assert("sltu"@[1] != "sc.w"@[1]);
        assert("sltu"@[0] != "lr.d"@[0]);
        assert("sltu"@[1] != "sc.d"@[1]);
        assert("sltu"@[0] != 'c');
        assert(!spec_is_m_mnemonic(nm));
        assert(!spec_is_a_mnemonic(nm));
        assert(!spec_is_f_mnemonic(nm));
        assert(!spec_is_d_mnemonic(nm));
        assert(!spec_is_compressed_mnemonic(nm));
    } else if j == 14 {
        assert(nm == "and"@);
        assert(nm.len() == 3);
        assert("and"@[0] != "mul"@[0]);
        assert("and"@[0] != "div"@[0]);
        assert("and"@[0] != "rem"@[0]);
        assert("and"@[0] != "flw"@[0]);
        assert("and"@[0] != "fsw"@[0]);
        assert("and"@[0] != "fld"@[0]);
        assert("and"@[0] != "fsd"@[0]);
        assert("and"@[0] != 'c');
        assert(!spec_is_m_mnemonic(nm));
        assert(!spec_is_a_mnemonic(nm));
        assert(!spec_is_f_mnemonic(nm));
        assert(!spec_is_d_mnemonic(nm));
        assert(!spec_is_compressed_mnemonic(nm));
    } else if j == 15 {
        assert(nm == "or"@);
        assert(nm.len() == 2);
        assert("or"@[0] != 'c');
        assert(!spec_is_m_mnemonic(nm));
        assert(!spec_is_a_mnemonic(nm));
        assert(!spec_is_f_mnemonic(nm));
        assert(!spec_is_d_mnemonic(nm));
        assert(!spec_is_compressed_mnemonic(nm));
    } else if j == 16 {
        assert(nm == "xor"@);
        assert(nm.len() == 3);
        assert("xor"@[0] != "mul"@[0]);
        assert("xor"@[0] != "div"@[0]);
        assert("xor"@[0] != "rem"@[0]);
        assert("xor"@[0] != "flw"@[0]);
        assert("xor"@[0] != "fsw"@[0]);
        assert("xor"@[0] != "fld"@[0]);
        assert("xor"@[0] != "fsd"@[0]);
        assert("xor"@[0] != 'c');
        assert(!spec_is_m_mnemonic(nm));
        assert(!spec_is_a_mnemonic(nm));
        assert(!spec_is_f_mnemonic(nm));
        assert(!spec_is_d_mnemonic(nm));
        assert(!spec_is_compressed_mnemonic(nm));
    } else if j == 17 {
        assert(nm == "sll"@);
        assert(nm.len() == 3);
        assert("sll"@[0] != "mul"@[0]);
        assert("sll"@[0] != "div"@[0]);
        assert("sll"@[0] != "rem"@[0]);
        assert("sll"@[0] != "flw"@[0]);
        assert("sll"@[0] != "fsw"@[0]);
        assert("sll"@[0] != "fld"@[0]);
        assert("sll"@[0] != "fsd"@[0]);
        assert("sll"@[0] != 'c');
        assert(!spec_is_m_mnemonic(nm));
        assert(!spec_is_a_mnemonic(nm));
        assert(!spec_is_f_mnemonic(nm));
        assert(!spec_is_d_mnemonic(nm));
        assert(!spec_is_compressed_mnemonic(nm));
    } else if j == 18 {
        assert(nm == "srl"@);
        assert(nm.len() == 3);
        assert("srl"@[0] != "mul"@[0]);
        assert("srl"@[0] != "div"@[0]);
        assert("srl"@[0] != "rem"@[0]);
        assert("srl"@[0] != "flw"@[0]);
        assert("srl"@[0] != "fsw"@[0]);
        assert("srl"@[0] != "fld"@[0]);
        assert("srl"@[0] != "fsd"@[0]);
        assert("srl"@[0] != 'c');
        assert(!spec_is_m_mnemonic(nm));
        assert(!spec_is_a_mnemonic(nm));
        assert(!spec_is_f_mnemonic(nm));
        assert(!spec_is_d_mnemonic(nm));
        assert(!spec_is_compressed_mnemonic(nm));
    } else if j == 19 {
        assert(nm == "sub"@);
        assert(nm.len() == 3);
        assert("sub"@[0] != "mul"@[0]);
        assert("sub"@[0] != "div"@[0]);
        assert("sub"@[0] != "rem"@[0]);
        assert("sub"@[0] != "flw"@[0]);
        assert("sub"@[0] != "fsw"@[0]);
        assert("sub"@[0] != "fld"@[0]);
        assert("sub"@[0] != "fsd"@[0]);
        assert("sub"@[0] != 'c');
        assert(!spec_is_m_mnemonic(nm));
        assert(!spec_is_a_mnemonic(nm));
        assert(!spec_is_f_mnemonic(nm));
        assert(!spec_is_d_mnemonic(nm));
        assert(!spec_is_compressed_mnemonic(nm));
    } else if j == 20 {
        assert(nm == "sra"@);
        assert(nm.len() == 3);
        assert("sra"@[0] != "mul"@[0]);
        assert("sra"@[0] != "div"@[0]);
        assert("sra"@[0] != "rem"@[0]);
        assert("sra"@[0] != "flw"@[0]);
        assert("sra"@[0] != "fsw"@[0]);
        assert("sra"@[0] != "fld"@[0]);
        assert("sra"@[0] != "fsd"@[0]);
        assert("sra"@[0] != 'c');
        assert(!spec_is_m_mnemonic(nm));
        assert(!spec_is_a_mnemonic(nm));
        assert(!spec_is_f_mnemonic(nm));
        assert(!spec_is_d_mnemonic(nm));
        assert(!spec_is_compressed_mnemonic(nm));
    } else if j == 21 {
        assert(nm == "jal"@);
        assert(nm.len() == 3);
        assert("jal"@[0] != "mul"@[0]);
        assert("jal"@[0] != "div"@[0]);
        assert("jal"@[0] != "rem"@[0]);
        assert("jal"@[0] != "flw"@[0]);
        assert("jal"@[0] != "fsw"@[0]);
        assert("jal"@[0] != "fld"@[0]);
        assert("jal"@[0] != "fsd"@[0]);
        assert("jal"@[0] != 'c');
        assert(!spec_is_m_mnemonic(nm));
        assert(!spec_is_a_mnemonic(nm));
        assert(!spec_is_f_mnemonic(nm));
        assert(!spec_is_d_mnemonic(nm));
        assert(!spec_is_compressed_mnemonic(nm));
    } else if j == 22 {
        assert(nm == "jalr"@);
        assert(nm.len() == 4);
        assert("jalr"@[0] != "mulh"@[0]);
        assert("jalr"@[0] != "mulw"@[0]);
        assert("jalr"@[0] != "divu"@[0]);
        assert("jalr"@[0] != "remu"@[0]);
        assert("jalr"@[0] != "divw"@[0]);
        assert("jalr"@[0] != "remw"@[0]);
        assert("jalr"@[0] != "lr.w"@[0]);
        assert("jalr"@[0] != "sc.w"@[0]);
        assert("jalr"@[0] != "lr.d"@[0]);
        assert("jalr"@[0] != "sc.d"@[0]);
        assert("jalr"@[0] != 'c');
        assert(!spec_is_m_mnemonic(nm));
        assert(!spec_is_a_mnemonic(nm));
        assert(!spec_is_f_mnemonic(nm));
        assert(!spec_is_d_mnemonic(nm));
        assert(!spec_is_compressed_mnemonic(nm));
    } else if j == 23 {
        assert(nm == "beq"@);
        assert(nm.len() == 3);
        assert("beq"@[0] != "mul"@[0]);
        assert("beq"@[0] != "div"@[0]);
        assert("beq"@[0] != "rem"@[0]);
        assert("beq"@[0] != "flw"@[0]);
        assert("beq"@[0] != "fsw"@[0]);
        assert("beq"@[0] != "fld"@[0]);
        assert("beq"@[0] != "fsd"@[0]);
        assert("beq"@[0] != 'c');
        assert(!spec_is_m_mnemonic(nm));
        assert(!spec_is_a_mnemonic(nm));
        assert(!spec_is_f_mnemonic(nm));
        assert(!spec_is_d_mnemonic(nm));
        assert(!spec_is_compressed_mnemonic(nm));
    } else if j == 24 {
        assert(nm == "bne"@);
        assert(nm.len() == 3);
        assert("bne"@[0] != "mul"@[0]);
        assert("bne"@[0] != "div"@[0]);
        assert("bne"@[0] != "rem"@[0]);
        assert("bne"@[0] != "flw"@[0]);
        assert("bne"@[0] != "fsw"@[0]);
        assert("bne"@[0] != "fld"@[0]);
        assert("bne"@[0] != "fsd"@[0]);
        assert("bne"@[0] != 'c');
        assert(!spec_is_m_mnemonic(nm));
        assert(!spec_is_a_mnemonic(nm));
        assert(!spec_is_f_mnemonic(nm));
        assert(!spec_is_d_mnemonic(nm));
        assert(!spec_is_compressed_mnemonic(nm));
    } else if j == 25 {
        assert(nm == "blt"@);
        assert(nm.len() == 3);
        assert("blt"@[0] != "mul"@[0]);
        assert("blt"@[0] != "div"@[0]);
        assert("blt"@[0] != "rem"@[0]);
        assert("blt"@[0] != "flw"@[0]);
        assert("blt"@[0] != "fsw"@[0]);
        assert("blt"@[0] != "fld"@[0]);
        assert("blt"@[0] != "fsd"@[0]);
        assert("blt"@[0] != 'c');
        assert(!spec_is_m_mnemonic(nm));
        assert(!spec_is_a_mnemonic(nm));
        assert(!spec_is_f_mnemonic(nm));
        assert(!spec_is_d_mnemonic(nm));
        assert(!spec_is_compressed_mnemonic(nm));
    } else if j == 26 {
        assert(nm == "bltu"@);
        assert(nm.len() == 4);
        assert("bltu"@[0] != "mulh"@[0]);
        assert("bltu"@[0] != "mulw"@[0]);
        assert("bltu"@[0] != "divu"@[0]);
        assert("bltu"@[0] != "remu"@[0]);
        assert("bltu"@[0] != "divw"@[0]);
        assert("bltu"@[0] != "remw"@[0]);
        assert("bltu"@[0] != "lr.w"@[0]);
        assert("bltu"@[0] != "sc.w"@[0]);
        assert("bltu"@[0] != "lr.d"@[0]);
        assert("bltu"@[0] != "sc.d"@[0]);
        assert("bltu"@[0] != 'c');
        assert(!spec_is_m_mnemonic(nm));
        assert(!spec_is_a_mnemonic(nm));
        assert(!spec_is_f_mnemonic(nm));
        assert(!spec_is_d_mnemonic(nm));
        assert(!spec_is_compressed_mnemonic(nm));
    } else if j == 27 {
        assert(nm == "bge"@);
        assert(nm.len() == 3);
        assert("bge"@[0] != "mul"@[0]);
        assert("bge"@[0] != "div"@[0]);
        assert("bge"@[0] != "rem"@[0]);
        assert("bge"@[0] != "flw"@[0]);
        assert("bge"@[0] != "fsw"@[0]);
        assert("bge"@[0] != "fld"@[0]);
        assert("bge"@[0] != "fsd"@[0]);
        assert("bge"@[0] != 'c');
        assert(!spec_is_m_mnemonic(nm));
        assert(!spec_is_a_mnemonic(nm));
        assert(!spec_is_f_mnemonic(nm));
        assert(!spec_is_d_mnemonic(nm));
        assert(!spec_is_compressed_mnemonic(nm));
    } else if j == 28 {
        assert(nm == "bgeu"@);
        assert(nm.len() == 4);
        assert("bgeu"@[0] != "mulh"@[0]);
        assert("bgeu"@[0] != "mulw"@[0]);
        assert("bgeu"@[0] != "divu"@[0]);
        assert("bgeu"@[0] != "remu"@[0]);
        assert("bgeu"@[0] != "divw"@[0]);
        assert("bgeu"@[0] != "remw"@[0]);
        assert("bgeu"@[0] != "lr.w"@[0]);
        assert("bgeu"@[0] != "sc.w"@[0]);
        assert("bgeu"@[0] != "lr.d"@[0]);
        assert("bgeu"@[0] != "sc.d"@[0]);
        assert("bgeu"@[0] != 'c');
        assert(!spec_is_m_mnemonic(nm));
        assert(!spec_is_a_mnemonic(nm));
        assert(!spec_is_f_mnemonic(nm));
        assert(!spec_is_d_mnemonic(nm));
        assert(!spec_is_compressed_mnemonic(nm));
    } else if j == 29 {
        assert(nm == "lb"@);
        assert(nm.len() == 2);
        assert("lb"@[0] != 'c');
        assert(!spec_is_m_mnemonic(nm));
        assert(!spec_is_a_mnemonic(nm));
        assert(!spec_is_f_mnemonic(nm));
        assert(!spec_is_d_mnemonic(nm));
        assert(!spec_is_compressed_mnemonic(nm));
    } else if j == 30 {
        assert(nm == "lbu"@);
        assert(nm.len() == 3);
        assert("lbu"@[0] != "mul"@[0]);
        assert("lbu"@[0] != "div"@[0]);
        assert("lbu"@[0] != "rem"@[0]);
        assert("lbu"@[0] != "flw"@[0]);
        assert("lbu"@[0] != "fsw"@[0]);
        assert("lbu"@[0] != "fld"@[0]);
        assert("lbu"@[0] != "fsd"@[0]);
        assert("lbu"@[0] != 'c');
        assert(!spec_is_m_mnemonic(nm));
        assert(!spec_is_a_mnemonic(nm));
        assert(!spec_is_f_mnemonic(nm));
        assert(!spec_is_d_mnemonic(nm));
        assert(!spec_is_compressed_mnemonic(nm));
    } else if j == 31 {
        assert(nm == "lh"@);
        assert(nm.len() == 2);
        assert("lh"@[0] != 'c');
        assert(!spec_is_m_mnemonic(nm));
        assert(!spec_is_a_mnemonic(nm));
        assert(!spec_is_f_mnemonic(nm));
        assert(!spec_is_d_mnemonic(nm));
        assert(!spec_is_compressed_mnemonic(nm));
    } else if j == 32 {
        assert(nm == "lhu"@);
        assert(nm.len() == 3);
        assert("lhu"@[0] != "mul"@[0]);
        assert("lhu"@[0] != "div"@[0]);
        assert("lhu"@[0] != "rem"@[0]);
        assert("lhu"@[0] != "flw"@[0]);
        assert("lhu"@[0] != "fsw"@[0]);
        assert("lhu"@[0] != "fld"@[0]);
        assert("lhu"@[0] != "fsd"@[0]);
        assert("lhu"@[0] != 'c');
        assert(!spec_is_m_mnemonic(nm));
        assert(!spec_is_a_mnemonic(nm));
        assert(!spec_is_f_mnemonic(nm));
        assert(!spec_is_d_mnemonic(nm));
        assert(!spec_is_compressed_mnemonic(nm));
    } else if j == 33 {
        assert(nm == "lw"@);
        assert(nm.len() == 2);
        assert("lw"@[0] != 'c');
        assert(!spec_is_m_mnemonic(nm));
        assert(!spec_is_a_mnemonic(nm));
        assert(!spec_is_f_mnemonic(nm));
        assert(!spec_is_d_mnemonic(nm));
        assert(!spec_is_compressed_mnemonic(nm));
    } else if j == 34 {
        assert(nm == "sb"@);
        assert(nm.len() == 2);
        assert("sb"@[0] != 'c');
        assert(!spec_is_m_mnemonic(nm));
        assert(!spec_is_a_mnemonic(nm));
        assert(!spec_is_f_mnemonic(nm));
        assert(!spec_is_d_mnemonic(nm));
        assert(!spec_is_compressed_mnemonic(nm));
    } else if j == 35 {
        assert(nm == "sh"@);
        assert(nm.len() == 2);
        assert("sh"@[0] != 'c');
        assert(!spec_is_m_mnemonic(nm));
        assert(!spec_is_a_mnemonic(nm));
        assert(!spec_is_f_mnemonic(nm));
        assert(!spec_is_d_mnemonic(nm));
        assert(!spec_is_compressed_mnemonic(nm));
    } else if j == 36 {
        assert(nm == "sw"@);
        assert(nm.len() == 2);
        assert("sw"@[0] != 'c');
        assert(!spec_is_m_mnemonic(nm));
        assert(!spec_is_a_mnemonic(nm));
        assert(!spec_is_f_mnemonic(nm));
        assert(!spec_is_d_mnemonic(nm));
        assert(!spec_is_compressed_mnemonic(nm));
    } else if j == 37 {
        assert(nm == "fence"@);
        assert(nm.len() == 5);
        assert("fence"@[0] != "mulhu"@[0]);
        assert("fence"@[0] != "divuw"@[0]);
        assert("fence"@[0] != "remuw"@[0]);
        assert("fence"@[2] != "feq.s"@[2]);
        assert("fence"@[1] != "flt.s"@[1]);
        assert("fence"@[1] != "fle.s"@[1]);
        assert("fence"@[2] != "feq.d"@[2]);
        assert("fence"@[1] != "flt.d"@[1]);
        assert("fence"@[1] != "fle.d"@[1]);
        assert("fence"@[0] != 'c');
        assert(!spec_is_m_mnemonic(nm));
        assert(!spec_is_a_mnemonic(nm));
        assert(!spec_is_f_mnemonic(nm));
        assert(!spec_is_d_mnemonic(nm));
        assert(!spec_is_compressed_mnemonic(nm));
    } else if j == 38 {
        assert(nm == "fence.i"@);
        assert(nm.len() == 7);
        assert("fence.i"@[0] != "amoor.w"@[0]);
        assert("fence.i"@[0] != "amoor.d"@[0]);
        assert("fence.i"@[1] != "fsqrt.s"@[1]);
        assert("fence.i"@[1] != "fmadd.s"@[1]);
        assert("fence.i"@[1] != "fmsub.s"@[1]);
        assert("fence.i"@[1] != "fsgnj.s"@[1]);
        assert("fence.i"@[1] != "fmv.w.x"@[1]);
        assert("fence.i"@[1] != "fmv.x.w"@[1]);
        assert("fence.i"@[1] != "fsqrt.d"@[1]);
        assert("fence.i"@[1] != "fmadd.d"@[1]);
        assert("fence.i"@[1] != "fmsub.d"@[1]);
        assert("fence.i"@[1] != "fsgnj.d"@[1]);
        assert("fence.i"@[1] != "fmv.x.d"@[1]);
        assert("fence.i"@[1] != "fmv.d.x"@[1]);
        assert("fence.i"@[0] != 'c');
        assert(!spec_is_m_mnemonic(nm));
        assert(!spec_is_a_mnemonic(nm));
        assert(!spec_is_f_mnemonic(nm));
        assert(!spec_is_d_mnemonic(nm));
        assert(!spec_is_compressed_mnemonic(nm));
    } else if j == 39 {
        assert(nm == "ecall"@);
        assert(nm.len() == 5);
        assert("ecall"@[0] != "mulhu"@[0]);
        assert("ecall"@[0] != "divuw"@[0]);
        assert("ecall"@[0] != "remuw"@[0]);
        assert("ecall"@[0] != "feq.s"@[0]);
        assert("ecall"@[0] != "flt.s"@[0]);
        assert("ecall"@[0] != "fle.s"@[0]);
        assert("ecall"@[0] != "feq.d"@[0]);
        assert("ecall"@[0] != "flt.d"@[0]);
        assert("ecall"@[0] != "fle.d"@[0]);
        assert("ecall"@[0] != 'c');
        assert(!spec_is_m_mnemonic(nm));
        assert(!spec_is_a_mnemonic(nm));
        assert(!spec_is_f_mnemonic(nm));
        assert(!spec_is_d_mnemonic(nm));
        assert(!spec_is_compressed_mnemonic(nm));
    } else if j == 40 {
        assert(nm == "ebreak"@);
        assert(nm.len() == 6);
        assert("ebreak"@[0] != "mulhsu"@[0]);
        assert("ebreak"@[0] != "fadd.s"@[0]);
        assert("ebreak"@[0] != "fsub.s"@[0]);
        assert("ebreak"@[0] != "fmul.s"@[0]);
        assert("ebreak"@[0] != "fdiv.s"@[0]);
        assert("ebreak"@[0] != "fmin.s"@[0]);
        assert("ebreak"@[0] != "fmax.s"@[0]);
        assert("ebreak"@[0] != "fadd.d"@[0]);
        assert("ebreak"@[0] != "fsub.d"@[0]);
        assert("ebreak"@[0] != "fmul.d"@[0]);
        assert("ebreak"@[0] != "fdiv.d"@[0]);
        assert("ebreak"@[0] != "fmin.d"@[0]);
        assert("ebreak"@[0] != "fmax.d"@[0]);
        assert("ebreak"@[0] != 'c');
        assert(!spec_is_m_mnemonic(nm));
        assert(!spec_is_a_mnemonic(nm));
        assert(!spec_is_f_mnemonic(nm));
        assert(!spec_is_d_mnemonic(nm));
        assert(!spec_is_compressed_mnemonic(nm));
    } else if j == 41 {
        assert(nm == "wfi"@);
        assert(nm.len() == 3);
        assert("wfi"@[0] != "mul"@[0]);
        assert("wfi"@[0] != "div"@[0]);
        assert("wfi"@[0] != "rem"@[0]);
        assert("wfi"@[0] != "flw"@[0]);
        assert("wfi"@[0] != "fsw"@[0]);
        assert("wfi"@[0] != "fld"@[0]);
        assert("wfi"@[0] != "fsd"@[0]);
        assert("wfi"@[0] != 'c');
        assert(!spec_is_m_mnemonic(nm));
        assert(!spec_is_a_mnemonic(nm));
        assert(!spec_is_f_mnemonic(nm));
        assert(!spec_is_d_mnemonic(nm));
        assert(!spec_is_compressed_mnemonic(nm));
    } else if j == 42 {
        assert(nm == "mret"@);
        assert(nm.len() == 4);
        assert("mret"@[1] != "mulh"@[1]);
        assert("mret"@[1] != "mulw"@[1]);
        assert("mret"@[0] != "divu"@[0]);
        assert("mret"@[0] != "remu"@[0]);
        assert("mret"@[0] != "divw"@[0]);
        assert("mret"@[0] != "remw"@[0]);
        assert("mret"@[0] != "lr.w"@[0]);
        assert("mret"@[0] != "sc.w"@[0]);
        assert("mret"@[0] != "lr.d"@[0]);
        assert("mret"@[0] != "sc.d"@[0]);
        assert("mret"@[0] != 'c');
        assert(!spec_is_m_mnemonic(nm));
        assert(!spec_is_a_mnemonic(nm));
        assert(!spec_is_f_mnemonic(nm));
        assert(!spec_is_d_mnemonic(nm));
        assert(!spec_is_compressed_mnemonic(nm));
    } else if j == 43 {
        assert(nm == "sret"@);
        assert(nm.len() == 4);
        assert("sret"@[0] != "mulh"@[0]);
        assert("sret"@[0] != "mulw"@[0]);
        assert("sret"@[0] != "divu"@[0]);
        assert("sret"@[0] != "remu"@[0]);
        assert("sret"@[0] != "divw"@[0]);
        assert("sret"@[0] != "remw"@[0]);
        assert("sret"@[0] != "lr.w"@[0]);
        assert("sret"@[1] != "sc.w"@[1]);
        assert("sret"@[0] != "lr.d"@[0]);
        assert("sret"@[1] != "sc.d"@[1]);
        assert("sret"@[0] != 'c');
        assert(!spec_is_m_mnemonic(nm));
        assert(!spec_is_a_mnemonic(nm));
        assert(!spec_is_f_mnemonic(nm));
        assert(!spec_is_d_mnemonic(nm));
        assert(!spec_is_compressed_mnemonic(nm));
    } else if j == 44 {
        assert(nm == "uret"@);
        assert(nm.len() == 4);
        assert("uret"@[0] != "mulh"@[0]);
        assert("uret"@[0] != "mulw"@[0]);
        assert("uret"@[0] != "divu"@[0]);
        assert("uret"@[0] != "remu"@[0]);
        assert("uret"@[0] != "divw"@[0]);
        assert("uret"@[0] != "remw"@[0]);
        assert("uret"@[0] != "lr.w"@[0]);
        assert("uret"@[0] != "sc.w"@[0]);
        assert("uret"@[0] != "lr.d"@[0]);
        assert("uret"@[0] != "sc.d"@[0]);
        assert("uret"@[0] != 'c');
        assert(!spec_is_m_mnemonic(nm));
        assert(!spec_is_a_mnemonic(nm));
        assert(!spec_is_f_mnemonic(nm));
        assert(!spec_is_d_mnemonic(nm));
        assert(!spec_is_compressed_mnemonic(nm));
    } else if j == 45 {
        assert(nm == "sfence.vma"@);
        assert(nm.len() == 10);
        assert("sfence.vma"@[0] != 'c');
        assert(!spec_is_m_mnemonic(nm));
        assert(!spec_is_a_mnemonic(nm));
        assert(!spec_is_f_mnemonic(nm));
        assert(!spec_is_d_mnemonic(nm));
        assert(!spec_is_compressed_mnemonic(nm));
    } else if j == 46 {
        assert(nm == "csrrw"@);
        assert(nm.len() == 5);
        assert("csrrw"@[0] != "mulhu"@[0]);
        assert("csrrw"@[0] != "divuw"@[0]);
        assert("csrrw"@[0] != "remuw"@[0]);
        assert("csrrw"@[0] != "feq.s"@[0]);
        assert("csrrw"@[0] != "flt.s"@[0]);
        assert("csrrw"@[0] != "fle.s"@[0]);
        assert("csrrw"@[0] != "feq.d"@[0]);
        assert("csrrw"@[0] != "flt.d"@[0]);
        assert("csrrw"@[0] != "fle.d"@[0]);
        assert("csrrw"@[1] != '.');
        assert(!spec_is_m_mnemonic(nm));
        assert(!spec_is_a_mnemonic(nm));
        assert(!spec_is_f_mnemonic(nm));
        assert(!spec_is_d_mnemonic(nm));
        assert(!spec_is_compressed_mnemonic(nm));
    } else if j == 47 {
        assert(nm == "csrrs"@);
        assert(nm.len() == 5);
        assert("csrrs"@[0] != "mulhu"@[0]);
        assert("csrrs"@[0] != "divuw"@[0]);
        assert("csrrs"@[0] != "remuw"@[0]);
        assert("csrrs"@[0] != "feq.s"@[0]);
        assert("csrrs"@[0] != "flt.s"@[0]);
        assert("csrrs"@[0] != "fle.s"@[0]);
        assert("csrrs"@[0] != "feq.d"@[0]);
        assert("csrrs"@[0] != "flt.d"@[0]);
        assert("csrrs"@[0] != "fle.d"@[0]);
        assert("csrrs"@[1] != '.');
        assert(!spec_is_m_mnemonic(nm));
        assert(!spec_is_a_mnemonic(nm));
        assert(!spec_is_f_mnemonic(nm));
        assert(!spec_is_d_mnemonic(nm));
        assert(!spec_is_compressed_mnemonic(nm));
    } else if j == 48 {
        assert(nm == "csrrc"@);
        assert(nm.len() == 5);
        assert("csrrc"@[0] != "mulhu"@[0]);
        assert("csrrc"@[0] != "divuw"@[0]);
        assert("csrrc"@[0] != "remuw"@[0]);
        assert("csrrc"@[0] != "feq.s"@[0]);
        assert("csrrc"@[0] != "flt.s"@[0]);
        assert("csrrc"@[0] != "fle.s"@[0]);
        assert("csrrc"@[0] != "feq.d"@[0]);
        assert("csrrc"@[0] != "flt.d"@[0]);
        assert("csrrc"@[0] != "fle.d"@[0]);
        assert("csrrc"@[1] != '.');
        assert(!spec_is_m_mnemonic(nm));
        assert(!spec_is_a_mnemonic(nm));
        assert(!spec_is_f_mnemonic(nm));
        assert(!spec_is_d_mnemonic(nm));
        assert(!spec_is_compressed_mnemonic(nm));
    } else if j == 49 {
        assert(nm == "csrrwi"@);
        assert(nm.len() == 6);
        assert("csrrwi"@[0] != "mulhsu"@[0]);
        assert("csrrwi"@[0] != "fadd.s"@[0]);
        assert("csrrwi"@[0] != "fsub.s"@[0]);
        assert("csrrwi"@[0] != "fmul.s"@[0]);
        assert("csrrwi"@[0] != "fdiv.s"@[0]);
        assert("csrrwi"@[0] != "fmin.s"@[0]);
        assert("csrrwi"@[0] != "fmax.s"@[0]);
        assert("csrrwi"@[0] != "fadd.d"@[0]);
        assert("csrrwi"@[0] != "fsub.d"@[0]);
        assert("csrrwi"@[0] != "fmul.d"@[0]);
        assert("csrrwi"@[0] != "fdiv.d"@[0]);
        assert("csrrwi"@[0] != "fmin.d"@[0]);
        assert("csrrwi"@[0] != "fmax.d"@[0]);
        assert("csrrwi"@[1] != '.');
        assert(!spec_is_m_mnemonic(nm));
        assert(!spec_is_a_mnemonic(nm));
        assert(!spec_is_f_mnemonic(nm));
        assert(!spec_is_d_mnemonic(nm));
        assert(!spec_is_compressed_mnemonic(nm));
    } else if j == 50 {
        assert(nm == "csrrsi"@);
        assert(nm.len() == 6);
        assert("csrrsi"@[0] != "mulhsu"@[0]);
        assert("csrrsi"@[0] != "fadd.s"@[0]);
        assert("csrrsi"@[0] != "fsub.s"@[0]);
        assert("csrrsi"@[0] != "fmul.s"@[0]);
        assert("csrrsi"@[0] != "fdiv.s"@[0]);
        assert("csrrsi"@[0] != "fmin.s"@[0]);
        assert("csrrsi"@[0] != "fmax.s"@[0]);
        assert("csrrsi"@[0] != "fadd.d"@[0]);
        assert("csrrsi"@[0] != "fsub.d"@[0]);
        assert("csrrsi"@[0] != "fmul.d"@[0]);
        assert("csrrsi"@[0] != "fdiv.d"@[0]);
        assert("csrrsi"@[0] != "fmin.d"@[0]);
        assert("csrrsi"@[0] != "fmax.d"@[0]);
        assert("csrrsi"@[1] != '.');
        assert(!spec_is_m_mnemonic(nm));
        assert(!spec_is_a_mnemonic(nm));
        assert(!spec_is_f_mnemonic(nm));
        assert(!spec_is_d_mnemonic(nm));
        assert(!spec_is_compressed_mnemonic(nm));
    } else {
        assert(nm == "csrrci"@);
        assert(nm.len() == 6);
        assert("csrrci"@[0] != "mulhsu"@[0]);
        assert("csrrci"@[0] != "fadd.s"@[0]);
        assert("csrrci"@[0] != "fsub.s"@[0]);
        assert("csrrci"@[0] != "fmul.s"@[0]);
        assert("csrrci"@[0] != "fdiv.s"@[0]);
        assert("csrrci"@[0] != "fmin.s"@[0]);
        assert("csrrci"@[0] != "fmax.s"@[0]);
        assert("csrrci"@[0] != "fadd.d"@[0]);
        assert("csrrci"@[0] != "fsub.d"@[0]);
        assert("csrrci"@[0] != "fmul.d"@[0]);
        assert("csrrci"@[0] != "fdiv.d"@[0]);
        assert("csrrci"@[0] != "fmin.d"@[0]);
        assert("csrrci"@[0] != "fmax.d"@[0]);
        assert("csrrci"@[1] != '.');
        assert(!spec_is_m_mnemonic(nm));
        assert(!spec_is_a_mnemonic(nm));
        assert(!spec_is_f_mnemonic(nm));
        assert(!spec_is_d_mnemonic(nm));
        assert(!spec_is_compressed_mnemonic(nm));
    }
}

/// The width-gated pseudo filter carries an RV64-only mnemonic.
pub proof fn lemma_pseudo_rv64_names(j: int)
    requires
        0 <= j < 1,
    ensures
        spec_is_rv64_only_mnemonic(pseudo_rv64_filter_at(j).name),
{
    reveal_strlit("sext.w");
    let nm = pseudo_rv64_filter_at(j).name;
    if j == 0 {
        assert(nm == "sext.w"@);
    }
}

/// The RV32-only compressed jump group carries an RV32-only mnemonic.
pub proof fn lemma_c_rv32_names(j: int)
    requires
        0 <= j < 1,
    ensures
        spec_is_rv32_only_mnemonic(c_rv32_filter_at(j).name),
{
    reveal_strlit("c.jal");
    let nm = c_rv32_filter_at(j).name;
    if j == 0 {
        assert(nm == "c.jal"@);
    }
}

/// Every entry of the RV32-only compressed floating-point group carries an RV32-only mnemonic.
pub proof fn lemma_c_rv32f_names(j: int)
    requires
        0 <= j < 4,
    ensures
        spec_is_rv32_only_mnemonic(c_rv32f_filter_at(j).name),
{
    reveal_strlit("c.flw");
    reveal_strlit("c.flwsp");
    reveal_strlit("c.fsw");
    reveal_strlit("c.fswsp");
    let nm = c_rv32f_filter_at(j).name;
    if j == 0 {
        assert(nm == "c.flwsp"@);
    } else if j == 1 {
        assert(nm == "c.fswsp"@);
    } else if j == 2 {
        assert(nm == "c.flw"@);
    } else {
        assert(nm == "c.fsw"@);
    }
}

/// Every entry of the RV64-only base group carries an RV64-only base mnemonic.
pub proof fn lemma_base_rv64_names(j: int)
    requires
        0 <= j < 12,
    ensures
        spec_is_rv64_base_mnemonic(base_rv64_filter_at(j).name),
{
    reveal_strlit("addiw");
    reveal_strlit("addw");
    reveal_strlit("ld");
    reveal_strlit("lwu");
    reveal_strlit("sd");
    reveal_strlit("slliw");
    reveal_strlit("sllw");
    reveal_strlit("sraiw");
    reveal_strlit("sraw");
    reveal_strlit("srliw");
    reveal_strlit("srlw");
    reveal_strlit("subw");
    let nm = base_rv64_filter_at(j).name;
    if j == 0 {
        assert(nm == "addiw"@);
    } else if j == 1 {
        assert(nm == "slliw"@);
    } else if j == 2 {
        assert(nm == "srliw"@);
    } else if j == 3 {
        assert(nm == "sraiw"@);
    } else if j == 4 {
        assert(nm == "addw"@);
    } else if j == 5 {
        assert(nm == "subw"@);
    } else if j == 6 {
        assert(nm == "sllw"@);
    } else if j == 7 {
        assert(nm == "srlw"@);
    } else if j == 8 {
        assert(nm == "sraw"@);
    } else if j == 9 {
        assert(nm == "lwu"@);
    } else if j == 10 {
        assert(nm == "ld"@);
    } else {
        assert(nm == "sd"@);
    }
}

/// Every entry of the RV64-only compressed group carries an RV64-only compressed mnemonic.
pub proof fn lemma_c_rv64_names(j: int)
    requires
        0 <= j < 7,
    ensures
        spec_is_rv64_compressed_mnemonic(c_rv64_filter_at(j).name),
{
    reveal_strlit("c.addiw");
    reveal_strlit("c.addw");
    reveal_strlit("c.ld");
    reveal_strlit("c.ldsp");
    reveal_strlit("c.sd");
    reveal_strlit("c.sdsp");
    reveal_strlit("c.subw");
    let nm = c_rv64_filter_at(j).name;
    if j == 0 {
        assert(nm == "c.ldsp"@);
    } else if j == 1 {
        assert(nm == "c.sdsp"@);
    } else if j == 2 {
        assert(nm == "c.ld"@);
    } else if j == 3 {
        assert(nm == "c.sd"@);
    } else if j == 4 {
        assert(nm == "c.addiw"@);
    } else if j == 5 {
        assert(nm == "c.addw"@);
    } else {
        assert(nm == "c.subw"@);
    }
}

/// Width gating: a table built for RV32 never carries an RV64-only
/// mnemonic — none of the RV64-only base ops, none of the RV64-only
/// compressed ops, and not the pseudo-instruction `sext.w` — whatever the
/// extension set and the pseudo-instruction toggle.
pub proof fn lemma_rv32_width_gating(
    isa_extensions: Extensions,
    enable_pseudo_instructions: bool,
    k: int,
)
    requires
        0 <= k < spec_filters(Xlen::Rv32, isa_extensions, enable_pseudo_instructions).len(),
    ensures
        !spec_is_rv64_only_mnemonic(
            spec_filters(Xlen::Rv32, isa_extensions, enable_pseudo_instructions)[k].name,
        ),
{
    let t = spec_filters(Xlen::Rv32, isa_extensions, enable_pseudo_instructions);
    let e = isa_extensions;
    let lp: int = if enable_pseudo_instructions {
        22
    } else {
        0
    };
    let lm: int = if e.spec_has_m() {
        13
    } else {
        0
    };
    let la: int = if e.spec_has_a() {
        22
    } else {
        0
    };
    let lf: int = if e.spec_has_f() {
        30
    } else {
        0
    };
    let ld: int = if e.spec_has_d() {
        32
    } else {
        0
    };
    let lcr: int = if enable_pseudo_instructions {
        1
    } else {
        0
    };
    let lcf: int = if e.spec_has_f() {
        4
    } else {
        0
    };
    let lcd: int = if e.spec_has_d() {
        4
    } else {
        0
    };
    let lc: int = if e.spec_has_c() {
        lcr + 1 + lcf + lcd + 26
    } else {
        0
    };
    assert(t.len() == lp + 52 + lm + la + lf + ld + lc);
    if k < lp {
        assert(t[k] == pseudo_filter_at(k));
        lemma_pseudo_filters_rv32_safe(k);
    } else if k < lp + 52 {
        assert(t[k] == base_global_filter_at(k - lp));
        lemma_base_global_filters_rv32_safe(k - lp);
    } else if k < lp + 52 + lm {
        assert(t[k] == m_ext_filter_at(k - lp - 52));
        lemma_m_ext_filters_rv32_safe(k - lp - 52);
    } else if k < lp + 52 + lm + la {
        assert(t[k] == a_ext_filter_at(k - lp - 52 - lm));
        lemma_a_ext_filters_rv32_safe(k - lp - 52 - lm);
    } else if k < lp + 52 + lm + la + lf {
        assert(t[k] == f_ext_filter_at(k - lp - 52 - lm - la));
        lemma_f_ext_filters_rv32_safe(k - lp - 52 - lm - la);
    } else if k < lp + 52 + lm + la + lf + ld {
        assert(t[k] == d_ext_filter_at(k - lp - 52 - lm - la - lf));
        lemma_d_ext_filters_rv32_safe(k - lp - 52 - lm - la - lf);
    } else {
        let c = k - lp - 52 - lm - la - lf - ld;
        if c < lcr {
            assert(t[k] == c_ret_filter_at(c));
            lemma_c_ret_filters_rv32_safe(c);
        } else if c < lcr + 1 {
            assert(t[k] == c_rv32_filter_at(c - lcr));
            lemma_c_rv32_filters_rv32_safe(c - lcr);
        } else if c < lcr + 1 + lcf {
            assert(t[k] == c_rv32f_filter_at(c - lcr - 1));
            lemma_c_rv32f_filters_rv32_safe(c - lcr - 1);
        } else if c < lcr + 1 + lcf + lcd {
            assert(t[k] == c_d_filter_at(c - lcr - 1 - lcf));
            lemma_c_d_filters_safe(c - lcr - 1 - lcf);
        } else {
            assert(t[k] == c_global_filter_at(c - lcr - 1 - lcf - lcd));
            lemma_c_global_filters_rv32_safe(c - lcr - 1 - lcf - lcd);
        }
    }
}

/// Width gating, the other direction: a table built for RV64 never carries
/// an RV32-only mnemonic — neither the compressed jump-and-link nor the
/// compressed single-precision load/store forms — whatever the extension
/// set and the pseudo-instruction toggle.
pub proof fn lemma_rv64_width_gating(
    isa_extensions: Extensions,
    enable_pseudo_instructions: bool,
    k: int,
)
    requires
        0 <= k < spec_filters(Xlen::Rv64, isa_extensions, enable_pseudo_instructions).len(),
    ensures
        !spec_is_rv32_only_mnemonic(
            spec_filters(Xlen::Rv64, isa_extensions, enable_pseudo_instructions)[k].name,
        ),
{
    let t = spec_filters(Xlen::Rv64, isa_extensions, enable_pseudo_instructions);
    let e = isa_extensions;
    let lp: int = if enable_pseudo_instructions {
        22
    } else {
        0
    };
    let lps: int = if enable_pseudo_instructions {
        1
    } else {
        0
    };
    let lm: int = if e.spec_has_m() {
        13
    } else {
        0
    };
    let la: int = if e.spec_has_a() {
        22
    } else {
        0
    };
    let lf: int = if e.spec_has_f() {
        30
    } else {
        0
    };
    let ld: int = if e.spec_has_d() {
        32
    } else {
        0
    };
    let lcr: int = if enable_pseudo_instructions {
        1
    } else {
        0
    };
    let lcd: int = if e.spec_has_d() {
        4
    } else {
        0
    };
    let lc: int = if e.spec_has_c() {
        lcr + 7 + lcd + 26
    } else {
        0
    };
    let base = lp + lps + 12 + 52;
    assert(t.len() == base + lm + la + lf + ld + lc);
    if k < lp {
        assert(t[k] == pseudo_filter_at(k));
        lemma_pseudo_filters_rv64_safe(k);
    } else if k < lp + lps {
        assert(t[k] == pseudo_rv64_filter_at(k - lp));
        lemma_pseudo_rv64_filters_rv64_safe(k - lp);
    } else if k < lp + lps + 12 {
        assert(t[k] == base_rv64_filter_at(k - lp - lps));
        lemma_base_rv64_filters_rv64_safe(k - lp - lps);
    } else if k < base {
        assert(t[k] == base_global_filter_at(k - lp - lps - 12));
        lemma_base_global_filters_rv64_safe(k - lp - lps - 12);
    } else if k < base + lm {
        assert(t[k] == m_ext_filter_at(k - base));
        lemma_m_ext_filters_rv64_safe(k - base);
    } else if k < base + lm + la {
        assert(t[k] == a_ext_filter_at(k - base - lm));
        lemma_a_ext_filters_rv64_safe(k - base - lm);
    } else if k < base + lm + la + lf {
        assert(t[k] == f_ext_filter_at(k - base - lm - la));
        lemma_f_ext_filters_rv64_safe(k - base - lm - la);
    } else if k < base + lm + la + lf + ld {
        assert(t[k] == d_ext_filter_at(k - base - lm - la - lf));
        lemma_d_ext_filters_rv64_safe(k - base - lm - la - lf);
    } else {
        let c = k - base - lm - la - lf - ld;
        if c < lcr {
            assert(t[k] == c_ret_filter_at(c));
            lemma_c_ret_filters_rv64_safe(c);
        } else if c < lcr + 7 {
            assert(t[k] == c_rv64_filter_at(c - lcr));
            lemma_c_rv64_filters_rv64_safe(c - lcr);
        } else if c < lcr + 7 + lcd {
            assert(t[k] == c_d_filter_at(c - lcr - 7));
            lemma_c_d_filters_rv64_safe(c - lcr - 7);
        } else {
            assert(t[k] == c_global_filter_at(c - lcr - 7 - lcd));
            lemma_c_global_filters_rv64_safe(c - lcr - 7 - lcd);
        }
    }
}

/// Width coverage, base part: a table built for RV64 carries every entry of
/// the RV64-only base group — `addiw` through `sd`.
pub proof fn lemma_rv64_width_coverage_base(
    isa_extensions: Extensions,
    enable_pseudo_instructions: bool,
    j: int,
)
    requires
        0 <= j < 12,
    ensures
        exists|k: int|
            0 <= k < spec_filters(Xlen::Rv64, isa_extensions, enable_pseudo_instructions).len()
                && #[trigger] spec_filters(Xlen::Rv64, isa_extensions, enable_pseudo_instructions)[k]
                == base_rv64_filter_at(j),
        spec_is_rv64_base_mnemonic(base_rv64_filter_at(j).name),
{
    let t = spec_filters(Xlen::Rv64, isa_extensions, enable_pseudo_instructions);
    let lp: int = if enable_pseudo_instructions {
        23
    } else {
        0
    };
    assert(t[lp + j] == base_rv64_filter_at(j));
    lemma_base_rv64_names(j);
}

/// Width coverage, pseudo part: a table built for RV64 with
/// pseudo-instructions enabled carries the `sext.w` filter.
pub proof fn lemma_rv64_width_coverage_pseudo(isa_extensions: Extensions)
    ensures
        exists|k: int|
            0 <= k < spec_filters(Xlen::Rv64, isa_extensions, true).len()
                && #[trigger] spec_filters(Xlen::Rv64, isa_extensions, true)[k]
                == pseudo_rv64_filter_at(0),
        spec_is_rv64_only_mnemonic(pseudo_rv64_filter_at(0).name),
{
    let t = spec_filters(Xlen::Rv64, isa_extensions, true);
    assert(t[22] == pseudo_rv64_filter_at(0));
    lemma_pseudo_rv64_names(0);
}

/// Width coverage, compressed part: a table built for RV64 with the
/// compressed extension present carries every entry of the RV64-only
/// compressed group — `c.ldsp` through `c.subw`.
pub proof fn lemma_rv64_width_coverage_compressed(
    isa_extensions: Extensions,
    enable_pseudo_instructions: bool,
    j: int,
)
    requires
        0 <= j < 7,
        isa_extensions.spec_has_c(),
    ensures
        exists|k: int|
            0 <= k < spec_filters(Xlen::Rv64, isa_extensions, enable_pseudo_instructions).len()
                && #[trigger] spec_filters(Xlen::Rv64, isa_extensions, enable_pseudo_instructions)[k]
                == c_rv64_filter_at(j),
        spec_is_rv64_compressed_mnemonic(c_rv64_filter_at(j).name),
{
    let t = spec_filters(Xlen::Rv64, isa_extensions, enable_pseudo_instructions);
    let e = isa_extensions;
    let lp: int = if enable_pseudo_instructions {
        23
    } else {
        0
    };
    let lm: int = if e.spec_has_m() {
        13
    } else {
        0
    };
    let la: int = if e.spec_has_a() {
        22
    } else {
        0
    };
    let lf: int = if e.spec_has_f() {
        30
    } else {
        0
    };
    let ld: int = if e.spec_has_d() {
        32
    } else {
        0
    };
    let lcr: int = if enable_pseudo_instructions {
        1
    } else {
        0
    };
    let off = lp + 12 + 52 + lm + la + lf + ld + lcr;
    assert(t[off + j] == c_rv64_filter_at(j));
    lemma_c_rv64_names(j);
}

/// Width coverage, the other direction: a table built for RV32 with the
/// compressed extension present carries the `c.jal` filter, which exists
/// only on RV32.
pub proof fn lemma_rv32_width_coverage_compressed(
    isa_extensions: Extensions,
    enable_pseudo_instructions: bool,
)
    requires
        isa_extensions.spec_has_c(),
    ensures
        exists|k: int|
            0 <= k < spec_filters(Xlen::Rv32, isa_extensions, enable_pseudo_instructions).len()
                && #[trigger] spec_filters(Xlen::Rv32, isa_extensions, enable_pseudo_instructions)[k]
                == c_rv32_filter_at(0),
        spec_is_rv32_only_mnemonic(c_rv32_filter_at(0).name),
{
    let t = spec_filters(Xlen::Rv32, isa_extensions, enable_pseudo_instructions);
    let e = isa_extensions;
    let lp: int = if enable_pseudo_instructions {
        22
    } else {
        0
    };
    let lm: int = if e.spec_has_m() {
        13
    } else {
        0
    };
    let la: int = if e.spec_has_a() {
        22
    } else {
        0
    };
    let lf: int = if e.spec_has_f() {
        30
    } else {
        0
    };
    let ld: int = if e.spec_has_d() {
        32
    } else {
        0
    };
    let lcr: int = if enable_pseudo_instructions {
        1
    } else {
        0
    };
    let off = lp + 52 + lm + la + lf + ld + lcr;
    assert(t[off] == c_rv32_filter_at(0));
    lemma_c_rv32_names(0);
}

/// Width coverage, compressed floating-point part: a table built for RV32
/// with the compressed and single-precision extensions present carries every
/// entry of the RV32-only compressed floating-point group — `c.flwsp`
/// through `c.fsw`.
pub proof fn lemma_rv32_width_coverage_compressed_fp(
    isa_extensions: Extensions,
    enable_pseudo_instructions: bool,
    j: int,
)
    requires
        0 <= j < 4,
        isa_extensions.spec_has_c(),
        isa_extensions.spec_has_f(),
    ensures
        exists|k: int|
            0 <= k < spec_filters(Xlen::Rv32, isa_extensions, enable_pseudo_instructions).len()
                && #[trigger] spec_filters(Xlen::Rv32, isa_extensions, enable_pseudo_instructions)[k]
                == c_rv32f_filter_at(j),
        spec_is_rv32_only_mnemonic(c_rv32f_filter_at(j).name),
{
    let t = spec_filters(Xlen::Rv32, isa_extensions, enable_pseudo_instructions);
    let e = isa_extensions;
    let lp: int = if enable_pseudo_instructions {
        22
    } else {
        0
    };
    let lm: int = if e.spec_has_m() {
        13
    } else {
        0
    };
    let la: int = if e.spec_has_a() {
        22
    } else {
        0
    };
    let ld: int = if e.spec_has_d() {
        32
    } else {
        0
    };
    let lcr: int = if enable_pseudo_instructions {
        1
    } else {
        0
    };
    let off = lp + 52 + lm + la + 30 + ld + lcr + 1;
    assert(t[off + j] == c_rv32f_filter_at(j));
    lemma_c_rv32f_names(j);
}

/// Extension gating: a table built for the base-only extension set carries
/// no mnemonic of the M, A, F, D or C extensions, whatever the word width
/// and the pseudo-instruction toggle.
pub proof fn lemma_extension_gating(xlen: Xlen, enable_pseudo_instructions: bool, k: int)
    requires
        0 <= k < spec_filters(xlen, Extensions::I, enable_pseudo_instructions).len(),
    ensures
        !spec_is_m_mnemonic(spec_filters(xlen, Extensions::I, enable_pseudo_instructions)[k].name),
        !spec_is_a_mnemonic(spec_filters(xlen, Extensions::I, enable_pseudo_instructions)[k].name),
        !spec_is_f_mnemonic(spec_filters(xlen, Extensions::I, enable_pseudo_instructions)[k].name),
        !spec_is_d_mnemonic(spec_filters(xlen, Extensions::I, enable_pseudo_instructions)[k].name),
        !spec_is_compressed_mnemonic(
            spec_filters(xlen, Extensions::I, enable_pseudo_instructions)[k].name,
        ),
{
    let t = spec_filters(xlen, Extensions::I, enable_pseudo_instructions);
    let lp: int = if enable_pseudo_instructions {
        22
    } else {
        0
    };
    let lps: int = if xlen is Rv64 && enable_pseudo_instructions {
        1
    } else {
        0
    };
    let lr: int = if xlen is Rv64 {
        12
    } else {
        0
    };
    assert(t.len() == lp + lps + lr + 52);
    if k < lp {
        assert(t[k] == pseudo_filter_at(k));
        lemma_pseudo_filters_base_only(k);
    } else if k < lp + lps {
        assert(t[k] == pseudo_rv64_filter_at(k - lp));
        lemma_pseudo_rv64_filters_base_only(k - lp);
    } else if k < lp + lps + lr {
        assert(t[k] == base_rv64_filter_at(k - lp - lps));
        lemma_base_rv64_filters_base_only(k - lp - lps);
    } else {
        assert(t[k] == base_global_filter_at(k - lp - lps - lr));
        lemma_base_global_filters_base_only(k - lp - lps - lr);
    }
}

} // verus!
