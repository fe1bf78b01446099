use vstd::prelude::*;

use crate::cpu::cpu_core::CpuMode;
use vstd::string::StringSliceAdditionalSpecFns;
use crate::error::EmuError;
use crate::isa::rv32_zicsr::zicsr::{rv32_zicsr_set, spec_rv32_zicsr_set};
use crate::isa::rv32_zifencei::zifencei::{rv32_zifencei_set, spec_rv32_zifencei_set};
use crate::isa::rv32i::control_transfer::{rv32i_set_uj, spec_rv32i_set_uj};
use crate::isa::rv32i::environment::{rv32i_set_e, spec_rv32i_set_e};
use crate::isa::rv32i::immediate::{rv32i_set_i, spec_rv32i_set_i};
use crate::isa::rv32i::integer_reg_reg::{rv32i_set_r, spec_rv32i_set_r};
use crate::isa::rv32i::load_store::{rv32i_set_ls, spec_rv32i_set_ls};
use crate::isa::rv32m::muldiv_reg_reg::{rv32m_set_r, spec_rv32m_set_r};
use crate::isa::rv64_privileged::privileged::{rv64_privileged_set, spec_rv64_privileged_set};
use crate::isa::rv64_zicsr::zicsr::{rv64_zicsr_set, spec_rv64_zicsr_set};
use crate::isa::rv64a::amo::{rv64a_set_amo, spec_rv64a_set_amo};
use crate::isa::rv64i::environment::{rv64i_set_e, spec_rv64i_set_e};
use crate::isa::rv64i::integer_reg_reg::{rv64i_set_r, spec_rv64i_set_r};
use crate::isa::rv64m::muldiv_reg_reg::{rv64m_set_r, spec_rv64m_set_r};
use crate::isa::rv64fd::conversion::{rv64f_set_conversion, spec_rv64f_set_conversion};
use crate::isa::rv64fd::load_store::{rv64f_set_ls, spec_rv64f_set_ls};
use crate::isa::rv64fd::mov::{rv64f_set_mov, spec_rv64f_set_mov};
use crate::isa::rv64fd::muldiv::{rv64f_set_muldiv, spec_rv64f_set_muldiv};
use crate::utils::binary_utils::sext12;

verus! {

pub const OPCODE_MASK: u32 = 0x7f;
pub const FUNC3_POS: u32 = 12;
pub const FUNC3_MASK: u32 = 0x7000;
pub const FUNC7_POS: u32 = 25;
pub const FUNC7_MASK: u32 = 0xfe00_0000;
pub const TOP6_POS: u32 = 26;
pub const TOP6_MASK: u32 = 0xfc00_0000;
pub const FUNC12_POS: u32 = 20;
pub const FUNC12_MASK: u32 = 0xfff0_0000;
pub const RS2_POS: u32 = 20;
pub const RS2_MASK: u32 = 0x01f0_0000;
pub const FUNC2_POS: u32 = 25;
pub const FUNC2_MASK: u32 = 0x0600_0000;

pub const U7_MASK: u8 = 0x7f;
pub const U6_MASK: u8 = 0x3f;
pub const U5_MASK: u8 = 0x1f;
pub const U3_MASK: u8 = 0x7;
pub const U12_MASK: u16 = 0xfff;

pub const FUNC3_ORI: u8 = 0x6;
pub const FUNC3_XORI: u8 = 0x4;

/// The bit field `[lo, lo + width)` of `w`, shifted down to bit 0.
pub open spec fn field(w: u32, lo: u32, mask: u32) -> u32 {
    (w >> lo) & mask
}

/// Two's-complement value of the low `n` bits of `v`.
pub open spec fn sext(v: u32, n: nat) -> int
    recommends
        0 < n <= 32,
{
    let low = (v as int) % vstd::arithmetic::power2::pow2(n) as int;
    if low >= vstd::arithmetic::power2::pow2((n - 1) as nat) {
        low - vstd::arithmetic::power2::pow2(n)
    } else {
        low
    }
}

/// A value with some number of significant low bits, held in a wider integer.
pub trait BitValue<S>: Sized {
    /// Whether `value` has no bit set above the significant ones.
    spec fn fits(value: S) -> bool;

    /// The stored integer.
    spec fn bits(&self) -> S;

    /// Wraps `value`, which must fit the field.
    fn new(value: S) -> (r: Self)
        requires
            Self::fits(value),
        ensures
            r.bits() == value,
    ;

    /// The stored integer.
    fn value(&self) -> (r: S)
        ensures
            r == self.bits(),
    ;

    /// The largest value of the width.
    fn max_value() -> Self;

    /// Zero.
    fn min_value() -> Self;
}

/// A 3-bit field.
#[derive(Clone, Copy, PartialEq, Eq, Structural, Debug, Default)]
pub struct U3(pub u8);

impl BitValue<u8> for U3 {
    open spec fn fits(value: u8) -> bool {
        value & !U3_MASK == 0
    }

    open spec fn bits(&self) -> u8 {
        self.0
    }

    fn new(value: u8) -> (r: U3) {
        assert(value & !U3_MASK == 0 ==> value & U3_MASK == value) by (bit_vector);
        U3(value & U3_MASK)
    }

    fn value(&self) -> (r: u8) {
        self.0
    }

    fn max_value() -> (r: U3)
        ensures
            r.0 == 7,
    {
        U3(U3_MASK)
    }

    fn min_value() -> (r: U3)
        ensures
            r.0 == 0,
    {
        U3(0)
    }
}

/// A 5-bit field (a register number or a small immediate).
#[derive(Clone, Copy, PartialEq, Eq, Structural, Debug, Default)]
pub struct U5(pub u8);

impl BitValue<u8> for U5 {
    open spec fn fits(value: u8) -> bool {
        value & !U5_MASK == 0
    }

    open spec fn bits(&self) -> u8 {
        self.0
    }

    fn new(value: u8) -> (r: U5) {
        assert(value & !U5_MASK == 0 ==> value & U5_MASK == value) by (bit_vector);
        U5(value & U5_MASK)
    }

    fn value(&self) -> (r: u8) {
        self.0
    }

    fn max_value() -> (r: U5)
        ensures
            r.0 == 31,
    {
        U5(U5_MASK)
    }

    fn min_value() -> (r: U5)
        ensures
            r.0 == 0,
    {
        U5(0)
    }
}

/// A 7-bit field.
#[derive(Clone, Copy, PartialEq, Eq, Structural, Debug, Default)]
pub struct U7(pub u8);

impl BitValue<u8> for U7 {
    open spec fn fits(value: u8) -> bool {
        value & !U7_MASK == 0
    }

    open spec fn bits(&self) -> u8 {
        self.0
    }

    fn new(value: u8) -> (r: U7) {
        assert(value & !U7_MASK == 0 ==> value & U7_MASK == value) by (bit_vector);
        U7(value & U7_MASK)
    }

    fn value(&self) -> (r: u8) {
        self.0
    }

    fn max_value() -> (r: U7)
        ensures
            r.0 == 127,
    {
        U7(U7_MASK)
    }

    fn min_value() -> (r: U7)
        ensures
            r.0 == 0,
    {
        U7(0)
    }
}

/// A 12-bit field (an I-type immediate or a CSR number).
#[derive(Clone, Copy, PartialEq, Eq, Structural, Debug, Default)]
pub struct U12(pub u16);

impl BitValue<u16> for U12 {
    open spec fn fits(value: u16) -> bool {
        value & 0xf000 == 0
    }

    open spec fn bits(&self) -> u16 {
        self.0
    }

    fn new(value: u16) -> (r: U12) {
        assert(value & 0xf000 == 0 ==> value & !0xf000u16 == value) by (bit_vector);
        U12(value & !0xf000u16)
    }

    fn value(&self) -> (r: u16) {
        self.0
    }

    fn max_value() -> (r: U12)
        ensures
            r.0 == 0xfff,
    {
        assert(!0xf000u16 == 0xfffu16) by (bit_vector);
        U12(!0xf000u16)
    }

    fn min_value() -> (r: U12)
        ensures
            r.0 == 0,
    {
        U12(0)
    }
}

impl U12 {
    /// The low 12 bits read as a two's-complement number.
    pub fn as_i32(&self) -> (r: i32)
        ensures
            r == sext12(self.0),
    {
        let v = self.0;
        let shifted: u16 = v << 4u16;
        let r: i32 = ((shifted as i16) >> 4u16) as i32;
        assert(r == (if (v & 0xfff) >= 0x800 { (v & 0xfff) - 0x1000 } else { (v & 0xfff) as int })) by (bit_vector)
            requires
                shifted == v << 4u16,
                r == ((shifted as i16) >> 4u16) as i32,
        ;
        r
    }

    /// The low 12 bits read as a two's-complement number.
    pub fn as_i64(&self) -> (r: i64)
        ensures
            r == sext12(self.0),
    {
        self.as_i32() as i64
    }
}

/// The scattered J-type immediate of `raw`, assembled at its bit positions (bit 0 is zero).
pub open spec fn uj_bits(raw: u32) -> u32 {
    (((raw >> 31) & 1) << 20) | (((raw >> 21) & 0x3ff) << 1) | (((raw >> 20) & 1) << 11) | (((raw
        >> 12) & 0xff) << 12)
}

/// The J-type immediate of a jump instruction (21 significant bits).
#[derive(Clone, Copy, PartialEq, Eq, Structural, Debug, Default)]
pub struct UJImmediate(u32);

impl View for UJImmediate {
    type V = u32;

    closed spec fn view(&self) -> u32 {
        self.0
    }
}

impl UJImmediate {
    /// Gathers the J-type immediate from an instruction word.
    pub fn from(raw_operation: u32) -> (r: UJImmediate)
        ensures
            r@ == uj_bits(raw_operation),
    {
        let mut filled: u32 = 0;
        let imm_20: bool = (raw_operation >> 31u32) & 1 == 1;
        let imm_10_1: u32 = (raw_operation >> 21u32) & 0x3ff;
        let imm_11: bool = (raw_operation >> 20u32) & 1 == 1;
        let imm_19_12: u32 = (raw_operation >> 12u32) & 0xff;
        let b20: u32 = if imm_20 { 1 } else { 0 };
        let b11: u32 = if imm_11 { 1 } else { 0 };
        filled = filled | (b20 << 20u32);
        filled = filled | (imm_10_1 << 1u32);
        filled = filled | (b11 << 11u32);
        filled = filled | (imm_19_12 << 12u32);
        let r = filled & 0x3ffffe;
        assert(r == uj_bits(raw_operation)) by (bit_vector)
            requires
                b20 == (if (raw_operation >> 31u32) & 1 == 1 { 1u32 } else { 0u32 }),
                b11 == (if (raw_operation >> 20u32) & 1 == 1 { 1u32 } else { 0u32 }),
                imm_10_1 == (raw_operation >> 21u32) & 0x3ff,
                imm_19_12 == (raw_operation >> 12u32) & 0xff,
                r == (((((0u32 | (b20 << 20u32)) | (imm_10_1 << 1u32)) | (b11 << 11u32)) | (
                imm_19_12 << 12u32)) & 0x3ffffe),
        ;
        UJImmediate(r)
    }

    /// The immediate as a signed offset (21-bit two's complement).
    pub fn as_i32(&self) -> (r: i32)
        ensures
            r == sext(self@, 21),
    {
        let v = self.0;
        let shifted: u32 = v << 11u32;
        let r: i32 = (shifted as i32) >> 11u32;
        proof {
            lemma_sext_shift(v, 21);
        }
        r
    }

    /// The immediate as a signed offset (21-bit two's complement).
    pub fn as_i64(&self) -> (r: i64)
        ensures
            r == sext(self@, 21),
    {
        self.as_i32() as i64
    }
}

/// The S-type immediate (12 significant bits).
#[derive(Clone, Copy, PartialEq, Eq, Structural, Debug, Default)]
pub struct SImmediate(pub U12);

/// The S-type immediate bits of `raw`.
pub open spec fn s_bits(raw: u32) -> u16 {
    ((((raw >> 25) & 0x7f) << 5) | ((raw >> 7) & 0x1f)) as u16
}

impl SImmediate {
    /// Gathers the S-type immediate from an instruction word.
    pub fn from(raw_operation: u32) -> (r: SImmediate)
        ensures
            r.0.0 == s_bits(raw_operation),
    {
        let mut filled: u32 = 0;
        let imm_11_5: u32 = (raw_operation >> 25u32) & (U7_MASK as u32);
        let imm_4_0: u32 = (raw_operation >> 7u32) & (U5_MASK as u32);
        filled = filled | (imm_11_5 << 5u32);
        filled = filled | imm_4_0;
        let v: u16 = (filled & 0xfff) as u16;
        assert(v & 0xf000 == 0 && v == s_bits(raw_operation)) by (bit_vector)
            requires
                imm_11_5 == (raw_operation >> 25u32) & 0x7f,
                imm_4_0 == (raw_operation >> 7u32) & 0x1f,
                v == ((((0u32 | (imm_11_5 << 5u32)) | imm_4_0) & 0xfff) as u16),
        ;
        SImmediate(U12::new(v))
    }

    /// The immediate as a signed offset.
    pub fn as_i32(&self) -> (r: i32)
        ensures
            r == sext12(self.0.0),
    {
        self.0.as_i32()
    }

    /// The immediate as a signed offset.
    pub fn as_i64(&self) -> (r: i64)
        ensures
            r == sext12(self.0.0),
    {
        self.0.as_i64()
    }
}

/// The B-type immediate bits of `raw`, at their positions (bit 0 is zero).
pub open spec fn sb_bits(raw: u32) -> u32 {
    (((raw >> 31) & 1) << 12) | (((raw >> 8) & 0xf) << 1) | (((raw >> 7) & 1) << 11) | (((raw
        >> 25) & 0x3f) << 5)
}

/// The B-type immediate of a branch (13 significant bits).
#[derive(Clone, Copy, PartialEq, Eq, Structural, Debug, Default)]
pub struct SBImmediate(u32);

impl View for SBImmediate {
    type V = u32;

    closed spec fn view(&self) -> u32 {
        self.0
    }
}

impl SBImmediate {
    /// Gathers the B-type immediate from an instruction word.
    pub fn from(raw_operation: u32) -> (r: SBImmediate)
        ensures
            r@ == sb_bits(raw_operation),
    {
        let mut filled: u32 = 0;
        let imm_12: bool = (raw_operation >> 31u32) & 1 == 1;
        let imm_4_1: u32 = (raw_operation >> 8u32) & 0xf;
        let imm_11: bool = (raw_operation >> 7u32) & 1 == 1;
        let imm_10_5: u32 = (raw_operation >> 25u32) & 0x3f;
        let b12: u32 = if imm_12 { 1 } else { 0 };
        let b11: u32 = if imm_11 { 1 } else { 0 };
        filled = filled | (b12 << 12u32);
        filled = filled | (imm_4_1 << 1u32);
        filled = filled | (b11 << 11u32);
        filled = filled | (imm_10_5 << 5u32);
        filled = filled & !((0x7u32 << 13u32) | 1u32);
        let r = filled;
        assert(r == sb_bits(raw_operation)) by (bit_vector)
            requires
                b12 == (if (raw_operation >> 31u32) & 1 == 1 { 1u32 } else { 0u32 }),
                b11 == (if (raw_operation >> 7u32) & 1 == 1 { 1u32 } else { 0u32 }),
                imm_4_1 == (raw_operation >> 8u32) & 0xf,
                imm_10_5 == (raw_operation >> 25u32) & 0x3f,
                r == (((((0u32 | (b12 << 12u32)) | (imm_4_1 << 1u32)) | (b11 << 11u32)) | (
                imm_10_5 << 5u32)) & !((0x7u32 << 13u32) | 1u32)),
        ;
        SBImmediate(r)
    }

    /// The immediate as a signed offset (13-bit two's complement).
    pub fn as_i32(&self) -> (r: i32)
        ensures
            r == sext(self@, 13),
    {
        let v = self.0;
        let shifted: u32 = v << 19u32;
        let r: i32 = (shifted as i32) >> 19u32;
        proof {
            lemma_sext_shift(v, 13);
        }
        r
    }

    /// The immediate as a signed offset (13-bit two's complement).
    pub fn as_i64(&self) -> (r: i64)
        ensures
            r == sext(self@, 13),
    {
        self.as_i32() as i64
    }

    /// The raw immediate bits.
    pub fn as_u32(&self) -> (r: u32)
        ensures
            r == self@,
    {
        self.0
    }

    /// The raw immediate bits.
    pub fn as_u64(&self) -> (r: u64)
        ensures
            r == self@,
    {
        self.0 as u64
    }
}

/// Shifting the low `n` bits of `v` to the top and back arithmetically sign-extends them.
pub proof fn lemma_sext_shift(v: u32, n: u32)
    requires
        n == 13 || n == 21,
    ensures
        (((v << (32 - n) as u32) as i32) >> (32 - n) as u32) == sext(v, n as nat),
{
    vstd::arithmetic::power2::lemma2_to64();
    if n == 13 {
        let r: i32 = ((v << 19u32) as i32) >> 19u32;
        assert(r == (if (v & 0x1fff) >= 0x1000 { (v & 0x1fff) - 0x2000 } else { (v & 0x1fff) as int })) by (bit_vector)
            requires
                r == ((v << 19u32) as i32) >> 19u32,
        ;
        assert(v & 0x1fff == v % 0x2000) by (bit_vector);
    } else {
        let r: i32 = ((v << 11u32) as i32) >> 11u32;
        assert(r == (if (v & 0x1fffff) >= 0x100000 { (v & 0x1fffff) - 0x200000 } else { (v & 0x1fffff) as int })) by (bit_vector)
            requires
                r == ((v << 11u32) as i32) >> 11u32,
        ;
        assert(v & 0x1fffff == v % 0x200000) by (bit_vector);
    }
}

/// Fields of an R-type instruction.
#[derive(Clone, Copy, PartialEq, Eq, Structural, Debug, Default)]
pub struct RInstructionData {
    pub rd: U5,
    pub func3: U3,
    pub rs1: U5,
    pub rs2: U5,
    pub func7: U7,
}

/// Fields of an I-type instruction.
#[derive(Clone, Copy, PartialEq, Eq, Structural, Debug, Default)]
pub struct IInstructionData {
    pub rd: U5,
    pub func3: U3,
    pub rs1: U5,
    pub imm: U12,
}

/// Fields of an S-type instruction.
#[derive(Clone, Copy, PartialEq, Eq, Structural, Debug, Default)]
pub struct SInstructionData {
    pub func3: U3,
    pub rs1: U5,
    pub rs2: U5,
    pub imm: SImmediate,
}

/// Fields of a B-type instruction.
#[derive(Clone, Copy, PartialEq, Eq, Structural, Debug, Default)]
pub struct SBInstructionData {
    pub func3: U3,
    pub rs1: U5,
    pub rs2: U5,
    pub imm: SBImmediate,
}

/// Fields of a U-type instruction.
#[derive(Clone, Copy, PartialEq, Eq, Structural, Debug, Default)]
pub struct UInstructionData {
    pub rd: U5,
    pub imm: u32,
}

/// Fields of a J-type instruction.
#[derive(Clone, Copy, PartialEq, Eq, Structural, Debug, Default)]
pub struct UJInstructionData {
    pub rd: U5,
    pub imm: UJImmediate,
}

/// The fields of an instruction of any format.
#[derive(Clone, Copy, PartialEq, Eq, Structural, Debug)]
pub enum InstructionData {
    R(RInstructionData),
    I(IInstructionData),
    S(SInstructionData),
    SB(SBInstructionData),
    U(UInstructionData),
    UJ(UJInstructionData),
}

/// The encoding format of an instruction.
#[derive(Clone, Copy, PartialEq, Eq, Structural, Debug)]
pub enum InstructionType {
    R,
    I,
    S,
    SB,
    U,
    UJ,
}

/// A raw 32-bit instruction word.
#[derive(Clone, Copy, PartialEq, Eq, Structural, Debug)]
pub struct Word(pub u32);

/// The I-type fields of `w`.
pub open spec fn spec_parse_i(w: u32) -> IInstructionData {
    IInstructionData {
        rd: U5(field(w, 7, 0x1f) as u8),
        func3: U3(field(w, 12, 0x7) as u8),
        rs1: U5(field(w, 15, 0x1f) as u8),
        imm: U12(field(w, 20, 0xfff) as u16),
    }
}

/// The R-type fields of `w`.
pub open spec fn spec_parse_r(w: u32) -> RInstructionData {
    RInstructionData {
        rd: U5(field(w, 7, 0x1f) as u8),
        func3: U3(field(w, 12, 0x7) as u8),
        rs1: U5(field(w, 15, 0x1f) as u8),
        rs2: U5(field(w, 20, 0x1f) as u8),
        func7: U7(field(w, 25, 0x7f) as u8),
    }
}

/// Splits an I-type word into its fields.
pub fn parse_instruction_i(word: &Word) -> (r: IInstructionData)
    ensures
        r == spec_parse_i(word.0),
{
    let w = word.0;
    let rd = ((w >> 7u32) as u8) & U5_MASK;
    let func3 = ((w >> 12u32) as u8) & U3_MASK;
    let rs1 = ((w >> 15u32) as u8) & U5_MASK;
    let imm = ((w >> 20u32) as u16) & 0xfff;
    assert(rd == field(w, 7, 0x1f) as u8 && func3 == field(w, 12, 0x7) as u8 && rs1 == field(
        w,
        15,
        0x1f,
    ) as u8 && imm == field(w, 20, 0xfff) as u16) by (bit_vector)
        requires
            rd == ((w >> 7u32) as u8) & 0x1f,
            func3 == ((w >> 12u32) as u8) & 0x7,
            rs1 == ((w >> 15u32) as u8) & 0x1f,
            imm == ((w >> 20u32) as u16) & 0xfff,
    ;
    IInstructionData { rd: U5(rd), func3: U3(func3), rs1: U5(rs1), imm: U12(imm) }
}

/// Splits a U-type word into its fields; the immediate keeps its upper 20 bits in place.
pub fn parse_instruction_u(word: &Word) -> (r: UInstructionData)
    ensures
        r.rd.0 == field(word.0, 7, 0x1f),
        r.imm == word.0 & 0xffff_f000,
{
    let w = word.0;
    let rd = ((w >> 7u32) as u8) & U5_MASK;
    assert(rd == field(w, 7, 0x1f)) by (bit_vector)
        requires
            rd == ((w >> 7u32) as u8) & 0x1f,
    ;
    let mask: u32 = 0xffff_ffffu32 << 12u32;
    assert(mask == 0xffff_f000u32) by (bit_vector)
        requires
            mask == 0xffff_ffffu32 << 12u32,
    ;
    UInstructionData { rd: U5(rd), imm: w & mask }
}

/// Splits a J-type word into its fields.
pub fn parse_instruction_uj(word: &Word) -> (r: UJInstructionData)
    ensures
        r.rd.0 == field(word.0, 7, 0x1f),
        r.imm@ == uj_bits(word.0),
{
    let w = word.0;
    let rd = ((w >> 7u32) as u8) & U5_MASK;
    assert(rd == field(w, 7, 0x1f)) by (bit_vector)
        requires
            rd == ((w >> 7u32) as u8) & 0x1f,
    ;
    UJInstructionData { rd: U5(rd), imm: UJImmediate::from(w) }
}

/// Splits an S-type word into its fields.
pub fn parse_instruction_s(word: &Word) -> (r: SInstructionData)
    ensures
        r.func3.0 == field(word.0, 12, 0x7),
        r.rs1.0 == field(word.0, 15, 0x1f),
        r.rs2.0 == field(word.0, 20, 0x1f),
        r.imm.0.0 == s_bits(word.0),
{
    let w = word.0;
    let func3 = ((w >> 12u32) as u8) & U3_MASK;
    let rs1 = ((w >> 15u32) as u8) & U5_MASK;
    let rs2 = ((w >> 20u32) as u8) & U5_MASK;
    assert(func3 == field(w, 12, 0x7) && rs1 == field(w, 15, 0x1f) && rs2 == field(w, 20, 0x1f))
        by (bit_vector)
        requires
            func3 == ((w >> 12u32) as u8) & 0x7,
            rs1 == ((w >> 15u32) as u8) & 0x1f,
            rs2 == ((w >> 20u32) as u8) & 0x1f,
    ;
    SInstructionData { func3: U3(func3), rs1: U5(rs1), rs2: U5(rs2), imm: SImmediate::from(w) }
}

/// Splits a B-type word into its fields.
pub fn parse_instruction_sb(word: &Word) -> (r: SBInstructionData)
    ensures
        r.func3.0 == field(word.0, 12, 0x7),
        r.rs1.0 == field(word.0, 15, 0x1f),
        r.rs2.0 == field(word.0, 20, 0x1f),
        r.imm@ == sb_bits(word.0),
{
    let w = word.0;
    let func3 = ((w >> 12u32) as u8) & U3_MASK;
    let rs1 = ((w >> 15u32) as u8) & U5_MASK;
    let rs2 = ((w >> 20u32) as u8) & U5_MASK;
    assert(func3 == field(w, 12, 0x7) && rs1 == field(w, 15, 0x1f) && rs2 == field(w, 20, 0x1f))
        by (bit_vector)
        requires
            func3 == ((w >> 12u32) as u8) & 0x7,
            rs1 == ((w >> 15u32) as u8) & 0x1f,
            rs2 == ((w >> 20u32) as u8) & 0x1f,
    ;
    SBInstructionData { func3: U3(func3), rs1: U5(rs1), rs2: U5(rs2), imm: SBImmediate::from(w) }
}

/// Splits an R-type word into its fields.
pub fn parse_instruction_r(word: &Word) -> (r: RInstructionData)
    ensures
        r == spec_parse_r(word.0),
{
    let w = word.0;
    let rd = ((w >> 7u32) as u8) & U5_MASK;
    let func3 = ((w >> 12u32) as u8) & U3_MASK;
    let rs1 = ((w >> 15u32) as u8) & U5_MASK;
    let rs2 = ((w >> 20u32) as u8) & U5_MASK;
    let func7 = ((w >> 25u32) as u8) & U7_MASK;
    assert(rd == field(w, 7, 0x1f) as u8 && func3 == field(w, 12, 0x7) as u8 && rs1 == field(
        w,
        15,
        0x1f,
    ) as u8 && rs2 == field(w, 20, 0x1f) as u8 && func7 == field(w, 25, 0x7f) as u8)
        by (bit_vector)
        requires
            rd == ((w >> 7u32) as u8) & 0x1f,
            func3 == ((w >> 12u32) as u8) & 0x7,
            rs1 == ((w >> 15u32) as u8) & 0x1f,
            rs2 == ((w >> 20u32) as u8) & 0x1f,
            func7 == ((w >> 25u32) as u8) & 0x7f,
    ;
    RInstructionData { rd: U5(rd), func3: U3(func3), rs1: U5(rs1), rs2: U5(rs2), func7: U7(func7) }
}

/// Splits a word into the fields of the given format.
pub fn parse_instruction(word: &Word, instruction_type: InstructionType) -> (r: InstructionData)
    ensures
        match (instruction_type, r) {
            (InstructionType::R, InstructionData::R(d)) => d == spec_parse_r(word.0),
            (InstructionType::I, InstructionData::I(d)) => d == spec_parse_i(word.0),
            (InstructionType::S, InstructionData::S(d)) => d.func3.0 == field(word.0, 12, 0x7)
                && d.rs1.0 == field(word.0, 15, 0x1f) && d.rs2.0 == field(word.0, 20, 0x1f)
                && d.imm.0.0 == s_bits(word.0),
            (InstructionType::SB, InstructionData::SB(d)) => d.func3.0 == field(word.0, 12, 0x7)
                && d.rs1.0 == field(word.0, 15, 0x1f) && d.rs2.0 == field(word.0, 20, 0x1f)
                && d.imm@ == sb_bits(word.0),
            (InstructionType::U, InstructionData::U(d)) => d.rd.0 == field(word.0, 7, 0x1f)
                && d.imm == word.0 & 0xffff_f000,
            (InstructionType::UJ, InstructionData::UJ(d)) => d.rd.0 == field(word.0, 7, 0x1f)
                && d.imm@ == uj_bits(word.0),
            _ => false,
        },
{
    match instruction_type {
        InstructionType::R => InstructionData::R(parse_instruction_r(word)),
        InstructionType::I => InstructionData::I(parse_instruction_i(word)),
        InstructionType::S => InstructionData::S(parse_instruction_s(word)),
        InstructionType::SB => InstructionData::SB(parse_instruction_sb(word)),
        InstructionType::U => InstructionData::U(parse_instruction_u(word)),
        InstructionType::UJ => InstructionData::UJ(parse_instruction_uj(word)),
    }
}

/// Registers named by the RISC-V calling convention.
#[derive(Clone, Copy, PartialEq, Eq, Structural, Debug)]
pub enum ABIRegister {
    Zero,
    RA,
    SP,
    QP,
    TP,
    A(u32),
    S(u32),
    T(u32),
}

/// The ABI name of register `x`, for `x < 32`.
pub open spec fn spec_abi_register(x: u32) -> ABIRegister {
    if x == 0 {
        ABIRegister::Zero
    } else if x == 1 {
        ABIRegister::RA
    } else if x == 2 {
        ABIRegister::SP
    } else if x == 3 {
        ABIRegister::QP
    } else if x == 4 {
        ABIRegister::TP
    } else if 5 <= x <= 7 {
        ABIRegister::T((x - 5) as u32)
    } else if 8 <= x <= 9 {
        ABIRegister::S((x - 8) as u32)
    } else if 10 <= x <= 17 {
        ABIRegister::A((x - 10) as u32)
    } else if 18 <= x <= 27 {
        ABIRegister::S((2 + x - 18) as u32)
    } else {
        ABIRegister::T((3 + x - 28) as u32)
    }
}

/// The register number of an ABI register.
pub open spec fn spec_x_reg_id(r: ABIRegister) -> int {
    match r {
        ABIRegister::Zero => 0,
        ABIRegister::RA => 1,
        ABIRegister::SP => 2,
        ABIRegister::QP => 3,
        ABIRegister::TP => 4,
        ABIRegister::A(id) => 10 + id,
        ABIRegister::S(id) => if id < 2 {
            8 + id
        } else {
            18 + id - 2
        },
        ABIRegister::T(id) => if id < 3 {
            5 + id
        } else {
            28 + id - 3
        },
    }
}

/// Whether the index carried by an ABI register names one of the 32 registers.
pub open spec fn abi_register_valid(r: ABIRegister) -> bool {
    match r {
        ABIRegister::A(id) => id < 8,
        ABIRegister::S(id) => id < 12,
        ABIRegister::T(id) => id < 7,
        _ => true,
    }
}

/// The register number of an ABI register can be computed without overflow: the index it
/// carries is not so large that the number passes `u32::MAX`.
pub open spec fn abi_register_fits(r: ABIRegister) -> bool {
    match r {
        ABIRegister::A(id) => id <= u32::MAX - 10,
        ABIRegister::S(id) => id < 2 || id <= u32::MAX - 18,
        ABIRegister::T(id) => id < 3 || id <= u32::MAX - 28,
        _ => true,
    }
}

impl ABIRegister {
    /// The ABI register of register number `x_reg_id`; numbers from 32 up are refused.
    pub fn from(x_reg_id: u32) -> (r: Result<ABIRegister, EmuError>)
        ensures
            x_reg_id < 32 ==> r == Ok::<ABIRegister, EmuError>(spec_abi_register(x_reg_id)),
            x_reg_id >= 32 ==> r == Err::<ABIRegister, EmuError>(EmuError::InvalidRegister(x_reg_id)),
    {
        if x_reg_id == 0 {
            Ok(ABIRegister::Zero)
        } else if x_reg_id == 1 {
            Ok(ABIRegister::RA)
        } else if x_reg_id == 2 {
            Ok(ABIRegister::SP)
        } else if x_reg_id == 3 {
            Ok(ABIRegister::QP)
        } else if x_reg_id == 4 {
            Ok(ABIRegister::TP)
        } else if x_reg_id <= 7 {
            Ok(ABIRegister::T(x_reg_id - 5))
        } else if x_reg_id <= 9 {
            Ok(ABIRegister::S(x_reg_id - 8))
        } else if x_reg_id <= 17 {
            Ok(ABIRegister::A(x_reg_id - 10))
        } else if x_reg_id <= 27 {
            Ok(ABIRegister::S(2 + x_reg_id - 18))
        } else if x_reg_id <= 31 {
            Ok(ABIRegister::T(3 + x_reg_id - 28))
        } else {
            Err(EmuError::InvalidRegister(x_reg_id))
        }
    }

    /// The register number of this ABI register.
    pub fn to_x_reg_id(&self) -> (r: u32)
        requires
            abi_register_fits(*self),
        ensures
            r == spec_x_reg_id(*self),
    {
        match self {
            ABIRegister::Zero => 0,
            ABIRegister::RA => 1,
            ABIRegister::SP => 2,
            ABIRegister::QP => 3,
            ABIRegister::TP => 4,
            ABIRegister::A(id) => 10 + *id,
            ABIRegister::S(id) => {
                if *id < 2 {
                    8 + *id
                } else {
                    18 + *id - 2
                }
            },
            ABIRegister::T(id) => {
                if *id < 3 {
                    5 + *id
                } else {
                    28 + *id - 3
                }
            },
        }
    }
}

/// Naming a register by its ABI name and back gives the register number again.
pub proof fn lemma_abi_register_round_trip(x: u32)
    requires
        x < 32,
    ensures
        abi_register_valid(spec_abi_register(x)),
        spec_x_reg_id(spec_abi_register(x)) == x,
{
}

/// A register number that comes from a valid ABI register names that register again.
pub proof fn lemma_abi_register_round_trip_back(r: ABIRegister)
    requires
        abi_register_valid(r),
    ensures
        0 <= spec_x_reg_id(r) < 32,
        spec_abi_register(spec_x_reg_id(r) as u32) == r,
{
}

/// Floating-point rounding modes.
#[derive(Clone, Copy, PartialEq, Eq, Structural, Debug)]
pub enum RoundingMode {
    RNE,
    RTZ,
    RDN,
    RUP,
    RMM,
}

/// Floating-point exception flags.
#[derive(Clone, Copy, PartialEq, Eq, Structural, Debug, Default)]
pub struct FCSR {
    pub invalid: bool,
    pub overflow: bool,
    pub underflow: bool,
    pub inexact: bool,
}

/// The operation an instruction performs.
#[derive(Clone, Copy, PartialEq, Eq, Structural, Debug)]
pub enum Op {
    Addi,
    Slti,
    Sltiu,
    Andi,
    Ori,
    Xori,
    Slli,
    Srli,
    Srai,
    Lui,
    Auipc,
    Lb,
    Lh,
    Lw,
    Lbu,
    Lhu,
    Sw,
    Sh,
    Sb,
    R32Add,
    R32Sub,
    R32Sll,
    R32Slt,
    R32Sltu,
    R32Xor,
    R32Srl,
    R32Sra,
    R32Or,
    R32And,
    Jal,
    Jalr,
    Beq,
    Bne,
    Blt,
    Bge,
    Bltu,
    Bgeu,
    Ecall32,
    Ebreak,
    M32Mul,
    M32Mulh,
    M32Mulhsu,
    M32Mulhu,
    M32Div,
    M32Divu,
    M32Rem,
    M32Remu,
    FenceI,
    C32Csrrw,
    C32Csrrs,
    C32Csrrc,
    C32Csrrwi,
    C32Csrrsi,
    C32Csrrci,
    R64Add,
    R64Sub,
    R64Sll,
    R64Slt,
    R64Sltu,
    R64Xor,
    R64Srl,
    R64Sra,
    R64Or,
    R64And,
    Ecall64,
    Fence,
    AmoswapD,
    AmoswapW,
    AmoaddD,
    AmoaddW,
    AmoxorD,
    AmoxorW,
    AmoandD,
    AmoandW,
    AmoorD,
    AmoorW,
    M64Mul,
    MulW,
    M64Mulh,
    M64Mulhsu,
    M64Mulhu,
    M64Div,
    DivW,
    M64Divu,
    DivuW,
    M64Rem,
    RemW,
    M64Remu,
    RemuW,
    C64Csrrw,
    C64Csrrs,
    C64Csrrc,
    C64Csrrwi,
    C64Csrrsi,
    C64Csrrci,
    Sret,
    Mret,
    SfenceVma,
    Wfi,
    Flw,
    Fld,
    Fsw,
    Fsd,
    FmvXD,
    FmvXW,
    FmvDX,
    FmvWX,
    FsgnjS,
    FsgnjnS,
    FsgnjxS,
    FsgnjD,
    FsgnjnD,
    FsgnjxD,
    FloatUnit,

}

/// An entry of an instruction table: the word matches when `word & mask == bits`.
#[derive(Clone, Copy, PartialEq, Debug)]
pub struct Instruction {
    pub mask: u32,
    pub bits: u32,
    pub name: &'static str,
    pub instruction_type: InstructionType,
    pub op: Op,
}

/// A decoded instruction together with its word.
#[derive(Clone, Copy, PartialEq, Debug)]
pub struct ProgramLine {
    pub instruction: Instruction,
    pub word: Word,
}

/// Whether table entry `ins` matches word `w`.
pub open spec fn matches(ins: Instruction, w: u32) -> bool {
    w & ins.mask == ins.bits
}

/// Entry `i` of `table` is the first one that matches `w`.
pub open spec fn first_match(table: Seq<Instruction>, w: u32, i: int) -> bool {
    &&& 0 <= i < table.len()
    &&& matches(table[i], w)
    &&& forall|j: int| 0 <= j < i ==> !matches(#[trigger] table[j], w)
}

/// No entry of `table` matches `w`.
pub open spec fn no_match(table: Seq<Instruction>, w: u32) -> bool {
    forall|j: int| 0 <= j < table.len() ==> !matches(#[trigger] table[j], w)
}

/// The instruction table of a register width, in decoding order.
pub open spec fn spec_all_instructions(mode: CpuMode) -> Seq<Instruction> {
    match mode {
        CpuMode::RV32 => spec_rv32i_set_i() + spec_rv32i_set_ls() + spec_rv32i_set_r()
            + spec_rv32i_set_uj() + spec_rv32i_set_e() + spec_rv32m_set_r()
            + spec_rv32_zifencei_set() + spec_rv32_zicsr_set(),
        CpuMode::RV64 => spec_rv64i_set_r() + spec_rv64i_set_e() + spec_rv64a_set_amo()
            + spec_rv64m_set_r() + spec_rv64f_set_ls() + spec_rv64f_set_conversion()
            + spec_rv64f_set_muldiv() + spec_rv64f_set_mov() + spec_rv64_zicsr_set()
            + spec_rv64_privileged_set(),
    }
}

/// The instruction table of a register width, in decoding order.
pub fn all_instructions(mode: CpuMode) -> (v: Vec<Instruction>)
    ensures
        v@ == spec_all_instructions(mode),
{
    let mut all: Vec<Instruction> = Vec::new();
    match mode {
        CpuMode::RV32 => {
            let mut a = rv32i_set_i();
            all.append(&mut a);
            let mut a = rv32i_set_ls();
            all.append(&mut a);
            let mut a = rv32i_set_r();
            all.append(&mut a);
            let mut a = rv32i_set_uj();
            all.append(&mut a);
            let mut a = rv32i_set_e();
            all.append(&mut a);
            let mut a = rv32m_set_r();
            all.append(&mut a);
            let mut a = rv32_zifencei_set();
            all.append(&mut a);
            let mut a = rv32_zicsr_set();
            all.append(&mut a);
        },
        CpuMode::RV64 => {
            let mut a = rv64i_set_r();
            all.append(&mut a);
            let mut a = rv64i_set_e();
            all.append(&mut a);
            let mut a = rv64a_set_amo();
            all.append(&mut a);
            let mut a = rv64m_set_r();
            all.append(&mut a);
            let mut a = rv64f_set_ls();
            all.append(&mut a);
            let mut a = rv64f_set_conversion();
            all.append(&mut a);
            let mut a = rv64f_set_muldiv();
            all.append(&mut a);
            let mut a = rv64f_set_mov();
            all.append(&mut a);
            let mut a = rv64_zicsr_set();
            all.append(&mut a);
            let mut a = rv64_privileged_set();
            all.append(&mut a);
        },
    }
    all
}

/// The index of the first entry of `table` that matches `w`.
pub fn find_first_match(table: &Vec<Instruction>, w: u32) -> (r: Option<usize>)
    ensures
        match r {
            Some(i) => first_match(table@, w, i as int),
            None => no_match(table@, w),
        },
{
    let mut i: usize = 0;
    while i < table.len()
        invariant
            i <= table@.len(),
            forall|j: int| 0 <= j < i ==> !matches(#[trigger] table@[j], w),
        decreases table@.len() - i,
    {
        if w & table[i].mask == table[i].bits {
            return Some(i);
        }
        i = i + 1;
    }
    None
}

/// The decoding of `w` in `mode`: the first table entry that matches, if any.
pub open spec fn decodes_to(mode: CpuMode, w: u32, ins: Instruction) -> bool {
    exists|i: int| first_match(spec_all_instructions(mode), w, i) && spec_all_instructions(mode)[i] == ins
}

/// Decodes a word with the instruction table of `mode`.
pub fn decode_program_line(word: Word, mode: CpuMode) -> (r: Result<ProgramLine, EmuError>)
    ensures
        match r {
            Ok(line) => line.word == word && decodes_to(mode, word.0, line.instruction),
            Err(e) => e == EmuError::InstructionNotFound(word.0) && no_match(
                spec_all_instructions(mode),
                word.0,
            ),
        },
{
    let table = all_instructions(mode);
    match find_first_match(&table, word.0) {
        Some(i) => Ok(ProgramLine { instruction: table[i], word }),
        None => Err(EmuError::InstructionNotFound(word.0)),
    }
}

/// Decodes a word that some entry of the table of `mode` matches.
pub fn decode_program_line_unchecked(word: &Word, mode: CpuMode) -> (r: ProgramLine)
    requires
        !no_match(spec_all_instructions(mode), word.0),
    ensures
        r.word == *word,
        decodes_to(mode, word.0, r.instruction),
{
    let table = all_instructions(mode);
    match find_first_match(&table, word.0) {
        Some(i) => ProgramLine { instruction: table[i], word: *word },
        None => {
            proof {
                assert(false);
            }
            ProgramLine { instruction: table[0], word: *word }
        },
    }
}

/// Whether two strings hold the same bytes.
pub fn str_eq(a: &str, b: &str) -> (r: bool)
    ensures
        r == (a.spec_bytes() == b.spec_bytes()),
{
    let x = a.as_bytes();
    let y = b.as_bytes();
    if x.len() != y.len() {
        return false;
    }
    let mut i: usize = 0;
    while i < x.len()
        invariant
            x@ == a.spec_bytes(),
            y@ == b.spec_bytes(),
            x@.len() == y@.len(),
            i <= x@.len(),
            forall|j: int| 0 <= j < i ==> x@[j] == y@[j],
        decreases x@.len() - i,
    {
        if x[i] != y[i] {
            return false;
        }
        i = i + 1;
    }
    assert(x@ =~= y@);
    true
}

/// Entry `i` of `table` is the first one named `name`.
pub open spec fn first_named(table: Seq<Instruction>, name: Seq<u8>, i: int) -> bool {
    &&& 0 <= i < table.len()
    &&& table[i].name.spec_bytes() == name
    &&& forall|j: int| 0 <= j < i ==> (#[trigger] table[j]).name.spec_bytes() != name
}

/// Finds the first RV32 table entry with the given mnemonic.
pub fn find_instruction_by_name(name: &str) -> (r: Result<Instruction, EmuError>)
    ensures
        match r {
            Ok(ins) => exists|i: int|
                first_named(spec_all_instructions(CpuMode::RV32), name.spec_bytes(), i)
                    && spec_all_instructions(CpuMode::RV32)[i] == ins,
            Err(e) => e == EmuError::FunctionNotFound && forall|j: int|
                0 <= j < spec_all_instructions(CpuMode::RV32).len() ==> (#[trigger] spec_all_instructions(
                    CpuMode::RV32,
                )[j]).name.spec_bytes() != name.spec_bytes(),
        },
{
    let table = all_instructions(CpuMode::RV32);
    let mut i: usize = 0;
    while i < table.len()
        invariant
            table@ == spec_all_instructions(CpuMode::RV32),
            i <= table@.len(),
            forall|j: int| 0 <= j < i ==> (#[trigger] table@[j]).name.spec_bytes() != name.spec_bytes(),
        decreases table@.len() - i,
    {
        if str_eq(table[i].name, name) {
            assert(first_named(table@, name.spec_bytes(), i as int));
            return Ok(table[i]);
        }
        i = i + 1;
    }
    Err(EmuError::FunctionNotFound)
}

/// The operand bits that `encode_program_line` places for each format.
pub open spec fn spec_encode_fields(data: InstructionData) -> u32 {
    match data {
        InstructionData::R(d) => ((d.rd.0 as u32) << 7u32) | ((d.func3.0 as u32) << 12u32) | ((
        d.rs1.0 as u32) << 15u32) | ((d.rs2.0 as u32) << 20u32) | ((d.func7.0 as u32) << 25u32),
        InstructionData::I(d) => ((d.rd.0 as u32) << 7u32) | ((d.func3.0 as u32) << 12u32) | ((
        d.rs1.0 as u32) << 15u32) | ((d.imm.0 as u32) << 20u32),
        InstructionData::S(d) => ((d.func3.0 as u32) << 12u32) | ((d.rs1.0 as u32) << 15u32) | ((
        d.rs2.0 as u32) << 20u32) | (((((d.imm.0.0 as u8) & 0x1f) as u32)) << 7u32) | (((d.imm.0.0
            & 0xfe0) as u32) << 20u32),
        InstructionData::U(d) => ((d.rd.0 as u32) << 7u32) | (d.imm << 12u32),
        _ => 0,
    }
}

/// Encodes the fields of an RV32 instruction named by its mnemonic; a mnemonic the table does
/// not hold is reported whatever the fields. Branch and jump fields have no encoding here.
pub fn encode_program_line(name: &str, instruction_data: InstructionData) -> (r: Result<Word, EmuError>)
    requires
        instruction_data is SB || instruction_data is UJ ==> forall|j: int|
            0 <= j < spec_all_instructions(CpuMode::RV32).len() ==> (#[trigger] spec_all_instructions(
                CpuMode::RV32,
            )[j]).name.spec_bytes() != name.spec_bytes(),
    ensures
        match r {
            Ok(w) => exists|i: int|
                first_named(spec_all_instructions(CpuMode::RV32), name.spec_bytes(), i) && w.0
                    == spec_encode_fields(instruction_data) | (spec_all_instructions(CpuMode::RV32)[i].mask
                    & spec_all_instructions(CpuMode::RV32)[i].bits),
            Err(e) => e == EmuError::FunctionNotFound && forall|j: int|
                0 <= j < spec_all_instructions(CpuMode::RV32).len() ==> (#[trigger] spec_all_instructions(
                    CpuMode::RV32,
                )[j]).name.spec_bytes() != name.spec_bytes(),
        },
{
    let instruction = match find_instruction_by_name(name) {
        Ok(i) => i,
        Err(e) => {
            return Err(e);
        },
    };
    let mut word = Word(0);
    let fields: u32 = match instruction_data {
        InstructionData::R(data) => ((data.rd.value() as u32) << 7u32) | ((data.func3.value() as u32)
            << 12u32) | ((data.rs1.value() as u32) << 15u32) | ((data.rs2.value() as u32) << 20u32)
            | ((data.func7.value() as u32) << 25u32),
        InstructionData::I(data) => ((data.rd.value() as u32) << 7u32) | ((data.func3.value() as u32)
            << 12u32) | ((data.rs1.value() as u32) << 15u32) | ((data.imm.value() as u32) << 20u32),
        InstructionData::S(data) => ((data.func3.value() as u32) << 12u32) | ((data.rs1.value()
            as u32) << 15u32) | ((data.rs2.value() as u32) << 20u32) | (((((data.imm.0.0 as u8)
            & U5_MASK) as u32)) << 7u32) | (((data.imm.0.0 & (U12_MASK & !(U5_MASK as u16)))
            as u32) << 20u32),
        InstructionData::U(data) => ((data.rd.value() as u32) << 7u32) | (data.imm << 12u32),
        _ => {
            proof {
                assert(false);
            }
            0
        },
    };
    assert(U12_MASK & !(U5_MASK as u16) == 0xfe0u16) by (bit_vector);
    word.0 = word.0 | fields;
    word.0 = word.0 | (instruction.mask & instruction.bits);
    assert(0u32 | fields == fields) by (bit_vector);
    Ok(word)
}

/// Encoding the fields of an I-type instruction of the table (whose constant bits lie in
/// the opcode and `func3` fields) and splitting the word again gives back the register
/// numbers and the immediate; `func3` comes back merged with the instruction's own.
pub proof fn lemma_encode_parse_i(d: IInstructionData, k: u32)
    requires
        d.rd.0 < 32,
        d.func3.0 < 8,
        d.rs1.0 < 32,
        d.imm.0 < 4096,
        k & 0xffff_8f80 == 0,
    ensures
        spec_parse_i(spec_encode_fields(InstructionData::I(d)) | k) == (IInstructionData {
            rd: d.rd,
            func3: U3((d.func3.0 as u32 | field(k, 12, 0x7)) as u8),
            rs1: d.rs1,
            imm: d.imm,
        }),
{
    let rd = d.rd.0;
    let f3 = d.func3.0;
    let rs1 = d.rs1.0;
    let imm = d.imm.0;
    let w = ((rd as u32) << 7u32) | ((f3 as u32) << 12u32) | ((rs1 as u32) << 15u32) | ((imm as u32)
        << 20u32) | k;
    assert(field(w, 7, 0x1f) as u8 == rd && field(w, 15, 0x1f) as u8 == rs1 && field(w, 20, 0xfff)
        as u16 == imm && field(w, 12, 0x7) as u8 == (f3 as u32 | field(k, 12, 0x7)) as u8)
        by (bit_vector)
        requires
            rd < 32,
            f3 < 8,
            rs1 < 32,
            imm < 4096,
            k & 0xffff_8f80 == 0,
            w == ((rd as u32) << 7u32) | ((f3 as u32) << 12u32) | ((rs1 as u32) << 15u32) | ((
            imm as u32) << 20u32) | k,
    ;
}

/// `ADDI` round trip: the RV32 table entry that encoding by the name `ADDI` uses is the `ADDI`
/// entry at the head of the table; the word it gives for fields `d` (function code zero)
/// decodes to that entry, and splitting it gives `d` back.
pub proof fn lemma_addi_round_trip(d: IInstructionData, i: int, w: u32)
    requires
        d.rd.0 < 32,
        d.func3.0 == 0,
        d.rs1.0 < 32,
        d.imm.0 < 4096,
        first_named(spec_all_instructions(CpuMode::RV32), "ADDI".spec_bytes(), i),
        w == spec_encode_fields(InstructionData::I(d)) | (spec_all_instructions(CpuMode::RV32)[i].mask
            & spec_all_instructions(CpuMode::RV32)[i].bits),
    ensures
        i == 0,
        spec_all_instructions(CpuMode::RV32)[i].name == "ADDI",
        spec_all_instructions(CpuMode::RV32)[i].op == Op::Addi,
        decodes_to(CpuMode::RV32, w, spec_all_instructions(CpuMode::RV32)[i]),
        spec_parse_i(w) == d,
{
    let table = spec_all_instructions(CpuMode::RV32);
    let addi = spec_rv32i_set_i()[0];
    assert(table[0] == addi);
    if i > 0 {
        assert(table[0].name.spec_bytes() != "ADDI".spec_bytes());
    }
    let rd = d.rd.0;
    let rs1 = d.rs1.0;
    let imm = d.imm.0;
    assert(((((rd as u32) << 7u32) | ((0u8 as u32) << 12u32) | ((rs1 as u32) << 15u32) | ((imm as u32) << 20u32))
        | 0x13u32) & 0x707fu32 == 0x13u32 && field(0x13u32, 12, 0x7) == 0 && 0x707fu32 & 0x13u32 == 0x13u32
        && 0x13u32 & 0xffff_8f80u32 == 0 && (0u8 as u32 | field(0x13u32, 12, 0x7)) as u8 == 0u8)
        by (bit_vector)
        requires
            rd < 32,
            rs1 < 32,
            imm < 4096,
    ;
    lemma_encode_parse_i(d, 0x13);
    assert(d.func3 == U3(0));
    assert(first_match(table, w, 0));
}

/// Encoding the fields of an R-type instruction of the table (whose constant bits lie in the
/// opcode, `func3` and `func7` fields) and splitting the word again gives back the register
/// numbers; `func3` and `func7` come back merged with the instruction's own.
pub proof fn lemma_encode_parse_r(d: RInstructionData, k: u32)
    requires
        d.rd.0 < 32,
        d.func3.0 < 8,
        d.rs1.0 < 32,
        d.rs2.0 < 32,
        d.func7.0 < 128,
        k & 0x01ff_8f80 == 0,
    ensures
        spec_parse_r(spec_encode_fields(InstructionData::R(d)) | k) == (RInstructionData {
            rd: d.rd,
            func3: U3((d.func3.0 as u32 | field(k, 12, 0x7)) as u8),
            rs1: d.rs1,
            rs2: d.rs2,
            func7: U7((d.func7.0 as u32 | field(k, 25, 0x7f)) as u8),
        }),
{
    let rd = d.rd.0;
    let f3 = d.func3.0;
    let rs1 = d.rs1.0;
    let rs2 = d.rs2.0;
    let f7 = d.func7.0;
    let w = ((rd as u32) << 7u32) | ((f3 as u32) << 12u32) | ((rs1 as u32) << 15u32) | ((rs2 as u32)
        << 20u32) | ((f7 as u32) << 25u32) | k;
    assert(field(w, 7, 0x1f) as u8 == rd && field(w, 15, 0x1f) as u8 == rs1 && field(w, 20, 0x1f)
        as u8 == rs2 && field(w, 12, 0x7) as u8 == (f3 as u32 | field(k, 12, 0x7)) as u8 && field(
        w,
        25,
        0x7f,
    ) as u8 == (f7 as u32 | field(k, 25, 0x7f)) as u8) by (bit_vector)
        requires
            rd < 32,
            f3 < 8,
            rs1 < 32,
            rs2 < 32,
            f7 < 128,
            k & 0x01ff_8f80 == 0,
            w == ((rd as u32) << 7u32) | ((f3 as u32) << 12u32) | ((rs1 as u32) << 15u32) | ((
            rs2 as u32) << 20u32) | ((f7 as u32) << 25u32) | k,
    ;
}

} // verus!
