use risc_sim::types::{UJImmediate, UJInstructionData};
use risc_sim::cpu::cpu_core::CpuMode;
use risc_sim::error::EmuError;
use risc_sim::types::{
    decode_program_line, encode_program_line, find_instruction_by_name, parse_instruction_i,
    parse_instruction_r, ABIRegister, IInstructionData, InstructionData, RInstructionData, Word, U12,
    U3, U5, U7,
};
use risc_sim::utils::binary_utils::{
    i32_to_u32, sign_extend_12bit_to_32bit, sign_extend_12bit_to_64bit, sign_extend_32bit_to_64bit,
    sign_extend_5bit_to_32bit, u32_to_i32, u8_to_i8,
};

#[test]
fn decodes_known_words() {
    let line = decode_program_line(Word(0x0050_0093), CpuMode::RV32).unwrap();
    assert_eq!(line.instruction.name, "ADDI");
    assert_eq!(line.word, Word(0x0050_0093));
    let line = decode_program_line(Word(0x4011_0233), CpuMode::RV32).unwrap();
    assert_eq!(line.instruction.name, "SUB");
    let line = decode_program_line(Word(0x0220_81b3), CpuMode::RV64).unwrap();
    assert_eq!(line.instruction.name, "MUL");
    let line = decode_program_line(Word(0x3020_0073), CpuMode::RV64).unwrap();
    assert_eq!(line.instruction.name, "MRET");
    let line = decode_program_line(Word(0x0210_80d3), CpuMode::RV64).unwrap();
    assert_eq!(line.instruction.name, "FADD.D");
    let line = decode_program_line(Word(0x0001_a207), CpuMode::RV64).unwrap();
    assert_eq!(line.instruction.name, "FLW");
    // the 32-bit table has no floating-point instructions
    assert!(decode_program_line(Word(0x0001_a207), CpuMode::RV32).is_err());
}

#[test]
fn refuses_unknown_words() {
    assert_eq!(
        decode_program_line(Word(0xffff_ffff), CpuMode::RV32).map(|l| l.word),
        Err(EmuError::InstructionNotFound(0xffff_ffff))
    );
}

#[test]
fn parses_fields() {
    let i = parse_instruction_i(&Word(0xfff0_0093));
    assert_eq!(i.rd, U5(1));
    assert_eq!(i.rs1, U5(0));
    assert_eq!(i.imm, U12(0xfff));
    assert_eq!(i.imm.as_i32(), -1);
    let r = parse_instruction_r(&Word(0x4011_0233));
    assert_eq!((r.rd, r.rs1, r.rs2), (U5(4), U5(2), U5(1)));
    assert_eq!(r.func7.0, 0x20);
}

#[test]
fn encodes_by_mnemonic() {
    let data = IInstructionData { rd: U5(1), func3: U3(0), rs1: U5(0), imm: U12(5) };
    assert_eq!(encode_program_line("ADDI", InstructionData::I(data)), Ok(Word(0x0050_0093)));
    assert_eq!(encode_program_line("NOPE", InstructionData::I(data)), Err(EmuError::FunctionNotFound));
    // encoding then decoding gives back the fields
    let w = encode_program_line("ADDI", InstructionData::I(data)).unwrap();
    assert_eq!(parse_instruction_i(&w), data);
    assert_eq!(find_instruction_by_name("ECALL").unwrap().bits, 0x73);
    assert_eq!(find_instruction_by_name("nope").map(|i| i.bits), Err(EmuError::FunctionNotFound));
}

#[test]
fn abi_register_names() {
    assert_eq!(ABIRegister::from(0), Ok(ABIRegister::Zero));
    assert_eq!(ABIRegister::from(2), Ok(ABIRegister::SP));
    assert_eq!(ABIRegister::from(10), Ok(ABIRegister::A(0)));
    assert_eq!(ABIRegister::from(17), Ok(ABIRegister::A(7)));
    assert_eq!(ABIRegister::from(18), Ok(ABIRegister::S(2)));
    assert_eq!(ABIRegister::from(31), Ok(ABIRegister::T(6)));
    assert_eq!(ABIRegister::from(32), Err(EmuError::InvalidRegister(32)));
    for x in 0..32u32 {
        assert_eq!(ABIRegister::from(x).unwrap().to_x_reg_id(), x);
    }
}

#[test]
fn sign_extension_helpers() {
    assert_eq!(sign_extend_12bit_to_32bit(0x800), -2048);
    assert_eq!(sign_extend_12bit_to_32bit(0x7ff), 2047);
    assert_eq!(sign_extend_12bit_to_64bit(0xfff), -1);
    assert_eq!(sign_extend_5bit_to_32bit(0x10), 0xffff_fff0);
    assert_eq!(sign_extend_5bit_to_32bit(0x0f), 0x0f);
    assert_eq!(sign_extend_32bit_to_64bit(0x8000_0000), -0x8000_0000);
    assert_eq!(u32_to_i32(0xffff_ffff), -1);
    assert_eq!(i32_to_u32(-2), 0xffff_fffe);
    assert_eq!(u8_to_i8(0x80), -128);
}

#[test]
fn encodes_register_instructions() {
    let data = RInstructionData { rd: U5(4), func3: U3(0), rs1: U5(2), rs2: U5(1), func7: U7(0) };
    let w = encode_program_line("SUB", InstructionData::R(data)).unwrap();
    assert_eq!(w, Word(0x4011_0233));
    let back = parse_instruction_r(&w);
    assert_eq!((back.rd, back.rs1, back.rs2), (U5(4), U5(2), U5(1)));
    assert_eq!(back.func7, U7(0x20));
}

#[test]
fn addi_fields_survive_encode_and_decode() {
    for (rd, rs1, imm) in [(1u8, 1u8, 0u16), (29, 17, 4095), (7, 28, 2048), (15, 3, 1)] {
        let d = IInstructionData { rd: U5(rd), rs1: U5(rs1), imm: U12(imm), func3: U3(0) };
        let w = encode_program_line("ADDI", InstructionData::I(d)).unwrap();
        let line = decode_program_line(w, CpuMode::RV32).unwrap();
        assert_eq!(line.instruction.name, "ADDI");
        assert_eq!(parse_instruction_i(&line.word), d);
    }
}

#[test]
fn unknown_mnemonic_is_refused_for_every_format() {
    let d = UJInstructionData { rd: U5(1), imm: UJImmediate::from(0x0080_00ef) };
    assert_eq!(encode_program_line("NOPE", InstructionData::UJ(d)), Err(EmuError::FunctionNotFound));
}

#[test]
fn abi_register_numbers_beyond_the_file() {
    assert_eq!(ABIRegister::A(8).to_x_reg_id(), 18);
    assert_eq!(ABIRegister::S(12).to_x_reg_id(), 28);
    assert_eq!(ABIRegister::T(7).to_x_reg_id(), 32);
}
