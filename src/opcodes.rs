use vstd::prelude::*;

use crate::cpu::AddressingMode;

verus! {

/// One row of the instruction table.
pub struct Opcode {
    pub instruction: u8,
    pub mnemonic: &'static str,
    pub length: u8,
    pub cycles: u8,
    pub addressing_mode: AddressingMode,
}

impl Opcode {
    pub fn new(i: u8, m: &'static str, l: u8, c: u8, a_m: AddressingMode) -> (r: Self)
        ensures
            r == (Opcode { instruction: i, mnemonic: m, length: l, cycles: c, addressing_mode: a_m }),
    {
        Opcode { instruction: i, mnemonic: m, length: l, cycles: c, addressing_mode: a_m }
    }
}

/// The instruction table: mnemonic, length in bytes, cycles and addressing
/// mode of each of the 256 opcodes.
#[verifier::opaque]
pub open spec fn opcode_spec(op: u8) -> Opcode {
    let hi = op >> 4u8;
    if hi == 0 {
        opcode_row_0(op & 0xF)
    } else if hi == 1 {
        opcode_row_1(op & 0xF)
    } else if hi == 2 {
        opcode_row_2(op & 0xF)
    } else if hi == 3 {
        opcode_row_3(op & 0xF)
    } else if hi == 4 {
        opcode_row_4(op & 0xF)
    } else if hi == 5 {
        opcode_row_5(op & 0xF)
    } else if hi == 6 {
        opcode_row_6(op & 0xF)
    } else if hi == 7 {
        opcode_row_7(op & 0xF)
    } else if hi == 8 {
        opcode_row_8(op & 0xF)
    } else if hi == 9 {
        opcode_row_9(op & 0xF)
    } else if hi == 10 {
        opcode_row_a(op & 0xF)
    } else if hi == 11 {
        opcode_row_b(op & 0xF)
    } else if hi == 12 {
        opcode_row_c(op & 0xF)
    } else if hi == 13 {
        opcode_row_d(op & 0xF)
    } else if hi == 14 {
        opcode_row_e(op & 0xF)
    } else {
        opcode_row_f(op & 0xF)
    }
}

/// Opcodes 0x00 to 0x0F, by their low nibble.
pub open spec fn opcode_row_0(lo: u8) -> Opcode {
    match lo {
        0u8 => Opcode { instruction: 0x00, mnemonic: "BRK", length: 1, cycles: 7, addressing_mode: AddressingMode::IMP },
        1u8 => Opcode { instruction: 0x01, mnemonic: "ORA", length: 2, cycles: 6, addressing_mode: AddressingMode::IND_X },
        2u8 => Opcode { instruction: 0x02, mnemonic: "JAM", length: 1, cycles: 0, addressing_mode: AddressingMode::IMP },
        3u8 => Opcode { instruction: 0x03, mnemonic: "SLO", length: 2, cycles: 8, addressing_mode: AddressingMode::IND_X },
        4u8 => Opcode { instruction: 0x04, mnemonic: "NOP", length: 2, cycles: 3, addressing_mode: AddressingMode::ZP },
        5u8 => Opcode { instruction: 0x05, mnemonic: "ORA", length: 2, cycles: 3, addressing_mode: AddressingMode::ZP },
        6u8 => Opcode { instruction: 0x06, mnemonic: "ASL", length: 2, cycles: 5, addressing_mode: AddressingMode::ZP },
        7u8 => Opcode { instruction: 0x07, mnemonic: "SLO", length: 2, cycles: 5, addressing_mode: AddressingMode::ZP },
        8u8 => Opcode { instruction: 0x08, mnemonic: "PHP", length: 1, cycles: 3, addressing_mode: AddressingMode::IMP },
        9u8 => Opcode { instruction: 0x09, mnemonic: "ORA", length: 2, cycles: 2, addressing_mode: AddressingMode::IMM },
        10u8 => Opcode { instruction: 0x0A, mnemonic: "ASL", length: 1, cycles: 2, addressing_mode: AddressingMode::ACC },
        11u8 => Opcode { instruction: 0x0B, mnemonic: "ANC", length: 2, cycles: 2, addressing_mode: AddressingMode::IMM },
        12u8 => Opcode { instruction: 0x0C, mnemonic: "NOP", length: 3, cycles: 4, addressing_mode: AddressingMode::ABS },
        13u8 => Opcode { instruction: 0x0D, mnemonic: "ORA", length: 3, cycles: 4, addressing_mode: AddressingMode::ABS },
        14u8 => Opcode { instruction: 0x0E, mnemonic: "ASL", length: 3, cycles: 6, addressing_mode: AddressingMode::ABS },
        _ => Opcode { instruction: 0x0F, mnemonic: "SLO", length: 3, cycles: 6, addressing_mode: AddressingMode::ABS },
    }
}

/// Opcodes 0x10 to 0x1F, by their low nibble.
pub open spec fn opcode_row_1(lo: u8) -> Opcode {
    match lo {
        0u8 => Opcode { instruction: 0x10, mnemonic: "BPL", length: 2, cycles: 4, addressing_mode: AddressingMode::REL },
        1u8 => Opcode { instruction: 0x11, mnemonic: "ORA", length: 2, cycles: 6, addressing_mode: AddressingMode::IND_Y },
        2u8 => Opcode { instruction: 0x12, mnemonic: "JAM", length: 1, cycles: 0, addressing_mode: AddressingMode::IMP },
        3u8 => Opcode { instruction: 0x13, mnemonic: "SLO", length: 2, cycles: 8, addressing_mode: AddressingMode::IND_Y },
        4u8 => Opcode { instruction: 0x14, mnemonic: "NOP", length: 2, cycles: 4, addressing_mode: AddressingMode::ZP_X },
        5u8 => Opcode { instruction: 0x15, mnemonic: "ORA", length: 2, cycles: 4, addressing_mode: AddressingMode::ZP_X },
        6u8 => Opcode { instruction: 0x16, mnemonic: "ASL", length: 2, cycles: 6, addressing_mode: AddressingMode::ZP_X },
        7u8 => Opcode { instruction: 0x17, mnemonic: "SLO", length: 2, cycles: 6, addressing_mode: AddressingMode::ZP_X },
        8u8 => Opcode { instruction: 0x18, mnemonic: "CLC", length: 1, cycles: 2, addressing_mode: AddressingMode::IMP },
        9u8 => Opcode { instruction: 0x19, mnemonic: "ORA", length: 3, cycles: 5, addressing_mode: AddressingMode::ABS_Y },
        10u8 => Opcode { instruction: 0x1A, mnemonic: "NOP", length: 1, cycles: 2, addressing_mode: AddressingMode::IMP },
        11u8 => Opcode { instruction: 0x1B, mnemonic: "SLO", length: 3, cycles: 7, addressing_mode: AddressingMode::ABS_Y },
        12u8 => Opcode { instruction: 0x1C, mnemonic: "NOP", length: 3, cycles: 4, addressing_mode: AddressingMode::ABS_X },
        13u8 => Opcode { instruction: 0x1D, mnemonic: "ORA", length: 3, cycles: 5, addressing_mode: AddressingMode::ABS_X },
        14u8 => Opcode { instruction: 0x1E, mnemonic: "ASL", length: 3, cycles: 7, addressing_mode: AddressingMode::ABS_X },
        _ => Opcode { instruction: 0x1F, mnemonic: "SLO", length: 3, cycles: 7, addressing_mode: AddressingMode::ABS_X },
    }
}

/// Opcodes 0x20 to 0x2F, by their low nibble.
pub open spec fn opcode_row_2(lo: u8) -> Opcode {
    match lo {
        0u8 => Opcode { instruction: 0x20, mnemonic: "JSR", length: 3, cycles: 6, addressing_mode: AddressingMode::ABS },
        1u8 => Opcode { instruction: 0x21, mnemonic: "AND", length: 2, cycles: 6, addressing_mode: AddressingMode::IND_X },
        2u8 => Opcode { instruction: 0x22, mnemonic: "JAM", length: 1, cycles: 0, addressing_mode: AddressingMode::IMP },
        3u8 => Opcode { instruction: 0x23, mnemonic: "RLA", length: 2, cycles: 8, addressing_mode: AddressingMode::IND_X },
        4u8 => Opcode { instruction: 0x24, mnemonic: "BIT", length: 2, cycles: 3, addressing_mode: AddressingMode::ZP },
        5u8 => Opcode { instruction: 0x25, mnemonic: "AND", length: 2, cycles: 3, addressing_mode: AddressingMode::ZP },
        6u8 => Opcode { instruction: 0x26, mnemonic: "ROL", length: 2, cycles: 5, addressing_mode: AddressingMode::ZP },
        7u8 => Opcode { instruction: 0x27, mnemonic: "RLA", length: 2, cycles: 5, addressing_mode: AddressingMode::ZP },
        8u8 => Opcode { instruction: 0x28, mnemonic: "PLP", length: 1, cycles: 4, addressing_mode: AddressingMode::IMP },
        9u8 => Opcode { instruction: 0x29, mnemonic: "AND", length: 2, cycles: 2, addressing_mode: AddressingMode::IMM },
        10u8 => Opcode { instruction: 0x2A, mnemonic: "ROL", length: 1, cycles: 2, addressing_mode: AddressingMode::ACC },
        11u8 => Opcode { instruction: 0x2B, mnemonic: "ANC", length: 2, cycles: 2, addressing_mode: AddressingMode::IMM },
        12u8 => Opcode { instruction: 0x2C, mnemonic: "BIT", length: 3, cycles: 4, addressing_mode: AddressingMode::ABS },
        13u8 => Opcode { instruction: 0x2D, mnemonic: "AND", length: 3, cycles: 4, addressing_mode: AddressingMode::ABS },
        14u8 => Opcode { instruction: 0x2E, mnemonic: "ROL", length: 3, cycles: 6, addressing_mode: AddressingMode::ABS },
        _ => Opcode { instruction: 0x2F, mnemonic: "RLA", length: 3, cycles: 6, addressing_mode: AddressingMode::ABS },
    }
}

/// Opcodes 0x30 to 0x3F, by their low nibble.
pub open spec fn opcode_row_3(lo: u8) -> Opcode {
    match lo {
        0u8 => Opcode { instruction: 0x30, mnemonic: "BMI", length: 2, cycles: 4, addressing_mode: AddressingMode::REL },
        1u8 => Opcode { instruction: 0x31, mnemonic: "AND", length: 2, cycles: 7, addressing_mode: AddressingMode::IND_Y },
        2u8 => Opcode { instruction: 0x32, mnemonic: "JAM", length: 1, cycles: 0, addressing_mode: AddressingMode::IMP },
        3u8 => Opcode { instruction: 0x33, mnemonic: "RLA", length: 2, cycles: 8, addressing_mode: AddressingMode::IND_Y },
        4u8 => Opcode { instruction: 0x34, mnemonic: "NOP", length: 2, cycles: 4, addressing_mode: AddressingMode::ZP_X },
        5u8 => Opcode { instruction: 0x35, mnemonic: "AND", length: 2, cycles: 4, addressing_mode: AddressingMode::ZP_X },
        6u8 => Opcode { instruction: 0x36, mnemonic: "ROL", length: 2, cycles: 6, addressing_mode: AddressingMode::ZP_X },
        7u8 => Opcode { instruction: 0x37, mnemonic: "RLA", length: 2, cycles: 6, addressing_mode: AddressingMode::ZP_X },
        8u8 => Opcode { instruction: 0x38, mnemonic: "SEC", length: 1, cycles: 2, addressing_mode: AddressingMode::IMP },
        9u8 => Opcode { instruction: 0x39, mnemonic: "AND", length: 3, cycles: 5, addressing_mode: AddressingMode::ABS_Y },
        10u8 => Opcode { instruction: 0x3A, mnemonic: "NOP", length: 1, cycles: 2, addressing_mode: AddressingMode::IMP },
        11u8 => Opcode { instruction: 0x3B, mnemonic: "RLA", length: 3, cycles: 7, addressing_mode: AddressingMode::ABS_Y },
        12u8 => Opcode { instruction: 0x3C, mnemonic: "NOP", length: 3, cycles: 4, addressing_mode: AddressingMode::ABS_X },
        13u8 => Opcode { instruction: 0x3D, mnemonic: "AND", length: 3, cycles: 5, addressing_mode: AddressingMode::ABS_X },
        14u8 => Opcode { instruction: 0x3E, mnemonic: "ROL", length: 3, cycles: 7, addressing_mode: AddressingMode::ABS_X },
        _ => Opcode { instruction: 0x3F, mnemonic: "RLA", length: 3, cycles: 7, addressing_mode: AddressingMode::ABS_X },
    }
}

/// Opcodes 0x40 to 0x4F, by their low nibble.
pub open spec fn opcode_row_4(lo: u8) -> Opcode {
    match lo {
        0u8 => Opcode { instruction: 0x40, mnemonic: "RTI", length: 1, cycles: 6, addressing_mode: AddressingMode::IMP },
        1u8 => Opcode { instruction: 0x41, mnemonic: "EOR", length: 2, cycles: 6, addressing_mode: AddressingMode::IND_X },
        2u8 => Opcode { instruction: 0x42, mnemonic: "JAM", length: 1, cycles: 0, addressing_mode: AddressingMode::IMP },
        3u8 => Opcode { instruction: 0x43, mnemonic: "SRE", length: 2, cycles: 8, addressing_mode: AddressingMode::IND_X },
        4u8 => Opcode { instruction: 0x44, mnemonic: "NOP", length: 2, cycles: 3, addressing_mode: AddressingMode::ZP },
        5u8 => Opcode { instruction: 0x45, mnemonic: "EOR", length: 2, cycles: 3, addressing_mode: AddressingMode::ZP },
        6u8 => Opcode { instruction: 0x46, mnemonic: "LSR", length: 2, cycles: 5, addressing_mode: AddressingMode::ZP },
        7u8 => Opcode { instruction: 0x47, mnemonic: "SRE", length: 2, cycles: 5, addressing_mode: AddressingMode::ZP },
        8u8 => Opcode { instruction: 0x48, mnemonic: "PHA", length: 1, cycles: 3, addressing_mode: AddressingMode::IMP },
        9u8 => Opcode { instruction: 0x49, mnemonic: "EOR", length: 2, cycles: 2, addressing_mode: AddressingMode::IMM },
        10u8 => Opcode { instruction: 0x4A, mnemonic: "LSR", length: 1, cycles: 2, addressing_mode: AddressingMode::ACC },
        11u8 => Opcode { instruction: 0x4B, mnemonic: "ASR", length: 2, cycles: 2, addressing_mode: AddressingMode::IMM },
        12u8 => Opcode { instruction: 0x4C, mnemonic: "JMP", length: 3, cycles: 3, addressing_mode: AddressingMode::ABS },
        13u8 => Opcode { instruction: 0x4D, mnemonic: "EOR", length: 3, cycles: 4, addressing_mode: AddressingMode::ABS },
        14u8 => Opcode { instruction: 0x4E, mnemonic: "LSR", length: 3, cycles: 6, addressing_mode: AddressingMode::ABS },
        _ => Opcode { instruction: 0x4F, mnemonic: "SRE", length: 3, cycles: 6, addressing_mode: AddressingMode::ABS },
    }
}

/// Opcodes 0x50 to 0x5F, by their low nibble.
pub open spec fn opcode_row_5(lo: u8) -> Opcode {
    match lo {
        0u8 => Opcode { instruction: 0x50, mnemonic: "BVC", length: 2, cycles: 4, addressing_mode: AddressingMode::REL },
        1u8 => Opcode { instruction: 0x51, mnemonic: "EOR", length: 2, cycles: 6, addressing_mode: AddressingMode::IND_Y },
        2u8 => Opcode { instruction: 0x52, mnemonic: "JAM", length: 1, cycles: 0, addressing_mode: AddressingMode::IMP },
        3u8 => Opcode { instruction: 0x53, mnemonic: "SRE", length: 2, cycles: 8, addressing_mode: AddressingMode::IND_Y },
        4u8 => Opcode { instruction: 0x54, mnemonic: "NOP", length: 2, cycles: 4, addressing_mode: AddressingMode::ZP_X },
        5u8 => Opcode { instruction: 0x55, mnemonic: "EOR", length: 2, cycles: 4, addressing_mode: AddressingMode::ZP_X },
        6u8 => Opcode { instruction: 0x56, mnemonic: "LSR", length: 2, cycles: 6, addressing_mode: AddressingMode::ZP_X },
        7u8 => Opcode { instruction: 0x57, mnemonic: "SRE", length: 2, cycles: 6, addressing_mode: AddressingMode::ZP_X },
        8u8 => Opcode { instruction: 0x58, mnemonic: "CLI", length: 1, cycles: 2, addressing_mode: AddressingMode::IMP },
        9u8 => Opcode { instruction: 0x59, mnemonic: "EOR", length: 3, cycles: 5, addressing_mode: AddressingMode::ABS_Y },
        10u8 => Opcode { instruction: 0x5A, mnemonic: "NOP", length: 1, cycles: 2, addressing_mode: AddressingMode::IMP },
        11u8 => Opcode { instruction: 0x5B, mnemonic: "SRE", length: 3, cycles: 7, addressing_mode: AddressingMode::ABS_Y },
        12u8 => Opcode { instruction: 0x5C, mnemonic: "NOP", length: 3, cycles: 4, addressing_mode: AddressingMode::ABS_X },
        13u8 => Opcode { instruction: 0x5D, mnemonic: "EOR", length: 3, cycles: 5, addressing_mode: AddressingMode::ABS_X },
        14u8 => Opcode { instruction: 0x5E, mnemonic: "LSR", length: 3, cycles: 7, addressing_mode: AddressingMode::ABS_X },
        _ => Opcode { instruction: 0x5F, mnemonic: "SRE", length: 3, cycles: 7, addressing_mode: AddressingMode::ABS_X },
    }
}

/// Opcodes 0x60 to 0x6F, by their low nibble.
pub open spec fn opcode_row_6(lo: u8) -> Opcode {
    match lo {
        0u8 => Opcode { instruction: 0x60, mnemonic: "RTS", length: 1, cycles: 6, addressing_mode: AddressingMode::IMP },
        1u8 => Opcode { instruction: 0x61, mnemonic: "ADC", length: 2, cycles: 6, addressing_mode: AddressingMode::IND_X },
        2u8 => Opcode { instruction: 0x62, mnemonic: "JAM", length: 1, cycles: 0, addressing_mode: AddressingMode::IMP },
        3u8 => Opcode { instruction: 0x63, mnemonic: "RRA", length: 2, cycles: 8, addressing_mode: AddressingMode::IND_X },
        4u8 => Opcode { instruction: 0x64, mnemonic: "NOP", length: 2, cycles: 3, addressing_mode: AddressingMode::ZP },
        5u8 => Opcode { instruction: 0x65, mnemonic: "ADC", length: 2, cycles: 6, addressing_mode: AddressingMode::ZP },
        6u8 => Opcode { instruction: 0x66, mnemonic: "ROR", length: 2, cycles: 5, addressing_mode: AddressingMode::ZP },
        7u8 => Opcode { instruction: 0x67, mnemonic: "RRA", length: 2, cycles: 5, addressing_mode: AddressingMode::ZP },
        8u8 => Opcode { instruction: 0x68, mnemonic: "PLA", length: 1, cycles: 4, addressing_mode: AddressingMode::IMP },
        9u8 => Opcode { instruction: 0x69, mnemonic: "ADC", length: 2, cycles: 5, addressing_mode: AddressingMode::IMM },
        10u8 => Opcode { instruction: 0x6A, mnemonic: "ROR", length: 1, cycles: 2, addressing_mode: AddressingMode::ACC },
        11u8 => Opcode { instruction: 0x6B, mnemonic: "ARR", length: 2, cycles: 2, addressing_mode: AddressingMode::IMM },
        12u8 => Opcode { instruction: 0x6C, mnemonic: "JMP", length: 3, cycles: 5, addressing_mode: AddressingMode::ABS },
        13u8 => Opcode { instruction: 0x6D, mnemonic: "ADC", length: 3, cycles: 3, addressing_mode: AddressingMode::ABS },
        14u8 => Opcode { instruction: 0x6E, mnemonic: "ROR", length: 3, cycles: 6, addressing_mode: AddressingMode::ABS },
        _ => Opcode { instruction: 0x6F, mnemonic: "RRA", length: 3, cycles: 6, addressing_mode: AddressingMode::ABS },
    }
}

/// Opcodes 0x70 to 0x7F, by their low nibble.
pub open spec fn opcode_row_7(lo: u8) -> Opcode {
    match lo {
        0u8 => Opcode { instruction: 0x70, mnemonic: "BVS", length: 2, cycles: 4, addressing_mode: AddressingMode::REL },
        1u8 => Opcode { instruction: 0x71, mnemonic: "ADC", length: 2, cycles: 6, addressing_mode: AddressingMode::IND_Y },
        2u8 => Opcode { instruction: 0x72, mnemonic: "JAM", length: 1, cycles: 0, addressing_mode: AddressingMode::IMP },
        3u8 => Opcode { instruction: 0x73, mnemonic: "RRA", length: 2, cycles: 8, addressing_mode: AddressingMode::IND_Y },
        4u8 => Opcode { instruction: 0x74, mnemonic: "NOP", length: 2, cycles: 4, addressing_mode: AddressingMode::ZP_X },
        5u8 => Opcode { instruction: 0x75, mnemonic: "ADC", length: 2, cycles: 6, addressing_mode: AddressingMode::ZP_X },
        6u8 => Opcode { instruction: 0x76, mnemonic: "ROR", length: 2, cycles: 6, addressing_mode: AddressingMode::ZP_X },
        7u8 => Opcode { instruction: 0x77, mnemonic: "RRA", length: 2, cycles: 6, addressing_mode: AddressingMode::ZP_X },
        8u8 => Opcode { instruction: 0x78, mnemonic: "SEI", length: 1, cycles: 2, addressing_mode: AddressingMode::IMP },
        9u8 => Opcode { instruction: 0x79, mnemonic: "ADC", length: 3, cycles: 5, addressing_mode: AddressingMode::ABS_Y },
        10u8 => Opcode { instruction: 0x7A, mnemonic: "NOP", length: 1, cycles: 2, addressing_mode: AddressingMode::IMP },
        11u8 => Opcode { instruction: 0x7B, mnemonic: "RRA", length: 3, cycles: 7, addressing_mode: AddressingMode::ABS_Y },
        12u8 => Opcode { instruction: 0x7C, mnemonic: "NOP", length: 3, cycles: 4, addressing_mode: AddressingMode::ABS_X },
        13u8 => Opcode { instruction: 0x7D, mnemonic: "ADC", length: 3, cycles: 4, addressing_mode: AddressingMode::ABS_X },
        14u8 => Opcode { instruction: 0x7E, mnemonic: "ROR", length: 3, cycles: 7, addressing_mode: AddressingMode::ABS_X },
        _ => Opcode { instruction: 0x7F, mnemonic: "RRA", length: 3, cycles: 7, addressing_mode: AddressingMode::ABS_X },
    }
}

/// Opcodes 0x80 to 0x8F, by their low nibble.
pub open spec fn opcode_row_8(lo: u8) -> Opcode {
    match lo {
        0u8 => Opcode { instruction: 0x80, mnemonic: "NOP", length: 2, cycles: 2, addressing_mode: AddressingMode::IMM },
        1u8 => Opcode { instruction: 0x81, mnemonic: "STA", length: 2, cycles: 6, addressing_mode: AddressingMode::IND_X },
        2u8 => Opcode { instruction: 0x82, mnemonic: "NOP", length: 2, cycles: 2, addressing_mode: AddressingMode::IMM },
        3u8 => Opcode { instruction: 0x83, mnemonic: "SAX", length: 2, cycles: 6, addressing_mode: AddressingMode::IND_X },
        4u8 => Opcode { instruction: 0x84, mnemonic: "STY", length: 2, cycles: 3, addressing_mode: AddressingMode::ZP },
        5u8 => Opcode { instruction: 0x85, mnemonic: "STA", length: 2, cycles: 3, addressing_mode: AddressingMode::ZP },
        6u8 => Opcode { instruction: 0x86, mnemonic: "STX", length: 2, cycles: 3, addressing_mode: AddressingMode::ZP },
        7u8 => Opcode { instruction: 0x87, mnemonic: "SAX", length: 2, cycles: 3, addressing_mode: AddressingMode::ZP },
        8u8 => Opcode { instruction: 0x88, mnemonic: "DEY", length: 1, cycles: 2, addressing_mode: AddressingMode::IMP },
        9u8 => Opcode { instruction: 0x89, mnemonic: "NOP", length: 2, cycles: 2, addressing_mode: AddressingMode::IMM },
        10u8 => Opcode { instruction: 0x8A, mnemonic: "TXA", length: 1, cycles: 2, addressing_mode: AddressingMode::IMP },
        11u8 => Opcode { instruction: 0x8B, mnemonic: "XAA", length: 2, cycles: 2, addressing_mode: AddressingMode::IMM },
        12u8 => Opcode { instruction: 0x8C, mnemonic: "STY", length: 3, cycles: 4, addressing_mode: AddressingMode::ABS },
        13u8 => Opcode { instruction: 0x8D, mnemonic: "STA", length: 3, cycles: 4, addressing_mode: AddressingMode::ABS },
        14u8 => Opcode { instruction: 0x8E, mnemonic: "STX", length: 3, cycles: 4, addressing_mode: AddressingMode::ABS },
        _ => Opcode { instruction: 0x8F, mnemonic: "SAX", length: 3, cycles: 4, addressing_mode: AddressingMode::ABS },
    }
}

/// Opcodes 0x90 to 0x9F, by their low nibble.
pub open spec fn opcode_row_9(lo: u8) -> Opcode {
    match lo {
        0u8 => Opcode { instruction: 0x90, mnemonic: "BCC", length: 2, cycles: 4, addressing_mode: AddressingMode::REL },
        1u8 => Opcode { instruction: 0x91, mnemonic: "STA", length: 2, cycles: 6, addressing_mode: AddressingMode::IND_Y },
        2u8 => Opcode { instruction: 0x92, mnemonic: "JAM", length: 1, cycles: 0, addressing_mode: AddressingMode::IMP },
        3u8 => Opcode { instruction: 0x93, mnemonic: "SHA", length: 2, cycles: 6, addressing_mode: AddressingMode::IND_Y },
        4u8 => Opcode { instruction: 0x94, mnemonic: "STY", length: 2, cycles: 4, addressing_mode: AddressingMode::ZP_X },
        5u8 => Opcode { instruction: 0x95, mnemonic: "STA", length: 2, cycles: 4, addressing_mode: AddressingMode::ZP_X },
        6u8 => Opcode { instruction: 0x96, mnemonic: "STX", length: 2, cycles: 4, addressing_mode: AddressingMode::ZP_Y },
        7u8 => Opcode { instruction: 0x97, mnemonic: "SAX", length: 2, cycles: 5, addressing_mode: AddressingMode::ZP_Y },
        8u8 => Opcode { instruction: 0x98, mnemonic: "TYA", length: 1, cycles: 2, addressing_mode: AddressingMode::IMP },
        9u8 => Opcode { instruction: 0x99, mnemonic: "STA", length: 3, cycles: 5, addressing_mode: AddressingMode::ABS_Y },
        10u8 => Opcode { instruction: 0x9A, mnemonic: "TXS", length: 1, cycles: 2, addressing_mode: AddressingMode::IMP },
        11u8 => Opcode { instruction: 0x9B, mnemonic: "SHS", length: 3, cycles: 5, addressing_mode: AddressingMode::ABS_Y },
        12u8 => Opcode { instruction: 0x9C, mnemonic: "SHY", length: 3, cycles: 5, addressing_mode: AddressingMode::ABS_X },
        13u8 => Opcode { instruction: 0x9D, mnemonic: "STA", length: 3, cycles: 5, addressing_mode: AddressingMode::ABS_X },
        14u8 => Opcode { instruction: 0x9E, mnemonic: "SHX", length: 3, cycles: 5, addressing_mode: AddressingMode::ABS_Y },
        _ => Opcode { instruction: 0x9F, mnemonic: "SHA", length: 3, cycles: 5, addressing_mode: AddressingMode::ABS_Y },
    }
}

/// Opcodes 0xA0 to 0xAF, by their low nibble.
pub open spec fn opcode_row_a(lo: u8) -> Opcode {
    match lo {
        0u8 => Opcode { instruction: 0xA0, mnemonic: "LDY", length: 2, cycles: 2, addressing_mode: AddressingMode::IMM },
        1u8 => Opcode { instruction: 0xA1, mnemonic: "LDA", length: 2, cycles: 6, addressing_mode: AddressingMode::IND_X },
        2u8 => Opcode { instruction: 0xA2, mnemonic: "LDX", length: 2, cycles: 2, addressing_mode: AddressingMode::IMM },
        3u8 => Opcode { instruction: 0xA3, mnemonic: "LAX", length: 2, cycles: 6, addressing_mode: AddressingMode::IND_X },
        4u8 => Opcode { instruction: 0xA4, mnemonic: "LDY", length: 2, cycles: 3, addressing_mode: AddressingMode::ZP },
        5u8 => Opcode { instruction: 0xA5, mnemonic: "LDA", length: 2, cycles: 3, addressing_mode: AddressingMode::ZP },
        6u8 => Opcode { instruction: 0xA6, mnemonic: "LDX", length: 2, cycles: 3, addressing_mode: AddressingMode::ZP },
        7u8 => Opcode { instruction: 0xA7, mnemonic: "LAX", length: 2, cycles: 3, addressing_mode: AddressingMode::ZP },
        8u8 => Opcode { instruction: 0xA8, mnemonic: "TAY", length: 1, cycles: 2, addressing_mode: AddressingMode::IMP },
        9u8 => Opcode { instruction: 0xA9, mnemonic: "LDA", length: 2, cycles: 2, addressing_mode: AddressingMode::IMM },
        10u8 => Opcode { instruction: 0xAA, mnemonic: "TAX", length: 1, cycles: 2, addressing_mode: AddressingMode::IMP },
        11u8 => Opcode { instruction: 0xAB, mnemonic: "LAX", length: 2, cycles: 2, addressing_mode: AddressingMode::IMM },
        12u8 => Opcode { instruction: 0xAC, mnemonic: "LDY", length: 3, cycles: 4, addressing_mode: AddressingMode::ABS },
        13u8 => Opcode { instruction: 0xAD, mnemonic: "LDA", length: 3, cycles: 4, addressing_mode: AddressingMode::ABS },
        14u8 => Opcode { instruction: 0xAE, mnemonic: "LDX", length: 3, cycles: 4, addressing_mode: AddressingMode::ABS },
        _ => Opcode { instruction: 0xAF, mnemonic: "LAX", length: 3, cycles: 4, addressing_mode: AddressingMode::ABS },
    }
}

/// Opcodes 0xB0 to 0xBF, by their low nibble.
pub open spec fn opcode_row_b(lo: u8) -> Opcode {
    match lo {
        0u8 => Opcode { instruction: 0xB0, mnemonic: "BCS", length: 2, cycles: 4, addressing_mode: AddressingMode::REL },
        1u8 => Opcode { instruction: 0xB1, mnemonic: "LDA", length: 2, cycles: 6, addressing_mode: AddressingMode::IND_Y },
        2u8 => Opcode { instruction: 0xB2, mnemonic: "JAM", length: 1, cycles: 0, addressing_mode: AddressingMode::IMP },
        3u8 => Opcode { instruction: 0xB3, mnemonic: "LAX", length: 2, cycles: 6, addressing_mode: AddressingMode::IND_Y },
        4u8 => Opcode { instruction: 0xB4, mnemonic: "LDY", length: 2, cycles: 4, addressing_mode: AddressingMode::ZP_X },
        5u8 => Opcode { instruction: 0xB5, mnemonic: "LDA", length: 2, cycles: 4, addressing_mode: AddressingMode::ZP_X },
        6u8 => Opcode { instruction: 0xB6, mnemonic: "LDX", length: 2, cycles: 4, addressing_mode: AddressingMode::ZP_Y },
        7u8 => Opcode { instruction: 0xB7, mnemonic: "LAX", length: 2, cycles: 4, addressing_mode: AddressingMode::ZP_Y },
        8u8 => Opcode { instruction: 0xB8, mnemonic: "CLV", length: 1, cycles: 2, addressing_mode: AddressingMode::IMP },
        9u8 => Opcode { instruction: 0xB9, mnemonic: "LDA", length: 3, cycles: 5, addressing_mode: AddressingMode::ABS_Y },
        10u8 => Opcode { instruction: 0xBA, mnemonic: "TSX", length: 1, cycles: 2, addressing_mode: AddressingMode::IMP },
        11u8 => Opcode { instruction: 0xBB, mnemonic: "LAS", length: 3, cycles: 5, addressing_mode: AddressingMode::ABS_Y },
        12u8 => Opcode { instruction: 0xBC, mnemonic: "LDY", length: 3, cycles: 5, addressing_mode: AddressingMode::ABS_X },
        13u8 => Opcode { instruction: 0xBD, mnemonic: "LDA", length: 3, cycles: 5, addressing_mode: AddressingMode::ABS_X },
        14u8 => Opcode { instruction: 0xBE, mnemonic: "LDX", length: 3, cycles: 5, addressing_mode: AddressingMode::ABS_Y },
        _ => Opcode { instruction: 0xBF, mnemonic: "LAX", length: 3, cycles: 5, addressing_mode: AddressingMode::ABS_Y },
    }
}

/// Opcodes 0xC0 to 0xCF, by their low nibble.
pub open spec fn opcode_row_c(lo: u8) -> Opcode {
    match lo {
        0u8 => Opcode { instruction: 0xC0, mnemonic: "CPY", length: 2, cycles: 2, addressing_mode: AddressingMode::IMM },
        1u8 => Opcode { instruction: 0xC1, mnemonic: "CMP", length: 2, cycles: 6, addressing_mode: AddressingMode::IND_X },
        2u8 => Opcode { instruction: 0xC2, mnemonic: "NOP", length: 2, cycles: 2, addressing_mode: AddressingMode::IMM },
        3u8 => Opcode { instruction: 0xC3, mnemonic: "DCP", length: 2, cycles: 8, addressing_mode: AddressingMode::IND_X },
        4u8 => Opcode { instruction: 0xC4, mnemonic: "CPY", length: 2, cycles: 3, addressing_mode: AddressingMode::ZP },
        5u8 => Opcode { instruction: 0xC5, mnemonic: "CMP", length: 2, cycles: 3, addressing_mode: AddressingMode::ZP },
        6u8 => Opcode { instruction: 0xC6, mnemonic: "DEC", length: 2, cycles: 5, addressing_mode: AddressingMode::ZP },
        7u8 => Opcode { instruction: 0xC7, mnemonic: "DCP", length: 2, cycles: 5, addressing_mode: AddressingMode::ZP },
        8u8 => Opcode { instruction: 0xC8, mnemonic: "INY", length: 1, cycles: 2, addressing_mode: AddressingMode::IMP },
        9u8 => Opcode { instruction: 0xC9, mnemonic: "CMP", length: 2, cycles: 2, addressing_mode: AddressingMode::IMM },
        10u8 => Opcode { instruction: 0xCA, mnemonic: "DEX", length: 1, cycles: 2, addressing_mode: AddressingMode::IMP },
        11u8 => Opcode { instruction: 0xCB, mnemonic: "SBX", length: 2, cycles: 2, addressing_mode: AddressingMode::IMM },
        12u8 => Opcode { instruction: 0xCC, mnemonic: "CPY", length: 3, cycles: 4, addressing_mode: AddressingMode::ABS },
        13u8 => Opcode { instruction: 0xCD, mnemonic: "CMP", length: 3, cycles: 4, addressing_mode: AddressingMode::ABS },
        14u8 => Opcode { instruction: 0xCE, mnemonic: "DEC", length: 3, cycles: 6, addressing_mode: AddressingMode::ABS },
        _ => Opcode { instruction: 0xCF, mnemonic: "DCP", length: 3, cycles: 6, addressing_mode: AddressingMode::ABS },
    }
}

/// Opcodes 0xD0 to 0xDF, by their low nibble.
pub open spec fn opcode_row_d(lo: u8) -> Opcode {
    match lo {
        0u8 => Opcode { instruction: 0xD0, mnemonic: "BNE", length: 2, cycles: 4, addressing_mode: AddressingMode::REL },
        1u8 => Opcode { instruction: 0xD1, mnemonic: "CMP", length: 2, cycles: 6, addressing_mode: AddressingMode::IND_Y },
        2u8 => Opcode { instruction: 0xD2, mnemonic: "JAM", length: 1, cycles: 0, addressing_mode: AddressingMode::IMP },
        3u8 => Opcode { instruction: 0xD3, mnemonic: "DCP", length: 2, cycles: 8, addressing_mode: AddressingMode::IND_Y },
        4u8 => Opcode { instruction: 0xD4, mnemonic: "NOP", length: 2, cycles: 4, addressing_mode: AddressingMode::ZP_X },
        5u8 => Opcode { instruction: 0xD5, mnemonic: "CMP", length: 2, cycles: 4, addressing_mode: AddressingMode::ZP_X },
        6u8 => Opcode { instruction: 0xD6, mnemonic: "DEC", length: 2, cycles: 6, addressing_mode: AddressingMode::ZP_X },
        7u8 => Opcode { instruction: 0xD7, mnemonic: "DCP", length: 2, cycles: 6, addressing_mode: AddressingMode::ZP_X },
        8u8 => Opcode { instruction: 0xD8, mnemonic: "CLD", length: 1, cycles: 2, addressing_mode: AddressingMode::IMP },
        9u8 => Opcode { instruction: 0xD9, mnemonic: "CMP", length: 3, cycles: 5, addressing_mode: AddressingMode::ABS_Y },
        10u8 => Opcode { instruction: 0xDA, mnemonic: "NOP", length: 1, cycles: 2, addressing_mode: AddressingMode::IMP },
        11u8 => Opcode { instruction: 0xDB, mnemonic: "DCP", length: 3, cycles: 7, addressing_mode: AddressingMode::ABS_Y },
        12u8 => Opcode { instruction: 0xDC, mnemonic: "NOP", length: 3, cycles: 4, addressing_mode: AddressingMode::ABS_X },
        13u8 => Opcode { instruction: 0xDD, mnemonic: "CMP", length: 3, cycles: 5, addressing_mode: AddressingMode::ABS_X },
        14u8 => Opcode { instruction: 0xDE, mnemonic: "DEC", length: 3, cycles: 7, addressing_mode: AddressingMode::ABS_X },
        _ => Opcode { instruction: 0xDF, mnemonic: "DCP", length: 3, cycles: 7, addressing_mode: AddressingMode::ABS_X },
    }
}

/// Opcodes 0xE0 to 0xEF, by their low nibble.
pub open spec fn opcode_row_e(lo: u8) -> Opcode {
    match lo {
        0u8 => Opcode { instruction: 0xE0, mnemonic: "CPX", length: 2, cycles: 2, addressing_mode: AddressingMode::IMM },
        1u8 => Opcode { instruction: 0xE1, mnemonic: "SBC", length: 2, cycles: 6, addressing_mode: AddressingMode::IND_X },
        2u8 => Opcode { instruction: 0xE2, mnemonic: "NOP", length: 2, cycles: 2, addressing_mode: AddressingMode::IMM },
        3u8 => Opcode { instruction: 0xE3, mnemonic: "ISC", length: 2, cycles: 8, addressing_mode: AddressingMode::IND_X },
        4u8 => Opcode { instruction: 0xE4, mnemonic: "CPX", length: 2, cycles: 3, addressing_mode: AddressingMode::ZP },
        5u8 => Opcode { instruction: 0xE5, mnemonic: "SBC", length: 2, cycles: 3, addressing_mode: AddressingMode::ZP },
        6u8 => Opcode { instruction: 0xE6, mnemonic: "INC", length: 2, cycles: 5, addressing_mode: AddressingMode::ZP },
        7u8 => Opcode { instruction: 0xE7, mnemonic: "ISC", length: 2, cycles: 5, addressing_mode: AddressingMode::ZP },
        8u8 => Opcode { instruction: 0xE8, mnemonic: "INX", length: 1, cycles: 2, addressing_mode: AddressingMode::IMP },
        9u8 => Opcode { instruction: 0xE9, mnemonic: "SBC", length: 2, cycles: 2, addressing_mode: AddressingMode::IMM },
        10u8 => Opcode { instruction: 0xEA, mnemonic: "NOP", length: 1, cycles: 2, addressing_mode: AddressingMode::IMP },
        11u8 => Opcode { instruction: 0xEB, mnemonic: "SBC", length: 2, cycles: 2, addressing_mode: AddressingMode::IMM },
        12u8 => Opcode { instruction: 0xEC, mnemonic: "CPX", length: 3, cycles: 4, addressing_mode: AddressingMode::ABS },
        13u8 => Opcode { instruction: 0xED, mnemonic: "SBC", length: 3, cycles: 4, addressing_mode: AddressingMode::ABS },
        14u8 => Opcode { instruction: 0xEE, mnemonic: "INC", length: 3, cycles: 6, addressing_mode: AddressingMode::ABS },
        _ => Opcode { instruction: 0xEF, mnemonic: "ISC", length: 3, cycles: 6, addressing_mode: AddressingMode::ABS },
    }
}

/// Opcodes 0xF0 to 0xFF, by their low nibble.
pub open spec fn opcode_row_f(lo: u8) -> Opcode {
    match lo {
        0u8 => Opcode { instruction: 0xF0, mnemonic: "BEQ", length: 2, cycles: 4, addressing_mode: AddressingMode::REL },
        1u8 => Opcode { instruction: 0xF1, mnemonic: "SBC", length: 2, cycles: 6, addressing_mode: AddressingMode::IND_Y },
        2u8 => Opcode { instruction: 0xF2, mnemonic: "JAM", length: 1, cycles: 0, addressing_mode: AddressingMode::IMP },
        3u8 => Opcode { instruction: 0xF3, mnemonic: "ISC", length: 2, cycles: 8, addressing_mode: AddressingMode::IND_Y },
        4u8 => Opcode { instruction: 0xF4, mnemonic: "NOP", length: 2, cycles: 4, addressing_mode: AddressingMode::ZP_X },
        5u8 => Opcode { instruction: 0xF5, mnemonic: "SBC", length: 2, cycles: 4, addressing_mode: AddressingMode::ZP_X },
        6u8 => Opcode { instruction: 0xF6, mnemonic: "INC", length: 2, cycles: 6, addressing_mode: AddressingMode::ZP_X },
        7u8 => Opcode { instruction: 0xF7, mnemonic: "ISC", length: 2, cycles: 6, addressing_mode: AddressingMode::ZP_X },
        8u8 => Opcode { instruction: 0xF8, mnemonic: "SED", length: 1, cycles: 2, addressing_mode: AddressingMode::IMP },
        9u8 => Opcode { instruction: 0xF9, mnemonic: "SBC", length: 3, cycles: 5, addressing_mode: AddressingMode::ABS_Y },
        10u8 => Opcode { instruction: 0xFA, mnemonic: "NOP", length: 1, cycles: 2, addressing_mode: AddressingMode::IMP },
        11u8 => Opcode { instruction: 0xFB, mnemonic: "ISC", length: 3, cycles: 7, addressing_mode: AddressingMode::ABS_Y },
        12u8 => Opcode { instruction: 0xFC, mnemonic: "NOP", length: 3, cycles: 4, addressing_mode: AddressingMode::ABS_X },
        13u8 => Opcode { instruction: 0xFD, mnemonic: "SBC", length: 3, cycles: 5, addressing_mode: AddressingMode::ABS_X },
        14u8 => Opcode { instruction: 0xFE, mnemonic: "INC", length: 3, cycles: 7, addressing_mode: AddressingMode::ABS_X },
        _ => Opcode { instruction: 0xFF, mnemonic: "ISC", length: 3, cycles: 7, addressing_mode: AddressingMode::ABS_X },
    }
}

/// Looks up the table row of an opcode.
pub fn lookup(op: u8) -> (r: Opcode)
    ensures
        r == opcode_spec(op),
        1 <= r.length <= 3,
        r.cycles <= 8,
        r.mnemonic@.len() == 3,
{
    proof {
        reveal(opcode_spec);
    }
    let hi = op >> 4;
    let lo = op & 0xF;
    if hi == 0 {
        lookup_row_0(lo)
    } else if hi == 1 {
        lookup_row_1(lo)
    } else if hi == 2 {
        lookup_row_2(lo)
    } else if hi == 3 {
        lookup_row_3(lo)
    } else if hi == 4 {
        lookup_row_4(lo)
    } else if hi == 5 {
        lookup_row_5(lo)
    } else if hi == 6 {
        lookup_row_6(lo)
    } else if hi == 7 {
        lookup_row_7(lo)
    } else if hi == 8 {
        lookup_row_8(lo)
    } else if hi == 9 {
        lookup_row_9(lo)
    } else if hi == 10 {
        lookup_row_a(lo)
    } else if hi == 11 {
        lookup_row_b(lo)
    } else if hi == 12 {
        lookup_row_c(lo)
    } else if hi == 13 {
        lookup_row_d(lo)
    } else if hi == 14 {
        lookup_row_e(lo)
    } else {
        lookup_row_f(lo)
    }
}

fn lookup_row_0(lo: u8) -> (r: Opcode)
    ensures
        r == opcode_row_0(lo),
        1 <= r.length <= 3,
        r.cycles <= 8,
        r.mnemonic@.len() == 3,
{
    proof {
        reveal_strlit("ANC");
        reveal_strlit("ASL");
        reveal_strlit("BRK");
        reveal_strlit("JAM");
        reveal_strlit("NOP");
        reveal_strlit("ORA");
        reveal_strlit("PHP");
        reveal_strlit("SLO");
    }
    match lo {
        0u8 => Opcode::new(0x00, "BRK", 1, 7, AddressingMode::IMP),
        1u8 => Opcode::new(0x01, "ORA", 2, 6, AddressingMode::IND_X),
        2u8 => Opcode::new(0x02, "JAM", 1, 0, AddressingMode::IMP),
        3u8 => Opcode::new(0x03, "SLO", 2, 8, AddressingMode::IND_X),
        4u8 => Opcode::new(0x04, "NOP", 2, 3, AddressingMode::ZP),
        5u8 => Opcode::new(0x05, "ORA", 2, 3, AddressingMode::ZP),
        6u8 => Opcode::new(0x06, "ASL", 2, 5, AddressingMode::ZP),
        7u8 => Opcode::new(0x07, "SLO", 2, 5, AddressingMode::ZP),
        8u8 => Opcode::new(0x08, "PHP", 1, 3, AddressingMode::IMP),
        9u8 => Opcode::new(0x09, "ORA", 2, 2, AddressingMode::IMM),
        10u8 => Opcode::new(0x0A, "ASL", 1, 2, AddressingMode::ACC),
        11u8 => Opcode::new(0x0B, "ANC", 2, 2, AddressingMode::IMM),
        12u8 => Opcode::new(0x0C, "NOP", 3, 4, AddressingMode::ABS),
        13u8 => Opcode::new(0x0D, "ORA", 3, 4, AddressingMode::ABS),
        14u8 => Opcode::new(0x0E, "ASL", 3, 6, AddressingMode::ABS),
        _ => Opcode::new(0x0F, "SLO", 3, 6, AddressingMode::ABS),
    }
}

fn lookup_row_1(lo: u8) -> (r: Opcode)
    ensures
        r == opcode_row_1(lo),
        1 <= r.length <= 3,
        r.cycles <= 8,
        r.mnemonic@.len() == 3,
{
    proof {
        reveal_strlit("ASL");
        reveal_strlit("BPL");
        reveal_strlit("CLC");
        reveal_strlit("JAM");
        reveal_strlit("NOP");
        reveal_strlit("ORA");
        reveal_strlit("SLO");
    }
    match lo {
        0u8 => Opcode::new(0x10, "BPL", 2, 4, AddressingMode::REL),
        1u8 => Opcode::new(0x11, "ORA", 2, 6, AddressingMode::IND_Y),
        2u8 => Opcode::new(0x12, "JAM", 1, 0, AddressingMode::IMP),
        3u8 => Opcode::new(0x13, "SLO", 2, 8, AddressingMode::IND_Y),
        4u8 => Opcode::new(0x14, "NOP", 2, 4, AddressingMode::ZP_X),
        5u8 => Opcode::new(0x15, "ORA", 2, 4, AddressingMode::ZP_X),
        6u8 => Opcode::new(0x16, "ASL", 2, 6, AddressingMode::ZP_X),
        7u8 => Opcode::new(0x17, "SLO", 2, 6, AddressingMode::ZP_X),
        8u8 => Opcode::new(0x18, "CLC", 1, 2, AddressingMode::IMP),
        9u8 => Opcode::new(0x19, "ORA", 3, 5, AddressingMode::ABS_Y),
        10u8 => Opcode::new(0x1A, "NOP", 1, 2, AddressingMode::IMP),
        11u8 => Opcode::new(0x1B, "SLO", 3, 7, AddressingMode::ABS_Y),
        12u8 => Opcode::new(0x1C, "NOP", 3, 4, AddressingMode::ABS_X),
        13u8 => Opcode::new(0x1D, "ORA", 3, 5, AddressingMode::ABS_X),
        14u8 => Opcode::new(0x1E, "ASL", 3, 7, AddressingMode::ABS_X),
        _ => Opcode::new(0x1F, "SLO", 3, 7, AddressingMode::ABS_X),
    }
}

fn lookup_row_2(lo: u8) -> (r: Opcode)
    ensures
        r == opcode_row_2(lo),
        1 <= r.length <= 3,
        r.cycles <= 8,
        r.mnemonic@.len() == 3,
{
    proof {
        reveal_strlit("ANC");
        reveal_strlit("AND");
        reveal_strlit("BIT");
        reveal_strlit("JAM");
        reveal_strlit("JSR");
        reveal_strlit("PLP");
        reveal_strlit("RLA");
        reveal_strlit("ROL");
    }
    match lo {
        0u8 => Opcode::new(0x20, "JSR", 3, 6, AddressingMode::ABS),
        1u8 => Opcode::new(0x21, "AND", 2, 6, AddressingMode::IND_X),
        2u8 => Opcode::new(0x22, "JAM", 1, 0, AddressingMode::IMP),
        3u8 => Opcode::new(0x23, "RLA", 2, 8, AddressingMode::IND_X),
        4u8 => Opcode::new(0x24, "BIT", 2, 3, AddressingMode::ZP),
        5u8 => Opcode::new(0x25, "AND", 2, 3, AddressingMode::ZP),
        6u8 => Opcode::new(0x26, "ROL", 2, 5, AddressingMode::ZP),
        7u8 => Opcode::new(0x27, "RLA", 2, 5, AddressingMode::ZP),
        8u8 => Opcode::new(0x28, "PLP", 1, 4, AddressingMode::IMP),
        9u8 => Opcode::new(0x29, "AND", 2, 2, AddressingMode::IMM),
        10u8 => Opcode::new(0x2A, "ROL", 1, 2, AddressingMode::ACC),
        11u8 => Opcode::new(0x2B, "ANC", 2, 2, AddressingMode::IMM),
        12u8 => Opcode::new(0x2C, "BIT", 3, 4, AddressingMode::ABS),
        13u8 => Opcode::new(0x2D, "AND", 3, 4, AddressingMode::ABS),
        14u8 => Opcode::new(0x2E, "ROL", 3, 6, AddressingMode::ABS),
        _ => Opcode::new(0x2F, "RLA", 3, 6, AddressingMode::ABS),
    }
}

fn lookup_row_3(lo: u8) -> (r: Opcode)
    ensures
        r == opcode_row_3(lo),
        1 <= r.length <= 3,
        r.cycles <= 8,
        r.mnemonic@.len() == 3,
{
    proof {
        reveal_strlit("AND");
        reveal_strlit("BMI");
        reveal_strlit("JAM");
        reveal_strlit("NOP");
        reveal_strlit("RLA");
        reveal_strlit("ROL");
        reveal_strlit("SEC");
    }
    match lo {
        0u8 => Opcode::new(0x30, "BMI", 2, 4, AddressingMode::REL),
        1u8 => Opcode::new(0x31, "AND", 2, 7, AddressingMode::IND_Y),
        2u8 => Opcode::new(0x32, "JAM", 1, 0, AddressingMode::IMP),
        3u8 => Opcode::new(0x33, "RLA", 2, 8, AddressingMode::IND_Y),
        4u8 => Opcode::new(0x34, "NOP", 2, 4, AddressingMode::ZP_X),
        5u8 => Opcode::new(0x35, "AND", 2, 4, AddressingMode::ZP_X),
        6u8 => Opcode::new(0x36, "ROL", 2, 6, AddressingMode::ZP_X),
        7u8 => Opcode::new(0x37, "RLA", 2, 6, AddressingMode::ZP_X),
        8u8 => Opcode::new(0x38, "SEC", 1, 2, AddressingMode::IMP),
        9u8 => Opcode::new(0x39, "AND", 3, 5, AddressingMode::ABS_Y),
        10u8 => Opcode::new(0x3A, "NOP", 1, 2, AddressingMode::IMP),
        11u8 => Opcode::new(0x3B, "RLA", 3, 7, AddressingMode::ABS_Y),
        12u8 => Opcode::new(0x3C, "NOP", 3, 4, AddressingMode::ABS_X),
        13u8 => Opcode::new(0x3D, "AND", 3, 5, AddressingMode::ABS_X),
        14u8 => Opcode::new(0x3E, "ROL", 3, 7, AddressingMode::ABS_X),
        _ => Opcode::new(0x3F, "RLA", 3, 7, AddressingMode::ABS_X),
    }
}

fn lookup_row_4(lo: u8) -> (r: Opcode)
    ensures
        r == opcode_row_4(lo),
        1 <= r.length <= 3,
        r.cycles <= 8,
        r.mnemonic@.len() == 3,
{
    proof {
        reveal_strlit("ASR");
        reveal_strlit("EOR");
        reveal_strlit("JAM");
        reveal_strlit("JMP");
        reveal_strlit("LSR");
        reveal_strlit("NOP");
        reveal_strlit("PHA");
        reveal_strlit("RTI");
        reveal_strlit("SRE");
    }
    match lo {
        0u8 => Opcode::new(0x40, "RTI", 1, 6, AddressingMode::IMP),
        1u8 => Opcode::new(0x41, "EOR", 2, 6, AddressingMode::IND_X),
        2u8 => Opcode::new(0x42, "JAM", 1, 0, AddressingMode::IMP),
        3u8 => Opcode::new(0x43, "SRE", 2, 8, AddressingMode::IND_X),
        4u8 => Opcode::new(0x44, "NOP", 2, 3, AddressingMode::ZP),
        5u8 => Opcode::new(0x45, "EOR", 2, 3, AddressingMode::ZP),
        6u8 => Opcode::new(0x46, "LSR", 2, 5, AddressingMode::ZP),
        7u8 => Opcode::new(0x47, "SRE", 2, 5, AddressingMode::ZP),
        8u8 => Opcode::new(0x48, "PHA", 1, 3, AddressingMode::IMP),
        9u8 => Opcode::new(0x49, "EOR", 2, 2, AddressingMode::IMM),
        10u8 => Opcode::new(0x4A, "LSR", 1, 2, AddressingMode::ACC),
        11u8 => Opcode::new(0x4B, "ASR", 2, 2, AddressingMode::IMM),
        12u8 => Opcode::new(0x4C, "JMP", 3, 3, AddressingMode::ABS),
        13u8 => Opcode::new(0x4D, "EOR", 3, 4, AddressingMode::ABS),
        14u8 => Opcode::new(0x4E, "LSR", 3, 6, AddressingMode::ABS),
        _ => Opcode::new(0x4F, "SRE", 3, 6, AddressingMode::ABS),
    }
}

fn lookup_row_5(lo: u8) -> (r: Opcode)
    ensures
        r == opcode_row_5(lo),
        1 <= r.length <= 3,
        r.cycles <= 8,
        r.mnemonic@.len() == 3,
{
    proof {
        reveal_strlit("BVC");
        reveal_strlit("CLI");
        reveal_strlit("EOR");
        reveal_strlit("JAM");
        reveal_strlit("LSR");
        reveal_strlit("NOP");
        reveal_strlit("SRE");
    }
    match lo {
        0u8 => Opcode::new(0x50, "BVC", 2, 4, AddressingMode::REL),
        1u8 => Opcode::new(0x51, "EOR", 2, 6, AddressingMode::IND_Y),
        2u8 => Opcode::new(0x52, "JAM", 1, 0, AddressingMode::IMP),
        3u8 => Opcode::new(0x53, "SRE", 2, 8, AddressingMode::IND_Y),
        4u8 => Opcode::new(0x54, "NOP", 2, 4, AddressingMode::ZP_X),
        5u8 => Opcode::new(0x55, "EOR", 2, 4, AddressingMode::ZP_X),
        6u8 => Opcode::new(0x56, "LSR", 2, 6, AddressingMode::ZP_X),
        7u8 => Opcode::new(0x57, "SRE", 2, 6, AddressingMode::ZP_X),
        8u8 => Opcode::new(0x58, "CLI", 1, 2, AddressingMode::IMP),
        9u8 => Opcode::new(0x59, "EOR", 3, 5, AddressingMode::ABS_Y),
        10u8 => Opcode::new(0x5A, "NOP", 1, 2, AddressingMode::IMP),
        11u8 => Opcode::new(0x5B, "SRE", 3, 7, AddressingMode::ABS_Y),
        12u8 => Opcode::new(0x5C, "NOP", 3, 4, AddressingMode::ABS_X),
        13u8 => Opcode::new(0x5D, "EOR", 3, 5, AddressingMode::ABS_X),
        14u8 => Opcode::new(0x5E, "LSR", 3, 7, AddressingMode::ABS_X),
        _ => Opcode::new(0x5F, "SRE", 3, 7, AddressingMode::ABS_X),
    }
}

fn lookup_row_6(lo: u8) -> (r: Opcode)
    ensures
        r == opcode_row_6(lo),
        1 <= r.length <= 3,
        r.cycles <= 8,
        r.mnemonic@.len() == 3,
{
    proof {
        reveal_strlit("ADC");
        reveal_strlit("ARR");
        reveal_strlit("JAM");
        reveal_strlit("JMP");
        reveal_strlit("NOP");
        reveal_strlit("PLA");
        reveal_strlit("ROR");
        reveal_strlit("RRA");
        reveal_strlit("RTS");
    }
    match lo {
        0u8 => Opcode::new(0x60, "RTS", 1, 6, AddressingMode::IMP),
        1u8 => Opcode::new(0x61, "ADC", 2, 6, AddressingMode::IND_X),
        2u8 => Opcode::new(0x62, "JAM", 1, 0, AddressingMode::IMP),
        3u8 => Opcode::new(0x63, "RRA", 2, 8, AddressingMode::IND_X),
        4u8 => Opcode::new(0x64, "NOP", 2, 3, AddressingMode::ZP),
        5u8 => Opcode::new(0x65, "ADC", 2, 6, AddressingMode::ZP),
        6u8 => Opcode::new(0x66, "ROR", 2, 5, AddressingMode::ZP),
        7u8 => Opcode::new(0x67, "RRA", 2, 5, AddressingMode::ZP),
        8u8 => Opcode::new(0x68, "PLA", 1, 4, AddressingMode::IMP),
        9u8 => Opcode::new(0x69, "ADC", 2, 5, AddressingMode::IMM),
        10u8 => Opcode::new(0x6A, "ROR", 1, 2, AddressingMode::ACC),
        11u8 => Opcode::new(0x6B, "ARR", 2, 2, AddressingMode::IMM),
        12u8 => Opcode::new(0x6C, "JMP", 3, 5, AddressingMode::ABS),
        13u8 => Opcode::new(0x6D, "ADC", 3, 3, AddressingMode::ABS),
        14u8 => Opcode::new(0x6E, "ROR", 3, 6, AddressingMode::ABS),
        _ => Opcode::new(0x6F, "RRA", 3, 6, AddressingMode::ABS),
    }
}

fn lookup_row_7(lo: u8) -> (r: Opcode)
    ensures
        r == opcode_row_7(lo),
        1 <= r.length <= 3,
        r.cycles <= 8,
        r.mnemonic@.len() == 3,
{
    proof {
        reveal_strlit("ADC");
        reveal_strlit("BVS");
        reveal_strlit("JAM");
        reveal_strlit("NOP");
        reveal_strlit("ROR");
        reveal_strlit("RRA");
        reveal_strlit("SEI");
    }
    match lo {
        0u8 => Opcode::new(0x70, "BVS", 2, 4, AddressingMode::REL),
        1u8 => Opcode::new(0x71, "ADC", 2, 6, AddressingMode::IND_Y),
        2u8 => Opcode::new(0x72, "JAM", 1, 0, AddressingMode::IMP),
        3u8 => Opcode::new(0x73, "RRA", 2, 8, AddressingMode::IND_Y),
        4u8 => Opcode::new(0x74, "NOP", 2, 4, AddressingMode::ZP_X),
        5u8 => Opcode::new(0x75, "ADC", 2, 6, AddressingMode::ZP_X),
        6u8 => Opcode::new(0x76, "ROR", 2, 6, AddressingMode::ZP_X),
        7u8 => Opcode::new(0x77, "RRA", 2, 6, AddressingMode::ZP_X),
        8u8 => Opcode::new(0x78, "SEI", 1, 2, AddressingMode::IMP),
        9u8 => Opcode::new(0x79, "ADC", 3, 5, AddressingMode::ABS_Y),
        10u8 => Opcode::new(0x7A, "NOP", 1, 2, AddressingMode::IMP),
        11u8 => Opcode::new(0x7B, "RRA", 3, 7, AddressingMode::ABS_Y),
        12u8 => Opcode::new(0x7C, "NOP", 3, 4, AddressingMode::ABS_X),
        13u8 => Opcode::new(0x7D, "ADC", 3, 4, AddressingMode::ABS_X),
        14u8 => Opcode::new(0x7E, "ROR", 3, 7, AddressingMode::ABS_X),
        _ => Opcode::new(0x7F, "RRA", 3, 7, AddressingMode::ABS_X),
    }
}

fn lookup_row_8(lo: u8) -> (r: Opcode)
    ensures
        r == opcode_row_8(lo),
        1 <= r.length <= 3,
        r.cycles <= 8,
        r.mnemonic@.len() == 3,
{
    proof {
        reveal_strlit("DEY");
        reveal_strlit("NOP");
        reveal_strlit("SAX");
        reveal_strlit("STA");
        reveal_strlit("STX");
        reveal_strlit("STY");
        reveal_strlit("TXA");
        reveal_strlit("XAA");
    }
    match lo {
        0u8 => Opcode::new(0x80, "NOP", 2, 2, AddressingMode::IMM),
        1u8 => Opcode::new(0x81, "STA", 2, 6, AddressingMode::IND_X),
        2u8 => Opcode::new(0x82, "NOP", 2, 2, AddressingMode::IMM),
        3u8 => Opcode::new(0x83, "SAX", 2, 6, AddressingMode::IND_X),
        4u8 => Opcode::new(0x84, "STY", 2, 3, AddressingMode::ZP),
        5u8 => Opcode::new(0x85, "STA", 2, 3, AddressingMode::ZP),
        6u8 => Opcode::new(0x86, "STX", 2, 3, AddressingMode::ZP),
        7u8 => Opcode::new(0x87, "SAX", 2, 3, AddressingMode::ZP),
        8u8 => Opcode::new(0x88, "DEY", 1, 2, AddressingMode::IMP),
        9u8 => Opcode::new(0x89, "NOP", 2, 2, AddressingMode::IMM),
        10u8 => Opcode::new(0x8A, "TXA", 1, 2, AddressingMode::IMP),
        11u8 => Opcode::new(0x8B, "XAA", 2, 2, AddressingMode::IMM),
        12u8 => Opcode::new(0x8C, "STY", 3, 4, AddressingMode::ABS),
        13u8 => Opcode::new(0x8D, "STA", 3, 4, AddressingMode::ABS),
        14u8 => Opcode::new(0x8E, "STX", 3, 4, AddressingMode::ABS),
        _ => Opcode::new(0x8F, "SAX", 3, 4, AddressingMode::ABS),
    }
}

fn lookup_row_9(lo: u8) -> (r: Opcode)
    ensures
        r == opcode_row_9(lo),
        1 <= r.length <= 3,
        r.cycles <= 8,
        r.mnemonic@.len() == 3,
{
    proof {
        reveal_strlit("BCC");
        reveal_strlit("JAM");
        reveal_strlit("SAX");
        reveal_strlit("SHA");
        reveal_strlit("SHS");
        reveal_strlit("SHX");
        reveal_strlit("SHY");
        reveal_strlit("STA");
        reveal_strlit("STX");
        reveal_strlit("STY");
        reveal_strlit("TXS");
        reveal_strlit("TYA");
    }
    match lo {
        0u8 => Opcode::new(0x90, "BCC", 2, 4, AddressingMode::REL),
        1u8 => Opcode::new(0x91, "STA", 2, 6, AddressingMode::IND_Y),
        2u8 => Opcode::new(0x92, "JAM", 1, 0, AddressingMode::IMP),
        3u8 => Opcode::new(0x93, "SHA", 2, 6, AddressingMode::IND_Y),
        4u8 => Opcode::new(0x94, "STY", 2, 4, AddressingMode::ZP_X),
        5u8 => Opcode::new(0x95, "STA", 2, 4, AddressingMode::ZP_X),
        6u8 => Opcode::new(0x96, "STX", 2, 4, AddressingMode::ZP_Y),
        7u8 => Opcode::new(0x97, "SAX", 2, 5, AddressingMode::ZP_Y),
        8u8 => Opcode::new(0x98, "TYA", 1, 2, AddressingMode::IMP),
        9u8 => Opcode::new(0x99, "STA", 3, 5, AddressingMode::ABS_Y),
        10u8 => Opcode::new(0x9A, "TXS", 1, 2, AddressingMode::IMP),
        11u8 => Opcode::new(0x9B, "SHS", 3, 5, AddressingMode::ABS_Y),
        12u8 => Opcode::new(0x9C, "SHY", 3, 5, AddressingMode::ABS_X),
        13u8 => Opcode::new(0x9D, "STA", 3, 5, AddressingMode::ABS_X),
        14u8 => Opcode::new(0x9E, "SHX", 3, 5, AddressingMode::ABS_Y),
        _ => Opcode::new(0x9F, "SHA", 3, 5, AddressingMode::ABS_Y),
    }
}

fn lookup_row_a(lo: u8) -> (r: Opcode)
    ensures
        r == opcode_row_a(lo),
        1 <= r.length <= 3,
        r.cycles <= 8,
        r.mnemonic@.len() == 3,
{
    proof {
        reveal_strlit("LAX");
        reveal_strlit("LDA");
        reveal_strlit("LDX");
        reveal_strlit("LDY");
        reveal_strlit("TAX");
        reveal_strlit("TAY");
    }
    match lo {
        0u8 => Opcode::new(0xA0, "LDY", 2, 2, AddressingMode::IMM),
        1u8 => Opcode::new(0xA1, "LDA", 2, 6, AddressingMode::IND_X),
        2u8 => Opcode::new(0xA2, "LDX", 2, 2, AddressingMode::IMM),
        3u8 => Opcode::new(0xA3, "LAX", 2, 6, AddressingMode::IND_X),
        4u8 => Opcode::new(0xA4, "LDY", 2, 3, AddressingMode::ZP),
        5u8 => Opcode::new(0xA5, "LDA", 2, 3, AddressingMode::ZP),
        6u8 => Opcode::new(0xA6, "LDX", 2, 3, AddressingMode::ZP),
        7u8 => Opcode::new(0xA7, "LAX", 2, 3, AddressingMode::ZP),
        8u8 => Opcode::new(0xA8, "TAY", 1, 2, AddressingMode::IMP),
        9u8 => Opcode::new(0xA9, "LDA", 2, 2, AddressingMode::IMM),
        10u8 => Opcode::new(0xAA, "TAX", 1, 2, AddressingMode::IMP),
        11u8 => Opcode::new(0xAB, "LAX", 2, 2, AddressingMode::IMM),
        12u8 => Opcode::new(0xAC, "LDY", 3, 4, AddressingMode::ABS),
        13u8 => Opcode::new(0xAD, "LDA", 3, 4, AddressingMode::ABS),
        14u8 => Opcode::new(0xAE, "LDX", 3, 4, AddressingMode::ABS),
        _ => Opcode::new(0xAF, "LAX", 3, 4, AddressingMode::ABS),
    }
}

fn lookup_row_b(lo: u8) -> (r: Opcode)
    ensures
        r == opcode_row_b(lo),
        1 <= r.length <= 3,
        r.cycles <= 8,
        r.mnemonic@.len() == 3,
{
    proof {
        reveal_strlit("BCS");
        reveal_strlit("CLV");
        reveal_strlit("JAM");
        reveal_strlit("LAS");
        reveal_strlit("LAX");
        reveal_strlit("LDA");
        reveal_strlit("LDX");
        reveal_strlit("LDY");
        reveal_strlit("TSX");
    }
    match lo {
        0u8 => Opcode::new(0xB0, "BCS", 2, 4, AddressingMode::REL),
        1u8 => Opcode::new(0xB1, "LDA", 2, 6, AddressingMode::IND_Y),
        2u8 => Opcode::new(0xB2, "JAM", 1, 0, AddressingMode::IMP),
        3u8 => Opcode::new(0xB3, "LAX", 2, 6, AddressingMode::IND_Y),
        4u8 => Opcode::new(0xB4, "LDY", 2, 4, AddressingMode::ZP_X),
        5u8 => Opcode::new(0xB5, "LDA", 2, 4, AddressingMode::ZP_X),
        6u8 => Opcode::new(0xB6, "LDX", 2, 4, AddressingMode::ZP_Y),
        7u8 => Opcode::new(0xB7, "LAX", 2, 4, AddressingMode::ZP_Y),
        8u8 => Opcode::new(0xB8, "CLV", 1, 2, AddressingMode::IMP),
        9u8 => Opcode::new(0xB9, "LDA", 3, 5, AddressingMode::ABS_Y),
        10u8 => Opcode::new(0xBA, "TSX", 1, 2, AddressingMode::IMP),
        11u8 => Opcode::new(0xBB, "LAS", 3, 5, AddressingMode::ABS_Y),
        12u8 => Opcode::new(0xBC, "LDY", 3, 5, AddressingMode::ABS_X),
        13u8 => Opcode::new(0xBD, "LDA", 3, 5, AddressingMode::ABS_X),
        14u8 => Opcode::new(0xBE, "LDX", 3, 5, AddressingMode::ABS_Y),
        _ => Opcode::new(0xBF, "LAX", 3, 5, AddressingMode::ABS_Y),
    }
}

fn lookup_row_c(lo: u8) -> (r: Opcode)
    ensures
        r == opcode_row_c(lo),
        1 <= r.length <= 3,
        r.cycles <= 8,
        r.mnemonic@.len() == 3,
{
    proof {
        reveal_strlit("CMP");
        reveal_strlit("CPY");
        reveal_strlit("DCP");
        reveal_strlit("DEC");
        reveal_strlit("DEX");
        reveal_strlit("INY");
        reveal_strlit("NOP");
        reveal_strlit("SBX");
    }
    match lo {
        0u8 => Opcode::new(0xC0, "CPY", 2, 2, AddressingMode::IMM),
        1u8 => Opcode::new(0xC1, "CMP", 2, 6, AddressingMode::IND_X),
        2u8 => Opcode::new(0xC2, "NOP", 2, 2, AddressingMode::IMM),
        3u8 => Opcode::new(0xC3, "DCP", 2, 8, AddressingMode::IND_X),
        4u8 => Opcode::new(0xC4, "CPY", 2, 3, AddressingMode::ZP),
        5u8 => Opcode::new(0xC5, "CMP", 2, 3, AddressingMode::ZP),
        6u8 => Opcode::new(0xC6, "DEC", 2, 5, AddressingMode::ZP),
        7u8 => Opcode::new(0xC7, "DCP", 2, 5, AddressingMode::ZP),
        8u8 => Opcode::new(0xC8, "INY", 1, 2, AddressingMode::IMP),
        9u8 => Opcode::new(0xC9, "CMP", 2, 2, AddressingMode::IMM),
        10u8 => Opcode::new(0xCA, "DEX", 1, 2, AddressingMode::IMP),
        11u8 => Opcode::new(0xCB, "SBX", 2, 2, AddressingMode::IMM),
        12u8 => Opcode::new(0xCC, "CPY", 3, 4, AddressingMode::ABS),
        13u8 => Opcode::new(0xCD, "CMP", 3, 4, AddressingMode::ABS),
        14u8 => Opcode::new(0xCE, "DEC", 3, 6, AddressingMode::ABS),
        _ => Opcode::new(0xCF, "DCP", 3, 6, AddressingMode::ABS),
    }
}

fn lookup_row_d(lo: u8) -> (r: Opcode)
    ensures
        r == opcode_row_d(lo),
        1 <= r.length <= 3,
        r.cycles <= 8,
        r.mnemonic@.len() == 3,
{
    proof {
        reveal_strlit("BNE");
        reveal_strlit("CLD");
        reveal_strlit("CMP");
        reveal_strlit("DCP");
        reveal_strlit("DEC");
        reveal_strlit("JAM");
        reveal_strlit("NOP");
    }
    match lo {
        0u8 => Opcode::new(0xD0, "BNE", 2, 4, AddressingMode::REL),
        1u8 => Opcode::new(0xD1, "CMP", 2, 6, AddressingMode::IND_Y),
        2u8 => Opcode::new(0xD2, "JAM", 1, 0, AddressingMode::IMP),
        3u8 => Opcode::new(0xD3, "DCP", 2, 8, AddressingMode::IND_Y),
        4u8 => Opcode::new(0xD4, "NOP", 2, 4, AddressingMode::ZP_X),
        5u8 => Opcode::new(0xD5, "CMP", 2, 4, AddressingMode::ZP_X),
        6u8 => Opcode::new(0xD6, "DEC", 2, 6, AddressingMode::ZP_X),
        7u8 => Opcode::new(0xD7, "DCP", 2, 6, AddressingMode::ZP_X),
        8u8 => Opcode::new(0xD8, "CLD", 1, 2, AddressingMode::IMP),
        9u8 => Opcode::new(0xD9, "CMP", 3, 5, AddressingMode::ABS_Y),
        10u8 => Opcode::new(0xDA, "NOP", 1, 2, AddressingMode::IMP),
        11u8 => Opcode::new(0xDB, "DCP", 3, 7, AddressingMode::ABS_Y),
        12u8 => Opcode::new(0xDC, "NOP", 3, 4, AddressingMode::ABS_X),
        13u8 => Opcode::new(0xDD, "CMP", 3, 5, AddressingMode::ABS_X),
        14u8 => Opcode::new(0xDE, "DEC", 3, 7, AddressingMode::ABS_X),
        _ => Opcode::new(0xDF, "DCP", 3, 7, AddressingMode::ABS_X),
    }
}

fn lookup_row_e(lo: u8) -> (r: Opcode)
    ensures
        r == opcode_row_e(lo),
        1 <= r.length <= 3,
        r.cycles <= 8,
        r.mnemonic@.len() == 3,
{
    proof {
        reveal_strlit("CPX");
        reveal_strlit("INC");
        reveal_strlit("INX");
        reveal_strlit("ISC");
        reveal_strlit("NOP");
        reveal_strlit("SBC");
    }
    match lo {
        0u8 => Opcode::new(0xE0, "CPX", 2, 2, AddressingMode::IMM),
        1u8 => Opcode::new(0xE1, "SBC", 2, 6, AddressingMode::IND_X),
        2u8 => Opcode::new(0xE2, "NOP", 2, 2, AddressingMode::IMM),
        3u8 => Opcode::new(0xE3, "ISC", 2, 8, AddressingMode::IND_X),
        4u8 => Opcode::new(0xE4, "CPX", 2, 3, AddressingMode::ZP),
        5u8 => Opcode::new(0xE5, "SBC", 2, 3, AddressingMode::ZP),
        6u8 => Opcode::new(0xE6, "INC", 2, 5, AddressingMode::ZP),
        7u8 => Opcode::new(0xE7, "ISC", 2, 5, AddressingMode::ZP),
        8u8 => Opcode::new(0xE8, "INX", 1, 2, AddressingMode::IMP),
        9u8 => Opcode::new(0xE9, "SBC", 2, 2, AddressingMode::IMM),
        10u8 => Opcode::new(0xEA, "NOP", 1, 2, AddressingMode::IMP),
        11u8 => Opcode::new(0xEB, "SBC", 2, 2, AddressingMode::IMM),
        12u8 => Opcode::new(0xEC, "CPX", 3, 4, AddressingMode::ABS),
        13u8 => Opcode::new(0xED, "SBC", 3, 4, AddressingMode::ABS),
        14u8 => Opcode::new(0xEE, "INC", 3, 6, AddressingMode::ABS),
        _ => Opcode::new(0xEF, "ISC", 3, 6, AddressingMode::ABS),
    }
}

fn lookup_row_f(lo: u8) -> (r: Opcode)
    ensures
        r == opcode_row_f(lo),
        1 <= r.length <= 3,
        r.cycles <= 8,
        r.mnemonic@.len() == 3,
{
    proof {
        reveal_strlit("BEQ");
        reveal_strlit("INC");
        reveal_strlit("ISC");
        reveal_strlit("JAM");
        reveal_strlit("NOP");
        reveal_strlit("SBC");
        reveal_strlit("SED");
    }
    match lo {
        0u8 => Opcode::new(0xF0, "BEQ", 2, 4, AddressingMode::REL),
        1u8 => Opcode::new(0xF1, "SBC", 2, 6, AddressingMode::IND_Y),
        2u8 => Opcode::new(0xF2, "JAM", 1, 0, AddressingMode::IMP),
        3u8 => Opcode::new(0xF3, "ISC", 2, 8, AddressingMode::IND_Y),
        4u8 => Opcode::new(0xF4, "NOP", 2, 4, AddressingMode::ZP_X),
        5u8 => Opcode::new(0xF5, "SBC", 2, 4, AddressingMode::ZP_X),
        6u8 => Opcode::new(0xF6, "INC", 2, 6, AddressingMode::ZP_X),
        7u8 => Opcode::new(0xF7, "ISC", 2, 6, AddressingMode::ZP_X),
        8u8 => Opcode::new(0xF8, "SED", 1, 2, AddressingMode::IMP),
        9u8 => Opcode::new(0xF9, "SBC", 3, 5, AddressingMode::ABS_Y),
        10u8 => Opcode::new(0xFA, "NOP", 1, 2, AddressingMode::IMP),
        11u8 => Opcode::new(0xFB, "ISC", 3, 7, AddressingMode::ABS_Y),
        12u8 => Opcode::new(0xFC, "NOP", 3, 4, AddressingMode::ABS_X),
        13u8 => Opcode::new(0xFD, "SBC", 3, 5, AddressingMode::ABS_X),
        14u8 => Opcode::new(0xFE, "INC", 3, 7, AddressingMode::ABS_X),
        _ => Opcode::new(0xFF, "ISC", 3, 7, AddressingMode::ABS_X),
    }
}

} // verus!
