//! The base instruction set: what each opcode byte stands for.

use vstd::prelude::*;

verus! {

/// An instruction of the base table. Where a variant carries a register
/// code, the codes 0 to 7 stand for B, C, D, E, H, L, the byte at HL, and A.
/// A pair code stands for BC, DE, HL and, as the fourth, SP, or AF where the
/// stack is concerned. A condition code stands for not-zero, zero,
/// not-carry, carry.
#[derive(Clone, Copy, Debug, PartialEq, Eq, Structural)]
pub enum Instr {
    /// No operation.
    Nop,
    /// Store SP at the address that follows.
    StoreSp,
    /// Jump by the signed offset that follows.
    Jr,
    /// Jump by the signed offset that follows if the condition holds.
    JrCond(u8),
    /// Load a pair with the word that follows.
    LoadPairImm(u8),
    /// Add a pair to HL.
    AddHl(u8),
    /// Store A at the address in BC, DE, HL with increment or HL with decrement.
    StoreA(u8),
    /// Load A from the address in BC, DE, HL with increment or HL with decrement.
    LoadA(u8),
    /// Increment a pair.
    IncPair(u8),
    /// Decrement a pair.
    DecPair(u8),
    /// Increment an 8-bit operand.
    Inc(u8),
    /// Decrement an 8-bit operand.
    Dec(u8),
    /// Load an 8-bit operand with the byte that follows.
    LoadImm(u8),
    /// Rotate A left.
    Rlca,
    /// Rotate A right.
    Rrca,
    /// Rotate A left through the carry.
    Rla,
    /// Rotate A right through the carry.
    Rra,
    /// Adjust A to packed decimal.
    Daa,
    /// Complement A.
    Cpl,
    /// Set the carry flag.
    Scf,
    /// Complement the carry flag.
    Ccf,
    /// Wait for an interrupt.
    Halt,
    /// Copy the second operand to the first.
    Load(u8, u8),
    /// Arithmetic or logic on A with an operand: the operations 0 to 7 are
    /// add, add with carry, subtract, subtract with carry, and, xor, or,
    /// compare.
    Alu(u8, u8),
    /// Arithmetic or logic on A with the byte that follows.
    AluImm(u8),
    /// Return if the condition holds.
    RetCond(u8),
    /// Return.
    Ret,
    /// Return and enable interrupts.
    Reti,
    /// Pop a pair from the stack.
    Pop(u8),
    /// Push a pair on the stack.
    Push(u8),
    /// Jump to the address that follows if the condition holds.
    JpCond(u8),
    /// Jump to the address that follows.
    Jp,
    /// Jump to the address in HL.
    JpHl,
    /// Call the address that follows if the condition holds.
    CallCond(u8),
    /// Call the address that follows.
    Call,
    /// Call the fixed address carried.
    Rst(u8),
    /// Store A in the high page at the offset that follows.
    StoreHigh,
    /// Load A from the high page at the offset that follows.
    LoadHigh,
    /// Store A in the high page at the offset in C.
    StoreHighC,
    /// Load A from the high page at the offset in C.
    LoadHighC,
    /// Store A at the address that follows.
    StoreAbs,
    /// Load A from the address that follows.
    LoadAbs,
    /// Add the signed byte that follows to SP.
    AddSp,
    /// Load HL with SP plus the signed byte that follows.
    LoadHlSp,
    /// Load SP with HL.
    LoadSpHl,
    /// Disable interrupts.
    Di,
    /// Enable interrupts.
    Ei,
    /// The prefix of the extended instructions.
    Prefixed,
    /// No instruction.
    Undefined,
}

/// The instruction of the first quarter of the table, from its fields.
pub open spec fn decode_low(y: u8, z: u8) -> Instr {
    let p = y / 2;
    let q = y % 2;
    if z == 0 {
        if y == 0 {
            Instr::Nop
        } else if y == 1 {
            Instr::StoreSp
        } else if y == 2 {
            Instr::Undefined
        } else if y == 3 {
            Instr::Jr
        } else {
            Instr::JrCond((y - 4) as u8)
        }
    } else if z == 1 {
        if q == 0 {
            Instr::LoadPairImm(p)
        } else {
            Instr::AddHl(p)
        }
    } else if z == 2 {
        if q == 0 {
            Instr::StoreA(p)
        } else {
            Instr::LoadA(p)
        }
    } else if z == 3 {
        if q == 0 {
            Instr::IncPair(p)
        } else {
            Instr::DecPair(p)
        }
    } else if z == 4 {
        Instr::Inc(y)
    } else if z == 5 {
        Instr::Dec(y)
    } else if z == 6 {
        Instr::LoadImm(y)
    } else if y == 0 {
        Instr::Rlca
    } else if y == 1 {
        Instr::Rrca
    } else if y == 2 {
        Instr::Rla
    } else if y == 3 {
        Instr::Rra
    } else if y == 4 {
        Instr::Daa
    } else if y == 5 {
        Instr::Cpl
    } else if y == 6 {
        Instr::Scf
    } else {
        Instr::Ccf
    }
}

/// The instruction of the last quarter of the table, from its fields.
pub open spec fn decode_high(y: u8, z: u8) -> Instr {
    let p = y / 2;
    let q = y % 2;
    if z == 0 {
        if y < 4 {
            Instr::RetCond(y)
        } else if y == 4 {
            Instr::StoreHigh
        } else if y == 5 {
            Instr::AddSp
        } else if y == 6 {
            Instr::LoadHigh
        } else {
            Instr::LoadHlSp
        }
    } else if z == 1 {
        if q == 0 {
            Instr::Pop(p)
        } else if p == 0 {
            Instr::Ret
        } else if p == 1 {
            Instr::Reti
        } else if p == 2 {
            Instr::JpHl
        } else {
            Instr::LoadSpHl
        }
    } else if z == 2 {
        if y < 4 {
            Instr::JpCond(y)
        } else if y == 4 {
            Instr::StoreHighC
        } else if y == 5 {
            Instr::StoreAbs
        } else if y == 6 {
            Instr::LoadHighC
        } else {
            Instr::LoadAbs
        }
    } else if z == 3 {
        if y == 0 {
            Instr::Jp
        } else if y == 1 {
            Instr::Prefixed
        } else if y == 6 {
            Instr::Di
        } else if y == 7 {
            Instr::Ei
        } else {
            Instr::Undefined
        }
    } else if z == 4 {
        if y < 4 {
            Instr::CallCond(y)
        } else {
            Instr::Undefined
        }
    } else if z == 5 {
        if q == 0 {
            Instr::Push(p)
        } else if p == 0 {
            Instr::Call
        } else {
            Instr::Undefined
        }
    } else if z == 6 {
        Instr::AluImm(y)
    } else {
        Instr::Rst((8 * y) as u8)
    }
}

/// The instruction that an opcode stands for. The opcode is read as three
/// fields: its top two bits choose a quarter of the table, the next three
/// and the low three choose within it.
pub open spec fn decode_spec(opcode: u8) -> Instr {
    let x = opcode / 64;
    let y = (opcode / 8) % 8;
    let z = opcode % 8;
    if x == 0 {
        decode_low(y, z)
    } else if x == 1 {
        if opcode == 0x76 {
            Instr::Halt
        } else {
            Instr::Load(y, z)
        }
    } else if x == 2 {
        Instr::Alu(y, z)
    } else {
        decode_high(y, z)
    }
}

impl Instr {
    /// Every code that the instruction carries is in its range.
    pub open spec fn well_formed(self) -> bool {
        match self {
            Instr::JrCond(c) | Instr::RetCond(c) | Instr::JpCond(c) | Instr::CallCond(c) => c < 4,
            Instr::LoadPairImm(p)
            | Instr::AddHl(p)
            | Instr::StoreA(p)
            | Instr::LoadA(p)
            | Instr::IncPair(p)
            | Instr::DecPair(p)
            | Instr::Pop(p)
            | Instr::Push(p) => p < 4,
            Instr::Inc(r) | Instr::Dec(r) | Instr::LoadImm(r) => r < 8,
            Instr::Load(dst, src) => dst < 8 && src < 8 && !(dst == 6 && src == 6),
            Instr::Alu(op, r) => op < 8 && r < 8,
            Instr::AluImm(op) => op < 8,
            Instr::Rst(target) => target % 8 == 0 && target < 0x40,
            _ => true,
        }
    }
}

/// Decoding gives an instruction whose codes are in range.
pub proof fn lemma_decode_well_formed(opcode: u8)
    ensures
        decode_spec(opcode).well_formed(),
{
}

/// The instruction that an opcode stands for.
pub fn decode(opcode: u8) -> (instr: Instr)
    ensures
        instr == decode_spec(opcode),
        instr.well_formed(),
{
    match opcode {
        0x00 => Instr::Nop,
        0x01 => Instr::LoadPairImm(0),
        0x02 => Instr::StoreA(0),
        0x03 => Instr::IncPair(0),
        0x04 => Instr::Inc(0),
        0x05 => Instr::Dec(0),
        0x06 => Instr::LoadImm(0),
        0x07 => Instr::Rlca,
        0x08 => Instr::StoreSp,
        0x09 => Instr::AddHl(0),
        0x0a => Instr::LoadA(0),
        0x0b => Instr::DecPair(0),
        0x0c => Instr::Inc(1),
        0x0d => Instr::Dec(1),
        0x0e => Instr::LoadImm(1),
        0x0f => Instr::Rrca,
        0x10 => Instr::Undefined,
        0x11 => Instr::LoadPairImm(1),
        0x12 => Instr::StoreA(1),
        0x13 => Instr::IncPair(1),
        0x14 => Instr::Inc(2),
        0x15 => Instr::Dec(2),
        0x16 => Instr::LoadImm(2),
        0x17 => Instr::Rla,
        0x18 => Instr::Jr,
        0x19 => Instr::AddHl(1),
        0x1a => Instr::LoadA(1),
        0x1b => Instr::DecPair(1),
        0x1c => Instr::Inc(3),
        0x1d => Instr::Dec(3),
        0x1e => Instr::LoadImm(3),
        0x1f => Instr::Rra,
        0x20 => Instr::JrCond(0),
        0x21 => Instr::LoadPairImm(2),
        0x22 => Instr::StoreA(2),
        0x23 => Instr::IncPair(2),
        0x24 => Instr::Inc(4),
        0x25 => Instr::Dec(4),
        0x26 => Instr::LoadImm(4),
        0x27 => Instr::Daa,
        0x28 => Instr::JrCond(1),
        0x29 => Instr::AddHl(2),
        0x2a => Instr::LoadA(2),
        0x2b => Instr::DecPair(2),
        0x2c => Instr::Inc(5),
        0x2d => Instr::Dec(5),
        0x2e => Instr::LoadImm(5),
        0x2f => Instr::Cpl,
        0x30 => Instr::JrCond(2),
        0x31 => Instr::LoadPairImm(3),
        0x32 => Instr::StoreA(3),
        0x33 => Instr::IncPair(3),
        0x34 => Instr::Inc(6),
        0x35 => Instr::Dec(6),
        0x36 => Instr::LoadImm(6),
        0x37 => Instr::Scf,
        0x38 => Instr::JrCond(3),
        0x39 => Instr::AddHl(3),
        0x3a => Instr::LoadA(3),
        0x3b => Instr::DecPair(3),
        0x3c => Instr::Inc(7),
        0x3d => Instr::Dec(7),
        0x3e => Instr::LoadImm(7),
        0x3f => Instr::Ccf,
        0x40 => Instr::Load(0, 0),
        0x41 => Instr::Load(0, 1),
        0x42 => Instr::Load(0, 2),
        0x43 => Instr::Load(0, 3),
        0x44 => Instr::Load(0, 4),
        0x45 => Instr::Load(0, 5),
        0x46 => Instr::Load(0, 6),
        0x47 => Instr::Load(0, 7),
        0x48 => Instr::Load(1, 0),
        0x49 => Instr::Load(1, 1),
        0x4a => Instr::Load(1, 2),
        0x4b => Instr::Load(1, 3),
        0x4c => Instr::Load(1, 4),
        0x4d => Instr::Load(1, 5),
        0x4e => Instr::Load(1, 6),
        0x4f => Instr::Load(1, 7),
        0x50 => Instr::Load(2, 0),
        0x51 => Instr::Load(2, 1),
        0x52 => Instr::Load(2, 2),
        0x53 => Instr::Load(2, 3),
        0x54 => Instr::Load(2, 4),
        0x55 => Instr::Load(2, 5),
        0x56 => Instr::Load(2, 6),
        0x57 => Instr::Load(2, 7),
        0x58 => Instr::Load(3, 0),
        0x59 => Instr::Load(3, 1),
        0x5a => Instr::Load(3, 2),
        0x5b => Instr::Load(3, 3),
        0x5c => Instr::Load(3, 4),
        0x5d => Instr::Load(3, 5),
        0x5e => Instr::Load(3, 6),
        0x5f => Instr::Load(3, 7),
        0x60 => Instr::Load(4, 0),
        0x61 => Instr::Load(4, 1),
        0x62 => Instr::Load(4, 2),
        0x63 => Instr::Load(4, 3),
        0x64 => Instr::Load(4, 4),
        0x65 => Instr::Load(4, 5),
        0x66 => Instr::Load(4, 6),
        0x67 => Instr::Load(4, 7),
        0x68 => Instr::Load(5, 0),
        0x69 => Instr::Load(5, 1),
        0x6a => Instr::Load(5, 2),
        0x6b => Instr::Load(5, 3),
        0x6c => Instr::Load(5, 4),
        0x6d => Instr::Load(5, 5),
        0x6e => Instr::Load(5, 6),
        0x6f => Instr::Load(5, 7),
        0x70 => Instr::Load(6, 0),
        0x71 => Instr::Load(6, 1),
        0x72 => Instr::Load(6, 2),
        0x73 => Instr::Load(6, 3),
        0x74 => Instr::Load(6, 4),
        0x75 => Instr::Load(6, 5),
        0x76 => Instr::Halt,
        0x77 => Instr::Load(6, 7),
        0x78 => Instr::Load(7, 0),
        0x79 => Instr::Load(7, 1),
        0x7a => Instr::Load(7, 2),
        0x7b => Instr::Load(7, 3),
        0x7c => Instr::Load(7, 4),
        0x7d => Instr::Load(7, 5),
        0x7e => Instr::Load(7, 6),
        0x7f => Instr::Load(7, 7),
        0x80 => Instr::Alu(0, 0),
        0x81 => Instr::Alu(0, 1),
        0x82 => Instr::Alu(0, 2),
        0x83 => Instr::Alu(0, 3),
        0x84 => Instr::Alu(0, 4),
        0x85 => Instr::Alu(0, 5),
        0x86 => Instr::Alu(0, 6),
        0x87 => Instr::Alu(0, 7),
        0x88 => Instr::Alu(1, 0),
        0x89 => Instr::Alu(1, 1),
        0x8a => Instr::Alu(1, 2),
        0x8b => Instr::Alu(1, 3),
        0x8c => Instr::Alu(1, 4),
        0x8d => Instr::Alu(1, 5),
        0x8e => Instr::Alu(1, 6),
        0x8f => Instr::Alu(1, 7),
        0x90 => Instr::Alu(2, 0),
        0x91 => Instr::Alu(2, 1),
        0x92 => Instr::Alu(2, 2),
        0x93 => Instr::Alu(2, 3),
        0x94 => Instr::Alu(2, 4),
        0x95 => Instr::Alu(2, 5),
        0x96 => Instr::Alu(2, 6),
        0x97 => Instr::Alu(2, 7),
        0x98 => Instr::Alu(3, 0),
        0x99 => Instr::Alu(3, 1),
        0x9a => Instr::Alu(3, 2),
        0x9b => Instr::Alu(3, 3),
        0x9c => Instr::Alu(3, 4),
        0x9d => Instr::Alu(3, 5),
        0x9e => Instr::Alu(3, 6),
        0x9f => Instr::Alu(3, 7),
        0xa0 => Instr::Alu(4, 0),
        0xa1 => Instr::Alu(4, 1),
        0xa2 => Instr::Alu(4, 2),
        0xa3 => Instr::Alu(4, 3),
        0xa4 => Instr::Alu(4, 4),
        0xa5 => Instr::Alu(4, 5),
        0xa6 => Instr::Alu(4, 6),
        0xa7 => Instr::Alu(4, 7),
        0xa8 => Instr::Alu(5, 0),
        0xa9 => Instr::Alu(5, 1),
        0xaa => Instr::Alu(5, 2),
        0xab => Instr::Alu(5, 3),
        0xac => Instr::Alu(5, 4),
        0xad => Instr::Alu(5, 5),
        0xae => Instr::Alu(5, 6),
        0xaf => Instr::Alu(5, 7),
        0xb0 => Instr::Alu(6, 0),
        0xb1 => Instr::Alu(6, 1),
        0xb2 => Instr::Alu(6, 2),
        0xb3 => Instr::Alu(6, 3),
        0xb4 => Instr::Alu(6, 4),
        0xb5 => Instr::Alu(6, 5),
        0xb6 => Instr::Alu(6, 6),
        0xb7 => Instr::Alu(6, 7),
        0xb8 => Instr::Alu(7, 0),
        0xb9 => Instr::Alu(7, 1),
        0xba => Instr::Alu(7, 2),
        0xbb => Instr::Alu(7, 3),
        0xbc => Instr::Alu(7, 4),
        0xbd => Instr::Alu(7, 5),
        0xbe => Instr::Alu(7, 6),
        0xbf => Instr::Alu(7, 7),
        0xc0 => Instr::RetCond(0),
        0xc1 => Instr::Pop(0),
        0xc2 => Instr::JpCond(0),
        0xc3 => Instr::Jp,
        0xc4 => Instr::CallCond(0),
        0xc5 => Instr::Push(0),
        0xc6 => Instr::AluImm(0),
        0xc7 => Instr::Rst(0x00),
        0xc8 => Instr::RetCond(1),
        0xc9 => Instr::Ret,
        0xca => Instr::JpCond(1),
        0xcb => Instr::Prefixed,
        0xcc => Instr::CallCond(1),
        0xcd => Instr::Call,
        0xce => Instr::AluImm(1),
        0xcf => Instr::Rst(0x08),
        0xd0 => Instr::RetCond(2),
        0xd1 => Instr::Pop(1),
        0xd2 => Instr::JpCond(2),
        0xd3 => Instr::Undefined,
        0xd4 => Instr::CallCond(2),
        0xd5 => Instr::Push(1),
        0xd6 => Instr::AluImm(2),
        0xd7 => Instr::Rst(0x10),
        0xd8 => Instr::RetCond(3),
        0xd9 => Instr::Reti,
        0xda => Instr::JpCond(3),
        0xdb => Instr::Undefined,
        0xdc => Instr::CallCond(3),
        0xdd => Instr::Undefined,
        0xde => Instr::AluImm(3),
        0xdf => Instr::Rst(0x18),
        0xe0 => Instr::StoreHigh,
        0xe1 => Instr::Pop(2),
        0xe2 => Instr::StoreHighC,
        0xe3 => Instr::Undefined,
        0xe4 => Instr::Undefined,
        0xe5 => Instr::Push(2),
        0xe6 => Instr::AluImm(4),
        0xe7 => Instr::Rst(0x20),
        0xe8 => Instr::AddSp,
        0xe9 => Instr::JpHl,
        0xea => Instr::StoreAbs,
        0xeb => Instr::Undefined,
        0xec => Instr::Undefined,
        0xed => Instr::Undefined,
        0xee => Instr::AluImm(5),
        0xef => Instr::Rst(0x28),
        0xf0 => Instr::LoadHigh,
        0xf1 => Instr::Pop(3),
        0xf2 => Instr::LoadHighC,
        0xf3 => Instr::Di,
        0xf4 => Instr::Undefined,
        0xf5 => Instr::Push(3),
        0xf6 => Instr::AluImm(6),
        0xf7 => Instr::Rst(0x30),
        0xf8 => Instr::LoadHlSp,
        0xf9 => Instr::LoadSpHl,
        0xfa => Instr::LoadAbs,
        0xfb => Instr::Ei,
        0xfc => Instr::Undefined,
        0xfd => Instr::Undefined,
        0xfe => Instr::AluImm(7),
        0xff => Instr::Rst(0x38),
    }
}

} // verus!
