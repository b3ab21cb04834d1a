use vstd::prelude::*;
use crate::console::cpu::instr::{Mnemonic, group_one_mnemonic};
use crate::console::cpu::{
    Flow, adc_carry, adc_overflow, adc_value, add_with_carry, branch_target, compare_status,
    lemma_word, rol_value, word,
};

verus! {

/// The processor status flags.
#[derive(Clone, Copy, PartialEq, Eq, Structural, Debug)]
pub struct StatusFlags {
    pub carry: bool,
    pub zero: bool,
    pub irq_disable: bool,
    pub decimal: bool,
    pub break_cmd: bool,
    pub overflow: bool,
    pub negative: bool,
}

pub const CARRY_FLAG: u8 = 0x01;
pub const ZERO_FLAG: u8 = 0x02;
pub const IRQ_DISABLE_FLAG: u8 = 0x04;
pub const DECIMAL_FLAG: u8 = 0x08;
pub const BREAK_CMD: u8 = 0x10;
pub const OVERFLOW_FLAG: u8 = 0x40;
pub const NEGATIVE_FLAG: u8 = 0x80;
pub const SIGN_MASK: u8 = 0x80;
pub const RESET_ADDR: u16 = 0xFFFC;
pub const STACK_PAGE: u16 = 0x0100;

/// The flags held in a status byte (bit 5 is not a flag).
pub open spec fn flags_of(v: u8) -> StatusFlags {
    StatusFlags {
        carry: v & CARRY_FLAG != 0,
        zero: v & ZERO_FLAG != 0,
        irq_disable: v & IRQ_DISABLE_FLAG != 0,
        decimal: v & DECIMAL_FLAG != 0,
        break_cmd: v & BREAK_CMD != 0,
        overflow: v & OVERFLOW_FLAG != 0,
        negative: v & NEGATIVE_FLAG != 0,
    }
}

/// `w` when `b` holds, else 0.
pub open spec fn bit_if(b: bool, w: u8) -> u8 {
    if b {
        w
    } else {
        0
    }
}

/// The status byte of a set of flags; bit 5 reads as clear.
pub open spec fn flags_byte(s: StatusFlags) -> u8 {
    (bit_if(s.carry, 0x01) + bit_if(s.zero, 0x02) + bit_if(s.irq_disable, 0x04) + bit_if(s.decimal, 0x08)
        + bit_if(s.break_cmd, 0x10) + bit_if(s.overflow, 0x40) + bit_if(s.negative, 0x80)) as u8
}

impl From<StatusFlags> for u8 {
    fn from(status: StatusFlags) -> (r: u8) {
        let mut v: u8 = 0;
        if status.carry {
            v = v + 0x01;
        }
        if status.zero {
            v = v + 0x02;
        }
        if status.irq_disable {
            v = v + 0x04;
        }
        if status.decimal {
            v = v + 0x08;
        }
        if status.break_cmd {
            v = v + 0x10;
        }
        if status.overflow {
            v = v + 0x40;
        }
        if status.negative {
            v = v + 0x80;
        }
        v
    }
}

impl vstd::std_specs::convert::FromSpecImpl<StatusFlags> for u8 {
    open spec fn obeys_from_spec() -> bool {
        true
    }

    open spec fn from_spec(s: StatusFlags) -> u8 {
        flags_byte(s)
    }
}

impl From<u8> for StatusFlags {
    fn from(status: u8) -> (r: Self) {
        StatusFlags {
            carry: status & CARRY_FLAG != 0,
            zero: status & ZERO_FLAG != 0,
            irq_disable: status & IRQ_DISABLE_FLAG != 0,
            decimal: status & DECIMAL_FLAG != 0,
            break_cmd: status & BREAK_CMD != 0,
            overflow: status & OVERFLOW_FLAG != 0,
            negative: status & NEGATIVE_FLAG != 0,
        }
    }
}

impl vstd::std_specs::convert::FromSpecImpl<u8> for StatusFlags {
    open spec fn obeys_from_spec() -> bool {
        true
    }

    open spec fn from_spec(v: u8) -> StatusFlags {
        flags_of(v)
    }
}

/// Flags turned into a byte and back are the same flags; a byte turned into flags and
/// back loses only bit 5.
pub proof fn lemma_flags_roundtrip(s: StatusFlags, v: u8)
    ensures
        flags_of(flags_byte(s)) == s,
        flags_byte(flags_of(v)) == v & 0xDF,
{
    let (c, z, i, d, b, o, n) = (s.carry, s.zero, s.irq_disable, s.decimal, s.break_cmd, s.overflow, s.negative);
    assert({
        let w = ((if c { 1u8 } else { 0u8 }) + (if z { 2u8 } else { 0u8 }) + (if i { 4u8 } else { 0u8 })
            + (if d { 8u8 } else { 0u8 }) + (if b { 16u8 } else { 0u8 }) + (if o { 64u8 } else { 0u8 })
            + (if n { 128u8 } else { 0u8 })) as u8;
        &&& (w & 0x01 != 0) == c
        &&& (w & 0x02 != 0) == z
        &&& (w & 0x04 != 0) == i
        &&& (w & 0x08 != 0) == d
        &&& (w & 0x10 != 0) == b
        &&& (w & 0x40 != 0) == o
        &&& (w & 0x80 != 0) == n
    }) by (bit_vector);
    assert(((if v & 0x01 != 0 { 1u8 } else { 0u8 }) + (if v & 0x02 != 0 { 2u8 } else { 0u8 }) + (if v & 0x04
        != 0 { 4u8 } else { 0u8 }) + (if v & 0x08 != 0 { 8u8 } else { 0u8 }) + (if v & 0x10 != 0 {
        16u8
    } else {
        0u8
    }) + (if v & 0x40 != 0 { 64u8 } else { 0u8 }) + (if v & 0x80 != 0 { 128u8 } else { 0u8 })) as u8
        == v & 0xDF) by (bit_vector);
}

/// How an instruction finds its operand.
#[derive(Clone, Copy, PartialEq, Eq, Structural, Debug)]
pub enum AddressingMode {
    Immediate,
    ZeroPage,
    ZeroPageX,
    ZeroPageY,
    Absolute,
    AbsoluteX,
    AbsoluteY,
    IndirectX,
    IndirectY,
    NoneAddressing,
}

/// One entry of the opcode table.
#[derive(Clone, Copy, PartialEq, Eq, Structural, Debug)]
pub struct Instruction {
    pub opcode: u8,
    pub mnemonic: Mnemonic,
    pub addressing_mode: AddressingMode,
    pub bytes: u8,
    pub duration: u8,
}

/// Operations that read or write through an operand address.
pub open spec fn takes_operand(m: Mnemonic) -> bool {
    match m {
        Mnemonic::Adc | Mnemonic::And | Mnemonic::Bit | Mnemonic::Cmp | Mnemonic::Cpx | Mnemonic::Cpy
        | Mnemonic::Dec | Mnemonic::Eor | Mnemonic::Inc | Mnemonic::Lda | Mnemonic::Ldx | Mnemonic::Ldy
        | Mnemonic::Ora | Mnemonic::Sbc | Mnemonic::Sta | Mnemonic::Stx | Mnemonic::Sty => true,
        _ => false,
    }
}

impl Instruction {
    /// The addressing mode suits the operation.
    pub open spec fn wf(self) -> bool {
        &&& takes_operand(self.mnemonic) ==> self.addressing_mode != AddressingMode::NoneAddressing
        &&& self.mnemonic == Mnemonic::Jmp ==> (self.addressing_mode == AddressingMode::Absolute
            || self.addressing_mode == AddressingMode::NoneAddressing)
        &&& 1 <= self.bytes <= 3
    }

    pub fn new(opcode: u8, mnemonic: Mnemonic, bytes: u8, duration: u8, addressing_mode: AddressingMode) -> (r: Self)
        ensures
            r == (Instruction { opcode, mnemonic, addressing_mode, bytes, duration }),
    {
        Instruction { opcode, mnemonic, bytes, duration, addressing_mode }
    }
}

/// The opcode table of this processor: the official opcodes it implements.
pub open spec fn instruction_for(op: u8) -> Option<Instruction> {
    match op {
        0x00 => Some(Instruction { opcode: 0x00, mnemonic: Mnemonic::Brk, bytes: 1, duration: 7, addressing_mode: AddressingMode::NoneAddressing }),
        0x01 => Some(Instruction { opcode: 0x01, mnemonic: Mnemonic::Ora, bytes: 2, duration: 6, addressing_mode: AddressingMode::IndirectX }),
        0x05 => Some(Instruction { opcode: 0x05, mnemonic: Mnemonic::Ora, bytes: 2, duration: 3, addressing_mode: AddressingMode::ZeroPage }),
        0x06 => Some(Instruction { opcode: 0x06, mnemonic: Mnemonic::Asl, bytes: 2, duration: 5, addressing_mode: AddressingMode::ZeroPage }),
        0x08 => Some(Instruction { opcode: 0x08, mnemonic: Mnemonic::Php, bytes: 1, duration: 3, addressing_mode: AddressingMode::NoneAddressing }),
        0x09 => Some(Instruction { opcode: 0x09, mnemonic: Mnemonic::Ora, bytes: 2, duration: 2, addressing_mode: AddressingMode::Immediate }),
        0x0A => Some(Instruction { opcode: 0x0A, mnemonic: Mnemonic::Asl, bytes: 1, duration: 2, addressing_mode: AddressingMode::NoneAddressing }),
        0x0D => Some(Instruction { opcode: 0x0D, mnemonic: Mnemonic::Ora, bytes: 3, duration: 4, addressing_mode: AddressingMode::Absolute }),
        0x0E => Some(Instruction { opcode: 0x0E, mnemonic: Mnemonic::Asl, bytes: 3, duration: 6, addressing_mode: AddressingMode::Absolute }),
        0x10 => Some(Instruction { opcode: 0x10, mnemonic: Mnemonic::Bpl, bytes: 2, duration: 2, addressing_mode: AddressingMode::NoneAddressing }),
        0x11 => Some(Instruction { opcode: 0x11, mnemonic: Mnemonic::Ora, bytes: 2, duration: 5, addressing_mode: AddressingMode::IndirectY }),
        0x15 => Some(Instruction { opcode: 0x15, mnemonic: Mnemonic::Ora, bytes: 2, duration: 4, addressing_mode: AddressingMode::ZeroPageX }),
        0x16 => Some(Instruction { opcode: 0x16, mnemonic: Mnemonic::Asl, bytes: 2, duration: 6, addressing_mode: AddressingMode::ZeroPageX }),
        0x18 => Some(Instruction { opcode: 0x18, mnemonic: Mnemonic::Clc, bytes: 1, duration: 2, addressing_mode: AddressingMode::NoneAddressing }),
        0x19 => Some(Instruction { opcode: 0x19, mnemonic: Mnemonic::Ora, bytes: 3, duration: 4, addressing_mode: AddressingMode::AbsoluteY }),
        0x1D => Some(Instruction { opcode: 0x1D, mnemonic: Mnemonic::Ora, bytes: 3, duration: 4, addressing_mode: AddressingMode::AbsoluteX }),
        0x1E => Some(Instruction { opcode: 0x1E, mnemonic: Mnemonic::Asl, bytes: 3, duration: 7, addressing_mode: AddressingMode::AbsoluteX }),
        0x20 => Some(Instruction { opcode: 0x20, mnemonic: Mnemonic::Jsr, bytes: 3, duration: 6, addressing_mode: AddressingMode::Absolute }),
        0x21 => Some(Instruction { opcode: 0x21, mnemonic: Mnemonic::And, bytes: 2, duration: 6, addressing_mode: AddressingMode::IndirectX }),
        0x24 => Some(Instruction { opcode: 0x24, mnemonic: Mnemonic::Bit, bytes: 2, duration: 3, addressing_mode: AddressingMode::ZeroPage }),
        0x25 => Some(Instruction { opcode: 0x25, mnemonic: Mnemonic::And, bytes: 2, duration: 3, addressing_mode: AddressingMode::ZeroPage }),
        0x26 => Some(Instruction { opcode: 0x26, mnemonic: Mnemonic::Rol, bytes: 2, duration: 5, addressing_mode: AddressingMode::ZeroPage }),
        0x28 => Some(Instruction { opcode: 0x28, mnemonic: Mnemonic::Plp, bytes: 1, duration: 4, addressing_mode: AddressingMode::NoneAddressing }),
        0x29 => Some(Instruction { opcode: 0x29, mnemonic: Mnemonic::And, bytes: 2, duration: 2, addressing_mode: AddressingMode::Immediate }),
        0x2A => Some(Instruction { opcode: 0x2A, mnemonic: Mnemonic::Rol, bytes: 1, duration: 2, addressing_mode: AddressingMode::NoneAddressing }),
        0x2C => Some(Instruction { opcode: 0x2C, mnemonic: Mnemonic::Bit, bytes: 3, duration: 4, addressing_mode: AddressingMode::Absolute }),
        0x2D => Some(Instruction { opcode: 0x2D, mnemonic: Mnemonic::And, bytes: 3, duration: 4, addressing_mode: AddressingMode::Absolute }),
        0x2E => Some(Instruction { opcode: 0x2E, mnemonic: Mnemonic::Rol, bytes: 3, duration: 6, addressing_mode: AddressingMode::Absolute }),
        0x30 => Some(Instruction { opcode: 0x30, mnemonic: Mnemonic::Bmi, bytes: 2, duration: 2, addressing_mode: AddressingMode::NoneAddressing }),
        0x31 => Some(Instruction { opcode: 0x31, mnemonic: Mnemonic::And, bytes: 2, duration: 5, addressing_mode: AddressingMode::IndirectY }),
        0x35 => Some(Instruction { opcode: 0x35, mnemonic: Mnemonic::And, bytes: 2, duration: 4, addressing_mode: AddressingMode::ZeroPageX }),
        0x36 => Some(Instruction { opcode: 0x36, mnemonic: Mnemonic::Rol, bytes: 2, duration: 6, addressing_mode: AddressingMode::ZeroPageX }),
        0x38 => Some(Instruction { opcode: 0x38, mnemonic: Mnemonic::Sec, bytes: 1, duration: 2, addressing_mode: AddressingMode::NoneAddressing }),
        0x39 => Some(Instruction { opcode: 0x39, mnemonic: Mnemonic::And, bytes: 3, duration: 4, addressing_mode: AddressingMode::AbsoluteY }),
        0x3D => Some(Instruction { opcode: 0x3D, mnemonic: Mnemonic::And, bytes: 3, duration: 4, addressing_mode: AddressingMode::AbsoluteX }),
        0x3E => Some(Instruction { opcode: 0x3E, mnemonic: Mnemonic::Rol, bytes: 3, duration: 7, addressing_mode: AddressingMode::AbsoluteX }),
        0x40 => Some(Instruction { opcode: 0x40, mnemonic: Mnemonic::Rti, bytes: 1, duration: 6, addressing_mode: AddressingMode::NoneAddressing }),
        0x41 => Some(Instruction { opcode: 0x41, mnemonic: Mnemonic::Eor, bytes: 2, duration: 6, addressing_mode: AddressingMode::IndirectX }),
        0x45 => Some(Instruction { opcode: 0x45, mnemonic: Mnemonic::Eor, bytes: 2, duration: 3, addressing_mode: AddressingMode::ZeroPage }),
        0x46 => Some(Instruction { opcode: 0x46, mnemonic: Mnemonic::Lsr, bytes: 2, duration: 5, addressing_mode: AddressingMode::ZeroPage }),
        0x48 => Some(Instruction { opcode: 0x48, mnemonic: Mnemonic::Pha, bytes: 1, duration: 3, addressing_mode: AddressingMode::NoneAddressing }),
        0x49 => Some(Instruction { opcode: 0x49, mnemonic: Mnemonic::Eor, bytes: 2, duration: 2, addressing_mode: AddressingMode::Immediate }),
        0x4A => Some(Instruction { opcode: 0x4A, mnemonic: Mnemonic::Lsr, bytes: 1, duration: 2, addressing_mode: AddressingMode::NoneAddressing }),
        0x4C => Some(Instruction { opcode: 0x4C, mnemonic: Mnemonic::Jmp, bytes: 3, duration: 3, addressing_mode: AddressingMode::Absolute }),
        0x4D => Some(Instruction { opcode: 0x4D, mnemonic: Mnemonic::Eor, bytes: 3, duration: 4, addressing_mode: AddressingMode::Absolute }),
        0x4E => Some(Instruction { opcode: 0x4E, mnemonic: Mnemonic::Lsr, bytes: 3, duration: 6, addressing_mode: AddressingMode::Absolute }),
        0x50 => Some(Instruction { opcode: 0x50, mnemonic: Mnemonic::Bvc, bytes: 2, duration: 2, addressing_mode: AddressingMode::NoneAddressing }),
        0x51 => Some(Instruction { opcode: 0x51, mnemonic: Mnemonic::Eor, bytes: 2, duration: 5, addressing_mode: AddressingMode::IndirectY }),
        0x55 => Some(Instruction { opcode: 0x55, mnemonic: Mnemonic::Eor, bytes: 2, duration: 4, addressing_mode: AddressingMode::ZeroPageX }),
        0x56 => Some(Instruction { opcode: 0x56, mnemonic: Mnemonic::Lsr, bytes: 2, duration: 6, addressing_mode: AddressingMode::ZeroPageX }),
        0x58 => Some(Instruction { opcode: 0x58, mnemonic: Mnemonic::Cli, bytes: 1, duration: 2, addressing_mode: AddressingMode::NoneAddressing }),
        0x59 => Some(Instruction { opcode: 0x59, mnemonic: Mnemonic::Eor, bytes: 3, duration: 4, addressing_mode: AddressingMode::AbsoluteY }),
        0x5D => Some(Instruction { opcode: 0x5D, mnemonic: Mnemonic::Eor, bytes: 3, duration: 4, addressing_mode: AddressingMode::AbsoluteX }),
        0x5E => Some(Instruction { opcode: 0x5E, mnemonic: Mnemonic::Lsr, bytes: 3, duration: 7, addressing_mode: AddressingMode::AbsoluteX }),
        0x60 => Some(Instruction { opcode: 0x60, mnemonic: Mnemonic::Rts, bytes: 1, duration: 6, addressing_mode: AddressingMode::NoneAddressing }),
        0x61 => Some(Instruction { opcode: 0x61, mnemonic: Mnemonic::Adc, bytes: 2, duration: 6, addressing_mode: AddressingMode::IndirectX }),
        0x65 => Some(Instruction { opcode: 0x65, mnemonic: Mnemonic::Adc, bytes: 2, duration: 3, addressing_mode: AddressingMode::ZeroPage }),
        0x66 => Some(Instruction { opcode: 0x66, mnemonic: Mnemonic::Ror, bytes: 2, duration: 5, addressing_mode: AddressingMode::ZeroPage }),
        0x68 => Some(Instruction { opcode: 0x68, mnemonic: Mnemonic::Pla, bytes: 1, duration: 4, addressing_mode: AddressingMode::NoneAddressing }),
        0x69 => Some(Instruction { opcode: 0x69, mnemonic: Mnemonic::Adc, bytes: 2, duration: 2, addressing_mode: AddressingMode::Immediate }),
        0x6A => Some(Instruction { opcode: 0x6A, mnemonic: Mnemonic::Ror, bytes: 1, duration: 2, addressing_mode: AddressingMode::NoneAddressing }),
        0x6C => Some(Instruction { opcode: 0x6C, mnemonic: Mnemonic::Jmp, bytes: 3, duration: 5, addressing_mode: AddressingMode::NoneAddressing }),
        0x6D => Some(Instruction { opcode: 0x6D, mnemonic: Mnemonic::Adc, bytes: 3, duration: 4, addressing_mode: AddressingMode::Absolute }),
        0x6E => Some(Instruction { opcode: 0x6E, mnemonic: Mnemonic::Ror, bytes: 3, duration: 6, addressing_mode: AddressingMode::Absolute }),
        0x70 => Some(Instruction { opcode: 0x70, mnemonic: Mnemonic::Bvs, bytes: 2, duration: 2, addressing_mode: AddressingMode::NoneAddressing }),
        0x71 => Some(Instruction { opcode: 0x71, mnemonic: Mnemonic::Adc, bytes: 2, duration: 5, addressing_mode: AddressingMode::IndirectY }),
        0x75 => Some(Instruction { opcode: 0x75, mnemonic: Mnemonic::Adc, bytes: 2, duration: 4, addressing_mode: AddressingMode::ZeroPageX }),
        0x76 => Some(Instruction { opcode: 0x76, mnemonic: Mnemonic::Ror, bytes: 2, duration: 6, addressing_mode: AddressingMode::ZeroPageX }),
        0x78 => Some(Instruction { opcode: 0x78, mnemonic: Mnemonic::Sei, bytes: 1, duration: 2, addressing_mode: AddressingMode::NoneAddressing }),
        0x79 => Some(Instruction { opcode: 0x79, mnemonic: Mnemonic::Adc, bytes: 3, duration: 4, addressing_mode: AddressingMode::AbsoluteY }),
        0x7D => Some(Instruction { opcode: 0x7D, mnemonic: Mnemonic::Adc, bytes: 3, duration: 4, addressing_mode: AddressingMode::AbsoluteX }),
        0x7E => Some(Instruction { opcode: 0x7E, mnemonic: Mnemonic::Ror, bytes: 3, duration: 7, addressing_mode: AddressingMode::AbsoluteX }),
        0x81 => Some(Instruction { opcode: 0x81, mnemonic: Mnemonic::Sta, bytes: 2, duration: 6, addressing_mode: AddressingMode::IndirectX }),
        0x84 => Some(Instruction { opcode: 0x84, mnemonic: Mnemonic::Sty, bytes: 2, duration: 3, addressing_mode: AddressingMode::ZeroPage }),
        0x85 => Some(Instruction { opcode: 0x85, mnemonic: Mnemonic::Sta, bytes: 2, duration: 3, addressing_mode: AddressingMode::ZeroPage }),
        0x86 => Some(Instruction { opcode: 0x86, mnemonic: Mnemonic::Stx, bytes: 2, duration: 3, addressing_mode: AddressingMode::ZeroPage }),
        0x88 => Some(Instruction { opcode: 0x88, mnemonic: Mnemonic::Dey, bytes: 1, duration: 2, addressing_mode: AddressingMode::NoneAddressing }),
        0x8A => Some(Instruction { opcode: 0x8A, mnemonic: Mnemonic::Txa, bytes: 1, duration: 2, addressing_mode: AddressingMode::NoneAddressing }),
        0x8C => Some(Instruction { opcode: 0x8C, mnemonic: Mnemonic::Sty, bytes: 3, duration: 4, addressing_mode: AddressingMode::Absolute }),
        0x8D => Some(Instruction { opcode: 0x8D, mnemonic: Mnemonic::Sta, bytes: 3, duration: 4, addressing_mode: AddressingMode::Absolute }),
        0x8E => Some(Instruction { opcode: 0x8E, mnemonic: Mnemonic::Stx, bytes: 3, duration: 4, addressing_mode: AddressingMode::Absolute }),
        0x90 => Some(Instruction { opcode: 0x90, mnemonic: Mnemonic::Bcc, bytes: 2, duration: 2, addressing_mode: AddressingMode::NoneAddressing }),
        0x91 => Some(Instruction { opcode: 0x91, mnemonic: Mnemonic::Sta, bytes: 2, duration: 6, addressing_mode: AddressingMode::IndirectY }),
        0x94 => Some(Instruction { opcode: 0x94, mnemonic: Mnemonic::Sty, bytes: 2, duration: 4, addressing_mode: AddressingMode::ZeroPageY }),
        0x95 => Some(Instruction { opcode: 0x95, mnemonic: Mnemonic::Sta, bytes: 2, duration: 4, addressing_mode: AddressingMode::ZeroPageX }),
        0x96 => Some(Instruction { opcode: 0x96, mnemonic: Mnemonic::Stx, bytes: 2, duration: 4, addressing_mode: AddressingMode::ZeroPageY }),
        0x98 => Some(Instruction { opcode: 0x98, mnemonic: Mnemonic::Tya, bytes: 1, duration: 2, addressing_mode: AddressingMode::NoneAddressing }),
        0x99 => Some(Instruction { opcode: 0x99, mnemonic: Mnemonic::Sta, bytes: 3, duration: 5, addressing_mode: AddressingMode::AbsoluteY }),
        0x9A => Some(Instruction { opcode: 0x9A, mnemonic: Mnemonic::Txs, bytes: 1, duration: 2, addressing_mode: AddressingMode::NoneAddressing }),
        0x9D => Some(Instruction { opcode: 0x9D, mnemonic: Mnemonic::Sta, bytes: 3, duration: 5, addressing_mode: AddressingMode::AbsoluteX }),
        0xA0 => Some(Instruction { opcode: 0xA0, mnemonic: Mnemonic::Ldy, bytes: 2, duration: 2, addressing_mode: AddressingMode::Immediate }),
        0xA1 => Some(Instruction { opcode: 0xA1, mnemonic: Mnemonic::Lda, bytes: 2, duration: 6, addressing_mode: AddressingMode::IndirectX }),
        0xA2 => Some(Instruction { opcode: 0xA2, mnemonic: Mnemonic::Ldx, bytes: 2, duration: 2, addressing_mode: AddressingMode::Immediate }),
        0xA4 => Some(Instruction { opcode: 0xA4, mnemonic: Mnemonic::Ldy, bytes: 2, duration: 2, addressing_mode: AddressingMode::ZeroPage }),
        0xA5 => Some(Instruction { opcode: 0xA5, mnemonic: Mnemonic::Lda, bytes: 2, duration: 2, addressing_mode: AddressingMode::ZeroPage }),
        0xA6 => Some(Instruction { opcode: 0xA6, mnemonic: Mnemonic::Ldx, bytes: 2, duration: 2, addressing_mode: AddressingMode::ZeroPage }),
        0xA8 => Some(Instruction { opcode: 0xA8, mnemonic: Mnemonic::Tay, bytes: 1, duration: 2, addressing_mode: AddressingMode::NoneAddressing }),
        0xA9 => Some(Instruction { opcode: 0xA9, mnemonic: Mnemonic::Lda, bytes: 2, duration: 2, addressing_mode: AddressingMode::Immediate }),
        0xAA => Some(Instruction { opcode: 0xAA, mnemonic: Mnemonic::Tax, bytes: 1, duration: 2, addressing_mode: AddressingMode::NoneAddressing }),
        0xAC => Some(Instruction { opcode: 0xAC, mnemonic: Mnemonic::Ldy, bytes: 3, duration: 4, addressing_mode: AddressingMode::Absolute }),
        0xAD => Some(Instruction { opcode: 0xAD, mnemonic: Mnemonic::Lda, bytes: 3, duration: 4, addressing_mode: AddressingMode::Absolute }),
        0xAE => Some(Instruction { opcode: 0xAE, mnemonic: Mnemonic::Ldx, bytes: 3, duration: 4, addressing_mode: AddressingMode::Absolute }),
        0xB0 => Some(Instruction { opcode: 0xB0, mnemonic: Mnemonic::Bcs, bytes: 2, duration: 2, addressing_mode: AddressingMode::NoneAddressing }),
        0xB1 => Some(Instruction { opcode: 0xB1, mnemonic: Mnemonic::Lda, bytes: 2, duration: 5, addressing_mode: AddressingMode::IndirectY }),
        0xB4 => Some(Instruction { opcode: 0xB4, mnemonic: Mnemonic::Ldy, bytes: 2, duration: 2, addressing_mode: AddressingMode::ZeroPageX }),
        0xB5 => Some(Instruction { opcode: 0xB5, mnemonic: Mnemonic::Lda, bytes: 2, duration: 2, addressing_mode: AddressingMode::ZeroPageX }),
        0xB6 => Some(Instruction { opcode: 0xB6, mnemonic: Mnemonic::Ldx, bytes: 2, duration: 2, addressing_mode: AddressingMode::ZeroPageY }),
        0xB8 => Some(Instruction { opcode: 0xB8, mnemonic: Mnemonic::Clv, bytes: 1, duration: 2, addressing_mode: AddressingMode::NoneAddressing }),
        0xB9 => Some(Instruction { opcode: 0xB9, mnemonic: Mnemonic::Lda, bytes: 3, duration: 4, addressing_mode: AddressingMode::AbsoluteY }),
        0xBA => Some(Instruction { opcode: 0xBA, mnemonic: Mnemonic::Tsx, bytes: 1, duration: 2, addressing_mode: AddressingMode::NoneAddressing }),
        0xBC => Some(Instruction { opcode: 0xBC, mnemonic: Mnemonic::Ldy, bytes: 3, duration: 4, addressing_mode: AddressingMode::AbsoluteX }),
        0xBD => Some(Instruction { opcode: 0xBD, mnemonic: Mnemonic::Lda, bytes: 3, duration: 4, addressing_mode: AddressingMode::AbsoluteX }),
        0xBE => Some(Instruction { opcode: 0xBE, mnemonic: Mnemonic::Ldx, bytes: 3, duration: 4, addressing_mode: AddressingMode::AbsoluteY }),
        0xC0 => Some(Instruction { opcode: 0xC0, mnemonic: Mnemonic::Cpy, bytes: 2, duration: 2, addressing_mode: AddressingMode::Immediate }),
        0xC1 => Some(Instruction { opcode: 0xC1, mnemonic: Mnemonic::Cmp, bytes: 2, duration: 6, addressing_mode: AddressingMode::IndirectX }),
        0xC4 => Some(Instruction { opcode: 0xC4, mnemonic: Mnemonic::Cpy, bytes: 2, duration: 3, addressing_mode: AddressingMode::ZeroPage }),
        0xC5 => Some(Instruction { opcode: 0xC5, mnemonic: Mnemonic::Cmp, bytes: 2, duration: 3, addressing_mode: AddressingMode::ZeroPage }),
        0xC6 => Some(Instruction { opcode: 0xC6, mnemonic: Mnemonic::Dec, bytes: 2, duration: 5, addressing_mode: AddressingMode::ZeroPage }),
        0xC8 => Some(Instruction { opcode: 0xC8, mnemonic: Mnemonic::Iny, bytes: 1, duration: 2, addressing_mode: AddressingMode::NoneAddressing }),
        0xC9 => Some(Instruction { opcode: 0xC9, mnemonic: Mnemonic::Cmp, bytes: 2, duration: 2, addressing_mode: AddressingMode::Immediate }),
        0xCA => Some(Instruction { opcode: 0xCA, mnemonic: Mnemonic::Dex, bytes: 1, duration: 2, addressing_mode: AddressingMode::NoneAddressing }),
        0xCC => Some(Instruction { opcode: 0xCC, mnemonic: Mnemonic::Cpy, bytes: 3, duration: 4, addressing_mode: AddressingMode::Absolute }),
        0xCD => Some(Instruction { opcode: 0xCD, mnemonic: Mnemonic::Cmp, bytes: 3, duration: 4, addressing_mode: AddressingMode::Absolute }),
        0xCE => Some(Instruction { opcode: 0xCE, mnemonic: Mnemonic::Dec, bytes: 3, duration: 6, addressing_mode: AddressingMode::Absolute }),
        0xD0 => Some(Instruction { opcode: 0xD0, mnemonic: Mnemonic::Bne, bytes: 2, duration: 2, addressing_mode: AddressingMode::NoneAddressing }),
        0xD1 => Some(Instruction { opcode: 0xD1, mnemonic: Mnemonic::Cmp, bytes: 2, duration: 5, addressing_mode: AddressingMode::IndirectY }),
        0xD5 => Some(Instruction { opcode: 0xD5, mnemonic: Mnemonic::Cmp, bytes: 2, duration: 4, addressing_mode: AddressingMode::ZeroPageX }),
        0xD6 => Some(Instruction { opcode: 0xD6, mnemonic: Mnemonic::Dec, bytes: 2, duration: 6, addressing_mode: AddressingMode::ZeroPageX }),
        0xD8 => Some(Instruction { opcode: 0xD8, mnemonic: Mnemonic::Cld, bytes: 1, duration: 2, addressing_mode: AddressingMode::NoneAddressing }),
        0xD9 => Some(Instruction { opcode: 0xD9, mnemonic: Mnemonic::Cmp, bytes: 3, duration: 4, addressing_mode: AddressingMode::AbsoluteY }),
        0xDD => Some(Instruction { opcode: 0xDD, mnemonic: Mnemonic::Cmp, bytes: 3, duration: 4, addressing_mode: AddressingMode::AbsoluteX }),
        0xDE => Some(Instruction { opcode: 0xDE, mnemonic: Mnemonic::Dec, bytes: 3, duration: 7, addressing_mode: AddressingMode::AbsoluteX }),
        0xE0 => Some(Instruction { opcode: 0xE0, mnemonic: Mnemonic::Cpx, bytes: 2, duration: 2, addressing_mode: AddressingMode::Immediate }),
        0xE1 => Some(Instruction { opcode: 0xE1, mnemonic: Mnemonic::Sbc, bytes: 2, duration: 6, addressing_mode: AddressingMode::IndirectX }),
        0xE4 => Some(Instruction { opcode: 0xE4, mnemonic: Mnemonic::Cpx, bytes: 2, duration: 3, addressing_mode: AddressingMode::ZeroPage }),
        0xE5 => Some(Instruction { opcode: 0xE5, mnemonic: Mnemonic::Sbc, bytes: 2, duration: 3, addressing_mode: AddressingMode::ZeroPage }),
        0xE6 => Some(Instruction { opcode: 0xE6, mnemonic: Mnemonic::Inc, bytes: 2, duration: 5, addressing_mode: AddressingMode::ZeroPage }),
        0xE8 => Some(Instruction { opcode: 0xE8, mnemonic: Mnemonic::Inx, bytes: 1, duration: 2, addressing_mode: AddressingMode::NoneAddressing }),
        0xE9 => Some(Instruction { opcode: 0xE9, mnemonic: Mnemonic::Sbc, bytes: 2, duration: 2, addressing_mode: AddressingMode::Immediate }),
        0xEA => Some(Instruction { opcode: 0xEA, mnemonic: Mnemonic::Nop, bytes: 1, duration: 2, addressing_mode: AddressingMode::NoneAddressing }),
        0xEC => Some(Instruction { opcode: 0xEC, mnemonic: Mnemonic::Cpx, bytes: 3, duration: 4, addressing_mode: AddressingMode::Absolute }),
        0xED => Some(Instruction { opcode: 0xED, mnemonic: Mnemonic::Sbc, bytes: 3, duration: 4, addressing_mode: AddressingMode::Absolute }),
        0xEE => Some(Instruction { opcode: 0xEE, mnemonic: Mnemonic::Inc, bytes: 3, duration: 6, addressing_mode: AddressingMode::Absolute }),
        0xF0 => Some(Instruction { opcode: 0xF0, mnemonic: Mnemonic::Beq, bytes: 2, duration: 2, addressing_mode: AddressingMode::NoneAddressing }),
        0xF1 => Some(Instruction { opcode: 0xF1, mnemonic: Mnemonic::Sbc, bytes: 2, duration: 5, addressing_mode: AddressingMode::IndirectY }),
        0xF5 => Some(Instruction { opcode: 0xF5, mnemonic: Mnemonic::Sbc, bytes: 2, duration: 4, addressing_mode: AddressingMode::ZeroPageX }),
        0xF6 => Some(Instruction { opcode: 0xF6, mnemonic: Mnemonic::Inc, bytes: 2, duration: 6, addressing_mode: AddressingMode::ZeroPageX }),
        0xF8 => Some(Instruction { opcode: 0xF8, mnemonic: Mnemonic::Sed, bytes: 1, duration: 2, addressing_mode: AddressingMode::NoneAddressing }),
        0xF9 => Some(Instruction { opcode: 0xF9, mnemonic: Mnemonic::Sbc, bytes: 3, duration: 4, addressing_mode: AddressingMode::AbsoluteY }),
        0xFD => Some(Instruction { opcode: 0xFD, mnemonic: Mnemonic::Sbc, bytes: 3, duration: 4, addressing_mode: AddressingMode::AbsoluteX }),
        0xFE => Some(Instruction { opcode: 0xFE, mnemonic: Mnemonic::Inc, bytes: 3, duration: 7, addressing_mode: AddressingMode::AbsoluteX }),
        _ => None,
    }
}

/// The addressing modes of opcodes `aaa bbb 01`, by their middle three bits.
pub open spec fn group_one_addressing(bbb: int) -> AddressingMode {
    if bbb == 0 {
        AddressingMode::IndirectX
    } else if bbb == 1 {
        AddressingMode::ZeroPage
    } else if bbb == 2 {
        AddressingMode::Immediate
    } else if bbb == 3 {
        AddressingMode::Absolute
    } else if bbb == 4 {
        AddressingMode::IndirectY
    } else if bbb == 5 {
        AddressingMode::ZeroPageX
    } else if bbb == 6 {
        AddressingMode::AbsoluteY
    } else {
        AddressingMode::AbsoluteX
    }
}

/// The table follows the 6502's encoding `aaa bbb 01`: each such opcode but 0x89 (which
/// would be STA immediate, and is no instruction) is the arithmetic/load/store operation
/// named by `aaa` in the addressing mode named by `bbb`, two bytes long in page-zero,
/// immediate and indirect forms and three in absolute forms.
#[verifier::rlimit(100)]
#[verifier::spinoff_prover]
pub proof fn lemma_group_one_table(op: u8)
    requires
        op % 4 == 1,
    ensures
        op == 0x89 ==> instruction_for(op) is None,
        op != 0x89 ==> instruction_for(op) is Some,
        op != 0x89 ==> instruction_for(op)->0.opcode == op,
        op != 0x89 ==> instruction_for(op)->0.mnemonic == group_one_mnemonic((op / 32) as int),
        op != 0x89 ==> instruction_for(op)->0.addressing_mode == group_one_addressing(((op / 4) % 8) as int),
        op != 0x89 ==> instruction_for(op)->0.bytes == (if (op / 4) % 8 == 3 || (op / 4) % 8 == 6 || (op / 4) % 8 == 7 { 3u8 } else { 2u8 }),
{
}

/// Looks an opcode up in the table.
#[verifier::rlimit(100)]
#[verifier::spinoff_prover]
pub fn find_instruction(op: u8) -> (r: Option<Instruction>)
    ensures
        r == instruction_for(op),
        r matches Some(ins) ==> ins.wf(),
{
    match op {
        0x00 => Some(Instruction::new(0x00, Mnemonic::Brk, 1, 7, AddressingMode::NoneAddressing)),
        0x01 => Some(Instruction::new(0x01, Mnemonic::Ora, 2, 6, AddressingMode::IndirectX)),
        0x05 => Some(Instruction::new(0x05, Mnemonic::Ora, 2, 3, AddressingMode::ZeroPage)),
        0x06 => Some(Instruction::new(0x06, Mnemonic::Asl, 2, 5, AddressingMode::ZeroPage)),
        0x08 => Some(Instruction::new(0x08, Mnemonic::Php, 1, 3, AddressingMode::NoneAddressing)),
        0x09 => Some(Instruction::new(0x09, Mnemonic::Ora, 2, 2, AddressingMode::Immediate)),
        0x0A => Some(Instruction::new(0x0A, Mnemonic::Asl, 1, 2, AddressingMode::NoneAddressing)),
        0x0D => Some(Instruction::new(0x0D, Mnemonic::Ora, 3, 4, AddressingMode::Absolute)),
        0x0E => Some(Instruction::new(0x0E, Mnemonic::Asl, 3, 6, AddressingMode::Absolute)),
        0x10 => Some(Instruction::new(0x10, Mnemonic::Bpl, 2, 2, AddressingMode::NoneAddressing)),
        0x11 => Some(Instruction::new(0x11, Mnemonic::Ora, 2, 5, AddressingMode::IndirectY)),
        0x15 => Some(Instruction::new(0x15, Mnemonic::Ora, 2, 4, AddressingMode::ZeroPageX)),
        0x16 => Some(Instruction::new(0x16, Mnemonic::Asl, 2, 6, AddressingMode::ZeroPageX)),
        0x18 => Some(Instruction::new(0x18, Mnemonic::Clc, 1, 2, AddressingMode::NoneAddressing)),
        0x19 => Some(Instruction::new(0x19, Mnemonic::Ora, 3, 4, AddressingMode::AbsoluteY)),
        0x1D => Some(Instruction::new(0x1D, Mnemonic::Ora, 3, 4, AddressingMode::AbsoluteX)),
        0x1E => Some(Instruction::new(0x1E, Mnemonic::Asl, 3, 7, AddressingMode::AbsoluteX)),
        0x20 => Some(Instruction::new(0x20, Mnemonic::Jsr, 3, 6, AddressingMode::Absolute)),
        0x21 => Some(Instruction::new(0x21, Mnemonic::And, 2, 6, AddressingMode::IndirectX)),
        0x24 => Some(Instruction::new(0x24, Mnemonic::Bit, 2, 3, AddressingMode::ZeroPage)),
        0x25 => Some(Instruction::new(0x25, Mnemonic::And, 2, 3, AddressingMode::ZeroPage)),
        0x26 => Some(Instruction::new(0x26, Mnemonic::Rol, 2, 5, AddressingMode::ZeroPage)),
        0x28 => Some(Instruction::new(0x28, Mnemonic::Plp, 1, 4, AddressingMode::NoneAddressing)),
        0x29 => Some(Instruction::new(0x29, Mnemonic::And, 2, 2, AddressingMode::Immediate)),
        0x2A => Some(Instruction::new(0x2A, Mnemonic::Rol, 1, 2, AddressingMode::NoneAddressing)),
        0x2C => Some(Instruction::new(0x2C, Mnemonic::Bit, 3, 4, AddressingMode::Absolute)),
        0x2D => Some(Instruction::new(0x2D, Mnemonic::And, 3, 4, AddressingMode::Absolute)),
        0x2E => Some(Instruction::new(0x2E, Mnemonic::Rol, 3, 6, AddressingMode::Absolute)),
        0x30 => Some(Instruction::new(0x30, Mnemonic::Bmi, 2, 2, AddressingMode::NoneAddressing)),
        0x31 => Some(Instruction::new(0x31, Mnemonic::And, 2, 5, AddressingMode::IndirectY)),
        0x35 => Some(Instruction::new(0x35, Mnemonic::And, 2, 4, AddressingMode::ZeroPageX)),
        0x36 => Some(Instruction::new(0x36, Mnemonic::Rol, 2, 6, AddressingMode::ZeroPageX)),
        0x38 => Some(Instruction::new(0x38, Mnemonic::Sec, 1, 2, AddressingMode::NoneAddressing)),
        0x39 => Some(Instruction::new(0x39, Mnemonic::And, 3, 4, AddressingMode::AbsoluteY)),
        0x3D => Some(Instruction::new(0x3D, Mnemonic::And, 3, 4, AddressingMode::AbsoluteX)),
        0x3E => Some(Instruction::new(0x3E, Mnemonic::Rol, 3, 7, AddressingMode::AbsoluteX)),
        0x40 => Some(Instruction::new(0x40, Mnemonic::Rti, 1, 6, AddressingMode::NoneAddressing)),
        0x41 => Some(Instruction::new(0x41, Mnemonic::Eor, 2, 6, AddressingMode::IndirectX)),
        0x45 => Some(Instruction::new(0x45, Mnemonic::Eor, 2, 3, AddressingMode::ZeroPage)),
        0x46 => Some(Instruction::new(0x46, Mnemonic::Lsr, 2, 5, AddressingMode::ZeroPage)),
        0x48 => Some(Instruction::new(0x48, Mnemonic::Pha, 1, 3, AddressingMode::NoneAddressing)),
        0x49 => Some(Instruction::new(0x49, Mnemonic::Eor, 2, 2, AddressingMode::Immediate)),
        0x4A => Some(Instruction::new(0x4A, Mnemonic::Lsr, 1, 2, AddressingMode::NoneAddressing)),
        0x4C => Some(Instruction::new(0x4C, Mnemonic::Jmp, 3, 3, AddressingMode::Absolute)),
        0x4D => Some(Instruction::new(0x4D, Mnemonic::Eor, 3, 4, AddressingMode::Absolute)),
        0x4E => Some(Instruction::new(0x4E, Mnemonic::Lsr, 3, 6, AddressingMode::Absolute)),
        0x50 => Some(Instruction::new(0x50, Mnemonic::Bvc, 2, 2, AddressingMode::NoneAddressing)),
        0x51 => Some(Instruction::new(0x51, Mnemonic::Eor, 2, 5, AddressingMode::IndirectY)),
        0x55 => Some(Instruction::new(0x55, Mnemonic::Eor, 2, 4, AddressingMode::ZeroPageX)),
        0x56 => Some(Instruction::new(0x56, Mnemonic::Lsr, 2, 6, AddressingMode::ZeroPageX)),
        0x58 => Some(Instruction::new(0x58, Mnemonic::Cli, 1, 2, AddressingMode::NoneAddressing)),
        0x59 => Some(Instruction::new(0x59, Mnemonic::Eor, 3, 4, AddressingMode::AbsoluteY)),
        0x5D => Some(Instruction::new(0x5D, Mnemonic::Eor, 3, 4, AddressingMode::AbsoluteX)),
        0x5E => Some(Instruction::new(0x5E, Mnemonic::Lsr, 3, 7, AddressingMode::AbsoluteX)),
        0x60 => Some(Instruction::new(0x60, Mnemonic::Rts, 1, 6, AddressingMode::NoneAddressing)),
        0x61 => Some(Instruction::new(0x61, Mnemonic::Adc, 2, 6, AddressingMode::IndirectX)),
        0x65 => Some(Instruction::new(0x65, Mnemonic::Adc, 2, 3, AddressingMode::ZeroPage)),
        0x66 => Some(Instruction::new(0x66, Mnemonic::Ror, 2, 5, AddressingMode::ZeroPage)),
        0x68 => Some(Instruction::new(0x68, Mnemonic::Pla, 1, 4, AddressingMode::NoneAddressing)),
        0x69 => Some(Instruction::new(0x69, Mnemonic::Adc, 2, 2, AddressingMode::Immediate)),
        0x6A => Some(Instruction::new(0x6A, Mnemonic::Ror, 1, 2, AddressingMode::NoneAddressing)),
        0x6C => Some(Instruction::new(0x6C, Mnemonic::Jmp, 3, 5, AddressingMode::NoneAddressing)),
        0x6D => Some(Instruction::new(0x6D, Mnemonic::Adc, 3, 4, AddressingMode::Absolute)),
        0x6E => Some(Instruction::new(0x6E, Mnemonic::Ror, 3, 6, AddressingMode::Absolute)),
        0x70 => Some(Instruction::new(0x70, Mnemonic::Bvs, 2, 2, AddressingMode::NoneAddressing)),
        0x71 => Some(Instruction::new(0x71, Mnemonic::Adc, 2, 5, AddressingMode::IndirectY)),
        0x75 => Some(Instruction::new(0x75, Mnemonic::Adc, 2, 4, AddressingMode::ZeroPageX)),
        0x76 => Some(Instruction::new(0x76, Mnemonic::Ror, 2, 6, AddressingMode::ZeroPageX)),
        0x78 => Some(Instruction::new(0x78, Mnemonic::Sei, 1, 2, AddressingMode::NoneAddressing)),
        0x79 => Some(Instruction::new(0x79, Mnemonic::Adc, 3, 4, AddressingMode::AbsoluteY)),
        0x7D => Some(Instruction::new(0x7D, Mnemonic::Adc, 3, 4, AddressingMode::AbsoluteX)),
        0x7E => Some(Instruction::new(0x7E, Mnemonic::Ror, 3, 7, AddressingMode::AbsoluteX)),
        0x81 => Some(Instruction::new(0x81, Mnemonic::Sta, 2, 6, AddressingMode::IndirectX)),
        0x84 => Some(Instruction::new(0x84, Mnemonic::Sty, 2, 3, AddressingMode::ZeroPage)),
        0x85 => Some(Instruction::new(0x85, Mnemonic::Sta, 2, 3, AddressingMode::ZeroPage)),
        0x86 => Some(Instruction::new(0x86, Mnemonic::Stx, 2, 3, AddressingMode::ZeroPage)),
        0x88 => Some(Instruction::new(0x88, Mnemonic::Dey, 1, 2, AddressingMode::NoneAddressing)),
        0x8A => Some(Instruction::new(0x8A, Mnemonic::Txa, 1, 2, AddressingMode::NoneAddressing)),
        0x8C => Some(Instruction::new(0x8C, Mnemonic::Sty, 3, 4, AddressingMode::Absolute)),
        0x8D => Some(Instruction::new(0x8D, Mnemonic::Sta, 3, 4, AddressingMode::Absolute)),
        0x8E => Some(Instruction::new(0x8E, Mnemonic::Stx, 3, 4, AddressingMode::Absolute)),
        0x90 => Some(Instruction::new(0x90, Mnemonic::Bcc, 2, 2, AddressingMode::NoneAddressing)),
        0x91 => Some(Instruction::new(0x91, Mnemonic::Sta, 2, 6, AddressingMode::IndirectY)),
        0x94 => Some(Instruction::new(0x94, Mnemonic::Sty, 2, 4, AddressingMode::ZeroPageY)),
        0x95 => Some(Instruction::new(0x95, Mnemonic::Sta, 2, 4, AddressingMode::ZeroPageX)),
        0x96 => Some(Instruction::new(0x96, Mnemonic::Stx, 2, 4, AddressingMode::ZeroPageY)),
        0x98 => Some(Instruction::new(0x98, Mnemonic::Tya, 1, 2, AddressingMode::NoneAddressing)),
        0x99 => Some(Instruction::new(0x99, Mnemonic::Sta, 3, 5, AddressingMode::AbsoluteY)),
        0x9A => Some(Instruction::new(0x9A, Mnemonic::Txs, 1, 2, AddressingMode::NoneAddressing)),
        0x9D => Some(Instruction::new(0x9D, Mnemonic::Sta, 3, 5, AddressingMode::AbsoluteX)),
        0xA0 => Some(Instruction::new(0xA0, Mnemonic::Ldy, 2, 2, AddressingMode::Immediate)),
        0xA1 => Some(Instruction::new(0xA1, Mnemonic::Lda, 2, 6, AddressingMode::IndirectX)),
        0xA2 => Some(Instruction::new(0xA2, Mnemonic::Ldx, 2, 2, AddressingMode::Immediate)),
        0xA4 => Some(Instruction::new(0xA4, Mnemonic::Ldy, 2, 2, AddressingMode::ZeroPage)),
        0xA5 => Some(Instruction::new(0xA5, Mnemonic::Lda, 2, 2, AddressingMode::ZeroPage)),
        0xA6 => Some(Instruction::new(0xA6, Mnemonic::Ldx, 2, 2, AddressingMode::ZeroPage)),
        0xA8 => Some(Instruction::new(0xA8, Mnemonic::Tay, 1, 2, AddressingMode::NoneAddressing)),
        0xA9 => Some(Instruction::new(0xA9, Mnemonic::Lda, 2, 2, AddressingMode::Immediate)),
        0xAA => Some(Instruction::new(0xAA, Mnemonic::Tax, 1, 2, AddressingMode::NoneAddressing)),
        0xAC => Some(Instruction::new(0xAC, Mnemonic::Ldy, 3, 4, AddressingMode::Absolute)),
        0xAD => Some(Instruction::new(0xAD, Mnemonic::Lda, 3, 4, AddressingMode::Absolute)),
        0xAE => Some(Instruction::new(0xAE, Mnemonic::Ldx, 3, 4, AddressingMode::Absolute)),
        0xB0 => Some(Instruction::new(0xB0, Mnemonic::Bcs, 2, 2, AddressingMode::NoneAddressing)),
        0xB1 => Some(Instruction::new(0xB1, Mnemonic::Lda, 2, 5, AddressingMode::IndirectY)),
        0xB4 => Some(Instruction::new(0xB4, Mnemonic::Ldy, 2, 2, AddressingMode::ZeroPageX)),
        0xB5 => Some(Instruction::new(0xB5, Mnemonic::Lda, 2, 2, AddressingMode::ZeroPageX)),
        0xB6 => Some(Instruction::new(0xB6, Mnemonic::Ldx, 2, 2, AddressingMode::ZeroPageY)),
        0xB8 => Some(Instruction::new(0xB8, Mnemonic::Clv, 1, 2, AddressingMode::NoneAddressing)),
        0xB9 => Some(Instruction::new(0xB9, Mnemonic::Lda, 3, 4, AddressingMode::AbsoluteY)),
        0xBA => Some(Instruction::new(0xBA, Mnemonic::Tsx, 1, 2, AddressingMode::NoneAddressing)),
        0xBC => Some(Instruction::new(0xBC, Mnemonic::Ldy, 3, 4, AddressingMode::AbsoluteX)),
        0xBD => Some(Instruction::new(0xBD, Mnemonic::Lda, 3, 4, AddressingMode::AbsoluteX)),
        0xBE => Some(Instruction::new(0xBE, Mnemonic::Ldx, 3, 4, AddressingMode::AbsoluteY)),
        0xC0 => Some(Instruction::new(0xC0, Mnemonic::Cpy, 2, 2, AddressingMode::Immediate)),
        0xC1 => Some(Instruction::new(0xC1, Mnemonic::Cmp, 2, 6, AddressingMode::IndirectX)),
        0xC4 => Some(Instruction::new(0xC4, Mnemonic::Cpy, 2, 3, AddressingMode::ZeroPage)),
        0xC5 => Some(Instruction::new(0xC5, Mnemonic::Cmp, 2, 3, AddressingMode::ZeroPage)),
        0xC6 => Some(Instruction::new(0xC6, Mnemonic::Dec, 2, 5, AddressingMode::ZeroPage)),
        0xC8 => Some(Instruction::new(0xC8, Mnemonic::Iny, 1, 2, AddressingMode::NoneAddressing)),
        0xC9 => Some(Instruction::new(0xC9, Mnemonic::Cmp, 2, 2, AddressingMode::Immediate)),
        0xCA => Some(Instruction::new(0xCA, Mnemonic::Dex, 1, 2, AddressingMode::NoneAddressing)),
        0xCC => Some(Instruction::new(0xCC, Mnemonic::Cpy, 3, 4, AddressingMode::Absolute)),
        0xCD => Some(Instruction::new(0xCD, Mnemonic::Cmp, 3, 4, AddressingMode::Absolute)),
        0xCE => Some(Instruction::new(0xCE, Mnemonic::Dec, 3, 6, AddressingMode::Absolute)),
        0xD0 => Some(Instruction::new(0xD0, Mnemonic::Bne, 2, 2, AddressingMode::NoneAddressing)),
        0xD1 => Some(Instruction::new(0xD1, Mnemonic::Cmp, 2, 5, AddressingMode::IndirectY)),
        0xD5 => Some(Instruction::new(0xD5, Mnemonic::Cmp, 2, 4, AddressingMode::ZeroPageX)),
        0xD6 => Some(Instruction::new(0xD6, Mnemonic::Dec, 2, 6, AddressingMode::ZeroPageX)),
        0xD8 => Some(Instruction::new(0xD8, Mnemonic::Cld, 1, 2, AddressingMode::NoneAddressing)),
        0xD9 => Some(Instruction::new(0xD9, Mnemonic::Cmp, 3, 4, AddressingMode::AbsoluteY)),
        0xDD => Some(Instruction::new(0xDD, Mnemonic::Cmp, 3, 4, AddressingMode::AbsoluteX)),
        0xDE => Some(Instruction::new(0xDE, Mnemonic::Dec, 3, 7, AddressingMode::AbsoluteX)),
        0xE0 => Some(Instruction::new(0xE0, Mnemonic::Cpx, 2, 2, AddressingMode::Immediate)),
        0xE1 => Some(Instruction::new(0xE1, Mnemonic::Sbc, 2, 6, AddressingMode::IndirectX)),
        0xE4 => Some(Instruction::new(0xE4, Mnemonic::Cpx, 2, 3, AddressingMode::ZeroPage)),
        0xE5 => Some(Instruction::new(0xE5, Mnemonic::Sbc, 2, 3, AddressingMode::ZeroPage)),
        0xE6 => Some(Instruction::new(0xE6, Mnemonic::Inc, 2, 5, AddressingMode::ZeroPage)),
        0xE8 => Some(Instruction::new(0xE8, Mnemonic::Inx, 1, 2, AddressingMode::NoneAddressing)),
        0xE9 => Some(Instruction::new(0xE9, Mnemonic::Sbc, 2, 2, AddressingMode::Immediate)),
        0xEA => Some(Instruction::new(0xEA, Mnemonic::Nop, 1, 2, AddressingMode::NoneAddressing)),
        0xEC => Some(Instruction::new(0xEC, Mnemonic::Cpx, 3, 4, AddressingMode::Absolute)),
        0xED => Some(Instruction::new(0xED, Mnemonic::Sbc, 3, 4, AddressingMode::Absolute)),
        0xEE => Some(Instruction::new(0xEE, Mnemonic::Inc, 3, 6, AddressingMode::Absolute)),
        0xF0 => Some(Instruction::new(0xF0, Mnemonic::Beq, 2, 2, AddressingMode::NoneAddressing)),
        0xF1 => Some(Instruction::new(0xF1, Mnemonic::Sbc, 2, 5, AddressingMode::IndirectY)),
        0xF5 => Some(Instruction::new(0xF5, Mnemonic::Sbc, 2, 4, AddressingMode::ZeroPageX)),
        0xF6 => Some(Instruction::new(0xF6, Mnemonic::Inc, 2, 6, AddressingMode::ZeroPageX)),
        0xF8 => Some(Instruction::new(0xF8, Mnemonic::Sed, 1, 2, AddressingMode::NoneAddressing)),
        0xF9 => Some(Instruction::new(0xF9, Mnemonic::Sbc, 3, 4, AddressingMode::AbsoluteY)),
        0xFD => Some(Instruction::new(0xFD, Mnemonic::Sbc, 3, 4, AddressingMode::AbsoluteX)),
        0xFE => Some(Instruction::new(0xFE, Mnemonic::Inc, 3, 7, AddressingMode::AbsoluteX)),
        _ => None,
    }
}

/// Two's complement negation of a byte.
pub open spec fn neg_byte(m: u8) -> u8 {
    if m == 0 {
        0
    } else {
        (256 - m) as u8
    }
}

/// Result byte of this processor's `SBC`: the accumulator plus the negated operand, plus
/// 0xFF when the carry is clear, modulo 256.
pub open spec fn sbc_value(a: u8, m: u8, c: bool) -> u8 {
    ((a as u16 + neg_byte(m) as u16 + (if c { 0u16 } else { 255u16 })) % 256) as u8
}

/// Carry after this processor's `SBC`: the result wrapped below the accumulator, or
/// equals it with the carry clear.
pub open spec fn sbc_carry(a: u8, m: u8, c: bool) -> bool {
    let r = sbc_value(a, m, c);
    r < a || (r == a && !c)
}

/// Overflow after this processor's `SBC`: the sign rule on the accumulator, the negated
/// operand and the result.
pub open spec fn sbc_overflow(a: u8, m: u8, c: bool) -> bool {
    let r = sbc_value(a, m, c);
    let n = neg_byte(m);
    (a >= 128) == (n >= 128) && (r >= 128) != (a >= 128)
}

/// The `SBC` result byte is `a - m - (1 - c)` modulo 256.
pub proof fn lemma_sbc_value(a: u8, m: u8, c: bool)
    ensures
        sbc_value(a, m, c) as int == (a - m - (if c { 0int } else { 1int })) % 256,
{
}

/// Subtraction with borrow as this processor computes it.
pub fn subtract_with_borrow(a: u8, m: u8, c: bool) -> (r: (u8, bool, bool))
    ensures
        r == (sbc_value(a, m, c), sbc_carry(a, m, c), sbc_overflow(a, m, c)),
{
    let neg: u8 = if m == 0 { 0 } else { (256u16 - m as u16) as u8 };
    let carry: u16 = if c { 0 } else { 0xFF };
    let sum: u16 = a as u16 + neg as u16 + carry;
    let r = (sum % 256) as u8;
    proof {
        assert(((a ^ r) & (neg ^ r) & 0x80 != 0) == ((a >= 128) == (neg >= 128) && (r >= 128) != (a
            >= 128))) by (bit_vector);
    }
    (r, r < a || (r == a && carry > 0), (a ^ r) & (neg ^ r) & SIGN_MASK != 0)
}

/// The standalone 6502 with a flat 64 kB memory.
pub struct Cpu {
    pub register_a: u8,
    pub register_x: u8,
    pub register_y: u8,
    pub program_counter: u16,
    pub stack_pointer: u8,
    pub status: StatusFlags,
    pub memory: Vec<u8>,
    fault: Option<u16>,
}

/// Abstract state of the processor and its memory.
pub struct CpuView {
    pub a: u8,
    pub x: u8,
    pub y: u8,
    pub pc: u16,
    pub sp: u8,
    pub status: StatusFlags,
    pub mem: Seq<u8>,
    /// A 16-bit access at 0xFFFF, which has no second byte, during this instruction.
    pub fault: Option<u16>,
}

impl View for Cpu {
    type V = CpuView;

    closed spec fn view(&self) -> CpuView {
        CpuView {
            a: self.register_a,
            x: self.register_x,
            y: self.register_y,
            pc: self.program_counter,
            sp: self.stack_pointer,
            status: self.status,
            mem: self.memory@,
            fault: self.fault,
        }
    }
}

/// Why an instruction could not be carried out.
#[derive(Clone, Copy, PartialEq, Eq, Structural, Debug)]
pub enum CpuError {
    /// The opcode is not in the table.
    UnknownOpcode(u8),
    /// A 16-bit access at this address would run past the end of memory.
    WordPastEnd(u16),
    /// A run stopped after its step limit.
    StepLimit,
}

/// Most runs: the number of steps after which a run gives up.
pub const STEP_LIMIT: u64 = 0xFFFF_FFFF_FFFF_FFFF;

/// The families the implemented operations fall in.
#[derive(Clone, Copy, PartialEq, Eq, Structural, Debug)]
pub enum OpGroup {
    Alu,
    LoadStore,
    ReadModifyWrite,
    Branches,
    FlagOps,
    RegisterOps,
    Control,
}

pub open spec fn op_group(m: Mnemonic) -> OpGroup {
    match m {
        Mnemonic::Adc | Mnemonic::Sbc | Mnemonic::And | Mnemonic::Ora | Mnemonic::Eor | Mnemonic::Bit
        | Mnemonic::Cmp | Mnemonic::Cpx | Mnemonic::Cpy => OpGroup::Alu,
        Mnemonic::Lda | Mnemonic::Ldx | Mnemonic::Ldy | Mnemonic::Sta | Mnemonic::Stx | Mnemonic::Sty => OpGroup::LoadStore,
        Mnemonic::Asl | Mnemonic::Lsr | Mnemonic::Rol | Mnemonic::Ror | Mnemonic::Dec | Mnemonic::Inc => OpGroup::ReadModifyWrite,
        Mnemonic::Bcc | Mnemonic::Bcs | Mnemonic::Beq | Mnemonic::Bmi | Mnemonic::Bne | Mnemonic::Bpl
        | Mnemonic::Bvc | Mnemonic::Bvs => OpGroup::Branches,
        Mnemonic::Clc | Mnemonic::Cld | Mnemonic::Cli | Mnemonic::Clv | Mnemonic::Sec | Mnemonic::Sed
        | Mnemonic::Sei => OpGroup::FlagOps,
        Mnemonic::Dex | Mnemonic::Dey | Mnemonic::Inx | Mnemonic::Iny | Mnemonic::Tax | Mnemonic::Tay
        | Mnemonic::Tsx | Mnemonic::Txa | Mnemonic::Txs | Mnemonic::Tya => OpGroup::RegisterOps,
        _ => OpGroup::Control,
    }
}

fn group_of(m: Mnemonic) -> (r: OpGroup)
    ensures
        r == op_group(m),
{
    match m {
        Mnemonic::Adc | Mnemonic::Sbc | Mnemonic::And | Mnemonic::Ora | Mnemonic::Eor | Mnemonic::Bit
        | Mnemonic::Cmp | Mnemonic::Cpx | Mnemonic::Cpy => OpGroup::Alu,
        Mnemonic::Lda | Mnemonic::Ldx | Mnemonic::Ldy | Mnemonic::Sta | Mnemonic::Stx | Mnemonic::Sty => OpGroup::LoadStore,
        Mnemonic::Asl | Mnemonic::Lsr | Mnemonic::Rol | Mnemonic::Ror | Mnemonic::Dec | Mnemonic::Inc => OpGroup::ReadModifyWrite,
        Mnemonic::Bcc | Mnemonic::Bcs | Mnemonic::Beq | Mnemonic::Bmi | Mnemonic::Bne | Mnemonic::Bpl
        | Mnemonic::Bvc | Mnemonic::Bvs => OpGroup::Branches,
        Mnemonic::Clc | Mnemonic::Cld | Mnemonic::Cli | Mnemonic::Clv | Mnemonic::Sec | Mnemonic::Sed
        | Mnemonic::Sei => OpGroup::FlagOps,
        Mnemonic::Dex | Mnemonic::Dey | Mnemonic::Inx | Mnemonic::Iny | Mnemonic::Tax | Mnemonic::Tay
        | Mnemonic::Tsx | Mnemonic::Txa | Mnemonic::Txs | Mnemonic::Tya => OpGroup::RegisterOps,
        _ => OpGroup::Control,
    }
}

impl CpuView {
    pub open spec fn wf(self) -> bool {
        self.mem.len() == 0x10000
    }

    pub open spec fn byte(self, addr: u16) -> u8 {
        self.mem[addr as int]
    }

    /// A 16-bit read; at 0xFFFF there is no second byte and the access faults.
    pub open spec fn read16(self, addr: u16) -> (CpuView, u16) {
        if addr == 0xFFFF {
            (CpuView { fault: Some(addr), ..self }, 0)
        } else {
            (self, word(self.mem[addr as int], self.mem[addr + 1]))
        }
    }

    pub open spec fn write(self, addr: u16, v: u8) -> CpuView {
        CpuView { mem: self.mem.update(addr as int, v), ..self }
    }

    /// A 16-bit little-endian write; at 0xFFFF the access faults.
    pub open spec fn write16(self, addr: u16, v: u16) -> CpuView {
        if addr == 0xFFFF {
            CpuView { fault: Some(addr), ..self }
        } else {
            CpuView { mem: self.mem.update(addr as int, (v % 256) as u8).update(addr + 1, (v / 256) as u8), ..self }
        }
    }

    pub open spec fn zn(self, v: u8) -> CpuView {
        CpuView { status: StatusFlags { zero: v == 0, negative: v >= 128, ..self.status }, ..self }
    }

    pub open spec fn with_carry(self, c: bool) -> CpuView {
        CpuView { status: StatusFlags { carry: c, ..self.status }, ..self }
    }

    /// Push a byte: write it at the stack slot, then move the slot down.
    pub open spec fn push(self, v: u8) -> CpuView {
        CpuView { sp: self.sp.wrapping_sub(1), ..self.write((0x100 + self.sp) as u16, v) }
    }

    /// Push a word: move the slot down, write the word there (low byte first), move
    /// down again.
    pub open spec fn push16(self, v: u16) -> CpuView {
        let sp1 = self.sp.wrapping_sub(1);
        CpuView { sp: sp1.wrapping_sub(1), ..self.write16((0x100 + sp1) as u16, v) }
    }

    /// Pull a byte: move the slot up, then read it.
    pub open spec fn pull(self) -> (CpuView, u8) {
        let sp1 = self.sp.wrapping_add(1);
        (CpuView { sp: sp1, ..self }, self.mem[0x100 + sp1])
    }

    /// Pull a word, low byte first.
    pub open spec fn pull16(self) -> (CpuView, u16) {
        let sp1 = self.sp.wrapping_add(1);
        let sp2 = sp1.wrapping_add(1);
        (CpuView { sp: sp2, ..self }, word(self.mem[0x100 + sp1], self.mem[0x100 + sp2]))
    }

    /// Where the operand is; the parameter follows the opcode at the program counter.
    #[verifier::opaque]
    pub open spec fn operand(self, mode: AddressingMode) -> (CpuView, u16) {
        let p = self.mem[self.pc as int];
        match mode {
            AddressingMode::Immediate => (self, self.pc),
            AddressingMode::ZeroPage => (self, p as u16),
            AddressingMode::ZeroPageX => (self, p.wrapping_add(self.x) as u16),
            AddressingMode::ZeroPageY => (self, p.wrapping_add(self.y) as u16),
            AddressingMode::Absolute => self.read16(self.pc),
            AddressingMode::AbsoluteX => {
                let (s, base) = self.read16(self.pc);
                (s, base.wrapping_add(self.x as u16))
            },
            AddressingMode::AbsoluteY => {
                let (s, base) = self.read16(self.pc);
                (s, base.wrapping_add(self.y as u16))
            },
            AddressingMode::IndirectX => {
                let q = p.wrapping_add(self.x);
                (self, word(self.mem[q as int], self.mem[q.wrapping_add(1) as int]))
            },
            AddressingMode::IndirectY => {
                (self, word(self.mem[p as int], self.mem[p.wrapping_add(1) as int]).wrapping_add(self.y as u16))
            },
            AddressingMode::NoneAddressing => (self, 0),
        }
    }

    /// The operand byte.
    pub open spec fn fetch_operand(self, mode: AddressingMode) -> (CpuView, u8) {
        let (s, addr) = self.operand(mode);
        (s, s.mem[addr as int])
    }

    #[verifier::opaque]
    pub open spec fn adc(self, mode: AddressingMode) -> CpuView {
        let (s, m) = self.fetch_operand(mode);
        let c = s.status.carry;
        let r = adc_value(s.a, m, c);
        CpuView {
            a: r,
            status: StatusFlags { overflow: adc_overflow(s.a, m, c), carry: adc_carry(s.a, m, c), ..s.status },
            ..s
        }.zn(r)
    }

    #[verifier::opaque]
    pub open spec fn sbc(self, mode: AddressingMode) -> CpuView {
        let (s, m) = self.fetch_operand(mode);
        let c = s.status.carry;
        let r = sbc_value(s.a, m, c);
        CpuView {
            a: r,
            status: StatusFlags { overflow: sbc_overflow(s.a, m, c), carry: sbc_carry(s.a, m, c), ..s.status },
            ..s
        }.zn(r)
    }

    #[verifier::opaque]
    pub open spec fn logic(self, mode: AddressingMode, kind: Mnemonic) -> CpuView {
        let (s, m) = self.fetch_operand(mode);
        let r = if kind == Mnemonic::And {
            s.a & m
        } else if kind == Mnemonic::Ora {
            s.a | m
        } else {
            s.a ^ m
        };
        CpuView { a: r, ..s }.zn(r)
    }

    /// `BIT` as this processor does it: every flag comes from `A & m`.
    #[verifier::opaque]
    pub open spec fn bit(self, mode: AddressingMode) -> CpuView {
        let (s, m) = self.fetch_operand(mode);
        let r = s.a & m;
        CpuView {
            status: StatusFlags { zero: r == 0, overflow: r & OVERFLOW_FLAG == OVERFLOW_FLAG, negative: r >= 128, ..s.status },
            ..s
        }
    }

    #[verifier::opaque]
    pub open spec fn compare(self, src: u8, mode: AddressingMode) -> CpuView {
        let (s, m) = self.fetch_operand(mode);
        CpuView {
            status: StatusFlags { carry: src >= m, zero: src == m, negative: src.wrapping_sub(m) >= 128, ..s.status },
            ..s
        }
    }

    #[verifier::opaque]
    pub open spec fn load(self, mode: AddressingMode, reg: u8) -> CpuView {
        let (s, m) = self.fetch_operand(mode);
        if reg == 0 {
            CpuView { a: m, ..s }.zn(m)
        } else if reg == 1 {
            CpuView { x: m, ..s }.zn(m)
        } else {
            CpuView { y: m, ..s }.zn(m)
        }
    }

    #[verifier::opaque]
    pub open spec fn store(self, mode: AddressingMode, v: u8) -> CpuView {
        let (s, addr) = self.operand(mode);
        s.write(addr, v)
    }

    /// The byte a shift or rotate makes of `v` (carry `c` in) and the bit it moves out;
    /// this processor's `ROR` moves bit 7 out.
    pub open spec fn shift_of(kind: Mnemonic, v: u8, c: bool) -> (u8, bool) {
        if kind == Mnemonic::Asl {
            (v << 1u8, v & SIGN_MASK != 0)
        } else if kind == Mnemonic::Lsr {
            (v >> 1u8, v & 0x01 != 0)
        } else if kind == Mnemonic::Rol {
            (rol_value(v, c), v & SIGN_MASK != 0)
        } else {
            ((v >> 1u8) | (if c { 0x80u8 } else { 0u8 }), v & 0x80 != 0)
        }
    }

    #[verifier::opaque]
    pub open spec fn shifted(self, mode: AddressingMode, kind: Mnemonic) -> CpuView {
        if mode == AddressingMode::NoneAddressing {
            let (r, c) = CpuView::shift_of(kind, self.a, self.status.carry);
            CpuView { a: r, ..self.with_carry(c) }.zn(r)
        } else {
            let (s, addr) = self.operand(mode);
            let (r, c) = CpuView::shift_of(kind, s.mem[addr as int], s.status.carry);
            s.with_carry(c).write(addr, r).zn(r)
        }
    }

    #[verifier::opaque]
    pub open spec fn step_memory(self, mode: AddressingMode, up: bool) -> CpuView {
        let (s, addr) = self.operand(mode);
        let v = s.mem[addr as int];
        let r = if up { v.wrapping_add(1) } else { v.wrapping_sub(1) };
        s.write(addr, r).zn(r)
    }

    /// A branch: when taken, the program counter moves by the signed offset that follows
    /// the opcode.
    pub open spec fn branch(self, cond: bool) -> CpuView {
        if cond {
            CpuView { pc: branch_target(self.pc, self.mem[self.pc as int]), ..self }
        } else {
            self
        }
    }

    #[verifier::opaque]
    pub open spec fn jmp(self, mode: AddressingMode) -> CpuView {
        let (s1, t) = self.read16(self.pc);
        if mode == AddressingMode::Absolute {
            CpuView { pc: t, ..s1 }
        } else {
            let (s2, t2) = s1.read16(t);
            CpuView { pc: t2, ..s2 }
        }
    }

    #[verifier::opaque]
    pub open spec fn jsr(self) -> CpuView {
        let s1 = self.push16(self.pc.wrapping_add(1));
        let (s2, t) = s1.read16(s1.pc);
        CpuView { pc: t, ..s2 }
    }

    /// `RTI` as this processor does it: the flags, then the return address plus one.
    #[verifier::opaque]
    pub open spec fn rti(self) -> CpuView {
        let (s1, v) = self.pull();
        let (s2, t) = CpuView { status: flags_of(v), ..s1 }.pull16();
        CpuView { pc: t.wrapping_add(1), ..s2 }
    }

    #[verifier::opaque]
    pub open spec fn rts(self) -> CpuView {
        let (s, t) = self.pull16();
        CpuView { pc: t.wrapping_add(1), ..s }
    }

    pub open spec fn performed_alu(self, ins: Instruction) -> CpuView {
        let mode = ins.addressing_mode;
        match ins.mnemonic {
            Mnemonic::Adc => self.adc(mode),
            Mnemonic::Sbc => self.sbc(mode),
            Mnemonic::Bit => self.bit(mode),
            Mnemonic::Cmp => self.compare(self.a, mode),
            Mnemonic::Cpx => self.compare(self.x, mode),
            Mnemonic::Cpy => self.compare(self.y, mode),
            _ => self.logic(mode, ins.mnemonic),
        }
    }

    pub open spec fn performed_load_store(self, ins: Instruction) -> CpuView {
        let mode = ins.addressing_mode;
        match ins.mnemonic {
            Mnemonic::Lda => self.load(mode, 0),
            Mnemonic::Ldx => self.load(mode, 1),
            Mnemonic::Ldy => self.load(mode, 2),
            Mnemonic::Sta => self.store(mode, self.a),
            Mnemonic::Stx => self.store(mode, self.x),
            _ => self.store(mode, self.y),
        }
    }

    pub open spec fn performed_read_modify_write(self, ins: Instruction) -> CpuView {
        let mode = ins.addressing_mode;
        match ins.mnemonic {
            Mnemonic::Dec => self.step_memory(mode, false),
            Mnemonic::Inc => self.step_memory(mode, true),
            _ => self.shifted(mode, ins.mnemonic),
        }
    }

    pub open spec fn branch_condition(self, m: Mnemonic) -> bool {
        let st = self.status;
        match m {
            Mnemonic::Bcc => !st.carry,
            Mnemonic::Bcs => st.carry,
            Mnemonic::Beq => st.zero,
            Mnemonic::Bmi => st.negative,
            Mnemonic::Bne => !st.zero,
            Mnemonic::Bpl => !st.negative,
            Mnemonic::Bvc => !st.overflow,
            _ => st.overflow,
        }
    }

    pub open spec fn flag_op_status(self, m: Mnemonic) -> StatusFlags {
        let st = self.status;
        match m {
            Mnemonic::Clc => StatusFlags { carry: false, ..st },
            Mnemonic::Cld => StatusFlags { decimal: false, ..st },
            Mnemonic::Cli => StatusFlags { irq_disable: false, ..st },
            Mnemonic::Clv => StatusFlags { overflow: false, ..st },
            Mnemonic::Sec => StatusFlags { carry: true, ..st },
            Mnemonic::Sed => StatusFlags { decimal: true, ..st },
            _ => StatusFlags { irq_disable: true, ..st },
        }
    }

    /// Register transfers, increments and decrements; this processor's `INY` loads Y
    /// with X plus one.
    #[verifier::opaque]
    pub open spec fn performed_register_ops(self, ins: Instruction) -> CpuView {
        match ins.mnemonic {
            Mnemonic::Dex => CpuView { x: self.x.wrapping_sub(1), ..self }.zn(self.x.wrapping_sub(1)),
            Mnemonic::Dey => CpuView { y: self.y.wrapping_sub(1), ..self }.zn(self.y.wrapping_sub(1)),
            Mnemonic::Inx => CpuView { x: self.x.wrapping_add(1), ..self }.zn(self.x.wrapping_add(1)),
            Mnemonic::Iny => CpuView { y: self.x.wrapping_add(1), ..self }.zn(self.x.wrapping_add(1)),
            Mnemonic::Tax => CpuView { x: self.a, ..self }.zn(self.a),
            Mnemonic::Tay => CpuView { y: self.a, ..self }.zn(self.a),
            Mnemonic::Tsx => CpuView { x: self.sp, ..self }.zn(self.sp),
            Mnemonic::Txa => CpuView { a: self.x, ..self }.zn(self.x),
            Mnemonic::Txs => CpuView { sp: self.x, ..self },
            _ => CpuView { a: self.y, ..self }.zn(self.y),
        }
    }

    /// Jumps, returns and stack operations; `PLA` sets no flags here, and `PHP` pushes
    /// the flags as they are.
    #[verifier::opaque]
    pub open spec fn performed_control(self, ins: Instruction) -> CpuView {
        match ins.mnemonic {
            Mnemonic::Jmp => self.jmp(ins.addressing_mode),
            Mnemonic::Jsr => self.jsr(),
            Mnemonic::Rti => self.rti(),
            Mnemonic::Rts => self.rts(),
            Mnemonic::Pha => self.push(self.a),
            Mnemonic::Php => self.push(flags_byte(self.status)),
            Mnemonic::Pla => {
                let (s, v) = self.pull();
                CpuView { a: v, ..s }
            },
            Mnemonic::Plp => {
                let (s, v) = self.pull();
                CpuView { status: flags_of(v), ..s }
            },
            _ => self,
        }
    }

    /// What an instruction does once the program counter is past its opcode.
    pub open spec fn performed(self, ins: Instruction) -> CpuView {
        match op_group(ins.mnemonic) {
            OpGroup::Alu => self.performed_alu(ins),
            OpGroup::LoadStore => self.performed_load_store(ins),
            OpGroup::ReadModifyWrite => self.performed_read_modify_write(ins),
            OpGroup::Branches => self.branch(self.branch_condition(ins.mnemonic)),
            OpGroup::FlagOps => CpuView { status: self.flag_op_status(ins.mnemonic), ..self },
            OpGroup::RegisterOps => self.performed_register_ops(ins),
            OpGroup::Control => self.performed_control(ins),
        }
    }

    /// One instruction: fetch the opcode, look it up, perform it and move past its
    /// operand bytes (jumps set the counter themselves); `BRK` stops.
    pub open spec fn stepped(self) -> (CpuView, Result<Flow, CpuError>) {
        let op = self.mem[self.pc as int];
        let s0 = CpuView { pc: self.pc.wrapping_add(1), fault: None, ..self };
        match instruction_for(op) {
            None => (s0, Err(CpuError::UnknownOpcode(op))),
            Some(ins) => if ins.mnemonic == Mnemonic::Brk {
                (s0, Ok(Flow::Halt))
            } else {
                let s1 = s0.performed(ins);
                let s2 = if ins.mnemonic == Mnemonic::Jmp || ins.mnemonic == Mnemonic::Jsr {
                    s1
                } else {
                    CpuView { pc: s1.pc.wrapping_add((ins.bytes - 1) as u16), ..s1 }
                };
                match s2.fault {
                    Some(a) => (s2, Err(CpuError::WordPastEnd(a))),
                    None => (s2, Ok(Flow::Continue)),
                }
            },
        }
    }

    /// Instructions one after the other until a `BRK` or a failure, for at most `n` of
    /// them.
    pub open spec fn run(self, n: nat) -> (CpuView, Result<(), CpuError>)
        decreases n,
    {
        if n == 0 {
            (self, Err(CpuError::StepLimit))
        } else {
            let (s, r) = self.stepped();
            match r {
                Ok(Flow::Continue) => s.run((n - 1) as nat),
                Ok(Flow::Halt) => (s, Ok(())),
                Err(e) => (s, Err(e)),
            }
        }
    }

    /// Registers and flags cleared, the program counter loaded from the reset vector.
    pub open spec fn reset_state(self) -> CpuView {
        let s = CpuView { a: 0, x: 0, y: 0, status: flags_of(0), ..self };
        let (s1, t) = s.read16(RESET_ADDR);
        CpuView { pc: t, ..s1 }
    }

    /// The program `rom` placed from 0x8000 on and the reset vector pointed at it, then
    /// a reset.
    pub open spec fn set_up(self, rom: Seq<u8>) -> CpuView {
        let mem = Seq::new(0x10000, |i: int| if 0x8000 <= i < 0x8000 + rom.len() { rom[i - 0x8000] } else { self.mem[i] });
        CpuView { mem, ..self }.write16(RESET_ADDR, 0x8000).reset_state()
    }
}

/// The stack gives back what was pushed: pulling after a push returns the byte and
/// leaves the stack pointer where it was. A word pushed and pulled comes back whole as
/// long as it does not straddle the end of the stack page (stack pointer 0, where the
/// word's high byte is written past the page but read from its start).
pub proof fn lemma_push_pull(s: CpuView, v: u8, w: u16)
    requires
        s.wf(),
    ensures
        s.push(v).pull().1 == v,
        s.push(v).pull().0 == s.write((0x100 + s.sp) as u16, v),
        s.push16(w).pull16().0.sp == s.sp,
        s.sp != 0 ==> s.push16(w).pull16().1 == w,
{
    let sp1 = s.sp.wrapping_sub(1);
    if s.sp != 0 {
        assert(sp1 == s.sp - 1);
        assert(sp1.wrapping_add(1) == s.sp);
        let t = s.push16(w);
        assert(t.mem[0x100 + sp1] == (w % 256) as u8);
        assert(t.mem[0x100 + s.sp] == (w / 256) as u8);
    }
}

impl Cpu {
    pub fn new() -> (r: Cpu)
        ensures
            r@ == (CpuView {
                a: 0,
                x: 0,
                y: 0,
                pc: 0,
                sp: 0,
                status: flags_of(0),
                mem: Seq::new(0x10000, |i: int| 0u8),
                fault: None,
            }),
    {
        let r = Cpu {
            register_a: 0,
            register_x: 0,
            register_y: 0,
            program_counter: 0,
            stack_pointer: 0,
            status: StatusFlags {
                carry: false,
                zero: false,
                irq_disable: false,
                decimal: false,
                break_cmd: false,
                overflow: false,
                negative: false,
            },
            memory: vec![0; 0x10000],
            fault: None,
        };
        proof {
            assert(r.memory@ =~= Seq::new(0x10000, |i: int| 0u8));
            assert((0u8 & 0x01u8) == 0u8 && (0u8 & 0x02u8) == 0u8 && (0u8 & 0x04u8) == 0u8 && (0u8 & 0x08u8)
                == 0u8 && (0u8 & 0x10u8) == 0u8 && (0u8 & 0x40u8) == 0u8 && (0u8 & 0x80u8) == 0u8) by (bit_vector);
        }
        r
    }

    fn reset(&mut self)
        requires
            old(self)@.wf(),
        ensures
            final(self)@ == old(self)@.reset_state(),
            final(self)@.wf(),
    {
        self.register_a = 0;
        self.register_x = 0;
        self.register_y = 0;
        self.status = StatusFlags::from(0u8);
        self.program_counter = self.read_mem_u16(RESET_ADDR);
    }

    fn update_zero_neg(&mut self, val: u8)
        ensures
            final(self)@ == old(self)@.zn(val),
    {
        self.status.zero = val == 0;
        self.status.negative = val >= 128;
    }

    fn read_mem(&self, addr: u16) -> (r: u8)
        requires
            self@.wf(),
        ensures
            r == self@.mem[addr as int],
    {
        self.memory[addr as usize]
    }

    fn read_mem_u16(&mut self, addr: u16) -> (r: u16)
        requires
            old(self)@.wf(),
        ensures
            (final(self)@, r) == old(self)@.read16(addr),
            final(self)@.wf(),
    {
        if addr == 0xFFFF {
            self.fault = Some(addr);
            return 0;
        }
        let lo = self.memory[addr as usize];
        let hi = self.memory[addr as usize + 1];
        proof {
            lemma_word(lo, hi);
        }
        ((hi as u16) << 8) | (lo as u16)
    }

    fn write_mem(&mut self, addr: u16, data: u8)
        requires
            old(self)@.wf(),
        ensures
            final(self)@ == old(self)@.write(addr, data),
            final(self)@.wf(),
    {
        self.memory.set(addr as usize, data);
    }

    fn write_mem_u16(&mut self, addr: u16, data: u16)
        requires
            old(self)@.wf(),
        ensures
            final(self)@ == old(self)@.write16(addr, data),
            final(self)@.wf(),
    {
        if addr == 0xFFFF {
            self.fault = Some(addr);
            return;
        }
        self.memory.set(addr as usize, (data % 256) as u8);
        self.memory.set(addr as usize + 1, (data / 256) as u8);
    }

    /// Pushes a byte onto the stack, moving the stack pointer down.
    fn push_stack(&mut self, data: u8)
        requires
            old(self)@.wf(),
        ensures
            final(self)@ == old(self)@.push(data),
            final(self)@.wf(),
    {
        self.write_mem(STACK_PAGE + self.stack_pointer as u16, data);
        self.stack_pointer = self.stack_pointer.wrapping_sub(1);
    }

    /// Pushes a word: one slot down, the word written there, one more slot down.
    fn push_stack_u16(&mut self, data: u16)
        requires
            old(self)@.wf(),
        ensures
            final(self)@ == old(self)@.push16(data),
            final(self)@.wf(),
    {
        self.stack_pointer = self.stack_pointer.wrapping_sub(1);
        self.write_mem_u16(STACK_PAGE + self.stack_pointer as u16, data);
        self.stack_pointer = self.stack_pointer.wrapping_sub(1);
    }

    /// Pulls a byte from the stack, moving the stack pointer up.
    fn pull_stack(&mut self) -> (r: u8)
        requires
            old(self)@.wf(),
        ensures
            (final(self)@, r) == old(self)@.pull(),
            final(self)@.wf(),
    {
        self.stack_pointer = self.stack_pointer.wrapping_add(1);
        self.read_mem(STACK_PAGE + self.stack_pointer as u16)
    }

    /// Pulls a word from the stack, low byte first.
    fn pull_stack_u16(&mut self) -> (r: u16)
        requires
            old(self)@.wf(),
        ensures
            (final(self)@, r) == old(self)@.pull16(),
            final(self)@.wf(),
    {
        self.stack_pointer = self.stack_pointer.wrapping_add(1);
        let lsb = self.read_mem(STACK_PAGE + self.stack_pointer as u16);
        self.stack_pointer = self.stack_pointer.wrapping_add(1);
        let msb = self.read_mem(STACK_PAGE + self.stack_pointer as u16);
        proof {
            lemma_word(lsb, msb);
        }
        ((msb as u16) << 8) | (lsb as u16)
    }

    /// Places `rom` from 0x8000 on, points the reset vector at it, and resets.
    pub fn setup(&mut self, rom: Vec<u8>)
        requires
            old(self)@.wf(),
            rom@.len() <= 0x8000,
        ensures
            final(self)@ == old(self)@.set_up(rom@),
            final(self)@.wf(),
    {
        let ghost s0 = self@;
        let mut i: usize = 0;
        proof {
            assert(self.memory@ =~= Seq::new(0x10000, |j: int| if 0x8000 <= j < 0x8000 + i { rom@[j - 0x8000] } else { s0.mem[j] }));
        }
        while i < rom.len()
            invariant
                i <= rom@.len() <= 0x8000,
                self@ == (CpuView {
                    mem: Seq::new(0x10000, |j: int| if 0x8000 <= j < 0x8000 + i { rom@[j - 0x8000] } else { s0.mem[j] }),
                    ..s0
                }),
                s0.wf(),
            decreases rom@.len() - i,
        {
            self.memory.set(0x8000 + i, rom[i]);
            i += 1;
            proof {
                assert(self.memory@ =~= Seq::new(0x10000, |j: int| if 0x8000 <= j < 0x8000 + i { rom@[j - 0x8000] } else { s0.mem[j] }));
            }
        }
        self.write_mem_u16(RESET_ADDR, 0x8000);
        self.reset();
    }

    /// Sets the program up and runs it.
    pub fn setup_and_run(&mut self, rom: Vec<u8>) -> (r: Result<(), CpuError>)
        requires
            old(self)@.wf(),
            rom@.len() <= 0x8000,
        ensures
            (final(self)@, r) == old(self)@.set_up(rom@).run(STEP_LIMIT as nat),
            final(self)@.wf(),
    {
        self.setup(rom);
        self.run()
    }

    fn get_operand_addr(&mut self, mode: AddressingMode) -> (r: u16)
        requires
            old(self)@.wf(),
        ensures
            (final(self)@, r) == old(self)@.operand(mode),
            final(self)@.wf(),
    {
        proof {
            reveal(CpuView::operand);
        }
        let p = self.read_mem(self.program_counter);
        match mode {
            AddressingMode::Immediate => self.program_counter,
            AddressingMode::ZeroPage => p as u16,
            AddressingMode::ZeroPageX => p.wrapping_add(self.register_x) as u16,
            AddressingMode::ZeroPageY => p.wrapping_add(self.register_y) as u16,
            AddressingMode::Absolute => self.read_mem_u16(self.program_counter),
            AddressingMode::AbsoluteX => {
                let x = self.register_x;
                let addr = self.read_mem_u16(self.program_counter);
                addr.wrapping_add(x as u16)
            },
            AddressingMode::AbsoluteY => {
                let y = self.register_y;
                let addr = self.read_mem_u16(self.program_counter);
                addr.wrapping_add(y as u16)
            },
            AddressingMode::IndirectX => {
                let q = p.wrapping_add(self.register_x);
                let lsb = self.read_mem(q as u16);
                let msb = self.read_mem(q.wrapping_add(1) as u16);
                proof {
                    lemma_word(lsb, msb);
                }
                (msb as u16) << 8 | (lsb as u16)
            },
            AddressingMode::IndirectY => {
                let lsb = self.read_mem(p as u16);
                let msb = self.read_mem(p.wrapping_add(1) as u16);
                proof {
                    lemma_word(lsb, msb);
                }
                ((msb as u16) << 8 | (lsb as u16)).wrapping_add(self.register_y as u16)
            },
            AddressingMode::NoneAddressing => 0,
        }
    }

    fn fetch_operand(&mut self, mode: AddressingMode) -> (r: u8)
        requires
            old(self)@.wf(),
        ensures
            (final(self)@, r) == old(self)@.fetch_operand(mode),
            final(self)@.wf(),
    {
        let addr = self.get_operand_addr(mode);
        self.read_mem(addr)
    }

    fn adc(&mut self, mode: AddressingMode)
        requires
            old(self)@.wf(),
        ensures
            final(self)@ == old(self)@.adc(mode),
            final(self)@.wf(),
    {
        proof {
            reveal(CpuView::adc);
        }
        let operand = self.fetch_operand(mode);
        let (r, carry, overflow) = add_with_carry(self.register_a, operand, self.status.carry);
        self.register_a = r;
        self.status.overflow = overflow;
        self.status.carry = carry;
        self.update_zero_neg(r);
    }

    fn sbc(&mut self, mode: AddressingMode)
        requires
            old(self)@.wf(),
        ensures
            final(self)@ == old(self)@.sbc(mode),
            final(self)@.wf(),
    {
        proof {
            reveal(CpuView::sbc);
        }
        let operand = self.fetch_operand(mode);
        let (r, carry, overflow) = subtract_with_borrow(self.register_a, operand, self.status.carry);
        self.register_a = r;
        self.status.overflow = overflow;
        self.status.carry = carry;
        self.update_zero_neg(r);
    }

    fn logic(&mut self, mode: AddressingMode, kind: Mnemonic)
        requires
            old(self)@.wf(),
        ensures
            final(self)@ == old(self)@.logic(mode, kind),
            final(self)@.wf(),
    {
        proof {
            reveal(CpuView::logic);
        }
        let operand = self.fetch_operand(mode);
        let r = match kind {
            Mnemonic::And => self.register_a & operand,
            Mnemonic::Ora => self.register_a | operand,
            _ => self.register_a ^ operand,
        };
        self.register_a = r;
        self.update_zero_neg(r);
    }

    fn and(&mut self, mode: AddressingMode)
        requires
            old(self)@.wf(),
        ensures
            final(self)@ == old(self)@.logic(mode, Mnemonic::And),
            final(self)@.wf(),
    {
        self.logic(mode, Mnemonic::And);
    }

    fn ora(&mut self, mode: AddressingMode)
        requires
            old(self)@.wf(),
        ensures
            final(self)@ == old(self)@.logic(mode, Mnemonic::Ora),
            final(self)@.wf(),
    {
        self.logic(mode, Mnemonic::Ora);
    }

    fn eor(&mut self, mode: AddressingMode)
        requires
            old(self)@.wf(),
        ensures
            final(self)@ == old(self)@.logic(mode, Mnemonic::Eor),
            final(self)@.wf(),
    {
        self.logic(mode, Mnemonic::Eor);
    }

    fn bit(&mut self, mode: AddressingMode)
        requires
            old(self)@.wf(),
        ensures
            final(self)@ == old(self)@.bit(mode),
            final(self)@.wf(),
    {
        proof {
            reveal(CpuView::bit);
        }
        let operand = self.fetch_operand(mode);
        let result = self.register_a & operand;
        let st = StatusFlags {
            zero: result == 0,
            overflow: result & OVERFLOW_FLAG == OVERFLOW_FLAG,
            negative: result >= 128,
            ..self.status
        };
        self.status = st;
    }

    fn compare(&mut self, source: u8, mode: AddressingMode)
        requires
            old(self)@.wf(),
        ensures
            final(self)@ == old(self)@.compare(source, mode),
            final(self)@.wf(),
    {
        proof {
            reveal(CpuView::compare);
        }
        let operand = self.fetch_operand(mode);
        let d = source.wrapping_sub(operand);
        let st = StatusFlags {
            carry: source >= operand,
            zero: source == operand,
            negative: d >= SIGN_MASK,
            ..self.status
        };
        self.status = st;
    }

    fn load_register(&mut self, mode: AddressingMode, reg: u8)
        requires
            old(self)@.wf(),
        ensures
            final(self)@ == old(self)@.load(mode, reg),
            final(self)@.wf(),
    {
        proof {
            reveal(CpuView::load);
        }
        let v = self.fetch_operand(mode);
        if reg == 0 {
            self.register_a = v;
        } else if reg == 1 {
            self.register_x = v;
        } else {
            self.register_y = v;
        }
        self.update_zero_neg(v);
    }

    fn lda(&mut self, mode: AddressingMode)
        requires
            old(self)@.wf(),
        ensures
            final(self)@ == old(self)@.load(mode, 0),
            final(self)@.wf(),
    {
        self.load_register(mode, 0);
    }

    fn ldx(&mut self, mode: AddressingMode)
        requires
            old(self)@.wf(),
        ensures
            final(self)@ == old(self)@.load(mode, 1),
            final(self)@.wf(),
    {
        self.load_register(mode, 1);
    }

    fn ldy(&mut self, mode: AddressingMode)
        requires
            old(self)@.wf(),
        ensures
            final(self)@ == old(self)@.load(mode, 2),
            final(self)@.wf(),
    {
        self.load_register(mode, 2);
    }

    fn store_register(&mut self, mode: AddressingMode, v: u8)
        requires
            old(self)@.wf(),
        ensures
            final(self)@ == old(self)@.store(mode, v),
            final(self)@.wf(),
    {
        proof {
            reveal(CpuView::store);
        }
        let addr = self.get_operand_addr(mode);
        self.write_mem(addr, v);
    }

    /// Shifts or rotates the operand, or the accumulator under `NoneAddressing`.
    fn shift(&mut self, mode: AddressingMode, kind: Mnemonic)
        requires
            old(self)@.wf(),
        ensures
            final(self)@ == old(self)@.shifted(mode, kind),
            final(self)@.wf(),
    {
        proof {
            reveal(CpuView::shifted);
        }
        if let AddressingMode::NoneAddressing = mode {
            let (r, c) = shift_byte(kind, self.register_a, self.status.carry);
            self.status.carry = c;
            self.register_a = r;
            self.update_zero_neg(r);
        } else {
            let addr = self.get_operand_addr(mode);
            let v = self.read_mem(addr);
            let (r, c) = shift_byte(kind, v, self.status.carry);
            self.status.carry = c;
            self.write_mem(addr, r);
            self.update_zero_neg(r);
        }
    }

    fn asl(&mut self, mode: AddressingMode)
        requires
            old(self)@.wf(),
        ensures
            final(self)@ == old(self)@.shifted(mode, Mnemonic::Asl),
            final(self)@.wf(),
    {
        self.shift(mode, Mnemonic::Asl);
    }

    fn lsr(&mut self, mode: AddressingMode)
        requires
            old(self)@.wf(),
        ensures
            final(self)@ == old(self)@.shifted(mode, Mnemonic::Lsr),
            final(self)@.wf(),
    {
        self.shift(mode, Mnemonic::Lsr);
    }

    fn rol(&mut self, mode: AddressingMode)
        requires
            old(self)@.wf(),
        ensures
            final(self)@ == old(self)@.shifted(mode, Mnemonic::Rol),
            final(self)@.wf(),
    {
        self.shift(mode, Mnemonic::Rol);
    }

    fn ror(&mut self, mode: AddressingMode)
        requires
            old(self)@.wf(),
        ensures
            final(self)@ == old(self)@.shifted(mode, Mnemonic::Ror),
            final(self)@.wf(),
    {
        self.shift(mode, Mnemonic::Ror);
    }

    fn step_memory(&mut self, mode: AddressingMode, up: bool)
        requires
            old(self)@.wf(),
        ensures
            final(self)@ == old(self)@.step_memory(mode, up),
            final(self)@.wf(),
    {
        proof {
            reveal(CpuView::step_memory);
        }
        let addr = self.get_operand_addr(mode);
        let v = self.read_mem(addr);
        let new_val = if up { v.wrapping_add(1) } else { v.wrapping_sub(1) };
        self.write_mem(addr, new_val);
        self.update_zero_neg(new_val);
    }

    fn dec(&mut self, mode: AddressingMode)
        requires
            old(self)@.wf(),
        ensures
            final(self)@ == old(self)@.step_memory(mode, false),
            final(self)@.wf(),
    {
        self.step_memory(mode, false);
    }

    fn inc(&mut self, mode: AddressingMode)
        requires
            old(self)@.wf(),
        ensures
            final(self)@ == old(self)@.step_memory(mode, true),
            final(self)@.wf(),
    {
        self.step_memory(mode, true);
    }

    fn branch_relative(&mut self)
        requires
            old(self)@.wf(),
        ensures
            final(self)@ == old(self)@.branch(true),
            final(self)@.wf(),
    {
        let off = self.read_mem(self.program_counter);
        let pc = self.program_counter;
        self.program_counter = if off < 128 {
            pc.wrapping_add(off as u16)
        } else {
            pc.wrapping_sub(256 - off as u16)
        };
    }

    fn branch(&mut self, cond: bool)
        requires
            old(self)@.wf(),
        ensures
            final(self)@ == old(self)@.branch(cond),
            final(self)@.wf(),
    {
        if cond {
            self.branch_relative();
        }
    }

    fn jmp(&mut self, mode: AddressingMode)
        requires
            old(self)@.wf(),
        ensures
            final(self)@ == old(self)@.jmp(mode),
            final(self)@.wf(),
    {
        proof {
            reveal(CpuView::jmp);
        }
        let t = self.read_mem_u16(self.program_counter);
        if let AddressingMode::Absolute = mode {
            self.program_counter = t;
        } else {
            self.program_counter = self.read_mem_u16(t);
        }
    }

    fn jsr(&mut self)
        requires
            old(self)@.wf(),
        ensures
            final(self)@ == old(self)@.jsr(),
            final(self)@.wf(),
    {
        proof {
            reveal(CpuView::jsr);
        }
        self.push_stack_u16(self.program_counter.wrapping_add(1));
        self.program_counter = self.read_mem_u16(self.program_counter);
    }

    fn rti(&mut self)
        requires
            old(self)@.wf(),
        ensures
            final(self)@ == old(self)@.rti(),
            final(self)@.wf(),
    {
        proof {
            reveal(CpuView::rti);
        }
        self.status = StatusFlags::from(self.pull_stack());
        self.program_counter = self.pull_stack_u16().wrapping_add(1);
    }

    fn rts(&mut self)
        requires
            old(self)@.wf(),
        ensures
            final(self)@ == old(self)@.rts(),
            final(self)@.wf(),
    {
        proof {
            reveal(CpuView::rts);
        }
        self.program_counter = self.pull_stack_u16().wrapping_add(1);
    }

    fn perform_register_ops(&mut self, ins: Instruction)
        requires
            old(self)@.wf(),
            op_group(ins.mnemonic) == OpGroup::RegisterOps,
        ensures
            final(self)@ == old(self)@.performed_register_ops(ins),
            final(self)@.wf(),
    {
        proof {
            reveal(CpuView::performed_register_ops);
        }
        match ins.mnemonic {
            Mnemonic::Dex => {
                self.register_x = self.register_x.wrapping_sub(1);
                self.update_zero_neg(self.register_x);
            },
            Mnemonic::Dey => {
                self.register_y = self.register_y.wrapping_sub(1);
                self.update_zero_neg(self.register_y);
            },
            Mnemonic::Inx => {
                self.register_x = self.register_x.wrapping_add(1);
                self.update_zero_neg(self.register_x);
            },
            Mnemonic::Iny => {
                self.register_y = self.register_x.wrapping_add(1);
                self.update_zero_neg(self.register_y);
            },
            Mnemonic::Tax => {
                self.register_x = self.register_a;
                self.update_zero_neg(self.register_x);
            },
            Mnemonic::Tay => {
                self.register_y = self.register_a;
                self.update_zero_neg(self.register_y);
            },
            Mnemonic::Tsx => {
                self.register_x = self.stack_pointer;
                self.update_zero_neg(self.register_x);
            },
            Mnemonic::Txa => {
                self.register_a = self.register_x;
                self.update_zero_neg(self.register_a);
            },
            Mnemonic::Txs => {
                self.stack_pointer = self.register_x;
            },
            _ => {
                self.register_a = self.register_y;
                self.update_zero_neg(self.register_a);
            },
        }
    }

    fn perform_control(&mut self, ins: Instruction)
        requires
            old(self)@.wf(),
            ins.wf(),
            op_group(ins.mnemonic) == OpGroup::Control,
        ensures
            final(self)@ == old(self)@.performed_control(ins),
            final(self)@.wf(),
    {
        proof {
            reveal(CpuView::performed_control);
        }
        match ins.mnemonic {
            Mnemonic::Jmp => self.jmp(ins.addressing_mode),
            Mnemonic::Jsr => self.jsr(),
            Mnemonic::Rti => self.rti(),
            Mnemonic::Rts => self.rts(),
            Mnemonic::Pha => self.push_stack(self.register_a),
            Mnemonic::Php => self.push_stack(self.status.into()),
            Mnemonic::Pla => {
                self.register_a = self.pull_stack();
            },
            Mnemonic::Plp => {
                self.status = StatusFlags::from(self.pull_stack());
            },
            _ => {},
        }
    }

    /// Carries out the operation of `ins`.
    fn perform(&mut self, ins: Instruction)
        requires
            old(self)@.wf(),
            ins.wf(),
        ensures
            final(self)@ == old(self)@.performed(ins),
            final(self)@.wf(),
    {
        let mode = ins.addressing_mode;
        match group_of(ins.mnemonic) {
            OpGroup::Alu => match ins.mnemonic {
                Mnemonic::Adc => self.adc(mode),
                Mnemonic::Sbc => self.sbc(mode),
                Mnemonic::Bit => self.bit(mode),
                Mnemonic::Cmp => self.compare(self.register_a, mode),
                Mnemonic::Cpx => self.compare(self.register_x, mode),
                Mnemonic::Cpy => self.compare(self.register_y, mode),
                _ => self.logic(mode, ins.mnemonic),
            },
            OpGroup::LoadStore => match ins.mnemonic {
                Mnemonic::Lda => self.lda(mode),
                Mnemonic::Ldx => self.ldx(mode),
                Mnemonic::Ldy => self.ldy(mode),
                Mnemonic::Sta => self.store_register(mode, self.register_a),
                Mnemonic::Stx => self.store_register(mode, self.register_x),
                _ => self.store_register(mode, self.register_y),
            },
            OpGroup::ReadModifyWrite => match ins.mnemonic {
                Mnemonic::Dec => self.dec(mode),
                Mnemonic::Inc => self.inc(mode),
                _ => self.shift(mode, ins.mnemonic),
            },
            OpGroup::Branches => {
                let cond = branch_condition(ins.mnemonic, self.status);
                self.branch(cond);
            },
            OpGroup::FlagOps => {
                self.status = flag_op(ins.mnemonic, self.status);
            },
            OpGroup::RegisterOps => self.perform_register_ops(ins),
            OpGroup::Control => self.perform_control(ins),
        }
    }

    /// Fetches, looks up and performs one instruction; `BRK` stops.
    pub fn step(&mut self) -> (r: Result<Flow, CpuError>)
        requires
            old(self)@.wf(),
        ensures
            (final(self)@, r) == old(self)@.stepped(),
            final(self)@.wf(),
    {
        let op = self.read_mem(self.program_counter);
        self.program_counter = self.program_counter.wrapping_add(1);
        self.fault = None;
        let instruction = match find_instruction(op) {
            Some(i) => i,
            None => return Err(CpuError::UnknownOpcode(op)),
        };
        if let Mnemonic::Brk = instruction.mnemonic {
            return Ok(Flow::Halt);
        }
        self.perform(instruction);
        match instruction.mnemonic {
            Mnemonic::Jmp | Mnemonic::Jsr => {},
            _ => self.program_counter = self.program_counter.wrapping_add((instruction.bytes - 1) as u16),
        }
        match self.fault {
            Some(a) => Err(CpuError::WordPastEnd(a)),
            None => Ok(Flow::Continue),
        }
    }

    /// Runs instructions until a `BRK` or a failure (or, at the latest, after
    /// `STEP_LIMIT` of them).
    pub fn run(&mut self) -> (r: Result<(), CpuError>)
        requires
            old(self)@.wf(),
        ensures
            (final(self)@, r) == old(self)@.run(STEP_LIMIT as nat),
            final(self)@.wf(),
    {
        let mut budget: u64 = STEP_LIMIT;
        loop
            invariant
                self@.run(budget as nat) == old(self)@.run(STEP_LIMIT as nat),
                self@.wf(),
            decreases budget,
        {
            if budget == 0 {
                return Err(CpuError::StepLimit);
            }
            match self.step() {
                Ok(Flow::Continue) => {},
                Ok(Flow::Halt) => return Ok(()),
                Err(e) => return Err(e),
            }
            budget = budget - 1;
        }
    }
}

/// A shift or rotate of one byte as this processor does it.
fn shift_byte(kind: Mnemonic, v: u8, c: bool) -> (r: (u8, bool))
    ensures
        r == CpuView::shift_of(kind, v, c),
{
    match kind {
        Mnemonic::Asl => (v << 1u8, v & SIGN_MASK != 0),
        Mnemonic::Lsr => (v >> 1u8, v & 0x01 != 0),
        Mnemonic::Rol => ((v << 1u8) | (if c { 1u8 } else { 0u8 }), v & SIGN_MASK != 0),
        _ => ((v >> 1u8) | (if c { 0x80u8 } else { 0u8 }), v & 0x80 != 0),
    }
}

fn branch_condition(m: Mnemonic, st: StatusFlags) -> (r: bool)
    ensures
        forall|s: CpuView| s.status == st ==> r == s.branch_condition(m),
{
    match m {
        Mnemonic::Bcc => !st.carry,
        Mnemonic::Bcs => st.carry,
        Mnemonic::Beq => st.zero,
        Mnemonic::Bmi => st.negative,
        Mnemonic::Bne => !st.zero,
        Mnemonic::Bpl => !st.negative,
        Mnemonic::Bvc => !st.overflow,
        _ => st.overflow,
    }
}

fn flag_op(m: Mnemonic, st: StatusFlags) -> (r: StatusFlags)
    ensures
        forall|s: CpuView| s.status == st ==> r == s.flag_op_status(m),
{
    match m {
        Mnemonic::Clc => StatusFlags { carry: false, ..st },
        Mnemonic::Cld => StatusFlags { decimal: false, ..st },
        Mnemonic::Cli => StatusFlags { irq_disable: false, ..st },
        Mnemonic::Clv => StatusFlags { overflow: false, ..st },
        Mnemonic::Sec => StatusFlags { carry: true, ..st },
        Mnemonic::Sed => StatusFlags { decimal: true, ..st },
        _ => StatusFlags { irq_disable: true, ..st },
    }
}

} // verus!
