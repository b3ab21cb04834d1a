use vstd::prelude::*;

verus! {

/// How an instruction finds its operand.
#[derive(Clone, Copy, PartialEq, Eq, Structural, Debug)]
pub enum AddressingMode {
    /// The operand is the byte after the opcode.
    Immediate,
    /// The operand is in page zero, at the address given by the parameter.
    ZeroPage,
    /// The operand is in page zero, at the parameter plus X (wrapping within the page).
    ZeroPageX,
    /// The operand is in page zero, at the parameter plus Y (wrapping within the page).
    ZeroPageY,
    /// The operand is at the 16-bit address given by the parameter.
    Absolute,
    /// The 16-bit parameter plus X; crossing a page costs a cycle.
    AbsoluteX,
    /// The 16-bit parameter plus X, with no extra cycle on a page crossing.
    AbsoluteXNoPlus,
    /// The 16-bit parameter plus Y; crossing a page costs a cycle.
    AbsoluteY,
    /// The 16-bit parameter plus Y, with no extra cycle on a page crossing.
    AbsoluteYNoPlus,
    /// The operand is at the pointer found in page zero at the parameter plus X.
    IndirectX,
    /// The operand is at the pointer found in page zero at the parameter, plus Y; crossing
    /// a page costs a cycle.
    IndirectY,
    /// As `IndirectY`, with no extra cycle on a page crossing.
    IndirectYNoPlus,
    /// No operand address: the instruction works on registers (or, for `JMP`, reads
    /// its indirect target itself).
    Implied,
}

/// The operations of the 6502, official and unofficial.
#[derive(Clone, Copy, PartialEq, Eq, Structural, Debug)]
pub enum Mnemonic {
    Adc,
    Anc,
    And,
    Asl,
    Bcc,
    Bcs,
    Beq,
    Bit,
    Bmi,
    Bne,
    Bpl,
    Brk,
    Bvc,
    Bvs,
    Clc,
    Cld,
    Cli,
    Clv,
    Cmp,
    Cpx,
    Cpy,
    Dec,
    Dex,
    Dey,
    Eor,
    Hlt,
    Inc,
    Inx,
    Iny,
    Jmp,
    Jsr,
    Lda,
    Ldx,
    Ldy,
    Lsr,
    Nop,
    Ora,
    Pha,
    Php,
    Pla,
    Plp,
    Rol,
    Ror,
    Rti,
    Rts,
    Sbc,
    Sec,
    Sed,
    Sei,
    Sta,
    Stx,
    Sty,
    Tax,
    Tay,
    Tsx,
    Txa,
    Txs,
    Tya,
    Lax,
    Sax,
    Dcp,
    Isb,
    Slo,
    Rla,
    Sre,
    Rra,
    Alr,
    Arr,
    Xaa,
    Axs,
    Ahx,
    Shy,
    Shx,
    Tas,
    Las,
}

/// One entry of the opcode table.
#[derive(Clone, Copy, PartialEq, Eq, Structural, Debug)]
pub struct Instruction {
    pub opcode: u8,
    pub mnemonic: Mnemonic,
    pub addressing_mode: AddressingMode,
    /// Length of the instruction in bytes, opcode included.
    pub bytes: u8,
    /// Base duration in CPU cycles.
    pub duration: u8,
}

/// Operations that take their operand through `AddressingMode` (the shifts and rotates
/// also accept `Implied`, meaning the accumulator).
pub open spec fn uses_operand(m: Mnemonic) -> bool {
    match m {
        Mnemonic::Adc | Mnemonic::Anc | Mnemonic::And | Mnemonic::Bit | Mnemonic::Cmp | Mnemonic::Cpx
        | Mnemonic::Cpy | Mnemonic::Dec | Mnemonic::Eor | Mnemonic::Inc | Mnemonic::Lda | Mnemonic::Ldx
        | Mnemonic::Ldy | Mnemonic::Ora | Mnemonic::Sbc | Mnemonic::Sta | Mnemonic::Stx | Mnemonic::Sty
        | Mnemonic::Lax | Mnemonic::Sax | Mnemonic::Dcp | Mnemonic::Isb | Mnemonic::Slo | Mnemonic::Rla
        | Mnemonic::Sre | Mnemonic::Rra => true,
        _ => false,
    }
}

impl Instruction {
    /// The addressing mode suits the operation: operand-taking operations have an operand
    /// address, and `JMP` is absolute or indirect.
    pub open spec fn wf(self) -> bool {
        &&& uses_operand(self.mnemonic) ==> self.addressing_mode != AddressingMode::Implied
        &&& self.mnemonic == Mnemonic::Jmp ==> (self.addressing_mode == AddressingMode::Absolute
            || self.addressing_mode == AddressingMode::Implied)
        &&& 1 <= self.bytes <= 3
    }

    pub fn new(opcode: u8, mnemonic: Mnemonic, bytes: u8, duration: u8, addressing_mode: AddressingMode) -> (r: Self)
        ensures
            r == (Instruction { opcode, mnemonic, addressing_mode, bytes, duration }),
    {
        Instruction { opcode, mnemonic, addressing_mode, bytes, duration }
    }
}

/// The opcode table: what each of the 256 opcodes does.
pub open spec fn instruction_for(op: u8) -> Instruction {
    match op {
        0x00 => Instruction { opcode: 0x00, mnemonic: Mnemonic::Brk, addressing_mode: AddressingMode::Implied, bytes: 1, duration: 7 },
        0x01 => Instruction { opcode: 0x01, mnemonic: Mnemonic::Ora, addressing_mode: AddressingMode::IndirectX, bytes: 2, duration: 6 },
        0x02 => Instruction { opcode: 0x02, mnemonic: Mnemonic::Hlt, addressing_mode: AddressingMode::Implied, bytes: 1, duration: 2 },
        0x03 => Instruction { opcode: 0x03, mnemonic: Mnemonic::Slo, addressing_mode: AddressingMode::IndirectX, bytes: 2, duration: 8 },
        0x04 => Instruction { opcode: 0x04, mnemonic: Mnemonic::Nop, addressing_mode: AddressingMode::ZeroPage, bytes: 2, duration: 3 },
        0x05 => Instruction { opcode: 0x05, mnemonic: Mnemonic::Ora, addressing_mode: AddressingMode::ZeroPage, bytes: 2, duration: 3 },
        0x06 => Instruction { opcode: 0x06, mnemonic: Mnemonic::Asl, addressing_mode: AddressingMode::ZeroPage, bytes: 2, duration: 5 },
        0x07 => Instruction { opcode: 0x07, mnemonic: Mnemonic::Slo, addressing_mode: AddressingMode::ZeroPage, bytes: 2, duration: 5 },
        0x08 => Instruction { opcode: 0x08, mnemonic: Mnemonic::Php, addressing_mode: AddressingMode::Implied, bytes: 1, duration: 3 },
        0x09 => Instruction { opcode: 0x09, mnemonic: Mnemonic::Ora, addressing_mode: AddressingMode::Immediate, bytes: 2, duration: 2 },
        0x0A => Instruction { opcode: 0x0A, mnemonic: Mnemonic::Asl, addressing_mode: AddressingMode::Implied, bytes: 1, duration: 2 },
        0x0B => Instruction { opcode: 0x0B, mnemonic: Mnemonic::Anc, addressing_mode: AddressingMode::Immediate, bytes: 2, duration: 2 },
        0x0C => Instruction { opcode: 0x0C, mnemonic: Mnemonic::Nop, addressing_mode: AddressingMode::Absolute, bytes: 3, duration: 4 },
        0x0D => Instruction { opcode: 0x0D, mnemonic: Mnemonic::Ora, addressing_mode: AddressingMode::Absolute, bytes: 3, duration: 4 },
        0x0E => Instruction { opcode: 0x0E, mnemonic: Mnemonic::Asl, addressing_mode: AddressingMode::Absolute, bytes: 3, duration: 6 },
        0x0F => Instruction { opcode: 0x0F, mnemonic: Mnemonic::Slo, addressing_mode: AddressingMode::Absolute, bytes: 3, duration: 6 },
        0x10 => Instruction { opcode: 0x10, mnemonic: Mnemonic::Bpl, addressing_mode: AddressingMode::Implied, bytes: 2, duration: 2 },
        0x11 => Instruction { opcode: 0x11, mnemonic: Mnemonic::Ora, addressing_mode: AddressingMode::IndirectY, bytes: 2, duration: 5 },
        0x12 => Instruction { opcode: 0x12, mnemonic: Mnemonic::Hlt, addressing_mode: AddressingMode::Implied, bytes: 1, duration: 2 },
        0x13 => Instruction { opcode: 0x13, mnemonic: Mnemonic::Slo, addressing_mode: AddressingMode::IndirectYNoPlus, bytes: 2, duration: 8 },
        0x14 => Instruction { opcode: 0x14, mnemonic: Mnemonic::Nop, addressing_mode: AddressingMode::ZeroPageX, bytes: 2, duration: 4 },
        0x15 => Instruction { opcode: 0x15, mnemonic: Mnemonic::Ora, addressing_mode: AddressingMode::ZeroPageX, bytes: 2, duration: 4 },
        0x16 => Instruction { opcode: 0x16, mnemonic: Mnemonic::Asl, addressing_mode: AddressingMode::ZeroPageX, bytes: 2, duration: 6 },
        0x17 => Instruction { opcode: 0x17, mnemonic: Mnemonic::Slo, addressing_mode: AddressingMode::ZeroPageX, bytes: 2, duration: 6 },
        0x18 => Instruction { opcode: 0x18, mnemonic: Mnemonic::Clc, addressing_mode: AddressingMode::Implied, bytes: 1, duration: 2 },
        0x19 => Instruction { opcode: 0x19, mnemonic: Mnemonic::Ora, addressing_mode: AddressingMode::AbsoluteY, bytes: 3, duration: 4 },
        0x1A => Instruction { opcode: 0x1A, mnemonic: Mnemonic::Nop, addressing_mode: AddressingMode::Implied, bytes: 1, duration: 2 },
        0x1B => Instruction { opcode: 0x1B, mnemonic: Mnemonic::Slo, addressing_mode: AddressingMode::AbsoluteYNoPlus, bytes: 3, duration: 7 },
        0x1C => Instruction { opcode: 0x1C, mnemonic: Mnemonic::Nop, addressing_mode: AddressingMode::AbsoluteX, bytes: 3, duration: 4 },
        0x1D => Instruction { opcode: 0x1D, mnemonic: Mnemonic::Ora, addressing_mode: AddressingMode::AbsoluteX, bytes: 3, duration: 4 },
        0x1E => Instruction { opcode: 0x1E, mnemonic: Mnemonic::Asl, addressing_mode: AddressingMode::AbsoluteXNoPlus, bytes: 3, duration: 7 },
        0x1F => Instruction { opcode: 0x1F, mnemonic: Mnemonic::Slo, addressing_mode: AddressingMode::AbsoluteXNoPlus, bytes: 3, duration: 7 },
        0x20 => Instruction { opcode: 0x20, mnemonic: Mnemonic::Jsr, addressing_mode: AddressingMode::Absolute, bytes: 3, duration: 6 },
        0x21 => Instruction { opcode: 0x21, mnemonic: Mnemonic::And, addressing_mode: AddressingMode::IndirectX, bytes: 2, duration: 6 },
        0x22 => Instruction { opcode: 0x22, mnemonic: Mnemonic::Hlt, addressing_mode: AddressingMode::Implied, bytes: 1, duration: 2 },
        0x23 => Instruction { opcode: 0x23, mnemonic: Mnemonic::Rla, addressing_mode: AddressingMode::IndirectX, bytes: 2, duration: 8 },
        0x24 => Instruction { opcode: 0x24, mnemonic: Mnemonic::Bit, addressing_mode: AddressingMode::ZeroPage, bytes: 2, duration: 3 },
        0x25 => Instruction { opcode: 0x25, mnemonic: Mnemonic::And, addressing_mode: AddressingMode::ZeroPage, bytes: 2, duration: 3 },
        0x26 => Instruction { opcode: 0x26, mnemonic: Mnemonic::Rol, addressing_mode: AddressingMode::ZeroPage, bytes: 2, duration: 5 },
        0x27 => Instruction { opcode: 0x27, mnemonic: Mnemonic::Rla, addressing_mode: AddressingMode::ZeroPage, bytes: 2, duration: 5 },
        0x28 => Instruction { opcode: 0x28, mnemonic: Mnemonic::Plp, addressing_mode: AddressingMode::Implied, bytes: 1, duration: 4 },
        0x29 => Instruction { opcode: 0x29, mnemonic: Mnemonic::And, addressing_mode: AddressingMode::Immediate, bytes: 2, duration: 2 },
        0x2A => Instruction { opcode: 0x2A, mnemonic: Mnemonic::Rol, addressing_mode: AddressingMode::Implied, bytes: 1, duration: 2 },
        0x2B => Instruction { opcode: 0x2B, mnemonic: Mnemonic::Anc, addressing_mode: AddressingMode::Immediate, bytes: 2, duration: 2 },
        0x2C => Instruction { opcode: 0x2C, mnemonic: Mnemonic::Bit, addressing_mode: AddressingMode::Absolute, bytes: 3, duration: 4 },
        0x2D => Instruction { opcode: 0x2D, mnemonic: Mnemonic::And, addressing_mode: AddressingMode::Absolute, bytes: 3, duration: 4 },
        0x2E => Instruction { opcode: 0x2E, mnemonic: Mnemonic::Rol, addressing_mode: AddressingMode::Absolute, bytes: 3, duration: 6 },
        0x2F => Instruction { opcode: 0x2F, mnemonic: Mnemonic::Rla, addressing_mode: AddressingMode::Absolute, bytes: 3, duration: 6 },
        0x30 => Instruction { opcode: 0x30, mnemonic: Mnemonic::Bmi, addressing_mode: AddressingMode::Implied, bytes: 2, duration: 2 },
        0x31 => Instruction { opcode: 0x31, mnemonic: Mnemonic::And, addressing_mode: AddressingMode::IndirectY, bytes: 2, duration: 5 },
        0x32 => Instruction { opcode: 0x32, mnemonic: Mnemonic::Hlt, addressing_mode: AddressingMode::Implied, bytes: 1, duration: 2 },
        0x33 => Instruction { opcode: 0x33, mnemonic: Mnemonic::Rla, addressing_mode: AddressingMode::IndirectYNoPlus, bytes: 2, duration: 8 },
        0x34 => Instruction { opcode: 0x34, mnemonic: Mnemonic::Nop, addressing_mode: AddressingMode::ZeroPageX, bytes: 2, duration: 4 },
        0x35 => Instruction { opcode: 0x35, mnemonic: Mnemonic::And, addressing_mode: AddressingMode::ZeroPageX, bytes: 2, duration: 4 },
        0x36 => Instruction { opcode: 0x36, mnemonic: Mnemonic::Rol, addressing_mode: AddressingMode::ZeroPageX, bytes: 2, duration: 6 },
        0x37 => Instruction { opcode: 0x37, mnemonic: Mnemonic::Rla, addressing_mode: AddressingMode::ZeroPageX, bytes: 2, duration: 6 },
        0x38 => Instruction { opcode: 0x38, mnemonic: Mnemonic::Sec, addressing_mode: AddressingMode::Implied, bytes: 1, duration: 2 },
        0x39 => Instruction { opcode: 0x39, mnemonic: Mnemonic::And, addressing_mode: AddressingMode::AbsoluteY, bytes: 3, duration: 4 },
        0x3A => Instruction { opcode: 0x3A, mnemonic: Mnemonic::Nop, addressing_mode: AddressingMode::Implied, bytes: 1, duration: 2 },
        0x3B => Instruction { opcode: 0x3B, mnemonic: Mnemonic::Rla, addressing_mode: AddressingMode::AbsoluteYNoPlus, bytes: 3, duration: 7 },
        0x3C => Instruction { opcode: 0x3C, mnemonic: Mnemonic::Nop, addressing_mode: AddressingMode::AbsoluteX, bytes: 3, duration: 4 },
        0x3D => Instruction { opcode: 0x3D, mnemonic: Mnemonic::And, addressing_mode: AddressingMode::AbsoluteX, bytes: 3, duration: 4 },
        0x3E => Instruction { opcode: 0x3E, mnemonic: Mnemonic::Rol, addressing_mode: AddressingMode::AbsoluteXNoPlus, bytes: 3, duration: 7 },
        0x3F => Instruction { opcode: 0x3F, mnemonic: Mnemonic::Rla, addressing_mode: AddressingMode::AbsoluteXNoPlus, bytes: 3, duration: 7 },
        0x40 => Instruction { opcode: 0x40, mnemonic: Mnemonic::Rti, addressing_mode: AddressingMode::Implied, bytes: 1, duration: 6 },
        0x41 => Instruction { opcode: 0x41, mnemonic: Mnemonic::Eor, addressing_mode: AddressingMode::IndirectX, bytes: 2, duration: 6 },
        0x42 => Instruction { opcode: 0x42, mnemonic: Mnemonic::Hlt, addressing_mode: AddressingMode::Implied, bytes: 1, duration: 2 },
        0x43 => Instruction { opcode: 0x43, mnemonic: Mnemonic::Sre, addressing_mode: AddressingMode::IndirectX, bytes: 2, duration: 8 },
        0x44 => Instruction { opcode: 0x44, mnemonic: Mnemonic::Nop, addressing_mode: AddressingMode::ZeroPage, bytes: 2, duration: 3 },
        0x45 => Instruction { opcode: 0x45, mnemonic: Mnemonic::Eor, addressing_mode: AddressingMode::ZeroPage, bytes: 2, duration: 3 },
        0x46 => Instruction { opcode: 0x46, mnemonic: Mnemonic::Lsr, addressing_mode: AddressingMode::ZeroPage, bytes: 2, duration: 5 },
        0x47 => Instruction { opcode: 0x47, mnemonic: Mnemonic::Sre, addressing_mode: AddressingMode::ZeroPage, bytes: 2, duration: 5 },
        0x48 => Instruction { opcode: 0x48, mnemonic: Mnemonic::Pha, addressing_mode: AddressingMode::Implied, bytes: 1, duration: 3 },
        0x49 => Instruction { opcode: 0x49, mnemonic: Mnemonic::Eor, addressing_mode: AddressingMode::Immediate, bytes: 2, duration: 2 },
        0x4A => Instruction { opcode: 0x4A, mnemonic: Mnemonic::Lsr, addressing_mode: AddressingMode::Implied, bytes: 1, duration: 2 },
        0x4B => Instruction { opcode: 0x4B, mnemonic: Mnemonic::Alr, addressing_mode: AddressingMode::Immediate, bytes: 2, duration: 2 },
        0x4C => Instruction { opcode: 0x4C, mnemonic: Mnemonic::Jmp, addressing_mode: AddressingMode::Absolute, bytes: 3, duration: 3 },
        0x4D => Instruction { opcode: 0x4D, mnemonic: Mnemonic::Eor, addressing_mode: AddressingMode::Absolute, bytes: 3, duration: 4 },
        0x4E => Instruction { opcode: 0x4E, mnemonic: Mnemonic::Lsr, addressing_mode: AddressingMode::Absolute, bytes: 3, duration: 6 },
        0x4F => Instruction { opcode: 0x4F, mnemonic: Mnemonic::Sre, addressing_mode: AddressingMode::Absolute, bytes: 3, duration: 6 },
        0x50 => Instruction { opcode: 0x50, mnemonic: Mnemonic::Bvc, addressing_mode: AddressingMode::Implied, bytes: 2, duration: 2 },
        0x51 => Instruction { opcode: 0x51, mnemonic: Mnemonic::Eor, addressing_mode: AddressingMode::IndirectY, bytes: 2, duration: 5 },
        0x52 => Instruction { opcode: 0x52, mnemonic: Mnemonic::Hlt, addressing_mode: AddressingMode::Implied, bytes: 1, duration: 2 },
        0x53 => Instruction { opcode: 0x53, mnemonic: Mnemonic::Sre, addressing_mode: AddressingMode::IndirectYNoPlus, bytes: 2, duration: 8 },
        0x54 => Instruction { opcode: 0x54, mnemonic: Mnemonic::Nop, addressing_mode: AddressingMode::ZeroPageX, bytes: 2, duration: 4 },
        0x55 => Instruction { opcode: 0x55, mnemonic: Mnemonic::Eor, addressing_mode: AddressingMode::ZeroPageX, bytes: 2, duration: 4 },
        0x56 => Instruction { opcode: 0x56, mnemonic: Mnemonic::Lsr, addressing_mode: AddressingMode::ZeroPageX, bytes: 2, duration: 6 },
        0x57 => Instruction { opcode: 0x57, mnemonic: Mnemonic::Sre, addressing_mode: AddressingMode::ZeroPageX, bytes: 2, duration: 6 },
        0x58 => Instruction { opcode: 0x58, mnemonic: Mnemonic::Cli, addressing_mode: AddressingMode::Implied, bytes: 1, duration: 2 },
        0x59 => Instruction { opcode: 0x59, mnemonic: Mnemonic::Eor, addressing_mode: AddressingMode::AbsoluteY, bytes: 3, duration: 4 },
        0x5A => Instruction { opcode: 0x5A, mnemonic: Mnemonic::Nop, addressing_mode: AddressingMode::Implied, bytes: 1, duration: 2 },
        0x5B => Instruction { opcode: 0x5B, mnemonic: Mnemonic::Sre, addressing_mode: AddressingMode::AbsoluteYNoPlus, bytes: 3, duration: 7 },
        0x5C => Instruction { opcode: 0x5C, mnemonic: Mnemonic::Nop, addressing_mode: AddressingMode::AbsoluteX, bytes: 3, duration: 4 },
        0x5D => Instruction { opcode: 0x5D, mnemonic: Mnemonic::Eor, addressing_mode: AddressingMode::AbsoluteX, bytes: 3, duration: 4 },
        0x5E => Instruction { opcode: 0x5E, mnemonic: Mnemonic::Lsr, addressing_mode: AddressingMode::AbsoluteXNoPlus, bytes: 3, duration: 7 },
        0x5F => Instruction { opcode: 0x5F, mnemonic: Mnemonic::Sre, addressing_mode: AddressingMode::AbsoluteXNoPlus, bytes: 3, duration: 7 },
        0x60 => Instruction { opcode: 0x60, mnemonic: Mnemonic::Rts, addressing_mode: AddressingMode::Implied, bytes: 1, duration: 6 },
        0x61 => Instruction { opcode: 0x61, mnemonic: Mnemonic::Adc, addressing_mode: AddressingMode::IndirectX, bytes: 2, duration: 6 },
        0x62 => Instruction { opcode: 0x62, mnemonic: Mnemonic::Hlt, addressing_mode: AddressingMode::Implied, bytes: 1, duration: 2 },
        0x63 => Instruction { opcode: 0x63, mnemonic: Mnemonic::Rra, addressing_mode: AddressingMode::IndirectX, bytes: 2, duration: 8 },
        0x64 => Instruction { opcode: 0x64, mnemonic: Mnemonic::Nop, addressing_mode: AddressingMode::ZeroPage, bytes: 2, duration: 3 },
        0x65 => Instruction { opcode: 0x65, mnemonic: Mnemonic::Adc, addressing_mode: AddressingMode::ZeroPage, bytes: 2, duration: 3 },
        0x66 => Instruction { opcode: 0x66, mnemonic: Mnemonic::Ror, addressing_mode: AddressingMode::ZeroPage, bytes: 2, duration: 5 },
        0x67 => Instruction { opcode: 0x67, mnemonic: Mnemonic::Rra, addressing_mode: AddressingMode::ZeroPage, bytes: 2, duration: 5 },
        0x68 => Instruction { opcode: 0x68, mnemonic: Mnemonic::Pla, addressing_mode: AddressingMode::Implied, bytes: 1, duration: 4 },
        0x69 => Instruction { opcode: 0x69, mnemonic: Mnemonic::Adc, addressing_mode: AddressingMode::Immediate, bytes: 2, duration: 2 },
        0x6A => Instruction { opcode: 0x6A, mnemonic: Mnemonic::Ror, addressing_mode: AddressingMode::Implied, bytes: 1, duration: 2 },
        0x6B => Instruction { opcode: 0x6B, mnemonic: Mnemonic::Arr, addressing_mode: AddressingMode::Immediate, bytes: 2, duration: 2 },
        0x6C => Instruction { opcode: 0x6C, mnemonic: Mnemonic::Jmp, addressing_mode: AddressingMode::Implied, bytes: 3, duration: 5 },
        0x6D => Instruction { opcode: 0x6D, mnemonic: Mnemonic::Adc, addressing_mode: AddressingMode::Absolute, bytes: 3, duration: 4 },
        0x6E => Instruction { opcode: 0x6E, mnemonic: Mnemonic::Ror, addressing_mode: AddressingMode::Absolute, bytes: 3, duration: 6 },
        0x6F => Instruction { opcode: 0x6F, mnemonic: Mnemonic::Rra, addressing_mode: AddressingMode::Absolute, bytes: 3, duration: 6 },
        0x70 => Instruction { opcode: 0x70, mnemonic: Mnemonic::Bvs, addressing_mode: AddressingMode::Implied, bytes: 2, duration: 2 },
        0x71 => Instruction { opcode: 0x71, mnemonic: Mnemonic::Adc, addressing_mode: AddressingMode::IndirectY, bytes: 2, duration: 5 },
        0x72 => Instruction { opcode: 0x72, mnemonic: Mnemonic::Hlt, addressing_mode: AddressingMode::Implied, bytes: 1, duration: 2 },
        0x73 => Instruction { opcode: 0x73, mnemonic: Mnemonic::Rra, addressing_mode: AddressingMode::IndirectYNoPlus, bytes: 2, duration: 8 },
        0x74 => Instruction { opcode: 0x74, mnemonic: Mnemonic::Nop, addressing_mode: AddressingMode::ZeroPageX, bytes: 2, duration: 4 },
        0x75 => Instruction { opcode: 0x75, mnemonic: Mnemonic::Adc, addressing_mode: AddressingMode::ZeroPageX, bytes: 2, duration: 4 },
        0x76 => Instruction { opcode: 0x76, mnemonic: Mnemonic::Ror, addressing_mode: AddressingMode::ZeroPageX, bytes: 2, duration: 6 },
        0x77 => Instruction { opcode: 0x77, mnemonic: Mnemonic::Rra, addressing_mode: AddressingMode::ZeroPageX, bytes: 2, duration: 6 },
        0x78 => Instruction { opcode: 0x78, mnemonic: Mnemonic::Sei, addressing_mode: AddressingMode::Implied, bytes: 1, duration: 2 },
        0x79 => Instruction { opcode: 0x79, mnemonic: Mnemonic::Adc, addressing_mode: AddressingMode::AbsoluteY, bytes: 3, duration: 4 },
        0x7A => Instruction { opcode: 0x7A, mnemonic: Mnemonic::Nop, addressing_mode: AddressingMode::Implied, bytes: 1, duration: 2 },
        0x7B => Instruction { opcode: 0x7B, mnemonic: Mnemonic::Rra, addressing_mode: AddressingMode::AbsoluteYNoPlus, bytes: 3, duration: 7 },
        0x7C => Instruction { opcode: 0x7C, mnemonic: Mnemonic::Nop, addressing_mode: AddressingMode::AbsoluteX, bytes: 3, duration: 4 },
        0x7D => Instruction { opcode: 0x7D, mnemonic: Mnemonic::Adc, addressing_mode: AddressingMode::AbsoluteX, bytes: 3, duration: 4 },
        0x7E => Instruction { opcode: 0x7E, mnemonic: Mnemonic::Ror, addressing_mode: AddressingMode::AbsoluteXNoPlus, bytes: 3, duration: 7 },
        0x7F => Instruction { opcode: 0x7F, mnemonic: Mnemonic::Rra, addressing_mode: AddressingMode::AbsoluteXNoPlus, bytes: 3, duration: 7 },
        0x80 => Instruction { opcode: 0x80, mnemonic: Mnemonic::Nop, addressing_mode: AddressingMode::Immediate, bytes: 2, duration: 2 },
        0x81 => Instruction { opcode: 0x81, mnemonic: Mnemonic::Sta, addressing_mode: AddressingMode::IndirectX, bytes: 2, duration: 6 },
        0x82 => Instruction { opcode: 0x82, mnemonic: Mnemonic::Nop, addressing_mode: AddressingMode::Immediate, bytes: 2, duration: 2 },
        0x83 => Instruction { opcode: 0x83, mnemonic: Mnemonic::Sax, addressing_mode: AddressingMode::IndirectX, bytes: 2, duration: 6 },
        0x84 => Instruction { opcode: 0x84, mnemonic: Mnemonic::Sty, addressing_mode: AddressingMode::ZeroPage, bytes: 2, duration: 3 },
        0x85 => Instruction { opcode: 0x85, mnemonic: Mnemonic::Sta, addressing_mode: AddressingMode::ZeroPage, bytes: 2, duration: 3 },
        0x86 => Instruction { opcode: 0x86, mnemonic: Mnemonic::Stx, addressing_mode: AddressingMode::ZeroPage, bytes: 2, duration: 3 },
        0x87 => Instruction { opcode: 0x87, mnemonic: Mnemonic::Sax, addressing_mode: AddressingMode::ZeroPage, bytes: 2, duration: 3 },
        0x88 => Instruction { opcode: 0x88, mnemonic: Mnemonic::Dey, addressing_mode: AddressingMode::Implied, bytes: 1, duration: 2 },
        0x89 => Instruction { opcode: 0x89, mnemonic: Mnemonic::Nop, addressing_mode: AddressingMode::Immediate, bytes: 2, duration: 2 },
        0x8A => Instruction { opcode: 0x8A, mnemonic: Mnemonic::Txa, addressing_mode: AddressingMode::Implied, bytes: 1, duration: 2 },
        0x8B => Instruction { opcode: 0x8B, mnemonic: Mnemonic::Xaa, addressing_mode: AddressingMode::Immediate, bytes: 2, duration: 2 },
        0x8C => Instruction { opcode: 0x8C, mnemonic: Mnemonic::Sty, addressing_mode: AddressingMode::Absolute, bytes: 3, duration: 4 },
        0x8D => Instruction { opcode: 0x8D, mnemonic: Mnemonic::Sta, addressing_mode: AddressingMode::Absolute, bytes: 3, duration: 4 },
        0x8E => Instruction { opcode: 0x8E, mnemonic: Mnemonic::Stx, addressing_mode: AddressingMode::Absolute, bytes: 3, duration: 4 },
        0x8F => Instruction { opcode: 0x8F, mnemonic: Mnemonic::Sax, addressing_mode: AddressingMode::Absolute, bytes: 3, duration: 4 },
        0x90 => Instruction { opcode: 0x90, mnemonic: Mnemonic::Bcc, addressing_mode: AddressingMode::Implied, bytes: 2, duration: 2 },
        0x91 => Instruction { opcode: 0x91, mnemonic: Mnemonic::Sta, addressing_mode: AddressingMode::IndirectYNoPlus, bytes: 2, duration: 6 },
        0x92 => Instruction { opcode: 0x92, mnemonic: Mnemonic::Hlt, addressing_mode: AddressingMode::Implied, bytes: 1, duration: 2 },
        0x93 => Instruction { opcode: 0x93, mnemonic: Mnemonic::Ahx, addressing_mode: AddressingMode::IndirectYNoPlus, bytes: 2, duration: 6 },
        0x94 => Instruction { opcode: 0x94, mnemonic: Mnemonic::Sty, addressing_mode: AddressingMode::ZeroPageX, bytes: 2, duration: 4 },
        0x95 => Instruction { opcode: 0x95, mnemonic: Mnemonic::Sta, addressing_mode: AddressingMode::ZeroPageX, bytes: 2, duration: 4 },
        0x96 => Instruction { opcode: 0x96, mnemonic: Mnemonic::Stx, addressing_mode: AddressingMode::ZeroPageY, bytes: 2, duration: 4 },
        0x97 => Instruction { opcode: 0x97, mnemonic: Mnemonic::Sax, addressing_mode: AddressingMode::ZeroPageY, bytes: 2, duration: 4 },
        0x98 => Instruction { opcode: 0x98, mnemonic: Mnemonic::Tya, addressing_mode: AddressingMode::Implied, bytes: 1, duration: 2 },
        0x99 => Instruction { opcode: 0x99, mnemonic: Mnemonic::Sta, addressing_mode: AddressingMode::AbsoluteYNoPlus, bytes: 3, duration: 5 },
        0x9A => Instruction { opcode: 0x9A, mnemonic: Mnemonic::Txs, addressing_mode: AddressingMode::Implied, bytes: 1, duration: 2 },
        0x9B => Instruction { opcode: 0x9B, mnemonic: Mnemonic::Tas, addressing_mode: AddressingMode::AbsoluteYNoPlus, bytes: 3, duration: 5 },
        0x9C => Instruction { opcode: 0x9C, mnemonic: Mnemonic::Shy, addressing_mode: AddressingMode::AbsoluteXNoPlus, bytes: 3, duration: 5 },
        0x9D => Instruction { opcode: 0x9D, mnemonic: Mnemonic::Sta, addressing_mode: AddressingMode::AbsoluteXNoPlus, bytes: 3, duration: 5 },
        0x9E => Instruction { opcode: 0x9E, mnemonic: Mnemonic::Shx, addressing_mode: AddressingMode::AbsoluteYNoPlus, bytes: 3, duration: 5 },
        0x9F => Instruction { opcode: 0x9F, mnemonic: Mnemonic::Ahx, addressing_mode: AddressingMode::AbsoluteYNoPlus, bytes: 3, duration: 5 },
        0xA0 => Instruction { opcode: 0xA0, mnemonic: Mnemonic::Ldy, addressing_mode: AddressingMode::Immediate, bytes: 2, duration: 2 },
        0xA1 => Instruction { opcode: 0xA1, mnemonic: Mnemonic::Lda, addressing_mode: AddressingMode::IndirectX, bytes: 2, duration: 6 },
        0xA2 => Instruction { opcode: 0xA2, mnemonic: Mnemonic::Ldx, addressing_mode: AddressingMode::Immediate, bytes: 2, duration: 2 },
        0xA3 => Instruction { opcode: 0xA3, mnemonic: Mnemonic::Lax, addressing_mode: AddressingMode::IndirectX, bytes: 2, duration: 6 },
        0xA4 => Instruction { opcode: 0xA4, mnemonic: Mnemonic::Ldy, addressing_mode: AddressingMode::ZeroPage, bytes: 2, duration: 3 },
        0xA5 => Instruction { opcode: 0xA5, mnemonic: Mnemonic::Lda, addressing_mode: AddressingMode::ZeroPage, bytes: 2, duration: 3 },
        0xA6 => Instruction { opcode: 0xA6, mnemonic: Mnemonic::Ldx, addressing_mode: AddressingMode::ZeroPage, bytes: 2, duration: 3 },
        0xA7 => Instruction { opcode: 0xA7, mnemonic: Mnemonic::Lax, addressing_mode: AddressingMode::ZeroPage, bytes: 2, duration: 3 },
        0xA8 => Instruction { opcode: 0xA8, mnemonic: Mnemonic::Tay, addressing_mode: AddressingMode::Implied, bytes: 1, duration: 2 },
        0xA9 => Instruction { opcode: 0xA9, mnemonic: Mnemonic::Lda, addressing_mode: AddressingMode::Immediate, bytes: 2, duration: 2 },
        0xAA => Instruction { opcode: 0xAA, mnemonic: Mnemonic::Tax, addressing_mode: AddressingMode::Implied, bytes: 1, duration: 2 },
        0xAB => Instruction { opcode: 0xAB, mnemonic: Mnemonic::Lax, addressing_mode: AddressingMode::Immediate, bytes: 2, duration: 2 },
        0xAC => Instruction { opcode: 0xAC, mnemonic: Mnemonic::Ldy, addressing_mode: AddressingMode::Absolute, bytes: 3, duration: 4 },
        0xAD => Instruction { opcode: 0xAD, mnemonic: Mnemonic::Lda, addressing_mode: AddressingMode::Absolute, bytes: 3, duration: 4 },
        0xAE => Instruction { opcode: 0xAE, mnemonic: Mnemonic::Ldx, addressing_mode: AddressingMode::Absolute, bytes: 3, duration: 4 },
        0xAF => Instruction { opcode: 0xAF, mnemonic: Mnemonic::Lax, addressing_mode: AddressingMode::Absolute, bytes: 3, duration: 4 },
        0xB0 => Instruction { opcode: 0xB0, mnemonic: Mnemonic::Bcs, addressing_mode: AddressingMode::Implied, bytes: 2, duration: 2 },
        0xB1 => Instruction { opcode: 0xB1, mnemonic: Mnemonic::Lda, addressing_mode: AddressingMode::IndirectY, bytes: 2, duration: 5 },
        0xB2 => Instruction { opcode: 0xB2, mnemonic: Mnemonic::Hlt, addressing_mode: AddressingMode::Implied, bytes: 1, duration: 2 },
        0xB3 => Instruction { opcode: 0xB3, mnemonic: Mnemonic::Lax, addressing_mode: AddressingMode::IndirectY, bytes: 2, duration: 5 },
        0xB4 => Instruction { opcode: 0xB4, mnemonic: Mnemonic::Ldy, addressing_mode: AddressingMode::ZeroPageX, bytes: 2, duration: 4 },
        0xB5 => Instruction { opcode: 0xB5, mnemonic: Mnemonic::Lda, addressing_mode: AddressingMode::ZeroPageX, bytes: 2, duration: 4 },
        0xB6 => Instruction { opcode: 0xB6, mnemonic: Mnemonic::Ldx, addressing_mode: AddressingMode::ZeroPageY, bytes: 2, duration: 4 },
        0xB7 => Instruction { opcode: 0xB7, mnemonic: Mnemonic::Lax, addressing_mode: AddressingMode::ZeroPageY, bytes: 2, duration: 4 },
        0xB8 => Instruction { opcode: 0xB8, mnemonic: Mnemonic::Clv, addressing_mode: AddressingMode::Implied, bytes: 1, duration: 2 },
        0xB9 => Instruction { opcode: 0xB9, mnemonic: Mnemonic::Lda, addressing_mode: AddressingMode::AbsoluteY, bytes: 3, duration: 4 },
        0xBA => Instruction { opcode: 0xBA, mnemonic: Mnemonic::Tsx, addressing_mode: AddressingMode::Implied, bytes: 1, duration: 2 },
        0xBB => Instruction { opcode: 0xBB, mnemonic: Mnemonic::Las, addressing_mode: AddressingMode::AbsoluteY, bytes: 3, duration: 4 },
        0xBC => Instruction { opcode: 0xBC, mnemonic: Mnemonic::Ldy, addressing_mode: AddressingMode::AbsoluteX, bytes: 3, duration: 4 },
        0xBD => Instruction { opcode: 0xBD, mnemonic: Mnemonic::Lda, addressing_mode: AddressingMode::AbsoluteX, bytes: 3, duration: 4 },
        0xBE => Instruction { opcode: 0xBE, mnemonic: Mnemonic::Ldx, addressing_mode: AddressingMode::AbsoluteY, bytes: 3, duration: 4 },
        0xBF => Instruction { opcode: 0xBF, mnemonic: Mnemonic::Lax, addressing_mode: AddressingMode::AbsoluteY, bytes: 3, duration: 4 },
        0xC0 => Instruction { opcode: 0xC0, mnemonic: Mnemonic::Cpy, addressing_mode: AddressingMode::Immediate, bytes: 2, duration: 2 },
        0xC1 => Instruction { opcode: 0xC1, mnemonic: Mnemonic::Cmp, addressing_mode: AddressingMode::IndirectX, bytes: 2, duration: 6 },
        0xC2 => Instruction { opcode: 0xC2, mnemonic: Mnemonic::Nop, addressing_mode: AddressingMode::Immediate, bytes: 2, duration: 2 },
        0xC3 => Instruction { opcode: 0xC3, mnemonic: Mnemonic::Dcp, addressing_mode: AddressingMode::IndirectX, bytes: 2, duration: 8 },
        0xC4 => Instruction { opcode: 0xC4, mnemonic: Mnemonic::Cpy, addressing_mode: AddressingMode::ZeroPage, bytes: 2, duration: 3 },
        0xC5 => Instruction { opcode: 0xC5, mnemonic: Mnemonic::Cmp, addressing_mode: AddressingMode::ZeroPage, bytes: 2, duration: 3 },
        0xC6 => Instruction { opcode: 0xC6, mnemonic: Mnemonic::Dec, addressing_mode: AddressingMode::ZeroPage, bytes: 2, duration: 5 },
        0xC7 => Instruction { opcode: 0xC7, mnemonic: Mnemonic::Dcp, addressing_mode: AddressingMode::ZeroPage, bytes: 2, duration: 5 },
        0xC8 => Instruction { opcode: 0xC8, mnemonic: Mnemonic::Iny, addressing_mode: AddressingMode::Implied, bytes: 1, duration: 2 },
        0xC9 => Instruction { opcode: 0xC9, mnemonic: Mnemonic::Cmp, addressing_mode: AddressingMode::Immediate, bytes: 2, duration: 2 },
        0xCA => Instruction { opcode: 0xCA, mnemonic: Mnemonic::Dex, addressing_mode: AddressingMode::Implied, bytes: 1, duration: 2 },
        0xCB => Instruction { opcode: 0xCB, mnemonic: Mnemonic::Axs, addressing_mode: AddressingMode::Immediate, bytes: 2, duration: 2 },
        0xCC => Instruction { opcode: 0xCC, mnemonic: Mnemonic::Cpy, addressing_mode: AddressingMode::Absolute, bytes: 3, duration: 4 },
        0xCD => Instruction { opcode: 0xCD, mnemonic: Mnemonic::Cmp, addressing_mode: AddressingMode::Absolute, bytes: 3, duration: 4 },
        0xCE => Instruction { opcode: 0xCE, mnemonic: Mnemonic::Dec, addressing_mode: AddressingMode::Absolute, bytes: 3, duration: 6 },
        0xCF => Instruction { opcode: 0xCF, mnemonic: Mnemonic::Dcp, addressing_mode: AddressingMode::Absolute, bytes: 3, duration: 6 },
        0xD0 => Instruction { opcode: 0xD0, mnemonic: Mnemonic::Bne, addressing_mode: AddressingMode::Implied, bytes: 2, duration: 2 },
        0xD1 => Instruction { opcode: 0xD1, mnemonic: Mnemonic::Cmp, addressing_mode: AddressingMode::IndirectY, bytes: 2, duration: 5 },
        0xD2 => Instruction { opcode: 0xD2, mnemonic: Mnemonic::Hlt, addressing_mode: AddressingMode::Implied, bytes: 1, duration: 2 },
        0xD3 => Instruction { opcode: 0xD3, mnemonic: Mnemonic::Dcp, addressing_mode: AddressingMode::IndirectYNoPlus, bytes: 2, duration: 8 },
        0xD4 => Instruction { opcode: 0xD4, mnemonic: Mnemonic::Nop, addressing_mode: AddressingMode::ZeroPageX, bytes: 2, duration: 4 },
        0xD5 => Instruction { opcode: 0xD5, mnemonic: Mnemonic::Cmp, addressing_mode: AddressingMode::ZeroPageX, bytes: 2, duration: 4 },
        0xD6 => Instruction { opcode: 0xD6, mnemonic: Mnemonic::Dec, addressing_mode: AddressingMode::ZeroPageX, bytes: 2, duration: 6 },
        0xD7 => Instruction { opcode: 0xD7, mnemonic: Mnemonic::Dcp, addressing_mode: AddressingMode::ZeroPageX, bytes: 2, duration: 6 },
        0xD8 => Instruction { opcode: 0xD8, mnemonic: Mnemonic::Cld, addressing_mode: AddressingMode::Implied, bytes: 1, duration: 2 },
        0xD9 => Instruction { opcode: 0xD9, mnemonic: Mnemonic::Cmp, addressing_mode: AddressingMode::AbsoluteY, bytes: 3, duration: 4 },
        0xDA => Instruction { opcode: 0xDA, mnemonic: Mnemonic::Nop, addressing_mode: AddressingMode::Implied, bytes: 1, duration: 2 },
        0xDB => Instruction { opcode: 0xDB, mnemonic: Mnemonic::Dcp, addressing_mode: AddressingMode::AbsoluteYNoPlus, bytes: 3, duration: 7 },
        0xDC => Instruction { opcode: 0xDC, mnemonic: Mnemonic::Nop, addressing_mode: AddressingMode::AbsoluteX, bytes: 3, duration: 4 },
        0xDD => Instruction { opcode: 0xDD, mnemonic: Mnemonic::Cmp, addressing_mode: AddressingMode::AbsoluteX, bytes: 3, duration: 4 },
        0xDE => Instruction { opcode: 0xDE, mnemonic: Mnemonic::Dec, addressing_mode: AddressingMode::AbsoluteXNoPlus, bytes: 3, duration: 7 },
        0xDF => Instruction { opcode: 0xDF, mnemonic: Mnemonic::Dcp, addressing_mode: AddressingMode::AbsoluteXNoPlus, bytes: 3, duration: 7 },
        0xE0 => Instruction { opcode: 0xE0, mnemonic: Mnemonic::Cpx, addressing_mode: AddressingMode::Immediate, bytes: 2, duration: 2 },
        0xE1 => Instruction { opcode: 0xE1, mnemonic: Mnemonic::Sbc, addressing_mode: AddressingMode::IndirectX, bytes: 2, duration: 6 },
        0xE2 => Instruction { opcode: 0xE2, mnemonic: Mnemonic::Nop, addressing_mode: AddressingMode::Immediate, bytes: 2, duration: 2 },
        0xE3 => Instruction { opcode: 0xE3, mnemonic: Mnemonic::Isb, addressing_mode: AddressingMode::IndirectX, bytes: 2, duration: 8 },
        0xE4 => Instruction { opcode: 0xE4, mnemonic: Mnemonic::Cpx, addressing_mode: AddressingMode::ZeroPage, bytes: 2, duration: 3 },
        0xE5 => Instruction { opcode: 0xE5, mnemonic: Mnemonic::Sbc, addressing_mode: AddressingMode::ZeroPage, bytes: 2, duration: 3 },
        0xE6 => Instruction { opcode: 0xE6, mnemonic: Mnemonic::Inc, addressing_mode: AddressingMode::ZeroPage, bytes: 2, duration: 5 },
        0xE7 => Instruction { opcode: 0xE7, mnemonic: Mnemonic::Isb, addressing_mode: AddressingMode::ZeroPage, bytes: 2, duration: 5 },
        0xE8 => Instruction { opcode: 0xE8, mnemonic: Mnemonic::Inx, addressing_mode: AddressingMode::Implied, bytes: 1, duration: 2 },
        0xE9 => Instruction { opcode: 0xE9, mnemonic: Mnemonic::Sbc, addressing_mode: AddressingMode::Immediate, bytes: 2, duration: 2 },
        0xEA => Instruction { opcode: 0xEA, mnemonic: Mnemonic::Nop, addressing_mode: AddressingMode::Implied, bytes: 1, duration: 2 },
        0xEB => Instruction { opcode: 0xEB, mnemonic: Mnemonic::Sbc, addressing_mode: AddressingMode::Immediate, bytes: 2, duration: 2 },
        0xEC => Instruction { opcode: 0xEC, mnemonic: Mnemonic::Cpx, addressing_mode: AddressingMode::Absolute, bytes: 3, duration: 4 },
        0xED => Instruction { opcode: 0xED, mnemonic: Mnemonic::Sbc, addressing_mode: AddressingMode::Absolute, bytes: 3, duration: 4 },
        0xEE => Instruction { opcode: 0xEE, mnemonic: Mnemonic::Inc, addressing_mode: AddressingMode::Absolute, bytes: 3, duration: 6 },
        0xEF => Instruction { opcode: 0xEF, mnemonic: Mnemonic::Isb, addressing_mode: AddressingMode::Absolute, bytes: 3, duration: 6 },
        0xF0 => Instruction { opcode: 0xF0, mnemonic: Mnemonic::Beq, addressing_mode: AddressingMode::Implied, bytes: 2, duration: 2 },
        0xF1 => Instruction { opcode: 0xF1, mnemonic: Mnemonic::Sbc, addressing_mode: AddressingMode::IndirectY, bytes: 2, duration: 5 },
        0xF2 => Instruction { opcode: 0xF2, mnemonic: Mnemonic::Hlt, addressing_mode: AddressingMode::Implied, bytes: 1, duration: 2 },
        0xF3 => Instruction { opcode: 0xF3, mnemonic: Mnemonic::Isb, addressing_mode: AddressingMode::IndirectYNoPlus, bytes: 2, duration: 8 },
        0xF4 => Instruction { opcode: 0xF4, mnemonic: Mnemonic::Nop, addressing_mode: AddressingMode::ZeroPageX, bytes: 2, duration: 4 },
        0xF5 => Instruction { opcode: 0xF5, mnemonic: Mnemonic::Sbc, addressing_mode: AddressingMode::ZeroPageX, bytes: 2, duration: 4 },
        0xF6 => Instruction { opcode: 0xF6, mnemonic: Mnemonic::Inc, addressing_mode: AddressingMode::ZeroPageX, bytes: 2, duration: 6 },
        0xF7 => Instruction { opcode: 0xF7, mnemonic: Mnemonic::Isb, addressing_mode: AddressingMode::ZeroPageX, bytes: 2, duration: 6 },
        0xF8 => Instruction { opcode: 0xF8, mnemonic: Mnemonic::Sed, addressing_mode: AddressingMode::Implied, bytes: 1, duration: 2 },
        0xF9 => Instruction { opcode: 0xF9, mnemonic: Mnemonic::Sbc, addressing_mode: AddressingMode::AbsoluteY, bytes: 3, duration: 4 },
        0xFA => Instruction { opcode: 0xFA, mnemonic: Mnemonic::Nop, addressing_mode: AddressingMode::Implied, bytes: 1, duration: 2 },
        0xFB => Instruction { opcode: 0xFB, mnemonic: Mnemonic::Isb, addressing_mode: AddressingMode::AbsoluteYNoPlus, bytes: 3, duration: 7 },
        0xFC => Instruction { opcode: 0xFC, mnemonic: Mnemonic::Nop, addressing_mode: AddressingMode::AbsoluteX, bytes: 3, duration: 4 },
        0xFD => Instruction { opcode: 0xFD, mnemonic: Mnemonic::Sbc, addressing_mode: AddressingMode::AbsoluteX, bytes: 3, duration: 4 },
        0xFE => Instruction { opcode: 0xFE, mnemonic: Mnemonic::Inc, addressing_mode: AddressingMode::AbsoluteXNoPlus, bytes: 3, duration: 7 },
        _ => Instruction { opcode: 0xFF, mnemonic: Mnemonic::Isb, addressing_mode: AddressingMode::AbsoluteXNoPlus, bytes: 3, duration: 7 },
    }
}

/// Mode of an addressing mode up to the page-crossing cycle: the same operand address.
pub open spec fn operand_mode(m: AddressingMode) -> AddressingMode {
    match m {
        AddressingMode::AbsoluteXNoPlus => AddressingMode::AbsoluteX,
        AddressingMode::AbsoluteYNoPlus => AddressingMode::AbsoluteY,
        AddressingMode::IndirectYNoPlus => AddressingMode::IndirectY,
        _ => m,
    }
}

/// Bytes of parameter that follow the opcode for an addressing mode that names an
/// operand: one for immediates and page-zero forms, two for absolute forms.
pub open spec fn parameter_bytes(m: AddressingMode) -> int {
    match operand_mode(m) {
        AddressingMode::Absolute | AddressingMode::AbsoluteX | AddressingMode::AbsoluteY => 2,
        AddressingMode::Implied => 0,
        _ => 1,
    }
}

/// The operations of opcodes `aaa bbb 01`, by their top three bits.
pub open spec fn group_one_mnemonic(aaa: int) -> Mnemonic {
    if aaa == 0 {
        Mnemonic::Ora
    } else if aaa == 1 {
        Mnemonic::And
    } else if aaa == 2 {
        Mnemonic::Eor
    } else if aaa == 3 {
        Mnemonic::Adc
    } else if aaa == 4 {
        Mnemonic::Sta
    } else if aaa == 5 {
        Mnemonic::Lda
    } else if aaa == 6 {
        Mnemonic::Cmp
    } else {
        Mnemonic::Sbc
    }
}

/// The addressing modes of opcodes `aaa bbb 01`, by their middle three bits.
pub open spec fn group_one_mode(bbb: int) -> AddressingMode {
    if bbb == 0 {
        AddressingMode::IndirectX
    } else if bbb == 1 {
        AddressingMode::ZeroPage
    } else if bbb == 2 {
        AddressingMode::Immediate
    } else if bbb == 3 {
        AddressingMode::Absolute
    } else if bbb == 4 {
        AddressingMode::IndirectY
    } else if bbb == 5 {
        AddressingMode::ZeroPageX
    } else if bbb == 6 {
        AddressingMode::AbsoluteY
    } else {
        AddressingMode::AbsoluteX
    }
}

/// The read-modify-write and X-register operations of opcodes `aaa bbb 10`.
pub open spec fn group_two_mnemonic(aaa: int) -> Mnemonic {
    if aaa == 0 {
        Mnemonic::Asl
    } else if aaa == 1 {
        Mnemonic::Rol
    } else if aaa == 2 {
        Mnemonic::Lsr
    } else if aaa == 3 {
        Mnemonic::Ror
    } else if aaa == 4 {
        Mnemonic::Stx
    } else if aaa == 5 {
        Mnemonic::Ldx
    } else if aaa == 6 {
        Mnemonic::Dec
    } else {
        Mnemonic::Inc
    }
}

/// The memory modes of opcodes `aaa bbb 10` with `bbb` odd: page zero, absolute, and
/// their indexed forms, indexed by Y for the X-register operations (STX, LDX).
pub open spec fn group_two_mode(aaa: int, bbb: int) -> AddressingMode {
    let by_y = aaa == 4 || aaa == 5;
    if bbb == 1 {
        AddressingMode::ZeroPage
    } else if bbb == 3 {
        AddressingMode::Absolute
    } else if bbb == 5 {
        if by_y { AddressingMode::ZeroPageY } else { AddressingMode::ZeroPageX }
    } else {
        if by_y { AddressingMode::AbsoluteY } else { AddressingMode::AbsoluteX }
    }
}

/// The opcode map follows the 6502's encoding `aaa bbb cc`: every opcode with `cc = 01`
/// (but 0x89, an unofficial two-byte no-op) is the arithmetic/load/store operation named
/// by `aaa` in the addressing mode named by `bbb`; in particular the `bbb = 111` forms
/// index by X and the `bbb = 110` forms by Y.
#[verifier::rlimit(100)]
#[verifier::spinoff_prover]
pub proof fn lemma_group_one_encoding(op: u8)
    requires
        op % 4 == 1,
        op != 0x89,
    ensures
        instruction_for(op).opcode == op,
        instruction_for(op).mnemonic == group_one_mnemonic((op / 32) as int),
        operand_mode(instruction_for(op).addressing_mode) == group_one_mode(((op / 4) % 8) as int),
{
}

/// Opcodes `aaa bbb 10` with `bbb` odd are the shift, rotate, increment, decrement and
/// X-register load/store operations in page-zero and absolute modes (0x9E, the unofficial
/// SHX, aside).
#[verifier::rlimit(100)]
#[verifier::spinoff_prover]
pub proof fn lemma_group_two_encoding(op: u8)
    requires
        op % 4 == 2,
        (op / 4) % 2 == 1,
        op != 0x9E,
    ensures
        instruction_for(op).opcode == op,
        instruction_for(op).mnemonic == group_two_mnemonic((op / 32) as int),
        operand_mode(instruction_for(op).addressing_mode) == group_two_mode((op / 32) as int, ((op / 4) % 8) as int),
{
}

/// Every instruction that names an operand is as long as its opcode and the parameter
/// its addressing mode reads.
#[verifier::rlimit(100)]
#[verifier::spinoff_prover]
pub proof fn lemma_instruction_length(op: u8)
    ensures
        instruction_for(op).opcode == op,
        instruction_for(op).addressing_mode != AddressingMode::Implied ==> instruction_for(op).bytes
            == 1 + parameter_bytes(instruction_for(op).addressing_mode),
{
}

/// Looks an opcode up in the table.
#[verifier::rlimit(100)]
#[verifier::spinoff_prover]
pub fn decode(op: u8) -> (r: Instruction)
    ensures
        r == instruction_for(op),
        r.wf(),
{
    match op {
        0x00 => Instruction { opcode: 0x00, mnemonic: Mnemonic::Brk, addressing_mode: AddressingMode::Implied, bytes: 1, duration: 7 },
        0x01 => Instruction { opcode: 0x01, mnemonic: Mnemonic::Ora, addressing_mode: AddressingMode::IndirectX, bytes: 2, duration: 6 },
        0x02 => Instruction { opcode: 0x02, mnemonic: Mnemonic::Hlt, addressing_mode: AddressingMode::Implied, bytes: 1, duration: 2 },
        0x03 => Instruction { opcode: 0x03, mnemonic: Mnemonic::Slo, addressing_mode: AddressingMode::IndirectX, bytes: 2, duration: 8 },
        0x04 => Instruction { opcode: 0x04, mnemonic: Mnemonic::Nop, addressing_mode: AddressingMode::ZeroPage, bytes: 2, duration: 3 },
        0x05 => Instruction { opcode: 0x05, mnemonic: Mnemonic::Ora, addressing_mode: AddressingMode::ZeroPage, bytes: 2, duration: 3 },
        0x06 => Instruction { opcode: 0x06, mnemonic: Mnemonic::Asl, addressing_mode: AddressingMode::ZeroPage, bytes: 2, duration: 5 },
        0x07 => Instruction { opcode: 0x07, mnemonic: Mnemonic::Slo, addressing_mode: AddressingMode::ZeroPage, bytes: 2, duration: 5 },
        0x08 => Instruction { opcode: 0x08, mnemonic: Mnemonic::Php, addressing_mode: AddressingMode::Implied, bytes: 1, duration: 3 },
        0x09 => Instruction { opcode: 0x09, mnemonic: Mnemonic::Ora, addressing_mode: AddressingMode::Immediate, bytes: 2, duration: 2 },
        0x0A => Instruction { opcode: 0x0A, mnemonic: Mnemonic::Asl, addressing_mode: AddressingMode::Implied, bytes: 1, duration: 2 },
        0x0B => Instruction { opcode: 0x0B, mnemonic: Mnemonic::Anc, addressing_mode: AddressingMode::Immediate, bytes: 2, duration: 2 },
        0x0C => Instruction { opcode: 0x0C, mnemonic: Mnemonic::Nop, addressing_mode: AddressingMode::Absolute, bytes: 3, duration: 4 },
        0x0D => Instruction { opcode: 0x0D, mnemonic: Mnemonic::Ora, addressing_mode: AddressingMode::Absolute, bytes: 3, duration: 4 },
        0x0E => Instruction { opcode: 0x0E, mnemonic: Mnemonic::Asl, addressing_mode: AddressingMode::Absolute, bytes: 3, duration: 6 },
        0x0F => Instruction { opcode: 0x0F, mnemonic: Mnemonic::Slo, addressing_mode: AddressingMode::Absolute, bytes: 3, duration: 6 },
        0x10 => Instruction { opcode: 0x10, mnemonic: Mnemonic::Bpl, addressing_mode: AddressingMode::Implied, bytes: 2, duration: 2 },
        0x11 => Instruction { opcode: 0x11, mnemonic: Mnemonic::Ora, addressing_mode: AddressingMode::IndirectY, bytes: 2, duration: 5 },
        0x12 => Instruction { opcode: 0x12, mnemonic: Mnemonic::Hlt, addressing_mode: AddressingMode::Implied, bytes: 1, duration: 2 },
        0x13 => Instruction { opcode: 0x13, mnemonic: Mnemonic::Slo, addressing_mode: AddressingMode::IndirectYNoPlus, bytes: 2, duration: 8 },
        0x14 => Instruction { opcode: 0x14, mnemonic: Mnemonic::Nop, addressing_mode: AddressingMode::ZeroPageX, bytes: 2, duration: 4 },
        0x15 => Instruction { opcode: 0x15, mnemonic: Mnemonic::Ora, addressing_mode: AddressingMode::ZeroPageX, bytes: 2, duration: 4 },
        0x16 => Instruction { opcode: 0x16, mnemonic: Mnemonic::Asl, addressing_mode: AddressingMode::ZeroPageX, bytes: 2, duration: 6 },
        0x17 => Instruction { opcode: 0x17, mnemonic: Mnemonic::Slo, addressing_mode: AddressingMode::ZeroPageX, bytes: 2, duration: 6 },
        0x18 => Instruction { opcode: 0x18, mnemonic: Mnemonic::Clc, addressing_mode: AddressingMode::Implied, bytes: 1, duration: 2 },
        0x19 => Instruction { opcode: 0x19, mnemonic: Mnemonic::Ora, addressing_mode: AddressingMode::AbsoluteY, bytes: 3, duration: 4 },
        0x1A => Instruction { opcode: 0x1A, mnemonic: Mnemonic::Nop, addressing_mode: AddressingMode::Implied, bytes: 1, duration: 2 },
        0x1B => Instruction { opcode: 0x1B, mnemonic: Mnemonic::Slo, addressing_mode: AddressingMode::AbsoluteYNoPlus, bytes: 3, duration: 7 },
        0x1C => Instruction { opcode: 0x1C, mnemonic: Mnemonic::Nop, addressing_mode: AddressingMode::AbsoluteX, bytes: 3, duration: 4 },
        0x1D => Instruction { opcode: 0x1D, mnemonic: Mnemonic::Ora, addressing_mode: AddressingMode::AbsoluteX, bytes: 3, duration: 4 },
        0x1E => Instruction { opcode: 0x1E, mnemonic: Mnemonic::Asl, addressing_mode: AddressingMode::AbsoluteXNoPlus, bytes: 3, duration: 7 },
        0x1F => Instruction { opcode: 0x1F, mnemonic: Mnemonic::Slo, addressing_mode: AddressingMode::AbsoluteXNoPlus, bytes: 3, duration: 7 },
        0x20 => Instruction { opcode: 0x20, mnemonic: Mnemonic::Jsr, addressing_mode: AddressingMode::Absolute, bytes: 3, duration: 6 },
        0x21 => Instruction { opcode: 0x21, mnemonic: Mnemonic::And, addressing_mode: AddressingMode::IndirectX, bytes: 2, duration: 6 },
        0x22 => Instruction { opcode: 0x22, mnemonic: Mnemonic::Hlt, addressing_mode: AddressingMode::Implied, bytes: 1, duration: 2 },
        0x23 => Instruction { opcode: 0x23, mnemonic: Mnemonic::Rla, addressing_mode: AddressingMode::IndirectX, bytes: 2, duration: 8 },
        0x24 => Instruction { opcode: 0x24, mnemonic: Mnemonic::Bit, addressing_mode: AddressingMode::ZeroPage, bytes: 2, duration: 3 },
        0x25 => Instruction { opcode: 0x25, mnemonic: Mnemonic::And, addressing_mode: AddressingMode::ZeroPage, bytes: 2, duration: 3 },
        0x26 => Instruction { opcode: 0x26, mnemonic: Mnemonic::Rol, addressing_mode: AddressingMode::ZeroPage, bytes: 2, duration: 5 },
        0x27 => Instruction { opcode: 0x27, mnemonic: Mnemonic::Rla, addressing_mode: AddressingMode::ZeroPage, bytes: 2, duration: 5 },
        0x28 => Instruction { opcode: 0x28, mnemonic: Mnemonic::Plp, addressing_mode: AddressingMode::Implied, bytes: 1, duration: 4 },
        0x29 => Instruction { opcode: 0x29, mnemonic: Mnemonic::And, addressing_mode: AddressingMode::Immediate, bytes: 2, duration: 2 },
        0x2A => Instruction { opcode: 0x2A, mnemonic: Mnemonic::Rol, addressing_mode: AddressingMode::Implied, bytes: 1, duration: 2 },
        0x2B => Instruction { opcode: 0x2B, mnemonic: Mnemonic::Anc, addressing_mode: AddressingMode::Immediate, bytes: 2, duration: 2 },
        0x2C => Instruction { opcode: 0x2C, mnemonic: Mnemonic::Bit, addressing_mode: AddressingMode::Absolute, bytes: 3, duration: 4 },
        0x2D => Instruction { opcode: 0x2D, mnemonic: Mnemonic::And, addressing_mode: AddressingMode::Absolute, bytes: 3, duration: 4 },
        0x2E => Instruction { opcode: 0x2E, mnemonic: Mnemonic::Rol, addressing_mode: AddressingMode::Absolute, bytes: 3, duration: 6 },
        0x2F => Instruction { opcode: 0x2F, mnemonic: Mnemonic::Rla, addressing_mode: AddressingMode::Absolute, bytes: 3, duration: 6 },
        0x30 => Instruction { opcode: 0x30, mnemonic: Mnemonic::Bmi, addressing_mode: AddressingMode::Implied, bytes: 2, duration: 2 },
        0x31 => Instruction { opcode: 0x31, mnemonic: Mnemonic::And, addressing_mode: AddressingMode::IndirectY, bytes: 2, duration: 5 },
        0x32 => Instruction { opcode: 0x32, mnemonic: Mnemonic::Hlt, addressing_mode: AddressingMode::Implied, bytes: 1, duration: 2 },
        0x33 => Instruction { opcode: 0x33, mnemonic: Mnemonic::Rla, addressing_mode: AddressingMode::IndirectYNoPlus, bytes: 2, duration: 8 },
        0x34 => Instruction { opcode: 0x34, mnemonic: Mnemonic::Nop, addressing_mode: AddressingMode::ZeroPageX, bytes: 2, duration: 4 },
        0x35 => Instruction { opcode: 0x35, mnemonic: Mnemonic::And, addressing_mode: AddressingMode::ZeroPageX, bytes: 2, duration: 4 },
        0x36 => Instruction { opcode: 0x36, mnemonic: Mnemonic::Rol, addressing_mode: AddressingMode::ZeroPageX, bytes: 2, duration: 6 },
        0x37 => Instruction { opcode: 0x37, mnemonic: Mnemonic::Rla, addressing_mode: AddressingMode::ZeroPageX, bytes: 2, duration: 6 },
        0x38 => Instruction { opcode: 0x38, mnemonic: Mnemonic::Sec, addressing_mode: AddressingMode::Implied, bytes: 1, duration: 2 },
        0x39 => Instruction { opcode: 0x39, mnemonic: Mnemonic::And, addressing_mode: AddressingMode::AbsoluteY, bytes: 3, duration: 4 },
        0x3A => Instruction { opcode: 0x3A, mnemonic: Mnemonic::Nop, addressing_mode: AddressingMode::Implied, bytes: 1, duration: 2 },
        0x3B => Instruction { opcode: 0x3B, mnemonic: Mnemonic::Rla, addressing_mode: AddressingMode::AbsoluteYNoPlus, bytes: 3, duration: 7 },
        0x3C => Instruction { opcode: 0x3C, mnemonic: Mnemonic::Nop, addressing_mode: AddressingMode::AbsoluteX, bytes: 3, duration: 4 },
        0x3D => Instruction { opcode: 0x3D, mnemonic: Mnemonic::And, addressing_mode: AddressingMode::AbsoluteX, bytes: 3, duration: 4 },
        0x3E => Instruction { opcode: 0x3E, mnemonic: Mnemonic::Rol, addressing_mode: AddressingMode::AbsoluteXNoPlus, bytes: 3, duration: 7 },
        0x3F => Instruction { opcode: 0x3F, mnemonic: Mnemonic::Rla, addressing_mode: AddressingMode::AbsoluteXNoPlus, bytes: 3, duration: 7 },
        0x40 => Instruction { opcode: 0x40, mnemonic: Mnemonic::Rti, addressing_mode: AddressingMode::Implied, bytes: 1, duration: 6 },
        0x41 => Instruction { opcode: 0x41, mnemonic: Mnemonic::Eor, addressing_mode: AddressingMode::IndirectX, bytes: 2, duration: 6 },
        0x42 => Instruction { opcode: 0x42, mnemonic: Mnemonic::Hlt, addressing_mode: AddressingMode::Implied, bytes: 1, duration: 2 },
        0x43 => Instruction { opcode: 0x43, mnemonic: Mnemonic::Sre, addressing_mode: AddressingMode::IndirectX, bytes: 2, duration: 8 },
        0x44 => Instruction { opcode: 0x44, mnemonic: Mnemonic::Nop, addressing_mode: AddressingMode::ZeroPage, bytes: 2, duration: 3 },
        0x45 => Instruction { opcode: 0x45, mnemonic: Mnemonic::Eor, addressing_mode: AddressingMode::ZeroPage, bytes: 2, duration: 3 },
        0x46 => Instruction { opcode: 0x46, mnemonic: Mnemonic::Lsr, addressing_mode: AddressingMode::ZeroPage, bytes: 2, duration: 5 },
        0x47 => Instruction { opcode: 0x47, mnemonic: Mnemonic::Sre, addressing_mode: AddressingMode::ZeroPage, bytes: 2, duration: 5 },
        0x48 => Instruction { opcode: 0x48, mnemonic: Mnemonic::Pha, addressing_mode: AddressingMode::Implied, bytes: 1, duration: 3 },
        0x49 => Instruction { opcode: 0x49, mnemonic: Mnemonic::Eor, addressing_mode: AddressingMode::Immediate, bytes: 2, duration: 2 },
        0x4A => Instruction { opcode: 0x4A, mnemonic: Mnemonic::Lsr, addressing_mode: AddressingMode::Implied, bytes: 1, duration: 2 },
        0x4B => Instruction { opcode: 0x4B, mnemonic: Mnemonic::Alr, addressing_mode: AddressingMode::Immediate, bytes: 2, duration: 2 },
        0x4C => Instruction { opcode: 0x4C, mnemonic: Mnemonic::Jmp, addressing_mode: AddressingMode::Absolute, bytes: 3, duration: 3 },
        0x4D => Instruction { opcode: 0x4D, mnemonic: Mnemonic::Eor, addressing_mode: AddressingMode::Absolute, bytes: 3, duration: 4 },
        0x4E => Instruction { opcode: 0x4E, mnemonic: Mnemonic::Lsr, addressing_mode: AddressingMode::Absolute, bytes: 3, duration: 6 },
        0x4F => Instruction { opcode: 0x4F, mnemonic: Mnemonic::Sre, addressing_mode: AddressingMode::Absolute, bytes: 3, duration: 6 },
        0x50 => Instruction { opcode: 0x50, mnemonic: Mnemonic::Bvc, addressing_mode: AddressingMode::Implied, bytes: 2, duration: 2 },
        0x51 => Instruction { opcode: 0x51, mnemonic: Mnemonic::Eor, addressing_mode: AddressingMode::IndirectY, bytes: 2, duration: 5 },
        0x52 => Instruction { opcode: 0x52, mnemonic: Mnemonic::Hlt, addressing_mode: AddressingMode::Implied, bytes: 1, duration: 2 },
        0x53 => Instruction { opcode: 0x53, mnemonic: Mnemonic::Sre, addressing_mode: AddressingMode::IndirectYNoPlus, bytes: 2, duration: 8 },
        0x54 => Instruction { opcode: 0x54, mnemonic: Mnemonic::Nop, addressing_mode: AddressingMode::ZeroPageX, bytes: 2, duration: 4 },
        0x55 => Instruction { opcode: 0x55, mnemonic: Mnemonic::Eor, addressing_mode: AddressingMode::ZeroPageX, bytes: 2, duration: 4 },
        0x56 => Instruction { opcode: 0x56, mnemonic: Mnemonic::Lsr, addressing_mode: AddressingMode::ZeroPageX, bytes: 2, duration: 6 },
        0x57 => Instruction { opcode: 0x57, mnemonic: Mnemonic::Sre, addressing_mode: AddressingMode::ZeroPageX, bytes: 2, duration: 6 },
        0x58 => Instruction { opcode: 0x58, mnemonic: Mnemonic::Cli, addressing_mode: AddressingMode::Implied, bytes: 1, duration: 2 },
        0x59 => Instruction { opcode: 0x59, mnemonic: Mnemonic::Eor, addressing_mode: AddressingMode::AbsoluteY, bytes: 3, duration: 4 },
        0x5A => Instruction { opcode: 0x5A, mnemonic: Mnemonic::Nop, addressing_mode: AddressingMode::Implied, bytes: 1, duration: 2 },
        0x5B => Instruction { opcode: 0x5B, mnemonic: Mnemonic::Sre, addressing_mode: AddressingMode::AbsoluteYNoPlus, bytes: 3, duration: 7 },
        0x5C => Instruction { opcode: 0x5C, mnemonic: Mnemonic::Nop, addressing_mode: AddressingMode::AbsoluteX, bytes: 3, duration: 4 },
        0x5D => Instruction { opcode: 0x5D, mnemonic: Mnemonic::Eor, addressing_mode: AddressingMode::AbsoluteX, bytes: 3, duration: 4 },
        0x5E => Instruction { opcode: 0x5E, mnemonic: Mnemonic::Lsr, addressing_mode: AddressingMode::AbsoluteXNoPlus, bytes: 3, duration: 7 },
        0x5F => Instruction { opcode: 0x5F, mnemonic: Mnemonic::Sre, addressing_mode: AddressingMode::AbsoluteXNoPlus, bytes: 3, duration: 7 },
        0x60 => Instruction { opcode: 0x60, mnemonic: Mnemonic::Rts, addressing_mode: AddressingMode::Implied, bytes: 1, duration: 6 },
        0x61 => Instruction { opcode: 0x61, mnemonic: Mnemonic::Adc, addressing_mode: AddressingMode::IndirectX, bytes: 2, duration: 6 },
        0x62 => Instruction { opcode: 0x62, mnemonic: Mnemonic::Hlt, addressing_mode: AddressingMode::Implied, bytes: 1, duration: 2 },
        0x63 => Instruction { opcode: 0x63, mnemonic: Mnemonic::Rra, addressing_mode: AddressingMode::IndirectX, bytes: 2, duration: 8 },
        0x64 => Instruction { opcode: 0x64, mnemonic: Mnemonic::Nop, addressing_mode: AddressingMode::ZeroPage, bytes: 2, duration: 3 },
        0x65 => Instruction { opcode: 0x65, mnemonic: Mnemonic::Adc, addressing_mode: AddressingMode::ZeroPage, bytes: 2, duration: 3 },
        0x66 => Instruction { opcode: 0x66, mnemonic: Mnemonic::Ror, addressing_mode: AddressingMode::ZeroPage, bytes: 2, duration: 5 },
        0x67 => Instruction { opcode: 0x67, mnemonic: Mnemonic::Rra, addressing_mode: AddressingMode::ZeroPage, bytes: 2, duration: 5 },
        0x68 => Instruction { opcode: 0x68, mnemonic: Mnemonic::Pla, addressing_mode: AddressingMode::Implied, bytes: 1, duration: 4 },
        0x69 => Instruction { opcode: 0x69, mnemonic: Mnemonic::Adc, addressing_mode: AddressingMode::Immediate, bytes: 2, duration: 2 },
        0x6A => Instruction { opcode: 0x6A, mnemonic: Mnemonic::Ror, addressing_mode: AddressingMode::Implied, bytes: 1, duration: 2 },
        0x6B => Instruction { opcode: 0x6B, mnemonic: Mnemonic::Arr, addressing_mode: AddressingMode::Immediate, bytes: 2, duration: 2 },
        0x6C => Instruction { opcode: 0x6C, mnemonic: Mnemonic::Jmp, addressing_mode: AddressingMode::Implied, bytes: 3, duration: 5 },
        0x6D => Instruction { opcode: 0x6D, mnemonic: Mnemonic::Adc, addressing_mode: AddressingMode::Absolute, bytes: 3, duration: 4 },
        0x6E => Instruction { opcode: 0x6E, mnemonic: Mnemonic::Ror, addressing_mode: AddressingMode::Absolute, bytes: 3, duration: 6 },
        0x6F => Instruction { opcode: 0x6F, mnemonic: Mnemonic::Rra, addressing_mode: AddressingMode::Absolute, bytes: 3, duration: 6 },
        0x70 => Instruction { opcode: 0x70, mnemonic: Mnemonic::Bvs, addressing_mode: AddressingMode::Implied, bytes: 2, duration: 2 },
        0x71 => Instruction { opcode: 0x71, mnemonic: Mnemonic::Adc, addressing_mode: AddressingMode::IndirectY, bytes: 2, duration: 5 },
        0x72 => Instruction { opcode: 0x72, mnemonic: Mnemonic::Hlt, addressing_mode: AddressingMode::Implied, bytes: 1, duration: 2 },
        0x73 => Instruction { opcode: 0x73, mnemonic: Mnemonic::Rra, addressing_mode: AddressingMode::IndirectYNoPlus, bytes: 2, duration: 8 },
        0x74 => Instruction { opcode: 0x74, mnemonic: Mnemonic::Nop, addressing_mode: AddressingMode::ZeroPageX, bytes: 2, duration: 4 },
        0x75 => Instruction { opcode: 0x75, mnemonic: Mnemonic::Adc, addressing_mode: AddressingMode::ZeroPageX, bytes: 2, duration: 4 },
        0x76 => Instruction { opcode: 0x76, mnemonic: Mnemonic::Ror, addressing_mode: AddressingMode::ZeroPageX, bytes: 2, duration: 6 },
        0x77 => Instruction { opcode: 0x77, mnemonic: Mnemonic::Rra, addressing_mode: AddressingMode::ZeroPageX, bytes: 2, duration: 6 },
        0x78 => Instruction { opcode: 0x78, mnemonic: Mnemonic::Sei, addressing_mode: AddressingMode::Implied, bytes: 1, duration: 2 },
        0x79 => Instruction { opcode: 0x79, mnemonic: Mnemonic::Adc, addressing_mode: AddressingMode::AbsoluteY, bytes: 3, duration: 4 },
        0x7A => Instruction { opcode: 0x7A, mnemonic: Mnemonic::Nop, addressing_mode: AddressingMode::Implied, bytes: 1, duration: 2 },
        0x7B => Instruction { opcode: 0x7B, mnemonic: Mnemonic::Rra, addressing_mode: AddressingMode::AbsoluteYNoPlus, bytes: 3, duration: 7 },
        0x7C => Instruction { opcode: 0x7C, mnemonic: Mnemonic::Nop, addressing_mode: AddressingMode::AbsoluteX, bytes: 3, duration: 4 },
        0x7D => Instruction { opcode: 0x7D, mnemonic: Mnemonic::Adc, addressing_mode: AddressingMode::AbsoluteX, bytes: 3, duration: 4 },
        0x7E => Instruction { opcode: 0x7E, mnemonic: Mnemonic::Ror, addressing_mode: AddressingMode::AbsoluteXNoPlus, bytes: 3, duration: 7 },
        0x7F => Instruction { opcode: 0x7F, mnemonic: Mnemonic::Rra, addressing_mode: AddressingMode::AbsoluteXNoPlus, bytes: 3, duration: 7 },
        0x80 => Instruction { opcode: 0x80, mnemonic: Mnemonic::Nop, addressing_mode: AddressingMode::Immediate, bytes: 2, duration: 2 },
        0x81 => Instruction { opcode: 0x81, mnemonic: Mnemonic::Sta, addressing_mode: AddressingMode::IndirectX, bytes: 2, duration: 6 },
        0x82 => Instruction { opcode: 0x82, mnemonic: Mnemonic::Nop, addressing_mode: AddressingMode::Immediate, bytes: 2, duration: 2 },
        0x83 => Instruction { opcode: 0x83, mnemonic: Mnemonic::Sax, addressing_mode: AddressingMode::IndirectX, bytes: 2, duration: 6 },
        0x84 => Instruction { opcode: 0x84, mnemonic: Mnemonic::Sty, addressing_mode: AddressingMode::ZeroPage, bytes: 2, duration: 3 },
        0x85 => Instruction { opcode: 0x85, mnemonic: Mnemonic::Sta, addressing_mode: AddressingMode::ZeroPage, bytes: 2, duration: 3 },
        0x86 => Instruction { opcode: 0x86, mnemonic: Mnemonic::Stx, addressing_mode: AddressingMode::ZeroPage, bytes: 2, duration: 3 },
        0x87 => Instruction { opcode: 0x87, mnemonic: Mnemonic::Sax, addressing_mode: AddressingMode::ZeroPage, bytes: 2, duration: 3 },
        0x88 => Instruction { opcode: 0x88, mnemonic: Mnemonic::Dey, addressing_mode: AddressingMode::Implied, bytes: 1, duration: 2 },
        0x89 => Instruction { opcode: 0x89, mnemonic: Mnemonic::Nop, addressing_mode: AddressingMode::Immediate, bytes: 2, duration: 2 },
        0x8A => Instruction { opcode: 0x8A, mnemonic: Mnemonic::Txa, addressing_mode: AddressingMode::Implied, bytes: 1, duration: 2 },
        0x8B => Instruction { opcode: 0x8B, mnemonic: Mnemonic::Xaa, addressing_mode: AddressingMode::Immediate, bytes: 2, duration: 2 },
        0x8C => Instruction { opcode: 0x8C, mnemonic: Mnemonic::Sty, addressing_mode: AddressingMode::Absolute, bytes: 3, duration: 4 },
        0x8D => Instruction { opcode: 0x8D, mnemonic: Mnemonic::Sta, addressing_mode: AddressingMode::Absolute, bytes: 3, duration: 4 },
        0x8E => Instruction { opcode: 0x8E, mnemonic: Mnemonic::Stx, addressing_mode: AddressingMode::Absolute, bytes: 3, duration: 4 },
        0x8F => Instruction { opcode: 0x8F, mnemonic: Mnemonic::Sax, addressing_mode: AddressingMode::Absolute, bytes: 3, duration: 4 },
        0x90 => Instruction { opcode: 0x90, mnemonic: Mnemonic::Bcc, addressing_mode: AddressingMode::Implied, bytes: 2, duration: 2 },
        0x91 => Instruction { opcode: 0x91, mnemonic: Mnemonic::Sta, addressing_mode: AddressingMode::IndirectYNoPlus, bytes: 2, duration: 6 },
        0x92 => Instruction { opcode: 0x92, mnemonic: Mnemonic::Hlt, addressing_mode: AddressingMode::Implied, bytes: 1, duration: 2 },
        0x93 => Instruction { opcode: 0x93, mnemonic: Mnemonic::Ahx, addressing_mode: AddressingMode::IndirectYNoPlus, bytes: 2, duration: 6 },
        0x94 => Instruction { opcode: 0x94, mnemonic: Mnemonic::Sty, addressing_mode: AddressingMode::ZeroPageX, bytes: 2, duration: 4 },
        0x95 => Instruction { opcode: 0x95, mnemonic: Mnemonic::Sta, addressing_mode: AddressingMode::ZeroPageX, bytes: 2, duration: 4 },
        0x96 => Instruction { opcode: 0x96, mnemonic: Mnemonic::Stx, addressing_mode: AddressingMode::ZeroPageY, bytes: 2, duration: 4 },
        0x97 => Instruction { opcode: 0x97, mnemonic: Mnemonic::Sax, addressing_mode: AddressingMode::ZeroPageY, bytes: 2, duration: 4 },
        0x98 => Instruction { opcode: 0x98, mnemonic: Mnemonic::Tya, addressing_mode: AddressingMode::Implied, bytes: 1, duration: 2 },
        0x99 => Instruction { opcode: 0x99, mnemonic: Mnemonic::Sta, addressing_mode: AddressingMode::AbsoluteYNoPlus, bytes: 3, duration: 5 },
        0x9A => Instruction { opcode: 0x9A, mnemonic: Mnemonic::Txs, addressing_mode: AddressingMode::Implied, bytes: 1, duration: 2 },
        0x9B => Instruction { opcode: 0x9B, mnemonic: Mnemonic::Tas, addressing_mode: AddressingMode::AbsoluteYNoPlus, bytes: 3, duration: 5 },
        0x9C => Instruction { opcode: 0x9C, mnemonic: Mnemonic::Shy, addressing_mode: AddressingMode::AbsoluteXNoPlus, bytes: 3, duration: 5 },
        0x9D => Instruction { opcode: 0x9D, mnemonic: Mnemonic::Sta, addressing_mode: AddressingMode::AbsoluteXNoPlus, bytes: 3, duration: 5 },
        0x9E => Instruction { opcode: 0x9E, mnemonic: Mnemonic::Shx, addressing_mode: AddressingMode::AbsoluteYNoPlus, bytes: 3, duration: 5 },
        0x9F => Instruction { opcode: 0x9F, mnemonic: Mnemonic::Ahx, addressing_mode: AddressingMode::AbsoluteYNoPlus, bytes: 3, duration: 5 },
        0xA0 => Instruction { opcode: 0xA0, mnemonic: Mnemonic::Ldy, addressing_mode: AddressingMode::Immediate, bytes: 2, duration: 2 },
        0xA1 => Instruction { opcode: 0xA1, mnemonic: Mnemonic::Lda, addressing_mode: AddressingMode::IndirectX, bytes: 2, duration: 6 },
        0xA2 => Instruction { opcode: 0xA2, mnemonic: Mnemonic::Ldx, addressing_mode: AddressingMode::Immediate, bytes: 2, duration: 2 },
        0xA3 => Instruction { opcode: 0xA3, mnemonic: Mnemonic::Lax, addressing_mode: AddressingMode::IndirectX, bytes: 2, duration: 6 },
        0xA4 => Instruction { opcode: 0xA4, mnemonic: Mnemonic::Ldy, addressing_mode: AddressingMode::ZeroPage, bytes: 2, duration: 3 },
        0xA5 => Instruction { opcode: 0xA5, mnemonic: Mnemonic::Lda, addressing_mode: AddressingMode::ZeroPage, bytes: 2, duration: 3 },
        0xA6 => Instruction { opcode: 0xA6, mnemonic: Mnemonic::Ldx, addressing_mode: AddressingMode::ZeroPage, bytes: 2, duration: 3 },
        0xA7 => Instruction { opcode: 0xA7, mnemonic: Mnemonic::Lax, addressing_mode: AddressingMode::ZeroPage, bytes: 2, duration: 3 },
        0xA8 => Instruction { opcode: 0xA8, mnemonic: Mnemonic::Tay, addressing_mode: AddressingMode::Implied, bytes: 1, duration: 2 },
        0xA9 => Instruction { opcode: 0xA9, mnemonic: Mnemonic::Lda, addressing_mode: AddressingMode::Immediate, bytes: 2, duration: 2 },
        0xAA => Instruction { opcode: 0xAA, mnemonic: Mnemonic::Tax, addressing_mode: AddressingMode::Implied, bytes: 1, duration: 2 },
        0xAB => Instruction { opcode: 0xAB, mnemonic: Mnemonic::Lax, addressing_mode: AddressingMode::Immediate, bytes: 2, duration: 2 },
        0xAC => Instruction { opcode: 0xAC, mnemonic: Mnemonic::Ldy, addressing_mode: AddressingMode::Absolute, bytes: 3, duration: 4 },
        0xAD => Instruction { opcode: 0xAD, mnemonic: Mnemonic::Lda, addressing_mode: AddressingMode::Absolute, bytes: 3, duration: 4 },
        0xAE => Instruction { opcode: 0xAE, mnemonic: Mnemonic::Ldx, addressing_mode: AddressingMode::Absolute, bytes: 3, duration: 4 },
        0xAF => Instruction { opcode: 0xAF, mnemonic: Mnemonic::Lax, addressing_mode: AddressingMode::Absolute, bytes: 3, duration: 4 },
        0xB0 => Instruction { opcode: 0xB0, mnemonic: Mnemonic::Bcs, addressing_mode: AddressingMode::Implied, bytes: 2, duration: 2 },
        0xB1 => Instruction { opcode: 0xB1, mnemonic: Mnemonic::Lda, addressing_mode: AddressingMode::IndirectY, bytes: 2, duration: 5 },
        0xB2 => Instruction { opcode: 0xB2, mnemonic: Mnemonic::Hlt, addressing_mode: AddressingMode::Implied, bytes: 1, duration: 2 },
        0xB3 => Instruction { opcode: 0xB3, mnemonic: Mnemonic::Lax, addressing_mode: AddressingMode::IndirectY, bytes: 2, duration: 5 },
        0xB4 => Instruction { opcode: 0xB4, mnemonic: Mnemonic::Ldy, addressing_mode: AddressingMode::ZeroPageX, bytes: 2, duration: 4 },
        0xB5 => Instruction { opcode: 0xB5, mnemonic: Mnemonic::Lda, addressing_mode: AddressingMode::ZeroPageX, bytes: 2, duration: 4 },
        0xB6 => Instruction { opcode: 0xB6, mnemonic: Mnemonic::Ldx, addressing_mode: AddressingMode::ZeroPageY, bytes: 2, duration: 4 },
        0xB7 => Instruction { opcode: 0xB7, mnemonic: Mnemonic::Lax, addressing_mode: AddressingMode::ZeroPageY, bytes: 2, duration: 4 },
        0xB8 => Instruction { opcode: 0xB8, mnemonic: Mnemonic::Clv, addressing_mode: AddressingMode::Implied, bytes: 1, duration: 2 },
        0xB9 => Instruction { opcode: 0xB9, mnemonic: Mnemonic::Lda, addressing_mode: AddressingMode::AbsoluteY, bytes: 3, duration: 4 },
        0xBA => Instruction { opcode: 0xBA, mnemonic: Mnemonic::Tsx, addressing_mode: AddressingMode::Implied, bytes: 1, duration: 2 },
        0xBB => Instruction { opcode: 0xBB, mnemonic: Mnemonic::Las, addressing_mode: AddressingMode::AbsoluteY, bytes: 3, duration: 4 },
        0xBC => Instruction { opcode: 0xBC, mnemonic: Mnemonic::Ldy, addressing_mode: AddressingMode::AbsoluteX, bytes: 3, duration: 4 },
        0xBD => Instruction { opcode: 0xBD, mnemonic: Mnemonic::Lda, addressing_mode: AddressingMode::AbsoluteX, bytes: 3, duration: 4 },
        0xBE => Instruction { opcode: 0xBE, mnemonic: Mnemonic::Ldx, addressing_mode: AddressingMode::AbsoluteY, bytes: 3, duration: 4 },
        0xBF => Instruction { opcode: 0xBF, mnemonic: Mnemonic::Lax, addressing_mode: AddressingMode::AbsoluteY, bytes: 3, duration: 4 },
        0xC0 => Instruction { opcode: 0xC0, mnemonic: Mnemonic::Cpy, addressing_mode: AddressingMode::Immediate, bytes: 2, duration: 2 },
        0xC1 => Instruction { opcode: 0xC1, mnemonic: Mnemonic::Cmp, addressing_mode: AddressingMode::IndirectX, bytes: 2, duration: 6 },
        0xC2 => Instruction { opcode: 0xC2, mnemonic: Mnemonic::Nop, addressing_mode: AddressingMode::Immediate, bytes: 2, duration: 2 },
        0xC3 => Instruction { opcode: 0xC3, mnemonic: Mnemonic::Dcp, addressing_mode: AddressingMode::IndirectX, bytes: 2, duration: 8 },
        0xC4 => Instruction { opcode: 0xC4, mnemonic: Mnemonic::Cpy, addressing_mode: AddressingMode::ZeroPage, bytes: 2, duration: 3 },
        0xC5 => Instruction { opcode: 0xC5, mnemonic: Mnemonic::Cmp, addressing_mode: AddressingMode::ZeroPage, bytes: 2, duration: 3 },
        0xC6 => Instruction { opcode: 0xC6, mnemonic: Mnemonic::Dec, addressing_mode: AddressingMode::ZeroPage, bytes: 2, duration: 5 },
        0xC7 => Instruction { opcode: 0xC7, mnemonic: Mnemonic::Dcp, addressing_mode: AddressingMode::ZeroPage, bytes: 2, duration: 5 },
        0xC8 => Instruction { opcode: 0xC8, mnemonic: Mnemonic::Iny, addressing_mode: AddressingMode::Implied, bytes: 1, duration: 2 },
        0xC9 => Instruction { opcode: 0xC9, mnemonic: Mnemonic::Cmp, addressing_mode: AddressingMode::Immediate, bytes: 2, duration: 2 },
        0xCA => Instruction { opcode: 0xCA, mnemonic: Mnemonic::Dex, addressing_mode: AddressingMode::Implied, bytes: 1, duration: 2 },
        0xCB => Instruction { opcode: 0xCB, mnemonic: Mnemonic::Axs, addressing_mode: AddressingMode::Immediate, bytes: 2, duration: 2 },
        0xCC => Instruction { opcode: 0xCC, mnemonic: Mnemonic::Cpy, addressing_mode: AddressingMode::Absolute, bytes: 3, duration: 4 },
        0xCD => Instruction { opcode: 0xCD, mnemonic: Mnemonic::Cmp, addressing_mode: AddressingMode::Absolute, bytes: 3, duration: 4 },
        0xCE => Instruction { opcode: 0xCE, mnemonic: Mnemonic::Dec, addressing_mode: AddressingMode::Absolute, bytes: 3, duration: 6 },
        0xCF => Instruction { opcode: 0xCF, mnemonic: Mnemonic::Dcp, addressing_mode: AddressingMode::Absolute, bytes: 3, duration: 6 },
        0xD0 => Instruction { opcode: 0xD0, mnemonic: Mnemonic::Bne, addressing_mode: AddressingMode::Implied, bytes: 2, duration: 2 },
        0xD1 => Instruction { opcode: 0xD1, mnemonic: Mnemonic::Cmp, addressing_mode: AddressingMode::IndirectY, bytes: 2, duration: 5 },
        0xD2 => Instruction { opcode: 0xD2, mnemonic: Mnemonic::Hlt, addressing_mode: AddressingMode::Implied, bytes: 1, duration: 2 },
        0xD3 => Instruction { opcode: 0xD3, mnemonic: Mnemonic::Dcp, addressing_mode: AddressingMode::IndirectYNoPlus, bytes: 2, duration: 8 },
        0xD4 => Instruction { opcode: 0xD4, mnemonic: Mnemonic::Nop, addressing_mode: AddressingMode::ZeroPageX, bytes: 2, duration: 4 },
        0xD5 => Instruction { opcode: 0xD5, mnemonic: Mnemonic::Cmp, addressing_mode: AddressingMode::ZeroPageX, bytes: 2, duration: 4 },
        0xD6 => Instruction { opcode: 0xD6, mnemonic: Mnemonic::Dec, addressing_mode: AddressingMode::ZeroPageX, bytes: 2, duration: 6 },
        0xD7 => Instruction { opcode: 0xD7, mnemonic: Mnemonic::Dcp, addressing_mode: AddressingMode::ZeroPageX, bytes: 2, duration: 6 },
        0xD8 => Instruction { opcode: 0xD8, mnemonic: Mnemonic::Cld, addressing_mode: AddressingMode::Implied, bytes: 1, duration: 2 },
        0xD9 => Instruction { opcode: 0xD9, mnemonic: Mnemonic::Cmp, addressing_mode: AddressingMode::AbsoluteY, bytes: 3, duration: 4 },
        0xDA => Instruction { opcode: 0xDA, mnemonic: Mnemonic::Nop, addressing_mode: AddressingMode::Implied, bytes: 1, duration: 2 },
        0xDB => Instruction { opcode: 0xDB, mnemonic: Mnemonic::Dcp, addressing_mode: AddressingMode::AbsoluteYNoPlus, bytes: 3, duration: 7 },
        0xDC => Instruction { opcode: 0xDC, mnemonic: Mnemonic::Nop, addressing_mode: AddressingMode::AbsoluteX, bytes: 3, duration: 4 },
        0xDD => Instruction { opcode: 0xDD, mnemonic: Mnemonic::Cmp, addressing_mode: AddressingMode::AbsoluteX, bytes: 3, duration: 4 },
        0xDE => Instruction { opcode: 0xDE, mnemonic: Mnemonic::Dec, addressing_mode: AddressingMode::AbsoluteXNoPlus, bytes: 3, duration: 7 },
        0xDF => Instruction { opcode: 0xDF, mnemonic: Mnemonic::Dcp, addressing_mode: AddressingMode::AbsoluteXNoPlus, bytes: 3, duration: 7 },
        0xE0 => Instruction { opcode: 0xE0, mnemonic: Mnemonic::Cpx, addressing_mode: AddressingMode::Immediate, bytes: 2, duration: 2 },
        0xE1 => Instruction { opcode: 0xE1, mnemonic: Mnemonic::Sbc, addressing_mode: AddressingMode::IndirectX, bytes: 2, duration: 6 },
        0xE2 => Instruction { opcode: 0xE2, mnemonic: Mnemonic::Nop, addressing_mode: AddressingMode::Immediate, bytes: 2, duration: 2 },
        0xE3 => Instruction { opcode: 0xE3, mnemonic: Mnemonic::Isb, addressing_mode: AddressingMode::IndirectX, bytes: 2, duration: 8 },
        0xE4 => Instruction { opcode: 0xE4, mnemonic: Mnemonic::Cpx, addressing_mode: AddressingMode::ZeroPage, bytes: 2, duration: 3 },
        0xE5 => Instruction { opcode: 0xE5, mnemonic: Mnemonic::Sbc, addressing_mode: AddressingMode::ZeroPage, bytes: 2, duration: 3 },
        0xE6 => Instruction { opcode: 0xE6, mnemonic: Mnemonic::Inc, addressing_mode: AddressingMode::ZeroPage, bytes: 2, duration: 5 },
        0xE7 => Instruction { opcode: 0xE7, mnemonic: Mnemonic::Isb, addressing_mode: AddressingMode::ZeroPage, bytes: 2, duration: 5 },
        0xE8 => Instruction { opcode: 0xE8, mnemonic: Mnemonic::Inx, addressing_mode: AddressingMode::Implied, bytes: 1, duration: 2 },
        0xE9 => Instruction { opcode: 0xE9, mnemonic: Mnemonic::Sbc, addressing_mode: AddressingMode::Immediate, bytes: 2, duration: 2 },
        0xEA => Instruction { opcode: 0xEA, mnemonic: Mnemonic::Nop, addressing_mode: AddressingMode::Implied, bytes: 1, duration: 2 },
        0xEB => Instruction { opcode: 0xEB, mnemonic: Mnemonic::Sbc, addressing_mode: AddressingMode::Immediate, bytes: 2, duration: 2 },
        0xEC => Instruction { opcode: 0xEC, mnemonic: Mnemonic::Cpx, addressing_mode: AddressingMode::Absolute, bytes: 3, duration: 4 },
        0xED => Instruction { opcode: 0xED, mnemonic: Mnemonic::Sbc, addressing_mode: AddressingMode::Absolute, bytes: 3, duration: 4 },
        0xEE => Instruction { opcode: 0xEE, mnemonic: Mnemonic::Inc, addressing_mode: AddressingMode::Absolute, bytes: 3, duration: 6 },
        0xEF => Instruction { opcode: 0xEF, mnemonic: Mnemonic::Isb, addressing_mode: AddressingMode::Absolute, bytes: 3, duration: 6 },
        0xF0 => Instruction { opcode: 0xF0, mnemonic: Mnemonic::Beq, addressing_mode: AddressingMode::Implied, bytes: 2, duration: 2 },
        0xF1 => Instruction { opcode: 0xF1, mnemonic: Mnemonic::Sbc, addressing_mode: AddressingMode::IndirectY, bytes: 2, duration: 5 },
        0xF2 => Instruction { opcode: 0xF2, mnemonic: Mnemonic::Hlt, addressing_mode: AddressingMode::Implied, bytes: 1, duration: 2 },
        0xF3 => Instruction { opcode: 0xF3, mnemonic: Mnemonic::Isb, addressing_mode: AddressingMode::IndirectYNoPlus, bytes: 2, duration: 8 },
        0xF4 => Instruction { opcode: 0xF4, mnemonic: Mnemonic::Nop, addressing_mode: AddressingMode::ZeroPageX, bytes: 2, duration: 4 },
        0xF5 => Instruction { opcode: 0xF5, mnemonic: Mnemonic::Sbc, addressing_mode: AddressingMode::ZeroPageX, bytes: 2, duration: 4 },
        0xF6 => Instruction { opcode: 0xF6, mnemonic: Mnemonic::Inc, addressing_mode: AddressingMode::ZeroPageX, bytes: 2, duration: 6 },
        0xF7 => Instruction { opcode: 0xF7, mnemonic: Mnemonic::Isb, addressing_mode: AddressingMode::ZeroPageX, bytes: 2, duration: 6 },
        0xF8 => Instruction { opcode: 0xF8, mnemonic: Mnemonic::Sed, addressing_mode: AddressingMode::Implied, bytes: 1, duration: 2 },
        0xF9 => Instruction { opcode: 0xF9, mnemonic: Mnemonic::Sbc, addressing_mode: AddressingMode::AbsoluteY, bytes: 3, duration: 4 },
        0xFA => Instruction { opcode: 0xFA, mnemonic: Mnemonic::Nop, addressing_mode: AddressingMode::Implied, bytes: 1, duration: 2 },
        0xFB => Instruction { opcode: 0xFB, mnemonic: Mnemonic::Isb, addressing_mode: AddressingMode::AbsoluteYNoPlus, bytes: 3, duration: 7 },
        0xFC => Instruction { opcode: 0xFC, mnemonic: Mnemonic::Nop, addressing_mode: AddressingMode::AbsoluteX, bytes: 3, duration: 4 },
        0xFD => Instruction { opcode: 0xFD, mnemonic: Mnemonic::Sbc, addressing_mode: AddressingMode::AbsoluteX, bytes: 3, duration: 4 },
        0xFE => Instruction { opcode: 0xFE, mnemonic: Mnemonic::Inc, addressing_mode: AddressingMode::AbsoluteXNoPlus, bytes: 3, duration: 7 },
        _ => Instruction { opcode: 0xFF, mnemonic: Mnemonic::Isb, addressing_mode: AddressingMode::AbsoluteXNoPlus, bytes: 3, duration: 7 },
    }
}

} // verus!
