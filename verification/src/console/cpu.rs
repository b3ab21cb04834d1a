pub mod instr;

use vstd::prelude::*;
use crate::console::bus::{Bus, BusFault, BusView, lemma_ram_write_read};
use crate::console::cpu::instr::{AddressingMode, Instruction, Mnemonic, decode, instruction_for, uses_operand};

verus! {

/// The processor status flags.
#[derive(Clone, Copy, PartialEq, Eq, Structural, Debug)]
pub struct StatusReg {
    pub carry: bool,
    pub zero: bool,
    pub irq_disable: bool,
    pub decimal: bool,
    pub break_cmd: bool,
    pub overflow: bool,
    pub negative: bool,
}

/// The flags held in a status byte: bit 0 carry, 1 zero, 2 interrupt disable, 3 decimal,
/// 4 break, 6 overflow, 7 negative (bit 5 is not a flag).
pub open spec fn status_of(v: u8) -> StatusReg {
    StatusReg {
        carry: v & 0x01 != 0,
        zero: v & 0x02 != 0,
        irq_disable: v & 0x04 != 0,
        decimal: v & 0x08 != 0,
        break_cmd: v & 0x10 != 0,
        overflow: v & 0x40 != 0,
        negative: v & 0x80 != 0,
    }
}

/// `weight` when `b` holds, else 0.
pub open spec fn flag_bits(b: bool, weight: u8) -> u8 {
    if b {
        weight
    } else {
        0
    }
}

/// The status byte of a set of flags; bit 5 always reads as set.
pub open spec fn status_byte(s: StatusReg) -> u8 {
    (flag_bits(s.carry, 0x01) + flag_bits(s.zero, 0x02) + flag_bits(s.irq_disable, 0x04)
        + flag_bits(s.decimal, 0x08) + flag_bits(s.break_cmd, 0x10) + 0x20 + flag_bits(s.overflow, 0x40)
        + flag_bits(s.negative, 0x80)) as u8
}

impl From<u8> for StatusReg {
    fn from(v: u8) -> (r: Self) {
        StatusReg {
            carry: v & 0x01 != 0,
            zero: v & 0x02 != 0,
            irq_disable: v & 0x04 != 0,
            decimal: v & 0x08 != 0,
            break_cmd: v & 0x10 != 0,
            overflow: v & 0x40 != 0,
            negative: v & 0x80 != 0,
        }
    }
}

impl vstd::std_specs::convert::FromSpecImpl<u8> for StatusReg {
    open spec fn obeys_from_spec() -> bool {
        true
    }

    open spec fn from_spec(v: u8) -> StatusReg {
        status_of(v)
    }
}

impl From<StatusReg> for u8 {
    fn from(s: StatusReg) -> (r: u8) {
        let mut v: u8 = 0x20;
        if s.carry {
            v = v + 0x01;
        }
        if s.zero {
            v = v + 0x02;
        }
        if s.irq_disable {
            v = v + 0x04;
        }
        if s.decimal {
            v = v + 0x08;
        }
        if s.break_cmd {
            v = v + 0x10;
        }
        if s.overflow {
            v = v + 0x40;
        }
        if s.negative {
            v = v + 0x80;
        }
        v
    }
}

impl vstd::std_specs::convert::FromSpecImpl<StatusReg> for u8 {
    open spec fn obeys_from_spec() -> bool {
        true
    }

    open spec fn from_spec(s: StatusReg) -> u8 {
        status_byte(s)
    }
}

/// Reading back the byte of a set of flags gives the same flags.
pub proof fn lemma_status_byte_roundtrip(s: StatusReg)
    ensures
        status_of(status_byte(s)) == s,
{
    let (c, z, i, d, b, o, n) = (s.carry, s.zero, s.irq_disable, s.decimal, s.break_cmd, s.overflow, s.negative);
    assert({
        let v = ((if c { 1u8 } else { 0u8 }) + (if z { 2u8 } else { 0u8 }) + (if i { 4u8 } else { 0u8 })
            + (if d { 8u8 } else { 0u8 }) + (if b { 16u8 } else { 0u8 }) + 32u8 + (if o { 64u8 } else { 0u8 })
            + (if n { 128u8 } else { 0u8 })) as u8;
        &&& (v & 0x01 != 0) == c
        &&& (v & 0x02 != 0) == z
        &&& (v & 0x04 != 0) == i
        &&& (v & 0x08 != 0) == d
        &&& (v & 0x10 != 0) == b
        &&& (v & 0x40 != 0) == o
        &&& (v & 0x80 != 0) == n
    }) by (bit_vector);
}

/// A byte turned into flags and back keeps every bit, and gains bit 5.
pub proof fn lemma_status_of_roundtrip(v: u8)
    ensures
        status_byte(status_of(v)) == v | 0x20,
{
    assert(((if v & 0x01 != 0 { 1u8 } else { 0u8 }) + (if v & 0x02 != 0 { 2u8 } else { 0u8 }) + (if v & 0x04
        != 0 { 4u8 } else { 0u8 }) + (if v & 0x08 != 0 { 8u8 } else { 0u8 }) + (if v & 0x10 != 0 {
        16u8
    } else {
        0u8
    }) + 32u8 + (if v & 0x40 != 0 { 64u8 } else { 0u8 }) + (if v & 0x80 != 0 { 128u8 } else { 0u8 }))
        as u8 == v | 0x20) by (bit_vector);
}

/// The flags with zero and negative set from `v`.
pub open spec fn with_zn(s: StatusReg, v: u8) -> StatusReg {
    StatusReg { zero: v == 0, negative: v >= 128, ..s }
}

/// Value of a byte read as a two's complement number.
pub open spec fn signed(v: u8) -> int {
    if v < 128 {
        v as int
    } else {
        v as int - 256
    }
}

/// Accumulator, operand and carry in: the unsigned sum.
pub open spec fn carry_sum(a: u8, m: u8, c: bool) -> u16 {
    (a as u16 + m as u16 + (if c { 1u16 } else { 0u16 })) as u16
}

/// Result byte of an add with carry: the sum modulo 256.
pub open spec fn adc_value(a: u8, m: u8, c: bool) -> u8 {
    (carry_sum(a, m, c) % 256) as u8
}

/// Carry out of an add with carry: the unsigned sum does not fit in a byte.
pub open spec fn adc_carry(a: u8, m: u8, c: bool) -> bool {
    carry_sum(a, m, c) > 255
}

/// Overflow of an add with carry: both inputs have the same sign and the result has the
/// other one.
pub open spec fn adc_overflow(a: u8, m: u8, c: bool) -> bool {
    let r = adc_value(a, m, c);
    (a >= 128) == (m >= 128) && (r >= 128) != (a >= 128)
}

/// The flags after an add with carry of `m` to `a`.
pub open spec fn adc_status(s: StatusReg, a: u8, m: u8) -> StatusReg {
    let r = adc_value(a, m, s.carry);
    StatusReg {
        carry: adc_carry(a, m, s.carry),
        overflow: adc_overflow(a, m, s.carry),
        zero: r == 0,
        negative: r >= 128,
        ..s
    }
}

/// The add with carry is the arithmetic sum: the result byte is the sum modulo 256, the
/// carry says it did not fit, and overflow says the signed sum left -128..=127.
pub proof fn lemma_adc_arithmetic(a: u8, m: u8, c: bool)
    ensures
        adc_value(a, m, c) as int == (a + m + (if c { 1int } else { 0int })) % 256,
        adc_carry(a, m, c) <==> a + m + (if c { 1int } else { 0int }) > 255,
        adc_overflow(a, m, c) <==> {
            let ss = signed(a) + signed(m) + (if c { 1int } else { 0int });
            ss < -128 || ss > 127
        },
{
}

/// Subtracting with borrow is adding the complement: the result is `a - m - (1 - c)`
/// modulo 256, and the carry says that no borrow was needed.
pub proof fn lemma_sbc_is_subtraction(a: u8, m: u8, c: bool)
    ensures
        adc_value(a, !m, c) as int == (a - m - (if c { 0int } else { 1int })) % 256,
        adc_carry(a, !m, c) <==> a - m - (if c { 0int } else { 1int }) >= 0,
{
    assert(!m == 255 - m) by (bit_vector);
}

/// Flags of a comparison of `r` with `m`.
pub open spec fn compare_status(s: StatusReg, r: u8, m: u8) -> StatusReg {
    StatusReg { carry: r >= m, zero: r == m, negative: r.wrapping_sub(m) >= 128, ..s }
}

/// Rotate left through carry: the new byte, and the bit shifted out.
pub open spec fn rol_value(v: u8, c: bool) -> u8 {
    (v << 1u8) | (if c { 1u8 } else { 0u8 })
}

/// Rotate right through carry: the new byte.
pub open spec fn ror_value(v: u8, c: bool) -> u8 {
    (v >> 1u8) | (if c { 0x80u8 } else { 0u8 })
}

/// A rotate right undoes a rotate left, carry included, and the other way round.
pub proof fn lemma_rotates_inverse(v: u8, c: bool)
    ensures
        ror_value(rol_value(v, c), v & 0x80 != 0) == v,
        (rol_value(v, c) & 0x01 != 0) == c,
        rol_value(ror_value(v, c), v & 0x01 != 0) == v,
        (ror_value(v, c) & 0x80 != 0) == c,
{
    assert(((((v << 1u8) | (if c { 1u8 } else { 0u8 })) >> 1u8) | (if v & 0x80 != 0 { 0x80u8 } else {
        0u8
    })) == v) by (bit_vector);
    assert((((v << 1u8) | (if c { 1u8 } else { 0u8 })) & 0x01 != 0) == c) by (bit_vector);
    assert((((v >> 1u8) | (if c { 0x80u8 } else { 0u8 })) << 1u8) | (if v & 0x01 != 0 { 1u8 } else {
        0u8
    }) == v) by (bit_vector);
    assert((((v >> 1u8) | (if c { 0x80u8 } else { 0u8 })) & 0x80 != 0) == c) by (bit_vector);
}

/// A little-endian 16-bit word.
pub open spec fn word(lo: u8, hi: u8) -> u16 {
    ((hi as u16) * 256 + lo as u16) as u16
}

/// Reading the bytes of a word back out, and joining them with shifts.
pub proof fn lemma_word(lo: u8, hi: u8)
    ensures
        ((hi as u16) << 8u16) | (lo as u16) == word(lo, hi),
        word(lo, hi) / 256 == hi,
        word(lo, hi) % 256 == lo,
{
    assert(((hi as u16) << 8u16) | (lo as u16) == ((hi as u16) * 256 + lo as u16) as u16 && ((hi as u16) * 256 + lo as u16) as u16 / 256 == hi && ((hi as u16) * 256 + lo as u16) as u16 % 256 == lo) by (bit_vector);
}

/// Address in the stack page of stack slot `sp`.
pub open spec fn stack_addr(sp: u8) -> u16 {
    (0x100 + sp) as u16
}

/// Target of a relative branch taken from `pc` with offset byte `off`, a signed
/// displacement.
pub open spec fn branch_target(pc: u16, off: u8) -> u16 {
    if off < 128 {
        pc.wrapping_add(off as u16)
    } else {
        pc.wrapping_sub((256 - off) as u16)
    }
}

/// The branch target is the program counter plus the signed offset, modulo 2^16.
pub proof fn lemma_branch_target(pc: u16, off: u8)
    ensures
        branch_target(pc, off) as int == (pc + signed(off)) % 0x10000,
{
}

/// The four shift and rotate operations.
#[derive(Clone, Copy, PartialEq, Eq, Structural, Debug)]
pub enum ShiftKind {
    Asl,
    Lsr,
    Rol,
    Ror,
}

/// The byte a shift or rotate makes of `v`, with carry `c` coming in.
pub open spec fn shift_value(kind: ShiftKind, v: u8, c: bool) -> u8 {
    match kind {
        ShiftKind::Asl => v << 1u8,
        ShiftKind::Lsr => v >> 1u8,
        ShiftKind::Rol => rol_value(v, c),
        ShiftKind::Ror => ror_value(v, c),
    }
}

/// The bit a shift or rotate moves out into the carry.
pub open spec fn shift_carry(kind: ShiftKind, v: u8) -> bool {
    match kind {
        ShiftKind::Asl | ShiftKind::Rol => v & SIGN_MASK != 0,
        ShiftKind::Lsr | ShiftKind::Ror => v & 0x01 != 0,
    }
}

/// Why an instruction could not be carried out.
#[derive(Clone, Copy, PartialEq, Eq, Structural, Debug)]
pub enum CpuError {
    /// The bus refused an access.
    Bus(BusFault),
    /// The opcode has no implementation.
    UnsupportedOpcode(u8),
    /// A run stopped after its step limit.
    StepLimit,
}

/// What the processor does after an instruction.
#[derive(Clone, Copy, PartialEq, Eq, Structural, Debug)]
pub enum Flow {
    Continue,
    /// The program stopped: `HLT`, or `BRK` when breaks end the run.
    Halt,
}

pub const SIGN_MASK: u8 = 0x80;
pub const RESET_ADDR: u16 = 0xFFFC;
pub const NMI_ADDR: u16 = 0xFFFA;
pub const IRQ_ADDR: u16 = 0xFFFE;
pub const STACK_PAGE: u16 = 0x0100;

/// The 6502 processor, attached to the console bus.
pub struct Cpu {
    pub register_a: u8,
    pub register_x: u8,
    pub register_y: u8,
    pub program_counter: u16,
    pub stack_pointer: u8,
    pub status: StatusReg,
    pub bus: Bus,
    /// Operation of the instruction being run, once one was fetched.
    pub mnemonic: Option<Mnemonic>,
    /// Base duration of the instruction being run.
    pub cycles: u8,
    nmi_seen: bool,
    quit_on_brk: bool,
    fault: Option<BusFault>,
}

/// Abstract state of the processor and everything on its bus.
pub struct CpuView {
    pub a: u8,
    pub x: u8,
    pub y: u8,
    pub pc: u16,
    pub sp: u8,
    pub status: StatusReg,
    pub bus: BusView,
    pub mnemonic: Option<Mnemonic>,
    pub cycles: u8,
    pub nmi_seen: bool,
    pub quit_on_brk: bool,
    /// The last bus access of the current instruction that was refused.
    pub fault: Option<BusFault>,
}

impl View for Cpu {
    type V = CpuView;

    closed spec fn view(&self) -> CpuView {
        CpuView {
            a: self.register_a,
            x: self.register_x,
            y: self.register_y,
            pc: self.program_counter,
            sp: self.stack_pointer,
            status: self.status,
            bus: self.bus@,
            mnemonic: self.mnemonic,
            cycles: self.cycles,
            nmi_seen: self.nmi_seen,
            quit_on_brk: self.quit_on_brk,
            fault: self.fault,
        }
    }
}

impl CpuView {
    pub open spec fn wf(self) -> bool {
        self.bus.wf()
    }

    /// A read of `addr`: the new state and the byte read (0 when the bus refuses it).
    #[verifier::opaque]
    pub open spec fn load(self, addr: u16) -> (CpuView, u8) {
        if self.bus.readable(addr) {
            (CpuView { bus: self.bus.after_read(addr), ..self }, self.bus.read_value(addr))
        } else {
            (CpuView { fault: Some(BusFault::Read(addr)), ..self }, 0)
        }
    }

    /// A write of `v` to `addr`.
    #[verifier::opaque]
    pub open spec fn store(self, addr: u16, v: u8) -> CpuView {
        let (b, f) = self.bus.write_result(addr, v);
        CpuView { bus: b, fault: if f is Some { f } else { self.fault }, ..self }
    }

    /// A little-endian read of `addr` and the address after it.
    pub open spec fn load16(self, addr: u16) -> (CpuView, u16) {
        let (s1, lo) = self.load(addr);
        let (s2, hi) = s1.load(addr.wrapping_add(1));
        (s2, word(lo, hi))
    }

    /// `n` cycles of the rest of the console.
    pub open spec fn ticked(self, n: u8) -> CpuView {
        CpuView { bus: self.bus.ticked(n), ..self }
    }

    /// Push a byte: write it at the stack slot, then move the slot down.
    pub open spec fn push(self, v: u8) -> CpuView {
        CpuView { sp: self.sp.wrapping_sub(1), ..self.store(stack_addr(self.sp), v) }
    }

    /// Push a word, high byte first.
    pub open spec fn push16(self, v: u16) -> CpuView {
        self.push((v / 256) as u8).push((v % 256) as u8)
    }

    /// Pull a byte: move the slot up, then read it.
    pub open spec fn pull(self) -> (CpuView, u8) {
        let s = CpuView { sp: self.sp.wrapping_add(1), ..self };
        s.load(stack_addr(s.sp))
    }

    /// Pull a word, low byte first.
    pub open spec fn pull16(self) -> (CpuView, u16) {
        let (s1, lo) = self.pull();
        let (s2, hi) = s1.pull();
        (s2, word(lo, hi))
    }

    /// The state with the zero and negative flags set from `v`.
    pub open spec fn zn(self, v: u8) -> CpuView {
        CpuView { status: with_zn(self.status, v), ..self }
    }
}

/// The state that reads or writes leave unchanged.
pub open spec fn same_registers(s: CpuView, t: CpuView) -> bool {
    &&& s.a == t.a
    &&& s.x == t.x
    &&& s.y == t.y
    &&& s.pc == t.pc
    &&& s.sp == t.sp
    &&& s.status == t.status
    &&& s.mnemonic == t.mnemonic
    &&& s.cycles == t.cycles
    &&& s.nmi_seen == t.nmi_seen
    &&& s.quit_on_brk == t.quit_on_brk
}

/// Reads and writes change only the bus and the fault record, and keep the bus well formed.
pub proof fn lemma_access_keeps_registers(s: CpuView, addr: u16, v: u8)
    requires
        s.wf(),
    ensures
        same_registers(s, s.load(addr).0),
        same_registers(s, s.store(addr, v)),
{
    reveal(CpuView::load);
    reveal(CpuView::store);
}

/// The stack in work RAM gives back what was pushed: pulling after a push returns the
/// byte, leaves the stack pointer where it was and raises no fault, and the same holds
/// of a word pushed and pulled.
pub proof fn lemma_push_pull(s: CpuView, v: u8, w: u16)
    requires
        s.wf(),
    ensures
        s.push(v).pull().1 == v,
        s.push(v).pull().0 == (CpuView { bus: s.bus.after_plain_write(stack_addr(s.sp), v), ..s }),
        s.push16(w).pull16().1 == w,
        s.push16(w).pull16().0.sp == s.sp,
        s.push16(w).pull16().0.fault == s.fault,
{
    reveal(CpuView::load);
    reveal(CpuView::store);
    let a0 = stack_addr(s.sp);
    let sp1 = s.sp.wrapping_sub(1);
    let a1 = stack_addr(sp1);
    let hi = (w / 256) as u8;
    let lo = (w % 256) as u8;
    lemma_ram_write_read(s.bus, a0, a0, v);
    let b1 = s.bus.after_plain_write(a0, hi);
    lemma_ram_write_read(s.bus, a0, a0, hi);
    lemma_ram_write_read(b1, a1, a1, lo);
    lemma_ram_write_read(b1, a1, a0, lo);
    let b2 = b1.after_plain_write(a1, lo);
    assert(sp1.wrapping_add(1) == s.sp);
    assert(a0 % 0x800 != a1 % 0x800);
    assert(b2.read_value(a1) == lo);
    assert(b2.read_value(a0) == hi);
    assert(word(lo, hi) == w);
}

impl Cpu {
    /// A processor on `bus`, with interrupts disabled and everything else cleared.
    pub fn new(bus: Bus) -> (r: Self)
        ensures
            r@.wf() <==> bus@.wf(),
            r@.bus == bus@,
            r@.a == 0 && r@.x == 0 && r@.y == 0 && r@.pc == 0 && r@.sp == 0,
            r@.status == status_of(0x24),
            r@.mnemonic is None,
            r@.cycles == 0,
            !r@.nmi_seen && !r@.quit_on_brk,
            r@.fault is None,
    {
        Cpu {
            register_a: 0,
            register_x: 0,
            register_y: 0,
            program_counter: 0,
            stack_pointer: 0,
            status: StatusReg::from(0x24u8),
            bus,
            mnemonic: None,
            cycles: 0,
            nmi_seen: false,
            quit_on_brk: false,
            fault: None,
        }
    }

    /// Whether the cartridge on the bus can serve every access the console makes.
    pub fn cartridge_playable(&self) -> (r: bool)
        requires
            self@.bus.cartridge.wf(),
        ensures
            r == self@.bus.cartridge.playable(),
    {
        self.bus.cartridge_playable()
    }

    fn update_zero_neg(&mut self, val: u8)
        ensures
            final(self)@ == old(self)@.zn(val),
    {
        self.status.zero = val == 0;
        self.status.negative = val >= 128;
    }

    fn read(&mut self, addr: u16) -> (r: u8)
        requires
            old(self)@.wf(),
        ensures
            final(self)@ == old(self)@.load(addr).0,
            r == old(self)@.load(addr).1,
            final(self)@.wf(),
            same_registers(old(self)@, final(self)@),
    {
        proof {
            reveal(CpuView::load);
        }
        if self.bus.can_read(addr) {
            self.bus.read(addr)
        } else {
            self.fault = Some(BusFault::Read(addr));
            0
        }
    }

    fn write(&mut self, addr: u16, data: u8)
        requires
            old(self)@.wf(),
        ensures
            final(self)@ == old(self)@.store(addr, data),
            final(self)@.wf(),
            same_registers(old(self)@, final(self)@),
    {
        proof {
            reveal(CpuView::store);
        }
        match self.bus.write(addr, data) {
            Ok(()) => {},
            Err(e) => {
                self.fault = Some(e);
            },
        }
    }

    fn read_u16(&mut self, addr: u16) -> (r: u16)
        requires
            old(self)@.wf(),
        ensures
            final(self)@ == old(self)@.load16(addr).0,
            r == old(self)@.load16(addr).1,
            final(self)@.wf(),
            same_registers(old(self)@, final(self)@),
    {
        let lo = self.read(addr);
        let hi = self.read(addr.wrapping_add(1));
        proof {
            lemma_word(lo, hi);
        }
        ((hi as u16) << 8) | (lo as u16)
    }

    fn tick(&mut self, cycles: u8)
        requires
            old(self)@.wf(),
        ensures
            final(self)@ == old(self)@.ticked(cycles),
            final(self)@.wf(),
    {
        self.bus.tick(cycles);
    }

    /// Pushes a byte onto the stack, moving the stack pointer down.
    fn push_stack(&mut self, data: u8)
        requires
            old(self)@.wf(),
        ensures
            final(self)@ == old(self)@.push(data),
            final(self)@.wf(),
    {
        self.write(STACK_PAGE + self.stack_pointer as u16, data);
        self.stack_pointer = self.stack_pointer.wrapping_sub(1);
    }

    /// Pushes a word onto the stack, high byte first.
    fn push_stack_u16(&mut self, data: u16)
        requires
            old(self)@.wf(),
        ensures
            final(self)@ == old(self)@.push16(data),
            final(self)@.wf(),
    {
        self.push_stack((data / 256) as u8);
        self.push_stack((data % 256) as u8);
    }

    /// Pulls a byte from the stack, moving the stack pointer up.
    fn pull_stack(&mut self) -> (r: u8)
        requires
            old(self)@.wf(),
        ensures
            final(self)@ == old(self)@.pull().0,
            r == old(self)@.pull().1,
            final(self)@.wf(),
    {
        self.stack_pointer = self.stack_pointer.wrapping_add(1);
        self.read(STACK_PAGE + self.stack_pointer as u16)
    }

    /// Pulls a word from the stack, low byte first.
    fn pull_stack_u16(&mut self) -> (r: u16)
        requires
            old(self)@.wf(),
        ensures
            final(self)@ == old(self)@.pull16().0,
            r == old(self)@.pull16().1,
            final(self)@.wf(),
    {
        let lo = self.pull_stack();
        let hi = self.pull_stack();
        proof {
            lemma_word(lo, hi);
        }
        ((hi as u16) << 8) | (lo as u16)
    }
}


/// Add with carry: the result byte, the carry out and the overflow flag.
pub fn add_with_carry(a: u8, m: u8, c: bool) -> (r: (u8, bool, bool))
    ensures
        r == (adc_value(a, m, c), adc_carry(a, m, c), adc_overflow(a, m, c)),
{
    let carry: u16 = if c { 1 } else { 0 };
    let sum: u16 = a as u16 + m as u16 + carry;
    let r = (sum % 256) as u8;
    proof {
        assert(((a ^ r) & (m ^ r) & 0x80 != 0) == ((a >= 128) == (m >= 128) && (r >= 128) != (a >= 128)))
            by (bit_vector);
    }
    (r, sum > 255, (a ^ r) & (m ^ r) & SIGN_MASK != 0)
}

/// A shift or rotate of one byte: the new byte and the bit moved out.
pub fn shift_byte(kind: ShiftKind, v: u8, c: bool) -> (r: (u8, bool))
    ensures
        r == (shift_value(kind, v, c), shift_carry(kind, v)),
{
    match kind {
        ShiftKind::Asl => (v << 1u8, v & SIGN_MASK != 0),
        ShiftKind::Lsr => (v >> 1u8, v & 0x01 != 0),
        ShiftKind::Rol => ((v << 1u8) | (if c { 1u8 } else { 0u8 }), v & SIGN_MASK != 0),
        ShiftKind::Ror => ((v >> 1u8) | (if c { 0x80u8 } else { 0u8 }), v & 0x01 != 0),
    }
}

impl CpuView {
    /// The address an instruction's operand is at, found the way `mode` says; indexed
    /// modes that cross a page cost a cycle unless the mode says otherwise.
    #[verifier::opaque]
    pub open spec fn operand(self, mode: AddressingMode) -> (CpuView, u16) {
        match mode {
            AddressingMode::Immediate => (self, self.pc),
            AddressingMode::ZeroPage => {
                let (s, p) = self.load(self.pc);
                (s, p as u16)
            },
            AddressingMode::ZeroPageX => {
                let (s, p) = self.load(self.pc);
                (s, p.wrapping_add(self.x) as u16)
            },
            AddressingMode::ZeroPageY => {
                let (s, p) = self.load(self.pc);
                (s, p.wrapping_add(self.y) as u16)
            },
            AddressingMode::Absolute => self.load16(self.pc),
            AddressingMode::AbsoluteX => {
                let (s, base) = self.load16(self.pc);
                let addr = base.wrapping_add(self.x as u16);
                (if base / 256 != addr / 256 { s.ticked(1) } else { s }, addr)
            },
            AddressingMode::AbsoluteXNoPlus => {
                let (s, base) = self.load16(self.pc);
                (s, base.wrapping_add(self.x as u16))
            },
            AddressingMode::AbsoluteY => {
                let (s, base) = self.load16(self.pc);
                let addr = base.wrapping_add(self.y as u16);
                (if base / 256 != addr / 256 { s.ticked(1) } else { s }, addr)
            },
            AddressingMode::AbsoluteYNoPlus => {
                let (s, base) = self.load16(self.pc);
                (s, base.wrapping_add(self.y as u16))
            },
            AddressingMode::IndirectX => {
                let (s1, p) = self.load(self.pc);
                let q = p.wrapping_add(self.x);
                let (s2, lo) = s1.load(q as u16);
                let (s3, hi) = s2.load(q.wrapping_add(1) as u16);
                (s3, word(lo, hi))
            },
            AddressingMode::IndirectY => {
                let (s1, p) = self.load(self.pc);
                let (s2, lo) = s1.load(p as u16);
                let (s3, hi) = s2.load(p.wrapping_add(1) as u16);
                let base = word(lo, hi);
                let addr = base.wrapping_add(self.y as u16);
                (if base / 256 != addr / 256 { s3.ticked(1) } else { s3 }, addr)
            },
            AddressingMode::IndirectYNoPlus => {
                let (s1, p) = self.load(self.pc);
                let (s2, lo) = s1.load(p as u16);
                let (s3, hi) = s2.load(p.wrapping_add(1) as u16);
                (s3, word(lo, hi).wrapping_add(self.y as u16))
            },
            AddressingMode::Implied => (self, 0),
        }
    }

    /// The operand byte: found by `mode`, then read.
    pub open spec fn fetch_operand(self, mode: AddressingMode) -> (CpuView, u8) {
        let (s, addr) = self.operand(mode);
        s.load(addr)
    }

    pub open spec fn with_carry(self, c: bool) -> CpuView {
        CpuView { status: StatusReg { carry: c, ..self.status }, ..self }
    }

    /// `ADC` (or `SBC`, which adds the complement of the operand).
    #[verifier::opaque]
    pub open spec fn adc(self, mode: AddressingMode, sbc: bool) -> CpuView {
        let (s, v) = self.fetch_operand(mode);
        let m = if sbc { !v } else { v };
        CpuView { a: adc_value(s.a, m, s.status.carry), status: adc_status(s.status, s.a, m), ..s }
    }

    #[verifier::opaque]
    pub open spec fn and(self, mode: AddressingMode) -> CpuView {
        let (s, v) = self.fetch_operand(mode);
        CpuView { a: s.a & v, ..s }.zn(s.a & v)
    }

    #[verifier::opaque]
    pub open spec fn ora(self, mode: AddressingMode) -> CpuView {
        let (s, v) = self.fetch_operand(mode);
        CpuView { a: s.a | v, ..s }.zn(s.a | v)
    }

    #[verifier::opaque]
    pub open spec fn eor(self, mode: AddressingMode) -> CpuView {
        let (s, v) = self.fetch_operand(mode);
        CpuView { a: s.a ^ v, ..s }.zn(s.a ^ v)
    }

    /// `ANC`: `AND`, then the carry copies the negative flag.
    #[verifier::opaque]
    pub open spec fn anc(self, mode: AddressingMode) -> CpuView {
        let s = self.and(mode);
        s.with_carry(s.status.negative)
    }

    /// A shift or rotate of the operand (or of the accumulator under `Implied`): the byte
    /// is replaced and the bit moved out goes to the carry.
    #[verifier::opaque]
    pub open spec fn shifted(self, mode: AddressingMode, kind: ShiftKind) -> CpuView {
        if mode == AddressingMode::Implied {
            self.shifted_a(kind)
        } else {
            self.shifted_mem(mode, kind)
        }
    }

    pub open spec fn shifted_a(self, kind: ShiftKind) -> CpuView {
        let v = self.a;
        let nv = shift_value(kind, v, self.status.carry);
        CpuView { a: nv, ..self.with_carry(shift_carry(kind, v)) }.zn(nv)
    }

    pub open spec fn shifted_mem(self, mode: AddressingMode, kind: ShiftKind) -> CpuView {
        let (s1, addr) = self.operand(mode);
        let (s2, v) = s1.load(addr);
        let nv = shift_value(kind, v, s2.status.carry);
        s2.store(addr, nv).with_carry(shift_carry(kind, v)).zn(nv)
    }

    #[verifier::opaque]
    pub open spec fn asl(self, mode: AddressingMode) -> CpuView {
        self.shifted(mode, ShiftKind::Asl)
    }

    #[verifier::opaque]
    pub open spec fn lsr(self, mode: AddressingMode) -> CpuView {
        self.shifted(mode, ShiftKind::Lsr)
    }

    #[verifier::opaque]
    pub open spec fn rol(self, mode: AddressingMode) -> CpuView {
        self.shifted(mode, ShiftKind::Rol)
    }

    #[verifier::opaque]
    pub open spec fn ror(self, mode: AddressingMode) -> CpuView {
        self.shifted(mode, ShiftKind::Ror)
    }

    /// A taken branch: one cycle, and one more when the target is on another page.
    pub open spec fn branch_relative(self) -> CpuView {
        let (s1, off) = self.load(self.pc);
        let target = branch_target(s1.pc, off);
        let s2 = CpuView { pc: target, ..s1 };
        let s3 = if s1.pc / 256 != target / 256 { s2.ticked(1) } else { s2 };
        s3.ticked(1)
    }

    #[verifier::opaque]
    pub open spec fn branch(self, cond: bool) -> CpuView {
        if cond {
            self.branch_relative()
        } else {
            self
        }
    }

    /// `BIT`: zero from `A & m`; overflow and negative copy bits 6 and 7 of `m`.
    #[verifier::opaque]
    pub open spec fn bit(self, mode: AddressingMode) -> CpuView {
        let (s, v) = self.fetch_operand(mode);
        CpuView {
            status: StatusReg { zero: s.a & v == 0, overflow: v & 0x40 != 0, negative: v & 0x80 != 0, ..s.status },
            ..s
        }
    }

    /// `BRK`: push the address after the break byte and the flags with break set, then
    /// jump through the interrupt vector.
    #[verifier::opaque]
    pub open spec fn brk(self) -> CpuView {
        let s1 = self.push16(self.pc.wrapping_add(1));
        let s2 = s1.push(status_byte(s1.status) | 0x10);
        let (s3, t) = s2.load16(IRQ_ADDR);
        CpuView { pc: t, ..s3 }
    }

    #[verifier::opaque]
    pub open spec fn compare(self, r: u8, mode: AddressingMode) -> CpuView {
        let (s, v) = self.fetch_operand(mode);
        CpuView { status: compare_status(s.status, r, v), ..s }
    }

    #[verifier::opaque]
    pub open spec fn dec(self, mode: AddressingMode) -> CpuView {
        let (s1, addr) = self.operand(mode);
        let (s2, v) = s1.load(addr);
        s2.store(addr, v.wrapping_sub(1)).zn(v.wrapping_sub(1))
    }

    #[verifier::opaque]
    pub open spec fn inc(self, mode: AddressingMode) -> CpuView {
        let (s1, addr) = self.operand(mode);
        let (s2, v) = s1.load(addr);
        s2.store(addr, v.wrapping_add(1)).zn(v.wrapping_add(1))
    }

    /// `JMP`: absolute, or indirect with the page-wrap bug: a pointer at the end of a
    /// page takes its high byte from the start of that page.
    #[verifier::opaque]
    pub open spec fn jmp(self, mode: AddressingMode) -> CpuView {
        if mode == AddressingMode::Absolute {
            let (s, t) = self.load16(self.pc);
            CpuView { pc: t, ..s }
        } else {
            let (s1, ptr) = self.load16(self.pc);
            let (s2, correct) = s1.load16(ptr);
            if ptr & 0x00FF == 0x00FF {
                let (s3, msb) = s2.load(ptr & 0xFF00);
                CpuView { pc: word((correct & 0x00FF) as u8, msb), ..s3 }
            } else {
                CpuView { pc: correct, ..s2 }
            }
        }
    }

    /// `JSR`: push the address of the last byte of the instruction, then jump.
    #[verifier::opaque]
    pub open spec fn jsr(self) -> CpuView {
        let s1 = self.push16(self.pc.wrapping_add(1));
        let (s2, t) = s1.load16(s1.pc);
        CpuView { pc: t, ..s2 }
    }

    #[verifier::opaque]
    pub open spec fn lda(self, mode: AddressingMode) -> CpuView {
        let (s, v) = self.fetch_operand(mode);
        CpuView { a: v, ..s }.zn(v)
    }

    #[verifier::opaque]
    pub open spec fn ldx(self, mode: AddressingMode) -> CpuView {
        let (s, v) = self.fetch_operand(mode);
        CpuView { x: v, ..s }.zn(v)
    }

    #[verifier::opaque]
    pub open spec fn ldy(self, mode: AddressingMode) -> CpuView {
        let (s, v) = self.fetch_operand(mode);
        CpuView { y: v, ..s }.zn(v)
    }

    /// `LAX`: load both A and X.
    #[verifier::opaque]
    pub open spec fn lax(self, mode: AddressingMode) -> CpuView {
        let (s, v) = self.fetch_operand(mode);
        CpuView { a: v, x: v, ..s }.zn(v)
    }

    /// Store `v` at the operand address.
    #[verifier::opaque]
    pub open spec fn st(self, mode: AddressingMode, v: u8) -> CpuView {
        let (s, addr) = self.operand(mode);
        s.store(addr, v)
    }

    /// The flags pulled by `PLP` and `RTI`: break clear.
    pub open spec fn pulled_status(v: u8) -> StatusReg {
        status_of(v & 0xEF | 0x20)
    }

    #[verifier::opaque]
    pub open spec fn rti(self) -> CpuView {
        let (s1, v) = self.pull();
        let s2 = CpuView { status: CpuView::pulled_status(v), ..s1 };
        let (s3, t) = s2.pull16();
        CpuView { pc: t, ..s3 }
    }

    #[verifier::opaque]
    pub open spec fn rts(self) -> CpuView {
        let (s, t) = self.pull16();
        CpuView { pc: t.wrapping_add(1), ..s }
    }

    #[verifier::opaque]
    pub open spec fn dcp(self, mode: AddressingMode) -> CpuView {
        let s = self.dec(mode);
        s.compare(s.a, mode)
    }

    #[verifier::opaque]
    pub open spec fn isb(self, mode: AddressingMode) -> CpuView {
        self.inc(mode).adc(mode, true)
    }

    #[verifier::opaque]
    pub open spec fn slo(self, mode: AddressingMode) -> CpuView {
        self.asl(mode).ora(mode)
    }

    #[verifier::opaque]
    pub open spec fn rla(self, mode: AddressingMode) -> CpuView {
        self.rol(mode).and(mode)
    }

    #[verifier::opaque]
    pub open spec fn sre(self, mode: AddressingMode) -> CpuView {
        self.lsr(mode).eor(mode)
    }

    #[verifier::opaque]
    pub open spec fn rra(self, mode: AddressingMode) -> CpuView {
        self.ror(mode).adc(mode, false)
    }

    /// An interrupt: push the program counter and the flags, disable interrupts, spend
    /// seven cycles, and jump through `vector`.
    #[verifier::opaque]
    pub open spec fn interrupt(self, vector: u16) -> CpuView {
        let s1 = self.push16(self.pc);
        let s2 = s1.push(status_byte(s1.status));
        let s3 = CpuView { status: StatusReg { irq_disable: true, ..s2.status }, ..s2 }.ticked(7);
        let (s4, t) = s3.load16(vector);
        CpuView { pc: t, ..s4 }
    }
}

impl Cpu {
    fn get_operand_addr(&mut self, mode: AddressingMode) -> (r: u16)
        requires
            old(self)@.wf(),
            mode != AddressingMode::Implied,
        ensures
            final(self)@ == old(self)@.operand(mode).0,
            r == old(self)@.operand(mode).1,
            final(self)@.wf(),
    {
        proof {
            reveal(CpuView::operand);
        }
        let x = self.register_x;
        let y = self.register_y;
        match mode {
            AddressingMode::Immediate => self.program_counter,
            AddressingMode::ZeroPage => self.read(self.program_counter) as u16,
            AddressingMode::ZeroPageX => {
                let p = self.read(self.program_counter);
                p.wrapping_add(x) as u16
            },
            AddressingMode::ZeroPageY => {
                let p = self.read(self.program_counter);
                p.wrapping_add(y) as u16
            },
            AddressingMode::Absolute => self.read_u16(self.program_counter),
            AddressingMode::AbsoluteX => {
                let base = self.read_u16(self.program_counter);
                let addr = base.wrapping_add(x as u16);
                if base / 256 != addr / 256 {
                    self.tick(1);
                }
                addr
            },
            AddressingMode::AbsoluteXNoPlus => {
                let base = self.read_u16(self.program_counter);
                base.wrapping_add(x as u16)
            },
            AddressingMode::AbsoluteY => {
                let base = self.read_u16(self.program_counter);
                let addr = base.wrapping_add(y as u16);
                if base / 256 != addr / 256 {
                    self.tick(1);
                }
                addr
            },
            AddressingMode::AbsoluteYNoPlus => {
                let base = self.read_u16(self.program_counter);
                base.wrapping_add(y as u16)
            },
            AddressingMode::IndirectX => {
                let p = self.read(self.program_counter);
                let q = p.wrapping_add(x);
                let lo = self.read(q as u16);
                let hi = self.read(q.wrapping_add(1) as u16);
                proof {
                    lemma_word(lo, hi);
                }
                ((hi as u16) << 8) | (lo as u16)
            },
            AddressingMode::IndirectY => {
                let p = self.read(self.program_counter);
                let lo = self.read(p as u16);
                let hi = self.read(p.wrapping_add(1) as u16);
                proof {
                    lemma_word(lo, hi);
                }
                let base = ((hi as u16) << 8) | (lo as u16);
                let addr = base.wrapping_add(y as u16);
                if base / 256 != addr / 256 {
                    self.tick(1);
                }
                addr
            },
            AddressingMode::IndirectYNoPlus => {
                let p = self.read(self.program_counter);
                let lo = self.read(p as u16);
                let hi = self.read(p.wrapping_add(1) as u16);
                proof {
                    lemma_word(lo, hi);
                }
                (((hi as u16) << 8) | (lo as u16)).wrapping_add(y as u16)
            },
            AddressingMode::Implied => 0,
        }
    }

    fn fetch_operand(&mut self, mode: AddressingMode) -> (r: u8)
        requires
            old(self)@.wf(),
            mode != AddressingMode::Implied,
        ensures
            final(self)@ == old(self)@.fetch_operand(mode).0,
            r == old(self)@.fetch_operand(mode).1,
            final(self)@.wf(),
    {
        let addr = self.get_operand_addr(mode);
        self.read(addr)
    }

    fn adc(&mut self, mode: AddressingMode, sbc: bool)
        requires
            old(self)@.wf(),
            mode != AddressingMode::Implied,
        ensures
            final(self)@ == old(self)@.adc(mode, sbc),
            final(self)@.wf(),
    {
        proof {
            reveal(CpuView::adc);
        }
        let v = self.fetch_operand(mode);
        let operand = if sbc { !v } else { v };
        self.add_to_accumulator(operand);
    }

    /// Adds `m` and the carry to the accumulator, setting the flags.
    #[verifier::rlimit(30)]
    fn add_to_accumulator(&mut self, m: u8)
        ensures
            final(self)@ == (CpuView {
                a: adc_value(old(self)@.a, m, old(self)@.status.carry),
                status: adc_status(old(self)@.status, old(self)@.a, m),
                ..old(self)@
            }),
    {
        let (r, carry, overflow) = add_with_carry(self.register_a, m, self.status.carry);
        self.register_a = r;
        self.status.overflow = overflow;
        self.status.carry = carry;
        self.update_zero_neg(r);
    }

    #[verifier::rlimit(30)]
    fn anc(&mut self, mode: AddressingMode)
        requires
            old(self)@.wf(),
            mode != AddressingMode::Implied,
        ensures
            final(self)@ == old(self)@.anc(mode),
            final(self)@.wf(),
    {
        proof {
            reveal(CpuView::anc);
        }
        self.and(mode);
        self.status.carry = self.status.negative;
    }

    fn and(&mut self, mode: AddressingMode)
        requires
            old(self)@.wf(),
            mode != AddressingMode::Implied,
        ensures
            final(self)@ == old(self)@.and(mode),
            final(self)@.wf(),
    {
        proof {
            reveal(CpuView::and);
        }
        let v = self.fetch_operand(mode);
        self.register_a = self.register_a & v;
        self.update_zero_neg(self.register_a);
    }

    fn ora(&mut self, mode: AddressingMode)
        requires
            old(self)@.wf(),
            mode != AddressingMode::Implied,
        ensures
            final(self)@ == old(self)@.ora(mode),
            final(self)@.wf(),
    {
        proof {
            reveal(CpuView::ora);
        }
        let v = self.fetch_operand(mode);
        self.register_a = self.register_a | v;
        self.update_zero_neg(self.register_a);
    }

    fn eor(&mut self, mode: AddressingMode)
        requires
            old(self)@.wf(),
            mode != AddressingMode::Implied,
        ensures
            final(self)@ == old(self)@.eor(mode),
            final(self)@.wf(),
    {
        proof {
            reveal(CpuView::eor);
        }
        let v = self.fetch_operand(mode);
        self.register_a = self.register_a ^ v;
        self.update_zero_neg(self.register_a);
    }

    /// A shift or rotate of the operand, or of the accumulator under `Implied`.
    fn shift(&mut self, mode: AddressingMode, kind: ShiftKind)
        requires
            old(self)@.wf(),
        ensures
            final(self)@ == old(self)@.shifted(mode, kind),
            final(self)@.wf(),
    {
        proof {
            reveal(CpuView::shifted);
        }
        if let AddressingMode::Implied = mode {
            self.shift_accumulator(kind);
        } else {
            self.shift_memory(mode, kind);
        }
    }

    #[verifier::rlimit(30)]
    fn shift_accumulator(&mut self, kind: ShiftKind)
        ensures
            final(self)@ == old(self)@.shifted_a(kind),
    {
        let v = self.register_a;
        let (nv, carry) = shift_byte(kind, v, self.status.carry);
        self.status.carry = carry;
        self.register_a = nv;
        self.update_zero_neg(nv);
    }

    #[verifier::rlimit(30)]
    fn shift_memory(&mut self, mode: AddressingMode, kind: ShiftKind)
        requires
            old(self)@.wf(),
            mode != AddressingMode::Implied,
        ensures
            final(self)@ == old(self)@.shifted_mem(mode, kind),
            final(self)@.wf(),
    {
        let addr = self.get_operand_addr(mode);
        let v = self.read(addr);
        let (nv, carry) = shift_byte(kind, v, self.status.carry);
        self.write(addr, nv);
        self.status.carry = carry;
        self.update_zero_neg(nv);
    }

    fn asl(&mut self, mode: AddressingMode)
        requires
            old(self)@.wf(),
        ensures
            final(self)@ == old(self)@.asl(mode),
            final(self)@.wf(),
    {
        proof {
            reveal(CpuView::asl);
        }
        self.shift(mode, ShiftKind::Asl);
    }

    fn lsr(&mut self, mode: AddressingMode)
        requires
            old(self)@.wf(),
        ensures
            final(self)@ == old(self)@.lsr(mode),
            final(self)@.wf(),
    {
        proof {
            reveal(CpuView::lsr);
        }
        self.shift(mode, ShiftKind::Lsr);
    }

    fn rol(&mut self, mode: AddressingMode)
        requires
            old(self)@.wf(),
        ensures
            final(self)@ == old(self)@.rol(mode),
            final(self)@.wf(),
    {
        proof {
            reveal(CpuView::rol);
        }
        self.shift(mode, ShiftKind::Rol);
    }

    fn ror(&mut self, mode: AddressingMode)
        requires
            old(self)@.wf(),
        ensures
            final(self)@ == old(self)@.ror(mode),
            final(self)@.wf(),
    {
        proof {
            reveal(CpuView::ror);
        }
        self.shift(mode, ShiftKind::Ror);
    }

    fn branch_relative(&mut self)
        requires
            old(self)@.wf(),
        ensures
            final(self)@ == old(self)@.branch_relative(),
            final(self)@.wf(),
    {
        let off = self.read(self.program_counter);
        let old_pc = self.program_counter;
        let target = if off < 128 {
            old_pc.wrapping_add(off as u16)
        } else {
            old_pc.wrapping_sub(256 - off as u16)
        };
        self.program_counter = target;
        if old_pc / 256 != target / 256 {
            self.tick(1);
        }
        self.tick(1);
    }

    fn branch(&mut self, cond: bool)
        requires
            old(self)@.wf(),
        ensures
            final(self)@ == old(self)@.branch(cond),
            final(self)@.wf(),
    {
        proof {
            reveal(CpuView::branch);
        }
        if cond {
            self.branch_relative();
        }
    }

    #[verifier::rlimit(30)]
    fn bit(&mut self, mode: AddressingMode)
        requires
            old(self)@.wf(),
            mode != AddressingMode::Implied,
        ensures
            final(self)@ == old(self)@.bit(mode),
            final(self)@.wf(),
    {
        proof {
            reveal(CpuView::bit);
        }
        let operand = self.fetch_operand(mode);
        self.status.zero = self.register_a & operand == 0;
        self.status.overflow = operand & 0x40 != 0;
        self.status.negative = operand & 0x80 != 0;
    }

    fn brk(&mut self)
        requires
            old(self)@.wf(),
        ensures
            final(self)@ == old(self)@.brk(),
            final(self)@.wf(),
    {
        proof {
            reveal(CpuView::brk);
        }
        self.push_stack_u16(self.program_counter.wrapping_add(1));
        self.push_stack(u8::from(self.status) | 0x10);
        let target = self.read_u16(IRQ_ADDR);
        self.program_counter = target;
    }

    #[verifier::rlimit(50)]
    fn compare(&mut self, source: u8, mode: AddressingMode)
        requires
            old(self)@.wf(),
            mode != AddressingMode::Implied,
        ensures
            final(self)@ == old(self)@.compare(source, mode),
            final(self)@.wf(),
    {
        proof {
            reveal(CpuView::compare);
        }
        let operand = self.fetch_operand(mode);
        self.status.carry = source >= operand;
        self.status.zero = source == operand;
        self.status.negative = source.wrapping_sub(operand) >= SIGN_MASK;
    }

    fn dec(&mut self, mode: AddressingMode)
        requires
            old(self)@.wf(),
            mode != AddressingMode::Implied,
        ensures
            final(self)@ == old(self)@.dec(mode),
            final(self)@.wf(),
    {
        proof {
            reveal(CpuView::dec);
        }
        let addr = self.get_operand_addr(mode);
        let new_val = self.read(addr).wrapping_sub(1);
        self.write(addr, new_val);
        self.update_zero_neg(new_val);
    }

    fn inc(&mut self, mode: AddressingMode)
        requires
            old(self)@.wf(),
            mode != AddressingMode::Implied,
        ensures
            final(self)@ == old(self)@.inc(mode),
            final(self)@.wf(),
    {
        proof {
            reveal(CpuView::inc);
        }
        let addr = self.get_operand_addr(mode);
        let new_val = self.read(addr).wrapping_add(1);
        self.write(addr, new_val);
        self.update_zero_neg(new_val);
    }

    fn jmp(&mut self, mode: AddressingMode)
        requires
            old(self)@.wf(),
            mode == AddressingMode::Absolute || mode == AddressingMode::Implied,
        ensures
            final(self)@ == old(self)@.jmp(mode),
            final(self)@.wf(),
    {
        proof {
            reveal(CpuView::jmp);
        }
        if let AddressingMode::Absolute = mode {
            self.program_counter = self.read_u16(self.program_counter);
        } else {
            let operand_addr = self.read_u16(self.program_counter);
            let correct_operand = self.read_u16(operand_addr);
            if operand_addr & 0x00FF == 0x00FF {
                let msb = self.read(operand_addr & 0xFF00);
                proof {
                    lemma_word((correct_operand & 0x00FF) as u8, msb);
                    assert(correct_operand & 0x00FF == ((correct_operand & 0x00FF) as u8) as u16) by (bit_vector);
                }
                self.program_counter = ((msb as u16) << 8) | (correct_operand & 0x00FF);
            } else {
                self.program_counter = correct_operand;
            }
        }
    }

    fn jsr(&mut self)
        requires
            old(self)@.wf(),
        ensures
            final(self)@ == old(self)@.jsr(),
            final(self)@.wf(),
    {
        proof {
            reveal(CpuView::jsr);
        }
        self.push_stack_u16(self.program_counter.wrapping_add(1));
        self.program_counter = self.read_u16(self.program_counter);
    }

    fn lda(&mut self, mode: AddressingMode)
        requires
            old(self)@.wf(),
            mode != AddressingMode::Implied,
        ensures
            final(self)@ == old(self)@.lda(mode),
            final(self)@.wf(),
    {
        proof {
            reveal(CpuView::lda);
        }
        self.register_a = self.fetch_operand(mode);
        self.update_zero_neg(self.register_a);
    }

    fn ldx(&mut self, mode: AddressingMode)
        requires
            old(self)@.wf(),
            mode != AddressingMode::Implied,
        ensures
            final(self)@ == old(self)@.ldx(mode),
            final(self)@.wf(),
    {
        proof {
            reveal(CpuView::ldx);
        }
        self.register_x = self.fetch_operand(mode);
        self.update_zero_neg(self.register_x);
    }

    fn ldy(&mut self, mode: AddressingMode)
        requires
            old(self)@.wf(),
            mode != AddressingMode::Implied,
        ensures
            final(self)@ == old(self)@.ldy(mode),
            final(self)@.wf(),
    {
        proof {
            reveal(CpuView::ldy);
        }
        self.register_y = self.fetch_operand(mode);
        self.update_zero_neg(self.register_y);
    }

    fn lax(&mut self, mode: AddressingMode)
        requires
            old(self)@.wf(),
            mode != AddressingMode::Implied,
        ensures
            final(self)@ == old(self)@.lax(mode),
            final(self)@.wf(),
    {
        proof {
            reveal(CpuView::lax);
        }
        self.register_a = self.fetch_operand(mode);
        self.register_x = self.register_a;
        self.update_zero_neg(self.register_x);
    }

    fn store_register(&mut self, mode: AddressingMode, v: u8)
        requires
            old(self)@.wf(),
            mode != AddressingMode::Implied,
        ensures
            final(self)@ == old(self)@.st(mode, v),
            final(self)@.wf(),
    {
        proof {
            reveal(CpuView::st);
        }
        let addr = self.get_operand_addr(mode);
        self.write(addr, v);
    }

    fn rti(&mut self)
        requires
            old(self)@.wf(),
        ensures
            final(self)@ == old(self)@.rti(),
            final(self)@.wf(),
    {
        proof {
            reveal(CpuView::rti);
        }
        self.status = StatusReg::from(self.pull_stack() & 0xEF | 0x20);
        self.program_counter = self.pull_stack_u16();
    }

    fn rts(&mut self)
        requires
            old(self)@.wf(),
        ensures
            final(self)@ == old(self)@.rts(),
            final(self)@.wf(),
    {
        proof {
            reveal(CpuView::rts);
        }
        self.program_counter = self.pull_stack_u16().wrapping_add(1);
    }

    fn dcp(&mut self, mode: AddressingMode)
        requires
            old(self)@.wf(),
            mode != AddressingMode::Implied,
        ensures
            final(self)@ == old(self)@.dcp(mode),
            final(self)@.wf(),
    {
        proof {
            reveal(CpuView::dcp);
        }
        self.dec(mode);
        self.compare(self.register_a, mode);
    }

    fn isb(&mut self, mode: AddressingMode)
        requires
            old(self)@.wf(),
            mode != AddressingMode::Implied,
        ensures
            final(self)@ == old(self)@.isb(mode),
            final(self)@.wf(),
    {
        proof {
            reveal(CpuView::isb);
        }
        self.inc(mode);
        self.adc(mode, true);
    }

    fn slo(&mut self, mode: AddressingMode)
        requires
            old(self)@.wf(),
            mode != AddressingMode::Implied,
        ensures
            final(self)@ == old(self)@.slo(mode),
            final(self)@.wf(),
    {
        proof {
            reveal(CpuView::slo);
        }
        self.asl(mode);
        self.ora(mode);
    }

    fn rla(&mut self, mode: AddressingMode)
        requires
            old(self)@.wf(),
            mode != AddressingMode::Implied,
        ensures
            final(self)@ == old(self)@.rla(mode),
            final(self)@.wf(),
    {
        proof {
            reveal(CpuView::rla);
        }
        self.rol(mode);
        self.and(mode);
    }

    fn sre(&mut self, mode: AddressingMode)
        requires
            old(self)@.wf(),
            mode != AddressingMode::Implied,
        ensures
            final(self)@ == old(self)@.sre(mode),
            final(self)@.wf(),
    {
        proof {
            reveal(CpuView::sre);
        }
        self.lsr(mode);
        self.eor(mode);
    }

    fn rra(&mut self, mode: AddressingMode)
        requires
            old(self)@.wf(),
            mode != AddressingMode::Implied,
        ensures
            final(self)@ == old(self)@.rra(mode),
            final(self)@.wf(),
    {
        proof {
            reveal(CpuView::rra);
        }
        self.ror(mode);
        self.adc(mode, false);
    }

    #[verifier::rlimit(30)]
    fn interrupt(&mut self, vector: u16)
        requires
            old(self)@.wf(),
        ensures
            final(self)@ == old(self)@.interrupt(vector),
            final(self)@.wf(),
    {
        proof {
            reveal(CpuView::interrupt);
        }
        self.push_stack_u16(self.program_counter);
        self.push_stack(self.status.into());
        self.status.irq_disable = true;
        self.tick(7);
        let target = self.read_u16(vector);
        self.program_counter = target;
    }

    /// Non-maskable interrupt, through the vector at 0xFFFA.
    fn nmi(&mut self)
        requires
            old(self)@.wf(),
        ensures
            final(self)@ == old(self)@.interrupt(NMI_ADDR),
            final(self)@.wf(),
    {
        self.interrupt(NMI_ADDR);
    }

    /// Maskable interrupt, through the vector at 0xFFFE.
    fn irq(&mut self)
        requires
            old(self)@.wf(),
        ensures
            final(self)@ == old(self)@.interrupt(IRQ_ADDR),
            final(self)@.wf(),
    {
        self.interrupt(IRQ_ADDR);
    }
}


/// Operations the table lists that have no implementation here.
pub open spec fn unsupported(m: Mnemonic) -> bool {
    match m {
        Mnemonic::Alr | Mnemonic::Arr | Mnemonic::Xaa | Mnemonic::Axs | Mnemonic::Ahx | Mnemonic::Shy
        | Mnemonic::Shx | Mnemonic::Tas | Mnemonic::Las => true,
        _ => false,
    }
}

/// The families the operations fall in.
#[derive(Clone, Copy, PartialEq, Eq, Structural, Debug)]
pub enum OpGroup {
    Alu,
    LoadStore,
    ReadModifyWrite,
    Branches,
    FlagOps,
    RegisterOps,
    Control,
    /// `HLT`, and the operations without implementation.
    Stop,
}

/// The family of an operation.
pub open spec fn op_group(m: Mnemonic) -> OpGroup {
    match m {
        Mnemonic::Adc | Mnemonic::Sbc | Mnemonic::Anc | Mnemonic::And | Mnemonic::Ora | Mnemonic::Eor | Mnemonic::Bit | Mnemonic::Cmp | Mnemonic::Cpx | Mnemonic::Cpy => OpGroup::Alu,
        Mnemonic::Lda | Mnemonic::Ldx | Mnemonic::Ldy | Mnemonic::Lax | Mnemonic::Sta | Mnemonic::Stx | Mnemonic::Sty | Mnemonic::Sax => OpGroup::LoadStore,
        Mnemonic::Asl | Mnemonic::Lsr | Mnemonic::Rol | Mnemonic::Ror | Mnemonic::Dec | Mnemonic::Inc | Mnemonic::Dcp | Mnemonic::Isb | Mnemonic::Slo | Mnemonic::Rla | Mnemonic::Sre | Mnemonic::Rra => OpGroup::ReadModifyWrite,
        Mnemonic::Bcc | Mnemonic::Bcs | Mnemonic::Beq | Mnemonic::Bmi | Mnemonic::Bne | Mnemonic::Bpl | Mnemonic::Bvc | Mnemonic::Bvs => OpGroup::Branches,
        Mnemonic::Clc | Mnemonic::Cld | Mnemonic::Cli | Mnemonic::Clv | Mnemonic::Sec | Mnemonic::Sed | Mnemonic::Sei => OpGroup::FlagOps,
        Mnemonic::Dex | Mnemonic::Dey | Mnemonic::Inx | Mnemonic::Iny | Mnemonic::Tax | Mnemonic::Tay | Mnemonic::Tsx | Mnemonic::Txa | Mnemonic::Txs | Mnemonic::Tya => OpGroup::RegisterOps,
        Mnemonic::Brk | Mnemonic::Jmp | Mnemonic::Jsr | Mnemonic::Rti | Mnemonic::Rts | Mnemonic::Pha | Mnemonic::Php | Mnemonic::Pla | Mnemonic::Plp | Mnemonic::Nop => OpGroup::Control,
        _ => OpGroup::Stop,
    }
}

/// The flags after a flag set or clear operation (other operations leave them alone).
pub open spec fn flag_op_status(m: Mnemonic, st: StatusReg) -> StatusReg {
    match m {
        Mnemonic::Clc => StatusReg { carry: false, ..st },
        Mnemonic::Cld => StatusReg { decimal: false, ..st },
        Mnemonic::Cli => StatusReg { irq_disable: false, ..st },
        Mnemonic::Clv => StatusReg { overflow: false, ..st },
        Mnemonic::Sec => StatusReg { carry: true, ..st },
        Mnemonic::Sed => StatusReg { decimal: true, ..st },
        Mnemonic::Sei => StatusReg { irq_disable: true, ..st },
        _ => st,
    }
}

fn set_or_clear_flag(m: Mnemonic, st: StatusReg) -> (r: StatusReg)
    ensures
        r == flag_op_status(m, st),
{
    match m {
        Mnemonic::Clc => StatusReg { carry: false, ..st },
        Mnemonic::Cld => StatusReg { decimal: false, ..st },
        Mnemonic::Cli => StatusReg { irq_disable: false, ..st },
        Mnemonic::Clv => StatusReg { overflow: false, ..st },
        Mnemonic::Sec => StatusReg { carry: true, ..st },
        Mnemonic::Sed => StatusReg { decimal: true, ..st },
        Mnemonic::Sei => StatusReg { irq_disable: true, ..st },
        _ => st,
    }
}

/// The shift or rotate an operation performs (`ROR` for the other operations).
pub open spec fn shift_kind(m: Mnemonic) -> ShiftKind {
    match m {
        Mnemonic::Asl => ShiftKind::Asl,
        Mnemonic::Lsr => ShiftKind::Lsr,
        Mnemonic::Rol => ShiftKind::Rol,
        _ => ShiftKind::Ror,
    }
}

fn shift_kind_of(m: Mnemonic) -> (r: ShiftKind)
    ensures
        r == shift_kind(m),
{
    match m {
        Mnemonic::Asl => ShiftKind::Asl,
        Mnemonic::Lsr => ShiftKind::Lsr,
        Mnemonic::Rol => ShiftKind::Rol,
        _ => ShiftKind::Ror,
    }
}

/// The family of an operation.
fn group_of(m: Mnemonic) -> (r: OpGroup)
    ensures
        r == op_group(m),
{
    match m {
        Mnemonic::Adc | Mnemonic::Sbc | Mnemonic::Anc | Mnemonic::And | Mnemonic::Ora | Mnemonic::Eor | Mnemonic::Bit | Mnemonic::Cmp | Mnemonic::Cpx | Mnemonic::Cpy => OpGroup::Alu,
        Mnemonic::Lda | Mnemonic::Ldx | Mnemonic::Ldy | Mnemonic::Lax | Mnemonic::Sta | Mnemonic::Stx | Mnemonic::Sty | Mnemonic::Sax => OpGroup::LoadStore,
        Mnemonic::Asl | Mnemonic::Lsr | Mnemonic::Rol | Mnemonic::Ror | Mnemonic::Dec | Mnemonic::Inc | Mnemonic::Dcp | Mnemonic::Isb | Mnemonic::Slo | Mnemonic::Rla | Mnemonic::Sre | Mnemonic::Rra => OpGroup::ReadModifyWrite,
        Mnemonic::Bcc | Mnemonic::Bcs | Mnemonic::Beq | Mnemonic::Bmi | Mnemonic::Bne | Mnemonic::Bpl | Mnemonic::Bvc | Mnemonic::Bvs => OpGroup::Branches,
        Mnemonic::Clc | Mnemonic::Cld | Mnemonic::Cli | Mnemonic::Clv | Mnemonic::Sec | Mnemonic::Sed | Mnemonic::Sei => OpGroup::FlagOps,
        Mnemonic::Dex | Mnemonic::Dey | Mnemonic::Inx | Mnemonic::Iny | Mnemonic::Tax | Mnemonic::Tay | Mnemonic::Tsx | Mnemonic::Txa | Mnemonic::Txs | Mnemonic::Tya => OpGroup::RegisterOps,
        Mnemonic::Brk | Mnemonic::Jmp | Mnemonic::Jsr | Mnemonic::Rti | Mnemonic::Rts | Mnemonic::Pha | Mnemonic::Php | Mnemonic::Pla | Mnemonic::Plp | Mnemonic::Nop => OpGroup::Control,
        _ => OpGroup::Stop,
    }
}

/// Most runs: the number of steps after which a run gives up.
pub const STEP_LIMIT: u64 = 0xFFFF_FFFF_FFFF_FFFF;

impl CpuView {
    /// What an instruction does to the processor, once the program counter is past its
    /// opcode.
    pub open spec fn performed(self, ins: Instruction) -> CpuView {
        match op_group(ins.mnemonic) {
            OpGroup::Alu => self.performed_alu(ins),
            OpGroup::LoadStore => self.performed_load_store(ins),
            OpGroup::ReadModifyWrite => self.performed_read_modify_write(ins),
            OpGroup::Branches => self.performed_branches(ins),
            OpGroup::FlagOps => self.performed_flag_ops(ins),
            OpGroup::RegisterOps => self.performed_register_ops(ins),
            OpGroup::Control => self.performed_control(ins),
            OpGroup::Stop => self,
        }
    }

    /// Operations that combine the accumulator or an index register with an operand.
    #[verifier::opaque]
    pub open spec fn performed_alu(self, ins: Instruction) -> CpuView {
        let mode = ins.addressing_mode;
        let st = self.status;
        match ins.mnemonic {
            Mnemonic::Adc => self.adc(mode, false),
            Mnemonic::Sbc => self.adc(mode, true),
            Mnemonic::Anc => self.anc(mode),
            Mnemonic::And => self.and(mode),
            Mnemonic::Ora => self.ora(mode),
            Mnemonic::Eor => self.eor(mode),
            Mnemonic::Bit => self.bit(mode),
            Mnemonic::Cmp => self.compare(self.a, mode),
            Mnemonic::Cpx => self.compare(self.x, mode),
            Mnemonic::Cpy => self.compare(self.y, mode),
            _ => self,
        }
    }

    /// Loads and stores.
    #[verifier::opaque]
    pub open spec fn performed_load_store(self, ins: Instruction) -> CpuView {
        let mode = ins.addressing_mode;
        let st = self.status;
        match ins.mnemonic {
            Mnemonic::Lda => self.lda(mode),
            Mnemonic::Ldx => self.ldx(mode),
            Mnemonic::Ldy => self.ldy(mode),
            Mnemonic::Lax => self.lax(mode),
            Mnemonic::Sta => self.st(mode, self.a),
            Mnemonic::Stx => self.st(mode, self.x),
            Mnemonic::Sty => self.st(mode, self.y),
            Mnemonic::Sax => self.st(mode, self.x & self.a),
            _ => self,
        }
    }

    /// Operations that rewrite their operand.
    #[verifier::opaque]
    pub open spec fn performed_read_modify_write(self, ins: Instruction) -> CpuView {
        let mode = ins.addressing_mode;
        match ins.mnemonic {
            Mnemonic::Asl | Mnemonic::Lsr | Mnemonic::Rol | Mnemonic::Ror => self.shifted(mode, shift_kind(ins.mnemonic)),
            Mnemonic::Dec => self.dec(mode),
            Mnemonic::Inc => self.inc(mode),
            Mnemonic::Dcp => self.dcp(mode),
            Mnemonic::Isb => self.isb(mode),
            Mnemonic::Slo => self.slo(mode),
            Mnemonic::Rla => self.rla(mode),
            Mnemonic::Sre => self.sre(mode),
            Mnemonic::Rra => self.rra(mode),
            _ => self,
        }
    }

    /// Conditional branches.
    #[verifier::opaque]
    pub open spec fn performed_branches(self, ins: Instruction) -> CpuView {
        let mode = ins.addressing_mode;
        let st = self.status;
        match ins.mnemonic {
            Mnemonic::Bcc => self.branch(!st.carry),
            Mnemonic::Bcs => self.branch(st.carry),
            Mnemonic::Beq => self.branch(st.zero),
            Mnemonic::Bmi => self.branch(st.negative),
            Mnemonic::Bne => self.branch(!st.zero),
            Mnemonic::Bpl => self.branch(!st.negative),
            Mnemonic::Bvc => self.branch(!st.overflow),
            Mnemonic::Bvs => self.branch(st.overflow),
            _ => self,
        }
    }

    /// Flag set and clear operations.
    #[verifier::opaque]
    pub open spec fn performed_flag_ops(self, ins: Instruction) -> CpuView {
        CpuView { status: flag_op_status(ins.mnemonic, self.status), ..self }
    }

    /// Register transfers, increments and decrements.
    #[verifier::opaque]
    pub open spec fn performed_register_ops(self, ins: Instruction) -> CpuView {
        let mode = ins.addressing_mode;
        let st = self.status;
        match ins.mnemonic {
            Mnemonic::Dex => CpuView { x: self.x.wrapping_sub(1), ..self }.zn(self.x.wrapping_sub(1)),
            Mnemonic::Dey => CpuView { y: self.y.wrapping_sub(1), ..self }.zn(self.y.wrapping_sub(1)),
            Mnemonic::Inx => CpuView { x: self.x.wrapping_add(1), ..self }.zn(self.x.wrapping_add(1)),
            Mnemonic::Iny => CpuView { y: self.y.wrapping_add(1), ..self }.zn(self.y.wrapping_add(1)),
            Mnemonic::Tax => CpuView { x: self.a, ..self }.zn(self.a),
            Mnemonic::Tay => CpuView { y: self.a, ..self }.zn(self.a),
            Mnemonic::Tsx => CpuView { x: self.sp, ..self }.zn(self.sp),
            Mnemonic::Txa => CpuView { a: self.x, ..self }.zn(self.x),
            Mnemonic::Txs => CpuView { sp: self.x, ..self },
            Mnemonic::Tya => CpuView { a: self.y, ..self }.zn(self.y),
            _ => self,
        }
    }

    /// Jumps, returns, breaks and stack operations.
    #[verifier::opaque]
    pub open spec fn performed_control(self, ins: Instruction) -> CpuView {
        let mode = ins.addressing_mode;
        let st = self.status;
        match ins.mnemonic {
            Mnemonic::Brk => if self.quit_on_brk { self } else { self.brk() },
            Mnemonic::Jmp => self.jmp(mode),
            Mnemonic::Jsr => self.jsr(),
            Mnemonic::Rti => self.rti(),
            Mnemonic::Rts => self.rts(),
            Mnemonic::Pha => self.push(self.a),
            Mnemonic::Php => self.push(status_byte(StatusReg { break_cmd: true, ..st })),
            Mnemonic::Pla => {
                let (s, v) = self.pull();
                CpuView { a: v, ..s }.zn(v)
            },
            Mnemonic::Plp => {
                let (s, v) = self.pull();
                CpuView { status: CpuView::pulled_status(v), ..s }
            },
            Mnemonic::Nop => self,
            _ => self,
        }
    }

    /// How an instruction ends: `HLT` and a `BRK` that ends runs halt, the operations
    /// without implementation fail, every other one continues.
    pub open spec fn flow_of(self, ins: Instruction) -> Result<Flow, CpuError> {
        if ins.mnemonic == Mnemonic::Hlt || (ins.mnemonic == Mnemonic::Brk && self.quit_on_brk) {
            Ok(Flow::Halt)
        } else if unsupported(ins.mnemonic) {
            Err(CpuError::UnsupportedOpcode(ins.opcode))
        } else {
            Ok(Flow::Continue)
        }
    }

    /// The interrupt check after an instruction: a new NMI edge is served first, then a
    /// pending IRQ unless interrupts are disabled.
    pub open spec fn after_interrupts(self) -> CpuView {
        let nmi = self.bus.ppu.nmi_up;
        let s1 = if nmi && !self.nmi_seen {
            CpuView { nmi_seen: true, ..self }.interrupt(NMI_ADDR)
        } else {
            CpuView { nmi_seen: nmi, ..self }
        };
        if !s1.status.irq_disable && s1.bus.apu.irq_line() {
            s1.interrupt(IRQ_ADDR)
        } else {
            s1
        }
    }

    /// Runs an instruction whose opcode is at the program counter: perform it, spend its
    /// cycles, move past its operand bytes (jumps set the counter themselves), and serve
    /// interrupts. A refused bus access during all this is reported.
    pub open spec fn executed(self, ins: Instruction) -> (CpuView, Result<Flow, CpuError>) {
        let s0 = CpuView { pc: self.pc.wrapping_add(1), ..self };
        let s1 = s0.performed(ins);
        match s0.flow_of(ins) {
            Ok(Flow::Continue) => {
                let s2 = s1.ticked(ins.duration);
                let s3 = if ins.mnemonic == Mnemonic::Jmp || ins.mnemonic == Mnemonic::Jsr {
                    s2
                } else {
                    CpuView { pc: s2.pc.wrapping_add((ins.bytes - 1) as u16), ..s2 }
                };
                let s4 = s3.after_interrupts();
                (s4, match s4.fault {
                    Some(f) => Err(CpuError::Bus(f)),
                    None => Ok(Flow::Continue),
                })
            },
            r => (s1, r),
        }
    }

    /// Reads the opcode at the program counter and looks it up.
    pub open spec fn fetched(self) -> (CpuView, Result<Instruction, CpuError>) {
        let s0 = CpuView { fault: None, ..self };
        let (s1, op) = s0.load(s0.pc);
        match s1.fault {
            Some(f) => (s1, Err(CpuError::Bus(f))),
            None => {
                let ins = instruction_for(op);
                (CpuView { mnemonic: Some(ins.mnemonic), cycles: ins.duration, ..s1 }, Ok(ins))
            },
        }
    }

    /// One whole instruction.
    pub open spec fn stepped(self) -> (CpuView, Result<Flow, CpuError>) {
        let (s, r) = self.fetched();
        match r {
            Ok(ins) => s.executed(ins),
            Err(e) => (s, Err(e)),
        }
    }

    /// Instructions one after the other until one halts or fails, for at most `n` of
    /// them.
    pub open spec fn run(self, n: nat) -> (CpuView, Result<(), CpuError>)
        decreases n,
    {
        if n == 0 {
            (self, Err(CpuError::StepLimit))
        } else {
            let (s, r) = self.stepped();
            match r {
                Ok(Flow::Continue) => s.run((n - 1) as nat),
                Ok(Flow::Halt) => (s, Ok(())),
                Err(e) => (s, Err(e)),
            }
        }
    }

    /// The power-up sequence: registers cleared, stack pointer at 0xFD, interrupts
    /// disabled, and the program counter loaded from the reset vector.
    pub open spec fn reset_state(self) -> CpuView {
        let s = CpuView { a: 0, x: 0, y: 0, sp: 0xfd, status: status_of(0x24), ..self };
        let (s1, t) = s.load16(RESET_ADDR);
        CpuView { pc: t, ..s1 }
    }

    /// The first `n` bytes of `prog` written from 0x600 on.
    pub open spec fn written(self, prog: Seq<u8>, n: nat) -> CpuView
        decreases n,
    {
        if n == 0 {
            self
        } else {
            self.written(prog, (n - 1) as nat).store((0x600 + n - 1) as u16, prog[n - 1])
        }
    }
}

impl Cpu {
    /// Carries out the operation of `ins`.
    fn perform(&mut self, ins: Instruction) -> (r: Result<Flow, CpuError>)
        requires
            old(self)@.wf(),
            ins.wf(),
        ensures
            final(self)@ == old(self)@.performed(ins),
            r == old(self)@.flow_of(ins),
            final(self)@.wf(),
    {
        let quit = self.quit_on_brk;
        match group_of(ins.mnemonic) {
            OpGroup::Alu => self.perform_alu(ins),
            OpGroup::LoadStore => self.perform_load_store(ins),
            OpGroup::ReadModifyWrite => self.perform_read_modify_write(ins),
            OpGroup::Branches => self.perform_branches(ins),
            OpGroup::FlagOps => self.perform_flag_ops(ins),
            OpGroup::RegisterOps => self.perform_register_ops(ins),
            OpGroup::Control => self.perform_control(ins),
            OpGroup::Stop => {
                return if let Mnemonic::Hlt = ins.mnemonic {
                    Ok(Flow::Halt)
                } else {
                    Err(CpuError::UnsupportedOpcode(ins.opcode))
                };
            },
        }
        if let Mnemonic::Brk = ins.mnemonic {
            if quit {
                return Ok(Flow::Halt);
            }
        }
        Ok(Flow::Continue)
    }

    #[verifier::spinoff_prover]
    fn perform_alu(&mut self, ins: Instruction)
        requires
            old(self)@.wf(),
            ins.wf(),
            op_group(ins.mnemonic) == OpGroup::Alu,
        ensures
            final(self)@ == old(self)@.performed_alu(ins),
            final(self)@.wf(),
    {
        proof {
            reveal(CpuView::performed_alu);
        }
        let mode = ins.addressing_mode;
        let st = self.status;
        match ins.mnemonic {
            Mnemonic::Adc => self.adc(mode, false),
            Mnemonic::Sbc => self.adc(mode, true),
            Mnemonic::Anc => self.anc(mode),
            Mnemonic::And => self.and(mode),
            Mnemonic::Ora => self.ora(mode),
            Mnemonic::Eor => self.eor(mode),
            Mnemonic::Bit => self.bit(mode),
            Mnemonic::Cmp => self.compare(self.register_a, mode),
            Mnemonic::Cpx => self.compare(self.register_x, mode),
            Mnemonic::Cpy => self.compare(self.register_y, mode),
            _ => {},
        }
    }

    #[verifier::spinoff_prover]
    fn perform_load_store(&mut self, ins: Instruction)
        requires
            old(self)@.wf(),
            ins.wf(),
            op_group(ins.mnemonic) == OpGroup::LoadStore,
        ensures
            final(self)@ == old(self)@.performed_load_store(ins),
            final(self)@.wf(),
    {
        proof {
            reveal(CpuView::performed_load_store);
        }
        let mode = ins.addressing_mode;
        let st = self.status;
        match ins.mnemonic {
            Mnemonic::Lda => self.lda(mode),
            Mnemonic::Ldx => self.ldx(mode),
            Mnemonic::Ldy => self.ldy(mode),
            Mnemonic::Lax => self.lax(mode),
            Mnemonic::Sta => self.store_register(mode, self.register_a),
            Mnemonic::Stx => self.store_register(mode, self.register_x),
            Mnemonic::Sty => self.store_register(mode, self.register_y),
            Mnemonic::Sax => self.store_register(mode, self.register_x & self.register_a),
            _ => {},
        }
    }

    #[verifier::spinoff_prover]
    fn perform_read_modify_write(&mut self, ins: Instruction)
        requires
            old(self)@.wf(),
            ins.wf(),
            op_group(ins.mnemonic) == OpGroup::ReadModifyWrite,
        ensures
            final(self)@ == old(self)@.performed_read_modify_write(ins),
            final(self)@.wf(),
    {
        proof {
            reveal(CpuView::performed_read_modify_write);
        }
        let mode = ins.addressing_mode;
        match ins.mnemonic {
            Mnemonic::Asl | Mnemonic::Lsr | Mnemonic::Rol | Mnemonic::Ror => {
                self.shift(mode, shift_kind_of(ins.mnemonic));
            },
            Mnemonic::Dec => self.dec(mode),
            Mnemonic::Inc => self.inc(mode),
            Mnemonic::Dcp => self.dcp(mode),
            Mnemonic::Isb => self.isb(mode),
            Mnemonic::Slo => self.slo(mode),
            Mnemonic::Rla => self.rla(mode),
            Mnemonic::Sre => self.sre(mode),
            Mnemonic::Rra => self.rra(mode),
            _ => {},
        }
    }

    #[verifier::spinoff_prover]
    fn perform_branches(&mut self, ins: Instruction)
        requires
            old(self)@.wf(),
            ins.wf(),
            op_group(ins.mnemonic) == OpGroup::Branches,
        ensures
            final(self)@ == old(self)@.performed_branches(ins),
            final(self)@.wf(),
    {
        proof {
            reveal(CpuView::performed_branches);
        }
        let mode = ins.addressing_mode;
        let st = self.status;
        match ins.mnemonic {
            Mnemonic::Bcc => self.branch(!st.carry),
            Mnemonic::Bcs => self.branch(st.carry),
            Mnemonic::Beq => self.branch(st.zero),
            Mnemonic::Bmi => self.branch(st.negative),
            Mnemonic::Bne => self.branch(!st.zero),
            Mnemonic::Bpl => self.branch(!st.negative),
            Mnemonic::Bvc => self.branch(!st.overflow),
            Mnemonic::Bvs => self.branch(st.overflow),
            _ => {},
        }
    }

    #[verifier::spinoff_prover]
    fn perform_flag_ops(&mut self, ins: Instruction)
        requires
            old(self)@.wf(),
            ins.wf(),
            op_group(ins.mnemonic) == OpGroup::FlagOps,
        ensures
            final(self)@ == old(self)@.performed_flag_ops(ins),
            final(self)@.wf(),
    {
        proof {
            reveal(CpuView::performed_flag_ops);
        }
        let status = set_or_clear_flag(ins.mnemonic, self.status);
        self.set_status(status);
    }

    #[verifier::spinoff_prover]
    fn perform_register_ops(&mut self, ins: Instruction)
        requires
            old(self)@.wf(),
            ins.wf(),
            op_group(ins.mnemonic) == OpGroup::RegisterOps,
        ensures
            final(self)@ == old(self)@.performed_register_ops(ins),
            final(self)@.wf(),
    {
        proof {
            reveal(CpuView::performed_register_ops);
        }
        let mode = ins.addressing_mode;
        let st = self.status;
        match ins.mnemonic {
            Mnemonic::Dex => self.dex(),
            Mnemonic::Dey => self.dey(),
            Mnemonic::Inx => self.inx(),
            Mnemonic::Iny => self.iny(),
            Mnemonic::Tax => self.tax(),
            Mnemonic::Tay => self.tay(),
            Mnemonic::Tsx => self.tsx(),
            Mnemonic::Txa => self.txa(),
            Mnemonic::Txs => self.txs(),
            Mnemonic::Tya => self.tya(),
            _ => {},
        }
    }

    #[verifier::spinoff_prover]
    fn perform_control(&mut self, ins: Instruction)
        requires
            old(self)@.wf(),
            ins.wf(),
            op_group(ins.mnemonic) == OpGroup::Control,
        ensures
            final(self)@ == old(self)@.performed_control(ins),
            final(self)@.wf(),
    {
        proof {
            reveal(CpuView::performed_control);
        }
        let mode = ins.addressing_mode;
        let st = self.status;
        match ins.mnemonic {
            Mnemonic::Brk => if !self.quit_on_brk {
                    self.brk();
                },
            Mnemonic::Jmp => self.jmp(mode),
            Mnemonic::Jsr => self.jsr(),
            Mnemonic::Rti => self.rti(),
            Mnemonic::Rts => self.rts(),
            Mnemonic::Pha => self.push_stack(self.register_a),
            Mnemonic::Php => self.push_stack(u8::from(StatusReg { break_cmd: true, ..st })),
            Mnemonic::Pla => self.pla(),
            Mnemonic::Plp => self.plp(),
            _ => {},
        }
    }

    fn set_status(&mut self, status: StatusReg)
        requires
            old(self)@.wf(),
        ensures
            final(self)@ == (CpuView { status, ..old(self)@ }),
            final(self)@.wf(),
    {
        self.status = status;
    }

    fn dex(&mut self)
        ensures
            final(self)@ == (CpuView { x: old(self)@.x.wrapping_sub(1), ..old(self)@ }).zn(
                old(self)@.x.wrapping_sub(1),
            ),
    {
        self.register_x = self.register_x.wrapping_sub(1);
        self.update_zero_neg(self.register_x);
    }

    fn dey(&mut self)
        ensures
            final(self)@ == (CpuView { y: old(self)@.y.wrapping_sub(1), ..old(self)@ }).zn(
                old(self)@.y.wrapping_sub(1),
            ),
    {
        self.register_y = self.register_y.wrapping_sub(1);
        self.update_zero_neg(self.register_y);
    }

    fn inx(&mut self)
        ensures
            final(self)@ == (CpuView { x: old(self)@.x.wrapping_add(1), ..old(self)@ }).zn(
                old(self)@.x.wrapping_add(1),
            ),
    {
        self.register_x = self.register_x.wrapping_add(1);
        self.update_zero_neg(self.register_x);
    }

    fn iny(&mut self)
        ensures
            final(self)@ == (CpuView { y: old(self)@.y.wrapping_add(1), ..old(self)@ }).zn(
                old(self)@.y.wrapping_add(1),
            ),
    {
        self.register_y = self.register_y.wrapping_add(1);
        self.update_zero_neg(self.register_y);
    }

    fn tax(&mut self)
        ensures
            final(self)@ == (CpuView { x: old(self)@.a, ..old(self)@ }).zn(old(self)@.a),
    {
        self.register_x = self.register_a;
        self.update_zero_neg(self.register_x);
    }

    fn tay(&mut self)
        ensures
            final(self)@ == (CpuView { y: old(self)@.a, ..old(self)@ }).zn(old(self)@.a),
    {
        self.register_y = self.register_a;
        self.update_zero_neg(self.register_y);
    }

    fn tsx(&mut self)
        ensures
            final(self)@ == (CpuView { x: old(self)@.sp, ..old(self)@ }).zn(old(self)@.sp),
    {
        self.register_x = self.stack_pointer;
        self.update_zero_neg(self.register_x);
    }

    fn txa(&mut self)
        ensures
            final(self)@ == (CpuView { a: old(self)@.x, ..old(self)@ }).zn(old(self)@.x),
    {
        self.register_a = self.register_x;
        self.update_zero_neg(self.register_a);
    }

    fn txs(&mut self)
        ensures
            final(self)@ == (CpuView { sp: old(self)@.x, ..old(self)@ }),
    {
        self.stack_pointer = self.register_x;
    }

    fn tya(&mut self)
        ensures
            final(self)@ == (CpuView { a: old(self)@.y, ..old(self)@ }).zn(old(self)@.y),
    {
        self.register_a = self.register_y;
        self.update_zero_neg(self.register_a);
    }

    fn pla(&mut self)
        requires
            old(self)@.wf(),
        ensures
            final(self)@ == (CpuView { a: old(self)@.pull().1, ..old(self)@.pull().0 }).zn(
                old(self)@.pull().1,
            ),
            final(self)@.wf(),
    {
        self.register_a = self.pull_stack();
        self.update_zero_neg(self.register_a);
    }

    fn plp(&mut self)
        requires
            old(self)@.wf(),
        ensures
            final(self)@ == (CpuView {
                status: CpuView::pulled_status(old(self)@.pull().1),
                ..old(self)@.pull().0
            }),
            final(self)@.wf(),
    {
        self.status = StatusReg::from(self.pull_stack() & 0xEF | 0x20);
    }

    fn check_interrupts(&mut self)
        requires
            old(self)@.wf(),
        ensures
            final(self)@ == old(self)@.after_interrupts(),
            final(self)@.wf(),
    {
        if self.bus.nmi_active() && !self.nmi_seen {
            self.nmi_seen = true;
            self.nmi();
        } else {
            self.nmi_seen = self.bus.nmi_active();
        }
        if !self.status.irq_disable && self.bus.irq_active() {
            self.irq();
        }
    }

    /// Reads the opcode at the program counter and looks it up; the mnemonic and the base
    /// duration of the instruction are recorded.
    pub fn fetch(&mut self) -> (r: Result<Instruction, CpuError>)
        requires
            old(self)@.wf(),
        ensures
            (final(self)@, r) == old(self)@.fetched(),
            final(self)@.wf(),
            r matches Ok(ins) ==> ins.wf(),
    {
        self.fault = None;
        let op = self.read(self.program_counter);
        match self.fault {
            Some(f) => Err(CpuError::Bus(f)),
            None => {
                let instruction = decode(op);
                self.mnemonic = Some(instruction.mnemonic);
                self.cycles = instruction.duration;
                Ok(instruction)
            },
        }
    }

    /// Runs the instruction `ins`, whose opcode is at the program counter.
    pub fn execute(&mut self, ins: Instruction) -> (r: Result<Flow, CpuError>)
        requires
            old(self)@.wf(),
            ins.wf(),
        ensures
            (final(self)@, r) == old(self)@.executed(ins),
            final(self)@.wf(),
    {
        self.program_counter = self.program_counter.wrapping_add(1);
        match self.perform(ins) {
            Ok(Flow::Continue) => {},
            other => return other,
        }
        self.tick(ins.duration);
        match ins.mnemonic {
            Mnemonic::Jmp | Mnemonic::Jsr => {},
            _ => self.program_counter = self.program_counter.wrapping_add((ins.bytes - 1) as u16),
        }
        self.check_interrupts();
        match self.fault {
            Some(f) => Err(CpuError::Bus(f)),
            None => Ok(Flow::Continue),
        }
    }

    /// Fetches and runs one instruction.
    pub fn step(&mut self) -> (r: Result<Flow, CpuError>)
        requires
            old(self)@.wf(),
        ensures
            (final(self)@, r) == old(self)@.stepped(),
            final(self)@.wf(),
    {
        match self.fetch() {
            Ok(ins) => self.execute(ins),
            Err(e) => Err(e),
        }
    }

    /// Clears the registers and jumps through the reset vector.
    pub fn reset(&mut self)
        requires
            old(self)@.wf(),
        ensures
            final(self)@ == old(self)@.reset_state(),
            final(self)@.wf(),
    {
        self.register_a = 0;
        self.register_x = 0;
        self.register_y = 0;
        self.stack_pointer = 0xfd;
        self.status = StatusReg::from(0x24u8);
        self.program_counter = self.read_u16(RESET_ADDR);
    }

    /// Writes a program at 0x600, points the program counter at it, and makes `BRK` end
    /// runs.
    pub fn _setup(&mut self, prog: &[u8])
        requires
            old(self)@.wf(),
            prog@.len() <= 0xFA00,
        ensures
            final(self)@ == (CpuView {
                pc: 0x600,
                quit_on_brk: true,
                ..old(self)@.written(prog@, prog@.len())
            }),
            final(self)@.wf(),
    {
        let mut idx: usize = 0;
        while idx < prog.len()
            invariant
                idx <= prog@.len() <= 0xFA00,
                self@ == old(self)@.written(prog@, idx as nat),
                self@.wf(),
            decreases prog@.len() - idx,
        {
            self.write(0x600 + idx as u16, prog[idx]);
            idx += 1;
        }
        self.program_counter = 0x600;
        self.quit_on_brk = true;
    }

    /// Runs instructions until one halts or fails (or, at the latest, after
    /// `STEP_LIMIT` of them).
    pub fn _run(&mut self) -> (r: Result<(), CpuError>)
        requires
            old(self)@.wf(),
        ensures
            (final(self)@, r) == old(self)@.run(STEP_LIMIT as nat),
            final(self)@.wf(),
    {
        let mut budget: u64 = STEP_LIMIT;
        loop
            invariant
                self@.run(budget as nat) == old(self)@.run(STEP_LIMIT as nat),
                self@.wf(),
            decreases budget,
        {
            if budget == 0 {
                return Err(CpuError::StepLimit);
            }
            match self.step() {
                Ok(Flow::Continue) => {},
                Ok(Flow::Halt) => return Ok(()),
                Err(e) => return Err(e),
            }
            budget = budget - 1;
        }
    }
}

} // verus!
