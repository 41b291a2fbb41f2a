use vstd::prelude::*;

use crate::bus::{bus_read, bus_tick, bus_write, lemma_tick_clock, poke_prg_spec, Bus, BusState};
use crate::flags::{set_bits, with_bits};
use crate::opcodes::{lookup, opcode_spec};
use crate::ppu::{PpuState, DOTS_PER_FRAME};
use crate::ppu::reg_addr::join16;
use vstd::arithmetic::div_mod::lemma_add_mod_noop;

verus! {

/// How an instruction finds its operand.
#[allow(non_camel_case_types)]
#[derive(Clone, Copy, Debug, PartialEq, Eq, Structural)]
pub enum AddressingMode {
    IMM,
    ZP,
    ZP_X,
    ZP_Y,
    ABS,
    ABS_X,
    ABS_Y,
    IND_X,
    IND_Y,
    ACC,
    REL,
    IMP,
}

pub const CARRY: u8 = 0b0000_0001;

pub const ZERO: u8 = 0b0000_0010;

pub const INTERRUPT_MASK: u8 = 0b0000_0100;

pub const DECIMAL: u8 = 0b0000_1000;

pub const BREAK: u8 = 0b0001_0000;

pub const BREAK_2: u8 = 0b0010_0000;

pub const OVERFLOW: u8 = 0b0100_0000;

pub const NEGATIVE: u8 = 0b1000_0000;

pub const STACK: u16 = 0x0100;

pub const STACK_RESET: u8 = 0xFD;

pub const STATUS_RESET: u8 = 0b0010_0100;

pub const NMI_VECTOR: u16 = 0xFFFA;

pub const RESET_VECTOR: u16 = 0xFFFC;

pub const IRQ_VECTOR: u16 = 0xFFFE;

/// Memory as the CPU addresses it: 64 KiB of byte cells, some of which
/// answer or act when read or written.
pub trait Memory: Sized {
    /// The memory is in a state its operations accept.
    spec fn ready(&self) -> bool;

    /// A read at `addr` returns `value` and leaves the memory as `after`.
    spec fn reads(&self, addr: u16, value: u8, after: Self) -> bool;

    /// A write of `value` at `addr` leaves the memory as `after`.
    spec fn writes(&self, addr: u16, value: u8, after: Self) -> bool;

    fn mem_read(&mut self, addr: u16) -> (r: u8)
        requires
            old(self).ready(),
        ensures
            final(self).ready(),
            old(self).reads(addr, r, *final(self)),
    ;

    fn mem_write(&mut self, addr: u16, value: u8)
        requires
            old(self).ready(),
        ensures
            final(self).ready(),
            old(self).writes(addr, value, *final(self)),
    ;
}

/// The 6502 core: its registers and the bus it drives.
pub struct CPU {
    pub reg_a: u8,
    pub reg_x: u8,
    pub reg_y: u8,
    pub reg_pc: u16,
    pub reg_sp: u8,
    pub reg_status: u8,
    pub bus: Bus,
}

pub struct CpuState {
    pub a: u8,
    pub x: u8,
    pub y: u8,
    pub pc: u16,
    pub sp: u8,
    pub p: u8,
    pub bus: BusState,
}

impl View for CPU {
    type V = CpuState;

    open spec fn view(&self) -> CpuState {
        CpuState {
            a: self.reg_a,
            x: self.reg_x,
            y: self.reg_y,
            pc: self.reg_pc,
            sp: self.reg_sp,
            p: self.reg_status,
            bus: self.bus@,
        }
    }
}

/// What became of one step of the CPU.
#[derive(Clone, Copy, Debug, PartialEq, Eq, Structural)]
pub enum StepOutcome {
    /// The instruction ran; `frame_ready` tells whether the PPU has just
    /// raised its VBlank NMI, the moment to show a frame and poll input.
    Executed { opcode: u8, frame_ready: bool },
    /// BRK ran; a program ends with it.
    Break { frame_ready: bool },
    /// No instruction has this opcode: nothing was executed.
    UnknownOpcode(u8),
    /// The CPU wrote to the read-only PPUSTATUS register.
    IllegalWrite,
}

// The state after each part of an instruction.

pub open spec fn zn(p: u8, v: u8) -> u8 {
    with_bits(with_bits(p, ZERO, v == 0), NEGATIVE, v & 0x80 != 0)
}

pub open spec fn with_zn(s: CpuState, v: u8) -> CpuState {
    CpuState { p: zn(s.p, v), ..s }
}

pub open spec fn with_flag(s: CpuState, mask: u8, on: bool) -> CpuState {
    CpuState { p: with_bits(s.p, mask, on), ..s }
}

pub open spec fn flag(s: CpuState, mask: u8) -> bool {
    s.p & mask != 0
}

pub open spec fn rd(s: CpuState, addr: u16) -> (CpuState, u8) {
    let (b, v) = bus_read(s.bus, addr);
    (CpuState { bus: b, ..s }, v)
}

pub open spec fn wr(s: CpuState, addr: u16, v: u8) -> CpuState {
    CpuState { bus: bus_write(s.bus, addr, v), ..s }
}

/// A little-endian word: the low byte at `addr`, the high byte after it.
pub open spec fn rd16(s: CpuState, addr: u16) -> (CpuState, u16) {
    let (s1, lo) = rd(s, addr);
    let (s2, hi) = rd(s1, addr.wrapping_add(1));
    (s2, join16(hi, lo))
}

pub open spec fn wr16(s: CpuState, addr: u16, v: u16) -> CpuState {
    wr(wr(s, addr, (v & 0xFF) as u8), addr.wrapping_add(1), (v >> 8u16) as u8)
}

/// A push writes at 0x0100 | SP, then SP goes down (wrapping in 8 bits).
pub open spec fn push(s: CpuState, v: u8) -> CpuState {
    CpuState { sp: s.sp.wrapping_sub(1), ..wr(s, (STACK + s.sp) as u16, v) }
}

/// A pop first moves SP up, then reads 0x0100 | SP.
pub open spec fn pop(s: CpuState) -> (CpuState, u8) {
    rd(CpuState { sp: s.sp.wrapping_add(1), ..s }, (STACK + s.sp.wrapping_add(1)) as u16)
}

/// High byte first, so that the low byte is on top.
pub open spec fn push16(s: CpuState, v: u16) -> CpuState {
    push(push(s, (v >> 8u16) as u8), (v & 0xFF) as u8)
}

pub open spec fn pop16(s: CpuState) -> (CpuState, u16) {
    let (s1, lo) = pop(s);
    let (s2, hi) = pop(s1);
    (s2, join16(hi, lo))
}

/// The effective address of the operand, with PC on the first operand byte.
pub open spec fn operand(s: CpuState, mode: AddressingMode) -> (CpuState, u16) {
    match mode {
        AddressingMode::IMM => (s, s.pc),
        AddressingMode::REL => (s, s.pc),
        AddressingMode::ZP => {
            let (s1, b) = rd(s, s.pc);
            (s1, b as u16)
        },
        AddressingMode::ZP_X => {
            let (s1, b) = rd(s, s.pc);
            (s1, b.wrapping_add(s.x) as u16)
        },
        AddressingMode::ZP_Y => {
            let (s1, b) = rd(s, s.pc);
            (s1, b.wrapping_add(s.y) as u16)
        },
        AddressingMode::ABS => rd16(s, s.pc),
        AddressingMode::ABS_X => {
            let (s1, base) = rd16(s, s.pc);
            (s1, base.wrapping_add(s.x as u16))
        },
        AddressingMode::ABS_Y => {
            let (s1, base) = rd16(s, s.pc);
            (s1, base.wrapping_add(s.y as u16))
        },
        AddressingMode::IND_X => {
            let (s1, b) = rd(s, s.pc);
            let ptr = b.wrapping_add(s.x);
            let (s2, lo) = rd(s1, ptr as u16);
            let (s3, hi) = rd(s2, ptr.wrapping_add(1) as u16);
            (s3, join16(hi, lo))
        },
        AddressingMode::IND_Y => {
            let (s1, b) = rd(s, s.pc);
            let (s2, lo) = rd(s1, b as u16);
            let (s3, hi) = rd(s2, b.wrapping_add(1) as u16);
            (s3, join16(hi, lo).wrapping_add(s.y as u16))
        },
        AddressingMode::ACC => (s, s.a as u16),
        AddressingMode::IMP => (s, 0),
    }
}

/// The operand byte.
pub open spec fn fetch(s: CpuState, mode: AddressingMode) -> (CpuState, u8) {
    let (s1, addr) = operand(s, mode);
    rd(s1, addr)
}

/// Binary addition with carry in: the 8-bit sum and the carry out.
pub open spec fn add_with_carry(a: u8, v: u8, carry: bool) -> (u8, bool) {
    let sum = a as int + v as int + if carry {
        1int
    } else {
        0int
    };
    ((sum % 256) as u8, sum > 0xFF)
}

/// A += value + C, setting C, V, Z and N; SBC adds the complement.
pub open spec fn add_to_a_spec(s: CpuState, value: u8) -> CpuState {
    let (r, c) = add_with_carry(s.a, value, flag(s, CARRY));
    let with_carry = with_bits(s.p, CARRY, c);
    let with_overflow = with_bits(with_carry, OVERFLOW, (value ^ r) & (r ^ s.a) & 0x80 != 0);
    CpuState { a: r, p: zn(with_overflow, r), ..s }
}

#[verifier::opaque]
pub open spec fn lda_spec(s: CpuState, mode: AddressingMode) -> CpuState {
    let (s1, v) = fetch(s, mode);
    with_zn(CpuState { a: v, ..s1 }, v)
}

#[verifier::opaque]
pub open spec fn ldx_spec(s: CpuState, mode: AddressingMode) -> CpuState {
    let (s1, v) = fetch(s, mode);
    with_zn(CpuState { x: v, ..s1 }, v)
}

#[verifier::opaque]
pub open spec fn ldy_spec(s: CpuState, mode: AddressingMode) -> CpuState {
    let (s1, v) = fetch(s, mode);
    with_zn(CpuState { y: v, ..s1 }, v)
}

#[verifier::opaque]
pub open spec fn store_spec(s: CpuState, mode: AddressingMode, v: u8) -> CpuState {
    let (s1, addr) = operand(s, mode);
    wr(s1, addr, v)
}

#[verifier::opaque]
pub open spec fn lax_spec(s: CpuState, mode: AddressingMode) -> CpuState {
    let (s1, v) = fetch(s, mode);
    with_zn(CpuState { a: v, x: v, ..s1 }, v)
}

#[verifier::opaque]
pub open spec fn las_spec(s: CpuState, mode: AddressingMode) -> CpuState {
    let (s1, v) = fetch(s, mode);
    let r = v & s1.sp;
    with_zn(CpuState { a: r, x: r, sp: r, ..s1 }, r)
}

#[verifier::opaque]
pub open spec fn php_spec(s: CpuState) -> CpuState {
    push(s, s.p | BREAK | BREAK_2)
}

#[verifier::opaque]
pub open spec fn pla_spec(s: CpuState) -> CpuState {
    let (s1, v) = pop(s);
    with_zn(CpuState { a: v, ..s1 }, v)
}

/// The status as PLP and RTI load it: B cleared, U set.
pub open spec fn pulled_status(v: u8) -> u8 {
    (v & !BREAK) | BREAK_2
}

#[verifier::opaque]
pub open spec fn plp_spec(s: CpuState) -> CpuState {
    let (s1, v) = pop(s);
    CpuState { p: pulled_status(v), ..s1 }
}

#[verifier::opaque]
/// AND, EOR or ORA of the operand into A, for `operation` 0, 1 or 2.
pub open spec fn logic_spec(s: CpuState, mode: AddressingMode, operation: u8) -> CpuState {
    let (s1, v) = fetch(s, mode);
    let r = if operation == 0 {
        s1.a & v
    } else if operation == 1 {
        s1.a ^ v
    } else {
        s1.a | v
    };
    with_zn(CpuState { a: r, ..s1 }, r)
}

#[verifier::opaque]
pub open spec fn bit_spec(s: CpuState, mode: AddressingMode) -> CpuState {
    let (s1, v) = fetch(s, mode);
    let with_zero = with_bits(s1.p, ZERO, s1.a & v == 0);
    let with_negative = with_bits(with_zero, NEGATIVE, v & 0x80 > 0);
    CpuState { p: with_bits(with_negative, OVERFLOW, v & 0x40 > 0), ..s1 }
}

#[verifier::opaque]
pub open spec fn compare_spec(s: CpuState, mode: AddressingMode, reg: u8) -> CpuState {
    let (s1, v) = fetch(s, mode);
    with_zn(with_flag(s1, CARRY, v <= reg), reg.wrapping_sub(v))
}

#[verifier::opaque]
pub open spec fn adc_spec(s: CpuState, mode: AddressingMode) -> CpuState {
    let (s1, v) = fetch(s, mode);
    add_to_a_spec(s1, v)
}

#[verifier::opaque]
pub open spec fn sbc_spec(s: CpuState, mode: AddressingMode) -> CpuState {
    let (s1, v) = fetch(s, mode);
    add_to_a_spec(s1, !v)
}

/// Read, modify and write back a memory cell; the result and the state.
pub open spec fn modify(s: CpuState, mode: AddressingMode, operation: u8) -> (CpuState, u8) {
    let (s1, addr) = operand(s, mode);
    let (s2, v) = rd(s1, addr);
    let c = flag(s2, CARRY);
    let (r, carry_out) = shift_spec(v, c, operation);
    let s3 = if operation < 4 {
        with_flag(s2, CARRY, carry_out)
    } else {
        s2
    };
    (wr(s3, addr, r), r)
}

/// ASL, LSR, ROL, ROR, INC or DEC of `v`, for `operation` 0 to 5: the result
/// and the bit shifted out.
pub open spec fn shift_spec(v: u8, carry: bool, operation: u8) -> (u8, bool) {
    if operation == 0 {
        (v << 1u8, v >> 7u8 == 1)
    } else if operation == 1 {
        (v >> 1u8, v & 1 == 1)
    } else if operation == 2 {
        (
            (v << 1u8) | if carry {
                1u8
            } else {
                0u8
            },
            v >> 7u8 == 1,
        )
    } else if operation == 3 {
        (
            (v >> 1u8) | if carry {
                0x80u8
            } else {
                0u8
            },
            v & 1 == 1,
        )
    } else if operation == 4 {
        (v.wrapping_add(1), carry)
    } else {
        (v.wrapping_sub(1), carry)
    }
}

/// The status after LSR: C already set, N cleared, Z from the result.
pub open spec fn lsr_flags(p: u8, r: u8) -> u8 {
    with_bits(with_bits(p, NEGATIVE, false), ZERO, r == 0)
}

#[verifier::opaque]
pub open spec fn rmw_spec(s: CpuState, mode: AddressingMode, operation: u8) -> CpuState {
    let (s1, r) = modify(s, mode, operation);
    if operation == 1 {
        CpuState { p: lsr_flags(s1.p, r), ..s1 }
    } else {
        with_zn(s1, r)
    }
}

#[verifier::opaque]
pub open spec fn shift_a_spec(s: CpuState, operation: u8) -> CpuState {
    let (r, c) = shift_spec(s.a, flag(s, CARRY), operation);
    let s1 = CpuState { a: r, ..with_flag(s, CARRY, c) };
    if operation == 1 {
        CpuState { p: lsr_flags(s1.p, r), ..s1 }
    } else {
        with_zn(s1, r)
    }
}

#[verifier::opaque]
pub open spec fn dcp_spec(s: CpuState, mode: AddressingMode) -> CpuState {
    let (s1, r) = modify(s, mode, 5);
    with_zn(with_flag(s1, CARRY, r <= s1.a), s1.a.wrapping_sub(r))
}

#[verifier::opaque]
pub open spec fn isc_spec(s: CpuState, mode: AddressingMode) -> CpuState {
    let (s1, r) = modify(s, mode, 4);
    add_to_a_spec(with_zn(s1, r), !r)
}

#[verifier::opaque]
pub open spec fn slo_spec(s: CpuState, mode: AddressingMode) -> CpuState {
    let (s1, r) = modify(s, mode, 0);
    with_zn(CpuState { a: s1.a | r, ..s1 }, s1.a | r)
}

#[verifier::opaque]
pub open spec fn rla_spec(s: CpuState, mode: AddressingMode) -> CpuState {
    let (s1, r) = modify(s, mode, 2);
    with_zn(CpuState { a: s1.a & r, ..s1 }, s1.a & r)
}

#[verifier::opaque]
pub open spec fn sre_spec(s: CpuState, mode: AddressingMode) -> CpuState {
    let (s1, r) = modify(s, mode, 1);
    with_zn(CpuState { a: s1.a ^ r, ..s1 }, s1.a ^ r)
}

#[verifier::opaque]
pub open spec fn rra_spec(s: CpuState, mode: AddressingMode) -> CpuState {
    let (s1, r) = modify(s, mode, 3);
    add_to_a_spec(with_zn(s1, r), r)
}

/// JMP (ind): a pointer at xxFF takes its high byte from xx00, as the 6502 does.
#[verifier::opaque]
pub open spec fn jmp_indirect_spec(s: CpuState) -> CpuState {
    let (s1, ptr) = rd16(s, s.pc);
    if ptr & 0xFF == 0xFF {
        let (s2, lo) = rd(s1, ptr);
        let (s3, hi) = rd(s2, ptr & 0xFF00);
        CpuState { pc: join16(hi, lo), ..s3 }
    } else {
        let (s2, target) = rd16(s1, ptr);
        CpuState { pc: target, ..s2 }
    }
}

#[verifier::opaque]
pub open spec fn jmp_absolute_spec(s: CpuState) -> CpuState {
    let (s1, target) = rd16(s, s.pc);
    CpuState { pc: target, ..s1 }
}

#[verifier::opaque]
pub open spec fn jsr_spec(s: CpuState) -> CpuState {
    let s1 = push16(s, s.pc.wrapping_add(1));
    let (s2, target) = rd16(s1, s.pc);
    CpuState { pc: target, ..s2 }
}

#[verifier::opaque]
pub open spec fn rti_spec(s: CpuState) -> CpuState {
    let (s1, v) = pop(s);
    let (s2, pc) = pop16(CpuState { p: pulled_status(v), ..s1 });
    CpuState { pc, ..s2 }
}

#[verifier::opaque]
pub open spec fn rts_spec(s: CpuState) -> CpuState {
    let (s1, v) = pop16(s);
    CpuState { pc: v.wrapping_add(1), ..s1 }
}

/// Sign-extends a branch offset.
pub open spec fn offset16(b: u8) -> u16 {
    if b < 0x80 {
        b as u16
    } else {
        (b as u16 + 0xFF00) as u16
    }
}

#[verifier::opaque]
pub open spec fn branch_spec(s: CpuState, taken: bool) -> CpuState {
    if taken {
        let (s1, off) = rd(s, s.pc);
        CpuState { pc: s.pc.wrapping_add(1).wrapping_add(offset16(off)), ..s1 }
    } else {
        s
    }
}

/// BRK: pushes PC + 1 and the status with B and U set, sets I and jumps
/// through the IRQ vector.
#[verifier::opaque]
pub open spec fn brk_spec(s: CpuState) -> CpuState {
    let s1 = push16(s, s.pc.wrapping_add(1));
    let s2 = push(s1, s1.p | BREAK | BREAK_2);
    let (s3, target) = rd16(with_flag(s2, INTERRUPT_MASK, true), IRQ_VECTOR);
    CpuState { pc: target, ..s3 }
}

/// NMI service: pushes PC and the status with B clear and U set, lets two
/// cycles pass, loads PC from the NMI vector and sets I.
#[verifier::opaque]
pub open spec fn nmi_spec(s: CpuState) -> CpuState {
    let s1 = push16(s, s.pc);
    let s2 = push(s1, (s1.p & !BREAK) | BREAK_2);
    let s3 = CpuState { bus: bus_tick(s2.bus, 2).0, ..s2 };
    let (s4, target) = rd16(s3, NMI_VECTOR);
    with_flag(CpuState { pc: target, ..s4 }, INTERRUPT_MASK, true)
}


proof fn lemma_stack_address(sp: u8)
    ensures
        ((STACK + sp) as u16) <= 0x1FF,
        ((STACK + sp) as u16) & 0x7FF == (STACK + sp) as u16,
        ((STACK + sp) as u16) == 0x0100 | (sp as u16),
{
    let a = (STACK + sp) as u16;
    assert(a & 0x7FF == a && a == 0x0100 | (sp as u16)) by (bit_vector)
        requires
            a == 0x100 + sp,
    ;
}

/// A push writes its byte at 0x0100 | SP; the pop that follows returns that
/// byte and brings SP back.
pub proof fn lemma_push_pop(s: CpuState, v: u8)
    requires
        s.bus.wf(),
    ensures
        bus_read(push(s, v).bus, 0x0100 | (s.sp as u16)).1 == v,
        pop(push(s, v)).1 == v,
        pop(push(s, v)).0.sp == s.sp,
{
    lemma_stack_address(s.sp);
    lemma_stack_address(s.sp.wrapping_sub(1).wrapping_add(1));
}

/// PHP then PLP keeps C, Z, I, D, V and N; B comes back cleared and U set,
/// and SP is where it was.
pub proof fn lemma_php_plp(s: CpuState)
    requires
        s.bus.wf(),
    ensures
        plp_spec(php_spec(s)).p & 0b1100_1111 == s.p & 0b1100_1111,
        plp_spec(php_spec(s)).p & BREAK == 0,
        plp_spec(php_spec(s)).p & BREAK_2 != 0,
        plp_spec(php_spec(s)).sp == s.sp,
{
    reveal(php_spec);
    reveal(plp_spec);
    lemma_push_pop(s, s.p | BREAK | BREAK_2);
    let p = s.p;
    assert((((p | 0x10 | 0x20) & !0x10u8) | 0x20) & 0b1100_1111 == p & 0b1100_1111 && (((p | 0x10
        | 0x20) & !0x10u8) | 0x20) & 0x10 == 0 && (((p | 0x10 | 0x20) & !0x10u8) | 0x20) & 0x20
        != 0) by (bit_vector);
}

/// Adding b with carry c and then subtracting b with the opposite carry
/// (SBC adds the complement) gives a back.
pub proof fn lemma_adc_then_sbc(a: u8, b: u8, c: bool)
    ensures
        add_with_carry(add_with_carry(a, b, c).0, !b, !c).0 == a,
{
    assert(!b == 255 - b) by (bit_vector);
}

/// The bus is well formed after the operation, and its clock stood still.
pub open spec fn kept(pre: CpuState, post: CpuState) -> bool {
    post.bus.wf() && post.bus.same_clock(pre.bus)
}

/// Loads, stores, register transfers and the stack.
#[verifier::opaque]
pub open spec fn execute_load_store_spec(s: CpuState, opcode: u8) -> (CpuState, bool) {
    let mode = opcode_spec(opcode).addressing_mode;
    match opcode {
        0xA9u8 | 0xADu8 | 0xBDu8 | 0xB9u8 | 0xA5u8 | 0xB5u8 | 0xA1u8 | 0xB1u8 => (lda_spec(s, mode), true),
        0xA2u8 | 0xAEu8 | 0xBEu8 | 0xA6u8 | 0xB6u8 => (ldx_spec(s, mode), true),
        0xA0u8 | 0xACu8 | 0xBCu8 | 0xA4u8 | 0xB4u8 => (ldy_spec(s, mode), true),
        0x8Du8 | 0x9Du8 | 0x99u8 | 0x85u8 | 0x95u8 | 0x81u8 | 0x91u8 => (store_spec(s, mode, s.a), true),
        0x8Eu8 | 0x86u8 | 0x96u8 => (store_spec(s, mode, s.x), true),
        0x8Cu8 | 0x84u8 | 0x94u8 => (store_spec(s, mode, s.y), true),
        0xAAu8 => (with_zn(CpuState { x: s.a, ..s }, s.a), true),
        0xA8u8 => (with_zn(CpuState { y: s.a, ..s }, s.a), true),
        0xBAu8 => (with_zn(CpuState { x: s.sp, ..s }, s.sp), true),
        0x8Au8 => (with_zn(CpuState { a: s.x, ..s }, s.x), true),
        0x9Au8 => (CpuState { sp: s.x, ..s }, true),
        0x98u8 => (with_zn(CpuState { a: s.y, ..s }, s.y), true),
        0x48u8 => (push(s, s.a), true),
        0x08u8 => (php_spec(s), true),
        0x68u8 => (pla_spec(s), true),
        0x28u8 => (plp_spec(s), true),
        _ => (s, false),
    }
}

/// Logic, arithmetic and comparisons.
#[verifier::opaque]
pub open spec fn execute_arithmetic_spec(s: CpuState, opcode: u8) -> (CpuState, bool) {
    let mode = opcode_spec(opcode).addressing_mode;
    match opcode {
        0x29u8 | 0x2Du8 | 0x3Du8 | 0x39u8 | 0x25u8 | 0x35u8 | 0x21u8 | 0x31u8 => (logic_spec(s, mode, 0), true),
        0x2Cu8 | 0x24u8 => (bit_spec(s, mode), true),
        0x49u8 | 0x4Du8 | 0x5Du8 | 0x59u8 | 0x45u8 | 0x55u8 | 0x41u8 | 0x51u8 => (logic_spec(s, mode, 1), true),
        0x09u8 | 0x0Du8 | 0x1Du8 | 0x19u8 | 0x05u8 | 0x15u8 | 0x01u8 | 0x11u8 => (logic_spec(s, mode, 2), true),
        0x69u8 | 0x6Du8 | 0x7Du8 | 0x79u8 | 0x65u8 | 0x75u8 | 0x61u8 | 0x71u8 => (adc_spec(s, mode), true),
        0xC9u8 | 0xCDu8 | 0xDDu8 | 0xD9u8 | 0xC5u8 | 0xD5u8 | 0xC1u8 | 0xD1u8 => (compare_spec(s, mode, s.a), true),
        0xE0u8 | 0xECu8 | 0xE4u8 => (compare_spec(s, mode, s.x), true),
        0xC0u8 | 0xCCu8 | 0xC4u8 => (compare_spec(s, mode, s.y), true),
        0xE9u8 | 0xEDu8 | 0xEBu8 | 0xFDu8 | 0xF9u8 | 0xE5u8 | 0xF5u8 | 0xE1u8 | 0xF1u8 => (sbc_spec(s, mode), true),
        _ => (s, false),
    }
}

/// Shifts, rotates, increments and decrements.
#[verifier::opaque]
pub open spec fn execute_read_modify_write_spec(s: CpuState, opcode: u8) -> (CpuState, bool) {
    let mode = opcode_spec(opcode).addressing_mode;
    match opcode {
        0x0Au8 => (shift_a_spec(s, 0), true),
        0x0Eu8 | 0x1Eu8 | 0x06u8 | 0x16u8 => (rmw_spec(s, mode, 0), true),
        0x4Au8 => (shift_a_spec(s, 1), true),
        0x4Eu8 | 0x5Eu8 | 0x46u8 | 0x56u8 => (rmw_spec(s, mode, 1), true),
        0x2Au8 => (shift_a_spec(s, 2), true),
        0x2Eu8 | 0x3Eu8 | 0x26u8 | 0x36u8 => (rmw_spec(s, mode, 2), true),
        0x6Au8 => (shift_a_spec(s, 3), true),
        0x6Eu8 | 0x7Eu8 | 0x66u8 | 0x76u8 => (rmw_spec(s, mode, 3), true),
        0xCEu8 | 0xDEu8 | 0xC6u8 | 0xD6u8 => (rmw_spec(s, mode, 5), true),
        0xCAu8 => (with_zn(CpuState { x: s.x.wrapping_sub(1), ..s }, s.x.wrapping_sub(1)), true),
        0x88u8 => (with_zn(CpuState { y: s.y.wrapping_sub(1), ..s }, s.y.wrapping_sub(1)), true),
        0xEEu8 | 0xFEu8 | 0xE6u8 | 0xF6u8 => (rmw_spec(s, mode, 4), true),
        0xE8u8 => (with_zn(CpuState { x: s.x.wrapping_add(1), ..s }, s.x.wrapping_add(1)), true),
        0xC8u8 => (with_zn(CpuState { y: s.y.wrapping_add(1), ..s }, s.y.wrapping_add(1)), true),
        _ => (s, false),
    }
}

/// Jumps, branches, BRK, returns, flag changes and NOPs.
#[verifier::opaque]
pub open spec fn execute_control_spec(s: CpuState, opcode: u8) -> (CpuState, bool) {
    let mode = opcode_spec(opcode).addressing_mode;
    match opcode {
        0x00u8 => (brk_spec(s), true),
        0x4Cu8 => (jmp_absolute_spec(s), true),
        0x6Cu8 => (jmp_indirect_spec(s), true),
        0x20u8 => (jsr_spec(s), true),
        0x40u8 => (rti_spec(s), true),
        0x60u8 => (rts_spec(s), true),
        0x90u8 => (branch_spec(s, !flag(s, CARRY)), true),
        0xB0u8 => (branch_spec(s, flag(s, CARRY)), true),
        0xF0u8 => (branch_spec(s, flag(s, ZERO)), true),
        0x30u8 => (branch_spec(s, flag(s, NEGATIVE)), true),
        0xD0u8 => (branch_spec(s, !flag(s, ZERO)), true),
        0x10u8 => (branch_spec(s, !flag(s, NEGATIVE)), true),
        0x50u8 => (branch_spec(s, !flag(s, OVERFLOW)), true),
        0x70u8 => (branch_spec(s, flag(s, OVERFLOW)), true),
        0x18u8 => (with_flag(s, CARRY, false), true),
        0xD8u8 => (with_flag(s, DECIMAL, false), true),
        0x58u8 => (with_flag(s, INTERRUPT_MASK, false), true),
        0xB8u8 => (with_flag(s, OVERFLOW, false), true),
        0x38u8 => (with_flag(s, CARRY, true), true),
        0xF8u8 => (with_flag(s, DECIMAL, true), true),
        0x78u8 => (with_flag(s, INTERRUPT_MASK, true), true),
        0x1Au8 | 0x3Au8 | 0x5Au8 | 0x7Au8 | 0xDAu8 | 0xEAu8 | 0xFAu8 | 0x80u8 | 0x82u8 | 0x89u8 | 0xC2u8 | 0xE2u8 | 0x0Cu8 | 0x1Cu8 | 0x3Cu8 | 0x5Cu8 | 0x7Cu8 | 0xDCu8 | 0xFCu8 | 0x04u8 | 0x44u8 | 0x64u8 | 0x14u8 | 0x34u8 | 0x54u8 | 0x74u8 | 0xD4u8 | 0xF4u8 => (s, true),
        _ => (s, false),
    }
}

/// The unofficial opcodes: LAX, SAX, DCP, ISC, SLO, RLA, SRE, RRA and LAS.
#[verifier::opaque]
pub open spec fn execute_unofficial_spec(s: CpuState, opcode: u8) -> (CpuState, bool) {
    let mode = opcode_spec(opcode).addressing_mode;
    match opcode {
        0xABu8 | 0xAFu8 | 0xBFu8 | 0xA7u8 | 0xB7u8 | 0xA3u8 | 0xB3u8 => (lax_spec(s, mode), true),
        0x8Fu8 | 0x87u8 | 0x97u8 | 0x83u8 => (store_spec(s, mode, s.a & s.x), true),
        0xCFu8 | 0xDFu8 | 0xDBu8 | 0xC7u8 | 0xD7u8 | 0xC3u8 | 0xD3u8 => (dcp_spec(s, mode), true),
        0xEFu8 | 0xFFu8 | 0xFBu8 | 0xE7u8 | 0xF7u8 | 0xE3u8 | 0xF3u8 => (isc_spec(s, mode), true),
        0x0Fu8 | 0x1Fu8 | 0x1Bu8 | 0x07u8 | 0x17u8 | 0x03u8 | 0x13u8 => (slo_spec(s, mode), true),
        0x2Fu8 | 0x3Fu8 | 0x3Bu8 | 0x27u8 | 0x37u8 | 0x23u8 | 0x33u8 => (rla_spec(s, mode), true),
        0x4Fu8 | 0x5Fu8 | 0x5Bu8 | 0x47u8 | 0x57u8 | 0x43u8 | 0x53u8 => (sre_spec(s, mode), true),
        0x6Fu8 | 0x7Fu8 | 0x7Bu8 | 0x67u8 | 0x77u8 | 0x63u8 | 0x73u8 => (rra_spec(s, mode), true),
        0xBBu8 => (las_spec(s, mode), true),
        _ => (s, false),
    }
}

/// One instruction, with PC on its first operand byte: the state after it,
/// and whether the opcode is one this CPU executes.
#[verifier::opaque]
pub open spec fn execute_spec(s: CpuState, opcode: u8) -> (CpuState, bool) {
    if execute_load_store_spec(s, opcode).1 {
        execute_load_store_spec(s, opcode)
    } else if execute_arithmetic_spec(s, opcode).1 {
        execute_arithmetic_spec(s, opcode)
    } else if execute_read_modify_write_spec(s, opcode).1 {
        execute_read_modify_write_spec(s, opcode)
    } else if execute_control_spec(s, opcode).1 {
        execute_control_spec(s, opcode)
    } else if execute_unofficial_spec(s, opcode).1 {
        execute_unofficial_spec(s, opcode)
    } else {
        (s, false)
    }
}

/// One step: a pending NMI is served first, then one instruction is fetched,
/// executed and timed; PC moves past it unless it moved PC itself.
#[verifier::opaque]
pub open spec fn step_spec(s0: CpuState) -> (CpuState, StepOutcome) {
    let s = if s0.bus.ppu.nmi is Some {
        nmi_spec(CpuState { bus: BusState { ppu: PpuState { nmi: None, ..s0.bus.ppu }, ..s0.bus }, ..s0 })
    } else {
        s0
    };
    let (s1, opcode) = rd(s, s.pc);
    let s2 = CpuState { pc: s1.pc.wrapping_add(1), ..s1 };
    let op = opcode_spec(opcode);
    let (s3, known) = execute_spec(s2, opcode);
    if !known {
        (s3, StepOutcome::UnknownOpcode(opcode))
    } else if s3.bus.illegal_write {
        (s3, StepOutcome::IllegalWrite)
    } else {
        let (b4, frame_ready) = bus_tick(s3.bus, op.cycles);
        let s4 = CpuState { bus: b4, ..s3 };
        let s5 = if s4.pc == s2.pc {
            CpuState { pc: s4.pc.wrapping_add((op.length - 1) as u16), ..s4 }
        } else {
            s4
        };
        (
            s5,
            if opcode == 0 {
                StepOutcome::Break { frame_ready }
            } else {
                StepOutcome::Executed { opcode, frame_ready }
            },
        )
    }
}

/// Steps until one does not end in `Executed`, or `n` steps have run.
pub open spec fn run_spec(s: CpuState, n: nat) -> (CpuState, StepOutcome)
    decreases n,
{
    let (s1, r) = step_spec(s);
    if n <= 1 {
        (s1, r)
    } else if r is Executed {
        run_spec(s1, (n - 1) as nat)
    } else {
        (s1, r)
    }
}

/// Where `load` places a program.
pub const LOAD_ADDRESS: u16 = 0x8600;

/// The bus after the first `n` bytes of `program` are placed from
/// `LOAD_ADDRESS` on.
pub open spec fn loaded(b: BusState, program: Seq<u8>, n: nat) -> BusState
    decreases n,
{
    if n == 0 {
        b
    } else {
        poke_prg_spec(loaded(b, program, (n - 1) as nat), (LOAD_ADDRESS + n - 1) as u16, program[n - 1])
    }
}

/// The state after power-on reset: registers cleared, SP and P at their
/// reset values, PC from the reset vector.
pub open spec fn reset_spec(s: CpuState) -> CpuState {
    let s1 = CpuState { a: 0, x: 0, y: 0, sp: STACK_RESET, p: STATUS_RESET, ..s };
    let (s2, pc) = rd16(s1, RESET_VECTOR);
    CpuState { pc, ..s2 }
}

impl Memory for CPU {
    open spec fn ready(&self) -> bool {
        self.bus.wf()
    }

    open spec fn reads(&self, addr: u16, value: u8, after: CPU) -> bool {
        (after@, value) == rd(self@, addr) && kept(self@, after@)
    }

    open spec fn writes(&self, addr: u16, value: u8, after: CPU) -> bool {
        after@ == wr(self@, addr, value) && kept(self@, after@)
    }

    fn mem_read(&mut self, addr: u16) -> (r: u8) {
        self.bus.mem_read(addr)
    }

    fn mem_write(&mut self, addr: u16, value: u8) {
        self.bus.mem_write(addr, value)
    }
}

impl CPU {
    pub open spec fn wf(&self) -> bool {
        self.bus.wf()
    }

    pub fn new(bus: Bus) -> (r: Self)
        ensures
            r@ == (CpuState { a: 0, x: 0, y: 0, pc: 0, sp: STACK_RESET, p: STATUS_RESET, bus: bus@ }),
    {
        CPU { reg_a: 0, reg_x: 0, reg_y: 0, reg_pc: 0, reg_sp: STACK_RESET, reg_status: STATUS_RESET, bus }
    }

    pub fn mem_read_u16(&mut self, addr: u16) -> (r: u16)
        requires
            old(self)@.bus.wf(),
        ensures
            kept(old(self)@, final(self)@),
            (final(self)@, r) == rd16(old(self)@, addr),
    {
        let ll = self.mem_read(addr);
        let hh = self.mem_read(addr.wrapping_add(1));
        ((hh as u16) << 8) | (ll as u16)
    }

    pub fn mem_write_u16(&mut self, addr: u16, value: u16)
        requires
            old(self)@.bus.wf(),
        ensures
            kept(old(self)@, final(self)@),
            final(self)@ == wr16(old(self)@, addr, value),
    {
        self.mem_write(addr, (value & 0xFF) as u8);
        self.mem_write(addr.wrapping_add(1), (value >> 8) as u8);
    }

    /// The effective address of the operand; PC is on the first operand byte.
    pub fn resolve_addressing_mode(&mut self, mode: &AddressingMode) -> (r: u16)
        requires
            old(self)@.bus.wf(),
        ensures
            kept(old(self)@, final(self)@),
            (final(self)@, r) == operand(old(self)@, *mode),
    {
        match mode {
            AddressingMode::IMM => self.reg_pc,
            AddressingMode::REL => self.reg_pc,
            AddressingMode::ZP => self.mem_read(self.reg_pc) as u16,
            AddressingMode::ZP_X => {
                let base_address = self.mem_read(self.reg_pc);
                base_address.wrapping_add(self.reg_x) as u16
            },
            AddressingMode::ZP_Y => {
                let base_address = self.mem_read(self.reg_pc);
                base_address.wrapping_add(self.reg_y) as u16
            },
            AddressingMode::ABS => self.mem_read_u16(self.reg_pc),
            AddressingMode::ABS_X => {
                let base_address = self.mem_read_u16(self.reg_pc);
                base_address.wrapping_add(self.reg_x as u16)
            },
            AddressingMode::ABS_Y => {
                let base_address = self.mem_read_u16(self.reg_pc);
                base_address.wrapping_add(self.reg_y as u16)
            },
            AddressingMode::IND_X => {
                let base_address = self.mem_read(self.reg_pc).wrapping_add(self.reg_x);
                let ll = self.mem_read(base_address as u16);
                let hh = self.mem_read(base_address.wrapping_add(1) as u16);
                ((hh as u16) << 8) | (ll as u16)
            },
            AddressingMode::IND_Y => {
                let base_address = self.mem_read(self.reg_pc);
                let ll = self.mem_read(base_address as u16);
                let hh = self.mem_read(base_address.wrapping_add(1) as u16);
                let llhh = ((hh as u16) << 8) | (ll as u16);
                llhh.wrapping_add(self.reg_y as u16)
            },
            AddressingMode::ACC => self.reg_a as u16,
            AddressingMode::IMP => 0,
        }
    }

    /// Places `cart` in the PRG image from 0x8600 on and points the reset
    /// vector there.
    pub fn load(&mut self, cart: Vec<u8>)
        requires
            old(self)@.bus.wf(),
            cart@.len() <= 0x1_0000 - LOAD_ADDRESS,
        ensures
            final(self)@ == (CpuState {
                bus: poke_prg_spec(
                    poke_prg_spec(loaded(old(self)@.bus, cart@, cart@.len()), RESET_VECTOR, 0x00),
                    (RESET_VECTOR + 1) as u16,
                    0x86,
                ),
                ..old(self)@
            }),
            final(self)@.bus.wf(),
    {
        let mut i: usize = 0;
        while i < cart.len()
            invariant
                i <= cart@.len(),
                cart@.len() <= 0x1_0000 - LOAD_ADDRESS,
                self@.bus.wf(),
                self@ == (CpuState { bus: loaded(old(self)@.bus, cart@, i as nat), ..old(self)@ }),
            decreases cart@.len() - i,
        {
            self.bus.poke_prg(LOAD_ADDRESS + i as u16, cart[i]);
            i = i + 1;
        }
        self.bus.poke_prg(RESET_VECTOR, 0x00);
        self.bus.poke_prg(RESET_VECTOR + 1, 0x86);
    }

    /// Loads `cart`, resets, and runs at most `max_steps` steps.
    pub fn mem_run_prg(&mut self, cart: Vec<u8>, max_steps: u64) -> (r: StepOutcome)
        requires
            old(self)@.bus.wf(),
            cart@.len() <= 0x1_0000 - LOAD_ADDRESS,
            max_steps >= 1,
        ensures
            final(self)@.bus.wf(),
            (final(self)@, r) == run_spec(
                reset_spec(
                    CpuState {
                        bus: poke_prg_spec(
                            poke_prg_spec(loaded(old(self)@.bus, cart@, cart@.len()), RESET_VECTOR, 0x00),
                            (RESET_VECTOR + 1) as u16,
                            0x86,
                        ),
                        ..old(self)@
                    },
                ),
                max_steps as nat,
            ),
    {
        self.load(cart);
        self.reset();
        self.run(max_steps)
    }

    /// Power-on reset.
    pub fn reset(&mut self)
        requires
            old(self)@.bus.wf(),
        ensures
            kept(old(self)@, final(self)@),
            final(self)@ == reset_spec(old(self)@),
    {
        self.reg_a = 0;
        self.reg_x = 0;
        self.reg_y = 0;
        self.reg_sp = STACK_RESET;
        self.reg_status = STATUS_RESET;
        self.reg_pc = self.mem_read_u16(RESET_VECTOR);
    }

    /// Pushes one byte: a write at 0x0100 | SP, then SP goes down.
    pub fn stack_push(&mut self, value: u8)
        requires
            old(self)@.bus.wf(),
        ensures
            kept(old(self)@, final(self)@),
            final(self)@ == push(old(self)@, value),
    {
        self.mem_write(STACK + self.reg_sp as u16, value);
        self.reg_sp = self.reg_sp.wrapping_sub(1);
    }

    pub fn stack_push_u16(&mut self, value: u16)
        requires
            old(self)@.bus.wf(),
        ensures
            kept(old(self)@, final(self)@),
            final(self)@ == push16(old(self)@, value),
    {
        let hh = (value >> 8) as u8;
        let ll = (value & 0xFF) as u8;
        self.stack_push(hh);
        self.stack_push(ll);
    }

    /// Pops one byte: SP goes up, then 0x0100 | SP is read.
    pub fn stack_pop(&mut self) -> (r: u8)
        requires
            old(self)@.bus.wf(),
        ensures
            kept(old(self)@, final(self)@),
            (final(self)@, r) == pop(old(self)@),
    {
        self.reg_sp = self.reg_sp.wrapping_add(1);
        self.mem_read(STACK + self.reg_sp as u16)
    }

    pub fn stack_pop_u16(&mut self) -> (r: u16)
        requires
            old(self)@.bus.wf(),
        ensures
            kept(old(self)@, final(self)@),
            (final(self)@, r) == pop16(old(self)@),
    {
        let ll = self.stack_pop();
        let hh = self.stack_pop();
        ((hh as u16) << 8) | (ll as u16)
    }

    /// Serves an NMI.
    pub fn interrupt_nmi(&mut self)
        requires
            old(self)@.bus.wf(),
        ensures
            final(self)@.bus.wf(),
            final(self)@ == nmi_spec(old(self)@),
            final(self)@.bus.cycles == (old(self)@.bus.cycles as int + 2) % 0x1_0000_0000_0000_0000,
            final(self)@.bus.ppu.frame_position() == (old(self)@.bus.ppu.frame_position() + 6)
                % DOTS_PER_FRAME as int,
    {
        proof {
            reveal(nmi_spec);
        }
        self.stack_push_u16(self.reg_pc);
        let flags = (self.reg_status & !BREAK) | BREAK_2;
        self.stack_push(flags);
        proof {
            lemma_tick_clock(self@.bus, 2);
        }
        self.bus.tick(2);
        self.reg_pc = self.mem_read_u16(NMI_VECTOR);
        self.reg_status = self.reg_status | INTERRUPT_MASK;
    }

    /// Runs one step: serves a pending NMI, then fetches, executes and times
    /// one instruction.
    pub fn step(&mut self) -> (r: StepOutcome)
        requires
            old(self)@.bus.wf(),
        ensures
            final(self)@.bus.wf(),
            (final(self)@, r) == step_spec(old(self)@),
            r is Executed ==> {
                let cycles = opcode_spec(r->opcode).cycles + if old(self)@.bus.ppu.nmi is Some {
                    2int
                } else {
                    0int
                };
                &&& final(self)@.bus.cycles == (old(self)@.bus.cycles as int + cycles)
                    % 0x1_0000_0000_0000_0000
                &&& final(self)@.bus.ppu.frame_position() == (old(self)@.bus.ppu.frame_position()
                    + 3 * cycles) % DOTS_PER_FRAME as int
            },
    {
        proof {
            reveal(step_spec);
        }
        if self.bus.poll_nmi_status().is_some() {
            self.interrupt_nmi();
        }
        let opcode = self.mem_read(self.reg_pc);
        self.reg_pc = self.reg_pc.wrapping_add(1);
        let instruction = lookup(opcode);
        let pc_snapshot = self.reg_pc;
        let ghost before = self@;
        let known = self.execute(opcode, &instruction.addressing_mode);
        if !known {
            return StepOutcome::UnknownOpcode(opcode);
        }
        if self.bus.illegal_write {
            return StepOutcome::IllegalWrite;
        }
        proof {
            lemma_tick_clock(self@.bus, instruction.cycles);
            let c = instruction.cycles as int;
            lemma_add_mod_noop(old(self)@.bus.cycles as int + 2, c, 0x1_0000_0000_0000_0000);
            lemma_add_mod_noop(old(self)@.bus.ppu.frame_position() + 6, 3 * c, DOTS_PER_FRAME as int);
            assert(c % 0x1_0000_0000_0000_0000 == c);
            assert((3 * c) % (DOTS_PER_FRAME as int) == 3 * c);
        }
        let frame_ready = self.bus.tick(instruction.cycles);
        if pc_snapshot == self.reg_pc {
            self.reg_pc = self.reg_pc.wrapping_add((instruction.length - 1) as u16);
        }
        if opcode == 0 {
            StepOutcome::Break { frame_ready }
        } else {
            StepOutcome::Executed { opcode, frame_ready }
        }
    }

    /// Steps until a step does not end in `Executed` (BRK, an unknown opcode,
    /// an illegal write) or `max_steps` steps have run; returns the last
    /// outcome.
    pub fn run(&mut self, max_steps: u64) -> (r: StepOutcome)
        requires
            old(self)@.bus.wf(),
            max_steps >= 1,
        ensures
            final(self)@.bus.wf(),
            (final(self)@, r) == run_spec(old(self)@, max_steps as nat),
    {
        let mut left = max_steps;
        loop
            invariant
                1 <= left <= max_steps,
                self@.bus.wf(),
                run_spec(self@, left as nat) == run_spec(old(self)@, max_steps as nat),
            decreases left,
        {
            let r = self.step();
            if left <= 1 {
                return r;
            }
            match r {
                StepOutcome::Executed { .. } => {},
                _ => {
                    return r;
                },
            }
            left = left - 1;
        }
    }

    /// Runs the handler of `opcode`; false when no instruction has it.
    fn execute(&mut self, opcode: u8, mode: &AddressingMode) -> (known: bool)
        requires
            old(self)@.bus.wf(),
            *mode == opcode_spec(opcode).addressing_mode,
        ensures
            kept(old(self)@, final(self)@),
            (final(self)@, known) == execute_spec(old(self)@, opcode),
    {
        proof {
            reveal(execute_spec);
        }
        if self.execute_load_store(opcode, mode) {
            return true;
        }
        if self.execute_arithmetic(opcode, mode) {
            return true;
        }
        if self.execute_read_modify_write(opcode, mode) {
            return true;
        }
        if self.execute_control(opcode, mode) {
            return true;
        }
        if self.execute_unofficial(opcode, mode) {
            return true;
        }
        false
    }

    /// Loads, stores, register transfers and the stack.
    fn execute_load_store(&mut self, opcode: u8, mode: &AddressingMode) -> (known: bool)
        requires
            old(self)@.bus.wf(),
            *mode == opcode_spec(opcode).addressing_mode,
        ensures
            kept(old(self)@, final(self)@),
            (final(self)@, known) == execute_load_store_spec(old(self)@, opcode),
            !known ==> final(self)@ == old(self)@,
    {
        proof {
            reveal(execute_load_store_spec);
        }
        match opcode {
            0xA9u8 | 0xADu8 | 0xBDu8 | 0xB9u8 | 0xA5u8 | 0xB5u8 | 0xA1u8 | 0xB1u8 => {
                self.lda(mode);
                true
            },
            0xA2u8 | 0xAEu8 | 0xBEu8 | 0xA6u8 | 0xB6u8 => {
                self.ldx(mode);
                true
            },
            0xA0u8 | 0xACu8 | 0xBCu8 | 0xA4u8 | 0xB4u8 => {
                self.ldy(mode);
                true
            },
            0x8Du8 | 0x9Du8 | 0x99u8 | 0x85u8 | 0x95u8 | 0x81u8 | 0x91u8 => {
                self.sta(mode);
                true
            },
            0x8Eu8 | 0x86u8 | 0x96u8 => {
                self.stx(mode);
                true
            },
            0x8Cu8 | 0x84u8 | 0x94u8 => {
                self.sty(mode);
                true
            },
            0xAAu8 => {
                self.tax();
                true
            },
            0xA8u8 => {
                self.tay();
                true
            },
            0xBAu8 => {
                self.tsx();
                true
            },
            0x8Au8 => {
                self.txa();
                true
            },
            0x9Au8 => {
                self.txs();
                true
            },
            0x98u8 => {
                self.tya();
                true
            },
            0x48u8 => {
                self.pha();
                true
            },
            0x08u8 => {
                self.php();
                true
            },
            0x68u8 => {
                self.pla();
                true
            },
            0x28u8 => {
                self.plp();
                true
            },
            _ => false,
        }
    }

    /// Logic, arithmetic and comparisons.
    fn execute_arithmetic(&mut self, opcode: u8, mode: &AddressingMode) -> (known: bool)
        requires
            old(self)@.bus.wf(),
            *mode == opcode_spec(opcode).addressing_mode,
        ensures
            kept(old(self)@, final(self)@),
            (final(self)@, known) == execute_arithmetic_spec(old(self)@, opcode),
            !known ==> final(self)@ == old(self)@,
    {
        proof {
            reveal(execute_arithmetic_spec);
        }
        match opcode {
            0x29u8 | 0x2Du8 | 0x3Du8 | 0x39u8 | 0x25u8 | 0x35u8 | 0x21u8 | 0x31u8 => {
                self.and(mode);
                true
            },
            0x2Cu8 | 0x24u8 => {
                self.bit(mode);
                true
            },
            0x49u8 | 0x4Du8 | 0x5Du8 | 0x59u8 | 0x45u8 | 0x55u8 | 0x41u8 | 0x51u8 => {
                self.eor(mode);
                true
            },
            0x09u8 | 0x0Du8 | 0x1Du8 | 0x19u8 | 0x05u8 | 0x15u8 | 0x01u8 | 0x11u8 => {
                self.ora(mode);
                true
            },
            0x69u8 | 0x6Du8 | 0x7Du8 | 0x79u8 | 0x65u8 | 0x75u8 | 0x61u8 | 0x71u8 => {
                self.adc(mode);
                true
            },
            0xC9u8 | 0xCDu8 | 0xDDu8 | 0xD9u8 | 0xC5u8 | 0xD5u8 | 0xC1u8 | 0xD1u8 => {
                self.cmp(mode, self.reg_a);
                true
            },
            0xE0u8 | 0xECu8 | 0xE4u8 => {
                self.cpx(mode);
                true
            },
            0xC0u8 | 0xCCu8 | 0xC4u8 => {
                self.cpy(mode);
                true
            },
            0xE9u8 | 0xEDu8 | 0xEBu8 | 0xFDu8 | 0xF9u8 | 0xE5u8 | 0xF5u8 | 0xE1u8 | 0xF1u8 => {
                self.sbc(mode);
                true
            },
            _ => false,
        }
    }

    /// Shifts, rotates, increments and decrements.
    fn execute_read_modify_write(&mut self, opcode: u8, mode: &AddressingMode) -> (known: bool)
        requires
            old(self)@.bus.wf(),
            *mode == opcode_spec(opcode).addressing_mode,
        ensures
            kept(old(self)@, final(self)@),
            (final(self)@, known) == execute_read_modify_write_spec(old(self)@, opcode),
            !known ==> final(self)@ == old(self)@,
    {
        proof {
            reveal(execute_read_modify_write_spec);
        }
        match opcode {
            0x0Au8 => {
                self.asl_a();
                true
            },
            0x0Eu8 | 0x1Eu8 | 0x06u8 | 0x16u8 => {
                self.asl(mode);
                true
            },
            0x4Au8 => {
                self.lsr_a();
                true
            },
            0x4Eu8 | 0x5Eu8 | 0x46u8 | 0x56u8 => {
                self.lsr(mode);
                true
            },
            0x2Au8 => {
                self.rol_a();
                true
            },
            0x2Eu8 | 0x3Eu8 | 0x26u8 | 0x36u8 => {
                self.rol(mode);
                true
            },
            0x6Au8 => {
                self.ror_a();
                true
            },
            0x6Eu8 | 0x7Eu8 | 0x66u8 | 0x76u8 => {
                self.ror(mode);
                true
            },
            0xCEu8 | 0xDEu8 | 0xC6u8 | 0xD6u8 => {
                self.dec(mode);
                true
            },
            0xCAu8 => {
                self.dex();
                true
            },
            0x88u8 => {
                self.dey();
                true
            },
            0xEEu8 | 0xFEu8 | 0xE6u8 | 0xF6u8 => {
                self.inc(mode);
                true
            },
            0xE8u8 => {
                self.inx();
                true
            },
            0xC8u8 => {
                self.iny();
                true
            },
            _ => false,
        }
    }

    /// Jumps, branches, BRK, returns, flag changes and NOPs.
    fn execute_control(&mut self, opcode: u8, mode: &AddressingMode) -> (known: bool)
        requires
            old(self)@.bus.wf(),
            *mode == opcode_spec(opcode).addressing_mode,
        ensures
            kept(old(self)@, final(self)@),
            (final(self)@, known) == execute_control_spec(old(self)@, opcode),
            !known ==> final(self)@ == old(self)@,
    {
        proof {
            reveal(execute_control_spec);
        }
        match opcode {
            0x00u8 => {
                self.brk();
                true
            },
            0x4Cu8 => {
                self.jmp_absolute();
                true
            },
            0x6Cu8 => {
                self.jmp();
                true
            },
            0x20u8 => {
                self.jsr();
                true
            },
            0x40u8 => {
                self.rti();
                true
            },
            0x60u8 => {
                self.rts();
                true
            },
            0x90u8 => {
                self.bcc();
                true
            },
            0xB0u8 => {
                self.bcs();
                true
            },
            0xF0u8 => {
                self.beq();
                true
            },
            0x30u8 => {
                self.bmi();
                true
            },
            0xD0u8 => {
                self.bne();
                true
            },
            0x10u8 => {
                self.bpl();
                true
            },
            0x50u8 => {
                self.bvc();
                true
            },
            0x70u8 => {
                self.bvs();
                true
            },
            0x18u8 => {
                self.clc();
                true
            },
            0xD8u8 => {
                self.cld();
                true
            },
            0x58u8 => {
                self.cli();
                true
            },
            0xB8u8 => {
                self.clv();
                true
            },
            0x38u8 => {
                self.sec();
                true
            },
            0xF8u8 => {
                self.sed();
                true
            },
            0x78u8 => {
                self.sei();
                true
            },
            0x1Au8 | 0x3Au8 | 0x5Au8 | 0x7Au8 | 0xDAu8 | 0xEAu8 | 0xFAu8 | 0x80u8 | 0x82u8 | 0x89u8 | 0xC2u8 | 0xE2u8 | 0x0Cu8 | 0x1Cu8 | 0x3Cu8 | 0x5Cu8 | 0x7Cu8 | 0xDCu8 | 0xFCu8 | 0x04u8 | 0x44u8 | 0x64u8 | 0x14u8 | 0x34u8 | 0x54u8 | 0x74u8 | 0xD4u8 | 0xF4u8 => {
                self.nop();
                true
            },
            _ => false,
        }
    }

    /// The unofficial opcodes: LAX, SAX, DCP, ISC, SLO, RLA, SRE, RRA and LAS.
    fn execute_unofficial(&mut self, opcode: u8, mode: &AddressingMode) -> (known: bool)
        requires
            old(self)@.bus.wf(),
            *mode == opcode_spec(opcode).addressing_mode,
        ensures
            kept(old(self)@, final(self)@),
            (final(self)@, known) == execute_unofficial_spec(old(self)@, opcode),
            !known ==> final(self)@ == old(self)@,
    {
        proof {
            reveal(execute_unofficial_spec);
        }
        match opcode {
            0xABu8 | 0xAFu8 | 0xBFu8 | 0xA7u8 | 0xB7u8 | 0xA3u8 | 0xB3u8 => {
                self.lax(mode);
                true
            },
            0x8Fu8 | 0x87u8 | 0x97u8 | 0x83u8 => {
                self.sax(mode);
                true
            },
            0xCFu8 | 0xDFu8 | 0xDBu8 | 0xC7u8 | 0xD7u8 | 0xC3u8 | 0xD3u8 => {
                self.dcp(mode);
                true
            },
            0xEFu8 | 0xFFu8 | 0xFBu8 | 0xE7u8 | 0xF7u8 | 0xE3u8 | 0xF3u8 => {
                self.isc(mode);
                true
            },
            0x0Fu8 | 0x1Fu8 | 0x1Bu8 | 0x07u8 | 0x17u8 | 0x03u8 | 0x13u8 => {
                self.slo(mode);
                true
            },
            0x2Fu8 | 0x3Fu8 | 0x3Bu8 | 0x27u8 | 0x37u8 | 0x23u8 | 0x33u8 => {
                self.rla(mode);
                true
            },
            0x4Fu8 | 0x5Fu8 | 0x5Bu8 | 0x47u8 | 0x57u8 | 0x43u8 | 0x53u8 => {
                self.sre(mode);
                true
            },
            0x6Fu8 | 0x7Fu8 | 0x7Bu8 | 0x67u8 | 0x77u8 | 0x63u8 | 0x73u8 => {
                self.rra(mode);
                true
            },
            0xBBu8 => {
                self.las(mode);
                true
            },
            _ => false,
        }
    }

    fn handle_flags_z_n(&mut self, value: u8)
        ensures
            final(self)@ == with_zn(old(self)@, value),
    {
        self.reg_status = set_bits(self.reg_status, ZERO, value == 0);
        self.reg_status = set_bits(self.reg_status, NEGATIVE, value & 0x80 != 0);
    }

    /// Takes the branch, when `flag_set`, by the signed offset at PC.
    fn branch(&mut self, flag_set: bool)
        requires
            old(self)@.bus.wf(),
        ensures
            kept(old(self)@, final(self)@),
            final(self)@ == branch_spec(old(self)@, flag_set),
    {
        proof {
            reveal(branch_spec);
        }
        if flag_set {
            let jump_offset = self.mem_read(self.reg_pc);
            let offset: u16 = if jump_offset < 0x80 {
                jump_offset as u16
            } else {
                jump_offset as u16 + 0xFF00
            };
            self.reg_pc = self.reg_pc.wrapping_add(1).wrapping_add(offset);
        }
    }

    /// A += value + C, setting C, V, Z and N.
    fn add_to_a(&mut self, value: u8)
        ensures
            final(self)@ == add_to_a_spec(old(self)@, value),
    {
        let carry: u16 = if self.reg_status & CARRY != 0 {
            1
        } else {
            0
        };
        let sum = self.reg_a as u16 + value as u16 + carry;
        self.reg_status = set_bits(self.reg_status, CARRY, sum > 0xFF);
        let eval = (sum % 256) as u8;
        self.reg_status = set_bits(
            self.reg_status,
            OVERFLOW,
            (value ^ eval) & (eval ^ self.reg_a) & 0x80 != 0,
        );
        self.reg_a = eval;
        self.handle_flags_z_n(eval);
    }

    /// The shift, rotate, increment or decrement of a read-modify-write
    /// instruction (operations as in `shift_spec`); shifts and rotates set C.
    fn modify_value(&mut self, value: u8, operation: u8) -> (r: u8)
        ensures
            r == shift_spec(value, flag(old(self)@, CARRY), operation).0,
            final(self)@ == if operation < 4 {
                with_flag(old(self)@, CARRY, shift_spec(value, flag(old(self)@, CARRY), operation).1)
            } else {
                old(self)@
            },
    {
        let carry = self.reg_status & CARRY != 0;
        if operation == 0 {
            self.reg_status = set_bits(self.reg_status, CARRY, value >> 7 == 1);
            value << 1
        } else if operation == 1 {
            self.reg_status = set_bits(self.reg_status, CARRY, value & 1 == 1);
            value >> 1
        } else if operation == 2 {
            self.reg_status = set_bits(self.reg_status, CARRY, value >> 7 == 1);
            (value << 1) | if carry {
                1
            } else {
                0
            }
        } else if operation == 3 {
            self.reg_status = set_bits(self.reg_status, CARRY, value & 1 == 1);
            (value >> 1) | if carry {
                0x80
            } else {
                0
            }
        } else if operation == 4 {
            value.wrapping_add(1)
        } else {
            value.wrapping_sub(1)
        }
    }

    fn cmp(&mut self, mode: &AddressingMode, compare: u8)
        requires
            old(self)@.bus.wf(),
        ensures
            kept(old(self)@, final(self)@),
            final(self)@ == compare_spec(old(self)@, *mode, compare),
    {
        proof {
            reveal(compare_spec);
        }
        let address = self.resolve_addressing_mode(mode);
        let value = self.mem_read(address);
        self.reg_status = set_bits(self.reg_status, CARRY, value <= compare);
        self.handle_flags_z_n(compare.wrapping_sub(value));
    }

    /// The status as PLP and RTI load it: B cleared, U set.
    fn dec_to_flags(value: u8) -> (r: u8)
        ensures
            r == pulled_status(value),
    {
        (value & !BREAK) | BREAK_2
    }

    fn lda(&mut self, mode: &AddressingMode)
        requires
            old(self)@.bus.wf(),
        ensures
            kept(old(self)@, final(self)@),
            final(self)@ == lda_spec(old(self)@, *mode),
    {
        proof {
            reveal(lda_spec);
        }
        let address = self.resolve_addressing_mode(mode);
        let value = self.mem_read(address);
        self.reg_a = value;
        self.handle_flags_z_n(value);
    }

    fn ldx(&mut self, mode: &AddressingMode)
        requires
            old(self)@.bus.wf(),
        ensures
            kept(old(self)@, final(self)@),
            final(self)@ == ldx_spec(old(self)@, *mode),
    {
        proof {
            reveal(ldx_spec);
        }
        let address = self.resolve_addressing_mode(mode);
        let value = self.mem_read(address);
        self.reg_x = value;
        self.handle_flags_z_n(value);
    }

    fn ldy(&mut self, mode: &AddressingMode)
        requires
            old(self)@.bus.wf(),
        ensures
            kept(old(self)@, final(self)@),
            final(self)@ == ldy_spec(old(self)@, *mode),
    {
        proof {
            reveal(ldy_spec);
        }
        let address = self.resolve_addressing_mode(mode);
        let value = self.mem_read(address);
        self.reg_y = value;
        self.handle_flags_z_n(value);
    }

    /// LAX: LDA then TAX.
    fn lax(&mut self, mode: &AddressingMode)
        requires
            old(self)@.bus.wf(),
        ensures
            kept(old(self)@, final(self)@),
            final(self)@ == lax_spec(old(self)@, *mode),
    {
        proof {
            reveal(lax_spec);
        }
        let address = self.resolve_addressing_mode(mode);
        let value = self.mem_read(address);
        self.reg_a = value;
        self.reg_x = value;
        self.handle_flags_z_n(value);
    }

    fn las(&mut self, mode: &AddressingMode)
        requires
            old(self)@.bus.wf(),
        ensures
            kept(old(self)@, final(self)@),
            final(self)@ == las_spec(old(self)@, *mode),
    {
        proof {
            reveal(las_spec);
        }
        let address = self.resolve_addressing_mode(mode);
        let value = self.mem_read(address);
        let evaluation = value & self.reg_sp;
        self.reg_a = evaluation;
        self.reg_x = evaluation;
        self.reg_sp = evaluation;
        self.handle_flags_z_n(evaluation);
    }

    fn sta(&mut self, mode: &AddressingMode)
        requires
            old(self)@.bus.wf(),
        ensures
            kept(old(self)@, final(self)@),
            final(self)@ == store_spec(old(self)@, *mode, old(self).reg_a),
    {
        proof {
            reveal(store_spec);
        }
        let address = self.resolve_addressing_mode(mode);
        self.mem_write(address, self.reg_a);
    }

    fn stx(&mut self, mode: &AddressingMode)
        requires
            old(self)@.bus.wf(),
        ensures
            kept(old(self)@, final(self)@),
            final(self)@ == store_spec(old(self)@, *mode, old(self).reg_x),
    {
        proof {
            reveal(store_spec);
        }
        let address = self.resolve_addressing_mode(mode);
        self.mem_write(address, self.reg_x);
    }

    fn sty(&mut self, mode: &AddressingMode)
        requires
            old(self)@.bus.wf(),
        ensures
            kept(old(self)@, final(self)@),
            final(self)@ == store_spec(old(self)@, *mode, old(self).reg_y),
    {
        proof {
            reveal(store_spec);
        }
        let address = self.resolve_addressing_mode(mode);
        self.mem_write(address, self.reg_y);
    }

    /// SAX: stores A & X.
    fn sax(&mut self, mode: &AddressingMode)
        requires
            old(self)@.bus.wf(),
        ensures
            kept(old(self)@, final(self)@),
            final(self)@ == store_spec(old(self)@, *mode, old(self).reg_a & old(self).reg_x),
    {
        proof {
            reveal(store_spec);
        }
        let address = self.resolve_addressing_mode(mode);
        self.mem_write(address, self.reg_a & self.reg_x);
    }

    fn tax(&mut self)
        requires
            old(self)@.bus.wf(),
        ensures
            kept(old(self)@, final(self)@),
            final(self)@ == with_zn(CpuState { x: old(self)@.a, ..old(self)@ }, old(self)@.a),
    {
        self.reg_x = self.reg_a;
        self.handle_flags_z_n(self.reg_x);
    }

    fn tay(&mut self)
        requires
            old(self)@.bus.wf(),
        ensures
            kept(old(self)@, final(self)@),
            final(self)@ == with_zn(CpuState { y: old(self)@.a, ..old(self)@ }, old(self)@.a),
    {
        self.reg_y = self.reg_a;
        self.handle_flags_z_n(self.reg_y);
    }

    fn tsx(&mut self)
        requires
            old(self)@.bus.wf(),
        ensures
            kept(old(self)@, final(self)@),
            final(self)@ == with_zn(CpuState { x: old(self)@.sp, ..old(self)@ }, old(self)@.sp),
    {
        self.reg_x = self.reg_sp;
        self.handle_flags_z_n(self.reg_x);
    }

    fn txa(&mut self)
        requires
            old(self)@.bus.wf(),
        ensures
            kept(old(self)@, final(self)@),
            final(self)@ == with_zn(CpuState { a: old(self)@.x, ..old(self)@ }, old(self)@.x),
    {
        self.reg_a = self.reg_x;
        self.handle_flags_z_n(self.reg_a);
    }

    fn tya(&mut self)
        requires
            old(self)@.bus.wf(),
        ensures
            kept(old(self)@, final(self)@),
            final(self)@ == with_zn(CpuState { a: old(self)@.y, ..old(self)@ }, old(self)@.y),
    {
        self.reg_a = self.reg_y;
        self.handle_flags_z_n(self.reg_a);
    }

    fn txs(&mut self)
        requires
            old(self)@.bus.wf(),
        ensures
            kept(old(self)@, final(self)@),
            final(self)@ == (CpuState { sp: old(self)@.x, ..old(self)@ }),
    {
        self.reg_sp = self.reg_x;
    }

    fn pha(&mut self)
        requires
            old(self)@.bus.wf(),
        ensures
            kept(old(self)@, final(self)@),
            final(self)@ == push(old(self)@, old(self)@.a),
    {
        self.stack_push(self.reg_a);
    }

    /// PHP pushes the status with B and U set.
    fn php(&mut self)
        requires
            old(self)@.bus.wf(),
        ensures
            kept(old(self)@, final(self)@),
            final(self)@ == php_spec(old(self)@),
    {
        proof {
            reveal(php_spec);
        }
        self.stack_push(self.reg_status | BREAK | BREAK_2);
    }

    fn pla(&mut self)
        requires
            old(self)@.bus.wf(),
        ensures
            kept(old(self)@, final(self)@),
            final(self)@ == pla_spec(old(self)@),
    {
        proof {
            reveal(pla_spec);
        }
        let value = self.stack_pop();
        self.reg_a = value;
        self.handle_flags_z_n(value);
    }

    /// PLP loads the status with B cleared and U set.
    fn plp(&mut self)
        requires
            old(self)@.bus.wf(),
        ensures
            kept(old(self)@, final(self)@),
            final(self)@ == plp_spec(old(self)@),
    {
        proof {
            reveal(plp_spec);
        }
        let value = self.stack_pop();
        self.reg_status = CPU::dec_to_flags(value);
    }

    fn asl_a(&mut self)
        requires
            old(self)@.bus.wf(),
        ensures
            kept(old(self)@, final(self)@),
            final(self)@ == shift_a_spec(old(self)@, 0),
    {
        proof {
            reveal(shift_a_spec);
        }
        let value = self.reg_a;
        self.reg_status = set_bits(self.reg_status, CARRY, value >> 7 == 1);
        self.reg_a = value << 1;
        self.handle_flags_z_n(self.reg_a);
    }

    fn lsr_a(&mut self)
        requires
            old(self)@.bus.wf(),
        ensures
            kept(old(self)@, final(self)@),
            final(self)@ == shift_a_spec(old(self)@, 1),
    {
        proof {
            reveal(shift_a_spec);
        }
        let value = self.reg_a;
        self.reg_status = set_bits(self.reg_status, CARRY, value & 1 == 1);
        self.reg_a = value >> 1;
        self.reg_status = set_bits(self.reg_status, NEGATIVE, false);
        self.reg_status = set_bits(self.reg_status, ZERO, self.reg_a == 0);
    }

    fn rol_a(&mut self)
        requires
            old(self)@.bus.wf(),
        ensures
            kept(old(self)@, final(self)@),
            final(self)@ == shift_a_spec(old(self)@, 2),
    {
        proof {
            reveal(shift_a_spec);
        }
        let value = self.reg_a;
        let carry = self.reg_status & CARRY != 0;
        self.reg_status = set_bits(self.reg_status, CARRY, value >> 7 == 1);
        self.reg_a = (value << 1) | if carry {
            1
        } else {
            0
        };
        self.handle_flags_z_n(self.reg_a);
    }

    fn ror_a(&mut self)
        requires
            old(self)@.bus.wf(),
        ensures
            kept(old(self)@, final(self)@),
            final(self)@ == shift_a_spec(old(self)@, 3),
    {
        proof {
            reveal(shift_a_spec);
        }
        let value = self.reg_a;
        let carry = self.reg_status & CARRY != 0;
        self.reg_status = set_bits(self.reg_status, CARRY, value & 1 == 1);
        self.reg_a = (value >> 1) | if carry {
            0x80
        } else {
            0
        };
        self.handle_flags_z_n(self.reg_a);
    }

    fn asl(&mut self, mode: &AddressingMode)
        requires
            old(self)@.bus.wf(),
        ensures
            kept(old(self)@, final(self)@),
            final(self)@ == rmw_spec(old(self)@, *mode, 0),
    {
        proof {
            reveal(rmw_spec);
        }
        let address = self.resolve_addressing_mode(mode);
        let value = self.mem_read(address);
        let result = self.modify_value(value, 0);
        self.mem_write(address, result);
        self.handle_flags_z_n(result);
    }

    fn lsr(&mut self, mode: &AddressingMode)
        requires
            old(self)@.bus.wf(),
        ensures
            kept(old(self)@, final(self)@),
            final(self)@ == rmw_spec(old(self)@, *mode, 1),
    {
        proof {
            reveal(rmw_spec);
        }
        let address = self.resolve_addressing_mode(mode);
        let value = self.mem_read(address);
        let result = self.modify_value(value, 1);
        self.mem_write(address, result);
        self.reg_status = set_bits(self.reg_status, NEGATIVE, false);
        self.reg_status = set_bits(self.reg_status, ZERO, result == 0);
    }

    fn rol(&mut self, mode: &AddressingMode)
        requires
            old(self)@.bus.wf(),
        ensures
            kept(old(self)@, final(self)@),
            final(self)@ == rmw_spec(old(self)@, *mode, 2),
    {
        proof {
            reveal(rmw_spec);
        }
        let address = self.resolve_addressing_mode(mode);
        let value = self.mem_read(address);
        let result = self.modify_value(value, 2);
        self.mem_write(address, result);
        self.handle_flags_z_n(result);
    }

    fn ror(&mut self, mode: &AddressingMode)
        requires
            old(self)@.bus.wf(),
        ensures
            kept(old(self)@, final(self)@),
            final(self)@ == rmw_spec(old(self)@, *mode, 3),
    {
        proof {
            reveal(rmw_spec);
        }
        let address = self.resolve_addressing_mode(mode);
        let value = self.mem_read(address);
        let result = self.modify_value(value, 3);
        self.mem_write(address, result);
        self.handle_flags_z_n(result);
    }

    fn inc(&mut self, mode: &AddressingMode)
        requires
            old(self)@.bus.wf(),
        ensures
            kept(old(self)@, final(self)@),
            final(self)@ == rmw_spec(old(self)@, *mode, 4),
    {
        proof {
            reveal(rmw_spec);
        }
        let address = self.resolve_addressing_mode(mode);
        let value = self.mem_read(address);
        let result = self.modify_value(value, 4);
        self.mem_write(address, result);
        self.handle_flags_z_n(result);
    }

    fn dec(&mut self, mode: &AddressingMode)
        requires
            old(self)@.bus.wf(),
        ensures
            kept(old(self)@, final(self)@),
            final(self)@ == rmw_spec(old(self)@, *mode, 5),
    {
        proof {
            reveal(rmw_spec);
        }
        let address = self.resolve_addressing_mode(mode);
        let value = self.mem_read(address);
        let result = self.modify_value(value, 5);
        self.mem_write(address, result);
        self.handle_flags_z_n(result);
    }

    /// DCP: DEC, then CMP against A.
    fn dcp(&mut self, mode: &AddressingMode)
        requires
            old(self)@.bus.wf(),
        ensures
            kept(old(self)@, final(self)@),
            final(self)@ == dcp_spec(old(self)@, *mode),
    {
        proof {
            reveal(dcp_spec);
        }
        let address = self.resolve_addressing_mode(mode);
        let value = self.mem_read(address);
        let result = self.modify_value(value, 5);
        self.mem_write(address, result);
        self.reg_status = set_bits(self.reg_status, CARRY, result <= self.reg_a);
        self.handle_flags_z_n(self.reg_a.wrapping_sub(result));
    }

    /// ISC: INC, then SBC.
    fn isc(&mut self, mode: &AddressingMode)
        requires
            old(self)@.bus.wf(),
        ensures
            kept(old(self)@, final(self)@),
            final(self)@ == isc_spec(old(self)@, *mode),
    {
        proof {
            reveal(isc_spec);
        }
        let address = self.resolve_addressing_mode(mode);
        let value = self.mem_read(address);
        let result = self.modify_value(value, 4);
        self.mem_write(address, result);
        self.handle_flags_z_n(result);
        self.add_to_a(!result);
    }

    /// SLO: ASL, then ORA.
    fn slo(&mut self, mode: &AddressingMode)
        requires
            old(self)@.bus.wf(),
        ensures
            kept(old(self)@, final(self)@),
            final(self)@ == slo_spec(old(self)@, *mode),
    {
        proof {
            reveal(slo_spec);
        }
        let address = self.resolve_addressing_mode(mode);
        let value = self.mem_read(address);
        let result = self.modify_value(value, 0);
        self.mem_write(address, result);
        self.reg_a = self.reg_a | result;
        self.handle_flags_z_n(self.reg_a);
    }

    /// RLA: ROL, then AND.
    fn rla(&mut self, mode: &AddressingMode)
        requires
            old(self)@.bus.wf(),
        ensures
            kept(old(self)@, final(self)@),
            final(self)@ == rla_spec(old(self)@, *mode),
    {
        proof {
            reveal(rla_spec);
        }
        let address = self.resolve_addressing_mode(mode);
        let value = self.mem_read(address);
        let result = self.modify_value(value, 2);
        self.mem_write(address, result);
        self.reg_a = self.reg_a & result;
        self.handle_flags_z_n(self.reg_a);
    }

    /// SRE: LSR, then EOR.
    fn sre(&mut self, mode: &AddressingMode)
        requires
            old(self)@.bus.wf(),
        ensures
            kept(old(self)@, final(self)@),
            final(self)@ == sre_spec(old(self)@, *mode),
    {
        proof {
            reveal(sre_spec);
        }
        let address = self.resolve_addressing_mode(mode);
        let value = self.mem_read(address);
        let result = self.modify_value(value, 1);
        self.mem_write(address, result);
        self.reg_a = self.reg_a ^ result;
        self.handle_flags_z_n(self.reg_a);
    }

    /// RRA: ROR, then ADC.
    fn rra(&mut self, mode: &AddressingMode)
        requires
            old(self)@.bus.wf(),
        ensures
            kept(old(self)@, final(self)@),
            final(self)@ == rra_spec(old(self)@, *mode),
    {
        proof {
            reveal(rra_spec);
        }
        let address = self.resolve_addressing_mode(mode);
        let value = self.mem_read(address);
        let result = self.modify_value(value, 3);
        self.mem_write(address, result);
        self.handle_flags_z_n(result);
        self.add_to_a(result);
    }

    fn and(&mut self, mode: &AddressingMode)
        requires
            old(self)@.bus.wf(),
        ensures
            kept(old(self)@, final(self)@),
            final(self)@ == logic_spec(old(self)@, *mode, 0),
    {
        proof {
            reveal(logic_spec);
        }
        let address = self.resolve_addressing_mode(mode);
        let value = self.mem_read(address);
        self.reg_a = self.reg_a & value;
        self.handle_flags_z_n(self.reg_a);
    }

    fn eor(&mut self, mode: &AddressingMode)
        requires
            old(self)@.bus.wf(),
        ensures
            kept(old(self)@, final(self)@),
            final(self)@ == logic_spec(old(self)@, *mode, 1),
    {
        proof {
            reveal(logic_spec);
        }
        let address = self.resolve_addressing_mode(mode);
        let value = self.mem_read(address);
        self.reg_a = self.reg_a ^ value;
        self.handle_flags_z_n(self.reg_a);
    }

    fn ora(&mut self, mode: &AddressingMode)
        requires
            old(self)@.bus.wf(),
        ensures
            kept(old(self)@, final(self)@),
            final(self)@ == logic_spec(old(self)@, *mode, 2),
    {
        proof {
            reveal(logic_spec);
        }
        let address = self.resolve_addressing_mode(mode);
        let value = self.mem_read(address);
        self.reg_a = self.reg_a | value;
        self.handle_flags_z_n(self.reg_a);
    }

    fn bit(&mut self, mode: &AddressingMode)
        requires
            old(self)@.bus.wf(),
        ensures
            kept(old(self)@, final(self)@),
            final(self)@ == bit_spec(old(self)@, *mode),
    {
        proof {
            reveal(bit_spec);
        }
        let address = self.resolve_addressing_mode(mode);
        let value = self.mem_read(address);
        self.reg_status = set_bits(self.reg_status, ZERO, self.reg_a & value == 0);
        self.reg_status = set_bits(self.reg_status, NEGATIVE, value & 0x80 > 0);
        self.reg_status = set_bits(self.reg_status, OVERFLOW, value & 0x40 > 0);
    }

    fn adc(&mut self, mode: &AddressingMode)
        requires
            old(self)@.bus.wf(),
        ensures
            kept(old(self)@, final(self)@),
            final(self)@ == adc_spec(old(self)@, *mode),
    {
        proof {
            reveal(adc_spec);
        }
        let address = self.resolve_addressing_mode(mode);
        let value = self.mem_read(address);
        self.add_to_a(value);
    }

    /// SBC: A + !M + C.
    fn sbc(&mut self, mode: &AddressingMode)
        requires
            old(self)@.bus.wf(),
        ensures
            kept(old(self)@, final(self)@),
            final(self)@ == sbc_spec(old(self)@, *mode),
    {
        proof {
            reveal(sbc_spec);
        }
        let address = self.resolve_addressing_mode(mode);
        let value = self.mem_read(address);
        self.add_to_a(!value);
    }

    fn cpx(&mut self, mode: &AddressingMode)
        requires
            old(self)@.bus.wf(),
        ensures
            kept(old(self)@, final(self)@),
            final(self)@ == compare_spec(old(self)@, *mode, old(self).reg_x),
    {
        proof {
            reveal(compare_spec);
        }
        self.cmp(mode, self.reg_x);
    }

    fn cpy(&mut self, mode: &AddressingMode)
        requires
            old(self)@.bus.wf(),
        ensures
            kept(old(self)@, final(self)@),
            final(self)@ == compare_spec(old(self)@, *mode, old(self).reg_y),
    {
        proof {
            reveal(compare_spec);
        }
        self.cmp(mode, self.reg_y);
    }

    fn dex(&mut self)
        requires
            old(self)@.bus.wf(),
        ensures
            kept(old(self)@, final(self)@),
            final(self)@ == with_zn(CpuState { x: old(self)@.x.wrapping_sub(1), ..old(self)@ }, old(self)@.x.wrapping_sub(1)),
    {
        self.reg_x = self.reg_x.wrapping_sub(1);
        self.handle_flags_z_n(self.reg_x);
    }

    fn dey(&mut self)
        requires
            old(self)@.bus.wf(),
        ensures
            kept(old(self)@, final(self)@),
            final(self)@ == with_zn(CpuState { y: old(self)@.y.wrapping_sub(1), ..old(self)@ }, old(self)@.y.wrapping_sub(1)),
    {
        self.reg_y = self.reg_y.wrapping_sub(1);
        self.handle_flags_z_n(self.reg_y);
    }

    fn inx(&mut self)
        requires
            old(self)@.bus.wf(),
        ensures
            kept(old(self)@, final(self)@),
            final(self)@ == with_zn(CpuState { x: old(self)@.x.wrapping_add(1), ..old(self)@ }, old(self)@.x.wrapping_add(1)),
    {
        self.reg_x = self.reg_x.wrapping_add(1);
        self.handle_flags_z_n(self.reg_x);
    }

    fn iny(&mut self)
        requires
            old(self)@.bus.wf(),
        ensures
            kept(old(self)@, final(self)@),
            final(self)@ == with_zn(CpuState { y: old(self)@.y.wrapping_add(1), ..old(self)@ }, old(self)@.y.wrapping_add(1)),
    {
        self.reg_y = self.reg_y.wrapping_add(1);
        self.handle_flags_z_n(self.reg_y);
    }

    /// BRK: pushes PC + 1 and the status with B and U set, sets I and jumps
    /// through the IRQ vector.
    fn brk(&mut self)
        requires
            old(self)@.bus.wf(),
        ensures
            kept(old(self)@, final(self)@),
            final(self)@ == brk_spec(old(self)@),
    {
        proof {
            reveal(brk_spec);
        }
        self.stack_push_u16(self.reg_pc.wrapping_add(1));
        self.stack_push(self.reg_status | BREAK | BREAK_2);
        self.reg_status = self.reg_status | INTERRUPT_MASK;
        self.reg_pc = self.mem_read_u16(IRQ_VECTOR);
    }

    fn jmp_absolute(&mut self)
        requires
            old(self)@.bus.wf(),
        ensures
            kept(old(self)@, final(self)@),
            final(self)@ == jmp_absolute_spec(old(self)@),
    {
        proof {
            reveal(jmp_absolute_spec);
        }
        self.reg_pc = self.mem_read_u16(self.reg_pc);
    }

    /// JMP (indirect), with the 6502's page-wrap of a pointer at xxFF.
    fn jmp(&mut self)
        requires
            old(self)@.bus.wf(),
        ensures
            kept(old(self)@, final(self)@),
            final(self)@ == jmp_indirect_spec(old(self)@),
    {
        proof {
            reveal(jmp_indirect_spec);
        }
        let address = self.mem_read_u16(self.reg_pc);
        if address & 0x00FF == 0x00FF {
            let ll = self.mem_read(address);
            let hh = self.mem_read(address & 0xFF00);
            self.reg_pc = ((hh as u16) << 8) | (ll as u16);
        } else {
            self.reg_pc = self.mem_read_u16(address);
        }
    }

    fn jsr(&mut self)
        requires
            old(self)@.bus.wf(),
        ensures
            kept(old(self)@, final(self)@),
            final(self)@ == jsr_spec(old(self)@),
    {
        proof {
            reveal(jsr_spec);
        }
        self.stack_push_u16(self.reg_pc.wrapping_add(1));
        let address = self.mem_read_u16(self.reg_pc);
        self.reg_pc = address;
    }

    fn rti(&mut self)
        requires
            old(self)@.bus.wf(),
        ensures
            kept(old(self)@, final(self)@),
            final(self)@ == rti_spec(old(self)@),
    {
        proof {
            reveal(rti_spec);
        }
        let flags = self.stack_pop();
        self.reg_status = CPU::dec_to_flags(flags);
        self.reg_pc = self.stack_pop_u16();
    }

    fn rts(&mut self)
        requires
            old(self)@.bus.wf(),
        ensures
            kept(old(self)@, final(self)@),
            final(self)@ == rts_spec(old(self)@),
    {
        proof {
            reveal(rts_spec);
        }
        let data = self.stack_pop_u16();
        self.reg_pc = data.wrapping_add(1);
    }

    fn bcc(&mut self)
        requires
            old(self)@.bus.wf(),
        ensures
            kept(old(self)@, final(self)@),
            final(self)@ == branch_spec(old(self)@, !flag(old(self)@, CARRY)),
    {
        proof {
            reveal(branch_spec);
        }
        self.branch(self.reg_status & CARRY == 0);
    }

    fn bcs(&mut self)
        requires
            old(self)@.bus.wf(),
        ensures
            kept(old(self)@, final(self)@),
            final(self)@ == branch_spec(old(self)@, flag(old(self)@, CARRY)),
    {
        proof {
            reveal(branch_spec);
        }
        self.branch(self.reg_status & CARRY != 0);
    }

    fn beq(&mut self)
        requires
            old(self)@.bus.wf(),
        ensures
            kept(old(self)@, final(self)@),
            final(self)@ == branch_spec(old(self)@, flag(old(self)@, ZERO)),
    {
        proof {
            reveal(branch_spec);
        }
        self.branch(self.reg_status & ZERO != 0);
    }

    fn bne(&mut self)
        requires
            old(self)@.bus.wf(),
        ensures
            kept(old(self)@, final(self)@),
            final(self)@ == branch_spec(old(self)@, !flag(old(self)@, ZERO)),
    {
        proof {
            reveal(branch_spec);
        }
        self.branch(self.reg_status & ZERO == 0);
    }

    fn bmi(&mut self)
        requires
            old(self)@.bus.wf(),
        ensures
            kept(old(self)@, final(self)@),
            final(self)@ == branch_spec(old(self)@, flag(old(self)@, NEGATIVE)),
    {
        proof {
            reveal(branch_spec);
        }
        self.branch(self.reg_status & NEGATIVE != 0);
    }

    fn bpl(&mut self)
        requires
            old(self)@.bus.wf(),
        ensures
            kept(old(self)@, final(self)@),
            final(self)@ == branch_spec(old(self)@, !flag(old(self)@, NEGATIVE)),
    {
        proof {
            reveal(branch_spec);
        }
        self.branch(self.reg_status & NEGATIVE == 0);
    }

    fn bvc(&mut self)
        requires
            old(self)@.bus.wf(),
        ensures
            kept(old(self)@, final(self)@),
            final(self)@ == branch_spec(old(self)@, !flag(old(self)@, OVERFLOW)),
    {
        proof {
            reveal(branch_spec);
        }
        self.branch(self.reg_status & OVERFLOW == 0);
    }

    fn bvs(&mut self)
        requires
            old(self)@.bus.wf(),
        ensures
            kept(old(self)@, final(self)@),
            final(self)@ == branch_spec(old(self)@, flag(old(self)@, OVERFLOW)),
    {
        proof {
            reveal(branch_spec);
        }
        self.branch(self.reg_status & OVERFLOW != 0);
    }

    fn clc(&mut self)
        requires
            old(self)@.bus.wf(),
        ensures
            kept(old(self)@, final(self)@),
            final(self)@ == with_flag(old(self)@, CARRY, false),
    {
        self.reg_status = set_bits(self.reg_status, CARRY, false);
    }

    fn cld(&mut self)
        requires
            old(self)@.bus.wf(),
        ensures
            kept(old(self)@, final(self)@),
            final(self)@ == with_flag(old(self)@, DECIMAL, false),
    {
        self.reg_status = set_bits(self.reg_status, DECIMAL, false);
    }

    fn cli(&mut self)
        requires
            old(self)@.bus.wf(),
        ensures
            kept(old(self)@, final(self)@),
            final(self)@ == with_flag(old(self)@, INTERRUPT_MASK, false),
    {
        self.reg_status = set_bits(self.reg_status, INTERRUPT_MASK, false);
    }

    fn clv(&mut self)
        requires
            old(self)@.bus.wf(),
        ensures
            kept(old(self)@, final(self)@),
            final(self)@ == with_flag(old(self)@, OVERFLOW, false),
    {
        self.reg_status = set_bits(self.reg_status, OVERFLOW, false);
    }

    fn sec(&mut self)
        requires
            old(self)@.bus.wf(),
        ensures
            kept(old(self)@, final(self)@),
            final(self)@ == with_flag(old(self)@, CARRY, true),
    {
        self.reg_status = set_bits(self.reg_status, CARRY, true);
    }

    fn sed(&mut self)
        requires
            old(self)@.bus.wf(),
        ensures
            kept(old(self)@, final(self)@),
            final(self)@ == with_flag(old(self)@, DECIMAL, true),
    {
        self.reg_status = set_bits(self.reg_status, DECIMAL, true);
    }

    fn sei(&mut self)
        requires
            old(self)@.bus.wf(),
        ensures
            kept(old(self)@, final(self)@),
            final(self)@ == with_flag(old(self)@, INTERRUPT_MASK, true),
    {
        self.reg_status = set_bits(self.reg_status, INTERRUPT_MASK, true);
    }

    fn nop(&mut self)
        requires
            old(self)@.bus.wf(),
        ensures
            kept(old(self)@, final(self)@),
            final(self)@ == old(self)@,
    {

    }
}

} // verus!
