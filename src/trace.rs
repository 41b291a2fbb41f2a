use vstd::prelude::*;
use vstd::string::StringExecFns;

use crate::cpu::{offset16, operand, rd, AddressingMode, CpuState, Memory, CPU};
use crate::opcodes::{lookup, opcode_spec};
use crate::ppu::reg_addr::join16;

verus! {

/// An upper-case hex digit.
pub open spec fn hex_char(n: u8) -> char {
    match n {
        0u8 => '0',
        1u8 => '1',
        2u8 => '2',
        3u8 => '3',
        4u8 => '4',
        5u8 => '5',
        6u8 => '6',
        7u8 => '7',
        8u8 => '8',
        9u8 => '9',
        10u8 => 'A',
        11u8 => 'B',
        12u8 => 'C',
        13u8 => 'D',
        14u8 => 'E',
        _ => 'F',
    }
}

pub open spec fn hex2(b: u8) -> Seq<char> {
    seq![hex_char(b >> 4u8), hex_char(b & 0xF)]
}

pub open spec fn hex4(w: u16) -> Seq<char> {
    hex2((w >> 8u16) as u8) + hex2((w & 0xFF) as u8)
}

pub open spec fn spaces(n: nat) -> Seq<char> {
    Seq::new(n, |i: int| ' ')
}

/// `s`, padded with spaces on the right to `n` characters.
pub open spec fn pad_right(s: Seq<char>, n: nat) -> Seq<char> {
    if s.len() < n {
        s + spaces((n - s.len()) as nat)
    } else {
        s
    }
}

/// `s`, padded with spaces on the left to `n` characters.
pub open spec fn pad_left(s: Seq<char>, n: nat) -> Seq<char> {
    if s.len() < n {
        spaces((n - s.len()) as nat) + s
    } else {
        s
    }
}

/// `s` without its trailing spaces.
pub open spec fn trim_end(s: Seq<char>) -> Seq<char>
    decreases s.len(),
{
    if s.len() > 0 && s.last() == ' ' {
        trim_end(s.drop_last())
    } else {
        s
    }
}

/// The operand as the disassembly shows it: `b1` is the byte after the
/// opcode, `word` the two bytes after it, `address` the effective address and
/// `value` the byte there.
pub open spec fn operand_text(
    opcode: u8,
    mode: AddressingMode,
    length: u8,
    start: u16,
    b1: u8,
    word: u16,
    address: u16,
    value: u8,
    x: u8,
    y: u8,
) -> Seq<char> {
    if length == 1 {
        if opcode == 0x0A || opcode == 0x4A || opcode == 0x2A || opcode == 0x6A {
            seq!['A', ' ']
        } else {
            Seq::empty()
        }
    } else if length == 2 {
        match mode {
            AddressingMode::IMM => seq!['#', '$'] + hex2(b1),
            AddressingMode::ZP => seq!['$'] + hex2(b1) + seq![' ', '=', ' '] + hex2(value),
            AddressingMode::ZP_X => seq!['$'] + hex2(b1) + seq![',', 'X', ' ', '@', ' '] + hex2(
                address as u8,
            ) + seq![' ', '=', ' '] + hex2(value),
            AddressingMode::ZP_Y => seq!['$'] + hex2(b1) + seq![',', 'Y', ' ', '@', ' '] + hex2(
                address as u8,
            ) + seq![' ', '=', ' '] + hex2(value),
            AddressingMode::IND_X => seq!['(', '$'] + hex2(b1) + seq![',', 'X', ')', ' ', '@', ' ']
                + hex2(b1.wrapping_add(x)) + seq![' ', '=', ' '] + hex4(address) + seq![' ', '=', ' ']
                + hex2(value),
            AddressingMode::IND_Y => seq!['(', '$'] + hex2(b1) + seq![')', ',', 'Y', ' ', '@', ' ']
                + hex4(address.wrapping_sub(y as u16)) + seq![' ', '=', ' '] + hex4(address) + seq![
                ' ',
                '=',
                ' ',
            ] + hex2(value),
            AddressingMode::REL => seq!['$'] + hex4(start.wrapping_add(2).wrapping_add(offset16(b1))),
            _ => Seq::empty(),
        }
    } else {
        match mode {
            AddressingMode::ABS => seq!['$'] + hex4(address) + seq![' ', '=', ' '] + hex2(value),
            AddressingMode::ABS_X => seq!['$'] + hex4(word) + seq![',', 'X', ' ', '@', ' '] + hex4(
                address,
            ) + seq![' ', '=', ' '] + hex2(value),
            AddressingMode::ABS_Y => seq!['$'] + hex4(word) + seq![',', 'Y', ' ', '@', ' '] + hex4(
                address,
            ) + seq![' ', '=', ' '] + hex2(value),
            _ => Seq::empty(),
        }
    }
}

/// The instruction bytes, in hex, one space apart.
pub open spec fn dump_text(length: u8, opcode: u8, b1: u8, b2: u8) -> Seq<char> {
    if length == 1 {
        hex2(opcode)
    } else if length == 2 {
        hex2(opcode) + seq![' '] + hex2(b1)
    } else {
        hex2(opcode) + seq![' '] + hex2(b1) + seq![' '] + hex2(b2)
    }
}

/// The operand text after a space, or nothing when it is blank.
pub open spec fn operand_field(t: Seq<char>) -> Seq<char> {
    if trim_end(t).len() == 0 {
        Seq::empty()
    } else {
        seq![' '] + trim_end(t)
    }
}

/// The registers after the disassembly.
pub open spec fn register_text(s: CpuState) -> Seq<char> {
    seq![' ', 'A', ':'] + hex2(s.a) + seq![' ', 'X', ':'] + hex2(s.x) + seq![' ', 'Y', ':'] + hex2(
        s.y,
    ) + seq![' ', 'P', ':'] + hex2(s.p) + seq![' ', 'S', 'P', ':'] + hex2(s.sp)
}

/// The reads the disassembly makes, in order: the opcode, the operand's
/// effective address and the byte there (not for immediate and relative
/// operands), then the instruction's other bytes.
#[verifier::opaque]
pub open spec fn trace_reads(s: CpuState) -> (CpuState, u8, u16, u8, u8, u8) {
    let start = s.pc;
    let (s1, opcode) = rd(s, start);
    let op = opcode_spec(opcode);
    let mode = op.addressing_mode;
    let skip = mode == AddressingMode::IMM || mode == AddressingMode::REL;
    let (s2, address) = if skip {
        (s1, 0u16)
    } else {
        let (t, a) = operand(CpuState { pc: start.wrapping_add(1), ..s1 }, mode);
        (CpuState { pc: start, ..t }, a)
    };
    let (s3, value) = if skip {
        (s2, 0u8)
    } else {
        rd(s2, address)
    };
    let (s4, b1) = if op.length >= 2 {
        rd(s3, start.wrapping_add(1))
    } else {
        (s3, 0u8)
    };
    let (s5, b2) = if op.length >= 3 {
        rd(s4, start.wrapping_add(2))
    } else {
        (s4, 0u8)
    };
    (s5, opcode, address, value, b1, b2)
}

/// The log line: address, bytes, mnemonic and operand, padded to 47
/// columns, then the registers of `s`.
#[verifier::opaque]
pub open spec fn trace_text(s: CpuState, opcode: u8, address: u16, value: u8, b1: u8, b2: u8) -> Seq<
    char,
> {
    let op = opcode_spec(opcode);
    let text = operand_text(
        opcode,
        op.addressing_mode,
        op.length,
        s.pc,
        b1,
        join16(b2, b1),
        address,
        value,
        s.x,
        s.y,
    );
    let listing = hex4(s.pc) + seq![' ', ' '] + pad_right(dump_text(op.length, opcode, b1, b2), 8)
        + seq![' '] + pad_left(op.mnemonic@, 4) + operand_field(text);
    pad_right(listing, 47) + register_text(s)
}

/// One line of the execution log for the instruction at PC. The reads it
/// makes go through the bus, so the machine afterwards is returned too.
pub open spec fn trace_spec(s: CpuState) -> (CpuState, Seq<char>) {
    let (s5, opcode, address, value, b1, b2) = trace_reads(s);
    (s5, trace_text(s, opcode, address, value, b1, b2))
}

fn hex_digit(n: u8) -> (r: char)
    ensures
        r == hex_char(n),
{
    match n {
        0u8 => '0',
        1u8 => '1',
        2u8 => '2',
        3u8 => '3',
        4u8 => '4',
        5u8 => '5',
        6u8 => '6',
        7u8 => '7',
        8u8 => '8',
        9u8 => '9',
        10u8 => 'A',
        11u8 => 'B',
        12u8 => 'C',
        13u8 => 'D',
        14u8 => 'E',
        _ => 'F',
    }
}

fn push_hex2(v: &mut Vec<char>, b: u8)
    ensures
        final(v)@ == old(v)@ + hex2(b),
{
    v.push(hex_digit(b >> 4));
    v.push(hex_digit(b & 0xF));
    assert(v@ =~= old(v)@ + hex2(b));
}

fn push_hex4(v: &mut Vec<char>, w: u16)
    ensures
        final(v)@ == old(v)@ + hex4(w),
{
    push_hex2(v, (w >> 8) as u8);
    push_hex2(v, (w & 0xFF) as u8);
    assert(v@ =~= old(v)@ + hex4(w));
}

fn push_spaces(v: &mut Vec<char>, n: usize)
    ensures
        final(v)@ == old(v)@ + spaces(n as nat),
{
    let mut i: usize = 0;
    while i < n
        invariant
            i <= n,
            v@ == old(v)@ + spaces(i as nat),
        decreases n - i,
    {
        v.push(' ');
        i = i + 1;
        assert(v@ =~= old(v)@ + spaces(i as nat));
    }
}

/// Pushes " = ".
fn push_equals(v: &mut Vec<char>)
    ensures
        final(v)@ == old(v)@ + seq![' ', '=', ' '],
{
    v.push(' ');
    v.push('=');
    v.push(' ');
    assert(v@ =~= old(v)@ + seq![' ', '=', ' ']);
}

/// Pushes ",X @ " or ",Y @ ".
fn push_indexed(v: &mut Vec<char>, reg: char)
    ensures
        final(v)@ == old(v)@ + seq![',', reg, ' ', '@', ' '],
{
    v.push(',');
    v.push(reg);
    v.push(' ');
    v.push('@');
    v.push(' ');
    assert(v@ =~= old(v)@ + seq![',', reg, ' ', '@', ' ']);
}

fn append_chars(v: &mut Vec<char>, w: &Vec<char>)
    ensures
        final(v)@ == old(v)@ + w@,
{
    let mut i: usize = 0;
    while i < w.len()
        invariant
            i <= w@.len(),
            v@ == old(v)@ + w@.subrange(0, i as int),
        decreases w@.len() - i,
    {
        v.push(w[i]);
        i = i + 1;
        assert(v@ =~= old(v)@ + w@.subrange(0, i as int));
    }
    assert(w@.subrange(0, w@.len() as int) =~= w@);
}

fn trim_trailing(v: &mut Vec<char>)
    ensures
        final(v)@ == trim_end(old(v)@),
{
    while v.len() > 0 && v[v.len() - 1] == ' '
        invariant
            trim_end(v@) == trim_end(old(v)@),
        decreases v@.len(),
    {
        v.pop();
    }
}

fn operand_chars(
    opcode: u8,
    mode: AddressingMode,
    length: u8,
    start: u16,
    b1: u8,
    word: u16,
    address: u16,
    value: u8,
    x: u8,
    y: u8,
) -> (r: Vec<char>)
    ensures
        r@ == operand_text(opcode, mode, length, start, b1, word, address, value, x, y),
{
    let mut t: Vec<char> = Vec::new();
    if length == 1 {
        if opcode == 0x0A || opcode == 0x4A || opcode == 0x2A || opcode == 0x6A {
            t.push('A');
            t.push(' ');
        }
    } else if length == 2 {
        match mode {
            AddressingMode::IMM => {
                t.push('#');
                t.push('$');
                push_hex2(&mut t, b1);
            },
            AddressingMode::ZP => {
                t.push('$');
                push_hex2(&mut t, b1);
                push_equals(&mut t);
                push_hex2(&mut t, value);
            },
            AddressingMode::ZP_X => {
                t.push('$');
                push_hex2(&mut t, b1);
                push_indexed(&mut t, 'X');
                push_hex2(&mut t, address as u8);
                push_equals(&mut t);
                push_hex2(&mut t, value);
            },
            AddressingMode::ZP_Y => {
                t.push('$');
                push_hex2(&mut t, b1);
                push_indexed(&mut t, 'Y');
                push_hex2(&mut t, address as u8);
                push_equals(&mut t);
                push_hex2(&mut t, value);
            },
            AddressingMode::IND_X => {
                t.push('(');
                t.push('$');
                push_hex2(&mut t, b1);
                t.push(',');
                t.push('X');
                t.push(')');
                t.push(' ');
                t.push('@');
                t.push(' ');
                push_hex2(&mut t, b1.wrapping_add(x));
                push_equals(&mut t);
                push_hex4(&mut t, address);
                push_equals(&mut t);
                push_hex2(&mut t, value);
            },
            AddressingMode::IND_Y => {
                t.push('(');
                t.push('$');
                push_hex2(&mut t, b1);
                t.push(')');
                t.push(',');
                t.push('Y');
                t.push(' ');
                t.push('@');
                t.push(' ');
                push_hex4(&mut t, address.wrapping_sub(y as u16));
                push_equals(&mut t);
                push_hex4(&mut t, address);
                push_equals(&mut t);
                push_hex2(&mut t, value);
            },
            AddressingMode::REL => {
                let offset: u16 = if b1 < 0x80 {
                    b1 as u16
                } else {
                    b1 as u16 + 0xFF00
                };
                t.push('$');
                push_hex4(&mut t, start.wrapping_add(2).wrapping_add(offset));
            },
            _ => {},
        }
    } else {
        match mode {
            AddressingMode::ABS => {
                t.push('$');
                push_hex4(&mut t, address);
                push_equals(&mut t);
                push_hex2(&mut t, value);
            },
            AddressingMode::ABS_X => {
                t.push('$');
                push_hex4(&mut t, word);
                push_indexed(&mut t, 'X');
                push_hex4(&mut t, address);
                push_equals(&mut t);
                push_hex2(&mut t, value);
            },
            AddressingMode::ABS_Y => {
                t.push('$');
                push_hex4(&mut t, word);
                push_indexed(&mut t, 'Y');
                push_hex4(&mut t, address);
                push_equals(&mut t);
                push_hex2(&mut t, value);
            },
            _ => {},
        }
    }
    assert(t@ =~= operand_text(opcode, mode, length, start, b1, word, address, value, x, y));
    t
}

fn register_chars(a: u8, x: u8, y: u8, p: u8, sp: u8) -> (r: Vec<char>)
    ensures
        r@ == register_text(CpuState { a, x, y, p, sp, pc: 0, bus: arbitrary() }),
{
    let mut v: Vec<char> = Vec::new();
    v.push(' ');
    v.push('A');
    v.push(':');
    push_hex2(&mut v, a);
    v.push(' ');
    v.push('X');
    v.push(':');
    push_hex2(&mut v, x);
    v.push(' ');
    v.push('Y');
    v.push(':');
    push_hex2(&mut v, y);
    v.push(' ');
    v.push('P');
    v.push(':');
    push_hex2(&mut v, p);
    v.push(' ');
    v.push('S');
    v.push('P');
    v.push(':');
    push_hex2(&mut v, sp);
    assert(v@ =~= register_text(CpuState { a, x, y, p, sp, pc: 0, bus: arbitrary() }));
    v
}

/// Relies on `String::from_iter`: the string holds the characters in order.
#[verifier::external_body]
fn to_text(chars: Vec<char>) -> (r: String)
    ensures
        r@ == chars@,
{
    String::from_iter(chars)
}

fn read_trace_fields(cpu: &mut CPU) -> (r: (u8, u16, u8, u8, u8))
    requires
        old(cpu)@.bus.wf(),
    ensures
        final(cpu)@.bus.wf(),
        (final(cpu)@, r.0, r.1, r.2, r.3, r.4) == trace_reads(old(cpu)@),
{
    proof {
        reveal(trace_reads);
    }
    let start = cpu.reg_pc;
    let opcode = cpu.mem_read(start);
    let instruction = lookup(opcode);
    let mode = instruction.addressing_mode;
    let length = instruction.length;
    let skip = mode == AddressingMode::IMM || mode == AddressingMode::REL;
    let mut address: u16 = 0;
    let mut value: u8 = 0;
    if !skip {
        cpu.reg_pc = start.wrapping_add(1);
        address = cpu.resolve_addressing_mode(&mode);
        cpu.reg_pc = start;
        value = cpu.mem_read(address);
    }
    let b1 = if length >= 2 {
        cpu.mem_read(start.wrapping_add(1))
    } else {
        0
    };
    let b2 = if length >= 3 {
        cpu.mem_read(start.wrapping_add(2))
    } else {
        0
    };
    (opcode, address, value, b1, b2)
}

fn format_line(
    start: u16,
    regs: (u8, u8, u8, u8, u8),
    opcode: u8,
    address: u16,
    value: u8,
    b1: u8,
    b2: u8,
) -> (r: String)
    ensures
        r@ == trace_text(
            CpuState {
                pc: start,
                a: regs.0,
                x: regs.1,
                y: regs.2,
                p: regs.3,
                sp: regs.4,
                bus: arbitrary(),
            },
            opcode,
            address,
            value,
            b1,
            b2,
        ),
{
    proof {
        reveal(trace_text);
    }
    let (a, x, y, p, sp) = regs;
    let instruction = lookup(opcode);
    let mode = instruction.addressing_mode;
    let length = instruction.length;
    let word = ((b2 as u16) << 8) | (b1 as u16);
    let ghost t = operand_text(opcode, mode, length, start, b1, word, address, value, x, y);
    let ghost m = instruction.mnemonic@;
    let ghost s = CpuState { pc: start, a, x, y, p, sp, bus: arbitrary() };
    let mut text = operand_chars(opcode, mode, length, start, b1, word, address, value, x, y);
    trim_trailing(&mut text);
    assert(text@ == trim_end(t));
    let mut head: Vec<char> = Vec::new();
    push_hex4(&mut head, start);
    head.push(' ');
    head.push(' ');
    let ghost prefix = head@;
    push_hex2(&mut head, opcode);
    if length >= 2 {
        head.push(' ');
        push_hex2(&mut head, b1);
    }
    if length >= 3 {
        head.push(' ');
        push_hex2(&mut head, b2);
    }
    assert(head@ =~= prefix + dump_text(length, opcode, b1, b2));
    push_spaces(
        &mut head,
        if length == 1 {
            6
        } else if length == 2 {
            3
        } else {
            0
        },
    );
    assert(head@ =~= prefix + pad_right(dump_text(length, opcode, b1, b2), 8));
    head.push(' ');
    // The mnemonic has three letters: right-aligned in four columns.
    head.push(' ');
    assert(pad_left(m, 4) =~= seq![' '] + m);
    let ghost listing = hex4(start) + seq![' ', ' '] + pad_right(dump_text(length, opcode, b1, b2), 8)
        + seq![' '] + pad_left(m, 4) + operand_field(t);
    assert(listing =~= head@ + m + operand_field(t));
    let mut rest: Vec<char> = Vec::new();
    if text.len() > 0 {
        rest.push(' ');
        append_chars(&mut rest, &text);
    }
    assert(rest@ =~= operand_field(t));
    assert(listing.len() == 19 + rest@.len());
    let used = rest.len();
    if used < 28 {
        push_spaces(&mut rest, 28 - used);
    }
    assert(pad_right(listing, 47) =~= head@ + m + rest@);
    let registers = register_chars(a, x, y, p, sp);
    assert(register_text(s) =~= registers@);
    append_chars(&mut rest, &registers);
    let mut line = to_text(head);
    line.append(instruction.mnemonic);
    let tail = to_text(rest);
    line.append(tail.as_str());
    assert(line@ =~= pad_right(listing, 47) + register_text(s));
    line
}

/// Disassembles the instruction at PC into one line of the execution log,
/// reading its operand and bytes through the bus.
pub fn trace(cpu: &mut CPU) -> (r: String)
    requires
        old(cpu)@.bus.wf(),
    ensures
        final(cpu)@.bus.wf(),
        (final(cpu)@, r@) == trace_spec(old(cpu)@),
{
    let ghost s = cpu@;
    let start = cpu.reg_pc;
    let regs = (cpu.reg_a, cpu.reg_x, cpu.reg_y, cpu.reg_status, cpu.reg_sp);
    let (opcode, address, value, b1, b2) = read_trace_fields(cpu);
    let line = format_line(start, regs, opcode, address, value, b1, b2);
    proof {
        reveal(trace_text);
    }
    line
}

} // verus!
