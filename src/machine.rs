//! The abstract machine: its state as mathematical values, and what one
//! instruction and one cycle do to it.
//!
//! Out-of-range memory access is a fault: an instruction that would read or
//! write past the last byte of memory stops with `MemoryOutOfBounds` and
//! changes nothing. Jump targets are not checked; a program counter past the
//! end of memory halts the machine at the next fetch.
use vstd::prelude::*;
use crate::decode::{AluOp, Instruction, decode_spec};
use crate::display::{collides, drawn};
use crate::rom::LoadError;
use crate::stack::STACK_CAPACITY;
use crate::timer::{TimerView, set_spec, tick_spec};

verus! {

/// Bytes of addressable memory.
pub const MEMORY_SIZE: usize = 4096;

/// The register that several instructions overwrite with a flag.
pub const FLAG_REGISTER: usize = 15;

/// Bytes in the glyph of one hexadecimal digit.
pub const GLYPH_SIZE: u16 = 5;

/// The lowest supported load offset of a program image.
pub const PROGRAM_START: u16 = 512;

/// Bytes at the bottom of memory that hold the sixteen digit glyphs.
pub const GLYPH_AREA: usize = 80;

/// What a fatal condition was.
#[derive(Clone, Copy, Debug, PartialEq, Eq, Structural)]
pub enum FaultKind {
    /// A call with `STACK_CAPACITY` calls already pending.
    StackOverflow,
    /// A return with no call pending.
    EmptyStack,
    /// A word outside the instruction set.
    UnknownInstruction,
    /// A read or write past the last byte of memory.
    MemoryOutOfBounds,
}

/// A fatal condition, with the address and the word of the instruction that
/// raised it.
#[derive(Clone, Copy, Debug, PartialEq, Eq, Structural)]
pub struct Fault {
    pub kind: FaultKind,
    pub pc: usize,
    pub opcode: u16,
}

/// What the machine does after a cycle.
#[derive(Clone, Copy, Debug, PartialEq, Eq, Structural)]
pub enum CycleState {
    /// It goes on with the next instruction.
    Running,
    /// It waits for a key: the next cycle runs the same instruction again.
    WaitingForKey,
    /// The program has ended: the program counter is past the end of memory,
    /// or the word there is zero.
    Halted,
}

/// The whole state of the machine.
pub struct MachineView {
    /// The sixteen 8-bit registers.
    pub registers: Seq<u8>,
    /// The index register.
    pub index: u16,
    /// The program counter.
    pub pc: usize,
    /// Pending return addresses, the innermost last.
    pub stack: Seq<usize>,
    /// The 4096 bytes of memory.
    pub memory: Seq<u8>,
    /// The 32 display rows.
    pub display: Seq<u64>,
    pub delay: TimerView,
    pub sound: TimerView,
}

/// The glyphs of the hexadecimal digits 0 to F, five rows of eight pixels
/// each, most significant bit leftmost.
pub open spec fn glyphs() -> Seq<u8> {
    seq![
        0xF0u8, 0x90, 0x90, 0x90, 0xF0,
        0x20, 0x60, 0x20, 0x20, 0x70,
        0xF0, 0x10, 0xF0, 0x80, 0xF0,
        0xF0, 0x10, 0xF0, 0x10, 0xF0,
        0x90, 0x90, 0xF0, 0x10, 0x10,
        0xF0, 0x80, 0xF0, 0x10, 0xF0,
        0xF0, 0x80, 0xF0, 0x90, 0xF0,
        0xF0, 0x10, 0x20, 0x40, 0x40,
        0xF0, 0x90, 0xF0, 0x90, 0xF0,
        0xF0, 0x90, 0xF0, 0x10, 0xF0,
        0xF0, 0x90, 0xF0, 0x90, 0x90,
        0xE0, 0x90, 0xE0, 0x90, 0xE0,
        0xF0, 0x80, 0x80, 0x80, 0xF0,
        0xE0, 0x90, 0x90, 0x90, 0xE0,
        0xF0, 0x80, 0xF0, 0x80, 0xF0,
        0xF0, 0x80, 0xF0, 0x80, 0x80,
    ]
}

/// Why a program of `length` bytes cannot be loaded at `offset`, if it
/// cannot.
pub open spec fn load_error(length: int, offset: int) -> Option<LoadError> {
    if length == 0 {
        Some(LoadError::EmptyRom)
    } else if offset < PROGRAM_START {
        Some(LoadError::OffsetBelowProgramArea)
    } else if offset + length > MEMORY_SIZE {
        Some(LoadError::RomTooLarge)
    } else {
        None
    }
}

/// Memory with the glyphs at the bottom, `program` at `offset`, and zeros
/// elsewhere.
pub open spec fn initial_memory(program: Seq<u8>, offset: int) -> Seq<u8> {
    Seq::new(
        MEMORY_SIZE as nat,
        |a: int|
            if a < GLYPH_AREA {
                glyphs()[a]
            } else if offset <= a < offset + program.len() {
                program[a - offset]
            } else {
                0u8
            },
    )
}

/// The state of a machine just loaded with `program` at `offset`: registers,
/// index and display cleared, no call pending, the program counter at the
/// program, both timers idle at the given rates.
pub open spec fn initial_state(program: Seq<u8>, offset: u16, delay_hz: u8, sound_hz: u8) -> MachineView {
    MachineView {
        registers: Seq::new(16, |r: int| 0u8),
        index: 0,
        pc: offset as usize,
        stack: Seq::empty(),
        memory: initial_memory(program, offset as int),
        display: Seq::new(32, |r: int| 0u64),
        delay: TimerView { count: 0, active: false, acc: 0, rate: delay_hz },
        sound: TimerView { count: 0, active: false, acc: 0, rate: sound_hz },
    }
}

/// The big-endian word at `addr` and `addr + 1`.
pub open spec fn word_at(memory: Seq<u8>, addr: int) -> u16 {
    (memory[addr] as int * 0x100 + memory[addr + 1] as int) as u16
}

/// `m` with the program counter moved on by `by` bytes.
pub open spec fn advance(m: MachineView, by: int) -> MachineView {
    MachineView { pc: (m.pc + by) as usize, ..m }
}

/// `m` with the next instruction skipped where `cond` holds.
pub open spec fn skip_if(m: MachineView, cond: bool) -> MachineView {
    if cond {
        advance(m, 2)
    } else {
        m
    }
}

/// `m` with register `x` set to `v`.
pub open spec fn with_register(m: MachineView, x: u8, v: u8) -> MachineView {
    MachineView { registers: m.registers.update(x as int, v), ..m }
}

/// The registers after the arithmetic and logic operation `op` on `Vx` and
/// `Vy`. Where an operation defines a flag, the flag is written first and the
/// result second, so that with `x == 15` the result is what remains.
pub open spec fn alu_spec(regs: Seq<u8>, op: AluOp, x: u8, y: u8) -> Seq<u8> {
    let a = regs[x as int];
    let b = regs[y as int];
    let f = FLAG_REGISTER as int;
    match op {
        AluOp::Assign => regs.update(x as int, b),
        AluOp::Or => regs.update(x as int, a | b),
        AluOp::And => regs.update(x as int, a & b),
        AluOp::Xor => regs.update(x as int, a ^ b),
        AluOp::AddWithCarry => regs.update(f, if a + b > 255 { 1u8 } else { 0u8 }).update(
            x as int,
            ((a + b) % 256) as u8,
        ),
        AluOp::SubWithBorrow => regs.update(f, if a >= b { 1u8 } else { 0u8 }).update(
            x as int,
            ((a - b) % 256) as u8,
        ),
        AluOp::ShiftRight => regs.update(f, a % 2).update(x as int, a / 2),
        AluOp::SubReversed => regs.update(f, if b >= a { 1u8 } else { 0u8 }).update(
            x as int,
            ((b - a) % 256) as u8,
        ),
        AluOp::ShiftLeft => regs.update(f, a / 128).update(x as int, ((a * 2) % 256) as u8),
    }
}

/// Whether `count` bytes from `start` lie inside memory.
pub open spec fn in_memory(start: int, count: int) -> bool {
    start + count <= MEMORY_SIZE
}

/// The memory after `Fx55`: registers `0..=x` copied to `index..=index + x`.
pub open spec fn stored_registers(m: MachineView, x: u8) -> Seq<u8> {
    Seq::new(
        m.memory.len(),
        |a: int|
            if m.index <= a <= m.index + x {
                m.registers[a - m.index]
            } else {
                m.memory[a]
            },
    )
}

/// The registers after `Fx65`: registers `0..=x` loaded from `index..=index + x`.
pub open spec fn loaded_registers(m: MachineView, x: u8) -> Seq<u8> {
    Seq::new(
        m.registers.len(),
        |r: int|
            if r <= x {
                m.memory[m.index + r]
            } else {
                m.registers[r]
            },
    )
}

/// The memory after `Fx33`: the hundreds, tens and units of `v` at `index`,
/// `index + 1` and `index + 2`.
pub open spec fn stored_bcd(m: MachineView, v: u8) -> Seq<u8> {
    m.memory.update(m.index as int, v / 100).update(m.index + 1, (v / 10) % 10).update(
        m.index + 2,
        v % 10,
    )
}

/// The state after executing `ins` in `m`, whose program counter already
/// points past `ins`, with `key` the key held down (if any) and `random` the
/// byte drawn for `Cxnn`; or the fault that stops it.
pub open spec fn execute_spec(m: MachineView, ins: Instruction, key: Option<u8>, random: u8) -> Result<
    (MachineView, CycleState),
    FaultKind,
> {
    let regs = m.registers;
    match ins {
        Instruction::ClearDisplay => Ok(
            (MachineView { display: Seq::new(32, |r: int| 0u64), ..m }, CycleState::Running),
        ),
        Instruction::Return => if m.stack.len() == 0 {
            Err(FaultKind::EmptyStack)
        } else {
            Ok(
                (
                    MachineView { pc: m.stack.last(), stack: m.stack.drop_last(), ..m },
                    CycleState::Running,
                ),
            )
        },
        Instruction::Jump(a) => Ok((MachineView { pc: a as usize, ..m }, CycleState::Running)),
        Instruction::Call(a) => if m.stack.len() >= STACK_CAPACITY {
            Err(FaultKind::StackOverflow)
        } else {
            Ok(
                (
                    MachineView { pc: a as usize, stack: m.stack.push(m.pc), ..m },
                    CycleState::Running,
                ),
            )
        },
        Instruction::SkipIfEqual(x, nn) => Ok(
            (skip_if(m, regs[x as int] == nn), CycleState::Running),
        ),
        Instruction::SkipIfNotEqual(x, nn) => Ok(
            (skip_if(m, regs[x as int] != nn), CycleState::Running),
        ),
        Instruction::SkipIfRegistersEqual(x, y) => Ok(
            (skip_if(m, regs[x as int] == regs[y as int]), CycleState::Running),
        ),
        Instruction::SetRegister(x, nn) => Ok((with_register(m, x, nn), CycleState::Running)),
        Instruction::AddToRegister(x, nn) => Ok(
            (with_register(m, x, ((regs[x as int] + nn) % 256) as u8), CycleState::Running),
        ),
        Instruction::Alu(op, x, y) => Ok(
            (MachineView { registers: alu_spec(regs, op, x, y), ..m }, CycleState::Running),
        ),
        Instruction::SkipIfRegistersNotEqual(x, y) => Ok(
            (skip_if(m, regs[x as int] != regs[y as int]), CycleState::Running),
        ),
        Instruction::SetIndex(a) => Ok((MachineView { index: a, ..m }, CycleState::Running)),
        Instruction::JumpWithOffset(a) => Ok(
            (MachineView { pc: (a + regs[0]) as usize, ..m }, CycleState::Running),
        ),
        Instruction::Random(x, nn) => Ok((with_register(m, x, random & nn), CycleState::Running)),
        Instruction::Draw(x, y, n) => if !in_memory(m.index as int, n as int) {
            Err(FaultKind::MemoryOutOfBounds)
        } else {
            let sprite = m.memory.subrange(m.index as int, m.index + n);
            let vx = regs[x as int];
            let vy = regs[y as int];
            Ok(
                (
                    MachineView {
                        display: drawn(m.display, vx, vy, sprite),
                        registers: regs.update(
                            FLAG_REGISTER as int,
                            if collides(m.display, vx, vy, sprite) { 1u8 } else { 0u8 },
                        ),
                        ..m
                    },
                    CycleState::Running,
                ),
            )
        },
        Instruction::SkipIfKeyPressed(x) => Ok(
            (skip_if(m, key matches Some(k) && regs[x as int] == k), CycleState::Running),
        ),
        Instruction::SkipIfKeyNotPressed(x) => Ok(
            (skip_if(m, key matches Some(k) && regs[x as int] != k), CycleState::Running),
        ),
        Instruction::ReadDelayTimer(x) => Ok(
            (with_register(m, x, m.delay.count), CycleState::Running),
        ),
        Instruction::WaitForKey(x) => match key {
            Some(k) => Ok((with_register(m, x, k), CycleState::Running)),
            None => Ok((advance(m, -2), CycleState::WaitingForKey)),
        },
        Instruction::SetDelayTimer(x) => Ok(
            (MachineView { delay: set_spec(m.delay, regs[x as int]), ..m }, CycleState::Running),
        ),
        Instruction::SetSoundTimer(x) => Ok(
            (MachineView { sound: set_spec(m.sound, regs[x as int]), ..m }, CycleState::Running),
        ),
        Instruction::AddToIndex(x) => Ok(
            (
                MachineView { index: ((m.index + regs[x as int]) % 0x10000) as u16, ..m },
                CycleState::Running,
            ),
        ),
        Instruction::SetIndexToGlyph(x) => Ok(
            (
                MachineView { index: (regs[x as int] * GLYPH_SIZE) as u16, ..m },
                CycleState::Running,
            ),
        ),
        Instruction::StoreBcd(x) => if !in_memory(m.index as int, 3) {
            Err(FaultKind::MemoryOutOfBounds)
        } else {
            Ok((MachineView { memory: stored_bcd(m, regs[x as int]), ..m }, CycleState::Running))
        },
        Instruction::StoreRegisters(x) => if !in_memory(m.index as int, x + 1) {
            Err(FaultKind::MemoryOutOfBounds)
        } else {
            Ok((MachineView { memory: stored_registers(m, x), ..m }, CycleState::Running))
        },
        Instruction::LoadRegisters(x) => if !in_memory(m.index as int, x + 1) {
            Err(FaultKind::MemoryOutOfBounds)
        } else {
            Ok((MachineView { registers: loaded_registers(m, x), ..m }, CycleState::Running))
        },
    }
}

/// One fetch-decode-execute step from `m`: the next state and what became of
/// the machine. A halt or a fault leaves the state as it was.
pub open spec fn step_spec(m: MachineView, key: Option<u8>, random: u8) -> (
    MachineView,
    Result<CycleState, Fault>,
) {
    if m.pc + 1 >= MEMORY_SIZE {
        (m, Ok(CycleState::Halted))
    } else {
        let w = word_at(m.memory, m.pc as int);
        if w == 0 {
            (m, Ok(CycleState::Halted))
        } else {
            match decode_spec(w) {
                None => (m, Err(Fault { kind: FaultKind::UnknownInstruction, pc: m.pc, opcode: w })),
                Some(ins) => match execute_spec(advance(m, 2), ins, key, random) {
                    Ok((next, state)) => (next, Ok(state)),
                    Err(kind) => (m, Err(Fault { kind, pc: m.pc, opcode: w })),
                },
            }
        }
    }
}

/// `m` after `elapsed` nanoseconds of real time: both timers decay.
pub open spec fn elapse(m: MachineView, elapsed: u64) -> MachineView {
    MachineView { delay: tick_spec(m.delay, elapsed), sound: tick_spec(m.sound, elapsed), ..m }
}

} // verus!
