//! Properties of the instruction set that hold for every machine state.
use vstd::prelude::*;
use crate::decode::{AluOp, Instruction};
use crate::display::{collides, drawn, row_mask, row_offset};
use crate::machine::{
    CycleState,
    Fault,
    FaultKind,
    MEMORY_SIZE,
    MachineView,
    advance,
    execute_spec,
    step_spec,
    word_at,
};

verus! {

/// XOR-ing the same mask twice gives the row back.
proof fn lemma_xor_twice(r: u64, mask: u64)
    ensures
        (r ^ mask) ^ mask == r,
        (0u64 ^ mask) & mask == mask,
{
    assert((r ^ mask) ^ mask == r) by (bit_vector);
    assert((0u64 ^ mask) & mask == mask) by (bit_vector);
}

/// A sprite row with a pixel on covers some pixel wherever it stands.
proof fn lemma_mask_nonzero(byte: u8, x: u8)
    requires
        byte != 0,
    ensures
        row_mask(byte, x) != 0,
{
    let s: u64 = (byte as u64) << 56u64;
    let k: u64 = (x % 64) as u64;
    assert(s != 0) by (bit_vector)
        requires
            byte != 0,
            s == (byte as u64) << 56u64,
    ;
    if k != 0 {
        assert((s >> k) | (s << (64 - k) as u64) != 0) by (bit_vector)
            requires
                s != 0,
                0 < k < 64,
        ;
    }
}

/// Drawing the same sprite twice at the same place gives the display back;
/// on a blank display, a sprite with a pixel on collides the second time.
pub proof fn draw_twice_law(rows: Seq<u64>, x: u8, y: u8, sprite: Seq<u8>)
    requires
        rows.len() == 32,
        sprite.len() <= 15,
    ensures
        drawn(drawn(rows, x, y, sprite), x, y, sprite) == rows,
        (forall|r: int| 0 <= r < 32 ==> rows[r] == 0u64) && (exists|i: int|
            0 <= i < sprite.len() && sprite[i] != 0) ==> collides(
            drawn(rows, x, y, sprite),
            x,
            y,
            sprite,
        ),
{
    let once = drawn(rows, x, y, sprite);
    assert forall|r: int| 0 <= r < 32 implies drawn(once, x, y, sprite)[r] == rows[r] by {
        if row_offset(y, r) < sprite.len() {
            lemma_xor_twice(rows[r], row_mask(sprite[row_offset(y, r)], x));
        }
    }
    assert(drawn(once, x, y, sprite) =~= rows);
    if (forall|r: int| 0 <= r < 32 ==> rows[r] == 0u64) && (exists|i: int|
        0 <= i < sprite.len() && sprite[i] != 0) {
        let i = choose|i: int| 0 <= i < sprite.len() && sprite[i] != 0;
        let r = ((y as int) + i) % 32;
        assert(row_offset(y, r) == i);
        let mask = row_mask(sprite[i], x);
        lemma_mask_nonzero(sprite[i], x);
        lemma_xor_twice(rows[r], mask);
        assert(once[r] & mask != 0);
    }
}

/// Add-with-carry (`8xy4`) with `x` not the flag register: the flag is 1
/// exactly when `Vx + Vy` exceeds 255, and `Vx` becomes the sum modulo 256.
pub proof fn add_with_carry_law(m: MachineView, x: u8, y: u8, key: Option<u8>, random: u8)
    requires
        m.registers.len() == 16,
        x < 15,
        y < 16,
    ensures
        ({
            let a = m.registers[x as int];
            let b = m.registers[y as int];
            let next = execute_spec(m, Instruction::Alu(AluOp::AddWithCarry, x, y), key, random);
            next matches Ok((n, state)) && state == CycleState::Running && (n.registers[15] == 1
                <==> a + b > 255) && (n.registers[15] == 0 <==> a + b <= 255) && n.registers[x as int]
                == (a + b) % 256
        }),
{
}

/// Subtract-with-borrow (`8xy5`) with `x` not the flag register: the flag is
/// 1 exactly when `Vx >= Vy`, and `Vx` becomes the difference modulo 256.
pub proof fn sub_with_borrow_law(m: MachineView, x: u8, y: u8, key: Option<u8>, random: u8)
    requires
        m.registers.len() == 16,
        x < 15,
        y < 16,
    ensures
        ({
            let a = m.registers[x as int];
            let b = m.registers[y as int];
            let next = execute_spec(m, Instruction::Alu(AluOp::SubWithBorrow, x, y), key, random);
            next matches Ok((n, state)) && state == CycleState::Running && (n.registers[15] == 1
                <==> a >= b) && (n.registers[15] == 0 <==> a < b) && n.registers[x as int] == (a
                - b) % 256
        }),
{
}

/// Shift-right (`8xy6`) then shift-left (`8xyE`) of register `x`, not the
/// flag register: the shift right puts the bit shifted out in the flag, and
/// the pair gives back the value with that bit cleared. Where that bit is 0
/// the value comes back whole and the flag holds the bit after both shifts.
pub proof fn shift_round_trip_law(
    m: MachineView,
    x: u8,
    y: u8,
    key: Option<u8>,
    random: u8,
)
    requires
        m.registers.len() == 16,
        x < 15,
        y < 16,
    ensures
        ({
            let v = m.registers[x as int];
            let first = execute_spec(m, Instruction::Alu(AluOp::ShiftRight, x, y), key, random);
            first matches Ok((m1, _)) && m1.registers[15] == v % 2 && ({
                let second = execute_spec(m1, Instruction::Alu(AluOp::ShiftLeft, x, y), key, random);
                second matches Ok((m2, _)) && m2.registers[x as int] == v - v % 2 && (v % 2 == 0
                    ==> m2.registers[x as int] == v && m2.registers[15] == v % 2)
            })
        }),
{
}

/// A call (`2nnn`) whose target holds a return (`00EE`), with fewer than 16
/// calls pending, runs, and the return that follows it brings the machine
/// back to the state before the call with the program counter on the
/// instruction after the call.
pub proof fn call_then_return_law(
    m: MachineView,
    target: u16,
    key: Option<u8>,
    random1: u8,
    random2: u8,
)
    requires
        m.memory.len() == MEMORY_SIZE,
        m.pc + 1 < MEMORY_SIZE,
        target + 1 < MEMORY_SIZE,
        word_at(m.memory, m.pc as int) == 0x2000 + target,
        word_at(m.memory, target as int) == 0x00EE,
        m.stack.len() < 16,
    ensures
        ({
            let (m1, r1) = step_spec(m, key, random1);
            let (m2, r2) = step_spec(m1, key, random2);
            r1 == Ok::<CycleState, Fault>(CycleState::Running) && m1.pc == target && m1.stack == m.stack.push(
                (m.pc + 2) as usize,
            ) && r2 == Ok::<CycleState, Fault>(CycleState::Running) && m2 == advance(m, 2)
        }),
{
    let (m1, r1) = step_spec(m, key, random1);
    assert(m1.stack.drop_last() =~= m.stack);
}

/// A call (`2nnn`) with 16 calls already pending faults with
/// `StackOverflow` and changes nothing.
pub proof fn call_overflow_law(m: MachineView, target: u16, key: Option<u8>, random: u8)
    requires
        m.memory.len() == MEMORY_SIZE,
        m.pc + 1 < MEMORY_SIZE,
        target < 0x1000,
        word_at(m.memory, m.pc as int) == 0x2000 + target,
        m.stack.len() == 16,
    ensures
        step_spec(m, key, random) == (
            m,
            Err::<CycleState, Fault>(
                Fault { kind: FaultKind::StackOverflow, pc: m.pc, opcode: (0x2000 + target) as u16 },
            ),
        ),
{
}

/// A return (`00EE`) with no call pending faults with `EmptyStack` and
/// changes nothing.
pub proof fn return_without_call_law(m: MachineView, key: Option<u8>, random: u8)
    requires
        m.memory.len() == MEMORY_SIZE,
        m.pc + 1 < MEMORY_SIZE,
        word_at(m.memory, m.pc as int) == 0x00EE,
        m.stack.len() == 0,
    ensures
        step_spec(m, key, random) == (
            m,
            Err::<CycleState, Fault>(
                Fault { kind: FaultKind::EmptyStack, pc: m.pc, opcode: 0x00EE },
            ),
        ),
{
}

/// Wait-for-key (`Fx0A`) with no key held changes nothing, so every further
/// cycle without a key finds the same instruction; with key `k` held, `Vx`
/// becomes `k` and the program counter moves to the next instruction.
pub proof fn wait_for_key_law(m: MachineView, x: u8, k: u8, random: u8)
    requires
        m.memory.len() == MEMORY_SIZE,
        m.pc + 1 < MEMORY_SIZE,
        x < 16,
        word_at(m.memory, m.pc as int) == 0xF00A + 0x100 * x,
    ensures
        step_spec(m, None, random) == (m, Ok::<CycleState, Fault>(CycleState::WaitingForKey)),
        step_spec(m, Some(k), random) == (
            MachineView { pc: (m.pc + 2) as usize, registers: m.registers.update(x as int, k), ..m },
            Ok::<CycleState, Fault>(CycleState::Running),
        ),
{
    assert(advance(advance(m, 2), -2) == m);
}

} // verus!
