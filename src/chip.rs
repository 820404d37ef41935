//! The machine itself: it owns all state and runs the fetch-decode-execute
//! cycle described in `machine`.
use vstd::prelude::*;
use crate::decode::{AluOp, Instruction, decode, operands_in_range};
use crate::display::{clear, draw_sprite};
use crate::config::Config;
use crate::machine::{
    CycleState,
    FLAG_REGISTER,
    Fault,
    FaultKind,
    GLYPH_AREA,
    GLYPH_SIZE,
    MEMORY_SIZE,
    MachineView,
    PROGRAM_START,
    alu_spec,
    elapse,
    execute_spec,
    glyphs,
    initial_memory,
    initial_state,
    load_error,
    loaded_registers,
    skip_if,
    step_spec,
    stored_registers,
    with_register,
};
use crate::rom::{LoadError, Rom};
use crate::stack::StackPointer;
use crate::timer::Timer;

verus! {

/// A bound on the program counter and on every return address: above the
/// largest jump target (`0xFFF + 0xFF`) and above every address past a fetch.
const PC_LIMIT: usize = 0x2000;

/// Relies on rand::random: a byte drawn from the thread-local generator.
/// Nothing is promised of its value.
#[verifier::external_body]
fn random_byte() -> (r: u8) {
    rand::random::<u8>()
}

/// The virtual machine.
pub struct Chip8 {
    registers: [u8; 16],
    i_register: u16,
    delay_timer: Timer,
    sound_timer: Timer,
    memory: [u8; 4096],
    pc: usize,
    sp: StackPointer,
    /// The display rows, for a front end to render.
    pub display: [u64; 32],
}

impl View for Chip8 {
    type V = MachineView;

    closed spec fn view(&self) -> MachineView {
        MachineView {
            registers: self.registers@,
            index: self.i_register,
            pc: self.pc,
            stack: self.sp@,
            memory: self.memory@,
            display: self.display@,
            delay: self.delay_timer@,
            sound: self.sound_timer@,
        }
    }
}

impl Chip8 {
    /// The program counter and every return address stay below `PC_LIMIT`.
    pub closed spec fn wf(&self) -> bool {
        &&& self.pc <= PC_LIMIT
        &&& forall|i: int| 0 <= i < self.sp@.len() ==> self.sp@[i] <= PC_LIMIT
    }

    /// A machine with `rom` loaded at the configured offset, or why it
    /// cannot be loaded.
    pub fn new(rom: Rom, config: &Config) -> (r: Result<Chip8, LoadError>)
        ensures
            match load_error(rom.length as int, config.rom_offset as int) {
                Some(e) => r matches Err(f) && f == e,
                None => r matches Ok(c) && c.wf() && c@ == initial_state(
                    rom.bytes(),
                    config.rom_offset,
                    config.delay_timer_hertz,
                    config.sound_timer_hertz,
                ),
            },
    {
        let offset = config.rom_offset as usize;
        if rom.length == 0 {
            return Err(LoadError::EmptyRom);
        }
        if config.rom_offset < PROGRAM_START {
            return Err(LoadError::OffsetBelowProgramArea);
        }
        if offset > MEMORY_SIZE || rom.length > MEMORY_SIZE - offset {
            return Err(LoadError::RomTooLarge);
        }
        let glyph_table: [u8; 80] = [
            0xF0, 0x90, 0x90, 0x90, 0xF0,
            0x20, 0x60, 0x20, 0x20, 0x70,
            0xF0, 0x10, 0xF0, 0x80, 0xF0,
            0xF0, 0x10, 0xF0, 0x10, 0xF0,
            0x90, 0x90, 0xF0, 0x10, 0x10,
            0xF0, 0x80, 0xF0, 0x10, 0xF0,
            0xF0, 0x80, 0xF0, 0x90, 0xF0,
            0xF0, 0x10, 0x20, 0x40, 0x40,
            0xF0, 0x90, 0xF0, 0x90, 0xF0,
            0xF0, 0x90, 0xF0, 0x10, 0xF0,
            0xF0, 0x90, 0xF0, 0x90, 0x90,
            0xE0, 0x90, 0xE0, 0x90, 0xE0,
            0xF0, 0x80, 0x80, 0x80, 0xF0,
            0xE0, 0x90, 0x90, 0x90, 0xE0,
            0xF0, 0x80, 0xF0, 0x80, 0xF0,
            0xF0, 0x80, 0xF0, 0x80, 0x80,
        ];
        assert(glyph_table@ =~= glyphs());
        let mut memory = [0u8; 4096];
        let mut a: usize = 0;
        while a < GLYPH_AREA
            invariant
                a <= GLYPH_AREA,
                glyph_table@ == glyphs(),
                forall|b: int| 0 <= b < a ==> memory@[b] == glyphs()[b],
                forall|b: int| a <= b < MEMORY_SIZE ==> memory@[b] == 0u8,
            decreases GLYPH_AREA - a,
        {
            memory[a] = glyph_table[a];
            a = a + 1;
        }
        let mut i: usize = 0;
        while i < rom.length
            invariant
                PROGRAM_START <= offset,
                offset + rom.length <= MEMORY_SIZE,
                i <= rom.length,
                forall|b: int| 0 <= b < GLYPH_AREA ==> memory@[b] == glyphs()[b],
                forall|b: int| offset <= b < offset + i ==> memory@[b] == rom.program@[b - offset],
                forall|b: int| offset + i <= b < MEMORY_SIZE ==> memory@[b] == 0u8,
                forall|b: int| GLYPH_AREA <= b < offset ==> memory@[b] == 0u8,
            decreases rom.length - i,
        {
            memory[offset + i] = rom.program[i];
            i = i + 1;
        }
        assert(memory@ =~= initial_memory(rom.bytes(), offset as int));
        let c = Chip8 {
            registers: [0; 16],
            i_register: 0,
            delay_timer: Timer::new(config.delay_timer_hertz),
            sound_timer: Timer::new(config.sound_timer_hertz),
            memory,
            pc: offset,
            sp: StackPointer::new(),
            display: [0; 32],
        };
        assert(c.registers@ =~= Seq::new(16, |r: int| 0u8));
        assert(c.display@ =~= Seq::new(32, |r: int| 0u64));
        Ok(c)
    }

    fn skip_when(&mut self, cond: bool)
        requires
            old(self).pc + 2 <= PC_LIMIT,
        ensures
            final(self)@ == skip_if(old(self)@, cond),
            final(self).sp@ == old(self).sp@,
            final(self).pc <= PC_LIMIT,
    {
        if cond {
            self.pc = self.pc + 2;
        }
    }

    fn set_register(&mut self, x: u8, v: u8)
        requires
            x < 16,
        ensures
            final(self)@ == with_register(old(self)@, x, v),
            final(self).sp@ == old(self).sp@,
            final(self).pc == old(self).pc,
    {
        self.registers[x as usize] = v;
    }

    fn alu(&mut self, op: AluOp, x: u8, y: u8)
        requires
            x < 16,
            y < 16,
        ensures
            final(self)@ == (MachineView { registers: alu_spec(old(self)@.registers, op, x, y), ..old(self)@ }),
            final(self).sp@ == old(self).sp@,
            final(self).pc == old(self).pc,
    {
        let a = self.registers[x as usize];
        let b = self.registers[y as usize];
        let ghost regs = self.registers@;
        match op {
            AluOp::Assign => {
                self.registers[x as usize] = b;
            },
            AluOp::Or => {
                self.registers[x as usize] = a | b;
            },
            AluOp::And => {
                self.registers[x as usize] = a & b;
            },
            AluOp::Xor => {
                self.registers[x as usize] = a ^ b;
            },
            AluOp::AddWithCarry => {
                let sum: u16 = a as u16 + b as u16;
                self.registers[FLAG_REGISTER] = if sum > 255 { 1 } else { 0 };
                self.registers[x as usize] = (sum % 256) as u8;
            },
            AluOp::SubWithBorrow => {
                self.registers[FLAG_REGISTER] = if a >= b { 1 } else { 0 };
                self.registers[x as usize] = ((a as u16 + 256 - b as u16) % 256) as u8;
            },
            AluOp::ShiftRight => {
                self.registers[FLAG_REGISTER] = a % 2;
                self.registers[x as usize] = a / 2;
            },
            AluOp::SubReversed => {
                self.registers[FLAG_REGISTER] = if b >= a { 1 } else { 0 };
                self.registers[x as usize] = ((b as u16 + 256 - a as u16) % 256) as u8;
            },
            AluOp::ShiftLeft => {
                self.registers[FLAG_REGISTER] = a / 128;
                self.registers[x as usize] = ((a as u16 * 2) % 256) as u8;
            },
        }
        assert(self.registers@ =~= alu_spec(regs, op, x, y));
    }

    fn draw(&mut self, x: u8, y: u8, n: u8) -> (r: Result<(), FaultKind>)
        requires
            x < 16,
            y < 16,
            n < 16,
        ensures
            ({
                let m = old(self)@;
                match execute_spec(m, Instruction::Draw(x, y, n), None, 0) {
                    Ok((next, _)) => r == Ok::<(), FaultKind>(()) && final(self)@ == next,
                    Err(k) => r == Err::<(), FaultKind>(k) && final(self)@ == m,
                }
            }),
            final(self).sp@ == old(self).sp@,
            final(self).pc == old(self).pc,
    {
        let start = self.i_register as usize;
        let count = n as usize;
        if start + count > MEMORY_SIZE {
            return Err(FaultKind::MemoryOutOfBounds);
        }
        let mut sprite: Vec<u8> = Vec::new();
        let mut k: usize = 0;
        while k < count
            invariant
                k <= count < 16,
                start + count <= MEMORY_SIZE,
                sprite@ == self.memory@.subrange(start as int, (start + k) as int),
            decreases count - k,
        {
            sprite.push(self.memory[start + k]);
            k = k + 1;
            assert(sprite@ =~= self.memory@.subrange(start as int, (start + k) as int));
        }
        let vx = self.registers[x as usize];
        let vy = self.registers[y as usize];
        let collision = draw_sprite(&mut self.display, vx, vy, sprite.as_slice());
        self.registers[FLAG_REGISTER] = if collision { 1 } else { 0 };
        Ok(())
    }

    fn store_bcd(&mut self, x: u8) -> (r: Result<(), FaultKind>)
        requires
            x < 16,
        ensures
            ({
                let m = old(self)@;
                match execute_spec(m, Instruction::StoreBcd(x), None, 0) {
                    Ok((next, _)) => r == Ok::<(), FaultKind>(()) && final(self)@ == next,
                    Err(k) => r == Err::<(), FaultKind>(k) && final(self)@ == m,
                }
            }),
            final(self).sp@ == old(self).sp@,
            final(self).pc == old(self).pc,
    {
        let start = self.i_register as usize;
        if start + 3 > MEMORY_SIZE {
            return Err(FaultKind::MemoryOutOfBounds);
        }
        let v = self.registers[x as usize];
        self.memory[start] = v / 100;
        self.memory[start + 1] = (v / 10) % 10;
        self.memory[start + 2] = v % 10;
        Ok(())
    }

    fn store_registers(&mut self, x: u8) -> (r: Result<(), FaultKind>)
        requires
            x < 16,
        ensures
            ({
                let m = old(self)@;
                match execute_spec(m, Instruction::StoreRegisters(x), None, 0) {
                    Ok((next, _)) => r == Ok::<(), FaultKind>(()) && final(self)@ == next,
                    Err(k) => r == Err::<(), FaultKind>(k) && final(self)@ == m,
                }
            }),
            final(self).sp@ == old(self).sp@,
            final(self).pc == old(self).pc,
    {
        let start = self.i_register as usize;
        let last = x as usize;
        if start + last + 1 > MEMORY_SIZE {
            return Err(FaultKind::MemoryOutOfBounds);
        }
        let ghost m = self@;
        let mut i: usize = 0;
        while i <= last
            invariant
                last < 16,
                start + last + 1 <= MEMORY_SIZE,
                start == m.index,
                i <= last + 1,
                self@ == (MachineView { memory: self.memory@, ..m }),
                m.registers.len() == 16,
                self.memory@.len() == m.memory.len(),
                forall|a: int|
                    #![trigger self.memory@[a]]
                    0 <= a < m.memory.len() ==> self.memory@[a] == if start <= a < start + i {
                        m.registers[a - start]
                    } else {
                        m.memory[a]
                    },
            decreases last + 1 - i,
        {
            self.memory[start + i] = self.registers[i];
            i = i + 1;
        }
        assert(self.memory@ =~= stored_registers(m, x));
        Ok(())
    }

    fn load_registers(&mut self, x: u8) -> (r: Result<(), FaultKind>)
        requires
            x < 16,
        ensures
            ({
                let m = old(self)@;
                match execute_spec(m, Instruction::LoadRegisters(x), None, 0) {
                    Ok((next, _)) => r == Ok::<(), FaultKind>(()) && final(self)@ == next,
                    Err(k) => r == Err::<(), FaultKind>(k) && final(self)@ == m,
                }
            }),
            final(self).sp@ == old(self).sp@,
            final(self).pc == old(self).pc,
    {
        let start = self.i_register as usize;
        let last = x as usize;
        if start + last + 1 > MEMORY_SIZE {
            return Err(FaultKind::MemoryOutOfBounds);
        }
        let ghost m = self@;
        let mut i: usize = 0;
        while i <= last
            invariant
                last < 16,
                start + last + 1 <= MEMORY_SIZE,
                start == m.index,
                i <= last + 1,
                self@ == (MachineView { registers: self.registers@, ..m }),
                m.registers.len() == 16,
                self.registers@.len() == 16,
                forall|r: int|
                    #![trigger self.registers@[r]]
                    0 <= r < 16 ==> self.registers@[r] == if r < i {
                        m.memory[start + r]
                    } else {
                        m.registers[r]
                    },
            decreases last + 1 - i,
        {
            self.registers[i] = self.memory[start + i];
            i = i + 1;
        }
        assert(self.registers@ =~= loaded_registers(m, x));
        Ok(())
    }

    /// Executes `ins`, with the program counter already past it.
    fn execute(&mut self, ins: Instruction, key: Option<u8>, random: u8) -> (r: Result<
        CycleState,
        FaultKind,
    >)
        requires
            old(self).wf(),
            operands_in_range(ins),
            2 <= old(self).pc <= MEMORY_SIZE,
        ensures
            final(self).wf(),
            match execute_spec(old(self)@, ins, key, random) {
                Ok((next, state)) => r == Ok::<CycleState, FaultKind>(state) && final(self)@ == next,
                Err(k) => r == Err::<CycleState, FaultKind>(k) && final(self)@ == old(self)@,
            },
    {
        match ins {
            Instruction::ClearDisplay => {
                clear(&mut self.display);
                assert(self.display@ =~= Seq::new(32, |r: int| 0u64));
            },
            Instruction::Return => {
                match self.sp.pop() {
                    Ok(addr) => {
                        self.pc = addr;
                        assert(forall|i: int|
                            0 <= i < self.sp@.len() ==> self.sp@[i] == old(self).sp@[i]);
                    },
                    Err(_) => {
                        return Err(FaultKind::EmptyStack);
                    },
                }
            },
            Instruction::Jump(a) => {
                self.pc = a as usize;
            },
            Instruction::Call(a) => {
                match self.sp.push(self.pc) {
                    Ok(()) => {
                        self.pc = a as usize;
                        assert(forall|i: int|
                            0 <= i < self.sp@.len() - 1 ==> self.sp@[i] == old(self).sp@[i]);
                    },
                    Err(_) => {
                        return Err(FaultKind::StackOverflow);
                    },
                }
            },
            Instruction::SkipIfEqual(x, nn) => {
                let v = self.registers[x as usize];
                self.skip_when(v == nn);
            },
            Instruction::SkipIfNotEqual(x, nn) => {
                let v = self.registers[x as usize];
                self.skip_when(v != nn);
            },
            Instruction::SkipIfRegistersEqual(x, y) => {
                let cond = self.registers[x as usize] == self.registers[y as usize];
                self.skip_when(cond);
            },
            Instruction::SetRegister(x, nn) => {
                self.set_register(x, nn);
            },
            Instruction::AddToRegister(x, nn) => {
                let v = ((self.registers[x as usize] as u16 + nn as u16) % 256) as u8;
                self.set_register(x, v);
            },
            Instruction::Alu(op, x, y) => {
                self.alu(op, x, y);
            },
            Instruction::SkipIfRegistersNotEqual(x, y) => {
                let cond = self.registers[x as usize] != self.registers[y as usize];
                self.skip_when(cond);
            },
            Instruction::SetIndex(a) => {
                self.i_register = a;
            },
            Instruction::JumpWithOffset(a) => {
                self.pc = a as usize + self.registers[0] as usize;
            },
            Instruction::Random(x, nn) => {
                self.set_register(x, random & nn);
            },
            Instruction::Draw(x, y, n) => {
                match self.draw(x, y, n) {
                    Ok(()) => {},
                    Err(k) => {
                        return Err(k);
                    },
                }
            },
            Instruction::SkipIfKeyPressed(x) => {
                let cond = match key {
                    Some(k) => self.registers[x as usize] == k,
                    None => false,
                };
                self.skip_when(cond);
            },
            Instruction::SkipIfKeyNotPressed(x) => {
                let cond = match key {
                    Some(k) => self.registers[x as usize] != k,
                    None => false,
                };
                self.skip_when(cond);
            },
            Instruction::ReadDelayTimer(x) => {
                let v = self.delay_timer.get();
                self.set_register(x, v);
            },
            Instruction::WaitForKey(x) => {
                match key {
                    Some(k) => {
                        self.set_register(x, k);
                    },
                    None => {
                        self.pc = self.pc - 2;
                        return Ok(CycleState::WaitingForKey);
                    },
                }
            },
            Instruction::SetDelayTimer(x) => {
                let v = self.registers[x as usize];
                self.delay_timer.set(v);
            },
            Instruction::SetSoundTimer(x) => {
                let v = self.registers[x as usize];
                self.sound_timer.set(v);
            },
            Instruction::AddToIndex(x) => {
                let sum = self.i_register as u32 + self.registers[x as usize] as u32;
                self.i_register = (sum % 0x10000) as u16;
            },
            Instruction::SetIndexToGlyph(x) => {
                self.i_register = self.registers[x as usize] as u16 * GLYPH_SIZE;
            },
            Instruction::StoreBcd(x) => {
                match self.store_bcd(x) {
                    Ok(()) => {},
                    Err(k) => {
                        return Err(k);
                    },
                }
            },
            Instruction::StoreRegisters(x) => {
                match self.store_registers(x) {
                    Ok(()) => {},
                    Err(k) => {
                        return Err(k);
                    },
                }
            },
            Instruction::LoadRegisters(x) => {
                match self.load_registers(x) {
                    Ok(()) => {},
                    Err(k) => {
                        return Err(k);
                    },
                }
            },
        }
        Ok(CycleState::Running)
    }

    /// One fetch-decode-execute step: `key` is the key held down, if any,
    /// and `random` the byte that a `Cxnn` instruction draws. Timers are left
    /// alone. A halt or a fault leaves the machine as it was.
    pub fn step(&mut self, key: Option<u8>, random: u8) -> (r: Result<CycleState, Fault>)
        requires
            old(self).wf(),
        ensures
            final(self).wf(),
            (final(self)@, r) == step_spec(old(self)@, key, random),
    {
        let pc = self.pc;
        if pc + 1 >= MEMORY_SIZE {
            return Ok(CycleState::Halted);
        }
        let word: u16 = self.memory[pc] as u16 * 0x100 + self.memory[pc + 1] as u16;
        if word == 0 {
            return Ok(CycleState::Halted);
        }
        match decode(word) {
            None => Err(Fault { kind: FaultKind::UnknownInstruction, pc, opcode: word }),
            Some(ins) => {
                self.pc = pc + 2;
                match self.execute(ins, key, random) {
                    Ok(state) => Ok(state),
                    Err(kind) => {
                        self.pc = pc;
                        Err(Fault { kind, pc, opcode: word })
                    },
                }
            },
        }
    }

    /// One cycle: `elapsed_nanos` of real time pass for both timers, then one
    /// instruction runs with `key` the key held down, if any. A `Cxnn`
    /// instruction draws its byte at random.
    pub fn run_cycle(&mut self, key: Option<u8>, elapsed_nanos: u64) -> (r: Result<
        CycleState,
        Fault,
    >)
        requires
            old(self).wf(),
        ensures
            final(self).wf(),
            exists|random: u8|
                #[trigger] step_spec(elapse(old(self)@, elapsed_nanos), key, random) == (
                    final(self)@,
                    r,
                ),
    {
        let ghost before = self@;
        self.delay_timer.check(elapsed_nanos);
        self.sound_timer.check(elapsed_nanos);
        assert(self@ == elapse(before, elapsed_nanos));
        let random = random_byte();
        let r = self.step(key, random);
        assert(step_spec(elapse(before, elapsed_nanos), key, random) == (self@, r));
        r
    }

    /// The value of register `i`.
    pub fn register(&self, i: usize) -> (r: u8)
        requires
            i < 16,
        ensures
            r == self@.registers[i as int],
    {
        self.registers[i]
    }

    /// The program counter.
    pub fn pc(&self) -> (r: usize)
        ensures
            r == self@.pc,
    {
        self.pc
    }

    /// The index register.
    pub fn index(&self) -> (r: u16)
        ensures
            r == self@.index,
    {
        self.i_register
    }

    /// The byte at `addr`.
    pub fn memory_at(&self, addr: usize) -> (r: u8)
        requires
            addr < MEMORY_SIZE,
        ensures
            r == self@.memory[addr as int],
    {
        self.memory[addr]
    }

    /// The count of the delay timer.
    pub fn delay_timer(&self) -> (r: u8)
        ensures
            r == self@.delay.count,
    {
        self.delay_timer.get()
    }

    /// The count of the sound timer.
    pub fn sound_timer(&self) -> (r: u8)
        ensures
            r == self@.sound.count,
    {
        self.sound_timer.get()
    }

    /// The number of calls pending.
    pub fn stack_depth(&self) -> (r: usize)
        ensures
            r == self@.stack.len(),
    {
        self.sp.len()
    }
}

} // verus!
