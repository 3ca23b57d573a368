use vstd::prelude::*;

use crate::display::{blank_grid, blit, collides, is_grid, screen_view, Display, Screen, SPRITES};
use crate::instruction::{
    decode, lemma_decode_operands_in_range, registers_in_range, Address, Instruction, Register,
    Value,
};

verus! {

pub const MEMORY_SIZE: usize = 4096;

/// Where the program image starts in memory.
pub const PROGRAM_START: u16 = 0x200;

/// The number of bytes that a program image may occupy.
pub const MAX_PROGRAM_SIZE: usize = 3584;

/// The number of return addresses that the call stack holds.
pub const STACK_SIZE: usize = 16;

/// The slots of the stack array: the top of the stack is slot `sp`, so
/// slot 0 stays unused and slots 1 to `STACK_SIZE` hold the addresses.
pub const STACK_SLOTS: usize = 17;

pub const INSTRUCTION_SIZE: u16 = 2;

/// The rate, in steps per second, at which the timers count down.
pub const TIMER_RATE: u32 = 60;

/// Everything that the instructions read and write, as mathematical values.
pub struct MachineState {
    pub memory: Seq<u8>,
    pub registers: Seq<u8>,
    pub index: u16,
    pub pc: u16,
    pub stack: Seq<u16>,
    pub sp: u16,
    pub del_timer: u8,
    pub sound_timer: u8,
    /// Cycles since the timers last counted down, modulo `timer_tick`.
    pub tick: u32,
    /// Cycles per timer step.
    pub timer_tick: u32,
    pub keys: Seq<bool>,
    pub screen: Seq<Seq<bool>>,
    pub draw_flag: bool,
    pub faulted: bool,
}

/// The program counter moved on by `by` bytes, wrapping at 16 bits.
pub open spec fn advance(pc: u16, by: int) -> u16 {
    ((pc + by) % 0x10000) as u16
}

/// The memory cell at `offset` bytes past `base`, wrapping at the memory size.
pub open spec fn mem_addr(base: u16, offset: int) -> int {
    (base + offset) % (MEMORY_SIZE as int)
}

/// How many bytes cell `a` lies past `base`, counting round the end of memory.
pub open spec fn offset_from(base: u16, a: int) -> int {
    (a - base) % (MEMORY_SIZE as int)
}

/// Whether key `k` is held down; a number past the last key names no key.
pub open spec fn key_pressed(keys: Seq<bool>, k: u8) -> bool {
    k < 16 && keys[k as int]
}

/// The `n` sprite rows that start at `index` in memory.
pub open spec fn sprite_at(memory: Seq<u8>, index: u16, n: u8) -> Seq<u8> {
    Seq::new(n as nat, |i: int| memory[mem_addr(index, i)])
}

/// Memory as it is when a machine starts: the glyphs at the bottom, the
/// program image from `PROGRAM_START` on, zero elsewhere.
pub open spec fn initial_memory(image: Seq<u8>) -> Seq<u8> {
    Seq::new(
        MEMORY_SIZE as nat,
        |a: int|
            if a < 80 {
                SPRITES@[a]
            } else if PROGRAM_START <= a < PROGRAM_START + image.len() {
                image[a - PROGRAM_START]
            } else {
                0u8
            },
    )
}

/// The state of a machine built from a program image and a clock rate.
pub open spec fn initial_state(image: Seq<u8>, clock_speed: u32) -> MachineState {
    MachineState {
        memory: initial_memory(image),
        registers: Seq::new(16, |i: int| 0u8),
        index: 0,
        pc: PROGRAM_START,
        stack: Seq::new(STACK_SLOTS as nat, |i: int| 0u16),
        sp: 0,
        del_timer: 0,
        sound_timer: 0,
        tick: 0,
        timer_tick: clock_speed / TIMER_RATE,
        keys: Seq::new(16, |i: int| false),
        screen: blank_grid(),
        draw_flag: false,
        faulted: false,
    }
}

impl MachineState {
    pub open spec fn wf(self) -> bool {
        &&& self.memory.len() == MEMORY_SIZE
        &&& self.registers.len() == 16
        &&& self.stack.len() == STACK_SLOTS
        &&& self.keys.len() == 16
        &&& is_grid(self.screen)
        &&& self.sp <= STACK_SIZE
        &&& 0 < self.timer_tick
        &&& self.tick < self.timer_tick
    }

    /// The big-endian instruction word at the program counter.
    pub open spec fn fetch(self) -> u16 {
        (self.memory[mem_addr(self.pc, 0)] * 256 + self.memory[mem_addr(self.pc, 1)]) as u16
    }

    pub open spec fn with_register(self, r: int, v: u8) -> MachineState {
        MachineState { registers: self.registers.update(r, v), ..self }
    }

    pub open spec fn with_pc(self, pc: u16) -> MachineState {
        MachineState { pc, ..self }
    }

    /// Moves on to the next instruction.
    pub open spec fn next(self) -> MachineState {
        self.with_pc(advance(self.pc, INSTRUCTION_SIZE as int))
    }

    /// Moves on by two instructions when `cond` holds, by one otherwise.
    pub open spec fn skip_if(self, cond: bool) -> MachineState {
        self.with_pc(
            advance(self.pc, if cond { 2 * INSTRUCTION_SIZE as int } else { INSTRUCTION_SIZE as int }),
        )
    }

    pub open spec fn fault(self) -> MachineState {
        MachineState { faulted: true, ..self }
    }

    pub open spec fn clear(self) -> MachineState {
        MachineState { screen: blank_grid(), ..self }.next()
    }

    /// Returns to the address on top of the stack; with an empty stack the
    /// machine faults.
    pub open spec fn ret(self) -> MachineState {
        if self.sp == 0 {
            self.fault()
        } else {
            MachineState { pc: self.stack[self.sp as int], sp: (self.sp - 1) as u16, ..self }
        }
    }

    /// Pushes the program counter and jumps; when the stack already holds
    /// `STACK_SIZE` addresses the machine faults.
    pub open spec fn call(self, a: Address) -> MachineState {
        if self.sp >= STACK_SIZE {
            self.fault()
        } else {
            MachineState {
                stack: self.stack.update(self.sp + 1, self.pc),
                sp: (self.sp + 1) as u16,
                pc: a,
                ..self
            }
        }
    }

    pub open spec fn add_reg(self, r1: Register, r2: Register) -> MachineState {
        let a = self.registers[r1 as int];
        let b = self.registers[r2 as int];
        self.with_register(r1 as int, ((a + b) % 256) as u8).with_register(
            15,
            if a + b > 255 { 1u8 } else { 0u8 },
        ).next()
    }

    pub open spec fn sub_reg(self, r1: Register, r2: Register) -> MachineState {
        let a = self.registers[r1 as int];
        let b = self.registers[r2 as int];
        self.with_register(r1 as int, ((a - b) % 256) as u8).with_register(
            15,
            if a >= b { 1u8 } else { 0u8 },
        ).next()
    }

    pub open spec fn shift_right(self, r: Register) -> MachineState {
        let a = self.registers[r as int];
        self.with_register(15, a & 1u8).with_register(r as int, a >> 1u8).next()
    }

    pub open spec fn shift_left(self, r: Register) -> MachineState {
        let a = self.registers[r as int];
        self.with_register(15, a & 0x80u8).with_register(r as int, ((a * 2) % 256) as u8).next()
    }

    pub open spec fn draw(self, r1: Register, r2: Register, n: Value) -> MachineState {
        let sprite = sprite_at(self.memory, self.index, n);
        let x = self.registers[r1 as int] as int;
        let y = self.registers[r2 as int] as int;
        MachineState {
            screen: blit(self.screen, sprite, x, y),
            draw_flag: true,
            ..self
        }.with_register(15, if collides(self.screen, sprite, x, y) { 1u8 } else { 0u8 }).next()
    }

    /// Writes the hundreds, tens and ones of register `r` at the index.
    pub open spec fn load_bcd(self, r: Register) -> MachineState {
        let v = self.registers[r as int];
        MachineState {
            memory: self.memory.update(mem_addr(self.index, 0), v / 100).update(
                mem_addr(self.index, 1),
                (v / 10) % 10,
            ).update(mem_addr(self.index, 2), v % 10),
            ..self
        }.next()
    }

    /// Writes registers 0 to `r` to memory from the index on.
    pub open spec fn store_index(self, r: Register) -> MachineState {
        MachineState {
            memory: Seq::new(
                MEMORY_SIZE as nat,
                |a: int|
                    {
                        let offset = offset_from(self.index, a);
                        if offset <= r {
                            self.registers[offset]
                        } else {
                            self.memory[a]
                        }
                    },
            ),
            ..self
        }.next()
    }

    /// Loads registers 0 to `r` from memory from the index on.
    pub open spec fn read_index(self, r: Register) -> MachineState {
        MachineState {
            registers: Seq::new(
                16,
                |i: int|
                    if i <= r {
                        self.memory[mem_addr(self.index, i)]
                    } else {
                        self.registers[i]
                    },
            ),
            ..self
        }.next()
    }

    /// What one operation does; `random` is the byte that a `Random`
    /// operation masks.
    pub open spec fn execute(self, i: Instruction, random: u8) -> MachineState {
        match i {
            Instruction::Clear => self.clear(),
            Instruction::Return => self.ret(),
            Instruction::ExRoutine(_) => self.next(),
            Instruction::Jump(a) => self.with_pc(a),
            Instruction::Call(a) => self.call(a),
            Instruction::SkipIfEqual(r, v) => self.skip_if(self.registers[r as int] == v),
            Instruction::SkipIfNotEqual(r, v) => self.skip_if(self.registers[r as int] != v),
            Instruction::SkipIfRegEqual(r1, r2) => self.skip_if(
                self.registers[r1 as int] == self.registers[r2 as int],
            ),
            Instruction::LoadVal(r, v) => self.with_register(r as int, v).next(),
            Instruction::AddVal(r, v) => self.with_register(
                r as int,
                ((self.registers[r as int] + v) % 256) as u8,
            ).next(),
            Instruction::LoadReg(r1, r2) => self.with_register(
                r1 as int,
                self.registers[r2 as int],
            ).next(),
            Instruction::Or(r1, r2) => self.with_register(
                r1 as int,
                self.registers[r1 as int] | self.registers[r2 as int],
            ).next(),
            Instruction::And(r1, r2) => self.with_register(
                r1 as int,
                self.registers[r1 as int] & self.registers[r2 as int],
            ).next(),
            Instruction::Xor(r1, r2) => self.with_register(
                r1 as int,
                self.registers[r1 as int] ^ self.registers[r2 as int],
            ).next(),
            Instruction::AddReg(r1, r2) => self.add_reg(r1, r2),
            Instruction::SubReg(r1, r2) => self.sub_reg(r1, r2),
            Instruction::ShiftRight(r) => self.shift_right(r),
            Instruction::ShiftLeft(r) => self.shift_left(r),
            Instruction::SetIndexRegister(a) => MachineState { index: a, ..self }.next(),
            Instruction::Random(r, v) => self.with_register(r as int, v & random).next(),
            Instruction::Draw(r1, r2, n) => self.draw(r1, r2, n),
            Instruction::SkipIfKey(r) => self.skip_if(
                key_pressed(self.keys, self.registers[r as int]),
            ),
            Instruction::SkipIfNotKey(r) => self.skip_if(
                !key_pressed(self.keys, self.registers[r as int]),
            ),
            Instruction::AddIndex(r) => MachineState {
                index: ((self.index + self.registers[r as int]) % 0x10000) as u16,
                ..self
            }.next(),
            Instruction::LoadDigit(r) => MachineState {
                index: (self.registers[r as int] * 5) as u16,
                ..self
            }.next(),
            Instruction::LoadBCD(r) => self.load_bcd(r),
            Instruction::StoreIndex(r) => self.store_index(r),
            Instruction::ReadIndex(r) => self.read_index(r),
            Instruction::InvalidOperation => self.fault(),
        }
    }

    /// The timers count down by one, but not below zero, on every
    /// `timer_tick`-th cycle; the cycle counter moves on.
    pub open spec fn tick_timers(self) -> MachineState {
        let due = self.tick == 0;
        MachineState {
            del_timer: if due && self.del_timer > 0 {
                (self.del_timer - 1) as u8
            } else {
                self.del_timer
            },
            sound_timer: if due && self.sound_timer > 0 {
                (self.sound_timer - 1) as u8
            } else {
                self.sound_timer
            },
            tick: ((self.tick + 1) % (self.timer_tick as int)) as u32,
            ..self
        }
    }

    /// One cycle: nothing once faulted; otherwise fetch, decode and execute
    /// the instruction, and, unless that faulted, run the timers.
    pub open spec fn step(self, random: u8) -> MachineState {
        if self.faulted {
            self
        } else {
            let after = self.execute(decode(self.fetch()), random);
            if after.faulted {
                after
            } else {
                after.tick_timers()
            }
        }
    }
}

/// Cell `a` lies `i` bytes past `base`, counting round the end of memory,
/// exactly when it is the cell that `mem_addr` gives for them.
proof fn lemma_offset_of_address(a: int, base: int, i: int)
    requires
        0 <= a < MEMORY_SIZE,
        0 <= base,
        0 <= i < MEMORY_SIZE,
    ensures
        ((a - base) % (MEMORY_SIZE as int) == i) <==> (a == (base + i) % (MEMORY_SIZE as int)),
{
}

/// Relies on rand::random, which draws a byte from the thread-local
/// generator; any byte may come back.
#[verifier::external_body]
fn random_byte() -> (r: u8) {
    rand::random::<u8>()
}

pub struct Cpu {
    pub memory: [u8; MEMORY_SIZE],
    pub registers: [u8; 16],
    pub index: u16,
    pub pc: u16,
    pub stack: [u16; STACK_SLOTS],
    pub sp: u16,
    pub del_timer: u8,
    pub sound_timer: u8,
    pub tick: u32,
    pub timer_tick: u32,
    pub keys: [bool; 16],
    pub debug_mode: bool,
    pub display: Display,
    pub draw_flag: bool,
    pub faulted: bool,
}

impl View for Cpu {
    type V = MachineState;

    open spec fn view(&self) -> MachineState {
        MachineState {
            memory: self.memory@,
            registers: self.registers@,
            index: self.index,
            pc: self.pc,
            stack: self.stack@,
            sp: self.sp,
            del_timer: self.del_timer,
            sound_timer: self.sound_timer,
            tick: self.tick,
            timer_tick: self.timer_tick,
            keys: self.keys@,
            screen: self.display@,
            draw_flag: self.draw_flag,
            faulted: self.faulted,
        }
    }
}

impl Cpu {
    pub open spec fn wf(&self) -> bool {
        self@.wf()
    }

    /// A machine with the glyphs and the program image in memory, ready to
    /// run from `PROGRAM_START`; the timers count down once every
    /// `clock_speed / TIMER_RATE` cycles.
    pub fn new(game_data: Vec<u8>, clock_speed: u32, debug_mode: bool) -> (cpu: Cpu)
        requires
            game_data.len() <= MAX_PROGRAM_SIZE,
            clock_speed >= TIMER_RATE,
        ensures
            cpu@ == initial_state(game_data@, clock_speed),
            cpu.wf(),
            cpu.debug_mode == debug_mode,
    {
        let mut memory = [0u8; MEMORY_SIZE];
        let mut i: usize = 0;
        while i < game_data.len()
            invariant
                game_data.len() <= MAX_PROGRAM_SIZE,
                0 <= i <= game_data.len(),
                forall|a: int|
                    0 <= a < MEMORY_SIZE ==> #[trigger] memory[a] == if PROGRAM_START <= a
                        < PROGRAM_START + i {
                        game_data@[a - PROGRAM_START]
                    } else {
                        0u8
                    },
            decreases game_data.len() - i,
        {
            memory[0x200 + i] = game_data[i];
            i += 1;
        }
        let mut i: usize = 0;
        while i < SPRITES.len()
            invariant
                game_data.len() <= MAX_PROGRAM_SIZE,
                0 <= i <= 80,
                forall|a: int|
                    0 <= a < MEMORY_SIZE ==> #[trigger] memory[a] == if a < i {
                        SPRITES@[a]
                    } else if PROGRAM_START <= a < PROGRAM_START + game_data.len() {
                        game_data@[a - PROGRAM_START]
                    } else {
                        0u8
                    },
            decreases 80 - i,
        {
            memory[i] = SPRITES[i];
            i += 1;
        }
        let display = Display::new();
        let cpu = Cpu {
            memory: memory,
            registers: [0; 16],
            index: 0,
            pc: PROGRAM_START,
            stack: [0; STACK_SLOTS],
            sp: 0,
            del_timer: 0,
            sound_timer: 0,
            tick: 0,
            timer_tick: clock_speed / TIMER_RATE,
            display: display,
            keys: [false; 16],
            draw_flag: false,
            faulted: false,
            debug_mode: debug_mode,
        };
        assert(cpu@.memory =~= initial_memory(game_data@));
        assert(cpu@.registers =~= Seq::new(16, |i: int| 0u8));
        assert(cpu@.stack =~= Seq::new(STACK_SLOTS as nat, |i: int| 0u16));
        assert(cpu@.keys =~= Seq::new(16, |i: int| false));
        cpu
    }

    /// The pixels, for rendering.
    pub fn get_screen(&mut self) -> (s: &Screen)
        ensures
            screen_view(*s) == old(self)@.screen,
            final(self)@ == old(self)@,
            final(self).debug_mode == old(self).debug_mode,
    {
        self.display.get_screen()
    }

    /// Records whether key `key` is held down.
    pub fn set_key(&mut self, key: u8, pressed: bool)
        requires
            key < 16,
        ensures
            final(self)@ == (MachineState { keys: old(self)@.keys.update(key as int, pressed), ..old(self)@ }),
            final(self).debug_mode == old(self).debug_mode,
    {
        self.keys[key as usize] = pressed;
    }

    /// The instruction word at the program counter.
    pub fn read_next_instruction(&self) -> (r: u16)
        ensures
            r == self@.fetch(),
    {
        let upper = self.memory[(self.pc as usize) % MEMORY_SIZE] as u16;
        let lower = self.memory[(self.pc as usize + 1) % MEMORY_SIZE] as u16;
        assert(upper << 8u16 | lower == upper * 256 + lower) by (bit_vector)
            requires
                upper < 256,
                lower < 256,
        ;
        upper << 8 | lower
    }

    fn read_register(&self, register: Register) -> (v: Value)
        requires
            register < 16,
        ensures
            v == self@.registers[register as int],
    {
        self.registers[register as usize]
    }

    fn set_register(&mut self, register: Register, value: Value)
        requires
            register < 16,
        ensures
            final(self)@ == old(self)@.with_register(register as int, value),
            final(self).debug_mode == old(self).debug_mode,
    {
        self.registers[register as usize] = value;
    }

    fn set_program_counter(&mut self, new_addr: Address)
        ensures
            final(self)@ == old(self)@.with_pc(new_addr),
            final(self).debug_mode == old(self).debug_mode,
    {
        self.pc = new_addr;
    }

    fn next_instruction(&mut self)
        ensures
            final(self)@ == old(self)@.next(),
            final(self).debug_mode == old(self).debug_mode,
    {
        self.pc = self.pc.wrapping_add(INSTRUCTION_SIZE);
    }

    fn skip_instruction_if(&mut self, cond: bool)
        ensures
            final(self)@ == old(self)@.skip_if(cond),
            final(self).debug_mode == old(self).debug_mode,
    {
        let pc_skip = if cond {
            INSTRUCTION_SIZE * 2
        } else {
            INSTRUCTION_SIZE
        };
        self.pc = self.pc.wrapping_add(pc_skip);
    }

    fn push_stack(&mut self, value: u16)
        requires
            old(self).sp < STACK_SIZE,
        ensures
            final(self)@ == (MachineState {
                stack: old(self)@.stack.update(old(self).sp + 1, value),
                sp: (old(self).sp + 1) as u16,
                ..old(self)@
            }),
            final(self).debug_mode == old(self).debug_mode,
    {
        self.sp += 1;
        self.stack[self.sp as usize] = value;
    }

    fn pop_stack(&mut self) -> (v: u16)
        requires
            0 < old(self).sp <= STACK_SIZE,
        ensures
            v == old(self)@.stack[old(self).sp as int],
            final(self)@ == (MachineState { sp: (old(self).sp - 1) as u16, ..old(self)@ }),
            final(self).debug_mode == old(self).debug_mode,
    {
        let val = self.stack[self.sp as usize];
        self.sp -= 1;
        val
    }

    /// Legacy system call: no effect but moving on.
    pub fn noop(&mut self)
        ensures
            final(self)@ == old(self)@.next(),
            final(self).debug_mode == old(self).debug_mode,
    {
        self.next_instruction();
    }

    pub fn load_val(&mut self, register: Register, value: Value)
        requires
            register < 16,
        ensures
            final(self)@ == old(self)@.with_register(register as int, value).next(),
            final(self).debug_mode == old(self).debug_mode,
    {
        self.set_register(register, value);
        self.next_instruction();
    }

    /// Adds the value to the register, wrapping at 8 bits; the flag
    /// register is left alone.
    pub fn add_val(&mut self, register: Register, value: Value)
        requires
            register < 16,
        ensures
            final(self)@ == old(self)@.with_register(
                register as int,
                ((old(self)@.registers[register as int] + value) % 256) as u8,
            ).next(),
            final(self).debug_mode == old(self).debug_mode,
    {
        let current_value = self.read_register(register);
        self.set_register(register, current_value.wrapping_add(value));
        self.next_instruction();
    }

    /// Adds the second register to the first, wrapping at 8 bits; the flag
    /// register holds the carry.
    pub fn add_reg(&mut self, register1: Register, register2: Register)
        requires
            register1 < 16,
            register2 < 16,
        ensures
            final(self)@ == old(self)@.add_reg(register1, register2),
            final(self).debug_mode == old(self).debug_mode,
    {
        let reg1_val = self.read_register(register1);
        let reg2_val = self.read_register(register2);

        let new_val: u8;
        let carry_val: u8;
        if let Some(result) = reg1_val.checked_add(reg2_val) {
            new_val = result;
            carry_val = 0;
        } else {
            new_val = reg1_val.wrapping_add(reg2_val);
            carry_val = 1;
        }

        self.set_register(register1, new_val);
        self.set_register(0xF, carry_val);
        self.next_instruction();
    }

    /// Subtracts the second register from the first, wrapping at 8 bits;
    /// the flag register is 1 when no borrow was needed.
    pub fn sub_reg(&mut self, register1: Register, register2: Register)
        requires
            register1 < 16,
            register2 < 16,
        ensures
            final(self)@ == old(self)@.sub_reg(register1, register2),
            final(self).debug_mode == old(self).debug_mode,
    {
        let reg1_val = self.read_register(register1);
        let reg2_val = self.read_register(register2);

        let new_val: u8;
        let borrow_val: u8;
        if let Some(result) = reg1_val.checked_sub(reg2_val) {
            new_val = result;
            borrow_val = 1;
        } else {
            new_val = reg1_val.wrapping_sub(reg2_val);
            borrow_val = 0;
        }

        self.set_register(register1, new_val);
        self.set_register(0xF, borrow_val);
        self.next_instruction();
    }

    /// The flag register takes the lowest bit, then the register shifts
    /// right by one.
    pub fn shift_right(&mut self, register: Register)
        requires
            register < 16,
        ensures
            final(self)@ == old(self)@.shift_right(register),
            final(self).debug_mode == old(self).debug_mode,
    {
        let reg_val = self.read_register(register);
        self.set_register(0xF, reg_val & 0b00000001);
        self.set_register(register, reg_val >> 1u8);
        self.next_instruction();
    }

    /// The flag register takes the highest bit, in place, then the register
    /// shifts left by one.
    pub fn shift_left(&mut self, register: Register)
        requires
            register < 16,
        ensures
            final(self)@ == old(self)@.shift_left(register),
            final(self).debug_mode == old(self).debug_mode,
    {
        let reg_val = self.read_register(register);
        self.set_register(0xF, reg_val & 0b10000000);
        assert(reg_val << 1u8 == (reg_val * 2) % 256) by (bit_vector);
        self.set_register(register, reg_val << 1u8);
        self.next_instruction();
    }

    pub fn set_index(&mut self, addr: Address)
        ensures
            final(self)@ == (MachineState { index: addr, ..old(self)@ }).next(),
            final(self).debug_mode == old(self).debug_mode,
    {
        self.index = addr;
        self.next_instruction();
    }

    pub fn jump(&mut self, addr: Address)
        ensures
            final(self)@ == old(self)@.with_pc(addr),
            final(self).debug_mode == old(self).debug_mode,
    {
        self.set_program_counter(addr);
    }

    /// Pushes the program counter and jumps to `addr`; faults when the
    /// stack is full.
    pub fn call(&mut self, addr: Address)
        requires
            old(self).wf(),
        ensures
            final(self)@ == old(self)@.call(addr),
            final(self).debug_mode == old(self).debug_mode,
    {
        if self.sp as usize >= STACK_SIZE {
            self.faulted = true;
            return;
        }
        let current_pc = self.pc;
        self.push_stack(current_pc);
        self.set_program_counter(addr);
    }

    /// Jumps back to the address on top of the stack; faults when the stack
    /// is empty.
    pub fn ret(&mut self)
        requires
            old(self).wf(),
        ensures
            final(self)@ == old(self)@.ret(),
            final(self).debug_mode == old(self).debug_mode,
    {
        if self.sp == 0 {
            self.faulted = true;
            return;
        }
        let previous_pc = self.pop_stack();
        self.set_program_counter(previous_pc);
    }

    pub fn skip_equal(&mut self, register: Register, value: Value)
        requires
            register < 16,
        ensures
            final(self)@ == old(self)@.skip_if(old(self)@.registers[register as int] == value),
            final(self).debug_mode == old(self).debug_mode,
    {
        let reg_val = self.read_register(register);
        self.skip_instruction_if(reg_val == value);
    }

    pub fn skip_not_equal(&mut self, register: Register, value: Value)
        requires
            register < 16,
        ensures
            final(self)@ == old(self)@.skip_if(old(self)@.registers[register as int] != value),
            final(self).debug_mode == old(self).debug_mode,
    {
        let reg_val = self.read_register(register);
        self.skip_instruction_if(reg_val != value);
    }

    pub fn skip_reg_equal(&mut self, register1: Register, register2: Register)
        requires
            register1 < 16,
            register2 < 16,
        ensures
            final(self)@ == old(self)@.skip_if(
                old(self)@.registers[register1 as int] == old(self)@.registers[register2 as int],
            ),
            final(self).debug_mode == old(self).debug_mode,
    {
        let reg_val1 = self.read_register(register1);
        let reg_val2 = self.read_register(register2);
        self.skip_instruction_if(reg_val1 == reg_val2);
    }

    pub fn load_reg(&mut self, register1: Register, register2: Register)
        requires
            register1 < 16,
            register2 < 16,
        ensures
            final(self)@ == old(self)@.with_register(
                register1 as int,
                old(self)@.registers[register2 as int],
            ).next(),
            final(self).debug_mode == old(self).debug_mode,
    {
        let reg2_val = self.read_register(register2);
        self.set_register(register1, reg2_val);
        self.next_instruction();
    }

    pub fn or(&mut self, register1: Register, register2: Register)
        requires
            register1 < 16,
            register2 < 16,
        ensures
            final(self)@ == old(self)@.with_register(
                register1 as int,
                old(self)@.registers[register1 as int] | old(self)@.registers[register2 as int],
            ).next(),
            final(self).debug_mode == old(self).debug_mode,
    {
        let reg1_val = self.read_register(register1);
        let reg2_val = self.read_register(register2);
        self.set_register(register1, reg1_val | reg2_val);
        self.next_instruction();
    }

    pub fn and(&mut self, register1: Register, register2: Register)
        requires
            register1 < 16,
            register2 < 16,
        ensures
            final(self)@ == old(self)@.with_register(
                register1 as int,
                old(self)@.registers[register1 as int] & old(self)@.registers[register2 as int],
            ).next(),
            final(self).debug_mode == old(self).debug_mode,
    {
        let reg1_val = self.read_register(register1);
        let reg2_val = self.read_register(register2);
        self.set_register(register1, reg1_val & reg2_val);
        self.next_instruction();
    }

    pub fn xor(&mut self, register1: Register, register2: Register)
        requires
            register1 < 16,
            register2 < 16,
        ensures
            final(self)@ == old(self)@.with_register(
                register1 as int,
                old(self)@.registers[register1 as int] ^ old(self)@.registers[register2 as int],
            ).next(),
            final(self).debug_mode == old(self).debug_mode,
    {
        let reg1_val = self.read_register(register1);
        let reg2_val = self.read_register(register2);
        self.set_register(register1, reg1_val ^ reg2_val);
        self.next_instruction();
    }

    /// The register takes `value` masked with a random byte.
    pub fn rand(&mut self, register: Register, value: Value)
        requires
            register < 16,
        ensures
            exists|random: u8| final(self)@ == #[trigger] old(self)@.with_register(register as int, value & random).next(),
            final(self).debug_mode == old(self).debug_mode,
    {
        let rand_val = random_byte();
        self.rand_from(register, value, rand_val);
    }

    /// The register takes `value` masked with the byte `random`.
    pub fn rand_from(&mut self, register: Register, value: Value, random: u8)
        requires
            register < 16,
        ensures
            final(self)@ == old(self)@.with_register(register as int, value & random).next(),
            final(self).debug_mode == old(self).debug_mode,
    {
        self.set_register(register, value & random);
        self.next_instruction();
    }

    /// Draws the `value` bytes from the index on as a sprite at the
    /// position held in the two registers; the flag register tells whether a
    /// set pixel was cleared.
    pub fn draw(&mut self, register1: Register, register2: Register, value: Value)
        requires
            register1 < 16,
            register2 < 16,
        ensures
            final(self)@ == old(self)@.draw(register1, register2, value),
            final(self).debug_mode == old(self).debug_mode,
    {
        let x = self.read_register(register1);
        let y = self.read_register(register2);

        let mut sprite: Vec<u8> = Vec::new();
        let mut i: u8 = 0;
        while i < value
            invariant
                0 <= i <= value,
                sprite@ == sprite_at(self@.memory, self.index, i),
            decreases value - i,
        {
            let sprite_index = (self.index as usize + i as usize) % MEMORY_SIZE;
            sprite.push(self.memory[sprite_index]);
            i += 1;
            assert(sprite@ =~= sprite_at(self@.memory, self.index, i));
        }

        let flipped = self.display.draw_sprite(sprite.as_slice(), x as usize, y as usize);
        self.set_register(0xF, if flipped { 1 } else { 0 });
        self.draw_flag = true;
        self.next_instruction();
    }

    pub fn clear(&mut self)
        ensures
            final(self)@ == old(self)@.clear(),
            final(self).debug_mode == old(self).debug_mode,
    {
        self.display.clear();
        self.next_instruction();
    }

    fn key_is_pressed(&self, key: u8) -> (r: bool)
        ensures
            r == key_pressed(self@.keys, key),
    {
        key < 16 && self.keys[key as usize]
    }

    /// Skips the next instruction when the key named by the register is
    /// held down.
    pub fn skip_key(&mut self, register: Register)
        requires
            register < 16,
        ensures
            final(self)@ == old(self)@.skip_if(
                key_pressed(old(self)@.keys, old(self)@.registers[register as int]),
            ),
            final(self).debug_mode == old(self).debug_mode,
    {
        let reg_val = self.read_register(register);
        let pressed = self.key_is_pressed(reg_val);
        self.skip_instruction_if(pressed);
    }

    /// Skips the next instruction when the key named by the register is not
    /// held down.
    pub fn skip_not_key(&mut self, register: Register)
        requires
            register < 16,
        ensures
            final(self)@ == old(self)@.skip_if(
                !key_pressed(old(self)@.keys, old(self)@.registers[register as int]),
            ),
            final(self).debug_mode == old(self).debug_mode,
    {
        let reg_val = self.read_register(register);
        let pressed = self.key_is_pressed(reg_val);
        self.skip_instruction_if(!pressed);
    }

    /// Adds the register to the index, wrapping at 16 bits.
    pub fn add_index(&mut self, register: Register)
        requires
            register < 16,
        ensures
            final(self)@ == (MachineState {
                index: ((old(self).index + old(self)@.registers[register as int]) % 0x10000) as u16,
                ..old(self)@
            }).next(),
            final(self).debug_mode == old(self).debug_mode,
    {
        self.index = self.index.wrapping_add(self.read_register(register) as u16);
        self.next_instruction();
    }

    /// Points the index at the glyph of the digit in the register.
    pub fn load_digit(&mut self, register: Register)
        requires
            register < 16,
        ensures
            final(self)@ == (MachineState {
                index: (old(self)@.registers[register as int] * 5) as u16,
                ..old(self)@
            }).next(),
            final(self).debug_mode == old(self).debug_mode,
    {
        // Each glyph occupies five bytes, from address 0 on.
        let sprite_location = self.read_register(register) as u16 * 5;
        self.index = sprite_location;
        self.next_instruction();
    }

    pub fn load_bcd(&mut self, register: Register)
        requires
            register < 16,
        ensures
            final(self)@ == old(self)@.load_bcd(register),
            final(self).debug_mode == old(self).debug_mode,
    {
        let reg_val = self.read_register(register);
        let base = self.index as usize;
        self.memory[base % MEMORY_SIZE] = reg_val / 100;
        self.memory[(base + 1) % MEMORY_SIZE] = (reg_val / 10) % 10;
        self.memory[(base + 2) % MEMORY_SIZE] = reg_val % 10;
        self.next_instruction();
    }

    pub fn store_index(&mut self, register: Register)
        requires
            register < 16,
        ensures
            final(self)@ == old(self)@.store_index(register),
            final(self).debug_mode == old(self).debug_mode,
    {
        let ghost s0 = self@;
        let base = self.index as usize;
        let mut i: u8 = 0;
        while i <= register
            invariant
                0 <= i <= register + 1,
                register < 16,
                base == s0.index,
                self@ == (MachineState { memory: self@.memory, ..s0 }),
                self.debug_mode == old(self).debug_mode,
                forall|a: int|
                    0 <= a < MEMORY_SIZE ==> #[trigger] self@.memory[a] == {
                        let offset = offset_from(s0.index, a);
                        if offset < i {
                            s0.registers[offset]
                        } else {
                            s0.memory[a]
                        }
                    },
            decreases register + 1 - i,
        {
            let address = (base + i as usize) % MEMORY_SIZE;
            let v = self.read_register(i);
            self.memory[address] = v;
            assert forall|a: int| 0 <= a < MEMORY_SIZE implies (a == address <==> #[trigger] offset_from(
                s0.index,
                a,
            ) == i) by {
                lemma_offset_of_address(a, s0.index as int, i as int);
            }
            i += 1;
        }
        assert(self@.memory =~= s0.store_index(register).memory);
        self.next_instruction();
    }

    pub fn read_index(&mut self, register: Register)
        requires
            register < 16,
        ensures
            final(self)@ == old(self)@.read_index(register),
            final(self).debug_mode == old(self).debug_mode,
    {
        let ghost s0 = self@;
        let base = self.index as usize;
        let mut i: u8 = 0;
        while i <= register
            invariant
                0 <= i <= register + 1,
                register < 16,
                base == s0.index,
                self@ == (MachineState { registers: self@.registers, ..s0 }),
                self.debug_mode == old(self).debug_mode,
                self@.registers.len() == 16,
                forall|k: int|
                    0 <= k < 16 ==> #[trigger] self@.registers[k] == if k < i {
                        s0.memory[mem_addr(s0.index, k)]
                    } else {
                        s0.registers[k]
                    },
            decreases register + 1 - i,
        {
            let index = (base + i as usize) % MEMORY_SIZE;
            let new_val = self.memory[index];
            self.set_register(i, new_val);
            i += 1;
        }
        assert(self@.registers =~= s0.read_index(register).registers);
        self.next_instruction();
    }

    /// Counts the timers down when a timer step is due and moves the cycle
    /// counter on.
    fn handle_timers(&mut self)
        requires
            old(self).wf(),
        ensures
            final(self)@ == old(self)@.tick_timers(),
            final(self).debug_mode == old(self).debug_mode,
    {
        if self.tick == 0 {
            if self.del_timer > 0 {
                self.del_timer -= 1;
            }
            if self.sound_timer > 0 {
                self.sound_timer -= 1;
            }
        }
        self.tick = (self.tick + 1) % self.timer_tick;
    }

    /// Applies one decoded operation; `random` is the byte that a `Random`
    /// operation masks.
    pub fn execute_instruction(&mut self, instruction: Instruction, random: u8)
        requires
            old(self).wf(),
            registers_in_range(instruction),
        ensures
            final(self)@ == old(self)@.execute(instruction, random),
            final(self).debug_mode == old(self).debug_mode,
    {
        match instruction {
            Instruction::Clear => self.clear(),
            Instruction::Return => self.ret(),
            Instruction::ExRoutine(_a) => self.noop(),
            Instruction::Jump(a) => self.jump(a),
            Instruction::Call(a) => self.call(a),
            Instruction::LoadVal(r, v) => self.load_val(r, v),
            Instruction::SkipIfEqual(r, v) => self.skip_equal(r, v),
            Instruction::SkipIfNotEqual(r, v) => self.skip_not_equal(r, v),
            Instruction::SkipIfRegEqual(r1, r2) => self.skip_reg_equal(r1, r2),
            Instruction::AddVal(r, v) => self.add_val(r, v),
            Instruction::LoadReg(r1, r2) => self.load_reg(r1, r2),
            Instruction::Or(r1, r2) => self.or(r1, r2),
            Instruction::And(r1, r2) => self.and(r1, r2),
            Instruction::Xor(r1, r2) => self.xor(r1, r2),
            Instruction::AddReg(r1, r2) => self.add_reg(r1, r2),
            Instruction::SubReg(r1, r2) => self.sub_reg(r1, r2),
            Instruction::ShiftRight(r) => self.shift_right(r),
            Instruction::ShiftLeft(r) => self.shift_left(r),
            Instruction::SetIndexRegister(a) => self.set_index(a),
            Instruction::Random(r, v) => self.rand_from(r, v, random),
            Instruction::Draw(r1, r2, v) => self.draw(r1, r2, v),
            Instruction::SkipIfKey(r) => self.skip_key(r),
            Instruction::SkipIfNotKey(r) => self.skip_not_key(r),
            Instruction::AddIndex(r) => self.add_index(r),
            Instruction::LoadDigit(r) => self.load_digit(r),
            Instruction::LoadBCD(r) => self.load_bcd(r),
            Instruction::StoreIndex(r) => self.store_index(r),
            Instruction::ReadIndex(r) => self.read_index(r),
            Instruction::InvalidOperation => {
                self.faulted = true;
            },
        }
    }

    /// One cycle, with `random` as the byte for a `Random` operation: once
    /// faulted, nothing happens; otherwise the instruction at the program
    /// counter is decoded and executed, an invalid one faults the machine,
    /// and the timers run.
    pub fn cycle_with_random(&mut self, random: u8)
        requires
            old(self).wf(),
        ensures
            final(self).wf(),
            final(self)@ == old(self)@.step(random),
            final(self).debug_mode == old(self).debug_mode,
    {
        if self.faulted {
            return;
        }

        let raw_instruction = self.read_next_instruction();
        let instruction = Instruction::parse(raw_instruction);
        proof {
            lemma_decode_operands_in_range(raw_instruction);
        }

        if instruction == Instruction::InvalidOperation {
            self.faulted = true;
        } else {
            self.execute_instruction(instruction, random);
            proof {
                lemma_execute_wf(old(self)@, instruction, random);
            }
            if !self.faulted {
                self.handle_timers();
            }
        }
        proof {
            lemma_step_wf(old(self)@, random);
        }
    }

    /// One cycle, with a random byte from the thread-local generator for a
    /// `Random` operation.
    pub fn cycle(&mut self)
        requires
            old(self).wf(),
        ensures
            final(self).wf(),
            exists|random: u8| final(self)@ == #[trigger] old(self)@.step(random),
            final(self).debug_mode == old(self).debug_mode,
    {
        let random = random_byte();
        self.cycle_with_random(random);
    }
}

/// Executing a decoded operation keeps a machine well formed.
pub proof fn lemma_execute_wf(s: MachineState, i: Instruction, random: u8)
    requires
        s.wf(),
        registers_in_range(i),
    ensures
        s.execute(i, random).wf(),
{
    match i {
        Instruction::Draw(r1, r2, n) => {
            let g = blit(
                s.screen,
                sprite_at(s.memory, s.index, n),
                s.registers[r1 as int] as int,
                s.registers[r2 as int] as int,
            );
            assert(is_grid(g));
        },
        _ => {},
    }
}

/// A cycle keeps a machine well formed.
pub proof fn lemma_step_wf(s: MachineState, random: u8)
    requires
        s.wf(),
    ensures
        s.step(random).wf(),
{
    if !s.faulted {
        lemma_decode_operands_in_range(s.fetch());
        lemma_execute_wf(s, decode(s.fetch()), random);
    }
}

} // verus!
