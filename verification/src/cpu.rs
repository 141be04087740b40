//! The processor: registers, timers, call stack, screen and keys, and the
//! operations on them.
//!
//! Every method says what it does by the function of the same name on
//! [`MachineState`], the view of the processor. Register operands must name
//! one of the sixteen registers.

use crate::display::Framebuffer;
use crate::instructions::{lemma_decoded_operands_fit, Instruction};
use crate::machine::{
    lemma_lowest_pressed_from, CpuError, MachineState, ENTRY_POINT, FLAG_REGISTER, FONT_BASE,
    GLYPH_SIZE,
};
use crate::memory::{check_range, range_fault, Memory};
use crate::random::{advance, sample};
use crate::stack::CallStack;
use vstd::prelude::*;

verus! {

/// The processor with the memory that it owns.
pub struct Chip8CPU {
    v: [u8; 16],
    memory: Memory,
    i: u16,
    dt: u8,
    st: u8,
    pc: u16,
    stack: CallStack,
    display: Framebuffer,
    keys: [bool; 16],
    waiting: bool,
    rng: u32,
}

impl View for Chip8CPU {
    type V = MachineState;

    closed spec fn view(&self) -> MachineState {
        MachineState {
            v: self.v@,
            i: self.i,
            delay_timer: self.dt,
            sound_timer: self.st,
            pc: self.pc,
            stack: self.stack@,
            display: self.display@,
            memory: self.memory@,
            keys: self.keys@,
            waiting_for_key: self.waiting,
            random_state: self.rng,
        }
    }
}

impl Chip8CPU {
    /// The view of a processor is always well formed.
    pub proof fn lemma_view_well_formed(self)
        ensures
            self@.well_formed(),
    {
        self.stack.lemma_depth();
        self.memory.lemma_size();
        self.display.lemma_size();
    }

    /// A processor at the start of a session, on the given memory and with
    /// the given seed for its random source.
    pub fn new(memory: Memory, seed: u32) -> (cpu: Self)
        ensures
            cpu@ == MachineState::initial(memory@, seed),
    {
        let cpu = Self {
            v: [0; 16],
            memory,
            i: 0,
            dt: 0,
            st: 0,
            pc: ENTRY_POINT,
            stack: CallStack::new(),
            display: Framebuffer::new(),
            keys: [false; 16],
            waiting: false,
            rng: seed,
        };
        assert(cpu@ =~= MachineState::initial(memory@, seed));
        cpu
    }

    /// The value of a register.
    pub fn get(&self, register: u8) -> (value: u8)
        requires
            register < 16,
        ensures
            value == self@.register(register),
    {
        self.v[register as usize]
    }

    /// The place of a register, for reading and writing.
    fn get_mutable(&mut self, register: u8) -> (place: &mut u8)
        requires
            register < 16,
        ensures
            *place == old(self)@.register(register),
            final(self)@ == old(self)@.with_register(register, *final(place)),
    {
        &mut self.v[register as usize]
    }

    /// The program counter.
    pub fn program_counter(&self) -> (pc: u16)
        ensures
            pc == self@.pc,
    {
        self.pc
    }

    /// The address register `I`.
    pub fn address_register(&self) -> (i: u16)
        ensures
            i == self@.i,
    {
        self.i
    }

    /// The delay timer.
    pub fn delay_timer(&self) -> (dt: u8)
        ensures
            dt == self@.delay_timer,
    {
        self.dt
    }

    /// The sound timer.
    pub fn sound_timer(&self) -> (st: u8)
        ensures
            st == self@.sound_timer,
    {
        self.st
    }

    /// The number of calls in progress.
    pub fn stack_depth(&self) -> (depth: u8)
        ensures
            depth == self@.stack.len(),
    {
        self.stack.depth()
    }

    /// The screen.
    pub fn display(&self) -> (display: &Framebuffer)
        ensures
            display@ == self@.display,
    {
        &self.display
    }

    /// The memory.
    pub fn memory(&self) -> (memory: &Memory)
        ensures
            memory@ == self@.memory,
    {
        &self.memory
    }

    /// Whether the last `StoreInput` found no key and is to run again.
    pub fn is_waiting_for_key(&self) -> (waiting: bool)
        ensures
            waiting == self@.waiting_for_key,
    {
        self.waiting
    }

    /// Records that a key went down or up.
    pub fn set_key(&mut self, key: u8, pressed: bool)
        requires
            key < 16,
        ensures
            final(self)@ == old(self)@.with_key(key, pressed),
    {
        self.keys[key as usize] = pressed;
    }

    /// Counts each timer that is not zero down by one. To be called sixty
    /// times a second.
    pub fn tick_timers(&mut self)
        ensures
            final(self)@ == old(self)@.tick_timers(),
    {
        if self.dt > 0 {
            self.dt -= 1;
        }
        if self.st > 0 {
            self.st -= 1;
        }
    }

    /// Checks the `len` addresses from `start` on behalf of an operation.
    fn check_access(start: u16, len: u16) -> (r: Result<(), CpuError>)
        ensures
            r == match range_fault(start, len as nat) {
                Some(e) => Err::<(), CpuError>(CpuError::Memory(e)),
                None => Ok(()),
            },
    {
        match check_range(start, len) {
            Ok(()) => Ok(()),
            Err(e) => Err(CpuError::Memory(e)),
        }
    }

    /// Moves the program counter past the next instruction.
    fn skip(&mut self)
        ensures
            final(self)@ == old(self)@.skip_if(true),
    {
        self.pc = self.pc.wrapping_add(2);
    }

    /// Carries out one instruction. The program counter is taken to be past
    /// the instruction already. An instruction that fails changes nothing.
    pub fn execute(&mut self, instruction: Instruction) -> (r: Result<(), CpuError>)
        requires
            instruction.well_formed(),
        ensures
            match old(self)@.execute(instruction) {
                Ok(s) => r is Ok && final(self)@ == s,
                Err(e) => r == Err::<(), CpuError>(e) && final(self)@ == old(self)@,
            },
    {
        match instruction {
            Instruction::ClearDisplay => {
                self.clear_display();
                Ok(())
            },
            Instruction::Return => self.return_from_subroutine(),
            Instruction::Jump(addr) => {
                self.jump(addr);
                Ok(())
            },
            Instruction::Call(addr) => self.call(addr),
            Instruction::SkipIfEqual(vx, byte) => {
                self.skip_if_equal(vx, byte);
                Ok(())
            },
            Instruction::SkipIfNotEqual(vx, byte) => {
                self.skip_if_not_equal(vx, byte);
                Ok(())
            },
            Instruction::SkipIfRegistersEqual(vx, vy) => {
                self.skip_if_registers_equal(vx, vy);
                Ok(())
            },
            Instruction::SetRegister(vx, byte) => {
                self.set_register(vx, byte);
                Ok(())
            },
            Instruction::Add(vx, byte) => {
                self.add(vx, byte);
                Ok(())
            },
            Instruction::CopyRegister(vx, vy) => {
                self.copy_register(vx, vy);
                Ok(())
            },
            Instruction::Or(vx, vy) => {
                self.or(vx, vy);
                Ok(())
            },
            Instruction::And(vx, vy) => {
                self.and(vx, vy);
                Ok(())
            },
            Instruction::Xor(vx, vy) => {
                self.xor(vx, vy);
                Ok(())
            },
            Instruction::AddRegisters(vx, vy) => {
                self.add_registers(vx, vy);
                Ok(())
            },
            Instruction::Subtract(vx, vy) => {
                self.subtract(vx, vy);
                Ok(())
            },
            Instruction::ShiftRight(vx) => {
                self.shift_right(vx);
                Ok(())
            },
            Instruction::ReverseSubtract(vx, vy) => {
                self.reverse_subtract(vx, vy);
                Ok(())
            },
            Instruction::ShiftLeft(vx) => {
                self.shift_left(vx);
                Ok(())
            },
            Instruction::SkipIfRegistersNotEqual(vx, vy) => {
                self.skip_if_registers_not_equal(vx, vy);
                Ok(())
            },
            Instruction::SetI(addr) => {
                self.set_i(addr);
                Ok(())
            },
            Instruction::JumpPlusV0(addr) => {
                self.jump_plus_v0(addr);
                Ok(())
            },
            Instruction::RandomByte(vx, byte) => {
                self.random_byte(vx, byte);
                Ok(())
            },
            Instruction::Draw(vx, vy, nibble) => self.draw(vx, vy, nibble),
            Instruction::SkipIfKeyPressed(vx) => {
                self.skip_if_key_pressed(vx);
                Ok(())
            },
            Instruction::SkipIfKeyNotPressed(vx) => {
                self.skip_if_key_not_pressed(vx);
                Ok(())
            },
            Instruction::SetRegisterToDelayTimer(vx) => {
                self.store_delay_timer(vx);
                Ok(())
            },
            Instruction::StoreInput(vx) => {
                self.store_input(vx);
                Ok(())
            },
            Instruction::SetDelayTimer(vx) => {
                self.set_delay_timer(vx);
                Ok(())
            },
            Instruction::SetSoundTimer(vx) => {
                self.set_sound_timer(vx);
                Ok(())
            },
            Instruction::AddToI(vx) => {
                self.add_to_i(vx);
                Ok(())
            },
            Instruction::SetIToSpriteLocation(vx) => {
                self.set_i_to_sprite_location(vx);
                Ok(())
            },
            Instruction::StoreBinaryCodedDecimal(vx) => self.store_binary_coded_decimal(vx),
            Instruction::StoreRegisters(vx) => self.store_registers_in_memory(vx),
            Instruction::LoadRegisters(vx) => self.load_registers_from_memory(vx),
        }
    }

    /// Reads the instruction word at the program counter, high byte first,
    /// and moves the program counter past it.
    pub fn fetch(&mut self) -> (r: Result<u16, CpuError>)
        ensures
            match old(self)@.fetch() {
                Ok((word, s)) => r == Ok::<u16, CpuError>(word) && final(self)@ == s,
                Err(e) => r == Err::<u16, CpuError>(e) && final(self)@ == old(self)@,
            },
    {
        Self::check_access(self.pc, 2)?;
        proof {
            self.memory.lemma_size();
        }
        let high = self.memory.read(self.pc).unwrap();
        let low = self.memory.read(self.pc + 1).unwrap();
        self.pc = self.pc + 2;
        Ok(high as u16 * 0x100 + low as u16)
    }

    /// Runs one cycle: fetches a word, decodes it and carries the
    /// instruction out. A cycle that fails changes nothing.
    pub fn step(&mut self) -> (r: Result<(), CpuError>)
        ensures
            match old(self)@.step() {
                Ok(s) => r is Ok && final(self)@ == s,
                Err(e) => r == Err::<(), CpuError>(e) && final(self)@ == old(self)@,
            },
    {
        let start = self.pc;
        let word = self.fetch()?;
        let outcome = match Instruction::try_from(word) {
            Ok(instruction) => {
                proof {
                    lemma_decoded_operands_fit(word);
                }
                self.execute(instruction)
            },
            Err(e) => Err(CpuError::Decode(e)),
        };
        if outcome.is_err() {
            self.pc = start;
        }
        outcome
    }

    /// Turns every pixel off.
    pub fn clear_display(&mut self)
        ensures
            final(self)@ == old(self)@.clear_display(),
    {
        self.display.clear();
    }

    /// Leaves a subroutine: the program counter becomes the newest return
    /// address, which leaves the stack. Fails on an empty stack.
    pub fn return_from_subroutine(&mut self) -> (r: Result<(), CpuError>)
        ensures
            match old(self)@.return_from_subroutine() {
                Ok(s) => r is Ok && final(self)@ == s,
                Err(e) => r == Err::<(), CpuError>(e) && final(self)@ == old(self)@,
            },
    {
        match self.stack.pop() {
            Ok(address) => {
                self.pc = address;
                Ok(())
            },
            Err(e) => Err(e),
        }
    }

    /// The program counter becomes `addr`.
    pub fn jump(&mut self, addr: u16)
        ensures
            final(self)@ == old(self)@.jump(addr),
    {
        self.pc = addr;
    }

    /// Enters a subroutine: the program counter goes on the stack and
    /// becomes `addr`. Fails on a full stack.
    pub fn call(&mut self, addr: u16) -> (r: Result<(), CpuError>)
        ensures
            match old(self)@.call(addr) {
                Ok(s) => r is Ok && final(self)@ == s,
                Err(e) => r == Err::<(), CpuError>(e) && final(self)@ == old(self)@,
            },
    {
        match self.stack.push(self.pc) {
            Ok(()) => {
                self.pc = addr;
                Ok(())
            },
            Err(e) => Err(e),
        }
    }

    /// Skips the next instruction if `V[vx] == byte`.
    pub fn skip_if_equal(&mut self, vx: u8, byte: u8)
        requires
            vx < 16,
        ensures
            final(self)@ == old(self)@.skip_if_equal(vx, byte),
    {
        if self.get(vx) == byte {
            self.skip();
        }
    }

    /// Skips the next instruction if `V[vx] != byte`.
    pub fn skip_if_not_equal(&mut self, vx: u8, byte: u8)
        requires
            vx < 16,
        ensures
            final(self)@ == old(self)@.skip_if_not_equal(vx, byte),
    {
        if self.get(vx) != byte {
            self.skip();
        }
    }

    /// Skips the next instruction if `V[vx] == V[vy]`.
    pub fn skip_if_registers_equal(&mut self, vx: u8, vy: u8)
        requires
            vx < 16,
            vy < 16,
        ensures
            final(self)@ == old(self)@.skip_if_registers_equal(vx, vy),
    {
        if self.get(vx) == self.get(vy) {
            self.skip();
        }
    }

    /// Puts `byte` into `V[vx]`.
    pub fn set_register(&mut self, vx: u8, byte: u8)
        requires
            vx < 16,
        ensures
            final(self)@ == old(self)@.set_register(vx, byte),
    {
        *self.get_mutable(vx) = byte;
    }

    /// Adds `byte` to `V[vx]`, modulo 256. `VF` is not touched.
    pub fn add(&mut self, vx: u8, byte: u8)
        requires
            vx < 16,
        ensures
            final(self)@ == old(self)@.add(vx, byte),
    {
        let result: u16 = self.get(vx) as u16 + byte as u16;
        *self.get_mutable(vx) = (result % 0x100) as u8;
    }

    /// Puts `V[vy]` into `V[vx]`.
    pub fn copy_register(&mut self, vx: u8, vy: u8)
        requires
            vx < 16,
            vy < 16,
        ensures
            final(self)@ == old(self)@.copy_register(vx, vy),
    {
        let y = self.get(vy);
        *self.get_mutable(vx) = y;
    }

    /// Puts `V[vx] | V[vy]` into `V[vx]`.
    pub fn or(&mut self, vx: u8, vy: u8)
        requires
            vx < 16,
            vy < 16,
        ensures
            final(self)@ == old(self)@.or(vx, vy),
    {
        let y = self.get(vy);
        *self.get_mutable(vx) |= y;
    }

    /// Puts `V[vx] & V[vy]` into `V[vx]`.
    pub fn and(&mut self, vx: u8, vy: u8)
        requires
            vx < 16,
            vy < 16,
        ensures
            final(self)@ == old(self)@.and(vx, vy),
    {
        let y = self.get(vy);
        *self.get_mutable(vx) &= y;
    }

    /// Puts `V[vx] ^ V[vy]` into `V[vx]`.
    pub fn xor(&mut self, vx: u8, vy: u8)
        requires
            vx < 16,
            vy < 16,
        ensures
            final(self)@ == old(self)@.xor(vx, vy),
    {
        let y = self.get(vy);
        *self.get_mutable(vx) ^= y;
    }

    /// Adds `V[vy]` to `V[vx]`, modulo 256, then sets `VF` to 1 if the sum
    /// was above 255 and to 0 if not.
    pub fn add_registers(&mut self, vx: u8, vy: u8)
        requires
            vx < 16,
            vy < 16,
        ensures
            final(self)@ == old(self)@.add_registers(vx, vy),
    {
        let result: u16 = self.get(vx) as u16 + self.get(vy) as u16;
        *self.get_mutable(vx) = (result % 0x100) as u8;
        *self.get_mutable(FLAG_REGISTER) = if result > 0xFF {
            1
        } else {
            0
        };
    }

    /// Sets `VF` to 1 if `V[vx] > V[vy]` and to 0 if not, then subtracts
    /// `V[vy]` from `V[vx]`, modulo 256.
    pub fn subtract(&mut self, vx: u8, vy: u8)
        requires
            vx < 16,
            vy < 16,
        ensures
            final(self)@ == old(self)@.subtract(vx, vy),
    {
        let x = self.get(vx);
        let y = self.get(vy);

        *self.get_mutable(FLAG_REGISTER) = if x > y {
            1
        } else {
            0
        };
        *self.get_mutable(vx) = x.wrapping_sub(y);
    }

    /// Sets `VF` to the lowest bit of `V[vx]`, then halves `V[vx]`.
    pub fn shift_right(&mut self, vx: u8)
        requires
            vx < 16,
        ensures
            final(self)@ == old(self)@.shift_right(vx),
    {
        let x = self.get(vx);
        assert(x >> 1 == x / 2) by (bit_vector);
        *self.get_mutable(FLAG_REGISTER) = x % 2;
        *self.get_mutable(vx) = x >> 1;
    }

    /// Sets `VF` to 1 if `V[vy] > V[vx]` and to 0 if not, then puts
    /// `V[vy] - V[vx]`, modulo 256, into `V[vx]`.
    pub fn reverse_subtract(&mut self, vx: u8, vy: u8)
        requires
            vx < 16,
            vy < 16,
        ensures
            final(self)@ == old(self)@.reverse_subtract(vx, vy),
    {
        let x = self.get(vx);
        let y = self.get(vy);

        *self.get_mutable(FLAG_REGISTER) = if y > x {
            1
        } else {
            0
        };
        *self.get_mutable(vx) = y.wrapping_sub(x);
    }

    /// Sets `VF` to the highest bit of `V[vx]`, then doubles `V[vx]`,
    /// modulo 256.
    pub fn shift_left(&mut self, vx: u8)
        requires
            vx < 16,
        ensures
            final(self)@ == old(self)@.shift_left(vx),
    {
        let x = self.get(vx);
        assert((x >> 7) & 1 == x / 128) by (bit_vector);
        assert(x << 1 == (x * 2) % 256) by (bit_vector);
        *self.get_mutable(FLAG_REGISTER) = (x >> 7) & 1;
        *self.get_mutable(vx) = x << 1;
    }

    /// Skips the next instruction if `V[vx] != V[vy]`.
    pub fn skip_if_registers_not_equal(&mut self, vx: u8, vy: u8)
        requires
            vx < 16,
            vy < 16,
        ensures
            final(self)@ == old(self)@.skip_if_registers_not_equal(vx, vy),
    {
        if self.get(vx) != self.get(vy) {
            self.skip();
        }
    }

    /// Puts `addr` into `I`.
    pub fn set_i(&mut self, addr: u16)
        ensures
            final(self)@ == old(self)@.set_i(addr),
    {
        self.i = addr;
    }

    /// The program counter becomes `addr + V[0]`, modulo 2^16.
    pub fn jump_plus_v0(&mut self, addr: u16)
        ensures
            final(self)@ == old(self)@.jump_plus_v0(addr),
    {
        self.pc = addr.wrapping_add(self.get(0) as u16);
    }

    /// Moves the random source on and puts the byte that it hands out,
    /// masked with `byte`, into `V[vx]`.
    pub fn random_byte(&mut self, vx: u8, byte: u8)
        requires
            vx < 16,
        ensures
            final(self)@ == old(self)@.random_byte(vx, byte),
    {
        self.rng = advance(self.rng);
        let random = sample(self.rng);
        *self.get_mutable(vx) = random & byte;
    }

    /// Draws the sprite of `nibble` rows that memory holds at `I`, with
    /// its top left corner at (`V[vx] mod 64`, `V[vy] mod 32`) and around
    /// the edges of the screen, then sets `VF` to 1 if a pixel went off and
    /// to 0 if none did. Fails if one of the sprite's addresses is refused.
    pub fn draw(&mut self, vx: u8, vy: u8, nibble: u8) -> (r: Result<(), CpuError>)
        requires
            vx < 16,
            vy < 16,
            nibble < 16,
        ensures
            match old(self)@.draw(vx, vy, nibble) {
                Ok(s) => r is Ok && final(self)@ == s,
                Err(e) => r == Err::<(), CpuError>(e) && final(self)@ == old(self)@,
            },
    {
        Self::check_access(self.i, nibble as u16)?;
        proof {
            self.memory.lemma_size();
        }
        let mut sprite: Vec<u8> = Vec::new();
        let mut row: u8 = 0;
        while row < nibble
            invariant
                row <= nibble < 16,
                sprite@.len() == row,
                self.memory@.len() == 4096,
                range_fault(self.i, nibble as nat) is None,
                forall|r: int| 0 <= r < row ==> sprite@[r] == self.memory@[self.i + r],
            decreases nibble - row,
        {
            sprite.push(self.memory.read(self.i + row as u16).unwrap());
            row += 1;
        }
        assert(sprite@ =~= self@.sprite(nibble));
        let ox = self.get(vx) % 64;
        let oy = self.get(vy) % 32;
        let collision = self.display.draw(sprite.as_slice(), ox, oy);
        *self.get_mutable(FLAG_REGISTER) = if collision {
            1
        } else {
            0
        };
        Ok(())
    }

    /// Skips the next instruction if the key with index `V[vx]` is down.
    pub fn skip_if_key_pressed(&mut self, vx: u8)
        requires
            vx < 16,
        ensures
            final(self)@ == old(self)@.skip_if_key_pressed(vx),
    {
        let key = self.get(vx);
        if key < 16 && self.keys[key as usize] {
            self.skip();
        }
    }

    /// Skips the next instruction if the key with index `V[vx]` is not
    /// down.
    pub fn skip_if_key_not_pressed(&mut self, vx: u8)
        requires
            vx < 16,
        ensures
            final(self)@ == old(self)@.skip_if_key_not_pressed(vx),
    {
        let key = self.get(vx);
        if !(key < 16 && self.keys[key as usize]) {
            self.skip();
        }
    }

    /// Puts the delay timer into `V[vx]`.
    pub fn store_delay_timer(&mut self, vx: u8)
        requires
            vx < 16,
        ensures
            final(self)@ == old(self)@.store_delay_timer(vx),
    {
        let dt = self.dt;
        *self.get_mutable(vx) = dt;
    }

    /// Waits for a key. With a key down, its index goes into `V[vx]`, the
    /// lowest if several are down. With none down, the program counter
    /// goes back by one instruction, so that this one is fetched again.
    pub fn store_input(&mut self, vx: u8)
        requires
            vx < 16,
        ensures
            final(self)@ == old(self)@.store_input(vx),
    {
        let mut key: u8 = 0;
        while key < 16 && !self.keys[key as usize]
            invariant
                key <= 16,
                forall|k: int| 0 <= k < key ==> !self.keys@[k],
            decreases 16 - key,
        {
            key += 1;
        }
        proof {
            lemma_lowest_pressed_from(self.keys@, 0);
        }
        if key < 16 {
            self.waiting = false;
            *self.get_mutable(vx) = key;
        } else {
            self.waiting = true;
            self.pc = self.pc.wrapping_sub(2);
        }
    }

    /// Puts `V[vx]` into the delay timer.
    pub fn set_delay_timer(&mut self, vx: u8)
        requires
            vx < 16,
        ensures
            final(self)@ == old(self)@.set_delay_timer(vx),
    {
        self.dt = self.get(vx);
    }

    /// Puts `V[vx]` into the sound timer.
    pub fn set_sound_timer(&mut self, vx: u8)
        requires
            vx < 16,
        ensures
            final(self)@ == old(self)@.set_sound_timer(vx),
    {
        self.st = self.get(vx);
    }

    /// Adds `V[vx]` to `I`, modulo 2^16.
    pub fn add_to_i(&mut self, vx: u8)
        requires
            vx < 16,
        ensures
            final(self)@ == old(self)@.add_to_i(vx),
    {
        self.i = self.i.wrapping_add(self.get(vx) as u16);
    }

    /// Puts the address of the glyph for the digit `V[vx] mod 16` into
    /// `I`.
    pub fn set_i_to_sprite_location(&mut self, vx: u8)
        requires
            vx < 16,
        ensures
            final(self)@ == old(self)@.set_i_to_sprite_location(vx),
    {
        let digit = self.get(vx) % 16;
        self.i = FONT_BASE + GLYPH_SIZE * digit as u16;
    }

    /// Writes the hundreds, tens and ones of `V[vx]` to the three bytes of
    /// memory from `I` on. Fails if one of the three addresses is refused.
    pub fn store_binary_coded_decimal(&mut self, vx: u8) -> (r: Result<(), CpuError>)
        requires
            vx < 16,
        ensures
            match old(self)@.store_binary_coded_decimal(vx) {
                Ok(s) => r is Ok && final(self)@ == s,
                Err(e) => r == Err::<(), CpuError>(e) && final(self)@ == old(self)@,
            },
    {
        Self::check_access(self.i, 3)?;
        let value = self.get(vx);
        self.memory.write(self.i, value / 100).unwrap();
        self.memory.write(self.i + 1, (value / 10) % 10).unwrap();
        self.memory.write(self.i + 2, value % 10).unwrap();
        Ok(())
    }

    /// Writes `V[0]` to `V[vx]` to the bytes of memory from `I` on. Fails
    /// if one of these addresses is refused.
    pub fn store_registers_in_memory(&mut self, vx: u8) -> (r: Result<(), CpuError>)
        requires
            vx < 16,
        ensures
            match old(self)@.store_registers_in_memory(vx) {
                Ok(s) => r is Ok && final(self)@ == s,
                Err(e) => r == Err::<(), CpuError>(e) && final(self)@ == old(self)@,
            },
    {
        Self::check_access(self.i, vx as u16 + 1)?;
        proof {
            self.memory.lemma_size();
        }
        let mut register: u8 = 0;
        while register <= vx
            invariant
                register <= vx + 1,
                vx < 16,
                range_fault(self.i, (vx + 1) as nat) is None,
                old(self)@.memory.len() == 4096,
                self@ == (MachineState {
                    memory: Seq::new(
                        4096,
                        |a: int|
                            if self.i <= a < self.i + register {
                                old(self)@.v[a - self.i]
                            } else {
                                old(self)@.memory[a]
                            },
                    ),
                    ..old(self)@
                }),
            decreases vx + 1 - register,
        {
            let value = self.get(register);
            self.memory.write(self.i + register as u16, value).unwrap();
            register += 1;
        }
        Ok(())
    }

    /// Reads `V[0]` to `V[vx]` from the bytes of memory from `I` on. Fails
    /// if one of these addresses is refused.
    pub fn load_registers_from_memory(&mut self, vx: u8) -> (r: Result<(), CpuError>)
        requires
            vx < 16,
        ensures
            match old(self)@.load_registers_from_memory(vx) {
                Ok(s) => r is Ok && final(self)@ == s,
                Err(e) => r == Err::<(), CpuError>(e) && final(self)@ == old(self)@,
            },
    {
        Self::check_access(self.i, vx as u16 + 1)?;
        proof {
            self.memory.lemma_size();
        }
        let mut register: u8 = 0;
        while register <= vx
            invariant
                register <= vx + 1,
                vx < 16,
                range_fault(self.i, (vx + 1) as nat) is None,
                self@.memory.len() == 4096,
                self@ == (MachineState {
                    v: Seq::new(
                        16,
                        |r: int|
                            if r < register {
                                old(self)@.memory[self.i + r]
                            } else {
                                old(self)@.v[r]
                            },
                    ),
                    ..old(self)@
                }),
            decreases vx + 1 - register,
        {
            let byte = self.memory.read(self.i + register as u16).unwrap();
            *self.get_mutable(register) = byte;
            register += 1;
        }
        Ok(())
    }
}

} // verus!
