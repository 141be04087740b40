//! The machine as a mathematical value, and what each operation makes of it.
//!
//! Everything here is ghost code: [`MachineState`] is the view of the
//! processor in `cpu`, and the functions on it say what the processor's
//! methods compute.
//!
//! Conventions that hold for every operation:
//! - Operands are read from the state before the operation. Where an
//!   operation writes both a result register and the flag register `VF`, the
//!   writes happen in the order in which the operation's description names
//!   them, so the later one stands if the result register is `VF` itself.
//! - The program counter and the address register are 16-bit values and
//!   their arithmetic is modulo 2^16. Addresses are checked when memory is
//!   accessed, not when they are computed.
//! - An operation that fails changes nothing.

use crate::display::{draw_sprite, sprite_collides, DISPLAY_PIXELS};
use crate::instructions::{Instruction, InvalidInstructionError};
use crate::memory::{range_fault, InvalidAddressError, MEMORY_SIZE, PROGRAM_START};
use crate::random::{next_state, output};
use vstd::prelude::*;

verus! {

/// Number of general registers.
pub const REGISTER_COUNT: usize = 16;

/// Index of `VF`, the register that receives carry, borrow and collision
/// flags.
pub const FLAG_REGISTER: u8 = 0xF;

/// Number of return addresses that the call stack holds.
pub const STACK_DEPTH: usize = 16;

/// Number of keys on the pad.
pub const KEY_COUNT: usize = 16;

/// Address at which execution starts.
pub const ENTRY_POINT: u16 = PROGRAM_START;

/// Address of the glyph for the digit 0. The sixteen glyphs follow each
/// other without gaps.
pub const FONT_BASE: u16 = 0x050;

/// Bytes in a glyph.
pub const GLYPH_SIZE: u16 = 5;

/// Why an operation could not be carried out.
#[derive(Clone, Copy, Debug, PartialEq, Eq, Structural)]
pub enum CpuError {
    /// A memory access was refused.
    Memory(InvalidAddressError),
    /// The fetched word is no instruction.
    Decode(InvalidInstructionError),
    /// A call with `STACK_DEPTH` return addresses already on the stack.
    StackOverflow,
    /// A return with no return address on the stack.
    StackUnderflow,
}

/// `n` reduced to eight bits.
pub open spec fn wrap8(n: int) -> u8 {
    (n % 0x100) as u8
}

/// `n` reduced to sixteen bits.
pub open spec fn wrap16(n: int) -> u16 {
    (n % 0x1_0000) as u16
}

/// Index of the first pressed key at or after `from`, if there is one.
pub open spec fn lowest_pressed_from(keys: Seq<bool>, from: int) -> Option<u8>
    decreases keys.len() - from,
{
    if from < 0 || from >= keys.len() {
        None
    } else if keys[from] {
        Some(from as u8)
    } else {
        lowest_pressed_from(keys, from + 1)
    }
}

/// Index of the pressed key with the lowest index, if a key is pressed.
pub open spec fn lowest_pressed(keys: Seq<bool>) -> Option<u8> {
    lowest_pressed_from(keys, 0)
}

/// [`lowest_pressed_from`] finds a pressed key with no pressed key between
/// `from` and it, and finds none only where none is pressed from `from` on.
pub proof fn lemma_lowest_pressed_from(keys: Seq<bool>, from: int)
    requires
        0 <= from,
        keys.len() <= 256,
    ensures
        match lowest_pressed_from(keys, from) {
            Some(key) => from <= key < keys.len() && keys[key as int] && forall|j: int|
                from <= j < key ==> !keys[j],
            None => forall|j: int| from <= j < keys.len() ==> !keys[j],
        },
    decreases keys.len() - from,
{
    if from < keys.len() && !keys[from] {
        lemma_lowest_pressed_from(keys, from + 1);
    }
}

/// The whole machine.
#[verifier::ext_equal]
pub struct MachineState {
    /// The registers `V0` to `VF`.
    pub v: Seq<u8>,
    /// The address register `I`.
    pub i: u16,
    /// The delay timer.
    pub delay_timer: u8,
    /// The sound timer.
    pub sound_timer: u8,
    /// The program counter.
    pub pc: u16,
    /// The return addresses of the calls in progress, the oldest first.
    pub stack: Seq<u16>,
    /// The picture, row by row, `true` for a pixel that is on.
    pub display: Seq<bool>,
    /// The contents of memory.
    pub memory: Seq<u8>,
    /// The keys, `true` for one that is held down.
    pub keys: Seq<bool>,
    /// Whether the last `StoreInput` found no key and is to run again.
    pub waiting_for_key: bool,
    /// The state of the pseudo-random source.
    pub random_state: u32,
}

impl MachineState {
    /// The parts have their sizes and the stack is within its capacity.
    pub open spec fn well_formed(self) -> bool {
        &&& self.v.len() == REGISTER_COUNT
        &&& self.stack.len() <= STACK_DEPTH
        &&& self.display.len() == DISPLAY_PIXELS
        &&& self.memory.len() == MEMORY_SIZE
        &&& self.keys.len() == KEY_COUNT
    }

    /// The machine at the start of a session: registers, timers and stack
    /// empty, the screen dark, no key down, the program counter at
    /// `ENTRY_POINT`.
    pub open spec fn initial(memory: Seq<u8>, seed: u32) -> MachineState {
        MachineState {
            v: Seq::new(REGISTER_COUNT as nat, |r: int| 0u8),
            i: 0,
            delay_timer: 0,
            sound_timer: 0,
            pc: ENTRY_POINT,
            stack: Seq::empty(),
            display: Seq::new(DISPLAY_PIXELS as nat, |k: int| false),
            memory,
            keys: Seq::new(KEY_COUNT as nat, |k: int| false),
            waiting_for_key: false,
            random_state: seed,
        }
    }

    /// The value of register `x`.
    pub open spec fn register(self, x: u8) -> u8 {
        self.v[x as int]
    }

    /// The machine with `value` in register `x`.
    pub open spec fn with_register(self, x: u8, value: u8) -> MachineState {
        MachineState { v: self.v.update(x as int, value), ..self }
    }

    /// The machine with 1 or 0 in `VF`.
    pub open spec fn with_flag(self, flag: bool) -> MachineState {
        self.with_register(
            FLAG_REGISTER,
            if flag {
                1u8
            } else {
                0u8
            },
        )
    }

    /// The machine with the next instruction skipped if `condition` holds.
    pub open spec fn skip_if(self, condition: bool) -> MachineState {
        if condition {
            MachineState { pc: wrap16(self.pc + 2), ..self }
        } else {
            self
        }
    }

    /// Whether the key with index `key` is held down. There are
    /// `KEY_COUNT` keys; an index beyond them names no key, and no key is
    /// not held down.
    pub open spec fn key_pressed(self, key: u8) -> bool {
        key < KEY_COUNT && self.keys[key as int]
    }

    /// The machine with key `key` down or up.
    pub open spec fn with_key(self, key: u8, pressed: bool) -> MachineState {
        MachineState { keys: self.keys.update(key as int, pressed), ..self }
    }

    /// The machine after one sixtieth of a second: each timer that is not
    /// zero has gone down by one.
    pub open spec fn tick_timers(self) -> MachineState {
        MachineState {
            delay_timer: if self.delay_timer > 0 {
                (self.delay_timer - 1) as u8
            } else {
                0
            },
            sound_timer: if self.sound_timer > 0 {
                (self.sound_timer - 1) as u8
            } else {
                0
            },
            ..self
        }
    }

    /// Every pixel off.
    pub open spec fn clear_display(self) -> MachineState {
        MachineState { display: Seq::new(DISPLAY_PIXELS as nat, |k: int| false), ..self }
    }

    /// The program counter is the newest return address, which leaves the
    /// stack.
    pub open spec fn return_from_subroutine(self) -> Result<MachineState, CpuError> {
        if self.stack.len() == 0 {
            Err(CpuError::StackUnderflow)
        } else {
            Ok(MachineState { pc: self.stack.last(), stack: self.stack.drop_last(), ..self })
        }
    }

    /// The program counter is `addr`.
    pub open spec fn jump(self, addr: u16) -> MachineState {
        MachineState { pc: addr, ..self }
    }

    /// The program counter goes on the stack and is then `addr`.
    pub open spec fn call(self, addr: u16) -> Result<MachineState, CpuError> {
        if self.stack.len() >= STACK_DEPTH {
            Err(CpuError::StackOverflow)
        } else {
            Ok(MachineState { pc: addr, stack: self.stack.push(self.pc), ..self })
        }
    }

    /// Skip if `V[x] == byte`.
    pub open spec fn skip_if_equal(self, x: u8, byte: u8) -> MachineState {
        self.skip_if(self.register(x) == byte)
    }

    /// Skip if `V[x] != byte`.
    pub open spec fn skip_if_not_equal(self, x: u8, byte: u8) -> MachineState {
        self.skip_if(self.register(x) != byte)
    }

    /// Skip if `V[x] == V[y]`.
    pub open spec fn skip_if_registers_equal(self, x: u8, y: u8) -> MachineState {
        self.skip_if(self.register(x) == self.register(y))
    }

    /// Skip if `V[x] != V[y]`.
    pub open spec fn skip_if_registers_not_equal(self, x: u8, y: u8) -> MachineState {
        self.skip_if(self.register(x) != self.register(y))
    }

    /// `V[x] := byte`.
    pub open spec fn set_register(self, x: u8, byte: u8) -> MachineState {
        self.with_register(x, byte)
    }

    /// `V[x] := (V[x] + byte) mod 256`; `VF` is not touched.
    pub open spec fn add(self, x: u8, byte: u8) -> MachineState {
        self.with_register(x, wrap8(self.register(x) + byte))
    }

    /// `V[x] := V[y]`.
    pub open spec fn copy_register(self, x: u8, y: u8) -> MachineState {
        self.with_register(x, self.register(y))
    }

    /// `V[x] := V[x] | V[y]`.
    pub open spec fn or(self, x: u8, y: u8) -> MachineState {
        self.with_register(x, self.register(x) | self.register(y))
    }

    /// `V[x] := V[x] & V[y]`.
    pub open spec fn and(self, x: u8, y: u8) -> MachineState {
        self.with_register(x, self.register(x) & self.register(y))
    }

    /// `V[x] := V[x] ^ V[y]`.
    pub open spec fn xor(self, x: u8, y: u8) -> MachineState {
        self.with_register(x, self.register(x) ^ self.register(y))
    }

    /// `V[x] := (V[x] + V[y]) mod 256`, then `VF := 1` if the sum is above
    /// 255, else 0.
    pub open spec fn add_registers(self, x: u8, y: u8) -> MachineState {
        let sum = self.register(x) + self.register(y);
        self.with_register(x, wrap8(sum)).with_flag(sum > 255)
    }

    /// `VF := 1` if `V[x] > V[y]`, else 0, then
    /// `V[x] := (V[x] - V[y]) mod 256`.
    pub open spec fn subtract(self, x: u8, y: u8) -> MachineState {
        let a = self.register(x);
        let b = self.register(y);
        self.with_flag(a > b).with_register(x, wrap8(a - b))
    }

    /// `VF :=` the lowest bit of `V[x]`, then `V[x] := V[x] / 2`.
    pub open spec fn shift_right(self, x: u8) -> MachineState {
        let a = self.register(x);
        self.with_flag(a % 2 == 1).with_register(x, a / 2)
    }

    /// `VF := 1` if `V[y] > V[x]`, else 0, then
    /// `V[x] := (V[y] - V[x]) mod 256`.
    pub open spec fn reverse_subtract(self, x: u8, y: u8) -> MachineState {
        let a = self.register(x);
        let b = self.register(y);
        self.with_flag(b > a).with_register(x, wrap8(b - a))
    }

    /// `VF :=` the highest bit of `V[x]`, then `V[x] := (V[x] * 2) mod 256`.
    pub open spec fn shift_left(self, x: u8) -> MachineState {
        let a = self.register(x);
        self.with_flag(a >= 128).with_register(x, wrap8(a * 2))
    }

    /// `I := addr`.
    pub open spec fn set_i(self, addr: u16) -> MachineState {
        MachineState { i: addr, ..self }
    }

    /// The program counter is `addr + V[0]`.
    pub open spec fn jump_plus_v0(self, addr: u16) -> MachineState {
        MachineState { pc: wrap16(addr + self.register(0)), ..self }
    }

    /// The random source moves on and `V[x]` is the byte it hands out,
    /// masked with `byte`.
    pub open spec fn random_byte(self, x: u8, byte: u8) -> MachineState {
        let next = next_state(self.random_state);
        MachineState { random_state: next, ..self }.with_register(x, output(next) & byte)
    }

    /// The `rows` bytes of memory from `I` on.
    pub open spec fn sprite(self, rows: u8) -> Seq<u8> {
        Seq::new(rows as nat, |r: int| self.memory[self.i + r])
    }

    /// The sprite of `rows` rows at `I` is drawn with its top left corner
    /// at (`V[x] mod 64`, `V[y] mod 32`), and `VF` is 1 if that turned a
    /// pixel off, else 0. Fails if one of the sprite's addresses is refused.
    pub open spec fn draw(self, x: u8, y: u8, rows: u8) -> Result<MachineState, CpuError> {
        match range_fault(self.i, rows as nat) {
            Some(e) => Err(CpuError::Memory(e)),
            None => {
                let ox = self.register(x) as int % 64;
                let oy = self.register(y) as int % 32;
                Ok(
                    MachineState {
                        display: draw_sprite(self.display, self.sprite(rows), ox, oy),
                        ..self
                    }.with_flag(sprite_collides(self.display, self.sprite(rows), ox, oy)),
                )
            },
        }
    }

    /// Skip if the key with index `V[x]` is held down.
    pub open spec fn skip_if_key_pressed(self, x: u8) -> MachineState {
        self.skip_if(self.key_pressed(self.register(x)))
    }

    /// Skip if the key with index `V[x]` is not held down.
    pub open spec fn skip_if_key_not_pressed(self, x: u8) -> MachineState {
        self.skip_if(!self.key_pressed(self.register(x)))
    }

    /// `V[x] :=` the delay timer.
    pub open spec fn store_delay_timer(self, x: u8) -> MachineState {
        self.with_register(x, self.delay_timer)
    }

    /// With a key down, `V[x]` is the lowest index of a key that is down
    /// and the machine goes on. With no key down the program counter goes
    /// back by one instruction, so that the same instruction is fetched
    /// again, and the machine is waiting.
    pub open spec fn store_input(self, x: u8) -> MachineState {
        match lowest_pressed(self.keys) {
            Some(key) => MachineState { waiting_for_key: false, ..self }.with_register(x, key),
            None => MachineState { waiting_for_key: true, pc: wrap16(self.pc - 2), ..self },
        }
    }

    /// The delay timer is `V[x]`.
    pub open spec fn set_delay_timer(self, x: u8) -> MachineState {
        MachineState { delay_timer: self.register(x), ..self }
    }

    /// The sound timer is `V[x]`.
    pub open spec fn set_sound_timer(self, x: u8) -> MachineState {
        MachineState { sound_timer: self.register(x), ..self }
    }

    /// `I := (I + V[x]) mod 2^16`.
    pub open spec fn add_to_i(self, x: u8) -> MachineState {
        MachineState { i: wrap16(self.i + self.register(x)), ..self }
    }

    /// `I :=` the address of the glyph for the digit `V[x] mod 16`.
    pub open spec fn set_i_to_sprite_location(self, x: u8) -> MachineState {
        MachineState { i: (FONT_BASE + GLYPH_SIZE * (self.register(x) % 16)) as u16, ..self }
    }

    /// The hundreds, tens and ones of `V[x]` go to the three bytes of
    /// memory from `I` on. Fails if one of the three addresses is refused.
    pub open spec fn store_binary_coded_decimal(self, x: u8) -> Result<MachineState, CpuError> {
        match range_fault(self.i, 3) {
            Some(e) => Err(CpuError::Memory(e)),
            None => {
                let value = self.register(x);
                Ok(
                    MachineState {
                        memory: self.memory.update(self.i as int, value / 100).update(
                            self.i + 1,
                            (value / 10) % 10,
                        ).update(self.i + 2, value % 10),
                        ..self
                    },
                )
            },
        }
    }

    /// `V[0]` to `V[x]` go to the `x + 1` bytes of memory from `I` on.
    /// Fails if one of these addresses is refused.
    pub open spec fn store_registers_in_memory(self, x: u8) -> Result<MachineState, CpuError> {
        match range_fault(self.i, (x + 1) as nat) {
            Some(e) => Err(CpuError::Memory(e)),
            None => Ok(
                MachineState {
                    memory: Seq::new(
                        MEMORY_SIZE as nat,
                        |a: int|
                            if self.i <= a <= self.i + x {
                                self.v[a - self.i]
                            } else {
                                self.memory[a]
                            },
                    ),
                    ..self
                },
            ),
        }
    }

    /// `V[0]` to `V[x]` come from the `x + 1` bytes of memory from `I` on.
    /// Fails if one of these addresses is refused.
    pub open spec fn load_registers_from_memory(self, x: u8) -> Result<MachineState, CpuError> {
        match range_fault(self.i, (x + 1) as nat) {
            Some(e) => Err(CpuError::Memory(e)),
            None => Ok(
                MachineState {
                    v: Seq::new(
                        REGISTER_COUNT as nat,
                        |r: int|
                            if r <= x {
                                self.memory[self.i + r]
                            } else {
                                self.v[r]
                            },
                    ),
                    ..self
                },
            ),
        }
    }

    /// What carrying out `instruction` makes of the machine. The program
    /// counter is taken to be past the instruction already.
    pub open spec fn execute(self, instruction: Instruction) -> Result<MachineState, CpuError> {
        match instruction {
            Instruction::ClearDisplay => Ok(self.clear_display()),
            Instruction::Return => self.return_from_subroutine(),
            Instruction::Jump(addr) => Ok(self.jump(addr)),
            Instruction::Call(addr) => self.call(addr),
            Instruction::SkipIfEqual(x, byte) => Ok(self.skip_if_equal(x, byte)),
            Instruction::SkipIfNotEqual(x, byte) => Ok(self.skip_if_not_equal(x, byte)),
            Instruction::SkipIfRegistersEqual(x, y) => Ok(self.skip_if_registers_equal(x, y)),
            Instruction::SetRegister(x, byte) => Ok(self.set_register(x, byte)),
            Instruction::Add(x, byte) => Ok(self.add(x, byte)),
            Instruction::CopyRegister(x, y) => Ok(self.copy_register(x, y)),
            Instruction::Or(x, y) => Ok(self.or(x, y)),
            Instruction::And(x, y) => Ok(self.and(x, y)),
            Instruction::Xor(x, y) => Ok(self.xor(x, y)),
            Instruction::AddRegisters(x, y) => Ok(self.add_registers(x, y)),
            Instruction::Subtract(x, y) => Ok(self.subtract(x, y)),
            Instruction::ShiftRight(x) => Ok(self.shift_right(x)),
            Instruction::ReverseSubtract(x, y) => Ok(self.reverse_subtract(x, y)),
            Instruction::ShiftLeft(x) => Ok(self.shift_left(x)),
            Instruction::SkipIfRegistersNotEqual(x, y) => Ok(
                self.skip_if_registers_not_equal(x, y),
            ),
            Instruction::SetI(addr) => Ok(self.set_i(addr)),
            Instruction::JumpPlusV0(addr) => Ok(self.jump_plus_v0(addr)),
            Instruction::RandomByte(x, byte) => Ok(self.random_byte(x, byte)),
            Instruction::Draw(x, y, rows) => self.draw(x, y, rows),
            Instruction::SkipIfKeyPressed(x) => Ok(self.skip_if_key_pressed(x)),
            Instruction::SkipIfKeyNotPressed(x) => Ok(self.skip_if_key_not_pressed(x)),
            Instruction::SetRegisterToDelayTimer(x) => Ok(self.store_delay_timer(x)),
            Instruction::StoreInput(x) => Ok(self.store_input(x)),
            Instruction::SetDelayTimer(x) => Ok(self.set_delay_timer(x)),
            Instruction::SetSoundTimer(x) => Ok(self.set_sound_timer(x)),
            Instruction::AddToI(x) => Ok(self.add_to_i(x)),
            Instruction::SetIToSpriteLocation(x) => Ok(self.set_i_to_sprite_location(x)),
            Instruction::StoreBinaryCodedDecimal(x) => self.store_binary_coded_decimal(x),
            Instruction::StoreRegisters(x) => self.store_registers_in_memory(x),
            Instruction::LoadRegisters(x) => self.load_registers_from_memory(x),
        }
    }

    /// The instruction word at the program counter, high byte first, and
    /// the machine with the program counter past it. Fails if one of the
    /// two addresses is refused.
    pub open spec fn fetch(self) -> Result<(u16, MachineState), CpuError> {
        match range_fault(self.pc, 2) {
            Some(e) => Err(CpuError::Memory(e)),
            None => Ok(
                (
                    (self.memory[self.pc as int] * 0x100 + self.memory[self.pc + 1]) as u16,
                    MachineState { pc: wrap16(self.pc + 2), ..self },
                ),
            ),
        }
    }

    /// One cycle: fetch a word, decode it, carry the instruction out.
    pub open spec fn step(self) -> Result<MachineState, CpuError> {
        match self.fetch() {
            Err(e) => Err(e),
            Ok((word, fetched)) => match Instruction::decode(word) {
                Err(e) => Err(CpuError::Decode(e)),
                Ok(instruction) => fetched.execute(instruction),
            },
        }
    }
}

/// A call followed by a return leaves the machine as it was before the
/// call: the program counter is back at the instruction after the call and
/// the stack is as deep as before.
pub proof fn lemma_call_then_return(s: MachineState, addr: u16)
    requires
        s.stack.len() < STACK_DEPTH,
    ensures
        s.call(addr) matches Ok(called) && called.pc == addr && called.return_from_subroutine()
            == Ok::<MachineState, CpuError>(s),
{
    let called = s.call(addr)->Ok_0;
    let returned = called.return_from_subroutine()->Ok_0;
    assert(returned.stack =~= s.stack);
    assert(returned =~= s);
}

/// The same over two whole cycles: where the word at the program counter is
/// a call to `addr`, and the word at `addr` is a return, the second cycle
/// ends with the program counter on the word that follows the call and
/// with everything else as it was.
pub proof fn lemma_call_and_return_cycles(s: MachineState, addr: u16)
    requires
        s.well_formed(),
        s.stack.len() < STACK_DEPTH,
        s.fetch() matches Ok((word, _)) && Instruction::decode(word) == Ok::<
            Instruction,
            InvalidInstructionError,
        >(Instruction::Call(addr)),
        range_fault(addr, 2) is None,
        s.memory[addr as int] == 0x00,
        s.memory[addr + 1] == 0xEE,
    ensures
        s.step() matches Ok(called) && called.pc == addr && called.step() == Ok::<
            MachineState,
            CpuError,
        >(MachineState { pc: (s.pc + 2) as u16, ..s }),
{
    let fetched = s.fetch()->Ok_0.1;
    lemma_call_then_return(fetched, addr);
    let called = s.step()->Ok_0;
    assert(called.fetch()->Ok_0.0 == 0x00EE);
    assert(Instruction::decode(0x00EE) == Ok::<Instruction, InvalidInstructionError>(
        Instruction::Return,
    ));
    let after = called.fetch()->Ok_0.1;
    assert(after.stack == fetched.stack.push(fetched.pc));
    assert(after.return_from_subroutine()->Ok_0 =~= fetched);
}

/// With no key down, a cycle on a `StoreInput` does not get past it: the
/// program counter stays on the instruction and the machine is waiting.
pub proof fn lemma_store_input_waits(s: MachineState, x: u8)
    requires
        s.fetch() matches Ok((word, _)) && Instruction::decode(word) == Ok::<
            Instruction,
            InvalidInstructionError,
        >(Instruction::StoreInput(x)),
        lowest_pressed(s.keys) is None,
    ensures
        s.step() == Ok::<MachineState, CpuError>(MachineState { waiting_for_key: true, ..s }),
{
}

/// Carrying out a well-formed instruction on a well-formed machine gives a
/// well-formed machine: sixteen registers, a stack within its capacity, a
/// screen, memory and key pad of their sizes.
pub proof fn lemma_execute_keeps_well_formed(s: MachineState, instruction: Instruction)
    requires
        s.well_formed(),
        instruction.well_formed(),
    ensures
        s.execute(instruction) matches Ok(after) ==> after.well_formed(),
{
}

/// The screen changes under `ClearDisplay` and `Draw` and under no other
/// instruction.
pub proof fn lemma_screen_changes_only_by_clear_and_draw(s: MachineState, instruction: Instruction)
    requires
        !(instruction is ClearDisplay),
        !(instruction is Draw),
    ensures
        s.execute(instruction) matches Ok(after) ==> after.display == s.display,
{
}

/// Adding an immediate leaves `VF` alone, unless `VF` is the register
/// added to.
pub proof fn lemma_add_keeps_flag(s: MachineState, x: u8, byte: u8)
    requires
        s.well_formed(),
        x < REGISTER_COUNT,
        x != FLAG_REGISTER,
    ensures
        s.add(x, byte).register(FLAG_REGISTER) == s.register(FLAG_REGISTER),
{
}

/// The three digits that `StoreBinaryCodedDecimal` writes are decimal
/// digits and make up the value.
pub proof fn lemma_decimal_digits(value: u8)
    ensures
        value / 100 <= 2,
        (value / 10) % 10 <= 9,
        value % 10 <= 9,
        100 * (value / 100) + 10 * ((value / 10) % 10) + value % 10 == value,
{
}

/// Registers that were stored come back when they are loaded from the same
/// place.
pub proof fn lemma_store_then_load(s: MachineState, x: u8)
    requires
        s.well_formed(),
        x < REGISTER_COUNT,
        range_fault(s.i, (x + 1) as nat) is None,
    ensures
        s.store_registers_in_memory(x) matches Ok(stored) && stored.load_registers_from_memory(x)
            == Ok::<MachineState, CpuError>(stored),
{
    let stored = s.store_registers_in_memory(x)->Ok_0;
    let loaded = stored.load_registers_from_memory(x)->Ok_0;
    assert(loaded.v =~= stored.v);
    assert(loaded =~= stored);
}

} // verus!
