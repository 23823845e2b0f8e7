//! The mathematical model of the machine: its state as plain values and the
//! meaning of every operation as a function from state to state.
//!
//! The executable machine is specified against this model: each of its
//! methods states that the model of the machine afterwards is the model's
//! function applied to the model of the machine before.

use vstd::prelude::*;
use crate::console::Key;
use crate::console::KeyEvent;
use crate::opcode::decode;
use crate::opcode::Operation;

verus! {

/// Number of addressable bytes of memory.
pub const MEMORY_SIZE: usize = 0x1000;

/// Number of general registers.
pub const REGISTER_COUNT: usize = 0x10;

/// Width of the display in pixels.
pub const DISPLAY_WIDTH: usize = 64;

/// Height of the display in pixels.
pub const DISPLAY_HEIGHT: usize = 32;

/// Number of keys on the pad.
pub const KEY_COUNT: usize = 16;

/// Index of the flag register, `VF`.
pub const FLAG_REGISTER: u8 = 0xF;

/// Time between two timer ticks, in nanoseconds.
pub const TICK_RATE: u128 = 16_000_000;

/// The conditions that stop the machine.
#[derive(Clone, Copy, Debug, PartialEq, Eq, Structural)]
pub enum MachineError {
    /// A memory address beyond the last byte was read, written or loaded.
    MemoryOverflow,
    /// A register index beyond `VF` was used.
    RegisterIndexOverflow,
    /// The index register would leave the address space.
    IndexRegisterOverflow,
    /// The program counter would leave the address space.
    ProgramCounterOverflow,
    /// A return was executed with an empty call stack.
    StackUnderflow,
    /// A key number beyond the pad's last key was looked up.
    KeyIndexOverflow,
}

impl MachineError {
    /// The words that describe the condition.
    pub open spec fn description(self) -> Seq<char> {
        match self {
            MachineError::MemoryOverflow => "memory overflow"@,
            MachineError::RegisterIndexOverflow => "invalid general register id"@,
            MachineError::IndexRegisterOverflow => "reg i over flow"@,
            MachineError::ProgramCounterOverflow => "pc overflow"@,
            MachineError::StackUnderflow => "call stack empty, no where to return"@,
            MachineError::KeyIndexOverflow => "invalid key id"@,
        }
    }

    /// Returns the words that describe the condition.
    pub fn message(&self) -> (text: &'static str)
        ensures
            text@ == self.description(),
    {
        match self {
            MachineError::MemoryOverflow => "memory overflow",
            MachineError::RegisterIndexOverflow => "invalid general register id",
            MachineError::IndexRegisterOverflow => "reg i over flow",
            MachineError::ProgramCounterOverflow => "pc overflow",
            MachineError::StackUnderflow => "call stack empty, no where to return",
            MachineError::KeyIndexOverflow => "invalid key id",
        }
    }
}

/// Progress of a pending key wait.
#[derive(Clone, Copy, Debug, PartialEq, Eq, Structural)]
pub enum GetKeyState {
    /// No key wait is pending.
    Idle,
    /// A key wait is pending and no key has gone down yet.
    Paused,
    /// The given key went down during the wait and is still held.
    Pressed(u8),
    /// The given key went down and came up again: the wait can complete.
    Released(u8),
}

/// The machine's state as plain mathematical values.
pub struct State {
    /// The 4096 bytes of memory.
    pub memory: Seq<u8>,
    /// The sixteen general registers, `V0` to `VF`.
    pub registers: Seq<u8>,
    /// The index register.
    pub index: u16,
    /// The program counter.
    pub pc: usize,
    /// The call stack, innermost return address last.
    pub stack: Seq<usize>,
    /// The delay timer.
    pub delay_timer: u8,
    /// The sound timer.
    pub sound_timer: u8,
    /// The display, as 32 rows of 64 pixels.
    pub display: Seq<Seq<bool>>,
    /// Whether the display changed since it was last presented.
    pub dirty: bool,
    /// The sixteen key flags.
    pub keys: Seq<bool>,
    /// Progress of a pending key wait.
    pub key_wait: GetKeyState,
    /// Where the font was loaded.
    pub font_address: usize,
    /// Where the cartridge was loaded.
    pub cartridge_address: usize,
    /// Whether the machine has been started and not been asked to quit.
    pub running: bool,
    /// The time one instruction is given, in nanoseconds.
    pub cycle: u128,
    /// Number of timer ticks so far, modulo 2^128.
    pub tick_count: u128,
    /// The time of the last timer tick, in nanoseconds.
    pub tick_at: u128,
}

/// What an operation leaves behind: the new state and whether it failed.
pub type Outcome = (State, Result<(), MachineError>);

/// The outcome of an operation that succeeds in state `s`.
pub open spec fn done(s: State) -> Outcome {
    (s, Ok(()))
}

/// The outcome of an operation that fails with `e`, leaving state `s`.
pub open spec fn failed(s: State, e: MachineError) -> Outcome {
    (s, Err(e))
}

/// The value `v` reduced modulo 256.
pub open spec fn wrapped(v: int) -> u8 {
    (v % 256) as u8
}

/// The smaller of two integers.
pub open spec fn least(a: int, b: int) -> int {
    if a <= b {
        a
    } else {
        b
    }
}

/// Whether the pixel in column `column` of a sprite row is set. Column 0 is
/// the leftmost pixel and the most significant bit of the row's byte.
pub open spec fn sprite_bit(row: u8, column: int) -> bool {
    0 <= column < 8 && row & (0x80u8 >> (column as u8)) != 0
}

/// A timer's value after one tick: one less, but not below zero.
pub open spec fn counted_down(timer: u8) -> u8 {
    if timer > 0 {
        (timer - 1) as u8
    } else {
        0
    }
}

/// A display with every pixel unset.
pub open spec fn blank_display() -> Seq<Seq<bool>> {
    Seq::new(DISPLAY_HEIGHT as nat, |y: int| Seq::new(DISPLAY_WIDTH as nat, |x: int| false))
}

impl State {
    /// The state of a machine fresh from construction: everything zero, the
    /// display blank, no key down, no key wait pending, not running.
    pub open spec fn initial(cycle: u128) -> State {
        State {
            memory: Seq::new(MEMORY_SIZE as nat, |a: int| 0u8),
            registers: Seq::new(REGISTER_COUNT as nat, |i: int| 0u8),
            index: 0,
            pc: 0,
            stack: Seq::empty(),
            delay_timer: 0,
            sound_timer: 0,
            display: blank_display(),
            dirty: false,
            keys: Seq::new(KEY_COUNT as nat, |k: int| false),
            key_wait: GetKeyState::Idle,
            font_address: 0,
            cartridge_address: 0,
            running: false,
            cycle: cycle,
            tick_count: 0,
            tick_at: 0,
        }
    }

    /// The invariant of every machine state: the stores have their sizes, and
    /// the index register, the program counter and the two load addresses lie
    /// inside the address space.
    pub open spec fn wf(self) -> bool {
        &&& self.memory.len() == MEMORY_SIZE
        &&& self.registers.len() == REGISTER_COUNT
        &&& self.keys.len() == KEY_COUNT
        &&& self.display.len() == DISPLAY_HEIGHT
        &&& forall|y: int| 0 <= y < DISPLAY_HEIGHT ==> (#[trigger] self.display[y]).len() == DISPLAY_WIDTH
        &&& self.index < MEMORY_SIZE
        &&& self.pc < MEMORY_SIZE
        &&& self.font_address < MEMORY_SIZE
        &&& self.cartridge_address < MEMORY_SIZE
    }

    /// The value of register `id`.
    pub open spec fn reg(self, id: u8) -> u8 {
        self.registers[id as int]
    }

    /// The pixel in column `x` of row `y`.
    pub open spec fn pixel(self, x: int, y: int) -> bool {
        self.display[y][x]
    }

    /// The state with register `id` set to `value`.
    pub open spec fn with_register(self, id: u8, value: u8) -> State {
        State { registers: self.registers.update(id as int, value), ..self }
    }

    /// The state with the flag register set to `value`.
    pub open spec fn with_flag(self, value: u8) -> State {
        self.with_register(FLAG_REGISTER, value)
    }

    /// The state with the byte at `address` set to `value`.
    pub open spec fn with_memory(self, address: int, value: u8) -> State {
        State { memory: self.memory.update(address, value), ..self }
    }

    /// Whether `data` fits into memory at `address`: the byte after its last
    /// one must still be an address.
    pub open spec fn can_load(address: int, len: int) -> bool {
        address + len < MEMORY_SIZE
    }

    /// The state with `data` copied into memory from `address` on.
    pub open spec fn loaded(self, address: int, data: Seq<u8>) -> State {
        State {
            memory: Seq::new(
                MEMORY_SIZE as nat,
                |a: int|
                    if address <= a < address + data.len() {
                        data[a - address]
                    } else {
                        self.memory[a]
                    },
            ),
            ..self
        }
    }

    /// Loading `data` at `address`: fails with `MemoryOverflow`, changing
    /// nothing, unless the data fits.
    pub open spec fn load(self, address: int, data: Seq<u8>) -> Outcome {
        if State::can_load(address, data.len() as int) {
            done(self.loaded(address, data))
        } else {
            failed(self, MachineError::MemoryOverflow)
        }
    }

    /// Loading the font: as `load`, and on success the address is recorded.
    pub open spec fn load_font(self, address: usize, data: Seq<u8>) -> Outcome {
        if State::can_load(address as int, data.len() as int) {
            done(State { font_address: address, ..self.loaded(address as int, data) })
        } else {
            failed(self, MachineError::MemoryOverflow)
        }
    }

    /// Loading the cartridge: as `load`, and on success the address is
    /// recorded.
    pub open spec fn load_cartridge(self, address: usize, data: Seq<u8>) -> Outcome {
        if State::can_load(address as int, data.len() as int) {
            done(State { cartridge_address: address, ..self.loaded(address as int, data) })
        } else {
            failed(self, MachineError::MemoryOverflow)
        }
    }

    /// Moving the program counter forward by `count` instructions of two
    /// bytes each: fails with `ProgramCounterOverflow`, changing nothing, if
    /// that would leave the address space.
    pub open spec fn advanced(self, count: int) -> Outcome {
        if self.pc + 2 * count >= MEMORY_SIZE {
            failed(self, MachineError::ProgramCounterOverflow)
        } else {
            done(State { pc: (self.pc + 2 * count) as usize, ..self })
        }
    }

    /// Moving on to the next instruction, or past it if `condition` holds.
    pub open spec fn skip_if(self, condition: bool) -> Outcome {
        self.advanced(
            if condition {
                2
            } else {
                1
            },
        )
    }

    /// Setting the program counter to `target`: fails with
    /// `ProgramCounterOverflow`, changing nothing, if `target` is no address.
    pub open spec fn jump(self, target: int) -> Outcome {
        if target >= MEMORY_SIZE {
            failed(self, MachineError::ProgramCounterOverflow)
        } else {
            done(State { pc: target as usize, ..self })
        }
    }

    /// Calling the subroutine at `target`: the address of the next
    /// instruction is pushed, then the program counter is set.
    pub open spec fn call(self, target: int) -> Outcome {
        if self.pc + 2 >= MEMORY_SIZE {
            failed(self, MachineError::ProgramCounterOverflow)
        } else {
            let next = (self.pc + 2) as usize;
            State { pc: next, stack: self.stack.push(next), ..self }.jump(target)
        }
    }

    /// Returning from a subroutine: the innermost return address is popped
    /// into the program counter. Fails with `StackUnderflow`, changing
    /// nothing, if the stack is empty.
    pub open spec fn returned(self) -> Outcome {
        if self.stack.len() == 0 {
            failed(self, MachineError::StackUnderflow)
        } else {
            State { stack: self.stack.drop_last(), ..self }.jump(self.stack.last() as int)
        }
    }

    /// Setting the index register to `value` and moving on: fails with
    /// `IndexRegisterOverflow`, changing nothing, if `value` is no address.
    pub open spec fn point_index(self, value: int) -> Outcome {
        if value >= MEMORY_SIZE {
            failed(self, MachineError::IndexRegisterOverflow)
        } else {
            State { index: value as u16, ..self }.advanced(1)
        }
    }

    /// Setting register `x` to `value` and moving on: fails with
    /// `RegisterIndexOverflow`, changing nothing, if `x` is no register.
    pub open spec fn assign(self, x: u8, value: u8) -> Outcome {
        if x >= REGISTER_COUNT {
            failed(self, MachineError::RegisterIndexOverflow)
        } else {
            self.with_register(x, value).advanced(1)
        }
    }

    /// Setting register `x` to `value`, computed from registers `x` and `y`,
    /// then the flag register to `flag`, and moving on. The flag is written
    /// last, so it wins where `x` is the flag register. Fails with
    /// `RegisterIndexOverflow`, changing nothing, if `x` or `y` is no
    /// register.
    pub open spec fn combine(self, x: u8, y: u8, value: u8, flag: u8) -> Outcome {
        if x >= REGISTER_COUNT || y >= REGISTER_COUNT {
            failed(self, MachineError::RegisterIndexOverflow)
        } else {
            self.with_register(x, value).with_flag(flag).advanced(1)
        }
    }

    /// Skipping on a comparison of register `x` with register `y`.
    pub open spec fn compare(self, x: u8, y: u8, skip_when_equal: bool) -> Outcome {
        if x >= REGISTER_COUNT || y >= REGISTER_COUNT {
            failed(self, MachineError::RegisterIndexOverflow)
        } else {
            self.skip_if((self.reg(x) == self.reg(y)) == skip_when_equal)
        }
    }

    /// Skipping on a comparison of register `x` with the constant `c`.
    pub open spec fn compare_constant(self, x: u8, c: u8, skip_when_equal: bool) -> Outcome {
        if x >= REGISTER_COUNT {
            failed(self, MachineError::RegisterIndexOverflow)
        } else {
            self.skip_if((self.reg(x) == c) == skip_when_equal)
        }
    }

    /// Skipping on the state of the key whose number register `x` holds.
    /// Fails with `KeyIndexOverflow` if that number names no key.
    pub open spec fn compare_key(self, x: u8, skip_when_down: bool) -> Outcome {
        if x >= REGISTER_COUNT {
            failed(self, MachineError::RegisterIndexOverflow)
        } else if self.reg(x) >= KEY_COUNT {
            failed(self, MachineError::KeyIndexOverflow)
        } else {
            self.skip_if(self.keys[self.reg(x) as int] == skip_when_down)
        }
    }

    /// The column at which a sprite drawn at `x` starts.
    pub open spec fn sprite_left(x: int) -> int {
        x % (DISPLAY_WIDTH as int)
    }

    /// The row at which a sprite drawn at `y` starts.
    pub open spec fn sprite_top(y: int) -> int {
        y % (DISPLAY_HEIGHT as int)
    }

    /// The number of sprite rows that a draw of `height` rows at `y` puts on
    /// the display: rows below the bottom edge are dropped, and so are rows
    /// whose byte lies beyond the end of memory.
    pub open spec fn sprite_rows(self, y: int, height: u8) -> int {
        least(
            least(height as int, DISPLAY_HEIGHT - State::sprite_top(y)),
            MEMORY_SIZE - self.index,
        )
    }

    /// The number of sprite rows whose byte a draw of `height` rows at `y`
    /// fetches: every row on the display, and the first one below the bottom
    /// edge if the sprite reaches that far.
    pub open spec fn sprite_fetches(y: int, height: u8) -> int {
        least(height as int, DISPLAY_HEIGHT - State::sprite_top(y) + 1)
    }

    /// Whether a draw of `height` rows at `(x, y)` finds a set sprite pixel
    /// for the display's pixel `(px, py)`. Columns right of the right edge
    /// are dropped, not wrapped.
    pub open spec fn sprite_hits(self, x: int, y: int, height: u8, px: int, py: int) -> bool {
        let left = State::sprite_left(x);
        let top = State::sprite_top(y);
        &&& top <= py < top + self.sprite_rows(y, height)
        &&& left <= px < DISPLAY_WIDTH
        &&& sprite_bit(self.memory[self.index + (py - top)], px - left)
    }

    /// Whether a draw of `height` rows at `(x, y)` unsets a pixel that was
    /// set.
    pub open spec fn sprite_collides(self, x: int, y: int, height: u8) -> bool {
        exists|px: int, py: int| #[trigger]
            self.sprite_hits(x, y, height, px, py) && self.pixel(px, py)
    }

    /// Whether a draw of `height` rows at `(x, y)` changes any pixel.
    pub open spec fn sprite_shows(self, x: int, y: int, height: u8) -> bool {
        exists|px: int, py: int| #[trigger] self.sprite_hits(x, y, height, px, py)
    }

    /// Drawing the sprite of `height` rows at the index register to `(x, y)`.
    ///
    /// The start wraps around the display; the sprite itself is clipped at
    /// the right and bottom edges. Each set sprite pixel flips the pixel
    /// under it. The flag register becomes 1 if a set pixel was unset, else
    /// 0; the display becomes dirty if any pixel changed. Fails with
    /// `MemoryOverflow` if a fetched row lies beyond the end of memory; the
    /// rows before it are drawn all the same.
    pub open spec fn draw(self, x: int, y: int, height: u8) -> Outcome {
        let drawn = State {
            display: Seq::new(
                DISPLAY_HEIGHT as nat,
                |py: int|
                    Seq::new(
                        DISPLAY_WIDTH as nat,
                        |px: int| self.pixel(px, py) ^ self.sprite_hits(x, y, height, px, py),
                    ),
            ),
            dirty: self.dirty || self.sprite_shows(x, y, height),
            ..self.with_flag(
                if self.sprite_collides(x, y, height) {
                    1
                } else {
                    0
                },
            )
        };
        if self.index + State::sprite_fetches(y, height) > MEMORY_SIZE {
            failed(drawn, MachineError::MemoryOverflow)
        } else {
            done(drawn)
        }
    }

    /// The sprite instruction: draws at the position held in registers `x`
    /// and `y`, then moves on.
    pub open spec fn draw_sprite(self, x: u8, y: u8, height: u8) -> Outcome {
        if x >= REGISTER_COUNT || y >= REGISTER_COUNT {
            failed(self, MachineError::RegisterIndexOverflow)
        } else {
            let (drawn, result) = self.draw(self.reg(x) as int, self.reg(y) as int, height);
            if result.is_ok() {
                drawn.advanced(1)
            } else {
                (drawn, result)
            }
        }
    }

    /// The key wait instruction. With no wait pending it starts one and stays
    /// on the instruction. With a wait completed by key `k` it ends the wait,
    /// stores `k` in register `x` and moves on. While a wait is in progress
    /// it does nothing.
    pub open spec fn wait_key(self, x: u8) -> Outcome {
        match self.key_wait {
            GetKeyState::Idle => done(State { key_wait: GetKeyState::Paused, ..self }),
            GetKeyState::Released(k) => State { key_wait: GetKeyState::Idle, ..self }.assign(x, k),
            _ => done(self),
        }
    }

    /// The address that the font instruction computes for `digit`: the font
    /// address times the digit's successor.
    pub open spec fn glyph_address(self, digit: u8) -> int {
        self.font_address * (digit + 1)
    }

    /// The three decimal digits of `value`, hundreds first.
    pub open spec fn decimal_digits(value: u8) -> Seq<u8> {
        seq![(value / 100) as u8, ((value / 10) % 10) as u8, (value % 10) as u8]
    }

    /// The state with the first `count` bytes of `data` written to memory at
    /// the index register.
    pub open spec fn with_memory_at_index(self, data: Seq<u8>, count: int) -> State {
        State {
            memory: Seq::new(
                MEMORY_SIZE as nat,
                |a: int|
                    if self.index <= a < self.index + count {
                        data[a - self.index]
                    } else {
                        self.memory[a]
                    },
            ),
            ..self
        }
    }

    /// Storing the decimal digits of register `x` at the index register.
    /// Fails with `MemoryOverflow` if a digit lies beyond the end of memory;
    /// the digits before it are stored all the same.
    pub open spec fn store_decimal(self, x: u8) -> Outcome {
        if x >= REGISTER_COUNT {
            failed(self, MachineError::RegisterIndexOverflow)
        } else {
            let written = least(3, MEMORY_SIZE - self.index);
            let s = self.with_memory_at_index(State::decimal_digits(self.reg(x)), written);
            if written < 3 {
                failed(s, MachineError::MemoryOverflow)
            } else {
                s.advanced(1)
            }
        }
    }

    /// The number of registers that a transfer of `V0..=Vx` at the index
    /// register moves: it stops at the last register and at the end of
    /// memory.
    pub open spec fn transfer_count(self, x: u8) -> int {
        least(x + 1, least(REGISTER_COUNT as int, MEMORY_SIZE - self.index))
    }

    /// Storing registers `V0..=Vx` to memory at the index register, which
    /// then moves behind the last byte written.
    ///
    /// Fails with `RegisterIndexOverflow` if `x` is no register, with
    /// `MemoryOverflow` if the end of memory comes first; the registers
    /// before that are stored all the same. Fails with
    /// `IndexRegisterOverflow` if the index register would end behind the
    /// last byte of memory.
    pub open spec fn store_registers(self, x: u8) -> Outcome {
        let moved = self.transfer_count(x);
        let s = self.with_memory_at_index(self.registers, moved);
        if moved < x + 1 {
            if REGISTER_COUNT <= MEMORY_SIZE - self.index {
                failed(s, MachineError::RegisterIndexOverflow)
            } else {
                failed(s, MachineError::MemoryOverflow)
            }
        } else {
            s.point_index(self.index + x + 1)
        }
    }

    /// Loading registers `V0..=Vx` from memory at the index register, which
    /// then moves behind the last byte read.
    ///
    /// Fails with `MemoryOverflow` if the end of memory comes before the
    /// last register, with `RegisterIndexOverflow` if `x` is no register; the
    /// registers before that are loaded all the same. Fails with
    /// `IndexRegisterOverflow` if the index register would end behind the
    /// last byte of memory.
    pub open spec fn restore_registers(self, x: u8) -> Outcome {
        let moved = self.transfer_count(x);
        let s = State {
            registers: Seq::new(
                REGISTER_COUNT as nat,
                |i: int|
                    if i < moved {
                        self.memory[self.index + i]
                    } else {
                        self.registers[i]
                    },
            ),
            ..self
        };
        if moved < x + 1 {
            if MEMORY_SIZE - self.index <= REGISTER_COUNT {
                failed(s, MachineError::MemoryOverflow)
            } else {
                failed(s, MachineError::RegisterIndexOverflow)
            }
        } else {
            s.point_index(self.index + x + 1)
        }
    }

    /// Clearing the display and moving on. The display is not marked dirty.
    pub open spec fn clear(self) -> Outcome {
        State { display: blank_display(), ..self }.advanced(1)
    }

    /// Adding the constant `c` to register `x`, modulo 256.
    pub open spec fn add_constant(self, x: u8, c: u8) -> Outcome {
        self.assign(x, wrapped(self.reg(x) + c))
    }

    /// Copying register `y` to register `x`.
    pub open spec fn copy_register(self, x: u8, y: u8) -> Outcome {
        if y >= REGISTER_COUNT {
            failed(self, MachineError::RegisterIndexOverflow)
        } else {
            self.assign(x, self.reg(y))
        }
    }

    /// Setting register `x` to the bitwise or of registers `x` and `y`; the
    /// flag register is cleared.
    pub open spec fn bit_or(self, x: u8, y: u8) -> Outcome {
        self.combine(x, y, self.reg(x) | self.reg(y), 0)
    }

    /// Setting register `x` to the bitwise and of registers `x` and `y`; the
    /// flag register is cleared.
    pub open spec fn bit_and(self, x: u8, y: u8) -> Outcome {
        self.combine(x, y, self.reg(x) & self.reg(y), 0)
    }

    /// Setting register `x` to the bitwise exclusive or of registers `x` and
    /// `y`; the flag register is cleared.
    pub open spec fn bit_xor(self, x: u8, y: u8) -> Outcome {
        self.combine(x, y, self.reg(x) ^ self.reg(y), 0)
    }

    /// Adding register `y` to register `x`, modulo 256; the flag register
    /// becomes 1 if the sum did not fit, else 0.
    pub open spec fn add_registers(self, x: u8, y: u8) -> Outcome {
        self.combine(
            x,
            y,
            wrapped(self.reg(x) + self.reg(y)),
            if self.reg(x) + self.reg(y) > 0xFF {
                1
            } else {
                0
            },
        )
    }

    /// Setting register `x` to `minuend - subtrahend`, modulo 256, where both
    /// are the values of `x` and `y` in one order or the other; the flag
    /// register becomes 0 if the subtrahend was the greater, else 1.
    pub open spec fn subtract(self, x: u8, y: u8, minuend: u8, subtrahend: u8) -> Outcome {
        self.combine(
            x,
            y,
            wrapped(minuend - subtrahend),
            if minuend < subtrahend {
                0
            } else {
                1
            },
        )
    }

    /// Setting register `x` to register `y` shifted right by one bit; the
    /// flag register receives the bit shifted out.
    pub open spec fn shift_right(self, x: u8, y: u8) -> Outcome {
        self.combine(x, y, (self.reg(y) / 2) as u8, (self.reg(y) % 2) as u8)
    }

    /// Setting register `x` to register `y` shifted left by one bit; the
    /// flag register receives the bit shifted out.
    pub open spec fn shift_left(self, x: u8, y: u8) -> Outcome {
        self.combine(x, y, wrapped(self.reg(y) * 2), (self.reg(y) / 0x80) as u8)
    }

    /// Setting register `x` to the random byte masked with `c`.
    pub open spec fn randomize(self, x: u8, c: u8, random: u8) -> Outcome {
        self.assign(x, random & c)
    }

    /// Setting the delay timer to register `x`.
    pub open spec fn set_delay(self, x: u8) -> Outcome {
        if x >= REGISTER_COUNT {
            failed(self, MachineError::RegisterIndexOverflow)
        } else {
            State { delay_timer: self.reg(x), ..self }.advanced(1)
        }
    }

    /// Setting the sound timer to register `x`.
    pub open spec fn set_sound(self, x: u8) -> Outcome {
        if x >= REGISTER_COUNT {
            failed(self, MachineError::RegisterIndexOverflow)
        } else {
            State { sound_timer: self.reg(x), ..self }.advanced(1)
        }
    }

    /// Adding register `x` to the index register. The flag register is left
    /// alone.
    pub open spec fn add_index(self, x: u8) -> Outcome {
        if x >= REGISTER_COUNT {
            failed(self, MachineError::RegisterIndexOverflow)
        } else {
            self.point_index(self.index + self.reg(x))
        }
    }

    /// Pointing the index register at the glyph of the digit in register
    /// `x`. Fails with `IndexRegisterOverflow`, changing nothing, if the
    /// glyph's address is no address.
    pub open spec fn point_font(self, x: u8) -> Outcome {
        if x >= REGISTER_COUNT {
            failed(self, MachineError::RegisterIndexOverflow)
        } else {
            self.point_index(self.glyph_address(self.reg(x)))
        }
    }

    /// The meaning of one operation. `random` is the byte that the random
    /// instruction draws; no other operation looks at it.
    pub open spec fn execute(self, operation: Operation, random: u8) -> Outcome {
        match operation {
            Operation::CallSysC(_) => self.advanced(1),
            Operation::Clear => self.clear(),
            Operation::Return => self.returned(),
            Operation::JumpC(c) => self.jump(c as int),
            Operation::CallC(c) => self.call(c as int),
            Operation::SkipEqC(x, c) => self.compare_constant(x, c, true),
            Operation::SkipNeC(x, c) => self.compare_constant(x, c, false),
            Operation::SkipEq(x, y) => self.compare(x, y, true),
            Operation::SetC(x, c) => self.assign(x, c),
            Operation::AddC(x, c) => self.add_constant(x, c),
            Operation::Assign(x, y) => self.copy_register(x, y),
            Operation::Or(x, y) => self.bit_or(x, y),
            Operation::And(x, y) => self.bit_and(x, y),
            Operation::Xor(x, y) => self.bit_xor(x, y),
            Operation::Add(x, y) => self.add_registers(x, y),
            Operation::Sub(x, y) => self.subtract(x, y, self.reg(x), self.reg(y)),
            Operation::Shr(x, y) => self.shift_right(x, y),
            Operation::SubRev(x, y) => self.subtract(x, y, self.reg(y), self.reg(x)),
            Operation::Shl(x, y) => self.shift_left(x, y),
            Operation::SkipNe(x, y) => self.compare(x, y, false),
            Operation::SetIC(c) => self.point_index(c as int),
            Operation::JumpV0C(c) => self.jump(self.reg(0) + c),
            Operation::RandC(x, c) => self.randomize(x, c, random),
            Operation::DrawC(x, y, n) => self.draw_sprite(x, y, n),
            Operation::SkipEqKey(x) => self.compare_key(x, true),
            Operation::SkipNeKey(x) => self.compare_key(x, false),
            Operation::GetDelayTimer(x) => self.assign(x, self.delay_timer),
            Operation::GetKey(x) => self.wait_key(x),
            Operation::SetDelayTimer(x) => self.set_delay(x),
            Operation::SetSoundTimer(x) => self.set_sound(x),
            Operation::AddI(x) => self.add_index(x),
            Operation::SetIFont(x) => self.point_font(x),
            Operation::Bcd(x) => self.store_decimal(x),
            Operation::Store(x) => self.store_registers(x),
            Operation::Restore(x) => self.restore_registers(x),
            Operation::Unknown(_) => self.advanced(1),
        }
    }

    /// The instruction word at the program counter, most significant byte
    /// first.
    pub open spec fn word_at_pc(self) -> u16 {
        (self.memory[self.pc as int] * 0x100 + self.memory[self.pc + 1]) as u16
    }

    /// Whether the instruction at the program counter is the random
    /// instruction.
    pub open spec fn draws_random(self) -> bool {
        self.pc + 1 < MEMORY_SIZE && decode(self.word_at_pc()) is RandC
    }

    /// Whether the machine executes instructions: it does unless a key wait
    /// is in progress.
    pub open spec fn can_step(self) -> bool {
        self.key_wait is Idle || self.key_wait is Released
    }

    /// One step: the word at the program counter is fetched, decoded and
    /// executed. Fails with `MemoryOverflow`, changing nothing, if the word's
    /// second byte lies beyond the end of memory.
    pub open spec fn step(self, random: u8) -> Outcome {
        if self.pc + 1 >= MEMORY_SIZE {
            failed(self, MachineError::MemoryOverflow)
        } else {
            self.execute(decode(self.word_at_pc()), random)
        }
    }

    /// The state after one key event.
    ///
    /// A press of the quit key stops the machine. A press of a pad key sets
    /// its flag and, if a key wait is pending, records the key. A release of
    /// a pad key clears its flag and completes the wait if it is the key that
    /// the wait recorded.
    pub open spec fn after_key_event(self, event: KeyEvent) -> State {
        match event {
            KeyEvent::Pressed(Key::Quit) => State { running: false, ..self },
            KeyEvent::Pressed(Key::Num(n)) => State {
                key_wait: if self.key_wait is Paused {
                    GetKeyState::Pressed(n)
                } else {
                    self.key_wait
                },
                keys: self.keys.update(n as int, true),
                ..self
            },
            KeyEvent::Released(Key::Num(n)) => State {
                key_wait: if self.key_wait == GetKeyState::Pressed(n) {
                    GetKeyState::Released(n)
                } else {
                    self.key_wait
                },
                keys: self.keys.update(n as int, false),
                ..self
            },
            KeyEvent::Released(Key::Quit) => self,
        }
    }

    /// The state after a sequence of key events, taken in order.
    pub open spec fn after_key_events(self, events: Seq<KeyEvent>) -> State
        decreases events.len(),
    {
        if events.len() == 0 {
            self
        } else {
            self.after_key_events(events.drop_last()).after_key_event(events.last())
        }
    }

    /// The time since the last timer tick at time `now`.
    pub open spec fn since_tick(self, now: u128) -> int {
        if now >= self.tick_at {
            now - self.tick_at
        } else {
            0
        }
    }

    /// Whether a timer tick is due at time `now`.
    pub open spec fn tick_due(self, now: u128) -> bool {
        self.since_tick(now) >= TICK_RATE
    }

    /// The state after a timer tick at time `now`: both timers count down by
    /// one, not below zero, and the tick is recorded.
    pub open spec fn ticked(self, now: u128) -> State {
        State {
            delay_timer: counted_down(self.delay_timer),
            sound_timer: counted_down(self.sound_timer),
            tick_count: if self.tick_count == u128::MAX {
                0
            } else {
                (self.tick_count + 1) as u128
            },
            tick_at: now,
            ..self
        }
    }

    /// The state after the timers were served at time `now`: ticked if a tick
    /// was due, unchanged otherwise.
    pub open spec fn timers_served(self, now: u128) -> State {
        if self.tick_due(now) {
            self.ticked(now)
        } else {
            self
        }
    }

    /// The state of a machine started at time `now`: running, at the first
    /// instruction of the cartridge, with the tick clock reset.
    pub open spec fn started(self, now: u128) -> State {
        State { running: true, pc: self.cartridge_address, tick_count: 0, tick_at: now, ..self }
    }
}

} // verus!
