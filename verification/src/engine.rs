//! The engine: the state store together with the execution of operations, the
//! key wait and the timers.

use vstd::prelude::*;
use crate::console::grid_rows;
use crate::console::Key;
use crate::console::KeyEvent;
use crate::console::Screen;
use crate::opcode::decode;
use crate::opcode::parse_opcode;
use crate::opcode::Operation;
use crate::state::blank_display;
use crate::state::counted_down;
use crate::state::sprite_bit;
use crate::state::GetKeyState;
use crate::state::MachineError;
use crate::state::State;
use crate::state::DISPLAY_HEIGHT;
use crate::state::DISPLAY_WIDTH;
use crate::state::FLAG_REGISTER;
use crate::state::KEY_COUNT;
use crate::state::MEMORY_SIZE;
use crate::state::REGISTER_COUNT;
use crate::state::TICK_RATE;

verus! {

/// The state store and everything that acts on it.
pub struct Engine {
    running: bool,
    cycle: u128,
    display_buffer: [[bool; 64]; 32],
    cartridge_address: usize,
    font_address: usize,
    display_buffer_dirty: bool,
    key_state: [bool; 16],
    get_key_state: GetKeyState,
    tick_cnt: u128,
    tick_at: u128,
    register_i: u16,
    register_pool: [u8; 16],
    delay_timer: u8,
    sound_timer: u8,
    memory: [u8; 4096],
    stack: Vec<usize>,
    pc: usize,
}

impl View for Engine {
    type V = State;

    closed spec fn view(&self) -> State {
        State {
            memory: self.memory@,
            registers: self.register_pool@,
            index: self.register_i,
            pc: self.pc,
            stack: self.stack@,
            delay_timer: self.delay_timer,
            sound_timer: self.sound_timer,
            display: grid_rows(self.display_buffer),
            dirty: self.display_buffer_dirty,
            keys: self.key_state@,
            key_wait: self.get_key_state,
            font_address: self.font_address,
            cartridge_address: self.cartridge_address,
            running: self.running,
            cycle: self.cycle,
            tick_count: self.tick_cnt,
            tick_at: self.tick_at,
        }
    }
}

/// Whether a draw at `(x, y)` in state `s` has found a set sprite pixel for
/// the display's pixel `(px, py)` once `rows` whole sprite rows and the first
/// `columns` pixels of the next row are done.
spec fn hits_so_far(s: State, x: int, y: int, px: int, py: int, rows: int, columns: int) -> bool {
    let left = State::sprite_left(x);
    let top = State::sprite_top(y);
    &&& left <= px < DISPLAY_WIDTH
    &&& (top <= py < top + rows || (py == top + rows && px < left + columns))
    &&& sprite_bit(s.memory[s.index + (py - top)], px - left)
}

/// Whether such a draw has changed any pixel so far.
spec fn shows_so_far(s: State, x: int, y: int, rows: int, columns: int) -> bool {
    exists|px: int, py: int| #[trigger] hits_so_far(s, x, y, px, py, rows, columns)
}

/// Whether such a draw has unset a set pixel so far.
spec fn collides_so_far(s: State, x: int, y: int, rows: int, columns: int) -> bool {
    exists|px: int, py: int| #[trigger]
        hits_so_far(s, x, y, px, py, rows, columns) && s.pixel(px, py)
}

/// The flag value that stands for a collision.
spec fn flag_of(collision: bool) -> u8 {
    if collision {
        1
    } else {
        0
    }
}

/// Nothing is hit before the first pixel.
proof fn lemma_hits_start(s: State, x: int, y: int)
    ensures
        !shows_so_far(s, x, y, 0, 0),
        !collides_so_far(s, x, y, 0, 0),
{
}

/// One more pixel: the new pixel is hit if its sprite bit is set, and nothing
/// changes for the others.
proof fn lemma_hits_next_pixel(s: State, x: int, y: int, rows: int, columns: int)
    requires
        0 <= columns < 8,
        State::sprite_left(x) + columns < DISPLAY_WIDTH,
    ensures
        forall|px: int, py: int| #[trigger]
            hits_so_far(s, x, y, px, py, rows, columns + 1) == (hits_so_far(
                s,
                x,
                y,
                px,
                py,
                rows,
                columns,
            ) || (px == State::sprite_left(x) + columns && py == State::sprite_top(y) + rows
                && sprite_bit(s.memory[s.index + rows], columns))),
        shows_so_far(s, x, y, rows, columns + 1) == (shows_so_far(s, x, y, rows, columns)
            || sprite_bit(s.memory[s.index + rows], columns)),
        collides_so_far(s, x, y, rows, columns + 1) == (collides_so_far(s, x, y, rows, columns)
            || (sprite_bit(s.memory[s.index + rows], columns) && s.pixel(
            State::sprite_left(x) + columns,
            State::sprite_top(y) + rows,
        ))),
{
    let left = State::sprite_left(x);
    let top = State::sprite_top(y);
    let bit = sprite_bit(s.memory[s.index + rows], columns);
    assert forall|px: int, py: int| #[trigger]
        hits_so_far(s, x, y, px, py, rows, columns + 1) == (hits_so_far(
            s,
            x,
            y,
            px,
            py,
            rows,
            columns,
        ) || (px == left + columns && py == top + rows && bit)) by {}
    if shows_so_far(s, x, y, rows, columns + 1) {
        let (px, py) = choose|px: int, py: int| #[trigger]
            hits_so_far(s, x, y, px, py, rows, columns + 1);
        if hits_so_far(s, x, y, px, py, rows, columns) {
        }
    }
    if shows_so_far(s, x, y, rows, columns) {
        let (px, py) = choose|px: int, py: int| #[trigger]
            hits_so_far(s, x, y, px, py, rows, columns);
        assert(hits_so_far(s, x, y, px, py, rows, columns + 1));
    }
    if bit {
        assert(hits_so_far(s, x, y, left + columns, top + rows, rows, columns + 1));
    }
    if collides_so_far(s, x, y, rows, columns + 1) {
        let (px, py) = choose|px: int, py: int| #[trigger]
            hits_so_far(s, x, y, px, py, rows, columns + 1) && s.pixel(px, py);
        if hits_so_far(s, x, y, px, py, rows, columns) {
        }
    }
    if collides_so_far(s, x, y, rows, columns) {
        let (px, py) = choose|px: int, py: int| #[trigger]
            hits_so_far(s, x, y, px, py, rows, columns) && s.pixel(px, py);
        assert(hits_so_far(s, x, y, px, py, rows, columns + 1));
    }
}

/// A finished row: once the row's last pixel on the display is done, the
/// row counts as whole.
proof fn lemma_hits_next_row(s: State, x: int, y: int, rows: int, columns: int)
    requires
        0 <= rows,
        0 <= columns <= 8,
        columns == 8 || State::sprite_left(x) + columns >= DISPLAY_WIDTH,
    ensures
        forall|px: int, py: int| #[trigger]
            hits_so_far(s, x, y, px, py, rows + 1, 0) == hits_so_far(
                s,
                x,
                y,
                px,
                py,
                rows,
                columns,
            ),
        shows_so_far(s, x, y, rows + 1, 0) == shows_so_far(s, x, y, rows, columns),
        collides_so_far(s, x, y, rows + 1, 0) == collides_so_far(s, x, y, rows, columns),
{
    assert forall|px: int, py: int| #[trigger]
        hits_so_far(s, x, y, px, py, rows + 1, 0) == hits_so_far(
            s,
            x,
            y,
            px,
            py,
            rows,
            columns,
        ) by {}
    if shows_so_far(s, x, y, rows + 1, 0) {
        let (px, py) = choose|px: int, py: int| #[trigger]
            hits_so_far(s, x, y, px, py, rows + 1, 0);
        assert(hits_so_far(s, x, y, px, py, rows, columns));
    }
    if shows_so_far(s, x, y, rows, columns) {
        let (px, py) = choose|px: int, py: int| #[trigger]
            hits_so_far(s, x, y, px, py, rows, columns);
        assert(hits_so_far(s, x, y, px, py, rows + 1, 0));
    }
    if collides_so_far(s, x, y, rows + 1, 0) {
        let (px, py) = choose|px: int, py: int| #[trigger]
            hits_so_far(s, x, y, px, py, rows + 1, 0) && s.pixel(px, py);
        assert(hits_so_far(s, x, y, px, py, rows, columns));
    }
    if collides_so_far(s, x, y, rows, columns) {
        let (px, py) = choose|px: int, py: int| #[trigger]
            hits_so_far(s, x, y, px, py, rows, columns) && s.pixel(px, py);
        assert(hits_so_far(s, x, y, px, py, rows + 1, 0));
    }
}

/// A finished draw: with all rows done, what was hit so far is what the
/// draw hits.
proof fn lemma_hits_all(s: State, x: int, y: int, height: u8)
    ensures
        forall|px: int, py: int| #[trigger]
            hits_so_far(s, x, y, px, py, s.sprite_rows(y, height), 0) == s.sprite_hits(
                x,
                y,
                height,
                px,
                py,
            ),
        shows_so_far(s, x, y, s.sprite_rows(y, height), 0) == s.sprite_shows(x, y, height),
        collides_so_far(s, x, y, s.sprite_rows(y, height), 0) == s.sprite_collides(x, y, height),
{
    let rows = s.sprite_rows(y, height);
    assert forall|px: int, py: int| #[trigger]
        hits_so_far(s, x, y, px, py, rows, 0) == s.sprite_hits(x, y, height, px, py) by {}
    if shows_so_far(s, x, y, rows, 0) {
        let (px, py) = choose|px: int, py: int| #[trigger] hits_so_far(s, x, y, px, py, rows, 0);
        assert(s.sprite_hits(x, y, height, px, py));
    }
    if s.sprite_shows(x, y, height) {
        let (px, py) = choose|px: int, py: int| #[trigger] s.sprite_hits(x, y, height, px, py);
        assert(hits_so_far(s, x, y, px, py, rows, 0));
    }
    if collides_so_far(s, x, y, rows, 0) {
        let (px, py) = choose|px: int, py: int| #[trigger]
            hits_so_far(s, x, y, px, py, rows, 0) && s.pixel(px, py);
        assert(s.sprite_hits(x, y, height, px, py));
    }
    if s.sprite_collides(x, y, height) {
        let (px, py) = choose|px: int, py: int| #[trigger]
            s.sprite_hits(x, y, height, px, py) && s.pixel(px, py);
        assert(hits_so_far(s, x, y, px, py, rows, 0));
    }
}

impl Engine {
    /// The engine's invariant: the index register, the program counter and
    /// the two load addresses lie inside the address space.
    #[verifier::type_invariant]
    closed spec fn inv(&self) -> bool {
        &&& self.register_i < MEMORY_SIZE
        &&& self.pc < MEMORY_SIZE
        &&& self.font_address < MEMORY_SIZE
        &&& self.cartridge_address < MEMORY_SIZE
    }

    /// Builds an engine with everything zeroed that gives each instruction
    /// `cycle` nanoseconds.
    pub fn new(cycle: u128) -> (machine: Self)
        ensures
            machine@ == State::initial(cycle),
            machine@.wf(),
    {
        let machine = Engine {
            running: false,
            cycle: cycle,
            display_buffer: [[false; 64]; 32],
            cartridge_address: 0x0,
            font_address: 0x0,
            display_buffer_dirty: false,
            key_state: [false; 16],
            get_key_state: GetKeyState::Idle,
            tick_cnt: 0,
            tick_at: 0,
            register_i: 0x0,
            register_pool: [0u8; 16],
            delay_timer: 0x0,
            sound_timer: 0x0,
            memory: [0; 4096],
            stack: Vec::new(),
            pc: 0x0,
        };
        proof {
            let s = machine@;
            let t = State::initial(cycle);
            assert(s.memory =~= t.memory);
            assert(s.registers =~= t.registers);
            assert(s.keys =~= t.keys);
            assert(s.stack =~= t.stack);
            assert forall|y: int| 0 <= y < 32 implies #[trigger] s.display[y] =~= t.display[y] by {
                assert(machine.display_buffer@[y]@ =~= Seq::new(64, |x: int| false));
            }
            assert(s.display =~= t.display);
        }
        machine
    }

    /// Returns the program counter.
    pub fn pc(&self) -> (pc: usize)
        ensures
            pc == self@.pc,
            pc < MEMORY_SIZE,
    {
        proof {
            use_type_invariant(self);
        }
        self.pc
    }

    /// Returns the value of register `reg_id`, or `RegisterIndexOverflow` if
    /// there is no such register.
    pub fn get_register(&self, reg_id: u8) -> (r: Result<u8, MachineError>)
        ensures
            reg_id < REGISTER_COUNT ==> r == Ok::<u8, MachineError>(self@.reg(reg_id)),
            reg_id >= REGISTER_COUNT ==> r == Err::<u8, MachineError>(
                MachineError::RegisterIndexOverflow,
            ),
    {
        let reg_id: usize = reg_id as usize;
        if reg_id >= REGISTER_COUNT {
            return Err(MachineError::RegisterIndexOverflow);
        }
        Ok(self.register_pool[reg_id])
    }

    /// Returns the index register.
    pub fn get_register_i(&self) -> (r: u16)
        ensures
            r == self@.index,
            r < MEMORY_SIZE,
    {
        proof {
            use_type_invariant(self);
        }
        self.register_i
    }

    /// Returns the byte at `addr`, or `MemoryOverflow` if `addr` is no
    /// address.
    pub fn get_memory(&self, addr: usize) -> (r: Result<u8, MachineError>)
        ensures
            addr < MEMORY_SIZE ==> r == Ok::<u8, MachineError>(self@.memory[addr as int]),
            addr >= MEMORY_SIZE ==> r == Err::<u8, MachineError>(MachineError::MemoryOverflow),
    {
        if addr >= MEMORY_SIZE {
            return Err(MachineError::MemoryOverflow);
        }
        Ok(self.memory[addr])
    }

    /// Returns the delay timer.
    pub fn delay_timer(&self) -> (timer: u8)
        ensures
            timer == self@.delay_timer,
    {
        self.delay_timer
    }

    /// Returns the sound timer.
    pub fn sound_timer(&self) -> (timer: u8)
        ensures
            timer == self@.sound_timer,
    {
        self.sound_timer
    }

    /// Returns the progress of the pending key wait.
    pub fn get_key_state(&self) -> (state: GetKeyState)
        ensures
            state == self@.key_wait,
    {
        self.get_key_state
    }

    /// Tells whether pad key `key` is down, or fails with `KeyIndexOverflow`
    /// if there is no such key.
    pub fn key_down(&self, key: u8) -> (r: Result<bool, MachineError>)
        ensures
            key < KEY_COUNT ==> r == Ok::<bool, MachineError>(self@.keys[key as int]),
            key >= KEY_COUNT ==> r == Err::<bool, MachineError>(MachineError::KeyIndexOverflow),
    {
        if key as usize >= KEY_COUNT {
            return Err(MachineError::KeyIndexOverflow);
        }
        Ok(self.key_state[key as usize])
    }

    /// Returns the pixel in column `x` of row `y`.
    pub fn pixel(&self, x: usize, y: usize) -> (lit: bool)
        requires
            x < DISPLAY_WIDTH,
            y < DISPLAY_HEIGHT,
        ensures
            lit == self@.pixel(x as int, y as int),
    {
        self.display_buffer[y][x]
    }

    /// Tells whether the display changed since it was last presented.
    pub fn is_display_dirty(&self) -> (dirty: bool)
        ensures
            dirty == self@.dirty,
    {
        self.display_buffer_dirty
    }

    /// Returns the number of return addresses on the call stack.
    pub fn stack_depth(&self) -> (depth: usize)
        ensures
            depth == self@.stack.len(),
    {
        self.stack.len()
    }

    /// Returns the address at which the font was loaded.
    pub fn font_address(&self) -> (address: usize)
        ensures
            address == self@.font_address,
            address < MEMORY_SIZE,
    {
        proof {
            use_type_invariant(self);
        }
        self.font_address
    }

    /// Returns the address at which the cartridge was loaded.
    pub fn cartridge_address(&self) -> (address: usize)
        ensures
            address == self@.cartridge_address,
            address < MEMORY_SIZE,
    {
        proof {
            use_type_invariant(self);
        }
        self.cartridge_address
    }

    /// Returns the number of timer ticks since the machine was started.
    pub fn tick_count(&self) -> (count: u128)
        ensures
            count == self@.tick_count,
    {
        self.tick_cnt
    }

    /// Returns the time one instruction is given, in nanoseconds.
    pub fn cycle(&self) -> (cycle: u128)
        ensures
            cycle == self@.cycle,
    {
        self.cycle
    }

    /// Tells whether the machine has been started and not been asked to quit.
    pub fn is_running(&self) -> (running: bool)
        ensures
            running == self@.running,
    {
        self.running
    }

    /// Tells whether the machine executes instructions: it does unless a key
    /// wait is in progress.
    pub fn can_step(&self) -> (ready: bool)
        ensures
            ready == self@.can_step(),
    {
        match self.get_key_state {
            GetKeyState::Idle | GetKeyState::Released(_) => true,
            _ => false,
        }
    }

    /// Sets register `reg_id` to `val`, or fails with
    /// `RegisterIndexOverflow`, changing nothing, if there is no such
    /// register.
    pub fn set_register(&mut self, reg_id: u8, val: u8) -> (r: Result<(), MachineError>)
        ensures
            reg_id < REGISTER_COUNT ==> r.is_ok() && final(self)@ == old(self)@.with_register(
                reg_id,
                val,
            ),
            reg_id >= REGISTER_COUNT ==> r == Err::<(), MachineError>(
                MachineError::RegisterIndexOverflow,
            ) && final(self)@ == old(self)@,
    {
        proof {
            use_type_invariant(&*self);
        }
        let reg_id: usize = reg_id as usize;
        if reg_id >= REGISTER_COUNT {
            return Err(MachineError::RegisterIndexOverflow);
        }
        self.register_pool[reg_id] = val;
        proof {
            assert(self@.registers =~= old(self)@.registers.update(reg_id as int, val));
        }
        Ok(())
    }

    /// Sets the flag register to 1.
    fn set_vf(&mut self)
        ensures
            final(self)@ == old(self)@.with_flag(1),
    {
        let _ = self.set_register(FLAG_REGISTER, 1);
    }

    /// Sets the flag register to 0.
    fn clr_vf(&mut self)
        ensures
            final(self)@ == old(self)@.with_flag(0),
    {
        let _ = self.set_register(FLAG_REGISTER, 0);
    }

    /// Sets the index register to `val`, or fails with
    /// `IndexRegisterOverflow`, changing nothing, if `val` is no address.
    pub fn set_register_i(&mut self, val: u16) -> (r: Result<(), MachineError>)
        ensures
            val < MEMORY_SIZE ==> r.is_ok() && final(self)@ == (State { index: val, ..old(self)@ }),
            val >= MEMORY_SIZE ==> r == Err::<(), MachineError>(
                MachineError::IndexRegisterOverflow,
            ) && final(self)@ == old(self)@,
            final(self)@.wf(),
    {
        proof {
            use_type_invariant(&*self);
        }
        if val >= 4096 {
            return Err(MachineError::IndexRegisterOverflow);
        }
        self.register_i = val;
        Ok(())
    }

    /// Sets the byte at `addr` to `data`, or fails with `MemoryOverflow`,
    /// changing nothing, if `addr` is no address.
    pub fn set_memory(&mut self, addr: usize, data: u8) -> (r: Result<(), MachineError>)
        ensures
            addr < MEMORY_SIZE ==> r.is_ok() && final(self)@ == old(self)@.with_memory(
                addr as int,
                data,
            ),
            addr >= MEMORY_SIZE ==> r == Err::<(), MachineError>(MachineError::MemoryOverflow)
                && final(self)@ == old(self)@,
    {
        proof {
            use_type_invariant(&*self);
        }
        if addr >= MEMORY_SIZE {
            return Err(MachineError::MemoryOverflow);
        }
        self.memory[addr] = data;
        proof {
            assert(self@.memory =~= old(self)@.memory.update(addr as int, data));
        }
        Ok(())
    }

    /// Copies `data` into memory from `address` on. Fails with
    /// `MemoryOverflow`, changing nothing, unless the byte after the last one
    /// copied is still an address.
    pub fn load(&mut self, address: usize, data: &[u8]) -> (r: Result<(), MachineError>)
        ensures
            (final(self)@, r) == old(self)@.load(address as int, data@),
            final(self)@.wf(),
    {
        proof {
            use_type_invariant(&*self);
        }
        if address >= MEMORY_SIZE || data.len() >= MEMORY_SIZE - address {
            return Err(MachineError::MemoryOverflow);
        }
        let mut i: usize = 0;
        while i < data.len()
            invariant
                i <= data@.len(),
                address + data@.len() < MEMORY_SIZE,
                self@ == (State { memory: self@.memory, ..old(self)@ }),
                forall|a: int|
                    0 <= a < MEMORY_SIZE ==> #[trigger] self@.memory[a] == (if address <= a
                        < address + i {
                        data@[a - address]
                    } else {
                        old(self)@.memory[a]
                    }),
            decreases data@.len() - i,
        {
            proof {
                use_type_invariant(&*self);
            }
            self.memory[address + i] = data[i];
            i += 1;
        }
        proof {
            assert(self@.memory =~= old(self)@.loaded(address as int, data@).memory);
        }
        Ok(())
    }

    /// Loads the font at `address` and records the address.
    pub fn load_font(&mut self, address: usize, font: &[u8]) -> (r: Result<(), MachineError>)
        ensures
            (final(self)@, r) == old(self)@.load_font(address, font@),
            final(self)@.wf(),
    {
        proof {
            use_type_invariant(&*self);
        }
        match self.load(address, font) {
            Ok(()) => {},
            Err(e) => {
                return Err(e);
            },
        }
        self.font_address = address;
        Ok(())
    }

    /// Loads the cartridge at `address` and records the address, at which
    /// execution will start.
    pub fn load_cartridge(&mut self, address: usize, cart: &[u8]) -> (r: Result<
        (),
        MachineError,
    >)
        ensures
            (final(self)@, r) == old(self)@.load_cartridge(address, cart@),
            final(self)@.wf(),
    {
        proof {
            use_type_invariant(&*self);
        }
        match self.load(address, cart) {
            Ok(()) => {},
            Err(e) => {
                return Err(e);
            },
        }
        self.cartridge_address = address;
        Ok(())
    }

    /// Sets the program counter to `pc`, or fails with
    /// `ProgramCounterOverflow`, changing nothing, if `pc` is no address.
    fn set_pc(&mut self, pc: usize) -> (r: Result<(), MachineError>)
        ensures
            (final(self)@, r) == old(self)@.jump(pc as int),
    {
        proof {
            use_type_invariant(&*self);
        }
        if pc >= MEMORY_SIZE {
            return Err(MachineError::ProgramCounterOverflow);
        }
        self.pc = pc;
        Ok(())
    }

    /// Moves the program counter forward by `op_distance` instructions, or
    /// fails with `ProgramCounterOverflow`, changing nothing, if that would
    /// leave the address space.
    fn advance_pc(&mut self, op_distance: usize) -> (r: Result<(), MachineError>)
        ensures
            (final(self)@, r) == old(self)@.advanced(op_distance as int),
    {
        proof {
            use_type_invariant(&*self);
        }
        if op_distance >= MEMORY_SIZE {
            return Err(MachineError::ProgramCounterOverflow);
        }
        let distance = op_distance * 2;
        if self.pc + distance >= MEMORY_SIZE {
            return Err(MachineError::ProgramCounterOverflow);
        }
        self.pc += distance;
        Ok(())
    }

    /// Moves the program counter to the next instruction.
    fn advance(&mut self) -> (r: Result<(), MachineError>)
        ensures
            (final(self)@, r) == old(self)@.advanced(1),
    {
        self.advance_pc(1)
    }

    /// Moves the program counter to the next instruction, or past it if
    /// `condition` holds.
    fn skip_if(&mut self, condition: bool) -> (r: Result<(), MachineError>)
        ensures
            (final(self)@, r) == old(self)@.skip_if(condition),
    {
        if condition {
            self.advance_pc(2)
        } else {
            self.advance()
        }
    }

    /// Counts the delay timer down by one, not below zero.
    fn update_delay_timer(&mut self)
        ensures
            final(self)@ == (State {
                delay_timer: counted_down(old(self)@.delay_timer),
                ..old(self)@
            }),
    {
        proof {
            use_type_invariant(&*self);
        }
        if self.delay_timer > 0 {
            self.delay_timer -= 1;
        }
    }

    /// Counts the sound timer down by one, not below zero, and tells whether
    /// it reached zero just now: the moment at which a tone ends.
    fn update_sound_timer(&mut self) -> (ended: bool)
        ensures
            final(self)@ == (State {
                sound_timer: counted_down(old(self)@.sound_timer),
                ..old(self)@
            }),
            ended == (old(self)@.sound_timer == 1),
    {
        proof {
            use_type_invariant(&*self);
        }
        if self.sound_timer > 0 {
            self.sound_timer -= 1;
            if self.sound_timer == 0 {
                return true;
            } else {
                return false;
            }
        }
        return false;
    }

    /// Resets the tick clock at time `now`.
    fn reset_tick(&mut self, now: u128)
        ensures
            final(self)@ == (State { tick_count: 0, tick_at: now, ..old(self)@ }),
    {
        proof {
            use_type_invariant(&*self);
        }
        self.tick_cnt = 0;
        self.tick_at = now;
    }

    /// Counts both timers down.
    fn on_tick(&mut self)
        ensures
            final(self)@ == (State {
                delay_timer: counted_down(old(self)@.delay_timer),
                sound_timer: counted_down(old(self)@.sound_timer),
                ..old(self)@
            }),
    {
        self.update_delay_timer();
        self.update_sound_timer();
    }

    /// Performs one timer tick at time `now`.
    pub fn tick(&mut self, now: u128)
        ensures
            final(self)@ == old(self)@.ticked(now),
            final(self)@.wf(),
    {
        proof {
            use_type_invariant(&*self);
        }
        self.tick_at = now;
        self.tick_cnt = if self.tick_cnt == u128::MAX {
            0
        } else {
            self.tick_cnt + 1
        };
        self.on_tick();
    }

    /// Tells whether a timer tick is due at time `now`: whether the tick
    /// interval has passed since the last tick.
    pub fn tick_due(&self, now: u128) -> (due: bool)
        ensures
            due == self@.tick_due(now),
    {
        now >= self.tick_at && now - self.tick_at >= TICK_RATE
    }

    /// Returns the time left at `now` until the next timer tick is due, zero
    /// if it is due already.
    pub fn next_tick_left(&self, now: u128) -> (left: u128)
        ensures
            left == if self@.tick_due(now) {
                0
            } else {
                TICK_RATE - self@.since_tick(now)
            },
    {
        let elapsed = if now >= self.tick_at {
            now - self.tick_at
        } else {
            0
        };
        if TICK_RATE >= elapsed {
            return TICK_RATE - elapsed;
        } else {
            return 0;
        }
    }

    /// Serves the timers at time `now`: performs a tick if one is due, and
    /// tells whether it did.
    pub fn serve_timers(&mut self, now: u128) -> (ticked: bool)
        ensures
            ticked == old(self)@.tick_due(now),
            final(self)@ == old(self)@.timers_served(now),
            final(self)@.wf(),
    {
        proof {
            use_type_invariant(&*self);
        }
        if self.tick_due(now) {
            self.tick(now);
            true
        } else {
            false
        }
    }

    /// Returns how long to wait at `elapsed` nanoseconds into the current
    /// cycle before the next instruction: the rest of the cycle, zero if the
    /// cycle is over.
    pub fn cycle_slack(&self, elapsed: u128) -> (slack: u128)
        ensures
            slack == if elapsed <= self@.cycle {
                self@.cycle - elapsed
            } else {
                0
            },
    {
        if elapsed <= self.cycle {
            self.cycle - elapsed
        } else {
            0
        }
    }

    /// Starts the machine at time `now`: the program counter moves to the
    /// cartridge, the tick clock is reset, and the machine runs.
    pub fn start(&mut self, now: u128)
        ensures
            final(self)@ == old(self)@.started(now),
            final(self)@.wf(),
    {
        proof {
            use_type_invariant(&*self);
        }
        self.reset_tick(now);
        proof {
            use_type_invariant(&*self);
        }
        self.pc = self.cartridge_address;
        self.running = true;
    }

    /// Asks the machine to stop running.
    pub fn halt(&mut self)
        ensures
            final(self)@ == (State { running: false, ..old(self)@ }),
            final(self)@.wf(),
    {
        proof {
            use_type_invariant(&*self);
        }
        self.running = false;
    }

    /// Applies one key event.
    pub fn handle_key_event(&mut self, event: KeyEvent)
        requires
            event.valid(),
        ensures
            final(self)@ == old(self)@.after_key_event(event),
            final(self)@.wf(),
    {
        proof {
            use_type_invariant(&*self);
        }
        match event {
            KeyEvent::Pressed(k) => {
                match k {
                    Key::Quit => {
                        self.running = false;
                    },
                    Key::Num(n) => {
                        if matches!(self.get_key_state, GetKeyState::Paused) {
                            self.get_key_state = GetKeyState::Pressed(n);
                        }
                        self.key_state[n as usize] = true;
                        proof {
                            assert(self@.keys =~= old(self)@.keys.update(n as int, true));
                        }
                    },
                }
            },
            KeyEvent::Released(k) => {
                match k {
                    Key::Num(n) => {
                        if let GetKeyState::Pressed(k) = self.get_key_state {
                            if k == n {
                                self.get_key_state = GetKeyState::Released(k);
                            }
                        }
                        self.key_state[n as usize] = false;
                        proof {
                            assert(self@.keys =~= old(self)@.keys.update(n as int, false));
                        }
                    },
                    _ => {},
                }
            },
        }
    }

    /// Applies a batch of key events in order.
    pub fn handle_key_events(&mut self, key_events: &[KeyEvent])
        requires
            forall|i: int| 0 <= i < key_events@.len() ==> (#[trigger] key_events@[i]).valid(),
        ensures
            final(self)@ == old(self)@.after_key_events(key_events@),
            final(self)@.wf(),
    {
        proof {
            use_type_invariant(&*self);
        }
        let mut i: usize = 0;
        while i < key_events.len()
            invariant
                i <= key_events@.len(),
                forall|j: int| 0 <= j < key_events@.len() ==> (#[trigger] key_events@[j]).valid(),
                self@ == old(self)@.after_key_events(key_events@.take(i as int)),
                self@.wf(),
            decreases key_events@.len() - i,
        {
            self.handle_key_event(key_events[i]);
            proof {
                assert(key_events@.take(i + 1).drop_last() =~= key_events@.take(i as int));
            }
            i += 1;
        }
        proof {
            assert(key_events@.take(i as int) =~= key_events@);
        }
    }

    /// Unsets every pixel of the display. The display is not marked dirty.
    fn clear_display(&mut self)
        ensures
            final(self)@ == (State { display: blank_display(), ..old(self)@ }),
    {
        proof {
            use_type_invariant(&*self);
        }
        self.display_buffer = [[false; 64]; 32];
        proof {
            assert forall|y: int| 0 <= y < 32 implies #[trigger] self@.display[y]
                =~= blank_display()[y] by {
                assert(self.display_buffer@[y]@ =~= Seq::new(64, |x: int| false));
            }
            assert(self@.display =~= blank_display());
        }
    }

    /// Returns the display for presentation if it changed since it was last
    /// presented.
    pub fn display(&self) -> (frame: Option<Screen<'_>>)
        ensures
            frame.is_some() == self@.dirty,
            frame.is_some() ==> frame.unwrap()@ == self@.display,
    {
        if self.display_buffer_dirty {
            Some(Screen::new(&self.display_buffer))
        } else {
            None
        }
    }

    /// Records that the display has been presented.
    pub fn displayed(&mut self)
        ensures
            final(self)@ == (State { dirty: false, ..old(self)@ }),
            final(self)@.wf(),
    {
        proof {
            use_type_invariant(&*self);
        }
        self.display_buffer_dirty = false;
    }

    /// Draws the sprite of `height` rows found at the index register to the
    /// position `(x, y)`, which wraps around the display. The sprite is
    /// clipped at the right and bottom edges.
    ///
    /// The flag register tells afterwards whether a set pixel was unset. The
    /// display is marked dirty if a pixel changed. Fails with
    /// `MemoryOverflow` if a fetched row lies beyond the end of memory.
    pub fn draw(&mut self, x: usize, y: usize, height: u8) -> (r: Result<(), MachineError>)
        ensures
            (final(self)@, r) == old(self)@.draw(x as int, y as int, height),
            final(self)@.wf(),
    {
        proof {
            use_type_invariant(&*self);
        }
        let ghost s0 = self@;
        let ghost gx = x as int;
        let ghost gy = y as int;
        let left = x % DISPLAY_WIDTH;
        let top = y % DISPLAY_HEIGHT;
        let mut i_addr = self.get_register_i();
        self.clr_vf();
        proof {
            lemma_hits_start(s0, gx, gy);
        }
        let mut yi: usize = 0;
        while yi < height as usize
            invariant
                s0 == old(self)@,
                s0.wf(),
                gx == x as int,
                gy == y as int,
                left == State::sprite_left(gx),
                top == State::sprite_top(gy),
                yi <= height,
                top + yi <= DISPLAY_HEIGHT,
                s0.index + yi <= MEMORY_SIZE,
                i_addr == s0.index + yi,
                self@ == (State {
                    display: self@.display,
                    dirty: self@.dirty,
                    registers: self@.registers,
                    ..s0
                }),
                self@.wf(),
                forall|px: int, py: int|
                    0 <= px < DISPLAY_WIDTH && 0 <= py < DISPLAY_HEIGHT ==> #[trigger] self@.pixel(
                        px,
                        py,
                    ) == (s0.pixel(px, py) ^ hits_so_far(s0, gx, gy, px, py, yi as int, 0)),
                self@.dirty == (s0.dirty || shows_so_far(s0, gx, gy, yi as int, 0)),
                self@.registers == s0.registers.update(
                    FLAG_REGISTER as int,
                    flag_of(collides_so_far(s0, gx, gy, yi as int, 0)),
                ),
            decreases height - yi,
        {
            let srow_map = match self.get_memory(i_addr as usize) {
                Ok(row) => row,
                Err(e) => {
                    proof {
                        lemma_hits_all(s0, gx, gy, height);
                        assert(s0.sprite_rows(gy, height) == yi);
                        self.lemma_drawn(s0, gx, gy, height);
                    }
                    return Err(e);
                },
            };
            let ye = top + yi;
            if ye >= DISPLAY_HEIGHT {
                proof {
                    lemma_hits_all(s0, gx, gy, height);
                    assert(s0.sprite_rows(gy, height) == yi);
                    self.lemma_drawn(s0, gx, gy, height);
                }
                return Ok(());
            }
            let mut xi: usize = 0;
            while xi < 8 && left + xi < DISPLAY_WIDTH
                invariant
                    s0.wf(),
                    left == State::sprite_left(gx),
                    top == State::sprite_top(gy),
                    ye == top + yi,
                    ye < DISPLAY_HEIGHT,
                    xi <= 8,
                    s0.index + yi < MEMORY_SIZE,
                    srow_map == s0.memory[s0.index + yi],
                    self@ == (State {
                        display: self@.display,
                        dirty: self@.dirty,
                        registers: self@.registers,
                        ..s0
                    }),
                    self@.wf(),
                    forall|px: int, py: int|
                        0 <= px < DISPLAY_WIDTH && 0 <= py < DISPLAY_HEIGHT
                            ==> #[trigger] self@.pixel(px, py) == (s0.pixel(px, py) ^ hits_so_far(
                            s0,
                            gx,
                            gy,
                            px,
                            py,
                            yi as int,
                            xi as int,
                        )),
                    self@.dirty == (s0.dirty || shows_so_far(s0, gx, gy, yi as int, xi as int)),
                    self@.registers == s0.registers.update(
                        FLAG_REGISTER as int,
                        flag_of(collides_so_far(s0, gx, gy, yi as int, xi as int)),
                    ),
                decreases 8 - xi,
            {
                proof {
                    use_type_invariant(&*self);
                    lemma_hits_next_pixel(s0, gx, gy, yi as int, xi as int);
                }
                let ghost before = self@;
                let xe = left + xi;
                let cur_dis = self.display_buffer[ye][xe];
                let sprite_dis = (srow_map & (0x80u8 >> (xi as u8))) != 0;
                assert(cur_dis == before.pixel(xe as int, ye as int));
                assert(sprite_dis == sprite_bit(srow_map, xi as int));
                let new_dis = cur_dis ^ sprite_dis;
                if cur_dis != new_dis {
                    self.display_buffer[ye][xe] = new_dis;
                    self.display_buffer_dirty = true;
                    if cur_dis {
                        self.set_vf();
                        proof {
                            assert(self@.registers =~= s0.registers.update(
                                FLAG_REGISTER as int,
                                1,
                            ));
                        }
                    }
                }
                proof {
                    assert forall|px: int, py: int|
                        0 <= px < DISPLAY_WIDTH && 0 <= py < DISPLAY_HEIGHT implies #[trigger] self@.pixel(
                        px,
                        py,
                    ) == (if px == xe && py == ye {
                        new_dis
                    } else {
                        before.pixel(px, py)
                    }) by {}
                }
                xi += 1;
            }
            proof {
                lemma_hits_next_row(s0, gx, gy, yi as int, xi as int);
            }
            i_addr += 1;
            yi += 1;
        }
        proof {
            lemma_hits_all(s0, gx, gy, height);
            assert(s0.sprite_rows(gy, height) == yi);
            self.lemma_drawn(s0, gx, gy, height);
        }
        Ok(())
    }

    /// A machine whose display, dirty flag and flag register are those of a
    /// finished draw, and which is otherwise as before the draw, is in the
    /// state that the draw leaves.
    proof fn lemma_drawn(&self, s0: State, x: int, y: int, height: u8)
        requires
            s0.wf(),
            self@.wf(),
            self@ == (State {
                display: self@.display,
                dirty: self@.dirty,
                registers: self@.registers,
                ..s0
            }),
            forall|px: int, py: int|
                0 <= px < DISPLAY_WIDTH && 0 <= py < DISPLAY_HEIGHT ==> #[trigger] self@.pixel(
                    px,
                    py,
                ) == (s0.pixel(px, py) ^ hits_so_far(
                    s0,
                    x,
                    y,
                    px,
                    py,
                    s0.sprite_rows(y, height),
                    0,
                )),
            self@.dirty == (s0.dirty || shows_so_far(s0, x, y, s0.sprite_rows(y, height), 0)),
            self@.registers == s0.registers.update(
                FLAG_REGISTER as int,
                flag_of(collides_so_far(s0, x, y, s0.sprite_rows(y, height), 0)),
            ),
        ensures
            self@ == s0.draw(x, y, height).0,
    {
        lemma_hits_all(s0, x, y, height);
        let expected = s0.draw(x, y, height).0;
        assert forall|py: int| 0 <= py < DISPLAY_HEIGHT implies #[trigger] self@.display[py]
            =~= expected.display[py] by {
            assert forall|px: int| 0 <= px < DISPLAY_WIDTH implies #[trigger] self@.display[py][px]
                == expected.display[py][px] by {
                assert(self@.pixel(px, py) == (s0.pixel(px, py) ^ hits_so_far(
                    s0,
                    x,
                    y,
                    px,
                    py,
                    s0.sprite_rows(y, height),
                    0,
                )));
            }
        }
        assert(self@.display =~= expected.display);
    }

    /// Returns the values of registers `x` and `y`, or
    /// `RegisterIndexOverflow` if either is no register.
    fn operands(&self, x: u8, y: u8) -> (r: Result<(u8, u8), MachineError>)
        ensures
            x < REGISTER_COUNT && y < REGISTER_COUNT ==> r == Ok::<(u8, u8), MachineError>(
                (self@.reg(x), self@.reg(y)),
            ),
            x >= REGISTER_COUNT || y >= REGISTER_COUNT ==> r == Err::<(u8, u8), MachineError>(
                MachineError::RegisterIndexOverflow,
            ),
    {
        let xv = match self.get_register(x) {
            Ok(v) => v,
            Err(e) => {
                return Err(e);
            },
        };
        let yv = match self.get_register(y) {
            Ok(v) => v,
            Err(e) => {
                return Err(e);
            },
        };
        Ok((xv, yv))
    }

    /// Sets register `x` to `value` and moves on to the next instruction.
    fn assign(&mut self, x: u8, value: u8) -> (r: Result<(), MachineError>)
        ensures
            (final(self)@, r) == old(self)@.assign(x, value),
    {
        match self.set_register(x, value) {
            Ok(()) => self.advance(),
            Err(e) => Err(e),
        }
    }

    /// Sets register `x` to `value`, then the flag register to `flag`, and
    /// moves on to the next instruction. Both `x` and `y` must be registers.
    fn combine(&mut self, x: u8, y: u8, value: u8, flag: u8) -> (r: Result<(), MachineError>)
        ensures
            (final(self)@, r) == old(self)@.combine(x, y, value, flag),
    {
        if x as usize >= REGISTER_COUNT || y as usize >= REGISTER_COUNT {
            return Err(MachineError::RegisterIndexOverflow);
        }
        let _ = self.set_register(x, value);
        let _ = self.set_register(FLAG_REGISTER, flag);
        self.advance()
    }

    /// Sets the index register to `value` and moves on to the next
    /// instruction.
    fn point_index(&mut self, value: usize) -> (r: Result<(), MachineError>)
        ensures
            (final(self)@, r) == old(self)@.point_index(value as int),
    {
        if value >= MEMORY_SIZE {
            return Err(MachineError::IndexRegisterOverflow);
        }
        let _ = self.set_register_i(value as u16);
        self.advance()
    }

    /// Skips on a comparison of register `x` with register `y`.
    fn compare(&mut self, x: u8, y: u8, skip_when_equal: bool) -> (r: Result<(), MachineError>)
        ensures
            (final(self)@, r) == old(self)@.compare(x, y, skip_when_equal),
    {
        let xv = match self.get_register(x) {
            Ok(v) => v,
            Err(e) => {
                return Err(e);
            },
        };
        let yv = match self.get_register(y) {
            Ok(v) => v,
            Err(e) => {
                return Err(e);
            },
        };
        self.skip_if((xv == yv) == skip_when_equal)
    }

    /// Skips on a comparison of register `x` with the constant `c`.
    fn compare_constant(&mut self, x: u8, c: u8, skip_when_equal: bool) -> (r: Result<
        (),
        MachineError,
    >)
        ensures
            (final(self)@, r) == old(self)@.compare_constant(x, c, skip_when_equal),
    {
        let xv = match self.get_register(x) {
            Ok(v) => v,
            Err(e) => {
                return Err(e);
            },
        };
        self.skip_if((xv == c) == skip_when_equal)
    }

    /// Skips on the state of the key whose number register `x` holds.
    fn compare_key(&mut self, x: u8, skip_when_down: bool) -> (r: Result<(), MachineError>)
        ensures
            (final(self)@, r) == old(self)@.compare_key(x, skip_when_down),
    {
        let key = match self.get_register(x) {
            Ok(v) => v,
            Err(e) => {
                return Err(e);
            },
        };
        if key as usize >= KEY_COUNT {
            return Err(MachineError::KeyIndexOverflow);
        }
        let kstat = self.key_state[key as usize];
        self.skip_if(kstat == skip_when_down)
    }

    /// Calls the subroutine at `target`.
    fn call(&mut self, target: usize) -> (r: Result<(), MachineError>)
        ensures
            (final(self)@, r) == old(self)@.call(target as int),
    {
        match self.advance() {
            Ok(()) => {},
            Err(e) => {
                return Err(e);
            },
        }
        proof {
            use_type_invariant(&*self);
        }
        let mut stack: Vec<usize> = Vec::new();
        std::mem::swap(&mut self.stack, &mut stack);
        stack.push(self.pc);
        std::mem::swap(&mut self.stack, &mut stack);
        self.set_pc(target)
    }

    /// Returns from a subroutine.
    fn returned(&mut self) -> (r: Result<(), MachineError>)
        ensures
            (final(self)@, r) == old(self)@.returned(),
    {
        proof {
            use_type_invariant(&*self);
        }
        let mut stack: Vec<usize> = Vec::new();
        std::mem::swap(&mut self.stack, &mut stack);
        let top = stack.pop();
        std::mem::swap(&mut self.stack, &mut stack);
        match top {
            Some(ret_pc) => self.set_pc(ret_pc),
            None => Err(MachineError::StackUnderflow),
        }
    }

    /// Clears the display and moves on to the next instruction.
    fn clear(&mut self) -> (r: Result<(), MachineError>)
        ensures
            (final(self)@, r) == old(self)@.clear(),
    {
        self.clear_display();
        self.advance()
    }

    /// Adds the constant `c` to register `x`, modulo 256.
    fn add_constant(&mut self, x: u8, c: u8) -> (r: Result<(), MachineError>)
        ensures
            (final(self)@, r) == old(self)@.add_constant(x, c),
    {
        match self.get_register(x) {
            Ok(xv) => self.assign(x, xv.wrapping_add(c)),
            Err(e) => Err(e),
        }
    }

    /// Copies register `y` to register `x`.
    fn copy_register(&mut self, x: u8, y: u8) -> (r: Result<(), MachineError>)
        ensures
            (final(self)@, r) == old(self)@.copy_register(x, y),
    {
        match self.get_register(y) {
            Ok(yv) => self.assign(x, yv),
            Err(e) => Err(e),
        }
    }

    /// Sets register `x` to the bitwise or of registers `x` and `y`.
    fn bit_or(&mut self, x: u8, y: u8) -> (r: Result<(), MachineError>)
        ensures
            (final(self)@, r) == old(self)@.bit_or(x, y),
    {
        match self.operands(x, y) {
            Ok((xv, yv)) => self.combine(x, y, xv | yv, 0),
            Err(e) => Err(e),
        }
    }

    /// Sets register `x` to the bitwise and of registers `x` and `y`.
    fn bit_and(&mut self, x: u8, y: u8) -> (r: Result<(), MachineError>)
        ensures
            (final(self)@, r) == old(self)@.bit_and(x, y),
    {
        match self.operands(x, y) {
            Ok((xv, yv)) => self.combine(x, y, xv & yv, 0),
            Err(e) => Err(e),
        }
    }

    /// Sets register `x` to the bitwise exclusive or of registers `x` and
    /// `y`.
    fn bit_xor(&mut self, x: u8, y: u8) -> (r: Result<(), MachineError>)
        ensures
            (final(self)@, r) == old(self)@.bit_xor(x, y),
    {
        match self.operands(x, y) {
            Ok((xv, yv)) => self.combine(x, y, xv ^ yv, 0),
            Err(e) => Err(e),
        }
    }

    /// Adds register `y` to register `x`; the flag register records the
    /// carry.
    fn add_registers(&mut self, x: u8, y: u8) -> (r: Result<(), MachineError>)
        ensures
            (final(self)@, r) == old(self)@.add_registers(x, y),
    {
        match self.operands(x, y) {
            Ok((xv, yv)) => {
                let res = xv.wrapping_add(yv);
                let flag: u8 = if res < xv {
                    1
                } else {
                    0
                };
                self.combine(x, y, res, flag)
            },
            Err(e) => Err(e),
        }
    }

    /// Sets register `x` to register `x` minus register `y`, or the other
    /// way round if `reversed`; the flag register is 0 on a borrow, else 1.
    fn subtract(&mut self, x: u8, y: u8, reversed: bool) -> (r: Result<(), MachineError>)
        ensures
            (final(self)@, r) == if reversed {
                old(self)@.subtract(x, y, old(self)@.reg(y), old(self)@.reg(x))
            } else {
                old(self)@.subtract(x, y, old(self)@.reg(x), old(self)@.reg(y))
            },
    {
        match self.operands(x, y) {
            Ok((xv, yv)) => {
                let minuend = if reversed {
                    yv
                } else {
                    xv
                };
                let subtrahend = if reversed {
                    xv
                } else {
                    yv
                };
                let res = minuend.wrapping_sub(subtrahend);
                let flag: u8 = if res > minuend {
                    0
                } else {
                    1
                };
                self.combine(x, y, res, flag)
            },
            Err(e) => Err(e),
        }
    }

    /// Sets register `x` to register `y` shifted right by one bit; the flag
    /// register receives the bit shifted out.
    fn shift_right(&mut self, x: u8, y: u8) -> (r: Result<(), MachineError>)
        ensures
            (final(self)@, r) == old(self)@.shift_right(x, y),
    {
        match self.operands(x, y) {
            Ok((_, yv)) => {
                let flag: u8 = if yv & 1 == 1 {
                    1
                } else {
                    0
                };
                assert(yv >> 1 == yv / 2) by (bit_vector);
                assert((yv & 1 == 1) == (yv % 2 == 1)) by (bit_vector);
                self.combine(x, y, yv >> 1, flag)
            },
            Err(e) => Err(e),
        }
    }

    /// Sets register `x` to register `y` shifted left by one bit; the flag
    /// register receives the bit shifted out.
    fn shift_left(&mut self, x: u8, y: u8) -> (r: Result<(), MachineError>)
        ensures
            (final(self)@, r) == old(self)@.shift_left(x, y),
    {
        match self.operands(x, y) {
            Ok((_, yv)) => {
                let flag: u8 = if yv & 0x80 == 0x80 {
                    1
                } else {
                    0
                };
                assert(yv << 1 == (yv * 2) % 256) by (bit_vector);
                assert((yv & 0x80 == 0x80) == (yv / 0x80 == 1)) by (bit_vector);
                assert(yv / 0x80 <= 1) by (bit_vector);
                self.combine(x, y, yv << 1, flag)
            },
            Err(e) => Err(e),
        }
    }

    /// Jumps to `c` plus the value of `V0`.
    fn jump_offset(&mut self, c: u16) -> (r: Result<(), MachineError>)
        ensures
            (final(self)@, r) == old(self)@.jump(old(self)@.reg(0) + c),
    {
        match self.get_register(0) {
            Ok(entry) => self.set_pc(entry as usize + c as usize),
            Err(e) => Err(e),
        }
    }

    /// Sets register `x` to the delay timer.
    fn read_delay(&mut self, x: u8) -> (r: Result<(), MachineError>)
        ensures
            (final(self)@, r) == old(self)@.assign(x, old(self)@.delay_timer),
    {
        let timer = self.delay_timer;
        self.assign(x, timer)
    }

    /// Sets the delay timer to register `x`.
    fn set_delay(&mut self, x: u8) -> (r: Result<(), MachineError>)
        ensures
            (final(self)@, r) == old(self)@.set_delay(x),
    {
        proof {
            use_type_invariant(&*self);
        }
        match self.get_register(x) {
            Ok(xv) => {
                self.delay_timer = xv;
                self.advance()
            },
            Err(e) => Err(e),
        }
    }

    /// Sets the sound timer to register `x`.
    fn set_sound(&mut self, x: u8) -> (r: Result<(), MachineError>)
        ensures
            (final(self)@, r) == old(self)@.set_sound(x),
    {
        proof {
            use_type_invariant(&*self);
        }
        match self.get_register(x) {
            Ok(xv) => {
                self.sound_timer = xv;
                self.advance()
            },
            Err(e) => Err(e),
        }
    }

    /// Adds register `x` to the index register.
    fn add_index(&mut self, x: u8) -> (r: Result<(), MachineError>)
        ensures
            (final(self)@, r) == old(self)@.add_index(x),
    {
        match self.get_register(x) {
            Ok(xv) => {
                let target = self.get_register_i() as usize + xv as usize;
                self.point_index(target)
            },
            Err(e) => Err(e),
        }
    }

    /// Points the index register at the glyph of the digit in register `x`.
    fn point_font(&mut self, x: u8) -> (r: Result<(), MachineError>)
        ensures
            (final(self)@, r) == old(self)@.point_font(x),
    {
        proof {
            use_type_invariant(&*self);
        }
        match self.get_register(x) {
            Ok(xv) => {
                let font = self.font_address;
                assert(xv * font <= 255 * 4095 && font + xv * font == font * (xv + 1))
                    by (nonlinear_arith)
                    requires
                        font < 4096,
                        xv <= 255,
                ;
                self.point_index(font + xv as usize * font)
            },
            Err(e) => Err(e),
        }
    }

    /// Draws the sprite of `height` rows at the position held in registers
    /// `x` and `y` and moves on to the next instruction.
    fn draw_sprite(&mut self, x: u8, y: u8, height: u8) -> (r: Result<(), MachineError>)
        ensures
            (final(self)@, r) == old(self)@.draw_sprite(x, y, height),
    {
        let xv = match self.get_register(x) {
            Ok(v) => v,
            Err(e) => {
                return Err(e);
            },
        };
        let yv = match self.get_register(y) {
            Ok(v) => v,
            Err(e) => {
                return Err(e);
            },
        };
        match self.draw(xv as usize, yv as usize, height) {
            Ok(()) => self.advance(),
            Err(e) => Err(e),
        }
    }

    /// Starts a key wait, completes one, or does nothing while one is in
    /// progress.
    fn wait_key(&mut self, x: u8) -> (r: Result<(), MachineError>)
        ensures
            (final(self)@, r) == old(self)@.wait_key(x),
    {
        proof {
            use_type_invariant(&*self);
        }
        match self.get_key_state {
            GetKeyState::Idle => {
                self.get_key_state = GetKeyState::Paused;
                Ok(())
            },
            GetKeyState::Released(key) => {
                self.get_key_state = GetKeyState::Idle;
                self.assign(x, key)
            },
            _ => Ok(()),
        }
    }

    /// Stores the three decimal digits of register `x` at the index
    /// register and moves on to the next instruction.
    fn store_decimal(&mut self, x: u8) -> (r: Result<(), MachineError>)
        ensures
            (final(self)@, r) == old(self)@.store_decimal(x),
    {
        let xv = match self.get_register(x) {
            Ok(v) => v,
            Err(e) => {
                return Err(e);
            },
        };
        let ghost s0 = self@;
        let ghost digits = State::decimal_digits(xv);
        let n0 = xv % 10;
        let n1 = (xv / 10) % 10;
        let n2 = (xv / 100) % 10;
        let address = self.get_register_i() as usize;
        match self.set_memory(address, n2) {
            Ok(()) => {},
            Err(e) => {
                return Err(e);
            },
        }
        match self.set_memory(address + 1, n1) {
            Ok(()) => {},
            Err(e) => {
                proof {
                    assert(self@.memory =~= s0.with_memory_at_index(digits, 1).memory);
                }
                return Err(e);
            },
        }
        match self.set_memory(address + 2, n0) {
            Ok(()) => {},
            Err(e) => {
                proof {
                    assert(self@.memory =~= s0.with_memory_at_index(digits, 2).memory);
                }
                return Err(e);
            },
        }
        proof {
            assert(self@.memory =~= s0.with_memory_at_index(digits, 3).memory);
        }
        self.advance()
    }

    /// Stores registers `V0..=Vx` to memory at the index register, moves the
    /// index register behind them and moves on to the next instruction.
    fn store_registers(&mut self, x: u8) -> (r: Result<(), MachineError>)
        ensures
            (final(self)@, r) == old(self)@.store_registers(x),
    {
        let ghost s0 = self@;
        let mut iaddr = self.get_register_i() as usize;
        let mut xi: usize = 0;
        while xi <= x as usize
            invariant
                s0 == old(self)@,
                s0.index < MEMORY_SIZE,
                xi <= x + 1,
                xi <= REGISTER_COUNT,
                s0.index + xi <= MEMORY_SIZE,
                iaddr == s0.index + xi,
                self@ == (State { memory: self@.memory, ..s0 }),
                self@.memory == s0.with_memory_at_index(s0.registers, xi as int).memory,
            decreases x + 1 - xi,
        {
            let value = match self.get_register(xi as u8) {
                Ok(v) => v,
                Err(e) => {
                    return Err(e);
                },
            };
            match self.set_memory(iaddr, value) {
                Ok(()) => {},
                Err(e) => {
                    return Err(e);
                },
            }
            proof {
                assert(self@.memory =~= s0.with_memory_at_index(s0.registers, xi + 1).memory);
            }
            iaddr += 1;
            xi += 1;
        }
        self.point_index(iaddr)
    }

    /// Loads registers `V0..=Vx` from memory at the index register, moves
    /// the index register behind them and moves on to the next instruction.
    fn restore_registers(&mut self, x: u8) -> (r: Result<(), MachineError>)
        ensures
            (final(self)@, r) == old(self)@.restore_registers(x),
    {
        let ghost s0 = self@;
        let mut iaddr = self.get_register_i() as usize;
        let mut xi: usize = 0;
        proof {
            assert(s0.registers =~= Seq::new(
                REGISTER_COUNT as nat,
                |i: int|
                    if i < 0 {
                        s0.memory[s0.index + i]
                    } else {
                        s0.registers[i]
                    },
            ));
        }
        while xi <= x as usize
            invariant
                s0 == old(self)@,
                s0.index < MEMORY_SIZE,
                xi <= x + 1,
                xi <= REGISTER_COUNT,
                s0.index + xi <= MEMORY_SIZE,
                iaddr == s0.index + xi,
                self@ == (State { registers: self@.registers, ..s0 }),
                self@.registers == Seq::new(
                    REGISTER_COUNT as nat,
                    |i: int|
                        if i < xi {
                            s0.memory[s0.index + i]
                        } else {
                            s0.registers[i]
                        },
                ),
            decreases x + 1 - xi,
        {
            let value = match self.get_memory(iaddr) {
                Ok(v) => v,
                Err(e) => {
                    return Err(e);
                },
            };
            match self.set_register(xi as u8, value) {
                Ok(()) => {},
                Err(e) => {
                    return Err(e);
                },
            }
            proof {
                assert(self@.registers =~= Seq::new(
                    REGISTER_COUNT as nat,
                    |i: int|
                        if i < xi + 1 {
                            s0.memory[s0.index + i]
                        } else {
                            s0.registers[i]
                        },
                ));
            }
            iaddr += 1;
            xi += 1;
        }
        self.point_index(iaddr)
    }

    /// Returns the instruction word at `addr`, most significant byte first,
    /// or `MemoryOverflow` if one of its two bytes lies beyond the end of
    /// memory.
    fn get_opcode(&self, addr: usize) -> (r: Result<u16, MachineError>)
        ensures
            addr + 1 < MEMORY_SIZE ==> r == Ok::<u16, MachineError>(
                (self@.memory[addr as int] * 0x100 + self@.memory[addr + 1]) as u16,
            ),
            addr + 1 >= MEMORY_SIZE ==> r == Err::<u16, MachineError>(
                MachineError::MemoryOverflow,
            ),
    {
        let high = match self.get_memory(addr) {
            Ok(v) => v,
            Err(e) => {
                return Err(e);
            },
        };
        let low = match self.get_memory(addr + 1) {
            Ok(v) => v,
            Err(e) => {
                return Err(e);
            },
        };
        Ok(high as u16 * 0x100 + low as u16)
    }

    /// Fetches and decodes the instruction at the program counter, or fails
    /// with `MemoryOverflow` if its second byte lies beyond the end of
    /// memory.
    pub fn get_operation(&self) -> (r: Result<Operation, MachineError>)
        ensures
            self@.pc + 1 < MEMORY_SIZE ==> r == Ok::<Operation, MachineError>(
                decode(self@.word_at_pc()),
            ),
            self@.pc + 1 >= MEMORY_SIZE ==> r == Err::<Operation, MachineError>(
                MachineError::MemoryOverflow,
            ),
            self@.wf(),
    {
        proof {
            use_type_invariant(self);
        }
        match self.get_opcode(self.pc) {
            Ok(word) => Ok(parse_opcode(word)),
            Err(e) => Err(e),
        }
    }

    /// Executes one operation. `random_byte` is the byte that the random
    /// instruction uses; no other operation looks at it.
    ///
    /// The outcome, state and result, is the one that the model gives for
    /// the operation: see `State::execute`.
    pub fn execute(&mut self, operation: Operation, random_byte: u8) -> (r: Result<
        (),
        MachineError,
    >)
        ensures
            (final(self)@, r) == old(self)@.execute(operation, random_byte),
            final(self)@.wf(),
    {
        let r = match operation {
            Operation::CallSysC(_) => self.advance(),
            Operation::Clear => self.clear(),
            Operation::Return => self.returned(),
            Operation::JumpC(c) => self.set_pc(c as usize),
            Operation::CallC(c) => self.call(c as usize),
            Operation::SkipEqC(x, c) => self.compare_constant(x, c, true),
            Operation::SkipNeC(x, c) => self.compare_constant(x, c, false),
            Operation::SkipEq(x, y) => self.compare(x, y, true),
            Operation::SetC(x, c) => self.assign(x, c),
            Operation::AddC(x, c) => self.add_constant(x, c),
            Operation::Assign(x, y) => self.copy_register(x, y),
            Operation::Or(x, y) => self.bit_or(x, y),
            Operation::And(x, y) => self.bit_and(x, y),
            Operation::Xor(x, y) => self.bit_xor(x, y),
            Operation::Add(x, y) => self.add_registers(x, y),
            Operation::Sub(x, y) => self.subtract(x, y, false),
            Operation::Shr(x, y) => self.shift_right(x, y),
            Operation::SubRev(x, y) => self.subtract(x, y, true),
            Operation::Shl(x, y) => self.shift_left(x, y),
            Operation::SkipNe(x, y) => self.compare(x, y, false),
            Operation::SetIC(c) => self.point_index(c as usize),
            Operation::JumpV0C(c) => self.jump_offset(c),
            Operation::RandC(x, c) => self.assign(x, random_byte & c),
            Operation::DrawC(x, y, c) => self.draw_sprite(x, y, c),
            Operation::SkipEqKey(x) => self.compare_key(x, true),
            Operation::SkipNeKey(x) => self.compare_key(x, false),
            Operation::GetDelayTimer(x) => self.read_delay(x),
            Operation::GetKey(x) => self.wait_key(x),
            Operation::SetDelayTimer(x) => self.set_delay(x),
            Operation::SetSoundTimer(x) => self.set_sound(x),
            Operation::AddI(x) => self.add_index(x),
            Operation::SetIFont(x) => self.point_font(x),
            Operation::Bcd(x) => self.store_decimal(x),
            Operation::Store(x) => self.store_registers(x),
            Operation::Restore(x) => self.restore_registers(x),
            Operation::Unknown(_) => self.advance(),
        };
        proof {
            use_type_invariant(&*self);
        }
        r
    }

    /// Executes the instruction at the program counter, with `random_byte`
    /// as the byte that a random instruction uses.
    ///
    /// The outcome, state and result, is the one that the model gives: see
    /// `State::step`.
    pub fn step(&mut self, random_byte: u8) -> (r: Result<(), MachineError>)
        ensures
            (final(self)@, r) == old(self)@.step(random_byte),
            final(self)@.wf(),
    {
        proof {
            use_type_invariant(&*self);
        }
        match self.get_operation() {
            Ok(operation) => self.execute(operation, random_byte),
            Err(e) => Err(e),
        }
    }
}

} // verus!
