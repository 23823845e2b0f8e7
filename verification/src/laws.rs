//! Laws of the machine's model: what holds of every state and of sequences
//! of operations, proved from the definitions in the model.

use vstd::prelude::*;
use crate::console::Key;
use crate::console::KeyEvent;
use crate::opcode::address_of;
use crate::opcode::decode;
use crate::opcode::x_of;
use crate::opcode::y_of;
use crate::opcode::Operation;
use crate::state::counted_down;
use crate::state::wrapped;
use crate::state::GetKeyState;
use crate::state::MachineError;
use crate::state::State;
use crate::state::DISPLAY_HEIGHT;
use crate::state::DISPLAY_WIDTH;
use crate::state::FLAG_REGISTER;
use crate::state::KEY_COUNT;
use crate::state::MEMORY_SIZE;
use crate::state::REGISTER_COUNT;
use crate::state::TICK_RATE;

verus! {

/// Whether every operand of an operation is in range: register indices name
/// registers and addresses lie inside the address space.
pub open spec fn operands_in_range(operation: Operation) -> bool {
    match operation {
        Operation::CallSysC(c) => c < MEMORY_SIZE,
        Operation::Clear => true,
        Operation::Return => true,
        Operation::JumpC(c) => c < MEMORY_SIZE,
        Operation::CallC(c) => c < MEMORY_SIZE,
        Operation::SkipEqC(x, _) => x < REGISTER_COUNT,
        Operation::SkipNeC(x, _) => x < REGISTER_COUNT,
        Operation::SkipEq(x, y) => x < REGISTER_COUNT && y < REGISTER_COUNT,
        Operation::SetC(x, _) => x < REGISTER_COUNT,
        Operation::AddC(x, _) => x < REGISTER_COUNT,
        Operation::Assign(x, y) => x < REGISTER_COUNT && y < REGISTER_COUNT,
        Operation::Or(x, y) => x < REGISTER_COUNT && y < REGISTER_COUNT,
        Operation::And(x, y) => x < REGISTER_COUNT && y < REGISTER_COUNT,
        Operation::Xor(x, y) => x < REGISTER_COUNT && y < REGISTER_COUNT,
        Operation::Add(x, y) => x < REGISTER_COUNT && y < REGISTER_COUNT,
        Operation::Sub(x, y) => x < REGISTER_COUNT && y < REGISTER_COUNT,
        Operation::Shr(x, y) => x < REGISTER_COUNT && y < REGISTER_COUNT,
        Operation::SubRev(x, y) => x < REGISTER_COUNT && y < REGISTER_COUNT,
        Operation::Shl(x, y) => x < REGISTER_COUNT && y < REGISTER_COUNT,
        Operation::SkipNe(x, y) => x < REGISTER_COUNT && y < REGISTER_COUNT,
        Operation::SetIC(c) => c < MEMORY_SIZE,
        Operation::JumpV0C(c) => c < MEMORY_SIZE,
        Operation::RandC(x, _) => x < REGISTER_COUNT,
        Operation::DrawC(x, y, n) => x < REGISTER_COUNT && y < REGISTER_COUNT && n < 0x10,
        Operation::SkipEqKey(x) => x < REGISTER_COUNT,
        Operation::SkipNeKey(x) => x < REGISTER_COUNT,
        Operation::GetDelayTimer(x) => x < REGISTER_COUNT,
        Operation::GetKey(x) => x < REGISTER_COUNT,
        Operation::SetDelayTimer(x) => x < REGISTER_COUNT,
        Operation::SetSoundTimer(x) => x < REGISTER_COUNT,
        Operation::AddI(x) => x < REGISTER_COUNT,
        Operation::SetIFont(x) => x < REGISTER_COUNT,
        Operation::Bcd(x) => x < REGISTER_COUNT,
        Operation::Store(x) => x < REGISTER_COUNT,
        Operation::Restore(x) => x < REGISTER_COUNT,
        Operation::Unknown(_) => true,
    }
}

/// Decoding yields operands in range, whatever the word.
pub proof fn law_decoded_operands_in_range(word: u16)
    ensures
        operands_in_range(decode(word)),
{
    assert(x_of(word) < 0x10);
    assert(y_of(word) < 0x10);
    assert(address_of(word) < 0x1000);
}

/// Only a word that matches no entry of the catalog decodes to `Unknown`,
/// and `Unknown` carries that very word.
pub proof fn law_unknown_carries_word(word: u16)
    ensures
        decode(word) is Unknown ==> decode(word) == Operation::Unknown(word),
{
}

/// What every operation respects: `t` is well formed and has the key flags,
/// the tick clock, the cycle time, the load addresses and the running flag
/// of `s`.
pub open spec fn respects(s: State, t: State) -> bool {
    &&& t.wf()
    &&& t.keys == s.keys
    &&& t.tick_at == s.tick_at
    &&& t.tick_count == s.tick_count
    &&& t.cycle == s.cycle
    &&& t.font_address == s.font_address
    &&& t.cartridge_address == s.cartridge_address
    &&& t.running == s.running
}

proof fn lemma_flow_respects(s: State, target: int, count: int, condition: bool)
    requires
        s.wf(),
        0 <= target,
        0 <= count,
    ensures
        respects(s, s.advanced(count).0),
        respects(s, s.skip_if(condition).0),
        respects(s, s.jump(target).0),
        respects(s, s.call(target).0),
        respects(s, s.returned().0),
        respects(s, s.point_index(target).0),
        respects(s, s.clear().0),
{
}

proof fn lemma_register_respects(s: State, x: u8, y: u8, value: u8, flag: u8, condition: bool)
    requires
        s.wf(),
    ensures
        respects(s, s.assign(x, value).0),
        respects(s, s.combine(x, y, value, flag).0),
        respects(s, s.compare(x, y, condition).0),
        respects(s, s.compare_constant(x, value, condition).0),
        respects(s, s.compare_key(x, condition).0),
        respects(s, s.copy_register(x, y).0),
        respects(s, s.set_delay(x).0),
        respects(s, s.set_sound(x).0),
        respects(s, s.wait_key(x).0),
{
}

proof fn lemma_index_respects(s: State, x: u8)
    requires
        s.wf(),
    ensures
        respects(s, s.add_index(x).0),
        respects(s, s.point_font(x).0),
{
}

proof fn lemma_draw_respects(s: State, x: int, y: int, height: u8)
    requires
        s.wf(),
    ensures
        respects(s, s.draw(x, y, height).0),
{
}

proof fn lemma_draw_sprite_respects(s: State, x: u8, y: u8, height: u8)
    requires
        s.wf(),
    ensures
        respects(s, s.draw_sprite(x, y, height).0),
{
    if x < REGISTER_COUNT && y < REGISTER_COUNT {
        lemma_draw_respects(s, s.reg(x) as int, s.reg(y) as int, height);
    }
}

proof fn lemma_transfer_respects(s: State, x: u8)
    requires
        s.wf(),
    ensures
        respects(s, s.store_decimal(x).0),
        respects(s, s.store_registers(x).0),
        respects(s, s.restore_registers(x).0),
{
}

/// Executing an operation on a well-formed state leaves a well-formed state,
/// whether it succeeds or fails: the index register and the program counter
/// never leave the address space. The key flags, the tick clock, the cycle
/// time, the load addresses and the running flag stay as they were.
pub proof fn law_execute_respects_state(s: State, operation: Operation, random: u8)
    requires
        s.wf(),
    ensures
        respects(s, s.execute(operation, random).0),
{
    match operation {
        Operation::CallSysC(_) => lemma_flow_respects(s, 0, 1, false),
        Operation::Clear => lemma_flow_respects(s, 0, 1, false),
        Operation::Return => lemma_flow_respects(s, 0, 1, false),
        Operation::JumpC(c) => lemma_flow_respects(s, c as int, 1, false),
        Operation::CallC(c) => lemma_flow_respects(s, c as int, 1, false),
        Operation::SkipEqC(x, c) => lemma_register_respects(s, x, 0, c, 0, true),
        Operation::SkipNeC(x, c) => lemma_register_respects(s, x, 0, c, 0, false),
        Operation::SkipEq(x, y) => lemma_register_respects(s, x, y, 0, 0, true),
        Operation::SetC(x, c) => lemma_register_respects(s, x, 0, c, 0, true),
        Operation::AddC(x, c) => lemma_register_respects(
            s,
            x,
            0,
            wrapped(s.reg(x) + c),
            0,
            true,
        ),
        Operation::Assign(x, y) => lemma_register_respects(s, x, y, 0, 0, true),
        Operation::Or(x, y) => lemma_register_respects(s, x, y, s.reg(x) | s.reg(y), 0, true),
        Operation::And(x, y) => lemma_register_respects(s, x, y, s.reg(x) & s.reg(y), 0, true),
        Operation::Xor(x, y) => lemma_register_respects(s, x, y, s.reg(x) ^ s.reg(y), 0, true),
        Operation::Add(x, y) => {
            assert(respects(s, s.add_registers(x, y).0));
        },
        Operation::Sub(x, y) => {
            assert(respects(s, s.subtract(x, y, s.reg(x), s.reg(y)).0));
        },
        Operation::Shr(x, y) => {
            assert(respects(s, s.shift_right(x, y).0));
        },
        Operation::SubRev(x, y) => {
            assert(respects(s, s.subtract(x, y, s.reg(y), s.reg(x)).0));
        },
        Operation::Shl(x, y) => {
            assert(respects(s, s.shift_left(x, y).0));
        },
        Operation::SkipNe(x, y) => lemma_register_respects(s, x, y, 0, 0, false),
        Operation::SetIC(c) => lemma_flow_respects(s, c as int, 1, false),
        Operation::JumpV0C(c) => lemma_flow_respects(s, s.reg(0) + c, 1, false),
        Operation::RandC(x, c) => lemma_register_respects(s, x, 0, random & c, 0, true),
        Operation::DrawC(x, y, n) => lemma_draw_sprite_respects(s, x, y, n),
        Operation::SkipEqKey(x) => lemma_register_respects(s, x, 0, 0, 0, true),
        Operation::SkipNeKey(x) => lemma_register_respects(s, x, 0, 0, 0, false),
        Operation::GetDelayTimer(x) => lemma_register_respects(s, x, 0, s.delay_timer, 0, true),
        Operation::GetKey(x) => lemma_register_respects(s, x, 0, 0, 0, true),
        Operation::SetDelayTimer(x) => lemma_register_respects(s, x, 0, 0, 0, true),
        Operation::SetSoundTimer(x) => lemma_register_respects(s, x, 0, 0, 0, true),
        Operation::AddI(x) => lemma_index_respects(s, x),
        Operation::SetIFont(x) => lemma_index_respects(s, x),
        Operation::Bcd(x) => lemma_transfer_respects(s, x),
        Operation::Store(x) => lemma_transfer_respects(s, x),
        Operation::Restore(x) => lemma_transfer_respects(s, x),
        Operation::Unknown(_) => lemma_flow_respects(s, 0, 1, false),
    }
}

/// A step on a well-formed state leaves a well-formed state, whether it
/// succeeds or fails, and leaves alone what no operation touches.
pub proof fn law_step_respects_state(s: State, random: u8)
    requires
        s.wf(),
    ensures
        respects(s, s.step(random).0),
{
    if s.pc + 1 < MEMORY_SIZE {
        law_execute_respects_state(s, decode(s.word_at_pc()), random);
    }
}

/// An operation whose operands are in range never fails for want of a
/// register.
pub proof fn law_operands_in_range_find_registers(s: State, operation: Operation, random: u8)
    requires
        s.wf(),
        operands_in_range(operation),
    ensures
        s.execute(operation, random).1 != Err::<(), MachineError>(
            MachineError::RegisterIndexOverflow,
        ),
{
}

/// A step never fails for want of a register: the decoder yields register
/// indices of four bits.
pub proof fn law_step_finds_registers(s: State, random: u8)
    requires
        s.wf(),
    ensures
        s.step(random).1 != Err::<(), MachineError>(MachineError::RegisterIndexOverflow),
{
    if s.pc + 1 < MEMORY_SIZE {
        law_decoded_operands_in_range(s.word_at_pc());
        law_operands_in_range_find_registers(s, decode(s.word_at_pc()), random);
    }
}

/// A key event on a well-formed state leaves a well-formed state, and
/// touches nothing but the key flags, the key wait and the running flag.
pub proof fn law_key_event_respects_state(s: State, event: KeyEvent)
    requires
        s.wf(),
        event.valid(),
    ensures
        s.after_key_event(event).wf(),
        s.after_key_event(event) == (State {
            keys: s.after_key_event(event).keys,
            key_wait: s.after_key_event(event).key_wait,
            running: s.after_key_event(event).running,
            ..s
        }),
{
}

/// Outside a key wait, key events leave the key wait alone: a state that
/// executes instructions still does so after any key event.
pub proof fn law_key_event_outside_wait(s: State, event: KeyEvent)
    requires
        s.can_step(),
    ensures
        s.after_key_event(event).key_wait == s.key_wait,
{
}

/// The key wait, from start to end. With no wait pending, the key wait
/// instruction starts one and stays where it is; the machine stops executing
/// instructions. A press of key `k` is recorded, and the machine still waits.
/// The release of `k` completes the wait. The key wait instruction then
/// stores `k` in its register, moves on to the next instruction, and no wait
/// is pending any more.
pub proof fn law_key_wait_round_trip(s: State, x: u8, k: u8, random: u8)
    requires
        s.wf(),
        s.key_wait is Idle,
        x < REGISTER_COUNT,
        k < KEY_COUNT,
        s.pc + 2 < MEMORY_SIZE,
    ensures
        ({
            let (paused, first) = s.execute(Operation::GetKey(x), random);
            let pressed = paused.after_key_event(KeyEvent::Pressed(Key::Num(k)));
            let released = pressed.after_key_event(KeyEvent::Released(Key::Num(k)));
            let (resumed, second) = released.execute(Operation::GetKey(x), random);
            &&& first.is_ok()
            &&& paused.key_wait is Paused
            &&& paused.pc == s.pc
            &&& !paused.can_step()
            &&& pressed.key_wait == GetKeyState::Pressed(k)
            &&& !pressed.can_step()
            &&& released.key_wait == GetKeyState::Released(k)
            &&& released.can_step()
            &&& second.is_ok()
            &&& resumed.key_wait is Idle
            &&& resumed.reg(x) == k
            &&& resumed.pc == s.pc + 2
        }),
{
}

/// While a key wait is in progress the key wait instruction changes
/// nothing, so a machine that is stepped all the same stays where it is.
pub proof fn law_key_wait_holds_the_machine(s: State, x: u8, random: u8)
    requires
        !s.can_step(),
    ensures
        s.execute(Operation::GetKey(x), random) == (s, Ok::<(), MachineError>(())),
{
}

/// During a key wait only the release of the very key that was pressed
/// completes the wait.
pub proof fn law_key_wait_needs_matching_release(s: State, k: u8, other: u8)
    requires
        s.key_wait == GetKeyState::Pressed(k),
        other != k,
    ensures
        s.after_key_event(KeyEvent::Released(Key::Num(other))).key_wait == GetKeyState::Pressed(k),
        s.after_key_event(KeyEvent::Pressed(Key::Num(other))).key_wait == GetKeyState::Pressed(k),
{
}

/// The state after executing the instructions at the program counter one
/// after the other, one for each byte of `randoms`, which supplies the
/// random byte of each step. A failed step does not stop the sequence.
pub open spec fn after_steps(s: State, randoms: Seq<u8>) -> State
    decreases randoms.len(),
{
    if randoms.len() == 0 {
        s
    } else {
        after_steps(s, randoms.drop_last()).step(randoms.last()).0
    }
}

/// However many instructions are executed, they leave the tick clock alone
/// and the state well formed.
pub proof fn law_steps_leave_clock(s: State, randoms: Seq<u8>)
    requires
        s.wf(),
    ensures
        respects(s, after_steps(s, randoms)),
    decreases randoms.len(),
{
    if randoms.len() > 0 {
        law_steps_leave_clock(s, randoms.drop_last());
        law_step_respects_state(after_steps(s, randoms.drop_last()), randoms.last());
    }
}

/// The timers tick at their own pace. Once the tick interval has passed
/// since the last tick, serving the timers performs a tick, however many
/// instructions were executed in between, none or many: both timers count
/// down by one, not below zero, from whatever the instructions left in them.
pub proof fn law_timers_tick_at_their_own_pace(s: State, randoms: Seq<u8>, now: u128)
    requires
        s.wf(),
        now >= s.tick_at,
        now - s.tick_at >= TICK_RATE,
    ensures
        ({
            let before = after_steps(s, randoms);
            let after = before.timers_served(now);
            &&& before.tick_due(now)
            &&& after.tick_at == now
            &&& s.tick_count < u128::MAX ==> after.tick_count == s.tick_count + 1
            &&& after.delay_timer == counted_down(before.delay_timer)
            &&& after.sound_timer == counted_down(before.sound_timer)
        }),
{
    law_steps_leave_clock(s, randoms);
}

/// Before the tick interval has passed, serving the timers changes nothing.
pub proof fn law_timers_wait_for_their_tick(s: State, now: u128)
    requires
        now < s.tick_at + TICK_RATE,
    ensures
        s.timers_served(now) == s,
{
}

/// A timer never counts below zero, and a tick takes at most one from it.
pub proof fn law_timers_stop_at_zero(s: State, now: u128)
    ensures
        s.ticked(now).delay_timer <= s.delay_timer,
        s.delay_timer - s.ticked(now).delay_timer <= 1,
        s.delay_timer == 0 ==> s.ticked(now).delay_timer == 0,
        s.ticked(now).sound_timer <= s.sound_timer,
        s.sound_timer - s.ticked(now).sound_timer <= 1,
        s.sound_timer == 0 ==> s.ticked(now).sound_timer == 0,
{
}

/// What was loaded can be read back, and the rest of memory is as it was.
pub proof fn law_load_reads_back(s: State, address: int, data: Seq<u8>)
    requires
        s.wf(),
        0 <= address,
        State::can_load(address, data.len() as int),
    ensures
        s.load(address, data).1.is_ok(),
        s.load(address, data).0.wf(),
        forall|i: int|
            0 <= i < data.len() ==> #[trigger] s.load(address, data).0.memory[address + i]
                == data[i],
        forall|a: int|
            0 <= a < MEMORY_SIZE && !(address <= a < address + data.len()) ==> #[trigger] s.load(
                address,
                data,
            ).0.memory[a] == s.memory[a],
{
}

/// A machine started after its cartridge was loaded begins at the
/// cartridge's first instruction.
pub proof fn law_start_at_cartridge(s: State, address: usize, data: Seq<u8>, now: u128)
    requires
        s.wf(),
        State::can_load(address as int, data.len() as int),
    ensures
        s.load_cartridge(address, data).0.started(now).pc == address,
        s.load_cartridge(address, data).0.started(now).running,
        s.load_cartridge(address, data).0.started(now).wf(),
{
}

/// The font instruction points the index register at the font address
/// times the successor of the digit in its register, and moves on; where
/// that is no address it fails with `IndexRegisterOverflow` and changes
/// nothing.
pub proof fn law_font_pointer(s: State, x: u8, random: u8)
    requires
        s.wf(),
        x < REGISTER_COUNT,
        s.pc + 2 < MEMORY_SIZE,
    ensures
        ({
            let target = s.font_address + s.reg(x) * s.font_address;
            let (after, result) = s.execute(Operation::SetIFont(x), random);
            &&& target < MEMORY_SIZE ==> result.is_ok() && after == (State {
                index: target as u16,
                pc: (s.pc + 2) as usize,
                ..s
            })
            &&& target >= MEMORY_SIZE ==> result == Err::<(), MachineError>(
                MachineError::IndexRegisterOverflow,
            ) && after == s
        }),
{
    assert(s.font_address + s.reg(x) * s.font_address == s.font_address * (s.reg(x) + 1))
        by (nonlinear_arith);
}

/// A sum of two registers carries exactly when the wrapped sum is less than
/// the first operand.
pub proof fn law_carry_shows_in_the_sum(a: u8, b: u8)
    ensures
        a + b > 0xFF <==> wrapped(a + b) < a,
        a + b <= 0xFF ==> wrapped(a + b) == a + b,
        a + b > 0xFF ==> wrapped(a + b) == a + b - 0x100,
{
}

/// A difference of two registers borrows exactly when the wrapped
/// difference is greater than the minuend.
pub proof fn law_borrow_shows_in_the_difference(a: u8, b: u8)
    ensures
        a < b <==> wrapped(a - b) > a,
        a >= b ==> wrapped(a - b) == a - b,
        a < b ==> wrapped(a - b) == a - b + 0x100,
{
}

/// The shifts move bits: halving is a shift to the right that drops the
/// least significant bit, doubling modulo 256 a shift to the left that drops
/// the most significant bit, and the flag receives the bit dropped.
pub proof fn law_shifts_move_bits(v: u8)
    ensures
        (v / 2) as u8 == v >> 1,
        (v % 2) as u8 == v & 1,
        wrapped(v * 2) == (v << 1),
        (v / 0x80) as u8 == v >> 7,
{
    assert(v / 2 == v >> 1) by (bit_vector);
    assert(v % 2 == v & 1) by (bit_vector);
    assert((v * 2) % 256 == (v << 1)) by (bit_vector);
    assert(v / 0x80 == v >> 7) by (bit_vector);
}

/// The decimal digits of a byte are digits, and they make up the byte.
pub proof fn law_decimal_digits_make_up_the_value(value: u8)
    ensures
        State::decimal_digits(value).len() == 3,
        forall|i: int| 0 <= i < 3 ==> #[trigger] State::decimal_digits(value)[i] < 10,
        State::decimal_digits(value)[0] * 100 + State::decimal_digits(value)[1] * 10
            + State::decimal_digits(value)[2] == value,
{
}

/// A draw hits only pixels of the display, and only those under the sprite:
/// at most eight columns from the sprite's left column on and `height` rows
/// from its top row on.
pub proof fn law_sprite_hits_inside(s: State, x: int, y: int, height: u8, px: int, py: int)
    requires
        s.wf(),
        0 <= x,
        0 <= y,
        s.sprite_hits(x, y, height, px, py),
    ensures
        0 <= State::sprite_left(x) <= px < DISPLAY_WIDTH,
        px < State::sprite_left(x) + 8,
        0 <= State::sprite_top(y) <= py < DISPLAY_HEIGHT,
        py < State::sprite_top(y) + height,
{
}

/// A draw clips and does not wrap: every pixel left of the sprite's left
/// column or above its top row stays as it was, and so does every pixel
/// eight or more columns to the right or `height` or more rows below. A
/// sprite that reaches over the right or bottom edge loses what lies
/// beyond; nothing of it appears at the opposite edge.
pub proof fn law_draw_clips(s: State, x: int, y: int, height: u8, px: int, py: int)
    requires
        s.wf(),
        0 <= x,
        0 <= y,
        0 <= px < DISPLAY_WIDTH,
        0 <= py < DISPLAY_HEIGHT,
        px < State::sprite_left(x) || px >= State::sprite_left(x) + 8 || py < State::sprite_top(y)
            || py >= State::sprite_top(y) + height,
    ensures
        s.draw(x, y, height).0.pixel(px, py) == s.pixel(px, py),
{
}

/// A draw flips exactly the pixels under set sprite pixels.
pub proof fn law_draw_flips_hits(s: State, x: int, y: int, height: u8, px: int, py: int)
    requires
        s.wf(),
        0 <= px < DISPLAY_WIDTH,
        0 <= py < DISPLAY_HEIGHT,
    ensures
        s.draw(x, y, height).0.pixel(px, py) == (s.pixel(px, py) != s.sprite_hits(
            x,
            y,
            height,
            px,
            py,
        )),
{
}

/// A draw leaves memory, the index register and the program counter alone,
/// so a second draw of the same sprite at the same place hits the same
/// pixels.
pub proof fn law_draw_keeps_sprite(s: State, x: int, y: int, height: u8)
    ensures
        s.draw(x, y, height).0.memory == s.memory,
        s.draw(x, y, height).0.index == s.index,
        s.draw(x, y, height).0.pc == s.pc,
        forall|px: int, py: int| #[trigger]
            s.draw(x, y, height).0.sprite_hits(x, y, height, px, py) == s.sprite_hits(
                x,
                y,
                height,
                px,
                py,
            ),
{
}

/// Drawing the same sprite twice at the same place restores the display.
/// The second draw reports a collision exactly if the sprite has a set
/// pixel over a pixel that was unset at first. In particular, a sprite that
/// shows at all, drawn twice over unset pixels, leaves them unset again and
/// sets the flag register to 1 the second time.
pub proof fn law_draw_twice_restores(s: State, x: int, y: int, height: u8)
    requires
        s.wf(),
        0 <= x,
        0 <= y,
    ensures
        ({
            let once = s.draw(x, y, height).0;
            let twice = once.draw(x, y, height).0;
            &&& twice.display == s.display
            &&& twice.reg(FLAG_REGISTER) == 1 <==> exists|px: int, py: int| #[trigger]
                s.sprite_hits(x, y, height, px, py) && !s.pixel(px, py)
            &&& (s.sprite_shows(x, y, height) && (forall|px: int, py: int| #[trigger]
                s.sprite_hits(x, y, height, px, py) ==> !s.pixel(px, py))) ==> {
                &&& once.reg(FLAG_REGISTER) == 0
                &&& twice.reg(FLAG_REGISTER) == 1
            }
        }),
{
    let once = s.draw(x, y, height).0;
    let twice = once.draw(x, y, height).0;
    law_draw_keeps_sprite(s, x, y, height);
    assert forall|py: int| 0 <= py < DISPLAY_HEIGHT implies #[trigger] twice.display[py]
        =~= s.display[py] by {
        assert forall|px: int| 0 <= px < DISPLAY_WIDTH implies #[trigger] twice.display[py][px]
            == s.display[py][px] by {
            assert(once.sprite_hits(x, y, height, px, py) == s.sprite_hits(x, y, height, px, py));
            assert(once.pixel(px, py) == (s.pixel(px, py) != s.sprite_hits(x, y, height, px, py)));
        }
    }
    assert(twice.display =~= s.display);
    if once.sprite_collides(x, y, height) {
        let (px, py) = choose|px: int, py: int| #[trigger]
            once.sprite_hits(x, y, height, px, py) && once.pixel(px, py);
        assert(s.sprite_hits(x, y, height, px, py));
        law_sprite_hits_inside(s, x, y, height, px, py);
        assert(!s.pixel(px, py));
    }
    if exists|px: int, py: int| #[trigger]
        s.sprite_hits(x, y, height, px, py) && !s.pixel(px, py) {
        let (px, py) = choose|px: int, py: int| #[trigger]
            s.sprite_hits(x, y, height, px, py) && !s.pixel(px, py);
        law_sprite_hits_inside(s, x, y, height, px, py);
        assert(once.sprite_hits(x, y, height, px, py) && once.pixel(px, py));
    }
    if s.sprite_shows(x, y, height) && (forall|px: int, py: int| #[trigger]
        s.sprite_hits(x, y, height, px, py) ==> !s.pixel(px, py)) {
        let (px, py) = choose|px: int, py: int| #[trigger] s.sprite_hits(x, y, height, px, py);
        assert(s.sprite_hits(x, y, height, px, py) && !s.pixel(px, py));
    }
}

/// The display becomes dirty only when a pixel changes: an operation that
/// finds the display clean and leaves it dirty has changed a pixel. (The
/// converse does not hold: clearing the display changes pixels and leaves
/// the dirty flag as it was.)
pub proof fn law_dirty_means_changed(s: State, operation: Operation, random: u8)
    requires
        s.wf(),
        !s.dirty,
        s.execute(operation, random).0.dirty,
    ensures
        operation is DrawC,
        exists|px: int, py: int|
            0 <= px < DISPLAY_WIDTH && 0 <= py < DISPLAY_HEIGHT && #[trigger] s.execute(
                operation,
                random,
            ).0.pixel(px, py) != s.pixel(px, py),
{
    match operation {
        Operation::DrawC(x, y, n) => {
            if x < REGISTER_COUNT && y < REGISTER_COUNT {
                let gx = s.reg(x) as int;
                let gy = s.reg(y) as int;
                let drawn = s.draw(gx, gy, n).0;
                assert(s.execute(operation, random).0.display == drawn.display);
                assert(drawn.dirty);
                let (px, py) = choose|px: int, py: int| #[trigger] s.sprite_hits(gx, gy, n, px, py);
                law_sprite_hits_inside(s, gx, gy, n, px, py);
                assert(drawn.pixel(px, py) != s.pixel(px, py));
                assert(s.execute(operation, random).0.pixel(px, py) != s.pixel(px, py));
            }
        },
        Operation::Add(x, y) => {
            assert(!s.add_registers(x, y).0.dirty);
        },
        Operation::Sub(x, y) => {
            assert(!s.subtract(x, y, s.reg(x), s.reg(y)).0.dirty);
        },
        Operation::SubRev(x, y) => {
            assert(!s.subtract(x, y, s.reg(y), s.reg(x)).0.dirty);
        },
        Operation::Shr(x, y) => {
            assert(!s.shift_right(x, y).0.dirty);
        },
        Operation::Shl(x, y) => {
            assert(!s.shift_left(x, y).0.dirty);
        },
        _ => {},
    }
}

} // verus!
