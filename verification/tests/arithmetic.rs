use chip8::engine::Engine;
use chip8::opcode::Operation;
use chip8::state::MachineError;

fn engine_with(x: u8, xv: u8, y: u8, yv: u8) -> Engine {
    let mut engine = Engine::new(0);
    engine.set_register(x, xv).unwrap();
    engine.set_register(y, yv).unwrap();
    engine
}

#[test]
fn add_with_carry() {
    let mut engine = engine_with(1, 0xFF, 2, 0x01);
    engine.execute(Operation::Add(1, 2), 0).unwrap();
    assert_eq!(engine.get_register(1), Ok(0x00));
    assert_eq!(engine.get_register(0xF), Ok(1));
    assert_eq!(engine.pc(), 2);
}

#[test]
fn add_without_carry() {
    let mut engine = engine_with(1, 0x01, 2, 0x01);
    engine.set_register(0xF, 1).unwrap();
    engine.execute(Operation::Add(1, 2), 0).unwrap();
    assert_eq!(engine.get_register(1), Ok(0x02));
    assert_eq!(engine.get_register(0xF), Ok(0));
}

#[test]
fn sub_without_underflow() {
    let mut engine = engine_with(1, 0x05, 2, 0x03);
    engine.execute(Operation::Sub(1, 2), 0).unwrap();
    assert_eq!(engine.get_register(1), Ok(0x02));
    assert_eq!(engine.get_register(0xF), Ok(1));
}

#[test]
fn sub_with_underflow() {
    let mut engine = engine_with(1, 0x03, 2, 0x05);
    engine.execute(Operation::Sub(1, 2), 0).unwrap();
    assert_eq!(engine.get_register(1), Ok(0xFE));
    assert_eq!(engine.get_register(0xF), Ok(0));
}

#[test]
fn sub_of_equal_values_sets_the_flag() {
    let mut engine = engine_with(1, 0x07, 2, 0x07);
    engine.execute(Operation::Sub(1, 2), 0).unwrap();
    assert_eq!(engine.get_register(1), Ok(0x00));
    assert_eq!(engine.get_register(0xF), Ok(1));
}

#[test]
fn sub_reversed() {
    let mut engine = engine_with(1, 0x03, 2, 0x05);
    engine.execute(Operation::SubRev(1, 2), 0).unwrap();
    assert_eq!(engine.get_register(1), Ok(0x02));
    assert_eq!(engine.get_register(0xF), Ok(1));

    let mut engine = engine_with(1, 0x05, 2, 0x03);
    engine.execute(Operation::SubRev(1, 2), 0).unwrap();
    assert_eq!(engine.get_register(1), Ok(0xFE));
    assert_eq!(engine.get_register(0xF), Ok(0));
}

#[test]
fn shr_takes_its_operand_from_y() {
    let mut engine = engine_with(1, 0xF0, 2, 0x03);
    engine.execute(Operation::Shr(1, 2), 0).unwrap();
    assert_eq!(engine.get_register(1), Ok(0x01));
    assert_eq!(engine.get_register(2), Ok(0x03));
    assert_eq!(engine.get_register(0xF), Ok(1));

    let mut engine = engine_with(1, 0xF0, 2, 0x02);
    engine.execute(Operation::Shr(1, 2), 0).unwrap();
    assert_eq!(engine.get_register(1), Ok(0x01));
    assert_eq!(engine.get_register(0xF), Ok(0));
}

#[test]
fn shl_takes_its_operand_from_y() {
    let mut engine = engine_with(1, 0x00, 2, 0x81);
    engine.execute(Operation::Shl(1, 2), 0).unwrap();
    assert_eq!(engine.get_register(1), Ok(0x02));
    assert_eq!(engine.get_register(0xF), Ok(1));

    let mut engine = engine_with(1, 0x00, 2, 0x41);
    engine.execute(Operation::Shl(1, 2), 0).unwrap();
    assert_eq!(engine.get_register(1), Ok(0x82));
    assert_eq!(engine.get_register(0xF), Ok(0));
}

#[test]
fn bitwise_operations_clear_the_flag() {
    let mut engine = engine_with(1, 0b1100, 2, 0b1010);
    engine.set_register(0xF, 1).unwrap();
    engine.execute(Operation::Or(1, 2), 0).unwrap();
    assert_eq!(engine.get_register(1), Ok(0b1110));
    assert_eq!(engine.get_register(0xF), Ok(0));

    let mut engine = engine_with(1, 0b1100, 2, 0b1010);
    engine.set_register(0xF, 1).unwrap();
    engine.execute(Operation::And(1, 2), 0).unwrap();
    assert_eq!(engine.get_register(1), Ok(0b1000));
    assert_eq!(engine.get_register(0xF), Ok(0));

    let mut engine = engine_with(1, 0b1100, 2, 0b1010);
    engine.set_register(0xF, 1).unwrap();
    engine.execute(Operation::Xor(1, 2), 0).unwrap();
    assert_eq!(engine.get_register(1), Ok(0b0110));
    assert_eq!(engine.get_register(0xF), Ok(0));
}

#[test]
fn the_flag_wins_when_the_target_is_the_flag_register() {
    let mut engine = engine_with(0xF, 0xFF, 2, 0x02);
    engine.execute(Operation::Add(0xF, 2), 0).unwrap();
    assert_eq!(engine.get_register(0xF), Ok(1));
}

#[test]
fn set_and_add_constant_wrap() {
    let mut engine = Engine::new(0);
    engine.execute(Operation::SetC(3, 0xFE), 0).unwrap();
    assert_eq!(engine.get_register(3), Ok(0xFE));
    engine.execute(Operation::AddC(3, 0x03), 0).unwrap();
    assert_eq!(engine.get_register(3), Ok(0x01));
    assert_eq!(engine.get_register(0xF), Ok(0));
    assert_eq!(engine.pc(), 4);
}

#[test]
fn assign_copies_a_register() {
    let mut engine = engine_with(1, 0x11, 2, 0x22);
    engine.execute(Operation::Assign(1, 2), 0).unwrap();
    assert_eq!(engine.get_register(1), Ok(0x22));
    assert_eq!(engine.get_register(2), Ok(0x22));
}

#[test]
fn random_is_masked() {
    let mut engine = Engine::new(0);
    engine.execute(Operation::RandC(4, 0x0F), 0xA7).unwrap();
    assert_eq!(engine.get_register(4), Ok(0x07));
    engine.execute(Operation::RandC(4, 0x00), 0xFF).unwrap();
    assert_eq!(engine.get_register(4), Ok(0x00));
}

#[test]
fn a_register_beyond_the_last_is_an_error() {
    let mut engine = Engine::new(0);
    assert_eq!(
        engine.execute(Operation::SetC(16, 1), 0),
        Err(MachineError::RegisterIndexOverflow)
    );
    assert_eq!(
        engine.execute(Operation::Add(1, 16), 0),
        Err(MachineError::RegisterIndexOverflow)
    );
    assert_eq!(
        engine.execute(Operation::Shr(16, 1), 0),
        Err(MachineError::RegisterIndexOverflow)
    );
    assert_eq!(engine.get_register(16), Err(MachineError::RegisterIndexOverflow));
    assert_eq!(engine.set_register(200, 1), Err(MachineError::RegisterIndexOverflow));
    assert_eq!(engine.pc(), 0);
}

#[test]
fn bcd_stores_three_digits() {
    let mut engine = Engine::new(0);
    engine.set_register(5, 254).unwrap();
    engine.execute(Operation::SetIC(0x300), 0).unwrap();
    engine.execute(Operation::Bcd(5), 0).unwrap();
    assert_eq!(engine.get_memory(0x300), Ok(2));
    assert_eq!(engine.get_memory(0x301), Ok(5));
    assert_eq!(engine.get_memory(0x302), Ok(4));
    assert_eq!(engine.get_register_i(), 0x300);
}

#[test]
fn bcd_at_the_end_of_memory_stores_what_fits() {
    let mut engine = Engine::new(0);
    engine.set_register(5, 123).unwrap();
    engine.execute(Operation::SetIC(0xFFE), 0).unwrap();
    assert_eq!(engine.execute(Operation::Bcd(5), 0), Err(MachineError::MemoryOverflow));
    assert_eq!(engine.get_memory(0xFFE), Ok(1));
    assert_eq!(engine.get_memory(0xFFF), Ok(2));
}

#[test]
fn store_moves_the_index_register() {
    let mut engine = Engine::new(0);
    for i in 0..4u8 {
        engine.set_register(i, 10 + i).unwrap();
    }
    engine.execute(Operation::SetIC(0x400), 0).unwrap();
    engine.execute(Operation::Store(2), 0).unwrap();
    assert_eq!(engine.get_memory(0x400), Ok(10));
    assert_eq!(engine.get_memory(0x401), Ok(11));
    assert_eq!(engine.get_memory(0x402), Ok(12));
    assert_eq!(engine.get_memory(0x403), Ok(0));
    assert_eq!(engine.get_register_i(), 0x403);
}

#[test]
fn restore_moves_the_index_register() {
    let mut engine = Engine::new(0);
    engine.load(0x400, &[7, 8, 9, 10]).unwrap();
    engine.execute(Operation::SetIC(0x400), 0).unwrap();
    engine.execute(Operation::Restore(2), 0).unwrap();
    assert_eq!(engine.get_register(0), Ok(7));
    assert_eq!(engine.get_register(1), Ok(8));
    assert_eq!(engine.get_register(2), Ok(9));
    assert_eq!(engine.get_register(3), Ok(0));
    assert_eq!(engine.get_register_i(), 0x403);
}

#[test]
fn store_that_ends_behind_memory_fails_on_the_index_register() {
    let mut engine = Engine::new(0);
    engine.execute(Operation::SetIC(0xFFF), 0).unwrap();
    engine.set_register(0, 0xAB).unwrap();
    assert_eq!(
        engine.execute(Operation::Store(0), 0),
        Err(MachineError::IndexRegisterOverflow)
    );
    assert_eq!(engine.get_memory(0xFFF), Ok(0xAB));
    assert_eq!(engine.get_register_i(), 0xFFF);
}

#[test]
fn store_beyond_memory_fails_on_memory() {
    let mut engine = Engine::new(0);
    engine.execute(Operation::SetIC(0xFFF), 0).unwrap();
    assert_eq!(engine.execute(Operation::Store(1), 0), Err(MachineError::MemoryOverflow));
    assert_eq!(engine.execute(Operation::Restore(1), 0), Err(MachineError::MemoryOverflow));
}

#[test]
fn store_beyond_the_registers_fails_on_the_register() {
    let mut engine = Engine::new(0);
    engine.execute(Operation::SetIC(0x100), 0).unwrap();
    assert_eq!(
        engine.execute(Operation::Store(16), 0),
        Err(MachineError::RegisterIndexOverflow)
    );
    assert_eq!(
        engine.execute(Operation::Restore(16), 0),
        Err(MachineError::RegisterIndexOverflow)
    );
}

#[test]
fn add_to_index_leaves_the_flag_alone() {
    let mut engine = Engine::new(0);
    engine.set_register(0xF, 1).unwrap();
    engine.set_register(1, 0x10).unwrap();
    engine.execute(Operation::SetIC(0x100), 0).unwrap();
    engine.execute(Operation::AddI(1), 0).unwrap();
    assert_eq!(engine.get_register_i(), 0x110);
    assert_eq!(engine.get_register(0xF), Ok(1));
}

#[test]
fn index_register_overflow() {
    let mut engine = Engine::new(0);
    engine.set_register(1, 0x01).unwrap();
    engine.execute(Operation::SetIC(0xFFF), 0).unwrap();
    assert_eq!(
        engine.execute(Operation::AddI(1), 0),
        Err(MachineError::IndexRegisterOverflow)
    );
    assert_eq!(engine.get_register_i(), 0xFFF);
    assert_eq!(
        engine.execute(Operation::SetIC(0x1000), 0),
        Err(MachineError::IndexRegisterOverflow)
    );
    assert_eq!(engine.set_register_i(0x1000), Err(MachineError::IndexRegisterOverflow));
    assert_eq!(engine.set_register_i(0xFFF), Ok(()));
}

#[test]
fn font_pointer_multiplies_the_font_address() {
    let mut engine = Engine::new(0);
    engine.load_font(0x50, &[0u8; 80]).unwrap();
    engine.set_register(2, 3).unwrap();
    engine.execute(Operation::SetIFont(2), 0).unwrap();
    assert_eq!(engine.get_register_i(), 0x50 * 4);
}

#[test]
fn font_pointer_beyond_memory_is_an_error() {
    let mut engine = Engine::new(0);
    engine.load_font(0x50, &[0u8; 80]).unwrap();
    engine.set_register(2, 0xFF).unwrap();
    assert_eq!(
        engine.execute(Operation::SetIFont(2), 0),
        Err(MachineError::IndexRegisterOverflow)
    );
}

#[test]
fn font_pointer_of_4096_or_more_is_an_error_however_large() {
    let mut engine = Engine::new(0);
    engine.load_font(0x101, &[0u8; 80]).unwrap();
    engine.set_register(2, 0xFF).unwrap();
    engine.set_register_i(0x123).unwrap();
    assert_eq!(
        engine.execute(Operation::SetIFont(2), 0),
        Err(MachineError::IndexRegisterOverflow)
    );
    assert_eq!(engine.get_register_i(), 0x123);
    assert_eq!(engine.pc(), 0);

    let mut engine = Engine::new(0);
    engine.load_font(2048, &[0u8; 80]).unwrap();
    engine.set_register(2, 31).unwrap();
    engine.set_register_i(0x123).unwrap();
    assert_eq!(
        engine.execute(Operation::SetIFont(2), 0),
        Err(MachineError::IndexRegisterOverflow)
    );
    assert_eq!(engine.get_register_i(), 0x123);
    engine.set_register(2, 1).unwrap();
    assert_eq!(
        engine.execute(Operation::SetIFont(2), 0),
        Err(MachineError::IndexRegisterOverflow)
    );
    engine.set_register(2, 0).unwrap();
    assert_eq!(engine.execute(Operation::SetIFont(2), 0), Ok(()));
    assert_eq!(engine.get_register_i(), 2048);
    assert_eq!(engine.pc(), 2);
}

#[test]
fn font_pointer_just_inside_memory() {
    let mut engine = Engine::new(0);
    engine.load_font(0x333, &[0u8; 80]).unwrap();
    engine.set_register(2, 4).unwrap();
    engine.execute(Operation::SetIFont(2), 0).unwrap();
    assert_eq!(engine.get_register_i(), 0xFFF);
    engine.set_register(2, 5).unwrap();
    assert_eq!(
        engine.execute(Operation::SetIFont(2), 0),
        Err(MachineError::IndexRegisterOverflow)
    );
    assert_eq!(engine.get_register_i(), 0xFFF);
}

#[test]
fn timers_are_copied_to_and_from_registers() {
    let mut engine = Engine::new(0);
    engine.set_register(1, 42).unwrap();
    engine.execute(Operation::SetDelayTimer(1), 0).unwrap();
    engine.execute(Operation::SetSoundTimer(1), 0).unwrap();
    assert_eq!(engine.delay_timer(), 42);
    assert_eq!(engine.sound_timer(), 42);
    engine.execute(Operation::GetDelayTimer(2), 0).unwrap();
    assert_eq!(engine.get_register(2), Ok(42));
}
