use chip8::engine::Engine;
use chip8::opcode::Operation;
use chip8::state::MachineError;

#[test]
fn jump_sets_the_program_counter() {
    let mut engine = Engine::new(0);
    engine.execute(Operation::JumpC(0xABC), 0).unwrap();
    assert_eq!(engine.pc(), 0xABC);
}

#[test]
fn jump_beyond_memory_is_an_error() {
    let mut engine = Engine::new(0);
    assert_eq!(
        engine.execute(Operation::JumpC(0x1000), 0),
        Err(MachineError::ProgramCounterOverflow)
    );
    assert_eq!(engine.pc(), 0);
}

#[test]
fn call_pushes_the_return_address() {
    let mut engine = Engine::new(0);
    engine.execute(Operation::JumpC(0x200), 0).unwrap();
    engine.execute(Operation::CallC(0x300), 0).unwrap();
    assert_eq!(engine.pc(), 0x300);
    assert_eq!(engine.stack_depth(), 1);
    engine.execute(Operation::Return, 0).unwrap();
    assert_eq!(engine.pc(), 0x202);
    assert_eq!(engine.stack_depth(), 0);
}

#[test]
fn return_with_an_empty_stack_is_an_error() {
    let mut engine = Engine::new(0);
    assert_eq!(engine.execute(Operation::Return, 0), Err(MachineError::StackUnderflow));
    assert_eq!(engine.pc(), 0);
}

#[test]
fn nested_calls_return_in_reverse_order() {
    let mut engine = Engine::new(0);
    engine.execute(Operation::CallC(0x100), 0).unwrap();
    engine.execute(Operation::CallC(0x200), 0).unwrap();
    assert_eq!(engine.stack_depth(), 2);
    engine.execute(Operation::Return, 0).unwrap();
    assert_eq!(engine.pc(), 0x102);
    engine.execute(Operation::Return, 0).unwrap();
    assert_eq!(engine.pc(), 0x002);
}

#[test]
fn skips_advance_by_four_or_two() {
    let mut engine = Engine::new(0);
    engine.set_register(1, 5).unwrap();
    engine.set_register(2, 5).unwrap();
    engine.set_register(3, 6).unwrap();
    engine.execute(Operation::SkipEqC(1, 5), 0).unwrap();
    assert_eq!(engine.pc(), 4);
    engine.execute(Operation::SkipEqC(1, 6), 0).unwrap();
    assert_eq!(engine.pc(), 6);
    engine.execute(Operation::SkipNeC(1, 6), 0).unwrap();
    assert_eq!(engine.pc(), 10);
    engine.execute(Operation::SkipNeC(1, 5), 0).unwrap();
    assert_eq!(engine.pc(), 12);
    engine.execute(Operation::SkipEq(1, 2), 0).unwrap();
    assert_eq!(engine.pc(), 16);
    engine.execute(Operation::SkipEq(1, 3), 0).unwrap();
    assert_eq!(engine.pc(), 18);
    engine.execute(Operation::SkipNe(1, 3), 0).unwrap();
    assert_eq!(engine.pc(), 22);
    engine.execute(Operation::SkipNe(1, 2), 0).unwrap();
    assert_eq!(engine.pc(), 24);
}

#[test]
fn jump_with_offset_adds_the_first_register() {
    let mut engine = Engine::new(0);
    engine.set_register(0, 0x10).unwrap();
    engine.execute(Operation::JumpV0C(0x200), 0).unwrap();
    assert_eq!(engine.pc(), 0x210);
    engine.set_register(0, 0xFF).unwrap();
    assert_eq!(
        engine.execute(Operation::JumpV0C(0xF01), 0),
        Err(MachineError::ProgramCounterOverflow)
    );
}

#[test]
fn advancing_beyond_memory_is_an_error() {
    let mut engine = Engine::new(0);
    engine.execute(Operation::JumpC(0xFFE), 0).unwrap();
    assert_eq!(
        engine.execute(Operation::SetC(1, 1), 0),
        Err(MachineError::ProgramCounterOverflow)
    );
    assert_eq!(engine.pc(), 0xFFE);
    assert_eq!(engine.get_register(1), Ok(1));
    engine.execute(Operation::JumpC(0xFFC), 0).unwrap();
    engine.execute(Operation::SetC(1, 1), 0).unwrap();
    assert_eq!(engine.pc(), 0xFFE);
}

#[test]
fn a_skip_needs_room_for_two_instructions() {
    let mut engine = Engine::new(0);
    engine.execute(Operation::JumpC(0xFFC), 0).unwrap();
    assert_eq!(
        engine.execute(Operation::SkipEqC(1, 0), 0),
        Err(MachineError::ProgramCounterOverflow)
    );
}

#[test]
fn unknown_is_a_no_op() {
    let mut engine = Engine::new(0);
    engine.execute(Operation::Unknown(0x5678), 0).unwrap();
    assert_eq!(engine.pc(), 2);
    for i in 0..16u8 {
        assert_eq!(engine.get_register(i), Ok(0));
    }
}

#[test]
fn call_sys_is_a_no_op() {
    let mut engine = Engine::new(0);
    engine.execute(Operation::CallSysC(0x123), 0).unwrap();
    assert_eq!(engine.pc(), 2);
    assert_eq!(engine.stack_depth(), 0);
}

#[test]
fn step_fetches_most_significant_byte_first() {
    let mut engine = Engine::new(0);
    engine.load_cartridge(0x200, &[0x61, 0x2A, 0x12, 0x00]).unwrap();
    engine.start(0);
    assert!(engine.is_running());
    assert_eq!(engine.pc(), 0x200);
    assert_eq!(engine.get_operation(), Ok(Operation::SetC(1, 0x2A)));
    engine.step(0).unwrap();
    assert_eq!(engine.get_register(1), Ok(0x2A));
    assert_eq!(engine.pc(), 0x202);
    engine.step(0).unwrap();
    assert_eq!(engine.pc(), 0x200);
}

#[test]
fn step_at_the_last_byte_is_an_error() {
    let mut engine = Engine::new(0);
    engine.execute(Operation::JumpC(0xFFF), 0).unwrap();
    assert_eq!(engine.step(0), Err(MachineError::MemoryOverflow));
    assert_eq!(engine.get_operation(), Err(MachineError::MemoryOverflow));
}

#[test]
fn a_call_beyond_memory_fails_after_the_push() {
    let mut engine = Engine::new(0);
    engine.execute(Operation::JumpC(0x200), 0).unwrap();
    assert_eq!(
        engine.execute(Operation::CallC(0x1000), 0),
        Err(MachineError::ProgramCounterOverflow)
    );
    assert_eq!(engine.stack_depth(), 1);
    assert_eq!(engine.pc(), 0x202);
}

#[test]
fn a_call_at_the_end_of_memory_fails_before_the_push() {
    let mut engine = Engine::new(0);
    engine.execute(Operation::JumpC(0xFFE), 0).unwrap();
    assert_eq!(
        engine.execute(Operation::CallC(0x300), 0),
        Err(MachineError::ProgramCounterOverflow)
    );
    assert_eq!(engine.stack_depth(), 0);
    assert_eq!(engine.pc(), 0xFFE);
}
