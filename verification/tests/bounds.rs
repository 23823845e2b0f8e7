use chip8::engine::Engine;
use chip8::state::MachineError;

#[test]
fn load_up_to_the_last_but_one_byte_succeeds() {
    let mut engine = Engine::new(0);
    let data = vec![0xAAu8; 0xDFF];
    assert_eq!(engine.load(0x200, &data), Ok(()));
    assert_eq!(engine.get_memory(0x200), Ok(0xAA));
    assert_eq!(engine.get_memory(0xFFE), Ok(0xAA));
    assert_eq!(engine.get_memory(0xFFF), Ok(0));
    assert_eq!(engine.get_memory(0x1FF), Ok(0));
}

#[test]
fn load_that_ends_at_the_end_of_memory_fails() {
    let mut engine = Engine::new(0);
    let data = vec![0xAAu8; 0xE00];
    assert_eq!(engine.load(0x200, &data), Err(MachineError::MemoryOverflow));
    assert_eq!(engine.get_memory(0x200), Ok(0));
}

#[test]
fn load_beyond_the_end_of_memory_fails() {
    let mut engine = Engine::new(0);
    let data = vec![0xAAu8; 0xE01];
    assert_eq!(engine.load(0x200, &data), Err(MachineError::MemoryOverflow));
    assert_eq!(engine.load(0x1000, &[]), Err(MachineError::MemoryOverflow));
    assert_eq!(engine.load(usize::MAX, &[1, 2]), Err(MachineError::MemoryOverflow));
    assert_eq!(engine.get_memory(0x200), Ok(0));
}

#[test]
fn load_of_nothing_succeeds_inside_memory() {
    let mut engine = Engine::new(0);
    assert_eq!(engine.load(0xFFF, &[]), Ok(()));
}

#[test]
fn load_font_records_the_address_on_success_only() {
    let mut engine = Engine::new(0);
    assert_eq!(engine.load_font(0x50, &[1, 2, 3]), Ok(()));
    assert_eq!(engine.font_address(), 0x50);
    assert_eq!(engine.load_font(0xFFF, &[1]), Err(MachineError::MemoryOverflow));
    assert_eq!(engine.font_address(), 0x50);
    assert_eq!(engine.get_memory(0x51), Ok(2));
}

#[test]
fn load_cartridge_records_the_address_on_success_only() {
    let mut engine = Engine::new(0);
    assert_eq!(engine.load_cartridge(0x200, &[1, 2, 3]), Ok(()));
    assert_eq!(engine.cartridge_address(), 0x200);
    assert_eq!(engine.load_cartridge(0xFFE, &[1, 2]), Err(MachineError::MemoryOverflow));
    assert_eq!(engine.cartridge_address(), 0x200);
    engine.start(0);
    assert_eq!(engine.pc(), 0x200);
}

#[test]
fn memory_access_beyond_the_end_fails() {
    let mut engine = Engine::new(0);
    assert_eq!(engine.get_memory(0x1000), Err(MachineError::MemoryOverflow));
    assert_eq!(engine.set_memory(0x1000, 1), Err(MachineError::MemoryOverflow));
    assert_eq!(engine.set_memory(0xFFF, 1), Ok(()));
    assert_eq!(engine.get_memory(0xFFF), Ok(1));
}

#[test]
fn a_fresh_engine_is_zeroed() {
    let engine = Engine::new(5);
    assert_eq!(engine.pc(), 0);
    assert_eq!(engine.get_register_i(), 0);
    assert_eq!(engine.delay_timer(), 0);
    assert_eq!(engine.sound_timer(), 0);
    assert_eq!(engine.stack_depth(), 0);
    assert_eq!(engine.tick_count(), 0);
    assert_eq!(engine.cycle(), 5);
    assert!(!engine.is_running());
    assert!(!engine.is_display_dirty());
    for i in 0..16u8 {
        assert_eq!(engine.get_register(i), Ok(0));
        assert_eq!(engine.key_down(i), Ok(false));
    }
    for a in [0usize, 0x200, 0xFFF] {
        assert_eq!(engine.get_memory(a), Ok(0));
    }
    for y in 0..32 {
        for x in 0..64 {
            assert!(!engine.pixel(x, y));
        }
    }
}
