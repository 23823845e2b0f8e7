use chip8::cartridge::disassemble_cartridge;
use chip8::cartridge::Assemable;
use chip8::cartridge::CARTRIDGE_ADDRESS;
use chip8::opcode::Operation;

#[test]
fn cartridges_load_at_0x200() {
    assert_eq!(CARTRIDGE_ADDRESS, 0x200);
}

#[test]
fn an_empty_image_lists_nothing() {
    assert!(disassemble_cartridge(&[]).is_empty());
}

#[test]
fn an_image_lists_one_entry_per_word() {
    let listing = disassemble_cartridge(&[0x00, 0xE0, 0x1A, 0xBC, 0x8A, 0xB4]);
    assert_eq!(
        listing,
        vec![
            Assemable::new(0x00E0, Operation::Clear),
            Assemable::new(0x1ABC, Operation::JumpC(0xABC)),
            Assemable::new(0x8AB4, Operation::Add(0xA, 0xB)),
        ]
    );
    assert_eq!(listing[1].opcode(), 0x1ABC);
    assert_eq!(listing[1].operation(), Operation::JumpC(0xABC));
}

#[test]
fn a_last_odd_byte_is_completed_with_zero() {
    let listing = disassemble_cartridge(&[0x61, 0x02, 0xA1]);
    assert_eq!(listing.len(), 2);
    assert_eq!(listing[0], Assemable::new(0x6102, Operation::SetC(1, 2)));
    assert_eq!(listing[1], Assemable::new(0xA100, Operation::SetIC(0x100)));
    let listing = disassemble_cartridge(&[0x12]);
    assert_eq!(listing, vec![Assemable::new(0x1200, Operation::JumpC(0x200))]);
}
