use chip8::opcode::op0;
use chip8::opcode::op1;
use chip8::opcode::op2;
use chip8::opcode::op3;
use chip8::opcode::oph1;
use chip8::opcode::parse_opcode;
use chip8::opcode::Operation;

#[test]
fn decodes_call_sys() {
    assert_eq!(parse_opcode(0x0123), Operation::CallSysC(0x123));
    assert_eq!(parse_opcode(0x0000), Operation::CallSysC(0x000));
}

#[test]
fn decodes_clear() {
    assert_eq!(parse_opcode(0x00E0), Operation::Clear);
}

#[test]
fn decodes_return() {
    assert_eq!(parse_opcode(0x00EE), Operation::Return);
}

#[test]
fn category_zero_dispatches_on_the_low_byte_only() {
    assert_eq!(parse_opcode(0x01E0), Operation::Clear);
    assert_eq!(parse_opcode(0x0FEE), Operation::Return);
}

#[test]
fn decodes_jump() {
    assert_eq!(parse_opcode(0x1ABC), Operation::JumpC(0xABC));
}

#[test]
fn decodes_call() {
    assert_eq!(parse_opcode(0x2DEF), Operation::CallC(0xDEF));
}

#[test]
fn decodes_skip_eq_constant() {
    assert_eq!(parse_opcode(0x3A42), Operation::SkipEqC(0xA, 0x42));
}

#[test]
fn decodes_skip_ne_constant() {
    assert_eq!(parse_opcode(0x4B17), Operation::SkipNeC(0xB, 0x17));
}

#[test]
fn decodes_skip_eq() {
    assert_eq!(parse_opcode(0x5670), Operation::SkipEq(6, 7));
}

#[test]
fn decodes_set_constant() {
    assert_eq!(parse_opcode(0x6CFF), Operation::SetC(0xC, 0xFF));
}

#[test]
fn decodes_add_constant() {
    assert_eq!(parse_opcode(0x7D01), Operation::AddC(0xD, 0x01));
}

#[test]
fn decodes_register_arithmetic() {
    assert_eq!(parse_opcode(0x8AB0), Operation::Assign(0xA, 0xB));
    assert_eq!(parse_opcode(0x8AB1), Operation::Or(0xA, 0xB));
    assert_eq!(parse_opcode(0x8AB2), Operation::And(0xA, 0xB));
    assert_eq!(parse_opcode(0x8AB3), Operation::Xor(0xA, 0xB));
    assert_eq!(parse_opcode(0x8AB4), Operation::Add(0xA, 0xB));
    assert_eq!(parse_opcode(0x8AB5), Operation::Sub(0xA, 0xB));
    assert_eq!(parse_opcode(0x8AB6), Operation::Shr(0xA, 0xB));
    assert_eq!(parse_opcode(0x8AB7), Operation::SubRev(0xA, 0xB));
    assert_eq!(parse_opcode(0x8ABE), Operation::Shl(0xA, 0xB));
}

#[test]
fn unassigned_register_arithmetic_is_unknown() {
    for n in [0x8u16, 0x9, 0xA, 0xB, 0xC, 0xD, 0xF] {
        let word = 0x8AB0 | n;
        assert_eq!(parse_opcode(word), Operation::Unknown(word));
    }
}

#[test]
fn decodes_skip_ne() {
    assert_eq!(parse_opcode(0x9120), Operation::SkipNe(1, 2));
}

#[test]
fn skip_ne_with_a_low_nibble_is_unknown() {
    assert_eq!(parse_opcode(0x9121), Operation::Unknown(0x9121));
    assert_eq!(parse_opcode(0x912F), Operation::Unknown(0x912F));
}

#[test]
fn decodes_set_index() {
    assert_eq!(parse_opcode(0xA123), Operation::SetIC(0x123));
}

#[test]
fn decodes_jump_offset() {
    assert_eq!(parse_opcode(0xB456), Operation::JumpV0C(0x456));
}

#[test]
fn decodes_random() {
    assert_eq!(parse_opcode(0xC30F), Operation::RandC(3, 0x0F));
}

#[test]
fn decodes_draw() {
    assert_eq!(parse_opcode(0xD125), Operation::DrawC(1, 2, 5));
}

#[test]
fn decodes_key_skips() {
    assert_eq!(parse_opcode(0xE49E), Operation::SkipEqKey(4));
    assert_eq!(parse_opcode(0xE4A1), Operation::SkipNeKey(4));
    assert_eq!(parse_opcode(0xE400), Operation::Unknown(0xE400));
}

#[test]
fn decodes_timer_key_and_memory_operations() {
    assert_eq!(parse_opcode(0xF307), Operation::GetDelayTimer(3));
    assert_eq!(parse_opcode(0xF30A), Operation::GetKey(3));
    assert_eq!(parse_opcode(0xF315), Operation::SetDelayTimer(3));
    assert_eq!(parse_opcode(0xF318), Operation::SetSoundTimer(3));
    assert_eq!(parse_opcode(0xF31E), Operation::AddI(3));
    assert_eq!(parse_opcode(0xF329), Operation::SetIFont(3));
    assert_eq!(parse_opcode(0xF333), Operation::Bcd(3));
    assert_eq!(parse_opcode(0xF355), Operation::Store(3));
    assert_eq!(parse_opcode(0xF365), Operation::Restore(3));
}

#[test]
fn unassigned_category_f_is_unknown() {
    assert_eq!(parse_opcode(0xF3FF), Operation::Unknown(0xF3FF));
    assert_eq!(parse_opcode(0xF000), Operation::Unknown(0xF000));
}

#[test]
fn decoding_is_total() {
    let mut word: u16 = 0;
    loop {
        let operation = parse_opcode(word);
        if let Operation::Unknown(raw) = operation {
            assert_eq!(raw, word);
        }
        if word == u16::MAX {
            break;
        }
        word += 1;
    }
}

#[test]
fn decoded_registers_have_four_bits() {
    let mut word: u16 = 0;
    loop {
        match parse_opcode(word) {
            Operation::Add(x, y) | Operation::DrawC(x, y, _) | Operation::SkipEq(x, y) => {
                assert!(x < 16 && y < 16);
            }
            Operation::Store(x) | Operation::Restore(x) | Operation::GetKey(x) => {
                assert!(x < 16);
            }
            Operation::JumpC(c) | Operation::CallC(c) | Operation::SetIC(c) => {
                assert!(c < 0x1000);
            }
            _ => {}
        }
        if word == u16::MAX {
            break;
        }
        word += 1;
    }
}

#[test]
fn nibble_fields() {
    assert_eq!(op0(0xABCD), 0xA);
    assert_eq!(op1(0xABCD), 0xB);
    assert_eq!(op2(0xABCD), 0xC);
    assert_eq!(op3(0xABCD), 0xD);
    assert_eq!(oph1(0xABCD), 0xCD);
}
