use chip8::engine::Engine;
use chip8::opcode::Operation;
use chip8::state::TICK_RATE;

const MILLISECOND: u128 = 1_000_000;

fn engine_with_timers(delay: u8, sound: u8) -> Engine {
    let mut engine = Engine::new(MILLISECOND);
    engine.set_register(1, delay).unwrap();
    engine.set_register(2, sound).unwrap();
    engine.execute(Operation::SetDelayTimer(1), 0).unwrap();
    engine.execute(Operation::SetSoundTimer(2), 0).unwrap();
    engine
}

#[test]
fn the_tick_interval_is_sixteen_milliseconds() {
    assert_eq!(TICK_RATE, 16 * MILLISECOND);
}

#[test]
fn a_tick_counts_both_timers_down() {
    let mut engine = engine_with_timers(3, 1);
    engine.tick(5);
    assert_eq!(engine.delay_timer(), 2);
    assert_eq!(engine.sound_timer(), 0);
    assert_eq!(engine.tick_count(), 1);
    engine.tick(6);
    assert_eq!(engine.delay_timer(), 1);
    assert_eq!(engine.sound_timer(), 0);
    assert_eq!(engine.tick_count(), 2);
}

#[test]
fn timers_stop_at_zero() {
    let mut engine = engine_with_timers(0, 0);
    engine.tick(1);
    assert_eq!(engine.delay_timer(), 0);
    assert_eq!(engine.sound_timer(), 0);
}

#[test]
fn a_tick_is_due_after_the_interval() {
    let mut engine = Engine::new(MILLISECOND);
    engine.start(100);
    assert!(!engine.tick_due(100));
    assert!(!engine.tick_due(100 + TICK_RATE - 1));
    assert!(engine.tick_due(100 + TICK_RATE));
    assert!(!engine.tick_due(50));
    assert_eq!(engine.next_tick_left(100), TICK_RATE);
    assert_eq!(engine.next_tick_left(100 + MILLISECOND), 15 * MILLISECOND);
    assert_eq!(engine.next_tick_left(100 + TICK_RATE), 0);
    assert_eq!(engine.next_tick_left(100 + 2 * TICK_RATE), 0);
    assert_eq!(engine.next_tick_left(50), TICK_RATE);
}

#[test]
fn serving_the_timers_ticks_only_when_due() {
    let mut engine = engine_with_timers(5, 5);
    engine.start(0);
    assert!(!engine.serve_timers(TICK_RATE - 1));
    assert_eq!(engine.delay_timer(), 5);
    assert_eq!(engine.tick_count(), 0);
    assert!(engine.serve_timers(TICK_RATE));
    assert_eq!(engine.delay_timer(), 4);
    assert_eq!(engine.sound_timer(), 4);
    assert_eq!(engine.tick_count(), 1);
    assert!(!engine.serve_timers(TICK_RATE + 1));
    assert!(engine.serve_timers(2 * TICK_RATE));
    assert_eq!(engine.delay_timer(), 3);
}

#[test]
fn timers_tick_whatever_the_instruction_rate() {
    for instructions_per_millisecond in [0usize, 1, 7] {
        let mut engine = Engine::new(MILLISECOND);
        engine.load_cartridge(0x200, &[0x60, 0x3C, 0xF0, 0x15, 0x12, 0x04]).unwrap();
        engine.start(0);
        engine.step(0).unwrap();
        engine.step(0).unwrap();
        assert_eq!(engine.delay_timer(), 60);
        let mut ticks = 0;
        for millisecond in 1..=16u128 {
            for _ in 0..instructions_per_millisecond {
                engine.step(0).unwrap();
            }
            if engine.serve_timers(millisecond * MILLISECOND) {
                ticks += 1;
            }
        }
        assert_eq!(ticks, 1);
        assert_eq!(engine.delay_timer(), 59);
        assert_eq!(engine.tick_count(), 1);
    }
}

#[test]
fn timers_tick_during_a_key_wait() {
    let mut engine = engine_with_timers(2, 0);
    engine.start(0);
    engine.execute(Operation::GetKey(0), 0).unwrap();
    assert!(!engine.can_step());
    assert!(engine.serve_timers(TICK_RATE));
    assert_eq!(engine.delay_timer(), 1);
}

#[test]
fn cycle_slack_is_the_rest_of_the_cycle() {
    let engine = Engine::new(MILLISECOND);
    assert_eq!(engine.cycle(), MILLISECOND);
    assert_eq!(engine.cycle_slack(0), MILLISECOND);
    assert_eq!(engine.cycle_slack(400_000), 600_000);
    assert_eq!(engine.cycle_slack(MILLISECOND), 0);
    assert_eq!(engine.cycle_slack(3 * MILLISECOND), 0);
}

#[test]
fn start_resets_the_tick_clock() {
    let mut engine = Engine::new(MILLISECOND);
    engine.tick(10);
    engine.tick(20);
    assert_eq!(engine.tick_count(), 2);
    engine.start(1000);
    assert_eq!(engine.tick_count(), 0);
    assert!(!engine.tick_due(1000 + TICK_RATE - 1));
    assert!(engine.tick_due(1000 + TICK_RATE));
}
