use chip8::console::Key;
use chip8::console::KeyEvent;
use chip8::engine::Engine;
use chip8::opcode::Operation;
use chip8::scheduler::Action;
use chip8::scheduler::Phase;
use chip8::scheduler::Scheduler;
use chip8::state::TICK_RATE;

const MILLISECOND: u128 = 1_000_000;

fn running_engine(cycle: u128, program: &[u8]) -> Engine {
    let mut engine = Engine::new(cycle);
    engine.load_cartridge(0x200, program).unwrap();
    engine.start(0);
    engine
}

#[test]
fn a_scheduler_starts_at_the_start_of_a_round() {
    let scheduler = Scheduler::new(42);
    assert_eq!(scheduler, Scheduler { phase: Phase::Execute, cycle_at: 42 });
}

#[test]
fn a_machine_that_does_not_run_is_halted() {
    let engine = Engine::new(MILLISECOND);
    let mut scheduler = Scheduler::new(0);
    assert_eq!(scheduler.next(&engine, 0), Action::Halt);
    assert_eq!(scheduler.phase, Phase::Execute);
}

#[test]
fn a_round_in_order() {
    let mut engine = running_engine(MILLISECOND, &[0x61, 0x01, 0x12, 0x00]);
    let mut scheduler = Scheduler::new(0);

    assert_eq!(scheduler.next(&engine, 400_000), Action::Pace(600_000));
    assert_eq!(scheduler.phase, Phase::Step);
    assert_eq!(scheduler.next(&engine, 1_000_000), Action::Step);
    assert_eq!(scheduler, Scheduler { phase: Phase::Poll, cycle_at: 1_000_000 });
    engine.step(0).unwrap();

    assert_eq!(scheduler.next(&engine, 1_100_000), Action::Poll(TICK_RATE - 1_100_000));
    assert_eq!(scheduler.phase, Phase::Present);

    // The display is clean and no tick is due: the next round begins.
    assert_eq!(scheduler.next(&engine, 1_200_000), Action::Pace(800_000));
    assert_eq!(scheduler.phase, Phase::Step);
}

#[test]
fn a_cycle_that_is_over_is_not_waited_for() {
    let engine = running_engine(MILLISECOND, &[0x12, 0x00]);
    let mut scheduler = Scheduler::new(0);
    assert_eq!(scheduler.next(&engine, MILLISECOND + 1), Action::Step);
    assert_eq!(scheduler, Scheduler { phase: Phase::Poll, cycle_at: MILLISECOND + 1 });
    let mut scheduler = Scheduler::new(0);
    assert_eq!(scheduler.next(&engine, MILLISECOND), Action::Pace(0));
}

#[test]
fn a_dirty_display_is_presented_before_the_timers() {
    let mut engine = running_engine(MILLISECOND, &[0x12, 0x00]);
    engine.load(0x300, &[0x80]).unwrap();
    engine.set_register_i(0x300).unwrap();
    engine.draw(0, 0, 1).unwrap();
    let mut scheduler = Scheduler { phase: Phase::Present, cycle_at: 0 };
    assert_eq!(scheduler.next(&engine, TICK_RATE), Action::Present);
    assert_eq!(scheduler.phase, Phase::Timers);
    engine.displayed();
    assert_eq!(scheduler.next(&engine, TICK_RATE), Action::Tick);
    assert_eq!(scheduler.phase, Phase::Execute);
}

#[test]
fn no_instruction_is_executed_during_a_key_wait() {
    let mut engine = running_engine(MILLISECOND, &[0xF1, 0x0A]);
    engine.step(0).unwrap();
    assert!(!engine.can_step());
    let mut scheduler = Scheduler::new(0);
    let mut now = 0;
    for _ in 0..50 {
        now += 3 * MILLISECOND;
        match scheduler.next(&engine, now) {
            Action::Step | Action::Pace(_) | Action::Halt => unreachable!(),
            Action::Tick => engine.tick(now),
            Action::Present => engine.displayed(),
            Action::Poll(_) => {}
        }
    }
    assert!(engine.tick_count() >= 8);

    engine.handle_key_events(&[KeyEvent::Pressed(Key::Num(4)), KeyEvent::Released(Key::Num(4))]);
    scheduler.phase = Phase::Execute;
    assert_eq!(scheduler.next(&engine, now), Action::Step);
    engine.step(0).unwrap();
    assert_eq!(engine.get_register(1), Ok(4));
}

/// Runs a machine on a simulated clock until `until`, with instructions that
/// take `instruction_time` each, and returns the number of instructions
/// executed.
fn simulate(engine: &mut Engine, until: u128, instruction_time: u128) -> usize {
    let mut scheduler = Scheduler::new(0);
    let mut now: u128 = 0;
    let mut instructions = 0;
    while now < until {
        match scheduler.next(engine, now) {
            Action::Halt => break,
            Action::Pace(pause) => now += pause,
            Action::Step => {
                engine.step(0).unwrap();
                instructions += 1;
                now += instruction_time;
            }
            Action::Poll(_) => now += 1_000,
            Action::Present => engine.displayed(),
            Action::Tick => engine.tick(now),
        }
    }
    instructions
}

#[test]
fn timers_tick_in_the_round_after_sixteen_milliseconds_at_a_one_millisecond_cycle() {
    let program = [0x60, 0x3C, 0xF0, 0x15, 0x12, 0x04];
    let mut engine = running_engine(MILLISECOND, &program);
    let instructions = simulate(&mut engine, 16 * MILLISECOND, 50_000);
    assert_eq!(instructions, 15);
    assert_eq!(engine.tick_count(), 0);
    assert_eq!(engine.delay_timer(), 60);
    let mut engine = running_engine(MILLISECOND, &program);
    let instructions = simulate(&mut engine, 17 * MILLISECOND, 50_000);
    assert_eq!(instructions, 16);
    assert_eq!(engine.tick_count(), 1);
    assert_eq!(engine.delay_timer(), 59);
}

#[test]
fn timers_tick_whatever_the_cycle_time() {
    for cycle in [0u128, 10_000, MILLISECOND, 5 * MILLISECOND, 40 * MILLISECOND] {
        let mut engine = running_engine(cycle, &[0x12, 0x00]);
        engine.execute(Operation::SetC(0, 200), 0).unwrap();
        engine.execute(Operation::SetDelayTimer(0), 0).unwrap();
        engine.execute(Operation::JumpC(0x200), 0).unwrap();
        simulate(&mut engine, 170 * MILLISECOND, 20_000);
        let ticks = engine.tick_count();
        assert!(ticks >= 4, "{} ticks at a cycle of {}", ticks, cycle);
        assert!(ticks <= 10);
        assert_eq!(engine.delay_timer() as u128, 200 - ticks);
    }
}

#[test]
fn a_quit_halts_at_the_start_of_the_next_round() {
    let mut engine = running_engine(MILLISECOND, &[0x12, 0x00]);
    let mut scheduler = Scheduler { phase: Phase::Poll, cycle_at: 0 };
    assert!(matches!(scheduler.next(&engine, 10), Action::Poll(_)));
    engine.handle_key_events(&[KeyEvent::Pressed(Key::Quit)]);
    assert_eq!(scheduler.next(&engine, 20), Action::Halt);
}
