//! The machine: an engine together with the source of its random bytes.

use vstd::prelude::*;
use crate::engine::Engine;
use crate::opcode::Operation;
use crate::random::RandomSource;
use crate::state::MachineError;
use crate::state::State;
use crate::trace::display_trace;
use crate::trace::machine_trace;

verus! {

/// The machine: an engine and the source from which its random instruction
/// draws.
pub struct Machine<R: RandomSource> {
    engine: Engine,
    rng: R,
}

impl<R: RandomSource> View for Machine<R> {
    type V = State;

    closed spec fn view(&self) -> State {
        self.engine@
    }
}

impl<R: RandomSource> Machine<R> {
    /// The source from which the machine draws its random bytes.
    pub closed spec fn source(&self) -> R {
        self.rng
    }

    /// Builds a machine with everything zeroed, drawing its random bytes from
    /// `rng` and giving each instruction `cycle` nanoseconds.
    pub fn new(rng: R, cycle: u128) -> (machine: Self)
        ensures
            machine@ == State::initial(cycle),
            machine@.wf(),
            machine.source() == rng,
    {
        Machine { engine: Engine::new(cycle), rng }
    }

    /// Returns the engine, for reading.
    pub fn engine(&self) -> (engine: &Engine)
        ensures
            engine@ == self@,
    {
        &self.engine
    }

    /// Returns the engine, for everything that needs no random byte. The
    /// source of random bytes stays as it is.
    pub fn engine_mut(&mut self) -> (engine: &mut Engine)
        ensures
            engine@ == old(self)@,
            final(self)@ == final(engine)@,
            final(self).source() == old(self).source(),
    {
        &mut self.engine
    }

    /// Copies `data` into memory from `address` on. Fails with
    /// `MemoryOverflow`, changing nothing, unless the byte after the last one
    /// copied is still an address.
    pub fn load(&mut self, address: usize, data: &[u8]) -> (r: Result<(), MachineError>)
        ensures
            (final(self)@, r) == old(self)@.load(address as int, data@),
            final(self)@.wf(),
            final(self).source() == old(self).source(),
    {
        self.engine.load(address, data)
    }

    /// Loads the font at `address` and records the address.
    pub fn load_font(&mut self, address: usize, font: &[u8]) -> (r: Result<(), MachineError>)
        ensures
            (final(self)@, r) == old(self)@.load_font(address, font@),
            final(self)@.wf(),
            final(self).source() == old(self).source(),
    {
        self.engine.load_font(address, font)
    }

    /// Loads the cartridge at `address` and records the address, at which
    /// execution will start.
    pub fn load_cartridge(&mut self, address: usize, cart: &[u8]) -> (r: Result<
        (),
        MachineError,
    >)
        ensures
            (final(self)@, r) == old(self)@.load_cartridge(address, cart@),
            final(self)@.wf(),
            final(self).source() == old(self).source(),
    {
        self.engine.load_cartridge(address, cart)
    }

    /// Returns a text that shows the registers, the index register and the
    /// keys.
    pub fn trace_machine(&self) -> (text: String)
        ensures
            text@ == machine_trace(self@),
    {
        self.engine.trace_machine()
    }

    /// Returns a picture of the display as text, one line for each row.
    pub fn trace_display(&self) -> (text: String)
        ensures
            text@ == display_trace(self@),
    {
        self.engine.trace_display()
    }

    /// Executes the instruction at the program counter. A random byte is
    /// drawn from the source only if that instruction is the random
    /// instruction; for every other instruction the source stays as it is.
    ///
    /// The outcome is the one that the model gives for the byte drawn,
    /// whichever it was; where the instruction is not the random
    /// instruction the outcome is the same for every byte.
    pub fn step(&mut self) -> (r: Result<(), MachineError>)
        ensures
            exists|random: u8| (final(self)@, r) == old(self)@.step(random),
            !old(self)@.draws_random() ==> forall|random: u8|
                (final(self)@, r) == #[trigger] old(self)@.step(random),
            !old(self)@.draws_random() ==> final(self).source() == old(self).source(),
            final(self)@.wf(),
    {
        let operation = match self.engine.get_operation() {
            Ok(operation) => operation,
            Err(e) => {
                assert((self@, Err::<(), MachineError>(e)) == old(self)@.step(0));
                return Err(e);
            },
        };
        let random_byte = match operation {
            Operation::RandC(_, _) => self.rng.next_byte(),
            _ => 0,
        };
        let r = self.engine.execute(operation, random_byte);
        assert((self@, r) == old(self)@.step(random_byte));
        r
    }
}

} // verus!
