//! Text renderings of the engine's state, for logs.

use vstd::prelude::*;
use crate::engine::Engine;
use crate::state::State;
use crate::state::DISPLAY_HEIGHT;
use crate::state::DISPLAY_WIDTH;
use crate::state::KEY_COUNT;
use crate::state::REGISTER_COUNT;
use crate::text::hex;
use crate::text::push_hex;
use crate::text::push_hex_padded;
use crate::text::zero_padded;

verus! {

/// One register in a trace: its index and its value in two hexadecimal
/// digits.
pub open spec fn register_cell(i: nat, value: u8) -> Seq<char> {
    "["@ + hex(i) + "|"@ + zero_padded(hex(value as nat), 2) + "] "@
}

/// The first `count` registers in a trace.
pub open spec fn register_cells(registers: Seq<u8>, count: nat) -> Seq<char>
    decreases count,
{
    if count == 0 {
        Seq::empty()
    } else {
        register_cells(registers, (count - 1) as nat) + register_cell(
            (count - 1) as nat,
            registers[count - 1],
        )
    }
}

/// One key in a trace: its number, and 1 if it is down, 0 if it is up.
pub open spec fn key_cell(k: nat, down: bool) -> Seq<char> {
    "["@ + hex(k) + "|"@ + (if down {
        "1"@
    } else {
        "0"@
    }) + "] "@
}

/// The first `count` keys in a trace.
pub open spec fn key_cells(keys: Seq<bool>, count: nat) -> Seq<char>
    decreases count,
{
    if count == 0 {
        Seq::empty()
    } else {
        key_cells(keys, (count - 1) as nat) + key_cell((count - 1) as nat, keys[count - 1])
    }
}

/// The trace of a state: a heading, then a line each for the registers, the
/// index register and the keys.
pub open spec fn machine_trace(s: State) -> Seq<char> {
    "[- Machine -]\n"@ + "  <r> "@ + register_cells(s.registers, REGISTER_COUNT as nat) + "\n"@
        + "  <i> "@ + zero_padded(hex(s.index as nat), 2) + "\n"@ + "  <k> "@ + key_cells(
        s.keys,
        KEY_COUNT as nat,
    ) + "\n"@
}

/// One pixel in a trace of the display: two blocks if it is set, two blanks
/// if not.
pub open spec fn pixel_cell(lit: bool) -> Seq<char> {
    if lit {
        "\u{2588}\u{2588}"@
    } else {
        "  "@
    }
}

/// The first `count` pixels of a row in a trace of the display.
pub open spec fn pixel_cells(row: Seq<bool>, count: nat) -> Seq<char>
    decreases count,
{
    if count == 0 {
        Seq::empty()
    } else {
        pixel_cells(row, (count - 1) as nat) + pixel_cell(row[count - 1])
    }
}

/// The first `count` rows in a trace of the display, each ended by a line
/// feed.
pub open spec fn display_rows(display: Seq<Seq<bool>>, count: nat) -> Seq<char>
    decreases count,
{
    if count == 0 {
        Seq::empty()
    } else {
        display_rows(display, (count - 1) as nat) + pixel_cells(
            display[count - 1],
            DISPLAY_WIDTH as nat,
        ) + "\n"@
    }
}

/// The trace of a state's display: its rows from the top.
pub open spec fn display_trace(s: State) -> Seq<char> {
    display_rows(s.display, DISPLAY_HEIGHT as nat)
}

impl Engine {
    /// Returns a text that shows the registers, the index register and the
    /// keys.
    pub fn trace_machine(&self) -> (text: String)
        ensures
            text@ == machine_trace(self@),
    {
        let mut buf = String::from_str("[- Machine -]\n");
        buf.append("  <r> ");
        let ghost head = buf@;
        let mut i: u8 = 0;
        while i < 16
            invariant
                i <= 16,
                buf@ == head + register_cells(self@.registers, i as nat),
            decreases 16 - i,
        {
            let value = match self.get_register(i) {
                Ok(value) => value,
                Err(_) => 0,
            };
            let ghost before = buf@;
            buf.append("[");
            push_hex(&mut buf, i as u128);
            buf.append("|");
            push_hex_padded(&mut buf, value as u128, 2);
            buf.append("] ");
            i += 1;
            proof {
                assert(buf@ =~= before + register_cell((i - 1) as nat, value));
                assert(buf@ =~= head + register_cells(self@.registers, i as nat));
            }
        }
        buf.append("\n");
        buf.append("  <i> ");
        push_hex_padded(&mut buf, self.get_register_i() as u128, 2);
        buf.append("\n");
        buf.append("  <k> ");
        let ghost head = buf@;
        let mut k: u8 = 0;
        while k < 16
            invariant
                k <= 16,
                buf@ == head + key_cells(self@.keys, k as nat),
            decreases 16 - k,
        {
            let down = match self.key_down(k) {
                Ok(down) => down,
                Err(_) => false,
            };
            let ghost before = buf@;
            buf.append("[");
            push_hex(&mut buf, k as u128);
            buf.append("|");
            if down {
                buf.append("1");
            } else {
                buf.append("0");
            }
            buf.append("] ");
            k += 1;
            proof {
                assert(buf@ =~= before + key_cell((k - 1) as nat, down));
                assert(buf@ =~= head + key_cells(self@.keys, k as nat));
            }
        }
        buf.append("\n");
        proof {
            assert(buf@ =~= machine_trace(self@));
        }
        buf
    }

    /// Returns a picture of the display as text, one line for each row.
    pub fn trace_display(&self) -> (text: String)
        ensures
            text@ == display_trace(self@),
    {
        let mut buf = String::new();
        let mut y: usize = 0;
        while y < DISPLAY_HEIGHT
            invariant
                y <= DISPLAY_HEIGHT,
                buf@ == display_rows(self@.display, y as nat),
            decreases DISPLAY_HEIGHT - y,
        {
            let ghost head = buf@;
            let mut x: usize = 0;
            while x < DISPLAY_WIDTH
                invariant
                    y < DISPLAY_HEIGHT,
                    x <= DISPLAY_WIDTH,
                    buf@ == head + pixel_cells(self@.display[y as int], x as nat),
                decreases DISPLAY_WIDTH - x,
            {
                let lit = self.pixel(x, y);
                if lit {
                    buf.append("\u{2588}\u{2588}");
                } else {
                    buf.append("  ");
                }
                x += 1;
                proof {
                    assert(buf@ =~= head + pixel_cells(self@.display[y as int], x as nat));
                }
            }
            buf.append("\n");
            y += 1;
            proof {
                assert(buf@ =~= display_rows(self@.display, y as nat));
            }
        }
        buf
    }
}

} // verus!
