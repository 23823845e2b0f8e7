//! The console's vocabulary: keys and key events, the mapping from keyboard
//! input to keys, and the display as it is presented.

use vstd::prelude::*;

verus! {

/// Width of the display in pixels.
pub const WIDTH: usize = 64;

/// Height of the display in pixels.
pub const HEIGHT: usize = 32;

/// A logical key: one of the sixteen pad keys, or the reserved quit signal.
#[derive(Clone, Copy, Debug, PartialEq, Eq, Structural)]
pub enum Key {
    /// The request to stop the machine.
    Quit,
    /// A key of the pad, by its number.
    Num(u8),
}

/// A change of one key's state.
#[derive(Clone, Copy, Debug, PartialEq, Eq, Structural)]
pub enum KeyEvent {
    /// The key went down.
    Pressed(Key),
    /// The key came up.
    Released(Key),
}

impl Key {
    /// A key is valid when it is the quit signal or names one of the sixteen
    /// pad keys.
    pub open spec fn valid(self) -> bool {
        match self {
            Key::Quit => true,
            Key::Num(n) => n < 16,
        }
    }

    /// Tells whether the key is the quit signal or one of the sixteen pad keys.
    pub fn is_valid(&self) -> (r: bool)
        ensures
            r == self.valid(),
    {
        match self {
            Key::Quit => true,
            Key::Num(n) => *n < 16,
        }
    }
}

impl KeyEvent {
    /// The key that the event is about.
    pub open spec fn key(self) -> Key {
        match self {
            KeyEvent::Pressed(k) => k,
            KeyEvent::Released(k) => k,
        }
    }

    /// An event is valid when its key is.
    pub open spec fn valid(self) -> bool {
        self.key().valid()
    }

    /// Tells whether the event's key is valid.
    pub fn is_valid(&self) -> (r: bool)
        ensures
            r == self.valid(),
    {
        match self {
            KeyEvent::Pressed(k) => k.is_valid(),
            KeyEvent::Released(k) => k.is_valid(),
        }
    }
}

/// A key of the keyboard, as far as the pad is concerned.
#[derive(Clone, Copy, Debug, PartialEq, Eq, Structural)]
pub enum KeyCode {
    /// The escape key.
    Esc,
    /// A key that produces a character.
    Char(char),
    /// Any other key.
    Other,
}

/// What happened to a key of the keyboard.
#[derive(Clone, Copy, Debug, PartialEq, Eq, Structural)]
pub enum KeyEventKind {
    /// The key went down.
    Press,
    /// The key is held down and repeats.
    Repeat,
    /// The key came up.
    Release,
}

/// The pad key that a character's key stands for, if any. The pad occupies
/// the four by four block of the keyboard that starts at `1`:
///
/// ```text
/// 1 2 3 4        1 2 3 C
/// q w e r   for  4 5 6 D
/// a s d f        7 8 9 E
/// z x c v        A 0 B F
/// ```
pub open spec fn pad_key_of(c: char) -> Option<u8> {
    if c == '1' {
        Some(0x1u8)
    } else if c == '2' {
        Some(0x2u8)
    } else if c == '3' {
        Some(0x3u8)
    } else if c == '4' {
        Some(0xCu8)
    } else if c == 'q' {
        Some(0x4u8)
    } else if c == 'w' {
        Some(0x5u8)
    } else if c == 'e' {
        Some(0x6u8)
    } else if c == 'r' {
        Some(0xDu8)
    } else if c == 'a' {
        Some(0x7u8)
    } else if c == 's' {
        Some(0x8u8)
    } else if c == 'd' {
        Some(0x9u8)
    } else if c == 'f' {
        Some(0xEu8)
    } else if c == 'z' {
        Some(0xAu8)
    } else if c == 'x' {
        Some(0x0u8)
    } else if c == 'c' {
        Some(0xBu8)
    } else if c == 'v' {
        Some(0xFu8)
    } else {
        None
    }
}

/// The logical key that a key of the keyboard stands for, if any: escape is
/// the quit signal, and the characters of the pad block are the pad keys.
pub open spec fn key_of(key_code: KeyCode) -> Option<Key> {
    match key_code {
        KeyCode::Esc => Some(Key::Quit),
        KeyCode::Char(c) => match pad_key_of(c) {
            Some(n) => Some(Key::Num(n)),
            None => None,
        },
        KeyCode::Other => None,
    }
}

/// The key event that a keyboard event stands for, if any: a press or a
/// repeat of a mapped key is a press, a release is a release.
pub open spec fn key_event_of(key_code: KeyCode, kind: KeyEventKind) -> Option<KeyEvent> {
    match key_of(key_code) {
        Some(k) => match kind {
            KeyEventKind::Press => Some(KeyEvent::Pressed(k)),
            KeyEventKind::Repeat => Some(KeyEvent::Pressed(k)),
            KeyEventKind::Release => Some(KeyEvent::Released(k)),
        },
        None => None,
    }
}

/// Maps a key of the keyboard to the logical key it stands for, if any.
pub fn handle_key_code(key_code: KeyCode) -> (key: Option<Key>)
    ensures
        key == key_of(key_code),
        key.is_some() ==> key.unwrap().valid(),
{
    match key_code {
        KeyCode::Esc => Some(Key::Quit),
        KeyCode::Char('1') => Some(Key::Num(1)),
        KeyCode::Char('2') => Some(Key::Num(2)),
        KeyCode::Char('3') => Some(Key::Num(3)),
        KeyCode::Char('4') => Some(Key::Num(0xc)),
        KeyCode::Char('q') => Some(Key::Num(4)),
        KeyCode::Char('w') => Some(Key::Num(5)),
        KeyCode::Char('e') => Some(Key::Num(6)),
        KeyCode::Char('r') => Some(Key::Num(0xd)),
        KeyCode::Char('a') => Some(Key::Num(7)),
        KeyCode::Char('s') => Some(Key::Num(8)),
        KeyCode::Char('d') => Some(Key::Num(9)),
        KeyCode::Char('f') => Some(Key::Num(0xe)),
        KeyCode::Char('z') => Some(Key::Num(0xa)),
        KeyCode::Char('x') => Some(Key::Num(0)),
        KeyCode::Char('c') => Some(Key::Num(0xb)),
        KeyCode::Char('v') => Some(Key::Num(0xf)),
        _ => None,
    }
}

/// Maps a keyboard event to the key event it stands for, if any.
pub fn key_event_for(key_code: KeyCode, kind: KeyEventKind) -> (event: Option<KeyEvent>)
    ensures
        event == key_event_of(key_code, kind),
        event.is_some() ==> event.unwrap().valid(),
{
    match handle_key_code(key_code) {
        Some(k) => match kind {
            KeyEventKind::Press => Some(KeyEvent::Pressed(k)),
            KeyEventKind::Repeat => Some(KeyEvent::Pressed(k)),
            KeyEventKind::Release => Some(KeyEvent::Released(k)),
        },
        None => None,
    }
}

/// Every pad key has a character, and only one.
pub proof fn law_every_pad_key_has_one_character(n: u8)
    requires
        n < 16,
    ensures
        exists|c: char| pad_key_of(c) == Some(n),
        forall|c: char, d: char|
            pad_key_of(c) == Some(n) && pad_key_of(d) == Some(n) ==> c == d,
{
    let layout = seq![
        'x', '1', '2', '3', 'q', 'w', 'e', 'a', 's', 'd', 'z', 'c', '4', 'r', 'f', 'v',
    ];
    assert(pad_key_of(layout[n as int]) == Some(n));
}

/// The rows of a pixel grid, top row first, each row left to right.
pub open spec fn grid_rows(buffer: [[bool; 64]; 32]) -> Seq<Seq<bool>> {
    Seq::new(32, |y: int| buffer@[y]@)
}

/// A view of the display, ready to be presented.
#[derive(Debug)]
pub struct Screen<'a> {
    display_buffer: &'a [[bool; 64]; 32],
}

impl<'a> View for Screen<'a> {
    type V = Seq<Seq<bool>>;

    closed spec fn view(&self) -> Seq<Seq<bool>> {
        grid_rows(*self.display_buffer)
    }
}

impl<'a> Screen<'a> {
    /// Wraps a pixel grid.
    pub fn new(display_buffer: &'a [[bool; WIDTH]; HEIGHT]) -> (screen: Self)
        ensures
            screen@ == grid_rows(*display_buffer),
    {
        Screen { display_buffer }
    }

    /// Returns the pixel in column `x` of row `y`.
    pub fn pixel(&self, x: usize, y: usize) -> (lit: bool)
        requires
            x < WIDTH,
            y < HEIGHT,
        ensures
            lit == self@[y as int][x as int],
    {
        self.display_buffer[y][x]
    }

    /// Returns the pixel grid.
    pub fn buffer(&self) -> (buffer: &'a [[bool; WIDTH]; HEIGHT])
        ensures
            grid_rows(*buffer) == self@,
    {
        self.display_buffer
    }
}

/// Whether the cell at offset `(dx, dy)` of an area of the given size shows
/// a set pixel. Every pixel is a block of `width / 64` by `height / 32`
/// cells, the blocks lie side by side from the area's top left corner, and
/// what is left over at the right and at the bottom stays empty. An area too
/// small for blocks of one cell shows nothing.
pub open spec fn cell_lit(grid: Seq<Seq<bool>>, width: u16, height: u16, dx: int, dy: int) -> bool {
    let pixel_width = width as int / 64;
    let pixel_height = height as int / 32;
    &&& pixel_width > 0
    &&& pixel_height > 0
    &&& 0 <= dx < 64 * pixel_width
    &&& 0 <= dy < 32 * pixel_height
    &&& grid[dy / pixel_height][dx / pixel_width]
}

/// Whether the cell `(dx, dy)` comes before the cell `(x, y)` when an area
/// is walked row by row.
spec fn cell_before(dx: int, dy: int, x: int, y: int) -> bool {
    dy < y || (dy == y && dx < x)
}

/// A pushed cell is contained; the others are as before.
proof fn lemma_push_contains(before: Seq<(u16, u16)>, cell: (u16, u16))
    ensures
        forall|c: (u16, u16)| #[trigger]
            before.push(cell).contains(c) <==> before.contains(c) || c == cell,
{
    let after = before.push(cell);
    assert forall|c: (u16, u16)| #[trigger]
        after.contains(c) <==> before.contains(c) || c == cell by {
        if before.contains(c) {
            let i = choose|i: int| 0 <= i < before.len() && before[i] == c;
            assert(after[i] == c);
        }
        if c == cell {
            assert(after[before.len() as int] == c);
        }
        if after.contains(c) {
            let i = choose|i: int| 0 <= i < after.len() && after[i] == c;
            if i < before.len() {
                assert(before[i] == c);
            }
        }
    }
}

/// A pixel's index is inside the grid for every cell inside the blocks.
proof fn lemma_block_index(offset: int, size: int, count: int)
    requires
        size > 0,
        0 <= offset < count * size,
    ensures
        0 <= offset / size < count,
{
    assert(0 <= offset / size < count) by (nonlinear_arith)
        requires
            size > 0,
            0 <= offset < count * size,
    ;
}

impl<'a> Screen<'a> {
    /// Returns the cells of an area of the given size that show a set pixel,
    /// as offsets from the area's top left corner, each cell once.
    pub fn cells(&self, width: u16, height: u16) -> (cells: Vec<(u16, u16)>)
        ensures
            forall|c: (u16, u16)| #[trigger]
                cells@.contains(c) <==> cell_lit(self@, width, height, c.0 as int, c.1 as int),
            cells@.no_duplicates(),
    {
        let mut cells: Vec<(u16, u16)> = Vec::new();
        let pixel_width = width / 64;
        let pixel_height = height / 32;
        if pixel_width == 0 || pixel_height == 0 {
            return cells;
        }
        let columns = 64 * pixel_width;
        let rows = 32 * pixel_height;
        let mut dy: u16 = 0;
        while dy < rows
            invariant
                pixel_width == width / 64,
                pixel_height == height / 32,
                pixel_width > 0,
                pixel_height > 0,
                columns == 64 * pixel_width,
                rows == 32 * pixel_height,
                dy <= rows,
                forall|c: (u16, u16)| #[trigger]
                    cells@.contains(c) <==> cell_lit(self@, width, height, c.0 as int, c.1 as int)
                        && cell_before(c.0 as int, c.1 as int, 0, dy as int),
                cells@.no_duplicates(),
            decreases rows - dy,
        {
            proof {
                lemma_block_index(dy as int, pixel_height as int, 32);
            }
            let y = (dy / pixel_height) as usize;
            let mut dx: u16 = 0;
            while dx < columns
                invariant
                    pixel_width == width / 64,
                    pixel_height == height / 32,
                    pixel_width > 0,
                    pixel_height > 0,
                    columns == 64 * pixel_width,
                    rows == 32 * pixel_height,
                    dy < rows,
                    dx <= columns,
                    y == dy / pixel_height,
                    y < 32,
                    forall|c: (u16, u16)| #[trigger]
                        cells@.contains(c) <==> cell_lit(
                            self@,
                            width,
                            height,
                            c.0 as int,
                            c.1 as int,
                        ) && cell_before(c.0 as int, c.1 as int, dx as int, dy as int),
                    cells@.no_duplicates(),
                decreases columns - dx,
            {
                proof {
                    lemma_block_index(dx as int, pixel_width as int, 64);
                }
                let x = (dx / pixel_width) as usize;
                if self.pixel(x, y) {
                    proof {
                        lemma_push_contains(cells@, (dx, dy));
                        assert(!cells@.contains((dx, dy)));
                    }
                    cells.push((dx, dy));
                }
                dx += 1;
            }
            dy += 1;
        }
        cells
    }
}

/// Every cell that shows a set pixel lies inside the area.
pub proof fn law_lit_cells_inside_area(
    grid: Seq<Seq<bool>>,
    width: u16,
    height: u16,
    dx: int,
    dy: int,
)
    requires
        cell_lit(grid, width, height, dx, dy),
    ensures
        0 <= dx < width,
        0 <= dy < height,
{
}

} // verus!
