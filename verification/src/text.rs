//! Text: hexadecimal numbers and the mnemonics of operations.

use vstd::prelude::*;
use crate::opcode::Operation;

verus! {

/// The lower-case hexadecimal digit for `d`, which is below 16.
pub open spec fn hex_char(d: int) -> char {
    if d == 0 {
        '0'
    } else if d == 1 {
        '1'
    } else if d == 2 {
        '2'
    } else if d == 3 {
        '3'
    } else if d == 4 {
        '4'
    } else if d == 5 {
        '5'
    } else if d == 6 {
        '6'
    } else if d == 7 {
        '7'
    } else if d == 8 {
        '8'
    } else if d == 9 {
        '9'
    } else if d == 10 {
        'a'
    } else if d == 11 {
        'b'
    } else if d == 12 {
        'c'
    } else if d == 13 {
        'd'
    } else if d == 14 {
        'e'
    } else {
        'f'
    }
}

/// The hexadecimal digits of `n`, most significant first, without leading
/// zeros; zero is the single digit `0`.
pub open spec fn hex(n: nat) -> Seq<char>
    decreases n,
{
    if n < 16 {
        seq![hex_char(n as int)]
    } else {
        hex(n / 16).push(hex_char((n % 16) as int))
    }
}

/// `digits` with zeros put in front until it is `width` characters long;
/// `digits` itself if it is that long already.
pub open spec fn zero_padded(digits: Seq<char>, width: nat) -> Seq<char> {
    if digits.len() >= width {
        digits
    } else {
        Seq::new((width - digits.len()) as nat, |i: int| '0') + digits
    }
}

/// Returns the hexadecimal digit for `d` as a string.
fn hex_digit(d: u8) -> (digit: &'static str)
    requires
        d < 16,
    ensures
        digit@ == seq![hex_char(d as int)],
{
    proof {
        reveal_strlit("0");
        reveal_strlit("1");
        reveal_strlit("2");
        reveal_strlit("3");
        reveal_strlit("4");
        reveal_strlit("5");
        reveal_strlit("6");
        reveal_strlit("7");
        reveal_strlit("8");
        reveal_strlit("9");
        reveal_strlit("a");
        reveal_strlit("b");
        reveal_strlit("c");
        reveal_strlit("d");
        reveal_strlit("e");
        reveal_strlit("f");
    }
    let digit = match d {
        0 => "0",
        1 => "1",
        2 => "2",
        3 => "3",
        4 => "4",
        5 => "5",
        6 => "6",
        7 => "7",
        8 => "8",
        9 => "9",
        10 => "a",
        11 => "b",
        12 => "c",
        13 => "d",
        14 => "e",
        _ => "f",
    };
    assert(digit@ =~= seq![hex_char(d as int)]);
    digit
}

/// Returns the number of hexadecimal digits of `n`.
fn hex_len(n: u128) -> (len: usize)
    ensures
        len == hex(n as nat).len(),
        1 <= len <= 32,
    decreases n,
{
    if n < 16 {
        1
    } else {
        let rest = hex_len(n / 16);
        assert(rest <= 31) by {
            lemma_hex_len_bound(n as nat);
        }
        rest + 1
    }
}

/// The sixteenth part of a number of 128 bits has at most 31 hexadecimal
/// digits.
proof fn lemma_hex_len_bound(n: nat)
    requires
        16 <= n <= u128::MAX,
    ensures
        hex(n / 16).len() <= 31,
{
    assert(sixteen_to(31) == 0x1000_0000_0000_0000_0000_0000_0000_0000) by {
        reveal_with_fuel(sixteen_to, 32);
    }
    lemma_hex_len_steps(n / 16, 31);
}

/// A number below sixteen to the power `k` has at most `k` hexadecimal
/// digits.
proof fn lemma_hex_len_steps(n: nat, k: nat)
    requires
        k >= 1,
        n < sixteen_to(k),
    ensures
        hex(n).len() <= k,
    decreases k,
{
    if n >= 16 {
        assert(k >= 2) by {
            assert(sixteen_to(1) == 16) by {
                assert(sixteen_to(0) == 1);
            }
        }
        assert(n / 16 < sixteen_to((k - 1) as nat));
        lemma_hex_len_steps(n / 16, (k - 1) as nat);
    }
}

/// Sixteen to the power `k`.
spec fn sixteen_to(k: nat) -> nat
    decreases k,
{
    if k == 0 {
        1
    } else {
        16 * sixteen_to((k - 1) as nat)
    }
}

/// Appends the hexadecimal digits of `n` to `text`.
pub fn push_hex(text: &mut String, n: u128)
    ensures
        final(text)@ == old(text)@ + hex(n as nat),
    decreases n,
{
    if n >= 16 {
        push_hex(text, n / 16);
    }
    text.append(hex_digit((n % 16) as u8));
    proof {
        if n >= 16 {
            assert(old(text)@ + hex((n / 16) as nat) + seq![hex_char((n % 16) as int)] =~= old(
                text,
            )@ + hex(n as nat));
        }
    }
}

/// Appends the hexadecimal digits of `n` to `text`, with zeros in front of
/// them where they are fewer than `width`.
pub fn push_hex_padded(text: &mut String, n: u128, width: usize)
    ensures
        final(text)@ == old(text)@ + zero_padded(hex(n as nat), width as nat),
{
    let len = hex_len(n);
    let mut i: usize = len;
    while i < width
        invariant
            len == hex(n as nat).len(),
            len <= i,
            i <= width || i == len,
            text@ =~= old(text)@ + Seq::new((i - len) as nat, |j: int| '0'),
        decreases width - i,
    {
        text.append("0");
        i += 1;
        proof {
            reveal_strlit("0");
            assert(Seq::new((i - 1 - len) as nat, |j: int| '0') + "0"@ =~= Seq::new(
                (i - len) as nat,
                |j: int| '0',
            ));
        }
    }
    proof {
        assert(Seq::new(0, |j: int| '0') + hex(n as nat) =~= hex(n as nat));
    }
    push_hex(text, n);
    proof {
        assert(text@ =~= old(text)@ + zero_padded(hex(n as nat), width as nat));
    }
}

/// A text that ends in a number: `head` and the hexadecimal digits of `a`.
pub open spec fn with_one(head: Seq<char>, a: nat) -> Seq<char> {
    head + hex(a)
}

/// A text with two numbers in it: `head`, the hexadecimal digits of `a`,
/// `middle`, and those of `b`.
pub open spec fn with_two(head: Seq<char>, a: nat, middle: Seq<char>, b: nat) -> Seq<char> {
    head + hex(a) + middle + hex(b)
}

/// The mnemonic of an operation: its name and its operands, registers as
/// `v` and a hexadecimal digit, constants as `#` and hexadecimal digits.
pub open spec fn mnemonic(operation: Operation) -> Seq<char> {
    match operation {
        Operation::CallSysC(c) => "call_sys "@ + zero_padded(hex(c as nat), 12),
        Operation::Clear => "cls"@,
        Operation::Return => "ret"@,
        Operation::JumpC(c) => with_one("jmp #"@, c as nat),
        Operation::CallC(c) => with_one("call #"@, c as nat),
        Operation::SkipEqC(x, c) => with_two("skp_eq v"@, x as nat, ", #"@, c as nat),
        Operation::SkipNeC(x, c) => with_two("skp_ne v"@, x as nat, ", #"@, c as nat),
        Operation::SkipEq(x, y) => with_two("skp_eq v"@, x as nat, ", v"@, y as nat),
        Operation::SetC(x, c) => with_two("set v"@, x as nat, ", #"@, c as nat),
        Operation::AddC(x, c) => with_two("add v"@, x as nat, ", #"@, c as nat),
        Operation::Assign(x, y) => with_two("set v"@, x as nat, ", v"@, y as nat),
        Operation::Or(x, y) => with_two("or v"@, x as nat, " v"@, y as nat),
        Operation::And(x, y) => with_two("and v"@, x as nat, ", v"@, y as nat),
        Operation::Xor(x, y) => with_two("xor v"@, x as nat, ", v"@, y as nat),
        Operation::Add(x, y) => with_two("add v"@, x as nat, ", v"@, y as nat),
        Operation::Sub(x, y) => with_two("sub v"@, x as nat, ", v"@, y as nat),
        Operation::Shr(x, y) => with_two("rshf v"@, x as nat, ", v"@, y as nat),
        Operation::SubRev(x, y) => with_two("sub_neg v"@, x as nat, ", v"@, y as nat),
        Operation::Shl(x, y) => with_two("lshf v"@, x as nat, ", v"@, y as nat),
        Operation::SkipNe(x, y) => with_two("skp_ne v"@, x as nat, ", v"@, y as nat),
        Operation::SetIC(c) => with_one("set vI, #"@, c as nat),
        Operation::JumpV0C(c) => with_one("jmp vI(#"@, c as nat) + ")"@,
        Operation::RandC(x, c) => with_two("rand v"@, x as nat, ", #"@, c as nat),
        Operation::DrawC(x, y, c) => with_two("draw v"@, x as nat, ", v"@, y as nat) + ", #"@ + hex(
            c as nat,
        ),
        Operation::SkipEqKey(x) => with_one("skp_eq v"@, x as nat) + ", $key"@,
        Operation::SkipNeKey(x) => with_one("skip_ne v"@, x as nat) + ", $key"@,
        Operation::GetDelayTimer(x) => with_one("set v"@, x as nat) + ", $dtm"@,
        Operation::GetKey(x) => with_one("set v"@, x as nat) + ", $key"@,
        Operation::SetDelayTimer(x) => with_one("set $dtm, v"@, x as nat),
        Operation::SetSoundTimer(x) => with_one("set $stm, v"@, x as nat),
        Operation::AddI(x) => with_one("add vI, v"@, x as nat),
        Operation::SetIFont(x) => with_one("set vI, Sprite(V"@, x as nat) + ")"@,
        Operation::Bcd(x) => with_one("bcd v"@, x as nat),
        Operation::Store(x) => with_one("store v"@, x as nat),
        Operation::Restore(x) => with_one("restore v"@, x as nat),
        Operation::Unknown(c) => "unk(#"@ + zero_padded(hex(c as nat), 4) + ")"@,
    }
}

/// Builds a text that ends in a number.
fn text_with_one(head: &str, a: u128) -> (text: String)
    ensures
        text@ == with_one(head@, a as nat),
{
    let mut text = String::from_str(head);
    push_hex(&mut text, a);
    text
}

/// Builds a text with two numbers in it.
fn text_with_two(head: &str, a: u128, middle: &str, b: u128) -> (text: String)
    ensures
        text@ == with_two(head@, a as nat, middle@, b as nat),
{
    let mut text = String::from_str(head);
    push_hex(&mut text, a);
    text.append(middle);
    push_hex(&mut text, b);
    text
}

impl Operation {
    /// Returns the mnemonic of the operation.
    pub fn to_text(&self) -> (text: String)
        ensures
            text@ == mnemonic(*self),
    {
        match self {
            Operation::CallSysC(c) => {
                let mut text = String::from_str("call_sys ");
                push_hex_padded(&mut text, *c as u128, 12);
                text
            },
            Operation::Clear => String::from_str("cls"),
            Operation::Return => String::from_str("ret"),
            Operation::JumpC(c) => text_with_one("jmp #", *c as u128),
            Operation::CallC(c) => text_with_one("call #", *c as u128),
            Operation::SkipEqC(x, c) => text_with_two("skp_eq v", *x as u128, ", #", *c as u128),
            Operation::SkipNeC(x, c) => text_with_two("skp_ne v", *x as u128, ", #", *c as u128),
            Operation::SkipEq(x, y) => text_with_two("skp_eq v", *x as u128, ", v", *y as u128),
            Operation::SetC(x, c) => text_with_two("set v", *x as u128, ", #", *c as u128),
            Operation::AddC(x, c) => text_with_two("add v", *x as u128, ", #", *c as u128),
            Operation::Assign(x, y) => text_with_two("set v", *x as u128, ", v", *y as u128),
            Operation::Or(x, y) => text_with_two("or v", *x as u128, " v", *y as u128),
            Operation::And(x, y) => text_with_two("and v", *x as u128, ", v", *y as u128),
            Operation::Xor(x, y) => text_with_two("xor v", *x as u128, ", v", *y as u128),
            Operation::Add(x, y) => text_with_two("add v", *x as u128, ", v", *y as u128),
            Operation::Sub(x, y) => text_with_two("sub v", *x as u128, ", v", *y as u128),
            Operation::Shr(x, y) => text_with_two("rshf v", *x as u128, ", v", *y as u128),
            Operation::SubRev(x, y) => text_with_two("sub_neg v", *x as u128, ", v", *y as u128),
            Operation::Shl(x, y) => text_with_two("lshf v", *x as u128, ", v", *y as u128),
            Operation::SkipNe(x, y) => text_with_two("skp_ne v", *x as u128, ", v", *y as u128),
            Operation::SetIC(c) => text_with_one("set vI, #", *c as u128),
            Operation::JumpV0C(c) => {
                let mut text = text_with_one("jmp vI(#", *c as u128);
                text.append(")");
                text
            },
            Operation::RandC(x, c) => text_with_two("rand v", *x as u128, ", #", *c as u128),
            Operation::DrawC(x, y, c) => {
                let mut text = text_with_two("draw v", *x as u128, ", v", *y as u128);
                text.append(", #");
                push_hex(&mut text, *c as u128);
                text
            },
            Operation::SkipEqKey(x) => {
                let mut text = text_with_one("skp_eq v", *x as u128);
                text.append(", $key");
                text
            },
            Operation::SkipNeKey(x) => {
                let mut text = text_with_one("skip_ne v", *x as u128);
                text.append(", $key");
                text
            },
            Operation::GetDelayTimer(x) => {
                let mut text = text_with_one("set v", *x as u128);
                text.append(", $dtm");
                text
            },
            Operation::GetKey(x) => {
                let mut text = text_with_one("set v", *x as u128);
                text.append(", $key");
                text
            },
            Operation::SetDelayTimer(x) => text_with_one("set $dtm, v", *x as u128),
            Operation::SetSoundTimer(x) => text_with_one("set $stm, v", *x as u128),
            Operation::AddI(x) => text_with_one("add vI, v", *x as u128),
            Operation::SetIFont(x) => {
                let mut text = text_with_one("set vI, Sprite(V", *x as u128);
                text.append(")");
                text
            },
            Operation::Bcd(x) => text_with_one("bcd v", *x as u128),
            Operation::Store(x) => text_with_one("store v", *x as u128),
            Operation::Restore(x) => text_with_one("restore v", *x as u128),
            Operation::Unknown(c) => {
                let mut text = String::from_str("unk(#");
                push_hex_padded(&mut text, *c as u128, 4);
                text.append(")");
                text
            },
        }
    }
}

} // verus!
