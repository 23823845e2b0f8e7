//! Cartridges: raw program images, and their listing as instructions.

use vstd::prelude::*;
use crate::opcode::decode;
use crate::opcode::parse_opcode;
use crate::opcode::Operation;
use crate::text::hex;
use crate::text::mnemonic;
use crate::text::push_hex_padded;
use crate::text::zero_padded;

verus! {

/// The address at which a cartridge is loaded.
pub const CARTRIDGE_ADDRESS: usize = 0x200;

/// One entry of a listing: an instruction word and the operation it encodes.
#[derive(Clone, Copy, Debug, PartialEq, Eq, Structural)]
pub struct Assemable {
    opcode: u16,
    operation: Operation,
}

impl View for Assemable {
    type V = (u16, Operation);

    closed spec fn view(&self) -> (u16, Operation) {
        (self.opcode, self.operation)
    }
}

impl Assemable {
    /// Pairs a word with an operation.
    pub fn new(opcode: u16, operation: Operation) -> (entry: Self)
        ensures
            entry@ == (opcode, operation),
    {
        Assemable { opcode, operation }
    }

    /// Returns the instruction word.
    pub fn opcode(&self) -> (opcode: u16)
        ensures
            opcode == self@.0,
    {
        self.opcode
    }

    /// Returns the operation.
    pub fn operation(&self) -> (operation: Operation)
        ensures
            operation == self@.1,
    {
        self.operation
    }
}

/// The number of instruction words in an image of `len` bytes: a last odd
/// byte counts as a word.
pub open spec fn word_count(len: nat) -> nat {
    (len + 1) / 2
}

/// The `k`-th instruction word of an image, most significant byte first. A
/// last odd byte is completed with a zero byte.
pub open spec fn word_of(cartridge: Seq<u8>, k: int) -> u16 {
    let high = cartridge[2 * k];
    let low = if 2 * k + 1 < cartridge.len() {
        cartridge[2 * k + 1]
    } else {
        0u8
    };
    (high * 0x100 + low) as u16
}

/// Lists an image as instructions: one entry for every two bytes, in order,
/// each holding the word and the operation that it decodes to.
pub fn disassemble_cartridge(cartridge: &[u8]) -> (listing: Vec<Assemable>)
    ensures
        listing@.len() == word_count(cartridge@.len()),
        forall|k: int|
            0 <= k < listing@.len() ==> (#[trigger] listing@[k])@ == (
                word_of(cartridge@, k),
                decode(word_of(cartridge@, k)),
            ),
{
    let len = cartridge.len();
    let words = len / 2 + len % 2;
    let mut listing: Vec<Assemable> = Vec::new();
    let mut k: usize = 0;
    while k < words
        invariant
            len == cartridge@.len(),
            words == word_count(len as nat),
            k <= words,
            listing@.len() == k,
            forall|j: int|
                0 <= j < listing@.len() ==> (#[trigger] listing@[j])@ == (
                    word_of(cartridge@, j),
                    decode(word_of(cartridge@, j)),
                ),
        decreases words - k,
    {
        let high = cartridge[2 * k];
        let low = if 2 * k + 1 < len {
            cartridge[2 * k + 1]
        } else {
            0
        };
        let opcode = high as u16 * 0x100 + low as u16;
        listing.push(Assemable::new(opcode, parse_opcode(opcode)));
        k += 1;
    }
    listing
}

/// One line of a listing: the address in twelve hexadecimal digits, the
/// word in four, and the mnemonic.
pub open spec fn listing_line(address: nat, entry: (u16, Operation)) -> Seq<char> {
    zero_padded(hex(address), 12) + ": ["@ + zero_padded(hex(entry.0 as nat), 4) + "] "@ + mnemonic(
        entry.1,
    )
}

/// The address of the `k`-th word of a cartridge.
pub open spec fn address_of_word(k: nat) -> nat {
    CARTRIDGE_ADDRESS as nat + 2 * k
}

impl Assemable {
    /// Returns the entry's line in a listing, given its address.
    pub fn line(&self, address: u128) -> (text: String)
        ensures
            text@ == listing_line(address as nat, self@),
    {
        let mut text = String::new();
        push_hex_padded(&mut text, address, 12);
        text.append(": [");
        push_hex_padded(&mut text, self.opcode as u128, 4);
        text.append("] ");
        let name = self.operation.to_text();
        text.append(name.as_str());
        proof {
            assert(text@ =~= listing_line(address as nat, self@));
        }
        text
    }
}

/// Lists an image as text: one line for each instruction word, with the
/// address that the word has once the cartridge is loaded.
pub fn cartridge_listing(cartridge: &[u8]) -> (lines: Vec<String>)
    ensures
        lines@.len() == word_count(cartridge@.len()),
        forall|k: int|
            0 <= k < lines@.len() ==> (#[trigger] lines@[k])@ == listing_line(
                address_of_word(k as nat),
                (word_of(cartridge@, k), decode(word_of(cartridge@, k))),
            ),
{
    let entries = disassemble_cartridge(cartridge);
    let mut lines: Vec<String> = Vec::new();
    let mut addr: u128 = CARTRIDGE_ADDRESS as u128;
    let mut k: usize = 0;
    while k < entries.len()
        invariant
            k <= entries@.len(),
            entries@.len() == word_count(cartridge@.len()),
            forall|j: int|
                0 <= j < entries@.len() ==> (#[trigger] entries@[j])@ == (
                    word_of(cartridge@, j),
                    decode(word_of(cartridge@, j)),
                ),
            addr == address_of_word(k as nat),
            lines@.len() == k,
            forall|j: int|
                0 <= j < lines@.len() ==> (#[trigger] lines@[j])@ == listing_line(
                    address_of_word(j as nat),
                    (word_of(cartridge@, j), decode(word_of(cartridge@, j))),
                ),
        decreases entries@.len() - k,
    {
        lines.push(entries[k].line(addr));
        addr += 2;
        k += 1;
    }
    lines
}

} // verus!
