//! Colours of one LED, and the cell through which tasks share the chosen colour.
use core::sync::atomic::{AtomicU32, Ordering};
use vstd::prelude::*;

verus! {

/// The colour of one LED: red, green and blue, each from off to full.
#[derive(Clone, Copy, Debug, PartialEq, Eq, Structural)]
pub struct RGB8 {
    pub r: u8,
    pub g: u8,
    pub b: u8,
}

/// The colour of an LED that is off.
pub open spec fn black() -> RGB8 {
    RGB8 { r: 0, g: 0, b: 0 }
}

impl Default for RGB8 {
    fn default() -> (color: RGB8)
        ensures
            color == black(),
            color.r == 0 && color.g == 0 && color.b == 0,
    {
        RGB8 { r: 0, g: 0, b: 0 }
    }
}

/// The number that carries a colour: red in its third byte, green in its second,
/// blue in its lowest, and nothing in its highest.
pub open spec fn packed(color: RGB8) -> u32 {
    (color.r * 0x1_0000 + color.g * 0x100 + color.b) as u32
}

/// The colour that the low three bytes of a number carry.
pub open spec fn unpacked(word: u32) -> RGB8 {
    RGB8 {
        r: ((word / 0x1_0000) % 0x100) as u8,
        g: ((word / 0x100) % 0x100) as u8,
        b: (word % 0x100) as u8,
    }
}

impl RGB8 {
    /// The word that carries this colour.
    pub fn to_word(self) -> (word: u32)
        ensures
            word == packed(self),
    {
        let r: u32 = self.r as u32;
        let g: u32 = self.g as u32;
        let b: u32 = self.b as u32;
        assert((r << 16) | (g << 8) | b == r * 0x1_0000 + g * 0x100 + b) by (bit_vector)
            requires
                r < 0x100,
                g < 0x100,
                b < 0x100,
        ;
        (r << 16) | (g << 8) | b
    }

    /// The colour that a word carries; its highest byte does not matter.
    pub fn from_word(word: u32) -> (color: RGB8)
        ensures
            color == unpacked(word),
    {
        assert((word >> 16) & 0xFF == (word / 0x1_0000) % 0x100) by (bit_vector);
        assert((word >> 8) & 0xFF == (word / 0x100) % 0x100) by (bit_vector);
        assert(word & 0xFF == word % 0x100) by (bit_vector);
        RGB8 {
            r: ((word >> 16) & 0xFF) as u8,
            g: ((word >> 8) & 0xFF) as u8,
            b: (word & 0xFF) as u8,
        }
    }
}

/// A colour that several tasks share: one sets it, another gets it, and neither
/// waits for the other.
///
/// Tasks write through shared references, so a contract cannot say what the cell
/// holds between two calls. The contracts speak of single steps on the cell
/// instead, and a step can be shown only by taking it.
pub struct AtomicColor(AtomicU32);

impl AtomicColor {
    /// Making a cell with `word` in it can give this one.
    pub closed spec fn starts_with(&self, word: u32) -> bool {
        call_ensures(AtomicU32::new, (word,), self.0)
    }

    /// Reading the cell can give `word`.
    pub closed spec fn reads(&self, word: u32) -> bool {
        call_ensures(AtomicU32::load, (&self.0, Ordering::Relaxed), word)
    }

    /// Reading the cell can give the word of `color`.
    pub open spec fn gives(&self, color: RGB8) -> bool {
        exists|word: u32| self.reads(word) && color == unpacked(word)
    }

    /// Writing `word` to the cell can come to its end.
    pub closed spec fn writes(&self, word: u32) -> bool {
        call_ensures(AtomicU32::store, (&self.0, word, Ordering::Relaxed), ())
    }

    /// A colour cell that starts out black.
    pub fn new() -> (cell: AtomicColor)
        ensures
            cell.starts_with(packed(black())),
            cell.starts_with(0),
    {
        AtomicColor(AtomicU32::new(0))
    }

    /// The colour that the cell holds at the moment of the read. Which of the
    /// tasks' colours that is rests on the tasks, and no clause says it.
    pub fn get(&self) -> (color: RGB8)
        ensures
            self.gives(color),
    {
        let word: u32 = self.0.load(Ordering::Relaxed);
        assert(self.reads(word));
        RGB8::from_word(word)
    }

    /// Replaces the colour that the cell holds. The contract says that the word of
    /// `color` is written; it does not say that nothing else is, nor what a
    /// later read gives.
    pub fn set(&self, color: RGB8)
        ensures
            self.writes(packed(color)),
    {
        let word: u32 = color.to_word();
        self.0.store(word, Ordering::Relaxed);
    }
}

/// A read that takes out the word of a write gives back the colour that was
/// written.
pub proof fn read_returns_written(color: RGB8)
    ensures
        unpacked(packed(color)) == color,
{
    let word = packed(color);
    assert(word / 0x1_0000 == color.r);
    assert(word / 0x100 == color.r * 0x100 + color.g);
    assert((word / 0x100) % 0x100 == color.g);
    assert(word % 0x100 == color.b);
}

/// Two colours never share a word.
pub proof fn packing_is_injective(one: RGB8, other: RGB8)
    requires
        packed(one) == packed(other),
    ensures
        one == other,
{
    read_returns_written(one);
    read_returns_written(other);
}

/// Writing back what was read changes nothing but the unused highest byte.
pub proof fn written_back_keeps_low_bytes(word: u32)
    ensures
        packed(unpacked(word)) == word % 0x100_0000,
{
}

/// Each channel of a colour has a byte of the word to itself: red the third, green
/// the second and blue the lowest. The highest byte is empty.
pub proof fn each_channel_has_its_byte(color: RGB8)
    ensures
        packed(color) % 0x100 == color.b,
        (packed(color) / 0x100) % 0x100 == color.g,
        (packed(color) / 0x1_0000) % 0x100 == color.r,
        packed(color) / 0x100_0000 == 0,
{
    read_returns_written(color);
    assert(packed(color) / 0x100_0000 == 0);
}

/// The channels of a word's colour add up to the word, but for its highest byte.
pub proof fn channels_add_up_to_the_word(word: u32)
    ensures
        unpacked(word).r * 0x1_0000 + unpacked(word).g * 0x100 + unpacked(word).b == word
            % 0x100_0000,
{
    written_back_keeps_low_bytes(word);
}

/// A new cell starts with the word whose colour is off in every channel.
pub proof fn new_cell_starts_off(cell: AtomicColor)
    requires
        call_ensures(AtomicColor::new, (), cell),
    ensures
        exists|word: u32| #[trigger]
            cell.starts_with(word) && unpacked(word).r == 0 && unpacked(word).g == 0 && unpacked(
                word,
            ).b == 0,
{
    read_returns_written(RGB8 { r: 0, g: 0, b: 0 });
    assert(cell.starts_with(0));
}

/// What `get` returns is the colour of a word that a read of the cell can give:
/// its channels add up to the low bytes of that word.
pub proof fn get_returns_what_is_read(cell: AtomicColor, color: RGB8)
    requires
        call_ensures(AtomicColor::get, (&cell,), color),
    ensures
        exists|word: u32| #[trigger]
            cell.reads(word) && word % 0x100_0000 == color.r * 0x1_0000 + color.g * 0x100 + color.b,
{
    let word = choose|word: u32| cell.reads(word) && color == unpacked(word);
    channels_add_up_to_the_word(word);
    assert(cell.reads(word));
}

/// What `set` writes is one word, from which a read gets the same colour back.
pub proof fn set_writes_what_get_reads(cell: AtomicColor, color: RGB8)
    requires
        call_ensures(AtomicColor::set, (&cell, color), ()),
    ensures
        exists|word: u32| #[trigger]
            cell.writes(word) && unpacked(word) == color && word == color.r * 0x1_0000 + color.g
                * 0x100 + color.b,
{
    read_returns_written(color);
    assert(cell.writes(packed(color)));
}

} // verus!
