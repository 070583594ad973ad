//! Flat 64 KiB address space.
//!
//! Addresses are 16 bits wide and every one of them names a cell, so no
//! access can fail. Words are little-endian, and the address of a word's
//! high byte wraps from `0xFFFF` to `0x0000`.

use vstd::prelude::*;

verus! {

/// Number of bytes in the address space.
pub const MEM_SIZE: usize = 65536;

/// Address of the low byte of the reset vector.
pub const RESET_VECTOR: u16 = 0xFFFC;

/// First address of the stack page.
pub const STACK_PAGE: u16 = 0x0100;

/// The 16-bit address that the integer `n` names once it wraps at the end
/// of the address space.
pub open spec fn wrap16(n: int) -> u16 {
    (n % 0x1_0000) as u16
}

/// The byte that the integer `n` names once it wraps at 256.
pub open spec fn wrap8(n: int) -> u8 {
    (n % 0x100) as u8
}

/// The word with low byte `lo` and high byte `hi`.
pub open spec fn word_of(lo: u8, hi: u8) -> u16 {
    (hi * 0x100 + lo) as u16
}

/// The low byte of `word`.
pub open spec fn low_byte(word: u16) -> u8 {
    (word % 0x100) as u8
}

/// The high byte of `word`, which is the number of its page.
pub open spec fn high_byte(word: u16) -> u8 {
    (word / 0x100) as u8
}

/// The little-endian word at `addr` in `cells`: the low byte at `addr`, the
/// high byte at the next address, which wraps.
pub open spec fn word_at(cells: Seq<u8>, addr: u16) -> u16 {
    word_of(cells[addr as int], cells[wrap16(addr + 1) as int])
}

/// `cells` with the little-endian word `word` stored at `addr`.
pub open spec fn with_word(cells: Seq<u8>, addr: u16, word: u16) -> Seq<u8> {
    cells.update(addr as int, low_byte(word)).update(wrap16(addr + 1) as int, high_byte(word))
}

/// `cells` with `bytes` laid over it from `origin` on.
pub open spec fn with_overlay(cells: Seq<u8>, origin: u16, bytes: Seq<u8>) -> Seq<u8> {
    Seq::new(
        cells.len(),
        |i: int|
            if origin <= i < origin + bytes.len() {
                bytes[i - origin]
            } else {
                cells[i]
            },
    )
}

/// Why an overlay was refused.
#[derive(Clone, Copy, Debug, PartialEq, Eq, Structural)]
pub enum LoadError {
    /// The bytes would run past the last address.
    OutOfRange,
}

/// The memory attached to the processor: one byte per 16-bit address.
#[derive(Clone, Debug, PartialEq, Eq)]
pub struct Mem {
    /// The cells, indexed by address.
    pub data: [u8; MEM_SIZE],
    /// Whether a program image has been placed in memory. A reset clears a
    /// memory that holds no image and keeps one that does.
    pub image_loaded: bool,
}

impl View for Mem {
    type V = Seq<u8>;

    open spec fn view(&self) -> Seq<u8> {
        self.data@
    }
}

/// The low byte of `word`.
pub fn low_byte_of(word: u16) -> (byte: u8)
    ensures
        byte == low_byte(word),
{
    (word % 0x100) as u8
}

/// The high byte of `word`.
pub fn high_byte_of(word: u16) -> (byte: u8)
    ensures
        byte == high_byte(word),
{
    (word / 0x100) as u8
}

/// The word with low byte `lo` and high byte `hi`.
pub fn make_word(lo: u8, hi: u8) -> (word: u16)
    ensures
        word == word_of(lo, hi),
        low_byte(word) == lo,
        high_byte(word) == hi,
{
    (hi as u16) * 0x100 + (lo as u16)
}

/// A word is made of its two bytes.
pub proof fn lemma_word_bytes(word: u16)
    ensures
        word_of(low_byte(word), high_byte(word)) == word,
{
}

impl Mem {
    /// A memory whose cells are all zero and that holds no image.
    pub fn new() -> (mem: Mem)
        ensures
            mem@.len() == MEM_SIZE,
            forall|i: int| 0 <= i < MEM_SIZE ==> mem@[i] == 0,
            !mem.image_loaded,
    {
        Mem { data: [0u8; MEM_SIZE], image_loaded: false }
    }

    /// A memory that holds `image`.
    pub fn from_image(image: [u8; MEM_SIZE]) -> (mem: Mem)
        ensures
            mem@ == image@,
            mem.image_loaded,
    {
        Mem { data: image, image_loaded: true }
    }

    /// Lays `bytes` over the cells from `origin` on and records that an
    /// image is loaded. Bytes that would run past the last address are
    /// refused, and the memory is then left as it was.
    pub fn load(&mut self, origin: u16, bytes: &[u8]) -> (outcome: Result<(), LoadError>)
        ensures
            outcome is Ok <==> origin + bytes@.len() <= MEM_SIZE,
            outcome is Ok ==> final(self)@ == with_overlay(old(self)@, origin, bytes@)
                && final(self).image_loaded,
            outcome is Err ==> outcome == Err::<(), LoadError>(LoadError::OutOfRange)
                && *final(self) == *old(self),
    {
        let len: usize = bytes.len();
        if len > MEM_SIZE - origin as usize {
            return Err(LoadError::OutOfRange);
        }
        let start: usize = origin as usize;
        let mut i: usize = 0;
        while i < len
            invariant
                len == bytes@.len(),
                start == origin,
                start + len <= MEM_SIZE,
                i <= len,
                self.image_loaded == old(self).image_loaded,
                self@ == with_overlay(old(self)@, origin, bytes@.take(i as int)),
            decreases len - i,
        {
            let ghost before: Seq<u8> = self.data@;
            self.data[start + i] = bytes[i];
            assert(self@ =~= with_overlay(old(self)@, origin, bytes@.take(i + 1))) by {
                assert(self@ == before.update(start + i, bytes@[i as int]));
            }
            i += 1;
        }
        self.image_loaded = true;
        assert(bytes@.take(len as int) =~= bytes@);
        Ok(())
    }

    /// Reads the cell at `addr` without charging a cycle.
    pub fn peek(&self, addr: u16) -> (value: u8)
        ensures
            value == self@[addr as int],
    {
        self.data[addr as usize]
    }

    /// Reads the little-endian word at `addr` without charging a cycle.
    pub fn peek_word(&self, addr: u16) -> (word: u16)
        ensures
            word == word_at(self@, addr),
    {
        let lo: u8 = self.data[addr as usize];
        let hi: u8 = self.data[addr.wrapping_add(1) as usize];
        make_word(lo, hi)
    }
}

} // verus!
