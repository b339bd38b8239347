//! The flat, byte-addressable memory that the processor reads.

use vstd::prelude::*;

verus! {

/// The word whose little-endian bytes are `b0` (least significant) to `b3`.
pub open spec fn le_word(b0: u8, b1: u8, b2: u8, b3: u8) -> u32 {
    (b0 + 0x100 * b1 + 0x1_0000 * b2 + 0x100_0000 * b3) as u32
}

/// The four bytes of `value`, least significant first.
pub open spec fn le_bytes(value: u32) -> Seq<u8> {
    seq![
        (value % 0x100) as u8,
        (value / 0x100 % 0x100) as u8,
        (value / 0x1_0000 % 0x100) as u8,
        (value / 0x100_0000) as u8,
    ]
}

/// Whether the byte at `address` lies inside `mem`.
pub open spec fn byte_in_bounds(mem: Seq<u8>, address: u32) -> bool {
    address < mem.len()
}

/// Whether the four bytes starting at `address` all lie inside `mem`.
pub open spec fn word_in_bounds(mem: Seq<u8>, address: u32) -> bool {
    address + 3 < mem.len()
}

/// The little-endian word stored in the four bytes starting at `address`.
pub open spec fn word_at(mem: Seq<u8>, address: u32) -> u32 {
    le_word(mem[address as int], mem[address + 1], mem[address + 2], mem[address + 3])
}

/// `mem` with the bytes from `at` on replaced by `bytes`.
pub open spec fn overwrite(mem: Seq<u8>, at: int, bytes: Seq<u8>) -> Seq<u8> {
    Seq::new(
        mem.len(),
        |i: int|
            if at <= i < at + bytes.len() {
                bytes[i - at]
            } else {
                mem[i]
            },
    )
}

/// Composing four bytes by shifts is the same as weighting them by powers of
/// 256, and the result always fits in a word.
pub proof fn lemma_le_word_by_shifts(b0: u8, b1: u8, b2: u8, b3: u8)
    by (bit_vector)
    ensures
        b0 + 0x100 * b1 + 0x1_0000 * b2 + 0x100_0000 * b3 <= 0xFFFF_FFFF,
        (b0 as u32) | ((b1 as u32) << 8) | ((b2 as u32) << 16) | ((b3 as u32) << 24) == b0 + 0x100
            * b1 + 0x1_0000 * b2 + 0x100_0000 * b3,
{
}

/// Splitting a word into bytes by shifts and masks yields its base-256 digits.
pub proof fn lemma_le_bytes_by_shifts(value: u32)
    by (bit_vector)
    ensures
        value & 0xFF == value % 0x100,
        (value >> 8) & 0xFF == value / 0x100 % 0x100,
        (value >> 16) & 0xFF == value / 0x1_0000 % 0x100,
        value >> 24 == value / 0x100_0000,
        value % 0x100 < 0x100,
        value / 0x100 % 0x100 < 0x100,
        value / 0x1_0000 % 0x100 < 0x100,
        value / 0x100_0000 < 0x100,
{
}

/// Writing a word and reading it back gives the word: a word is the
/// composition of its own little-endian bytes.
pub proof fn lemma_le_word_of_le_bytes(value: u32)
    ensures
        le_word(le_bytes(value)[0], le_bytes(value)[1], le_bytes(value)[2], le_bytes(value)[3])
            == value,
{
}

/// A byte buffer of a size fixed at construction, addressed by byte offsets.
/// Its view is the sequence of its bytes.
pub struct Memory {
    data: Vec<u8>,
}

impl View for Memory {
    type V = Seq<u8>;

    closed spec fn view(&self) -> Seq<u8> {
        self.data@
    }
}

impl Memory {
    /// A memory of `size` bytes, all zero.
    pub fn new(size: usize) -> (memory: Memory)
        ensures
            memory@.len() == size,
            forall|i: int| 0 <= i < size ==> memory@[i] == 0,
    {
        Memory { data: vec![0u8; size] }
    }

    /// The number of bytes in the memory.
    pub fn size(&self) -> (n: usize)
        ensures
            n == self@.len(),
    {
        self.data.len()
    }

    /// Whether `address` is the offset of a byte of this memory.
    pub fn contains_byte(&self, address: u32) -> (inside: bool)
        ensures
            inside == byte_in_bounds(self@, address),
    {
        (address as usize) < self.data.len()
    }

    /// Whether the word at `address` lies wholly inside this memory.
    pub fn contains_word(&self, address: u32) -> (inside: bool)
        ensures
            inside == word_in_bounds(self@, address),
    {
        let len = self.data.len();
        len >= 4 && (address as usize) <= len - 4
    }

    /// The byte at `address`.
    pub fn read_byte(&self, address: u32) -> (byte: u8)
        requires
            byte_in_bounds(self@, address),
        ensures
            byte == self@[address as int],
    {
        self.data[address as usize]
    }

    /// The little-endian word in the four bytes starting at `address`.
    pub fn read_word(&self, address: u32) -> (word: u32)
        requires
            word_in_bounds(self@, address),
        ensures
            word == word_at(self@, address),
    {
        assert(self.data@.len() == self.data.len());
        let start = address as usize;
        let byte0 = self.data[start] as u32;
        let byte1 = self.data[start + 1] as u32;
        let byte2 = self.data[start + 2] as u32;
        let byte3 = self.data[start + 3] as u32;
        proof {
            lemma_le_word_by_shifts(byte0 as u8, byte1 as u8, byte2 as u8, byte3 as u8);
        }
        byte0 | (byte1 << 8) | (byte2 << 16) | (byte3 << 24)
    }

    /// Copies `bytes` into the memory, starting at `address`.
    pub fn write_bytes(&mut self, address: u32, bytes: &[u8])
        requires
            address + bytes@.len() <= old(self)@.len(),
        ensures
            final(self)@ == overwrite(old(self)@, address as int, bytes@),
    {
        assert(self.data@.len() == self.data.len());
        let start = address as usize;
        let mut i: usize = 0;
        while i < bytes.len()
            invariant
                i <= bytes@.len(),
                start == address,
                start + bytes@.len() <= self.data@.len(),
                self@ == overwrite(old(self)@, address as int, bytes@.subrange(0, i as int)),
            decreases bytes@.len() - i,
        {
            assert(self.data@.len() == self.data.len());
            self.data[start + i] = bytes[i];
            i += 1;
        }
        assert(bytes@.subrange(0, i as int) == bytes@);
    }

    /// Stores `value` in little-endian order in the four bytes starting at
    /// `address`.
    pub fn write_word(&mut self, address: u32, value: u32)
        requires
            word_in_bounds(old(self)@, address),
        ensures
            final(self)@ == overwrite(old(self)@, address as int, le_bytes(value)),
            word_in_bounds(final(self)@, address),
            word_at(final(self)@, address) == value,
    {
        proof {
            lemma_le_bytes_by_shifts(value);
            lemma_le_word_of_le_bytes(value);
        }
        let bytes: [u8; 4] = [
            (value & 0xFF) as u8,
            ((value >> 8) & 0xFF) as u8,
            ((value >> 16) & 0xFF) as u8,
            (value >> 24) as u8,
        ];
        assert(bytes@ == le_bytes(value));
        self.write_bytes(address, bytes.as_slice());
    }
}

} // verus!
