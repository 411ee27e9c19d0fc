//! # AES block layout
//!
//! The key sizes and cipher types of the AES engine, and the order in which
//! a 16-byte block passes through its FIFO: as four big-endian 32-bit
//! words, last word first.
use vstd::prelude::*;

verus! {

/// Enum representing the type of cipher operation.
#[derive(Debug, Clone, Copy, PartialEq, Eq, Structural)]
pub enum CipherType {
    /// Encryption mode (control field value 0b00).
    Encrypt,
    /// Decryption mode (control field value 0b10).
    Decrypt,
}

impl CipherType {
    /// The value of the cipher type field of the control register.
    pub fn field(&self) -> (r: u8)
        ensures
            *self == CipherType::Encrypt ==> r == 0b00,
            *self == CipherType::Decrypt ==> r == 0b10,
    {
        match self {
            CipherType::Encrypt => 0b00,
            CipherType::Decrypt => 0b10,
        }
    }
}

/// Enum for representing the AES key sizes.
pub enum Key<'a> {
    /// 128-bit key
    Bits128(&'a [u8; 16]),
    /// 192-bit key
    Bits192(&'a [u8; 24]),
    /// 256-bit key
    Bits256(&'a [u8; 32]),
}

impl<'a> Key<'a> {
    /// Returns the size of the key in bytes.
    pub fn size(&self) -> (r: usize)
        ensures
            self is Bits128 ==> r == 16,
            self is Bits192 ==> r == 24,
            self is Bits256 ==> r == 32,
    {
        match self {
            Key::Bits128(_) => 16,
            Key::Bits192(_) => 24,
            Key::Bits256(_) => 32,
        }
    }
}

/// The big-endian 32-bit word of four bytes.
pub open spec fn be_word(b0: u8, b1: u8, b2: u8, b3: u8) -> int {
    b0 * 0x100_0000 + b1 * 0x1_0000 + b2 * 0x100 + b3
}

/// The big-endian word of bytes `4k .. 4k + 4` of a block.
pub open spec fn block_word(block: [u8; 16], k: int) -> int {
    be_word(block[4 * k], block[4 * k + 1], block[4 * k + 2], block[4 * k + 3])
}

/// The byte `i` (0 is the most significant) of a big-endian 32-bit word.
pub open spec fn word_byte(w: u32, i: int) -> u8 {
    ((w as int / pow256(3 - i)) % 256) as u8
}

/// 256 to the power `n`, for `n` from 0 to 3.
pub open spec fn pow256(n: int) -> int {
    if n <= 0 {
        1
    } else if n == 1 {
        0x100
    } else if n == 2 {
        0x1_0000
    } else {
        0x100_0000
    }
}

fn be_from_bytes(b0: u8, b1: u8, b2: u8, b3: u8) -> (r: u32)
    ensures
        r == be_word(b0, b1, b2, b3),
{
    let r = (b0 as u32) << 24 | (b1 as u32) << 16 | (b2 as u32) << 8 | b3 as u32;
    assert(((b0 as u32) << 24u32 | (b1 as u32) << 16u32 | (b2 as u32) << 8u32 | b3 as u32)
        == b0 * 0x100_0000 + b1 * 0x1_0000 + b2 * 0x100 + b3) by (bit_vector);
    r
}

fn be_to_bytes(w: u32) -> (r: [u8; 4])
    ensures
        forall|i: int| 0 <= i < 4 ==> r[i] == word_byte(w, i),
{
    assert((w >> 24u32) as u8 == ((w / 0x100_0000) % 256) as u8) by (bit_vector);
    assert((w >> 16u32) as u8 == ((w / 0x1_0000) % 256) as u8) by (bit_vector);
    assert((w >> 8u32) as u8 == ((w / 0x100) % 256) as u8) by (bit_vector);
    assert(w as u8 == (w % 256) as u8) by (bit_vector);
    [(w >> 24) as u8, (w >> 16) as u8, (w >> 8) as u8, w as u8]
}

/// The four words written to the input FIFO for a block: the big-endian
/// words of the block, last word first.
pub fn block_to_fifo_words(block: &[u8; 16]) -> (r: [u32; 4])
    ensures
        forall|k: int| 0 <= k < 4 ==> r[k] == block_word(*block, 3 - k),
{
    [
        be_from_bytes(block[12], block[13], block[14], block[15]),
        be_from_bytes(block[8], block[9], block[10], block[11]),
        be_from_bytes(block[4], block[5], block[6], block[7]),
        be_from_bytes(block[0], block[1], block[2], block[3]),
    ]
}

/// The block that four words read from the output FIFO make: the first
/// word read is the last four bytes, each word big-endian.
pub fn fifo_words_to_block(words: &[u32; 4]) -> (r: [u8; 16])
    ensures
        forall|k: int, i: int|
            0 <= k < 4 && 0 <= i < 4 ==> r[4 * (3 - k) + i] == word_byte(words[k], i),
{
    let w3 = be_to_bytes(words[3]);
    let w2 = be_to_bytes(words[2]);
    let w1 = be_to_bytes(words[1]);
    let w0 = be_to_bytes(words[0]);
    let r = [
        w3[0], w3[1], w3[2], w3[3],
        w2[0], w2[1], w2[2], w2[3],
        w1[0], w1[1], w1[2], w1[3],
        w0[0], w0[1], w0[2], w0[3],
    ];
    assert forall|k: int, i: int| 0 <= k < 4 && 0 <= i < 4 implies r[4 * (3 - k) + i]
        == word_byte(words[k], i) by {
        assert(k == 0 || k == 1 || k == 2 || k == 3);
        assert(i == 0 || i == 1 || i == 2 || i == 3);
    }
    r
}


/// The bytes of a big-endian word are the bytes it was made of.
pub proof fn lemma_be_word_bytes(b0: u8, b1: u8, b2: u8, b3: u8)
    ensures
        be_word(b0, b1, b2, b3) == be_word(b0, b1, b2, b3) as u32,
        word_byte(be_word(b0, b1, b2, b3) as u32, 0) == b0,
        word_byte(be_word(b0, b1, b2, b3) as u32, 1) == b1,
        word_byte(be_word(b0, b1, b2, b3) as u32, 2) == b2,
        word_byte(be_word(b0, b1, b2, b3) as u32, 3) == b3,
{
    let w = be_from_bytes_spec(b0, b1, b2, b3);
    assert(b0 * 0x100_0000 + b1 * 0x1_0000 + b2 * 0x100 + b3 < 0x1_0000_0000) by (nonlinear_arith);
    assert(((b0 as u32) << 24u32 | (b1 as u32) << 16u32 | (b2 as u32) << 8u32 | b3 as u32)
        == b0 * 0x100_0000 + b1 * 0x1_0000 + b2 * 0x100 + b3) by (bit_vector);
    assert((w / 0x100_0000) % 256 == b0 && (w / 0x1_0000) % 256 == b1 && (w / 0x100) % 256 == b2
        && w % 256 == b3) by (bit_vector)
        requires
            w == ((b0 as u32) << 24u32 | (b1 as u32) << 16u32 | (b2 as u32) << 8u32 | b3 as u32),
    ;
}

spec fn be_from_bytes_spec(b0: u8, b1: u8, b2: u8, b3: u8) -> u32 {
    (b0 as u32) << 24u32 | (b1 as u32) << 16u32 | (b2 as u32) << 8u32 | b3 as u32
}

/// The output layout undoes the input layout: the bytes of the big-endian
/// word made of bytes `4j .. 4j + 4` of a block are those bytes, in order.
pub proof fn lemma_fifo_layout_round_trip(block: [u8; 16])
    ensures
        forall|j: int, i: int|
            0 <= j < 4 && 0 <= i < 4 ==> #[trigger] word_byte(block_word(block, j) as u32, i)
                == block[4 * j + i],
{
    assert forall|j: int, i: int| 0 <= j < 4 && 0 <= i < 4 implies #[trigger] word_byte(
        block_word(block, j) as u32,
        i,
    ) == block[4 * j + i] by {
        lemma_be_word_bytes(block[4 * j], block[4 * j + 1], block[4 * j + 2], block[4 * j + 3]);
        assert(i == 0 || i == 1 || i == 2 || i == 3);
    }
}

} // verus!
