//! The tensor codec: byte buffers to 32-bit words and back.
//!
//! A word is the bit pattern of one 32-bit float. Four bytes make one word, in
//! the byte order of the machine, which `ByteOrder::native` finds out.

use vstd::prelude::*;
use crate::wasi_nn::Error;

verus! {

/// The order in which the four bytes of a word lie in a buffer.
#[derive(Clone, Copy, Debug, PartialEq, Eq, Structural)]
pub enum ByteOrder {
    /// Least significant byte first.
    Little,
    /// Most significant byte first.
    Big,
}

/// The word whose bytes, from the least significant up, are `b0`, `b1`, `b2`, `b3`.
pub open spec fn word_from_low(b0: u8, b1: u8, b2: u8, b3: u8) -> u32 {
    (b0 as int + b1 as int * 0x100 + b2 as int * 0x1_0000 + b3 as int * 0x100_0000) as u32
}

/// Byte `k` of `word`, counted from the least significant (`k` in 0..4).
pub open spec fn low_byte(word: u32, k: int) -> u8 {
    if k == 0 {
        (word as int % 0x100) as u8
    } else if k == 1 {
        (word as int / 0x100 % 0x100) as u8
    } else if k == 2 {
        (word as int / 0x1_0000 % 0x100) as u8
    } else {
        (word as int / 0x100_0000 % 0x100) as u8
    }
}

/// The word that the four bytes `b0..b3`, in buffer order, stand for.
pub open spec fn word_of(order: ByteOrder, b0: u8, b1: u8, b2: u8, b3: u8) -> u32 {
    match order {
        ByteOrder::Little => word_from_low(b0, b1, b2, b3),
        ByteOrder::Big => word_from_low(b3, b2, b1, b0),
    }
}

/// The byte at place `k` (0..4, in buffer order) of the four that stand for `word`.
pub open spec fn byte_of(order: ByteOrder, word: u32, k: int) -> u8 {
    match order {
        ByteOrder::Little => low_byte(word, k),
        ByteOrder::Big => low_byte(word, 3 - k),
    }
}

/// The words that a buffer holds: word `i` is made of bytes `4i .. 4i + 4`.
/// Bytes after the last full group of four are not read.
pub open spec fn decoded(order: ByteOrder, buffer: Seq<u8>) -> Seq<u32> {
    Seq::new(
        (buffer.len() / 4) as nat,
        |i: int| word_of(order, buffer[4 * i], buffer[4 * i + 1], buffer[4 * i + 2], buffer[4 * i + 3]),
    )
}

/// The buffer that holds `words`: four bytes for each, in sequence.
pub open spec fn encoded(order: ByteOrder, words: Seq<u32>) -> Seq<u8> {
    Seq::new(words.len() * 4, |j: int| byte_of(order, words[j / 4], j % 4))
}

/// `u32::from_ne_bytes`: the word that four bytes stand for in the byte order of
/// the machine. Which order that is, is not said: only that it is one of the two.
#[verifier::external_body]
fn native_word(bytes: [u8; 4]) -> (word: u32)
    ensures
        word == word_of(ByteOrder::Little, bytes[0], bytes[1], bytes[2], bytes[3])
            || word == word_of(ByteOrder::Big, bytes[0], bytes[1], bytes[2], bytes[3]),
{
    u32::from_ne_bytes(bytes)
}

impl ByteOrder {
    /// The byte order of the machine this runs on, found by reading the bytes
    /// 1, 0, 0, 0 as a word: on a little-endian machine that word is 1.
    pub fn native() -> (order: ByteOrder) {
        ByteOrder::from_probe(native_word([1u8, 0u8, 0u8, 0u8]))
    }

    /// The byte order in which the bytes 1, 0, 0, 0 read as the word `probe`:
    /// little-endian when that word is 1, big-endian otherwise. Whichever of
    /// the two orders the bytes were read in, it is the one found.
    pub fn from_probe(probe: u32) -> (order: ByteOrder)
        ensures
            order == probed_order(probe),
            forall|read: ByteOrder| probe == word_of(read, 1, 0, 0, 0) ==> order == read,
    {
        if probe == 1 {
            ByteOrder::Little
        } else {
            ByteOrder::Big
        }
    }
}

/// The byte order that a probe word stands for: see `ByteOrder::from_probe`.
pub open spec fn probed_order(probe: u32) -> ByteOrder {
    if probe == 1 {
        ByteOrder::Little
    } else {
        ByteOrder::Big
    }
}

/// Makes one word of four bytes in buffer order.
pub fn word_from_bytes(order: ByteOrder, b0: u8, b1: u8, b2: u8, b3: u8) -> (word: u32)
    ensures
        word == word_of(order, b0, b1, b2, b3),
{
    match order {
        ByteOrder::Little => {
            b0 as u32 + b1 as u32 * 0x100 + b2 as u32 * 0x1_0000 + b3 as u32 * 0x100_0000
        },
        ByteOrder::Big => {
            b3 as u32 + b2 as u32 * 0x100 + b1 as u32 * 0x1_0000 + b0 as u32 * 0x100_0000
        },
    }
}

/// Takes one word apart into its four bytes in buffer order.
pub fn word_to_bytes(order: ByteOrder, word: u32) -> (bytes: [u8; 4])
    ensures
        forall|k: int| 0 <= k < 4 ==> bytes[k] == byte_of(order, word, k),
{
    let low0: u8 = (word % 0x100) as u8;
    let low1: u8 = (word / 0x100 % 0x100) as u8;
    let low2: u8 = (word / 0x1_0000 % 0x100) as u8;
    let low3: u8 = (word / 0x100_0000 % 0x100) as u8;
    match order {
        ByteOrder::Little => [low0, low1, low2, low3],
        ByteOrder::Big => [low3, low2, low1, low0],
    }
}

/// Reads a buffer as 32-bit words, four bytes each, in the given byte order.
///
/// A buffer whose length is no multiple of four is refused with `RuntimeError`;
/// every other buffer is decoded in full.
pub fn bytes_to_floats(buffer: &Vec<u8>, order: ByteOrder) -> (r: Result<Vec<u32>, Error>)
    ensures
        r is Ok <==> buffer@.len() % 4 == 0,
        r is Ok ==> r->Ok_0@ == decoded(order, buffer@),
        r is Err ==> r->Err_0 == Error::RuntimeError,
{
    let n: usize = buffer.len();
    if n % 4 != 0 {
        return Err(Error::RuntimeError);
    }
    let mut words: Vec<u32> = Vec::new();
    let mut i: usize = 0;
    while i < n
        invariant
            n == buffer@.len(),
            n % 4 == 0,
            i % 4 == 0,
            i <= n,
            words@.len() == i / 4,
            forall|k: int| 0 <= k < words@.len() ==> words@[k] == decoded(order, buffer@)[k],
        decreases n - i,
    {
        let word: u32 = word_from_bytes(order, buffer[i], buffer[i + 1], buffer[i + 2], buffer[i + 3]);
        words.push(word);
        i = i + 4;
    }
    Ok(words)
}

/// Writes 32-bit words as bytes, four for each, in the given byte order. The
/// inverse of `bytes_to_floats`.
pub fn floats_to_bytes(values: &Vec<u32>, order: ByteOrder) -> (buffer: Vec<u8>)
    ensures
        buffer@ == encoded(order, values@),
        buffer@.len() == 4 * values@.len(),
{
    let mut buffer: Vec<u8> = Vec::new();
    let mut i: usize = 0;
    while i < values.len()
        invariant
            i <= values@.len(),
            buffer@.len() == 4 * i,
            forall|j: int| 0 <= j < buffer@.len() ==> buffer@[j] == encoded(order, values@)[j],
        decreases values@.len() - i,
    {
        let quad: [u8; 4] = word_to_bytes(order, values[i]);
        buffer.push(quad[0]);
        buffer.push(quad[1]);
        buffer.push(quad[2]);
        buffer.push(quad[3]);
        i = i + 1;
    }
    buffer
}

/// Splitting off the lowest base-256 digit: it is the remainder, and the rest is
/// the quotient.
proof fn lemma_digit(low: int, rest: int)
    requires
        0 <= low < 0x100,
    ensures
        (low + rest * 0x100) % 0x100 == low,
        (low + rest * 0x100) / 0x100 == rest,
{
}

/// The bytes of a word put together from the least significant up are the bytes
/// it was put together from.
proof fn lemma_low_bytes(b0: u8, b1: u8, b2: u8, b3: u8)
    ensures
        low_byte(word_from_low(b0, b1, b2, b3), 0) == b0,
        low_byte(word_from_low(b0, b1, b2, b3), 1) == b1,
        low_byte(word_from_low(b0, b1, b2, b3), 2) == b2,
        low_byte(word_from_low(b0, b1, b2, b3), 3) == b3,
{
    let r3: int = b3 as int;
    let r2: int = b2 as int + r3 * 0x100;
    let r1: int = b1 as int + r2 * 0x100;
    let r0: int = b0 as int + r1 * 0x100;
    assert(word_from_low(b0, b1, b2, b3) as int == r0);
    lemma_digit(b0 as int, r1);
    lemma_digit(b1 as int, r2);
    lemma_digit(b2 as int, r3);
    assert(r0 / 0x1_0000 == r2);
    assert(r0 / 0x100_0000 == r3);
}

/// A word is the sum of its four bytes, each at its place.
proof fn lemma_low_word(word: u32)
    ensures
        word_from_low(low_byte(word, 0), low_byte(word, 1), low_byte(word, 2), low_byte(word, 3))
            == word,
{
    let w: int = word as int;
    let q1: int = w / 0x100;
    let q2: int = q1 / 0x100;
    let q3: int = q2 / 0x100;
    assert(w == w % 0x100 + q1 * 0x100);
    assert(q1 == q1 % 0x100 + q2 * 0x100);
    assert(q2 == q2 % 0x100 + q3 * 0x100);
    assert(q2 == w / 0x1_0000);
    assert(q3 == w / 0x100_0000);
    assert(q3 % 0x100 == q3);
}

/// Four bytes taken in one order and put back in the same order are the same
/// four bytes.
pub proof fn lemma_word_bytes(order: ByteOrder, b0: u8, b1: u8, b2: u8, b3: u8)
    ensures
        byte_of(order, word_of(order, b0, b1, b2, b3), 0) == b0,
        byte_of(order, word_of(order, b0, b1, b2, b3), 1) == b1,
        byte_of(order, word_of(order, b0, b1, b2, b3), 2) == b2,
        byte_of(order, word_of(order, b0, b1, b2, b3), 3) == b3,
{
    match order {
        ByteOrder::Little => lemma_low_bytes(b0, b1, b2, b3),
        ByteOrder::Big => lemma_low_bytes(b3, b2, b1, b0),
    }
}

/// A word taken apart in one order and put together in the same order is the
/// same word.
pub proof fn lemma_bytes_word(order: ByteOrder, word: u32)
    ensures
        word_of(
            order,
            byte_of(order, word, 0),
            byte_of(order, word, 1),
            byte_of(order, word, 2),
            byte_of(order, word, 3),
        ) == word,
{
    lemma_low_word(word);
}

/// Decoding a buffer of `4n` bytes and encoding the words gives the buffer back,
/// bit for bit, in either byte order.
pub proof fn lemma_encode_decode(order: ByteOrder, buffer: Seq<u8>)
    requires
        buffer.len() % 4 == 0,
    ensures
        encoded(order, decoded(order, buffer)) == buffer,
{
    let back = encoded(order, decoded(order, buffer));
    assert forall|j: int| 0 <= j < buffer.len() implies back[j] == buffer[j] by {
        let i = j / 4;
        lemma_word_bytes(order, buffer[4 * i], buffer[4 * i + 1], buffer[4 * i + 2], buffer[4 * i + 3]);
    }
    assert(back =~= buffer);
}

/// Encoding words and decoding the buffer gives the words back, bit for bit, in
/// either byte order.
pub proof fn lemma_decode_encode(order: ByteOrder, words: Seq<u32>)
    ensures
        encoded(order, words).len() == 4 * words.len(),
        decoded(order, encoded(order, words)) == words,
{
    let back = decoded(order, encoded(order, words));
    assert forall|i: int| 0 <= i < words.len() implies back[i] == words[i] by {
        lemma_bytes_word(order, words[i]);
    }
    assert(back =~= words);
}

} // verus!
