//! Byte order of the wire: 16-bit and 32-bit values travel least significant
//! byte first.
use vstd::prelude::*;

verus! {

/// Byte `i` of a 32-bit word, counted from the least significant one.
pub open spec fn le_byte(word: u32, i: int) -> u8 {
    if i == 0 {
        (word % 0x100) as u8
    } else if i == 1 {
        (word / 0x100 % 0x100) as u8
    } else if i == 2 {
        (word / 0x1_0000 % 0x100) as u8
    } else {
        (word / 0x100_0000) as u8
    }
}

/// The 32-bit word with the given bytes, least significant first.
pub open spec fn le_word(b0: u8, b1: u8, b2: u8, b3: u8) -> u32 {
    (b0 + 0x100 * b1 + 0x1_0000 * b2 + 0x100_0000 * b3) as u32
}

/// The 16-bit value with the given bytes, least significant first.
pub open spec fn le_half(b0: u8, b1: u8) -> u16 {
    (b0 + 0x100 * b1) as u16
}

/// The low byte of a 16-bit value.
pub open spec fn half_low(x: u16) -> u8 {
    (x % 0x100) as u8
}

/// The high byte of a 16-bit value.
pub open spec fn half_high(x: u16) -> u8 {
    (x / 0x100) as u8
}

/// The four bytes of one word, least significant first.
pub open spec fn word_to_le_bytes(word: u32) -> Seq<u8> {
    seq![le_byte(word, 0), le_byte(word, 1), le_byte(word, 2), le_byte(word, 3)]
}

/// The bytes of a word list: four per word, least significant first.
pub open spec fn words_to_le_bytes(words: Seq<u32>) -> Seq<u8> {
    Seq::new(4 * words.len(), |i: int| le_byte(words[i / 4], i % 4))
}

/// The words that a byte string spells out, four bytes to the word. Bytes
/// beyond the last full group of four do not count.
pub open spec fn le_bytes_to_words(bytes: Seq<u8>) -> Seq<u32> {
    Seq::new(
        (bytes.len() / 4) as nat,
        |i: int| le_word(bytes[4 * i], bytes[4 * i + 1], bytes[4 * i + 2], bytes[4 * i + 3]),
    )
}

/// The bytes of a word, least significant first.
pub fn u32_to_le(word: u32) -> (b: [u8; 4])
    ensures
        b@ == word_to_le_bytes(word),
{
    let b = [
        (word % 0x100) as u8,
        (word / 0x100 % 0x100) as u8,
        (word / 0x1_0000 % 0x100) as u8,
        (word / 0x100_0000) as u8,
    ];
    assert(b@ =~= word_to_le_bytes(word));
    b
}

/// The word with the given bytes, least significant first.
pub fn u32_from_le(b0: u8, b1: u8, b2: u8, b3: u8) -> (word: u32)
    ensures
        word == le_word(b0, b1, b2, b3),
{
    (b0 as u32) + 0x100 * (b1 as u32) + 0x1_0000 * (b2 as u32) + 0x100_0000 * (b3 as u32)
}

/// The 16-bit value with the given bytes, least significant first.
pub fn u16_from_le(b0: u8, b1: u8) -> (x: u16)
    ensures
        x == le_half(b0, b1),
{
    (b0 as u16) + 0x100 * (b1 as u16)
}

/// The two bytes of a 16-bit value, least significant first.
pub fn u16_to_le(x: u16) -> (b: (u8, u8))
    ensures
        b.0 == half_low(x),
        b.1 == half_high(x),
{
    ((x % 0x100) as u8, (x / 0x100) as u8)
}

/// Appends the bytes of each word, least significant first.
pub fn extend_with_words(out: &mut Vec<u8>, words: &[u32])
    ensures
        final(out)@ == old(out)@ + words_to_le_bytes(words@),
{
    let ghost before = out@;
    let mut i: usize = 0;
    while i < words.len()
        invariant
            i <= words@.len(),
            out@ == before + words_to_le_bytes(words@.take(i as int)),
        decreases words@.len() - i,
    {
        let w = words[i];
        out.push((w % 0x100) as u8);
        out.push((w / 0x100 % 0x100) as u8);
        out.push((w / 0x1_0000 % 0x100) as u8);
        out.push((w / 0x100_0000) as u8);
        i += 1;
        assert(out@ =~= before + words_to_le_bytes(words@.take(i as int)));
    }
    assert(words@.take(i as int) =~= words@);
}

/// The bytes of a word list: four per word, least significant first.
pub fn words_to_bytes(words: &[u32]) -> (bytes: Vec<u8>)
    ensures
        bytes@ == words_to_le_bytes(words@),
{
    let mut bytes: Vec<u8> = Vec::new();
    extend_with_words(&mut bytes, words);
    assert(bytes@ =~= words_to_le_bytes(words@));
    bytes
}

/// The words that a byte string spells out, four bytes to the word.
pub fn bytes_to_words(bytes: &[u8]) -> (words: Vec<u32>)
    ensures
        words@ == le_bytes_to_words(bytes@),
{
    let mut words: Vec<u32> = Vec::new();
    let n = bytes.len() / 4;
    let mut i: usize = 0;
    while i < n
        invariant
            n == bytes@.len() / 4,
            4 * n <= bytes@.len() <= usize::MAX,
            i <= n,
            words@ == le_bytes_to_words(bytes@).take(i as int),
        decreases n - i,
    {
        let w = u32_from_le(bytes[4 * i], bytes[4 * i + 1], bytes[4 * i + 2], bytes[4 * i + 3]);
        words.push(w);
        i += 1;
        assert(words@ =~= le_bytes_to_words(bytes@).take(i as int));
    }
    assert(le_bytes_to_words(bytes@).take(i as int) =~= le_bytes_to_words(bytes@));
    words
}

/// A word is recovered from its own bytes.
pub proof fn lemma_word_bytes_roundtrip(word: u32)
    ensures
        le_word(le_byte(word, 0), le_byte(word, 1), le_byte(word, 2), le_byte(word, 3)) == word,
{
}

/// Four bytes are recovered from the word that they spell out.
pub proof fn lemma_bytes_word_roundtrip(b0: u8, b1: u8, b2: u8, b3: u8)
    ensures
        word_to_le_bytes(le_word(b0, b1, b2, b3)) == seq![b0, b1, b2, b3],
{
    let w: int = b0 + 0x100 * b1 + 0x1_0000 * b2 + 0x100_0000 * b3;
    let upper3: int = b1 + 0x100 * b2 + 0x1_0000 * b3;
    let upper2: int = b2 + 0x100 * b3;
    assert(w == 0x100 * upper3 + b0);
    assert(w / 0x100 == upper3 && w % 0x100 == b0);
    assert(w == 0x1_0000 * upper2 + (b0 + 0x100 * b1));
    assert(w / 0x1_0000 == upper2);
    assert(w == 0x100_0000 * b3 + (b0 + 0x100 * b1 + 0x1_0000 * b2));
    assert(w / 0x100_0000 == b3);
    assert(upper3 % 0x100 == b1);
    assert(upper2 % 0x100 == b2);
    assert(word_to_le_bytes(le_word(b0, b1, b2, b3)) =~= seq![b0, b1, b2, b3]);
}

/// A 16-bit value is recovered from its own two bytes, and two bytes from the
/// value that they spell out.
pub proof fn lemma_half_roundtrip(x: u16, b0: u8, b1: u8)
    ensures
        le_half(half_low(x), half_high(x)) == x,
        half_low(le_half(b0, b1)) == b0,
        half_high(le_half(b0, b1)) == b1,
{
}

/// A word list is recovered from its own bytes.
pub proof fn lemma_words_bytes_roundtrip(words: Seq<u32>)
    ensures
        words_to_le_bytes(words).len() == 4 * words.len(),
        le_bytes_to_words(words_to_le_bytes(words)) == words,
{
    let bytes = words_to_le_bytes(words);
    assert forall|i: int| 0 <= i < words.len() implies le_bytes_to_words(bytes)[i] == words[i] by {
        lemma_word_bytes_roundtrip(words[i]);
    }
    assert(le_bytes_to_words(bytes) =~= words);
}

/// A byte string of whole words is recovered from the words that it spells
/// out.
pub proof fn lemma_bytes_words_roundtrip(bytes: Seq<u8>)
    requires
        bytes.len() % 4 == 0,
    ensures
        words_to_le_bytes(le_bytes_to_words(bytes)) == bytes,
{
    let words = le_bytes_to_words(bytes);
    assert forall|i: int| 0 <= i < bytes.len() implies words_to_le_bytes(words)[i] == bytes[i] by {
        let g = i / 4;
        lemma_bytes_word_roundtrip(
            bytes[4 * g],
            bytes[4 * g + 1],
            bytes[4 * g + 2],
            bytes[4 * g + 3],
        );
    }
    assert(words_to_le_bytes(words) =~= bytes);
}

} // verus!
