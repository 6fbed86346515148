//! The byte layout of plain data in device memory: 32-bit words, lowest byte
//! first.

use crate::buffer::GpuData;
use vstd::bytes::{spec_u32_to_le_bytes, u32_to_le_bytes};
use vstd::prelude::*;

verus! {

/// The bytes of a list of words: each word's four bytes, lowest first, one
/// word after the other.
pub open spec fn words_bytes(words: Seq<u32>) -> Seq<u8>
    decreases words.len(),
{
    if words.len() == 0 {
        Seq::empty()
    } else {
        words_bytes(words.drop_last()) + spec_u32_to_le_bytes(words.last())
    }
}

/// A list of `n` words has `4 * n` bytes.
pub proof fn lemma_words_bytes_len(words: Seq<u32>)
    ensures
        words_bytes(words).len() == 4 * words.len(),
    decreases words.len(),
{
    vstd::bytes::lemma_auto_spec_u32_to_from_le_bytes();
    if words.len() > 0 {
        lemma_words_bytes_len(words.drop_last());
    }
}

/// Appends the bytes of a list of words to `bytes`.
pub fn append_words(words: &[u32], bytes: &mut Vec<u8>)
    ensures
        final(bytes)@ == old(bytes)@ + words_bytes(words@),
        words_bytes(words@).len() == 4 * words@.len(),
{
    let ghost before = bytes@;
    let mut i: usize = 0;
    while i < words.len()
        invariant
            i <= words@.len(),
            bytes@ == before + words_bytes(words@.subrange(0, i as int)),
        decreases words@.len() - i,
    {
        let mut word = u32_to_le_bytes(words[i]);
        proof {
            assert(words@.subrange(0, i + 1).drop_last() =~= words@.subrange(0, i as int));
        }
        bytes.append(&mut word);
        i += 1;
    }
    proof {
        assert(words@.subrange(0, words@.len() as int) =~= words@);
        lemma_words_bytes_len(words@);
    }
}

/// The bytes of a list of words.
pub fn words_to_bytes(words: &[u32]) -> (bytes: Vec<u8>)
    ensures
        bytes@ == words_bytes(words@),
        bytes@.len() == 4 * words@.len(),
{
    let mut bytes: Vec<u8> = Vec::new();
    append_words(words, &mut bytes);
    bytes
}

/// Plain data as the list of its words.
#[derive(Debug)]
pub struct Words {
    pub words: Vec<u32>,
}

impl GpuData for Words {
    open spec fn gpu_bytes(&self) -> Seq<u8> {
        words_bytes(self.words@)
    }

    fn to_gpu_bytes(&self) -> (bytes: Vec<u8>) {
        words_to_bytes(self.words.as_slice())
    }
}

/// The word that four bytes make, the lowest byte first.
pub open spec fn word_of(b0: u8, b1: u8, b2: u8, b3: u8) -> u32 {
    (b0 as u32) | (b1 as u32) << 8 | (b2 as u32) << 16 | (b3 as u32) << 24
}

/// Byte `i` of `code`, or zero behind its end.
pub open spec fn byte_or_zero(code: Seq<u8>, i: int) -> u8 {
    if 0 <= i < code.len() {
        code[i]
    } else {
        0
    }
}

/// Shader code as the words a shader module is created from: every four
/// bytes make a word, the lowest byte first, and a last word that is short
/// of bytes is filled up with zeros.
pub open spec fn shader_words(code: Seq<u8>) -> Seq<u32> {
    Seq::new(
        ((code.len() + 3) / 4) as nat,
        |k: int|
            word_of(
                byte_or_zero(code, 4 * k),
                byte_or_zero(code, 4 * k + 1),
                byte_or_zero(code, 4 * k + 2),
                byte_or_zero(code, 4 * k + 3),
            ),
    )
}

/// Byte `at + offset` of `code`, or zero behind its end.
fn get_or_zero(code: &[u8], at: usize, offset: usize) -> (byte: u8)
    requires
        at < code@.len(),
    ensures
        byte == byte_or_zero(code@, at + offset),
{
    if offset < code.len() - at {
        code[at + offset]
    } else {
        0
    }
}

/// The words a shader module is created from, for shader code given as
/// bytes.
pub fn load_shader_module(code: &[u8]) -> (words: Vec<u32>)
    ensures
        words@ == shader_words(code@),
{
    let mut words: Vec<u32> = Vec::new();
    let len = code.len();
    let count = len / 4 + if len % 4 == 0 {
        0usize
    } else {
        1usize
    };
    let mut k: usize = 0;
    while k < count
        invariant
            k <= count,
            len == code@.len(),
            count == (code@.len() + 3) / 4,
            words@.len() == k,
            forall|j: int| 0 <= j < k ==> words@[j] == shader_words(code@)[j],
        decreases count - k,
    {
        let at = 4 * k;
        let b0 = get_or_zero(code, at, 0);
        let b1 = get_or_zero(code, at, 1);
        let b2 = get_or_zero(code, at, 2);
        let b3 = get_or_zero(code, at, 3);
        words.push((b0 as u32) | (b1 as u32) << 8 | (b2 as u32) << 16 | (b3 as u32) << 24);
        k += 1;
    }
    words
}

} // verus!
