//! Byte layout of the GPU uniform block.
//!
//! The shaders read one uniform buffer: the model-view-projection matrix
//! (16 floats), the sun direction (3 floats) and one float of padding for
//! the 16-byte alignment the uniform layout demands — exactly 20 four-byte
//! words.  The numeric values are produced by the unverified camera code;
//! this module lays their bit patterns out in little-endian order, which
//! is the part the pipeline's vertex layout depends on.

use vstd::prelude::*;
use vstd::arithmetic::div_mod::{
    lemma_fundamental_div_mod, lemma_fundamental_div_mod_converse, lemma_mod_pos_bound,
};

verus! {

/// Number of four-byte words in the packed uniform block.
pub const UNIFORM_WORDS: usize = 20;

/// Number of bytes in the packed uniform block.
pub const UNIFORM_BYTES: usize = 80;

/// Byte `b` (0 = least significant) of the four-byte word `w`.
pub open spec fn word_byte(w: u32, b: int) -> u8 {
    if b == 0 {
        (w % 256) as u8
    } else if b == 1 {
        ((w / 256) % 256) as u8
    } else if b == 2 {
        ((w / 65536) % 256) as u8
    } else {
        ((w / 16777216) % 256) as u8
    }
}

/// Byte `k` of a word sequence laid out little-endian.
pub open spec fn le_byte(words: Seq<u32>, k: int) -> u8 {
    word_byte(words[k / 4], k % 4)
}

/// The 20 words of the uniform block: matrix, sun direction, one zero
/// word of padding.
pub open spec fn uniform_words(mvp: Seq<u32>, sun: Seq<u32>) -> Seq<u32> {
    mvp + sun + seq![0u32]
}

/// Packs the uniform block: the 16 matrix words, the 3 sun-direction
/// words and a zero padding word, each spelled out in little-endian
/// bytes.  The words are the bit patterns of the respective floats.
pub fn pack_uniforms(mvp: &Vec<u32>, sun: &Vec<u32>) -> (out: Vec<u8>)
    requires
        mvp@.len() == 16,
        sun@.len() == 3,
    ensures
        out@.len() == UNIFORM_BYTES,
        forall|k: int|
            0 <= k < out@.len() ==> (#[trigger] out@[k]) == le_byte(uniform_words(mvp@, sun@), k),
        forall|k: int| 64 <= k < 76 ==> out@[k] == word_byte(sun@[(k - 64) / 4], (k - 64) % 4),
        forall|k: int| 76 <= k < 80 ==> out@[k] == 0,
{
    let mut words: Vec<u32> = Vec::new();
    let mut i: usize = 0;
    while i < 16
        invariant
            mvp@.len() == 16,
            i <= 16,
            words@ == mvp@.subrange(0, i as int),
        decreases 16 - i,
    {
        words.push(mvp[i]);
        proof {
            assert(words@ =~= mvp@.subrange(0, i as int + 1));
        }
        i += 1;
    }
    proof {
        assert(words@ =~= mvp@);
    }
    let mut i: usize = 0;
    while i < 3
        invariant
            mvp@.len() == 16,
            sun@.len() == 3,
            i <= 3,
            words@ == mvp@ + sun@.subrange(0, i as int),
        decreases 3 - i,
    {
        words.push(sun[i]);
        proof {
            assert(words@ =~= mvp@ + sun@.subrange(0, i as int + 1));
        }
        i += 1;
    }
    words.push(0);
    proof {
        assert(words@ =~= uniform_words(mvp@, sun@));
    }
    let mut out: Vec<u8> = Vec::new();
    let mut k: usize = 0;
    while k < 20
        invariant
            words@ == uniform_words(mvp@, sun@),
            words@.len() == 20,
            k <= 20,
            out@.len() == 4 * k,
            forall|p: int| 0 <= p < out@.len() ==> (#[trigger] out@[p]) == le_byte(words@, p),
        decreases 20 - k,
    {
        let w = words[k];
        let ghost base = out@.len() as int;
        out.push((w % 256) as u8);
        out.push(((w / 256) % 256) as u8);
        out.push(((w / 65536) % 256) as u8);
        out.push(((w / 16777216) % 256) as u8);
        proof {
            assert forall|b: int| 0 <= b < 4 implies #[trigger] out@[base + b] == le_byte(
                words@,
                base + b,
            ) by {
                lemma_fundamental_div_mod_converse(base + b, 4, k as int, b);
            }
        }
        k += 1;
    }
    proof {
        let ws = uniform_words(mvp@, sun@);
        assert forall|k2: int| 64 <= k2 < 76 implies out@[k2] == word_byte(
            sun@[(k2 - 64) / 4],
            (k2 - 64) % 4,
        ) by {
            lemma_fundamental_div_mod(k2 - 64, 4);
            lemma_mod_pos_bound(k2 - 64, 4);
            let q = (k2 - 64) / 4;
            let rem = (k2 - 64) % 4;
            lemma_fundamental_div_mod_converse(k2, 4, q + 16, rem);
            assert(ws[q + 16] == sun@[q]);
        }
        assert forall|k2: int| 76 <= k2 < 80 implies out@[k2] == 0 by {
            lemma_fundamental_div_mod_converse(k2, 4, 19, k2 - 76);
            assert(ws[19] == 0u32);
            assert(word_byte(0u32, k2 - 76) == 0);
        }
    }
    out
}

} // verus!
