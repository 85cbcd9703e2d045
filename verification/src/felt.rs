//! Little-endian re-encoding of 252-bit field elements.
//!
//! The proving backend stores each memory value as eight 32-bit words, the
//! little-endian decomposition of the field element's canonical 32-byte form.
//! The conversion must lose no precision: every byte of the canonical form is
//! accounted for in exactly one word.

use vstd::prelude::*;

verus! {

/// The `i`-th little-endian 32-bit word of a 32-byte sequence: bytes
/// `4*i .. 4*i + 4`, least significant first.
pub open spec fn le_word(b: Seq<u8>, i: int) -> u32
    recommends
        0 <= i,
        4 * i + 3 < b.len(),
{
    (b[4 * i] + b[4 * i + 1] * 0x100 + b[4 * i + 2] * 0x1_0000 + b[4 * i + 3] * 0x100_0000) as u32
}

/// All eight little-endian words of a 32-byte sequence.
pub open spec fn le_words(b: Seq<u8>) -> Seq<u32>
    recommends
        b.len() == 32,
{
    Seq::new(8, |i: int| le_word(b, i))
}

/// The numeric value of a little-endian byte sequence.
pub open spec fn bytes_value(b: Seq<u8>) -> nat
    decreases b.len(),
{
    if b.len() == 0 {
        0nat
    } else {
        (b[0] as nat) + 256 * bytes_value(b.drop_first())
    }
}

/// The numeric value of a little-endian 32-bit word sequence.
pub open spec fn words_value(w: Seq<u32>) -> nat
    decreases w.len(),
{
    if w.len() == 0 {
        0nat
    } else {
        (w[0] as nat) + 0x1_0000_0000 * words_value(w.drop_first())
    }
}

proof fn lemma_words_cover_bytes(b: Seq<u8>, n: nat)
    requires
        b.len() == 4 * n,
    ensures
        words_value(Seq::new(n, |i: int| le_word(b, i))) == bytes_value(b),
    decreases n,
{
    let w = Seq::new(n, |i: int| le_word(b, i));
    if n == 0 {
        assert(w.len() == 0);
        assert(b.len() == 0);
    } else {
        let tail = b.subrange(4, b.len() as int);
        lemma_words_cover_bytes(tail, (n - 1) as nat);
        let wt = Seq::new((n - 1) as nat, |i: int| le_word(tail, i));
        assert(w.drop_first() =~= wt) by {
            assert forall|i: int| 0 <= i < n - 1 implies w.drop_first()[i] == wt[i] by {
                assert(w[i + 1] == le_word(b, i + 1));
                assert(tail[4 * i] == b[4 * (i + 1)]);
                assert(tail[4 * i + 1] == b[4 * (i + 1) + 1]);
                assert(tail[4 * i + 2] == b[4 * (i + 1) + 2]);
                assert(tail[4 * i + 3] == b[4 * (i + 1) + 3]);
            }
        }
        // Unroll the byte value over the first four bytes.
        let b1 = b.drop_first();
        let b2 = b1.drop_first();
        let b3 = b2.drop_first();
        let b4 = b3.drop_first();
        assert(b1[0] == b[1] && b2[0] == b[2] && b3[0] == b[3]);
        assert(b4 =~= tail);
        assert(bytes_value(b) == (b[0] as nat) + 256 * bytes_value(b1));
        assert(bytes_value(b1) == (b1[0] as nat) + 256 * bytes_value(b2));
        assert(bytes_value(b2) == (b2[0] as nat) + 256 * bytes_value(b3));
        assert(bytes_value(b3) == (b3[0] as nat) + 256 * bytes_value(b4));
        assert(bytes_value(b) == (b[0] as nat) + 256 * ((b[1] as nat) + 256 * ((b[2] as nat) + 256
            * ((b[3] as nat) + 256 * bytes_value(tail)))));
        assert(w[0] == le_word(b, 0));
        assert((w[0] as nat) == (b[0] as nat) + 256 * (b[1] as nat) + 0x1_0000 * (b[2] as nat)
            + 0x100_0000 * (b[3] as nat));
        assert(words_value(w) == (w[0] as nat) + 0x1_0000_0000 * words_value(wt));
    }
}

/// Re-encoding loses no precision: the eight little-endian words of a
/// 32-byte form carry exactly its numeric value, so no bit of a 252-bit
/// field element is truncated or misplaced.
pub proof fn lemma_le_words_lossless(b: Seq<u8>)
    requires
        b.len() == 32,
    ensures
        words_value(le_words(b)) == bytes_value(b),
{
    lemma_words_cover_bytes(b, 8);
    assert(le_words(b) =~= Seq::new(8, |i: int| le_word(b, i)));
}

/// The single word starting at byte `4 * k`.
fn word_at(b: &[u8; 32], k: usize) -> (w: u32)
    requires
        k < 8,
    ensures
        w == le_word(b@, k as int),
{
    let b0 = b[4 * k] as u32;
    let b1 = b[4 * k + 1] as u32;
    let b2 = b[4 * k + 2] as u32;
    let b3 = b[4 * k + 3] as u32;
    b0 + b1 * 0x100 + b2 * 0x1_0000 + b3 * 0x100_0000
}

/// Re-encodes the canonical little-endian 32-byte form of a field element as
/// eight 32-bit words, least significant word first.
pub fn words_from_le_bytes(b: &[u8; 32]) -> (r: [u32; 8])
    ensures
        r@ == le_words(b@),
{
    let r = [
        word_at(b, 0),
        word_at(b, 1),
        word_at(b, 2),
        word_at(b, 3),
        word_at(b, 4),
        word_at(b, 5),
        word_at(b, 6),
        word_at(b, 7),
    ];
    proof {
        assert(r@ =~= le_words(b@));
    }
    r
}

} // verus!
