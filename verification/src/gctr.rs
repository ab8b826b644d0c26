//! GCTR: counter-mode keystream application for one 128-bit block, and
//! the standard 32-bit counter increment on the last four bytes of a
//! counter block.

use vstd::prelude::*;
use crate::aes::{aes, spec_aes, spec_xor_block};
use crate::utils::{
    Block, Stream, xor_seq, spec_block_to_stream, spec_stream_to_block, block_to_stream,
    stream_to_block,
};

verus! {

/// The last four bytes of a counter block read as a 32-bit big-endian
/// unsigned counter.
pub open spec fn word_val(w: Seq<u8>) -> int {
    w[0] * 0x1000000 + w[1] * 0x10000 + w[2] * 0x100 + w[3]
}

/// A 4-byte big-endian word incremented by one, wrapping at the 32-bit
/// boundary: the lowest byte below 0xFF is incremented and every byte
/// after it cleared; all-0xFF wraps to all-zero.
pub open spec fn spec_increment_word(w: Seq<u8>) -> Seq<u8> {
    if w[3] != 0xFF {
        seq![w[0], w[1], w[2], (w[3] + 1) as u8]
    } else if w[2] != 0xFF {
        seq![w[0], w[1], (w[2] + 1) as u8, 0u8]
    } else if w[1] != 0xFF {
        seq![w[0], (w[1] + 1) as u8, 0u8, 0u8]
    } else if w[0] != 0xFF {
        seq![(w[0] + 1) as u8, 0u8, 0u8, 0u8]
    } else {
        seq![0u8, 0u8, 0u8, 0u8]
    }
}

/// A 16-byte counter stream with its last four bytes incremented as a
/// wrapping 32-bit big-endian counter; the first 12 bytes are
/// unchanged.
pub open spec fn spec_increment_32_stream(s: Seq<u8>) -> Seq<u8> {
    s.subrange(0, 12) + spec_increment_word(s.subrange(12, 16))
}

/// `increment_32` on the block representation: the counter block read
/// as a stream, incremented, and laid out as a block again.
pub open spec fn spec_increment_32(b: Seq<Seq<u8>>) -> Seq<Seq<u8>> {
    spec_stream_to_block(spec_increment_32_stream(spec_block_to_stream(b)))
}

/// One-block counter-mode keystream application: the counter block is
/// encrypted under the key and the result exclusive-ored with the
/// plaintext.
pub open spec fn spec_gctr(key: Seq<u8>, icb: Seq<Seq<u8>>, pt: Seq<u8>) -> Seq<u8> {
    xor_seq(spec_block_to_stream(spec_aes(icb, key)), pt)
}

/// Law: incrementing a 4-byte big-endian word adds one modulo 2^32.
pub proof fn lemma_increment_word_val(w: Seq<u8>)
    requires
        w.len() == 4,
    ensures
        word_val(spec_increment_word(w)) == (word_val(w) + 1) % 0x1_0000_0000,
{
}

/// Law: the 32-bit counter increment adds one modulo 2^32 to the last
/// four bytes of the counter stream and leaves the first 12 bytes, the
/// nonce portion, unchanged.
pub proof fn lemma_increment_32_stream(s: Seq<u8>)
    requires
        s.len() == 16,
    ensures
        spec_increment_32_stream(s).subrange(0, 12) == s.subrange(0, 12),
        word_val(spec_increment_32_stream(s).subrange(12, 16)) == (word_val(s.subrange(12, 16))
            + 1) % 0x1_0000_0000,
{
    lemma_increment_word_val(s.subrange(12, 16));
    assert(spec_increment_32_stream(s).subrange(0, 12) =~= s.subrange(0, 12));
    assert(spec_increment_32_stream(s).subrange(12, 16) =~= spec_increment_word(
        s.subrange(12, 16),
    ));
}

/// Carry adder on a 4-byte big-endian word, wrapping at the 32-bit
/// boundary.
pub fn increment_word(word: &[u8; 4]) -> (incremented: [u8; 4])
    ensures
        incremented@ == spec_increment_word(word@),
        word_val(incremented@) == (word_val(word@) + 1) % 0x1_0000_0000,
{
    let incremented: [u8; 4] = if word[3] != 0xFF {
        [word[0], word[1], word[2], word[3] + 1]
    } else if word[2] != 0xFF {
        [word[0], word[1], word[2] + 1, 0]
    } else if word[1] != 0xFF {
        [word[0], word[1] + 1, 0, 0]
    } else if word[0] != 0xFF {
        [word[0] + 1, 0, 0, 0]
    } else {
        [0, 0, 0, 0]
    };
    proof {
        assert(incremented@ =~= spec_increment_word(word@));
    }
    incremented
}

/// Increments the 32-bit big-endian counter in the last four bytes of
/// the counter block, wrapping at 0xFFFFFFFF without carrying into the
/// first 12 bytes.
pub fn increment_32(counter_block: Block) -> (incremented: Block)
    ensures
        incremented.deep_view() == spec_increment_32(counter_block.deep_view()),
{
    let mut stream = block_to_stream(counter_block);
    let word = [stream[12], stream[13], stream[14], stream[15]];
    let ghost pre = stream@;
    let incremented = increment_word(&word);
    stream[12] = incremented[0];
    stream[13] = incremented[1];
    stream[14] = incremented[2];
    stream[15] = incremented[3];
    proof {
        assert(word@ =~= pre.subrange(12, 16));
        assert(stream@ =~= spec_increment_32_stream(pre));
    }
    stream_to_block(stream)
}

/// Byte-wise exclusive-or of two state blocks.
pub fn add_cipher(state: &Block, key: &Block) -> (new_state: Block)
    ensures
        new_state.deep_view() == spec_xor_block(state.deep_view(), key.deep_view()),
{
    let new_state: Block = [
        crate::utils::word_xor(state[0], key[0]),
        crate::utils::word_xor(state[1], key[1]),
        crate::utils::word_xor(state[2], key[2]),
        crate::utils::word_xor(state[3], key[3]),
    ];
    proof {
        broadcast use crate::utils::lemma_word_deep_view;

        assert(new_state.deep_view() =~~= spec_xor_block(state.deep_view(), key.deep_view()));
    }
    new_state
}

/// Applies one block of counter-mode keystream: encrypts the counter
/// block under the key and exclusive-ors it with the plaintext block.
pub fn gctr(key: Stream, initial_counter_block: Block, plaintext: Stream) -> (ciphertext: Stream)
    ensures
        ciphertext@ == spec_gctr(key@, initial_counter_block.deep_view(), plaintext@),
{
    let encrypted_counter_block = aes(initial_counter_block, key);
    let pt_block = stream_to_block(plaintext);
    let ct_block = add_cipher(&encrypted_counter_block, &pt_block);
    let ciphertext = block_to_stream(ct_block);
    proof {
        assert forall|k: int| 0 <= k < 16 implies ciphertext@[k] == spec_gctr(
            key@,
            initial_counter_block.deep_view(),
            plaintext@,
        )[k] by {
            assert((k / 4) * 4 + k % 4 == k) by (nonlinear_arith)
                requires
                    0 <= k < 16,
            ;
        }
        assert(ciphertext@ =~= spec_gctr(key@, initial_counter_block.deep_view(), plaintext@));
    }
    ciphertext
}

} // verus!
