//! AES-GCM encryption of one 128-bit block with one 128-bit block of
//! associated data under a 128-bit key and a 96-bit IV: hash-subkey and
//! counter-block derivation, counter-mode encryption, and tag
//! derivation through GHASH.

use vstd::prelude::*;
use crate::aes::{aes, spec_aes};
use crate::gctr::{gctr, increment_32, spec_gctr, spec_increment_32};
use crate::ghash::{ghash, spec_ghash};
use crate::utils::{
    Block, Stream, zero_stream, spec_stream_to_block, spec_block_to_stream, block_to_stream,
    stream_to_block,
};

verus! {

broadcast use crate::utils::lemma_stream_deep_view;

/// The length block for exactly one 128-bit block of associated data
/// and one 128-bit ciphertext block: the two 64-bit big-endian
/// bit-length fields both hold 128.
pub open spec fn spec_length_block() -> Seq<u8> {
    seq![
        0u8,
        0u8,
        0u8,
        0u8,
        0u8,
        0u8,
        0u8,
        0x80u8,
        0u8,
        0u8,
        0u8,
        0u8,
        0u8,
        0u8,
        0u8,
        0x80u8,
    ]
}

/// The initial counter block J0 for a 96-bit IV: the IV, three zero
/// bytes, and a final byte of 1.
pub open spec fn spec_j0(iv: Seq<u8>) -> Seq<u8> {
    iv + seq![0u8, 0u8, 0u8, 1u8]
}

/// The GHASH subkey: the encryption of the all-zero block under the
/// key.
pub open spec fn spec_hash_subkey(key: Seq<u8>) -> Seq<u8> {
    spec_block_to_stream(spec_aes(spec_stream_to_block(zero_stream()), key))
}

/// The AES-GCM ciphertext block: counter-mode encryption of the
/// plaintext starting at the incremented J0.
pub open spec fn spec_aes_gcm_ciphertext(key: Seq<u8>, pt: Seq<u8>, iv: Seq<u8>) -> Seq<u8> {
    spec_gctr(key, spec_increment_32(spec_stream_to_block(spec_j0(iv))), pt)
}

/// The AES-GCM authentication tag: GHASH over the associated data, the
/// ciphertext, and the length block, encrypted under the keystream of
/// J0 itself.
pub open spec fn spec_aes_gcm_tag(key: Seq<u8>, pt: Seq<u8>, iv: Seq<u8>, aad: Seq<u8>) -> Seq<
    u8,
> {
    let h = spec_hash_subkey(key);
    let c = spec_aes_gcm_ciphertext(key, pt, iv);
    let s = spec_ghash(h, seq![aad, c, spec_length_block()]);
    spec_gctr(key, spec_stream_to_block(spec_j0(iv)), s)
}

/// AES-GCM encryption of one plaintext block with one block of
/// associated data, returning the ciphertext block and the
/// authentication tag.
pub fn aes_gcm(key: Stream, plaintext: Stream, iv: [u8; 12], aad: Stream) -> (result: (
    Stream,
    Stream,
))
    ensures
        result.0@ == spec_aes_gcm_ciphertext(key@, plaintext@, iv@),
        result.1@ == spec_aes_gcm_tag(key@, plaintext@, iv@, aad@),
{
    // Step 1: the hash subkey is the encryption of the zero block.
    let zero_block: Block = [[0u8; 4], [0u8; 4], [0u8; 4], [0u8; 4]];
    proof {
        assert(zero_block.deep_view() =~~= spec_stream_to_block(zero_stream()));
    }
    let hashkey = block_to_stream(aes(zero_block, key));
    // Step 2: J0 is the IV, three zero bytes, and a final byte of 1.
    let j0: Stream = [
        iv[0],
        iv[1],
        iv[2],
        iv[3],
        iv[4],
        iv[5],
        iv[6],
        iv[7],
        iv[8],
        iv[9],
        iv[10],
        iv[11],
        0,
        0,
        0,
        1,
    ];
    proof {
        assert(j0@ =~= spec_j0(iv@));
    }
    let j0_block = stream_to_block(j0);
    // Step 3: the ciphertext comes from the keystream of the
    // incremented J0, reserving J0 itself for the tag.
    let ciphertext = gctr(key, increment_32(j0_block), plaintext);
    // Step 4: the authentication input is the associated data, the
    // ciphertext, and the length block.
    let length_block: Stream = [
        0x00,
        0x00,
        0x00,
        0x00,
        0x00,
        0x00,
        0x00,
        0x80,
        0x00,
        0x00,
        0x00,
        0x00,
        0x00,
        0x00,
        0x00,
        0x80,
    ];
    let s_blocks: [Stream; 3] = [aad, ciphertext, length_block];
    proof {
        assert(length_block@ =~= spec_length_block());
        assert(s_blocks.deep_view() =~= seq![aad@, ciphertext@, spec_length_block()]);
    }
    let ghash_result = ghash(hashkey, s_blocks);
    // Step 5: the tag is the authentication value under the keystream
    // of J0.
    let tag = gctr(key, j0_block, ghash_result);
    (ciphertext, tag)
}

} // verus!
