//! GHASH: the keyed universal hash over GF(2^128) used by GCM for
//! authentication, built from a bit-serial field multiplication.
//!
//! The accumulator starts at zero; for each message block `X` in order
//! it becomes `(accumulator XOR X) * H` in GF(2^128), where `H` is the
//! hash subkey.

use vstd::prelude::*;
use crate::utils::{
    Stream, xor_seq, zero_stream, spec_stream_to_bits, spec_bits_to_stream, spec_right_shift,
    stream_to_bits, bitwise_right_shift, bits_to_stream, stream_xor, bit_of_byte,
};

verus! {

broadcast use crate::utils::lemma_stream_deep_view;

/// Multiplication by the field generator: the 128-bit value shifted
/// right by one bit; when the bit shifted out was 1, the first byte is
/// exclusive-ored with the reduction constant 0xE1, which stands for
/// the polynomial 1 + x + x^2 + x^7 of GCM's reduction polynomial
/// x^128 + x^7 + x^2 + x + 1.
pub open spec fn spec_mulx(s: Seq<u8>) -> Seq<u8> {
    let bits = spec_stream_to_bits(s);
    let shifted = spec_bits_to_stream(spec_right_shift(bits));
    if bits[127] == 1 {
        shifted.update(0, shifted[0] ^ 0xE1)
    } else {
        shifted
    }
}

/// The double-and-add recurrence behind `gmul`, after `i` of the 128
/// steps: at each step the accumulator is folded into the result when
/// bit `i` of the multiplier is set, then advanced by the field
/// doubling step.
pub open spec fn spec_gmul_rec(xbits: Seq<u8>, acc: Seq<u8>, result: Seq<u8>, i: int) -> Seq<u8>
    decreases 128 - i,
{
    if i >= 128 {
        result
    } else {
        spec_gmul_rec(
            xbits,
            spec_mulx(acc),
            if xbits[i] == 1 {
                xor_seq(result, acc)
            } else {
                result
            },
            i + 1,
        )
    }
}

/// Multiplication in GF(2^128): the bit-serial double-and-add over the
/// bits of `x`, most significant first, starting from a zero result and
/// an accumulator of `y`.
pub open spec fn spec_gmul(x: Seq<u8>, y: Seq<u8>) -> Seq<u8> {
    spec_gmul_rec(spec_stream_to_bits(x), y, zero_stream(), 0)
}

/// The GHASH accumulator after the first `n` blocks of the message.
pub open spec fn spec_ghash_prefix(h: Seq<u8>, msg: Seq<Seq<u8>>, n: int) -> Seq<u8>
    decreases n,
{
    if n <= 0 {
        zero_stream()
    } else {
        spec_gmul(h, xor_seq(spec_ghash_prefix(h, msg, n - 1), msg[n - 1]))
    }
}

/// GHASH of a whole message under hash subkey `h`.
pub open spec fn spec_ghash(h: Seq<u8>, msg: Seq<Seq<u8>>) -> Seq<u8> {
    spec_ghash_prefix(h, msg, msg.len() as int)
}

/// Multiplication of the binary extension field by x: right-shifts the
/// block by one bit and, when the bit shifted out was one, folds the
/// reduction constant 0xE1 into the first byte.
pub fn mulx(block: Stream) -> (r: Stream)
    ensures
        r@ == spec_mulx(block@),
{
    let bits = stream_to_bits(block);
    let result_bits = bitwise_right_shift(bits);
    let mut bytes = bits_to_stream(result_bits);
    if bits[127] == 1 {
        bytes[0] = bytes[0] ^ 0xE1;
    }
    proof {
        assert(bytes@ =~= spec_mulx(block@));
    }
    bytes
}

/// Multiplication of `x` and `y` in GF(2^128), bit-serially over the
/// bits of `x`, most significant bit first.
pub fn gmul(x: Stream, y: Stream) -> (r: Stream)
    ensures
        r@ == spec_gmul(x@, y@),
{
    let mut result: Stream = [0u8; 16];
    let mut accumulator: Stream = y;
    let x_bits = stream_to_bits(x);
    proof {
        assert(result@ =~= zero_stream());
    }
    for i in 0..128
        invariant
            x_bits@ == spec_stream_to_bits(x@),
            spec_gmul_rec(x_bits@, accumulator@, result@, i as int) == spec_gmul(x@, y@),
    {
        if x_bits[i] == 1 {
            result = stream_xor(result, accumulator);
        }
        accumulator = mulx(accumulator);
    }
    result
}

/// GHASH over `N` 16-byte message blocks: the tag is the accumulator
/// after folding each block in order into the running GF(2^128)
/// product.
pub fn ghash<const N: usize>(hash_key: Stream, message: [Stream; N]) -> (tag: Stream)
    ensures
        tag@ == spec_ghash(hash_key@, message.deep_view()),
{
    let mut tag: Stream = [0u8; 16];
    proof {
        assert(tag@ =~= zero_stream());
    }
    for i in 0..N
        invariant
            tag@ == spec_ghash_prefix(hash_key@, message.deep_view(), i as int),
    {
        proof {
            assert(message.deep_view()[i as int] == message@[i as int]@);
        }
        tag = stream_xor(tag, message[i]);
        tag = gmul(hash_key, tag);
    }
    tag
}

/// Law: a zero multiplier annihilates: `gmul(0, y)` is the zero stream
/// for every `y`.
pub proof fn lemma_gmul_zero(y: Seq<u8>)
    ensures
        spec_gmul(zero_stream(), y) == zero_stream(),
{
    let zbits = spec_stream_to_bits(zero_stream());
    assert forall|k: int| 0 <= k < 128 implies zbits[k] == 0u8 by {
        let sh = (7 - k % 8) as u8;
        assert((0u8 >> sh) & 1 == 0u8) by (bit_vector);
        assert(bit_of_byte(0u8, k % 8) == (0u8 >> sh) & 1);
    }
    lemma_gmul_rec_zero(zbits, y, zero_stream(), 0);
}

proof fn lemma_gmul_rec_zero(xbits: Seq<u8>, acc: Seq<u8>, result: Seq<u8>, i: int)
    requires
        0 <= i <= 128,
        result == zero_stream(),
        forall|k: int| 0 <= k < 128 ==> xbits[k] == 0u8,
    ensures
        spec_gmul_rec(xbits, acc, result, i) == result,
    decreases 128 - i,
{
    if i < 128 {
        lemma_gmul_rec_zero(xbits, spec_mulx(acc), result, i + 1);
    }
}

} // verus!
