//! Representation utilities: the 16-byte stream, the 4x4 AES state
//! block, the 128-entry bit vector used by the field arithmetic, and
//! the exact conversions between them.
//!
//! Layout invariants:
//! - `block[row][col]` corresponds to `stream[col * 4 + row]` (the
//!   column-major AES state layout);
//! - bit 0 of a bit vector is the most significant bit of the stream's
//!   first byte, bit 127 the least significant bit of its last byte.

use vstd::prelude::*;

verus! {

/// A 16-byte linear buffer: the canonical shape of a 128-bit block,
/// key, tag, or ciphertext block.
pub type Stream = [u8; 16];

/// The AES internal state: a 4x4 byte matrix in column-major
/// correspondence with a stream.
pub type Block = [[u8; 4]; 4];

/// Byte-wise exclusive-or of two equal-length byte sequences.
pub open spec fn xor_seq(a: Seq<u8>, b: Seq<u8>) -> Seq<u8> {
    Seq::new(a.len(), |i: int| a[i] ^ b[i])
}

/// The all-zero 16-byte sequence.
pub open spec fn zero_stream() -> Seq<u8> {
    Seq::new(16, |i: int| 0u8)
}

/// The stream laid out as the AES state: entry `[row][col]` is stream
/// byte `col * 4 + row`.
pub open spec fn spec_stream_to_block(s: Seq<u8>) -> Seq<Seq<u8>> {
    Seq::new(4, |row: int| Seq::new(4, |col: int| s[col * 4 + row]))
}

/// The inverse layout: stream byte `k` is state entry `[k % 4][k / 4]`.
pub open spec fn spec_block_to_stream(b: Seq<Seq<u8>>) -> Seq<u8> {
    Seq::new(16, |k: int| b[k % 4][k / 4])
}

/// Bit `j` of a byte, with bit 0 the most significant.
pub open spec fn bit_of_byte(b: u8, j: int) -> u8 {
    (b >> (7 - j) as u8) & 1
}

/// The eight bits of a byte, most significant first.
pub open spec fn spec_byte_to_bits(b: u8) -> Seq<u8> {
    Seq::new(8, |j: int| bit_of_byte(b, j))
}

/// The byte assembled from eight single-bit values, most significant
/// first.
pub open spec fn spec_bits_to_byte(bits: Seq<u8>) -> u8 {
    (bits[0] << 7u8) | (bits[1] << 6u8) | (bits[2] << 5u8) | (bits[3] << 4u8) | (bits[4] << 3u8)
        | (bits[5] << 2u8) | (bits[6] << 1u8) | bits[7]
}

/// The 128 bits of a 16-byte stream: bit `k` is bit `k % 8` of byte
/// `k / 8`.
pub open spec fn spec_stream_to_bits(s: Seq<u8>) -> Seq<u8> {
    Seq::new(128, |k: int| bit_of_byte(s[k / 8], k % 8))
}

/// The 16 bytes assembled from a 128-entry bit vector.
pub open spec fn spec_bits_to_stream(bits: Seq<u8>) -> Seq<u8> {
    Seq::new(16, |i: int| spec_bits_to_byte(bits.subrange(8 * i, 8 * i + 8)))
}

/// A bit vector shifted right by one position: bit 0 becomes zero,
/// bit 127 is discarded.
pub open spec fn spec_right_shift(bits: Seq<u8>) -> Seq<u8> {
    Seq::new(128, |i: int| if i == 0 { 0u8 } else { bits[i - 1] })
}

/// A 4-byte word's deep view coincides with its view.
pub broadcast proof fn lemma_word_deep_view(w: [u8; 4])
    ensures
        #![trigger w.deep_view()]
        w.deep_view() == w@,
{
    assert(w.deep_view() =~= w@);
}

/// A 16-byte stream's deep view coincides with its view.
pub broadcast proof fn lemma_stream_deep_view(s: [u8; 16])
    ensures
        #![trigger s.deep_view()]
        s.deep_view() == s@,
{
    assert(s.deep_view() =~= s@);
}

/// Byte-wise exclusive-or of two 16-byte streams.
pub fn stream_xor(stream1: Stream, stream2: Stream) -> (result: Stream)
    ensures
        result@ == xor_seq(stream1@, stream2@),
{
    let mut result: Stream = [0u8; 16];
    for i in 0..16
        invariant
            forall|k: int| 0 <= k < i ==> result@[k] == (stream1@[k] ^ stream2@[k]),
    {
        result[i] = stream1[i] ^ stream2[i];
    }
    proof {
        assert(result@ =~= xor_seq(stream1@, stream2@));
    }
    result
}

/// Byte-wise exclusive-or of two 4-byte words.
pub fn word_xor(word1: [u8; 4], word2: [u8; 4]) -> (result: [u8; 4])
    ensures
        result@ == xor_seq(word1@, word2@),
{
    let mut result: [u8; 4] = [0u8; 4];
    for i in 0..4
        invariant
            forall|k: int| 0 <= k < i ==> result@[k] == (word1@[k] ^ word2@[k]),
    {
        result[i] = word1[i] ^ word2[i];
    }
    proof {
        assert(result@ =~= xor_seq(word1@, word2@));
    }
    result
}

/// Lays a 16-byte stream out as the column-major AES state.
pub fn stream_to_block(stream: Stream) -> (block: Block)
    ensures
        block.deep_view() == spec_stream_to_block(stream@),
{
    let block: Block = [
        [stream[0], stream[4], stream[8], stream[12]],
        [stream[1], stream[5], stream[9], stream[13]],
        [stream[2], stream[6], stream[10], stream[14]],
        [stream[3], stream[7], stream[11], stream[15]],
    ];
    proof {
        assert(block.deep_view() =~~= spec_stream_to_block(stream@));
    }
    block
}

/// Reads the column-major AES state back into a 16-byte stream.
pub fn block_to_stream(block: Block) -> (stream: Stream)
    ensures
        stream@ == spec_block_to_stream(block.deep_view()),
{
    let stream: Stream = [
        block[0][0],
        block[1][0],
        block[2][0],
        block[3][0],
        block[0][1],
        block[1][1],
        block[2][1],
        block[3][1],
        block[0][2],
        block[1][2],
        block[2][2],
        block[3][2],
        block[0][3],
        block[1][3],
        block[2][3],
        block[3][3],
    ];
    proof {
        assert(stream@ =~= spec_block_to_stream(block.deep_view()));
    }
    stream
}

/// Shifts a 128-entry bit vector right by one position, inserting a
/// zero at bit 0 and discarding bit 127.
pub fn bitwise_right_shift(bits: [u8; 128]) -> (result: [u8; 128])
    ensures
        result@ == spec_right_shift(bits@),
{
    let mut result: [u8; 128] = [0u8; 128];
    for i in 1..128
        invariant
            result@[0] == 0u8,
            forall|k: int| 1 <= k < i ==> result@[k] == bits@[k - 1],
    {
        result[i] = bits[i - 1];
    }
    proof {
        assert(result@ =~= spec_right_shift(bits@));
    }
    result
}

/// The eight bits of a byte, most significant first, each as 0 or 1.
pub fn byte_to_bits(byte: u8) -> (bits: [u8; 8])
    ensures
        bits@ == spec_byte_to_bits(byte),
{
    let bits: [u8; 8] = [
        (byte >> 7u8) & 1,
        (byte >> 6u8) & 1,
        (byte >> 5u8) & 1,
        (byte >> 4u8) & 1,
        (byte >> 3u8) & 1,
        (byte >> 2u8) & 1,
        (byte >> 1u8) & 1,
        byte & 1,
    ];
    proof {
        assert(bit_of_byte(byte, 7) == byte & 1) by (bit_vector);
        assert(bits@ =~= spec_byte_to_bits(byte));
    }
    bits
}

/// Assembles a byte from eight single-bit values, most significant
/// first.
pub fn bits_to_byte(bits: [u8; 8]) -> (byte: u8)
    ensures
        byte == spec_bits_to_byte(bits@),
{
    (bits[0] << 7u8) | (bits[1] << 6u8) | (bits[2] << 5u8) | (bits[3] << 4u8) | (bits[4] << 3u8)
        | (bits[5] << 2u8) | (bits[6] << 1u8) | bits[7]
}

/// Expands a 16-byte stream into its 128 bits, most significant bit of
/// each byte first.
pub fn stream_to_bits(bytes: Stream) -> (bits: [u8; 128])
    ensures
        bits@ == spec_stream_to_bits(bytes@),
{
    let mut bits: [u8; 128] = [0u8; 128];
    for i in 0..16
        invariant
            forall|k: int| 0 <= k < 8 * i ==> bits@[k] == bit_of_byte(bytes@[k / 8], k % 8),
    {
        let byte_bits = byte_to_bits(bytes[i]);
        for j in 0..8
            invariant
                byte_bits@ == spec_byte_to_bits(bytes@[i as int]),
                i < 16,
                forall|k: int| 0 <= k < 8 * i + j ==> bits@[k] == bit_of_byte(bytes@[k / 8], k % 8),
        {
            bits[i * 8 + j] = byte_bits[j];
            proof {
                assert((8 * i + j) / 8 == i && (8 * i + j) % 8 == j);
            }
        }
    }
    proof {
        assert(bits@ =~= spec_stream_to_bits(bytes@));
    }
    bits
}

/// Packs a 128-entry bit vector back into 16 bytes.
pub fn bits_to_stream(bits: [u8; 128]) -> (bytes: Stream)
    ensures
        bytes@ == spec_bits_to_stream(bits@),
{
    let mut bytes: Stream = [0u8; 16];
    for i in 0..16
        invariant
            forall|k: int|
                0 <= k < i ==> bytes@[k] == spec_bits_to_byte(bits@.subrange(8 * k, 8 * k + 8)),
    {
        let byte_bits: [u8; 8] = [
            bits[i * 8],
            bits[i * 8 + 1],
            bits[i * 8 + 2],
            bits[i * 8 + 3],
            bits[i * 8 + 4],
            bits[i * 8 + 5],
            bits[i * 8 + 6],
            bits[i * 8 + 7],
        ];
        proof {
            assert(byte_bits@ =~= bits@.subrange(8 * (i as int), 8 * (i as int) + 8));
        }
        bytes[i] = bits_to_byte(byte_bits);
    }
    proof {
        assert(bytes@ =~= spec_bits_to_stream(bits@));
    }
    bytes
}


/// Law: reading a stream into the AES state layout and back returns the
/// stream unchanged.
pub proof fn lemma_stream_block_round_trip(s: Seq<u8>)
    requires
        s.len() == 16,
    ensures
        spec_block_to_stream(spec_stream_to_block(s)) == s,
{
    let b = spec_stream_to_block(s);
    assert forall|k: int| 0 <= k < 16 implies spec_block_to_stream(b)[k] == s[k] by {
        assert((k / 4) * 4 + k % 4 == k) by (nonlinear_arith)
            requires
                0 <= k < 16,
        ;
    }
    assert(spec_block_to_stream(b) =~= s);
}

/// Law: laying the AES state out as a stream and back returns the state
/// unchanged.
pub proof fn lemma_block_stream_round_trip(b: Seq<Seq<u8>>)
    requires
        b.len() == 4,
        forall|r: int| 0 <= r < 4 ==> (#[trigger] b[r]).len() == 4,
    ensures
        spec_stream_to_block(spec_block_to_stream(b)) == b,
{
    let s = spec_block_to_stream(b);
    assert forall|r: int, c: int| 0 <= r < 4 && 0 <= c < 4 implies s[c * 4 + r] == b[r][c] by {
        assert((c * 4 + r) % 4 == r && (c * 4 + r) / 4 == c) by (nonlinear_arith)
            requires
                0 <= r < 4 && 0 <= c < 4,
        ;
    }
    assert(spec_stream_to_block(s) =~~= b);
}

/// Law: splitting a byte into its eight bits and reassembling them
/// returns the byte unchanged.
pub proof fn lemma_byte_bits_round_trip(b: u8)
    ensures
        spec_bits_to_byte(spec_byte_to_bits(b)) == b,
{
    let bits = spec_byte_to_bits(b);
    assert(((b >> 7u8) & 1) << 7u8 | ((b >> 6u8) & 1) << 6u8 | ((b >> 5u8) & 1) << 5u8 | ((b
        >> 4u8) & 1) << 4u8 | ((b >> 3u8) & 1) << 3u8 | ((b >> 2u8) & 1) << 2u8 | ((b >> 1u8) & 1)
        << 1u8 | ((b >> 0u8) & 1) == b) by (bit_vector);
    assert(bits[7] == (b >> 0u8) & 1);
}

/// Law: assembling eight single-bit values into a byte and splitting it
/// again returns the bits unchanged.
pub proof fn lemma_bits_byte_round_trip(bits: Seq<u8>)
    requires
        bits.len() == 8,
        forall|j: int| 0 <= j < 8 ==> bits[j] <= 1,
    ensures
        spec_byte_to_bits(spec_bits_to_byte(bits)) == bits,
{
    let b0 = bits[0];
    let b1 = bits[1];
    let b2 = bits[2];
    let b3 = bits[3];
    let b4 = bits[4];
    let b5 = bits[5];
    let b6 = bits[6];
    let b7 = bits[7];
    let y = spec_bits_to_byte(bits);
    assert(y == b0 << 7u8 | b1 << 6u8 | b2 << 5u8 | b3 << 4u8 | b4 << 3u8 | b5 << 2u8 | b6 << 1u8
        | b7);
    lemma_or_of_bits_splits(b0, b1, b2, b3, b4, b5, b6, b7);
    assert forall|j: int| 0 <= j < 8 implies spec_byte_to_bits(y)[j] == bits[j] by {
        assert(bit_of_byte(y, 7) == (y >> 0u8) & 1);
    }
    assert(spec_byte_to_bits(y) =~= bits);
}

/// Each single-bit operand can be read back out of the assembled byte.
proof fn lemma_or_of_bits_splits(b0: u8, b1: u8, b2: u8, b3: u8, b4: u8, b5: u8, b6: u8, b7: u8)
    by (bit_vector)
    requires
        b0 <= 1,
        b1 <= 1,
        b2 <= 1,
        b3 <= 1,
        b4 <= 1,
        b5 <= 1,
        b6 <= 1,
        b7 <= 1,
    ensures
        ((b0 << 7u8 | b1 << 6u8 | b2 << 5u8 | b3 << 4u8 | b4 << 3u8 | b5 << 2u8 | b6 << 1u8 | b7)
            >> 7u8) & 1 == b0,
        ((b0 << 7u8 | b1 << 6u8 | b2 << 5u8 | b3 << 4u8 | b4 << 3u8 | b5 << 2u8 | b6 << 1u8 | b7)
            >> 6u8) & 1 == b1,
        ((b0 << 7u8 | b1 << 6u8 | b2 << 5u8 | b3 << 4u8 | b4 << 3u8 | b5 << 2u8 | b6 << 1u8 | b7)
            >> 5u8) & 1 == b2,
        ((b0 << 7u8 | b1 << 6u8 | b2 << 5u8 | b3 << 4u8 | b4 << 3u8 | b5 << 2u8 | b6 << 1u8 | b7)
            >> 4u8) & 1 == b3,
        ((b0 << 7u8 | b1 << 6u8 | b2 << 5u8 | b3 << 4u8 | b4 << 3u8 | b5 << 2u8 | b6 << 1u8 | b7)
            >> 3u8) & 1 == b4,
        ((b0 << 7u8 | b1 << 6u8 | b2 << 5u8 | b3 << 4u8 | b4 << 3u8 | b5 << 2u8 | b6 << 1u8 | b7)
            >> 2u8) & 1 == b5,
        ((b0 << 7u8 | b1 << 6u8 | b2 << 5u8 | b3 << 4u8 | b4 << 3u8 | b5 << 2u8 | b6 << 1u8 | b7)
            >> 1u8) & 1 == b6,
        ((b0 << 7u8 | b1 << 6u8 | b2 << 5u8 | b3 << 4u8 | b4 << 3u8 | b5 << 2u8 | b6 << 1u8 | b7)
            >> 0u8) & 1 == b7,
{
}

/// Law: expanding a stream into its 128 bits and packing them back
/// returns the stream unchanged.
pub proof fn lemma_stream_bits_round_trip(s: Seq<u8>)
    requires
        s.len() == 16,
    ensures
        spec_bits_to_stream(spec_stream_to_bits(s)) == s,
{
    let bits = spec_stream_to_bits(s);
    assert forall|i: int| 0 <= i < 16 implies spec_bits_to_stream(bits)[i] == s[i] by {
        assert forall|j: int| 0 <= j < 8 implies bits.subrange(8 * i, 8 * i + 8)[j]
            == spec_byte_to_bits(s[i])[j] by {
            assert((8 * i + j) / 8 == i && (8 * i + j) % 8 == j) by (nonlinear_arith)
                requires
                    0 <= i < 16 && 0 <= j < 8,
            ;
        }
        assert(bits.subrange(8 * i, 8 * i + 8) =~= spec_byte_to_bits(s[i]));
        lemma_byte_bits_round_trip(s[i]);
    }
    assert(spec_bits_to_stream(bits) =~= s);
}

/// Law: packing a 128-entry vector of single-bit values into bytes and
/// expanding it again returns the bit vector unchanged.
pub proof fn lemma_bits_stream_round_trip(bits: Seq<u8>)
    requires
        bits.len() == 128,
        forall|k: int| 0 <= k < 128 ==> bits[k] <= 1,
    ensures
        spec_stream_to_bits(spec_bits_to_stream(bits)) == bits,
{
    let s = spec_bits_to_stream(bits);
    assert forall|k: int| 0 <= k < 128 implies spec_stream_to_bits(s)[k] == bits[k] by {
        let i = k / 8;
        let j = k % 8;
        assert(0 <= i < 16 && 0 <= j < 8 && 8 * i + j == k) by (nonlinear_arith)
            requires
                0 <= k < 128 && i == k / 8 && j == k % 8,
        ;
        let sub = bits.subrange(8 * i, 8 * i + 8);
        lemma_bits_byte_round_trip(sub);
        assert(spec_byte_to_bits(s[i])[j] == sub[j]);
    }
    assert(spec_stream_to_bits(s) =~= bits);
}

} // verus!


