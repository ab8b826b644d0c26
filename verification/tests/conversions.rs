//! Tests of the representation utilities: stream/block layout, the bit
//! vector conversions, and their round trips.

use aes_gcm_mini::utils::{
    bits_to_byte, bits_to_stream, bitwise_right_shift, byte_to_bits, stream_to_bits,
    stream_to_block, block_to_stream, stream_xor, word_xor,
};
use aes_gcm_mini::{Block, Stream};

#[test]
fn test_stream_to_block() {
    let stream: Stream = [0x00; 16];
    let block: Block = [[0x00; 4]; 4];
    assert_eq!(stream_to_block(stream), block);
    assert_eq!(block_to_stream(block), stream);

    let stream1: Stream = [
        0x32, 0x88, 0x31, 0xe0, 0x43, 0x5a, 0x31, 0x37, 0xf6, 0x30, 0x98, 0x07, 0xa8, 0x8d, 0xa2,
        0x34,
    ];
    let block1: Block = [
        [0x32, 0x43, 0xf6, 0xa8],
        [0x88, 0x5a, 0x30, 0x8d],
        [0x31, 0x31, 0x98, 0xa2],
        [0xe0, 0x37, 0x07, 0x34],
    ];
    assert_eq!(stream_to_block(stream1), block1);
    assert_eq!(block_to_stream(block1), stream1);
}

#[test]
fn test_bitwise_right_shift() {
    let input1: [u8; 128] = [
        1, 0, 0, 0, 0, 0, 0, 0, 0, 0, 0, 0, 0, 0, 0, 0, 0, 0, 0, 0, 0, 0, 0, 0, 0, 0, 0, 0, 0, 0,
        0, 0, 0, 0, 0, 0, 0, 0, 0, 0, 0, 0, 0, 0, 0, 0, 0, 0, 0, 0, 0, 0, 0, 0, 0, 0, 0, 0, 0, 0,
        0, 0, 0, 0, 0, 0, 0, 0, 0, 0, 0, 0, 0, 0, 0, 0, 0, 0, 0, 0, 0, 0, 0, 0, 0, 0, 0, 0, 0, 0,
        0, 0, 0, 0, 0, 0, 0, 0, 0, 0, 0, 0, 0, 0, 0, 0, 0, 0, 0, 0, 0, 0, 0, 0, 0, 0, 0, 0, 0, 0,
        0, 0, 0, 0, 0, 0, 0, 0,
    ];
    let expected_output1: [u8; 128] = [
        0, 1, 0, 0, 0, 0, 0, 0, 0, 0, 0, 0, 0, 0, 0, 0, 0, 0, 0, 0, 0, 0, 0, 0, 0, 0, 0, 0, 0, 0,
        0, 0, 0, 0, 0, 0, 0, 0, 0, 0, 0, 0, 0, 0, 0, 0, 0, 0, 0, 0, 0, 0, 0, 0, 0, 0, 0, 0, 0, 0,
        0, 0, 0, 0, 0, 0, 0, 0, 0, 0, 0, 0, 0, 0, 0, 0, 0, 0, 0, 0, 0, 0, 0, 0, 0, 0, 0, 0, 0, 0,
        0, 0, 0, 0, 0, 0, 0, 0, 0, 0, 0, 0, 0, 0, 0, 0, 0, 0, 0, 0, 0, 0, 0, 0, 0, 0, 0, 0, 0, 0,
        0, 0, 0, 0, 0, 0, 0, 0,
    ];
    assert_eq!(bitwise_right_shift(input1), expected_output1);

    let input2 = [0; 128];
    let expected_output2 = [0; 128];
    assert_eq!(bitwise_right_shift(input2), expected_output2);

    let input3 = [1; 128];
    let expected_output3 = [
        0, 1, 1, 1, 1, 1, 1, 1, 1, 1, 1, 1, 1, 1, 1, 1, 1, 1, 1, 1, 1, 1, 1, 1, 1, 1, 1, 1, 1, 1,
        1, 1, 1, 1, 1, 1, 1, 1, 1, 1, 1, 1, 1, 1, 1, 1, 1, 1, 1, 1, 1, 1, 1, 1, 1, 1, 1, 1, 1, 1,
        1, 1, 1, 1, 1, 1, 1, 1, 1, 1, 1, 1, 1, 1, 1, 1, 1, 1, 1, 1, 1, 1, 1, 1, 1, 1, 1, 1, 1, 1,
        1, 1, 1, 1, 1, 1, 1, 1, 1, 1, 1, 1, 1, 1, 1, 1, 1, 1, 1, 1, 1, 1, 1, 1, 1, 1, 1, 1, 1, 1,
        1, 1, 1, 1, 1, 1, 1, 1,
    ];
    assert_eq!(bitwise_right_shift(input3), expected_output3);
}

#[test]
fn test_stream_to_bits() {
    assert_eq!(stream_to_bits([0x00; 16]), [0; 128]);
    assert_eq!(bits_to_stream([0; 128]), [0x00; 16]);

    let expected_output1 = [
        0, 0, 0, 0, 0, 0, 0, 1, 0, 0, 0, 0, 0, 0, 0, 1, 0, 0, 0, 0, 0, 0, 0, 1, 0, 0, 0, 0, 0, 0,
        0, 1, 0, 0, 0, 0, 0, 0, 0, 1, 0, 0, 0, 0, 0, 0, 0, 1, 0, 0, 0, 0, 0, 0, 0, 1, 0, 0, 0, 0,
        0, 0, 0, 1, 0, 0, 0, 0, 0, 0, 0, 1, 0, 0, 0, 0, 0, 0, 0, 1, 0, 0, 0, 0, 0, 0, 0, 1, 0, 0,
        0, 0, 0, 0, 0, 1, 0, 0, 0, 0, 0, 0, 0, 1, 0, 0, 0, 0, 0, 0, 0, 1, 0, 0, 0, 0, 0, 0, 0, 1,
        0, 0, 0, 0, 0, 0, 0, 1,
    ];

    assert_eq!(bits_to_stream(expected_output1), [0x01; 16]);
    assert_eq!(stream_to_bits([0x01; 16]), expected_output1);

    let expected_output2 = [
        0, 0, 0, 0, 0, 0, 1, 0, 0, 0, 0, 0, 0, 0, 1, 0, 0, 0, 0, 0, 0, 0, 1, 0, 0, 0, 0, 0, 0, 0,
        1, 0, 0, 0, 0, 0, 0, 0, 1, 0, 0, 0, 0, 0, 0, 0, 1, 0, 0, 0, 0, 0, 0, 0, 1, 0, 0, 0, 0, 0,
        0, 0, 1, 0, 0, 0, 0, 0, 0, 0, 1, 0, 0, 0, 0, 0, 0, 0, 1, 0, 0, 0, 0, 0, 0, 0, 1, 0, 0, 0,
        0, 0, 0, 0, 1, 0, 0, 0, 0, 0, 0, 0, 1, 0, 0, 0, 0, 0, 0, 0, 1, 0, 0, 0, 0, 0, 0, 0, 1, 0,
        0, 0, 0, 0, 0, 0, 1, 0,
    ];

    assert_eq!(bits_to_stream(expected_output2), [0x02; 16]);
    assert_eq!(stream_to_bits([0x02; 16]), expected_output2);
}

#[test]
fn test_byte_to_bits() {
    assert_eq!(byte_to_bits(0x00), [0, 0, 0, 0, 0, 0, 0, 0]);
    assert_eq!(byte_to_bits(0x01), [0, 0, 0, 0, 0, 0, 0, 1]);
    assert_eq!(byte_to_bits(0xFF), [1, 1, 1, 1, 1, 1, 1, 1]);
    assert_eq!(byte_to_bits(0x80), [1, 0, 0, 0, 0, 0, 0, 0]);
    assert_eq!(bits_to_byte([1, 0, 0, 0, 0, 0, 0, 0]), 0x80);
}

#[test]
fn byte_bits_round_trip_all_values() {
    let mut b: u16 = 0;
    while b < 256 {
        assert_eq!(bits_to_byte(byte_to_bits(b as u8)), b as u8);
        b += 1;
    }
}

#[test]
fn stream_bits_round_trip() {
    let stream: Stream = [
        0xde, 0xad, 0xbe, 0xef, 0x01, 0x23, 0x45, 0x67, 0x89, 0xab, 0xcd, 0xef, 0x10, 0x32, 0x54,
        0x76,
    ];
    assert_eq!(bits_to_stream(stream_to_bits(stream)), stream);

    let mut bits: [u8; 128] = [0; 128];
    let mut k: usize = 0;
    while k < 128 {
        if k % 3 == 0 {
            bits[k] = 1;
        }
        k += 1;
    }
    assert_eq!(stream_to_bits(bits_to_stream(bits)), bits);
}

#[test]
fn stream_block_round_trip() {
    let stream: Stream = [
        0x00, 0x11, 0x22, 0x33, 0x44, 0x55, 0x66, 0x77, 0x88, 0x99, 0xaa, 0xbb, 0xcc, 0xdd, 0xee,
        0xff,
    ];
    assert_eq!(block_to_stream(stream_to_block(stream)), stream);
}

#[test]
fn xor_exact_values() {
    let a: Stream = [0xff; 16];
    let b: Stream = [0x0f; 16];
    assert_eq!(stream_xor(a, b), [0xf0; 16]);
    assert_eq!(stream_xor(a, a), [0x00; 16]);
    assert_eq!(word_xor([0x01, 0x02, 0x04, 0x08], [0x01, 0x00, 0xff, 0x08]), [
        0x00, 0x02, 0xfb, 0x00,
    ]);
}
