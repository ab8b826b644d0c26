//! Tests of the GF(2^128) arithmetic and GHASH.

use aes_gcm_mini::ghash::{ghash, gmul, mulx};
use aes_gcm_mini::Stream;

#[test]
fn ghash_01() {
    let hash_key: Stream = [
        0x25, 0x62, 0x93, 0x47, 0x58, 0x92, 0x42, 0x76, 0x1d, 0x31, 0xf8, 0x26, 0xba, 0x4b, 0x75,
        0x7b,
    ];
    let message: [Stream; 2] = [
        [
            0x4f, 0x4f, 0x95, 0x66, 0x8c, 0x83, 0xdf, 0xb6, 0x40, 0x17, 0x62, 0xbb, 0x2d, 0x01,
            0xa2, 0x62,
        ],
        [
            0xd1, 0xa2, 0x4d, 0xdd, 0x27, 0x21, 0xd0, 0x06, 0xbb, 0xe4, 0x5f, 0x20, 0xd3, 0xc9,
            0xf3, 0x62,
        ],
    ];
    let expected: Stream = [
        0xbd, 0x9b, 0x39, 0x97, 0x04, 0x67, 0x31, 0xfb, 0x96, 0x25, 0x1b, 0x91, 0xf9, 0xc9, 0x9d,
        0x7a,
    ];

    assert_eq!(ghash(hash_key, message), expected);
}

#[test]
fn gmul00() {
    let x: Stream = [
        0x80, 0x00, 0x00, 0x00, 0x00, 0x00, 0x00, 0x00, 0x00, 0x00, 0x00, 0x00, 0x00, 0x00, 0x00,
        0x00,
    ];
    let y: Stream = [
        0x80, 0x00, 0x00, 0x00, 0x00, 0x00, 0x00, 0x00, 0x00, 0x00, 0x00, 0x00, 0x00, 0x00, 0x00,
        0x00,
    ];
    let expected: Stream = [
        0x80, 0x00, 0x00, 0x00, 0x00, 0x00, 0x00, 0x00, 0x00, 0x00, 0x00, 0x00, 0x00, 0x00, 0x00,
        0x00,
    ];
    assert_eq!(gmul(x, y), expected);
}

#[test]
fn gmul01() {
    let x: Stream = [
        0x00, 0x00, 0x00, 0x00, 0x00, 0x00, 0x00, 0x00, 0x00, 0x00, 0x00, 0x00, 0x00, 0x00, 0x00,
        0x01,
    ];
    let y: Stream = [
        0x00, 0x00, 0x00, 0x00, 0x00, 0x00, 0x00, 0x00, 0x00, 0x00, 0x00, 0x00, 0x00, 0x00, 0x00,
        0x01,
    ];
    let expected: Stream = [
        0xe6, 0x08, 0x00, 0x00, 0x00, 0x00, 0x00, 0x00, 0x00, 0x00, 0x00, 0x00, 0x00, 0x00, 0x00,
        0x03,
    ];
    assert_eq!(gmul(x, y), expected);
}

#[test]
fn gmul02() {
    let x: Stream = [
        0xaa, 0xe0, 0x69, 0x92, 0xac, 0xbf, 0x52, 0xa3, 0xe8, 0xf4, 0xa9, 0x6e, 0xc9, 0x30, 0x0b,
        0xd7,
    ];
    let y: Stream = [
        0x98, 0xe7, 0x24, 0x7c, 0x07, 0xf0, 0xfe, 0x41, 0x1c, 0x26, 0x7e, 0x43, 0x84, 0xb0, 0xf6,
        0x00,
    ];
    let expected: Stream = [
        0x90, 0xe8, 0x73, 0x15, 0xfb, 0x7d, 0x4e, 0x1b, 0x40, 0x92, 0xec, 0x0c, 0xbf, 0xda, 0x5d,
        0x7d,
    ];
    assert_eq!(gmul(x, y), expected);
}

#[test]
fn test_mulx() {
    let input: Stream = [
        0x00, 0x00, 0x00, 0x00, 0x00, 0x00, 0x00, 0x00, 0x00, 0x00, 0x00, 0x00, 0x00, 0x00, 0x00,
        0x01,
    ];
    let expected: Stream = [
        0xE1, 0x00, 0x00, 0x00, 0x00, 0x00, 0x00, 0x00, 0x00, 0x00, 0x00, 0x00, 0x00, 0x00, 0x00,
        0x00,
    ];
    assert_eq!(mulx(input), expected);
}

#[test]
fn gmul_zero_annihilates() {
    let zero: Stream = [0x00; 16];
    let ys: [Stream; 3] = [
        [0xff; 16],
        [
            0x98, 0xe7, 0x24, 0x7c, 0x07, 0xf0, 0xfe, 0x41, 0x1c, 0x26, 0x7e, 0x43, 0x84, 0xb0,
            0xf6, 0x00,
        ],
        [0x01; 16],
    ];
    let mut i: usize = 0;
    while i < 3 {
        assert_eq!(gmul(zero, ys[i]), zero);
        i += 1;
    }
}

#[test]
fn gmul_commutes() {
    let pairs: [(Stream, Stream); 3] = [
        (
            [
                0xaa, 0xe0, 0x69, 0x92, 0xac, 0xbf, 0x52, 0xa3, 0xe8, 0xf4, 0xa9, 0x6e, 0xc9,
                0x30, 0x0b, 0xd7,
            ],
            [
                0x98, 0xe7, 0x24, 0x7c, 0x07, 0xf0, 0xfe, 0x41, 0x1c, 0x26, 0x7e, 0x43, 0x84,
                0xb0, 0xf6, 0x00,
            ],
        ),
        ([0x01; 16], [0xfe; 16]),
        (
            [
                0x25, 0x62, 0x93, 0x47, 0x58, 0x92, 0x42, 0x76, 0x1d, 0x31, 0xf8, 0x26, 0xba,
                0x4b, 0x75, 0x7b,
            ],
            [
                0xbd, 0x9b, 0x39, 0x97, 0x04, 0x67, 0x31, 0xfb, 0x96, 0x25, 0x1b, 0x91, 0xf9,
                0xc9, 0x9d, 0x7a,
            ],
        ),
    ];
    let mut i: usize = 0;
    while i < 3 {
        let (x, y) = pairs[i];
        assert_eq!(gmul(x, y), gmul(y, x));
        i += 1;
    }
}

#[test]
fn field_functions_are_pure() {
    let x: Stream = [
        0xaa, 0xe0, 0x69, 0x92, 0xac, 0xbf, 0x52, 0xa3, 0xe8, 0xf4, 0xa9, 0x6e, 0xc9, 0x30, 0x0b,
        0xd7,
    ];
    let y: Stream = [
        0x98, 0xe7, 0x24, 0x7c, 0x07, 0xf0, 0xfe, 0x41, 0x1c, 0x26, 0x7e, 0x43, 0x84, 0xb0, 0xf6,
        0x00,
    ];
    assert_eq!(gmul(x, y), gmul(x, y));
    assert_eq!(mulx(x), mulx(x));
    assert_eq!(ghash(y, [x, y]), ghash(y, [x, y]));
}
