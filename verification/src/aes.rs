//! The AES-128 block transform: key schedule and the ten-round
//! substitution/permutation network of FIPS-197, operating on the
//! column-major 4x4 state.

use vstd::prelude::*;
use crate::utils::{Block, Stream, xor_seq};

verus! {

broadcast use crate::utils::lemma_word_deep_view;

/// The fixed invertible byte-substitution table of AES.
pub const SBOX: [u8; 256] = [
    0x63, 0x7c, 0x77, 0x7b, 0xf2, 0x6b, 0x6f, 0xc5,
    0x30, 0x01, 0x67, 0x2b, 0xfe, 0xd7, 0xab, 0x76,
    0xca, 0x82, 0xc9, 0x7d, 0xfa, 0x59, 0x47, 0xf0,
    0xad, 0xd4, 0xa2, 0xaf, 0x9c, 0xa4, 0x72, 0xc0,
    0xb7, 0xfd, 0x93, 0x26, 0x36, 0x3f, 0xf7, 0xcc,
    0x34, 0xa5, 0xe5, 0xf1, 0x71, 0xd8, 0x31, 0x15,
    0x04, 0xc7, 0x23, 0xc3, 0x18, 0x96, 0x05, 0x9a,
    0x07, 0x12, 0x80, 0xe2, 0xeb, 0x27, 0xb2, 0x75,
    0x09, 0x83, 0x2c, 0x1a, 0x1b, 0x6e, 0x5a, 0xa0,
    0x52, 0x3b, 0xd6, 0xb3, 0x29, 0xe3, 0x2f, 0x84,
    0x53, 0xd1, 0x00, 0xed, 0x20, 0xfc, 0xb1, 0x5b,
    0x6a, 0xcb, 0xbe, 0x39, 0x4a, 0x4c, 0x58, 0xcf,
    0xd0, 0xef, 0xaa, 0xfb, 0x43, 0x4d, 0x33, 0x85,
    0x45, 0xf9, 0x02, 0x7f, 0x50, 0x3c, 0x9f, 0xa8,
    0x51, 0xa3, 0x40, 0x8f, 0x92, 0x9d, 0x38, 0xf5,
    0xbc, 0xb6, 0xda, 0x21, 0x10, 0xff, 0xf3, 0xd2,
    0xcd, 0x0c, 0x13, 0xec, 0x5f, 0x97, 0x44, 0x17,
    0xc4, 0xa7, 0x7e, 0x3d, 0x64, 0x5d, 0x19, 0x73,
    0x60, 0x81, 0x4f, 0xdc, 0x22, 0x2a, 0x90, 0x88,
    0x46, 0xee, 0xb8, 0x14, 0xde, 0x5e, 0x0b, 0xdb,
    0xe0, 0x32, 0x3a, 0x0a, 0x49, 0x06, 0x24, 0x5c,
    0xc2, 0xd3, 0xac, 0x62, 0x91, 0x95, 0xe4, 0x79,
    0xe7, 0xc8, 0x37, 0x6d, 0x8d, 0xd5, 0x4e, 0xa9,
    0x6c, 0x56, 0xf4, 0xea, 0x65, 0x7a, 0xae, 0x08,
    0xba, 0x78, 0x25, 0x2e, 0x1c, 0xa6, 0xb4, 0xc6,
    0xe8, 0xdd, 0x74, 0x1f, 0x4b, 0xbd, 0x8b, 0x8a,
    0x70, 0x3e, 0xb5, 0x66, 0x48, 0x03, 0xf6, 0x0e,
    0x61, 0x35, 0x57, 0xb9, 0x86, 0xc1, 0x1d, 0x9e,
    0xe1, 0xf8, 0x98, 0x11, 0x69, 0xd9, 0x8e, 0x94,
    0x9b, 0x1e, 0x87, 0xe9, 0xce, 0x55, 0x28, 0xdf,
    0x8c, 0xa1, 0x89, 0x0d, 0xbf, 0xe6, 0x42, 0x68,
    0x41, 0x99, 0x2d, 0x0f, 0xb0, 0x54, 0xbb, 0x16,
];

/// The substitution table applied to one byte.
pub open spec fn spec_sub_byte(b: u8) -> u8 {
    SBOX[b as int]
}

/// Multiplication by the generator x in GF(2^8) modulo the AES
/// polynomial x^8 + x^4 + x^3 + x + 1.
pub open spec fn spec_xtime(b: u8) -> u8 {
    if b & 0x80 == 0x80 {
        (b << 1u8) ^ 0x1b
    } else {
        b << 1u8
    }
}

/// A 4-byte word rotated left by one byte.
pub open spec fn spec_rot_word(w: Seq<u8>) -> Seq<u8> {
    seq![w[1], w[2], w[3], w[0]]
}

/// The substitution table applied to each byte of a 4-byte word.
pub open spec fn spec_sub_word(w: Seq<u8>) -> Seq<u8> {
    Seq::new(4, |i: int| spec_sub_byte(w[i]))
}

/// The round constant of round `r`: 1 for round 1, doubling in GF(2^8)
/// each round after.
pub open spec fn spec_rcon(r: int) -> u8
    decreases r,
{
    if r <= 1 {
        1u8
    } else {
        spec_xtime(spec_rcon(r - 1))
    }
}

/// The non-linear key-schedule core: rotate, substitute, and mix the
/// round constant into the first byte.
pub open spec fn spec_key_core(w: Seq<u8>, r: int) -> Seq<u8> {
    let s = spec_sub_word(spec_rot_word(w));
    seq![s[0] ^ spec_rcon(r), s[1], s[2], s[3]]
}

/// Word `i` of the expanded key: the first four words are the key
/// itself; every fourth word after that mixes the key-schedule core of
/// its predecessor with the word four positions back, and the others
/// exclusive-or their predecessor with the word four positions back.
pub open spec fn spec_key_word(key: Seq<u8>, i: int) -> Seq<u8>
    decreases i,
{
    if i < 4 {
        key.subrange(4 * i, 4 * i + 4)
    } else if i % 4 == 0 {
        xor_seq(spec_key_word(key, i - 4), spec_key_core(spec_key_word(key, i - 1), i / 4))
    } else {
        xor_seq(spec_key_word(key, i - 4), spec_key_word(key, i - 1))
    }
}

/// Round key `r` as a state block: entry `[row][col]` is byte `row` of
/// expanded-key word `4 * r + col`.
pub open spec fn spec_round_key(key: Seq<u8>, r: int) -> Seq<Seq<u8>> {
    Seq::new(4, |row: int| Seq::new(4, |col: int| spec_key_word(key, 4 * r + col)[row]))
}

/// The substitution step: the table applied to every state byte.
pub open spec fn spec_sub_bytes(b: Seq<Seq<u8>>) -> Seq<Seq<u8>> {
    Seq::new(4, |row: int| Seq::new(4, |col: int| spec_sub_byte(b[row][col])))
}

/// The row-shift step: row `r` cyclically shifted left by `r`.
pub open spec fn spec_shift_rows(b: Seq<Seq<u8>>) -> Seq<Seq<u8>> {
    Seq::new(4, |row: int| Seq::new(4, |col: int| b[row][(col + row) % 4]))
}

/// The column-diffusion step applied to one column.
pub open spec fn spec_mix_column(col: Seq<u8>) -> Seq<u8> {
    seq![
        spec_xtime(col[0]) ^ spec_xtime(col[1]) ^ col[1] ^ col[2] ^ col[3],
        col[0] ^ spec_xtime(col[1]) ^ spec_xtime(col[2]) ^ col[2] ^ col[3],
        col[0] ^ col[1] ^ spec_xtime(col[2]) ^ spec_xtime(col[3]) ^ col[3],
        spec_xtime(col[0]) ^ col[0] ^ col[1] ^ col[2] ^ spec_xtime(col[3]),
    ]
}

/// Column `c` of a state block.
pub open spec fn spec_column(b: Seq<Seq<u8>>, c: int) -> Seq<u8> {
    seq![b[0][c], b[1][c], b[2][c], b[3][c]]
}

/// The column-diffusion step applied to every column.
pub open spec fn spec_mix_columns(b: Seq<Seq<u8>>) -> Seq<Seq<u8>> {
    Seq::new(4, |row: int| Seq::new(4, |col: int| spec_mix_column(spec_column(b, col))[row]))
}

/// Two state blocks combined by byte-wise exclusive-or.
pub open spec fn spec_xor_block(a: Seq<Seq<u8>>, b: Seq<Seq<u8>>) -> Seq<Seq<u8>> {
    Seq::new(4, |row: int| xor_seq(a[row], b[row]))
}

/// The state after the initial key mixing and the first `r` rounds:
/// rounds 1 through 9 substitute, shift, diffuse and mix the round key;
/// round 10 omits the diffusion.
pub open spec fn spec_aes_rounds(b: Seq<Seq<u8>>, key: Seq<u8>, r: int) -> Seq<Seq<u8>>
    decreases r,
{
    if r <= 0 {
        spec_xor_block(b, spec_round_key(key, 0))
    } else if r < 10 {
        spec_xor_block(
            spec_mix_columns(spec_shift_rows(spec_sub_bytes(spec_aes_rounds(b, key, r - 1)))),
            spec_round_key(key, r),
        )
    } else {
        spec_xor_block(
            spec_shift_rows(spec_sub_bytes(spec_aes_rounds(b, key, 9))),
            spec_round_key(key, 10),
        )
    }
}

/// AES-128 encryption of one state block under a 16-byte key.
pub open spec fn spec_aes(b: Seq<Seq<u8>>, key: Seq<u8>) -> Seq<Seq<u8>> {
    spec_aes_rounds(b, key, 10)
}

fn sub_byte(b: u8) -> (r: u8)
    ensures
        r == spec_sub_byte(b),
{
    SBOX[b as usize]
}

fn xtime(b: u8) -> (r: u8)
    ensures
        r == spec_xtime(b),
{
    if b & 0x80 == 0x80 {
        (b << 1u8) ^ 0x1b
    } else {
        b << 1u8
    }
}

fn sub_bytes(block: Block) -> (out: Block)
    ensures
        out.deep_view() == spec_sub_bytes(block.deep_view()),
{
    let out: Block = [
        [
            sub_byte(block[0][0]),
            sub_byte(block[0][1]),
            sub_byte(block[0][2]),
            sub_byte(block[0][3]),
        ],
        [
            sub_byte(block[1][0]),
            sub_byte(block[1][1]),
            sub_byte(block[1][2]),
            sub_byte(block[1][3]),
        ],
        [
            sub_byte(block[2][0]),
            sub_byte(block[2][1]),
            sub_byte(block[2][2]),
            sub_byte(block[2][3]),
        ],
        [
            sub_byte(block[3][0]),
            sub_byte(block[3][1]),
            sub_byte(block[3][2]),
            sub_byte(block[3][3]),
        ],
    ];
    proof {
        assert(out.deep_view() =~~= spec_sub_bytes(block.deep_view()));
    }
    out
}

fn shift_rows(block: Block) -> (out: Block)
    ensures
        out.deep_view() == spec_shift_rows(block.deep_view()),
{
    let out: Block = [
        [block[0][0], block[0][1], block[0][2], block[0][3]],
        [block[1][1], block[1][2], block[1][3], block[1][0]],
        [block[2][2], block[2][3], block[2][0], block[2][1]],
        [block[3][3], block[3][0], block[3][1], block[3][2]],
    ];
    proof {
        assert(out.deep_view() =~~= spec_shift_rows(block.deep_view()));
    }
    out
}

fn mix_column(col: [u8; 4]) -> (out: [u8; 4])
    ensures
        out@ == spec_mix_column(col@),
{
    let t0 = xtime(col[0]);
    let t1 = xtime(col[1]);
    let t2 = xtime(col[2]);
    let t3 = xtime(col[3]);
    let out: [u8; 4] = [
        t0 ^ t1 ^ col[1] ^ col[2] ^ col[3],
        col[0] ^ t1 ^ t2 ^ col[2] ^ col[3],
        col[0] ^ col[1] ^ t2 ^ t3 ^ col[3],
        t0 ^ col[0] ^ col[1] ^ col[2] ^ t3,
    ];
    proof {
        assert(out@ =~= spec_mix_column(col@));
    }
    out
}

fn mix_columns(block: Block) -> (out: Block)
    ensures
        out.deep_view() == spec_mix_columns(block.deep_view()),
{
    let m0 = mix_column([block[0][0], block[1][0], block[2][0], block[3][0]]);
    let m1 = mix_column([block[0][1], block[1][1], block[2][1], block[3][1]]);
    let m2 = mix_column([block[0][2], block[1][2], block[2][2], block[3][2]]);
    let m3 = mix_column([block[0][3], block[1][3], block[2][3], block[3][3]]);
    let out: Block = [
        [m0[0], m1[0], m2[0], m3[0]],
        [m0[1], m1[1], m2[1], m3[1]],
        [m0[2], m1[2], m2[2], m3[2]],
        [m0[3], m1[3], m2[3], m3[3]],
    ];
    proof {
        assert forall|c: int| 0 <= c < 4 implies spec_column(block.deep_view(), c) =~= seq![
            block@[0]@[c],
            block@[1]@[c],
            block@[2]@[c],
            block@[3]@[c],
        ] by {}
        assert(out.deep_view() =~~= spec_mix_columns(block.deep_view()));
    }
    out
}

/// Exclusive-ors the round key into the state.
fn add_round_key(state: Block, round_key: Block) -> (out: Block)
    ensures
        out.deep_view() == spec_xor_block(state.deep_view(), round_key.deep_view()),
{
    let out: Block = [
        crate::utils::word_xor(state[0], round_key[0]),
        crate::utils::word_xor(state[1], round_key[1]),
        crate::utils::word_xor(state[2], round_key[2]),
        crate::utils::word_xor(state[3], round_key[3]),
    ];
    proof {
        assert(out.deep_view() =~~= spec_xor_block(state.deep_view(), round_key.deep_view()));
    }
    out
}

/// The round constant of the given round, computed by repeated GF(2^8)
/// doubling.
fn rcon(round: usize) -> (r: u8)
    requires
        1 <= round <= 10,
    ensures
        r == spec_rcon(round as int),
{
    let mut r: u8 = 1;
    let mut k: usize = 1;
    while k < round
        invariant
            1 <= k <= round <= 10,
            r == spec_rcon(k as int),
        decreases round - k,
    {
        r = xtime(r);
        k = k + 1;
    }
    r
}

/// Expands the 16-byte key into the 44 words of the AES-128 key
/// schedule.
fn key_expansion(key: Stream) -> (words: [[u8; 4]; 44])
    ensures
        forall|i: int| 0 <= i < 44 ==> #[trigger] words.deep_view()[i] == spec_key_word(key@, i),
{
    let mut words: [[u8; 4]; 44] = [[0u8; 4]; 44];
    words[0] = [key[0], key[1], key[2], key[3]];
    words[1] = [key[4], key[5], key[6], key[7]];
    words[2] = [key[8], key[9], key[10], key[11]];
    words[3] = [key[12], key[13], key[14], key[15]];
    proof {
        assert forall|i: int| 0 <= i < 4 implies #[trigger] words.deep_view()[i] == spec_key_word(
            key@,
            i,
        ) by {
            assert(words.deep_view()[i] =~= key@.subrange(4 * i, 4 * i + 4));
        }
    }
    for i in 4..44
        invariant
            forall|j: int| 0 <= j < i ==> #[trigger] words.deep_view()[j] == spec_key_word(key@, j),
    {
        let prev = words[i - 1];
        let core: [u8; 4] = if i % 4 == 0 {
            let s0 = sub_byte(prev[1]);
            let s1 = sub_byte(prev[2]);
            let s2 = sub_byte(prev[3]);
            let s3 = sub_byte(prev[0]);
            let rc = rcon(i / 4);
            [s0 ^ rc, s1, s2, s3]
        } else {
            prev
        };
        proof {
            assert(prev@ == words.deep_view()[i - 1]);
            if i % 4 == 0 {
                assert(spec_rot_word(prev@) =~= seq![prev@[1], prev@[2], prev@[3], prev@[0]]);
                assert(core@ =~= spec_key_core(prev@, i as int / 4));
            }
        }
        let w = crate::utils::word_xor(words[i - 4], core);
        let ghost pre = words;
        words[i] = w;
        proof {
            assert(w@ == xor_seq(pre.deep_view()[i - 4], core@));
            assert forall|j: int| 0 <= j < i + 1 implies #[trigger] words.deep_view()[j]
                == spec_key_word(key@, j) by {
                assert(words@ == pre@.update(i as int, w));
                if j < i {
                    assert(words.deep_view()[j] == pre@[j].deep_view());
                    assert(pre.deep_view()[j] == pre@[j].deep_view());
                } else {
                    assert(words.deep_view()[j] == w.deep_view());
                    assert(w@ =~= spec_key_word(key@, i as int));
                }
            }
        }
    }
    words
}

/// Round key `r` read out of the expanded key words.
fn round_key(words: &[[u8; 4]; 44], r: usize) -> (rk: Block)
    requires
        r <= 10,
    ensures
        rk.deep_view() == Seq::new(
            4,
            |row: int| Seq::new(4, |col: int| words.deep_view()[4 * (r as int) + col][row]),
        ),
{
    let rk: Block = [
        [words[4 * r][0], words[4 * r + 1][0], words[4 * r + 2][0], words[4 * r + 3][0]],
        [words[4 * r][1], words[4 * r + 1][1], words[4 * r + 2][1], words[4 * r + 3][1]],
        [words[4 * r][2], words[4 * r + 1][2], words[4 * r + 2][2], words[4 * r + 3][2]],
        [words[4 * r][3], words[4 * r + 1][3], words[4 * r + 2][3], words[4 * r + 3][3]],
    ];
    proof {
        assert(rk.deep_view() =~~= Seq::new(
            4,
            |row: int| Seq::new(4, |col: int| words.deep_view()[4 * (r as int) + col][row]),
        ));
    }
    rk
}

/// AES-128 encryption of one block: the initial key mixing, nine full
/// rounds, and the final round without column diffusion.
pub fn aes(block: Block, key: Stream) -> (cipher: Block)
    ensures
        cipher.deep_view() == spec_aes(block.deep_view(), key@),
{
    let words = key_expansion(key);
    let rk0 = round_key(&words, 0);
    proof {
        assert(rk0.deep_view() =~~= spec_round_key(key@, 0));
    }
    let mut state = add_round_key(block, rk0);
    for round in 1..10
        invariant
            forall|i: int| 0 <= i < 44 ==> #[trigger] words.deep_view()[i] == spec_key_word(
                key@,
                i,
            ),
            state.deep_view() == spec_aes_rounds(block.deep_view(), key@, round - 1),
    {
        let rk = round_key(&words, round);
        proof {
            assert(rk.deep_view() =~~= spec_round_key(key@, round as int));
        }
        state = add_round_key(mix_columns(shift_rows(sub_bytes(state))), rk);
    }
    let rk10 = round_key(&words, 10);
    proof {
        assert(rk10.deep_view() =~~= spec_round_key(key@, 10));
    }
    let cipher = add_round_key(shift_rows(sub_bytes(state)), rk10);
    cipher
}

} // verus!
