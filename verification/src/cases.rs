//! Self-checking test cases: fixed known-answer vectors for the AES
//! block transform and for AES-GCM, each able to judge whether the
//! engine reproduces its expected output.

use vstd::prelude::*;
use crate::aes::{aes, spec_aes};
use crate::aes_gcm::{aes_gcm, spec_aes_gcm_ciphertext};
use crate::utils::{Block, Stream, zero_stream};

verus! {

/// The FIPS-197 example state: the stream
/// 3243f6a8885a308d313198a2e0370734 in the column-major block layout.
pub open spec fn aes_case_block() -> Seq<Seq<u8>> {
    seq![
        seq![0x32u8, 0x88u8, 0x31u8, 0xe0u8],
        seq![0x43u8, 0x5au8, 0x31u8, 0x37u8],
        seq![0xf6u8, 0x30u8, 0x98u8, 0x07u8],
        seq![0xa8u8, 0x8du8, 0xa2u8, 0x34u8],
    ]
}

/// The FIPS-197 example key 2b7e151628aed2a6abf7158809cf4f3c.
pub open spec fn aes_case_key() -> Seq<u8> {
    seq![
        0x2bu8,
        0x7eu8,
        0x15u8,
        0x16u8,
        0x28u8,
        0xaeu8,
        0xd2u8,
        0xa6u8,
        0xabu8,
        0xf7u8,
        0x15u8,
        0x88u8,
        0x09u8,
        0xcfu8,
        0x4fu8,
        0x3cu8,
    ]
}

/// The FIPS-197 example ciphertext 3925841d02dc09fbdc118597196a0b32 in
/// the column-major block layout.
pub open spec fn aes_case_cipher() -> Seq<Seq<u8>> {
    seq![
        seq![0x39u8, 0x02u8, 0xdcu8, 0x19u8],
        seq![0x25u8, 0xdcu8, 0x11u8, 0x6au8],
        seq![0x84u8, 0x09u8, 0x85u8, 0x0bu8],
        seq![0x1du8, 0xfbu8, 0x97u8, 0x32u8],
    ]
}

/// The 12-byte all-zero IV.
pub open spec fn zero_iv() -> Seq<u8> {
    Seq::new(12, |i: int| 0u8)
}

/// The expected AES-GCM ciphertext for the all-zero key, plaintext, IV
/// and associated data: 0388dace60b6a392f328c2b971b2fe78.
pub open spec fn gcm_case_output() -> Seq<u8> {
    seq![
        0x03u8,
        0x88u8,
        0xdau8,
        0xceu8,
        0x60u8,
        0xb6u8,
        0xa3u8,
        0x92u8,
        0xf3u8,
        0x28u8,
        0xc2u8,
        0xb9u8,
        0x71u8,
        0xb2u8,
        0xfeu8,
        0x78u8,
    ]
}

/// Compares two 16-byte streams for byte equality.
pub fn stream_eq(a: &Stream, b: &Stream) -> (r: bool)
    ensures
        r == (a@ == b@),
{
    let r = a[0] == b[0] && a[1] == b[1] && a[2] == b[2] && a[3] == b[3] && a[4] == b[4] && a[5]
        == b[5] && a[6] == b[6] && a[7] == b[7] && a[8] == b[8] && a[9] == b[9] && a[10] == b[10]
        && a[11] == b[11] && a[12] == b[12] && a[13] == b[13] && a[14] == b[14] && a[15] == b[15];
    proof {
        if r {
            assert(a@ =~= b@);
        }
    }
    r
}

/// Compares two state blocks for byte equality.
pub fn block_eq(a: &Block, b: &Block) -> (r: bool)
    ensures
        r == (a.deep_view() == b.deep_view()),
{
    let r = a[0][0] == b[0][0] && a[0][1] == b[0][1] && a[0][2] == b[0][2] && a[0][3] == b[0][3]
        && a[1][0] == b[1][0] && a[1][1] == b[1][1] && a[1][2] == b[1][2] && a[1][3] == b[1][3]
        && a[2][0] == b[2][0] && a[2][1] == b[2][1] && a[2][2] == b[2][2] && a[2][3] == b[2][3]
        && a[3][0] == b[3][0] && a[3][1] == b[3][1] && a[3][2] == b[3][2] && a[3][3] == b[3][3];
    proof {
        broadcast use crate::utils::lemma_word_deep_view;

        if r {
            assert(a.deep_view() =~~= b.deep_view());
        } else {
            if a.deep_view() == b.deep_view() {
                assert forall|i: int, j: int| 0 <= i < 4 && 0 <= j < 4 implies a@[i]@[j]
                    == b@[i]@[j] by {
                    assert(a.deep_view()[i][j] == b.deep_view()[i][j]);
                }
            }
        }
    }
    r
}

/// A known-answer vector for the AES-128 block transform: a state
/// block, a key, and the ciphertext block the transform must produce.
pub struct AesTestCase {
    pub block: Block,
    pub key: Stream,
    pub cipher: Block,
}

impl AesTestCase {
    /// The FIPS-197 example vector.
    pub fn default_case() -> (r: Self)
        ensures
            r.block.deep_view() == aes_case_block(),
            r.key@ == aes_case_key(),
            r.cipher.deep_view() == aes_case_cipher(),
    {
        let block: Block = [
            [0x32, 0x88, 0x31, 0xe0],
            [0x43, 0x5a, 0x31, 0x37],
            [0xf6, 0x30, 0x98, 0x07],
            [0xa8, 0x8d, 0xa2, 0x34],
        ];
        let key: Stream = [
            0x2b,
            0x7e,
            0x15,
            0x16,
            0x28,
            0xae,
            0xd2,
            0xa6,
            0xab,
            0xf7,
            0x15,
            0x88,
            0x09,
            0xcf,
            0x4f,
            0x3c,
        ];
        let cipher: Block = [
            [0x39, 0x02, 0xdc, 0x19],
            [0x25, 0xdc, 0x11, 0x6a],
            [0x84, 0x09, 0x85, 0x0b],
            [0x1d, 0xfb, 0x97, 0x32],
        ];
        proof {
            broadcast use crate::utils::lemma_word_deep_view;

            assert(block.deep_view() =~~= aes_case_block());
            assert(key@ =~= aes_case_key());
            assert(cipher.deep_view() =~~= aes_case_cipher());
        }
        Self { block, cipher, key }
    }

    /// Whether the AES transform maps this case's block and key to its
    /// expected ciphertext.
    pub fn is_valid(&self) -> (r: bool)
        ensures
            r == (spec_aes(self.block.deep_view(), self.key@) == self.cipher.deep_view()),
    {
        let computed = aes(self.block, self.key);
        block_eq(&computed, &self.cipher)
    }
}

/// A known-answer vector for AES-GCM: key, IV, associated data and
/// plaintext together with the ciphertext block the engine must
/// produce.
pub struct AesGcmTestCase {
    pub key: Stream,
    pub iv: [u8; 12],
    pub aad: Stream,
    pub plaintext: Stream,
    pub expected_output: Stream,
}

impl AesGcmTestCase {
    /// The all-zero vector: zero key, plaintext, IV and associated
    /// data, with the published ciphertext block.
    pub fn default_case() -> (r: Self)
        ensures
            r.key@ == zero_stream(),
            r.plaintext@ == zero_stream(),
            r.iv@ == zero_iv(),
            r.aad@ == zero_stream(),
            r.expected_output@ == gcm_case_output(),
    {
        let key: Stream = [0x00u8; 16];
        let plaintext: Stream = [0x00u8; 16];
        let iv: [u8; 12] = [0x00u8; 12];
        let aad: Stream = [0x00u8; 16];
        let expected_output: Stream = [
            0x03,
            0x88,
            0xda,
            0xce,
            0x60,
            0xb6,
            0xa3,
            0x92,
            0xf3,
            0x28,
            0xc2,
            0xb9,
            0x71,
            0xb2,
            0xfe,
            0x78,
        ];
        proof {
            assert(key@ =~= zero_stream());
            assert(plaintext@ =~= zero_stream());
            assert(iv@ =~= zero_iv());
            assert(aad@ =~= zero_stream());
            assert(expected_output@ =~= gcm_case_output());
        }
        Self { key, plaintext, iv, aad, expected_output }
    }

    /// Whether AES-GCM maps this case's inputs to its expected
    /// ciphertext block.
    pub fn is_valid(&self) -> (r: bool)
        ensures
            r == (spec_aes_gcm_ciphertext(self.key@, self.plaintext@, self.iv@)
                == self.expected_output@),
    {
        let (ciphertext, _tag) = aes_gcm(self.key, self.plaintext, self.iv, self.aad);
        stream_eq(&ciphertext, &self.expected_output)
    }
}

/// A named, serialized test case: a label and the encoded bytes of the
/// case it carries.
pub struct TestCase(pub String, pub Vec<u8>);

} // verus!
