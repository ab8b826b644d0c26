//! AES-128 and AES-GCM over 128-bit blocks, built from first principles.
//!
//! The crate provides the AES-128 block transform, the GF(2^128)
//! polynomial hash (GHASH), counter-mode keystream application (GCTR),
//! and their composition into AES-GCM authenticated encryption of a
//! single 128-bit block. Every function is a pure, total transform over
//! fixed-size byte buffers, specified against a mathematical model of
//! the algorithms.

pub mod aes;
pub mod aes_gcm;
pub mod cases;
pub mod gctr;
pub mod ghash;
pub mod utils;

pub use aes::aes;
pub use aes_gcm::aes_gcm;
pub use gctr::gctr;
pub use ghash::ghash;
pub use cases::{AesGcmTestCase, AesTestCase, TestCase};
pub use utils::{Block, Stream};
