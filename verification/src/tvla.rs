//! A leakage-assessment target: one AES-128 encryption of a block derived
//! from a 32-bit test vector.
//!
//! The measurement tool traces the encryption between two markers that the
//! program places around [`encrypt`]; this module prepares the block and the
//! key and makes the call.

use aes::cipher::{BlockEncrypt, KeyInit};
use aes::Aes128;
use vstd::prelude::*;

verus! {

/// The AES-128 encryption of the 16-byte `block` under the 16-byte `key`.
pub uninterp spec fn aes128_encryption(key: Seq<u8>, block: Seq<u8>) -> Seq<u8>;

/// Whether `bytes` are the four bytes of `word`, most significant first.
pub open spec fn is_big_endian_of(bytes: Seq<u8>, word: u32) -> bool {
    &&& bytes.len() == 4
    &&& word == bytes[0] * 0x100_0000 + bytes[1] * 0x1_0000 + bytes[2] * 0x100 + bytes[3]
}

/// Whether `block` is the 16-byte block of the test vector `fixed_random`:
/// its big-endian bytes, four times over.
pub open spec fn is_block_of(block: Seq<u8>, fixed_random: u32) -> bool {
    &&& block.len() == 16
    &&& is_big_endian_of(block.subrange(0, 4), fixed_random)
    &&& forall|i: int| 0 <= i < 16 ==> #[trigger] block[i] == block[i % 4]
}

/// The key of the target.
pub open spec fn key_bytes() -> Seq<u8> {
    seq![
        0x01u8, 0x23, 0x45, 0x67, 0x89, 0xAB, 0xCD, 0xEF,
        0x12, 0x34, 0x56, 0x78, 0x9A, 0xBC, 0xDE, 0xF0,
    ]
}

/// `Aes128::new` followed by `encrypt_block`, of the crate `aes`: the
/// contract claims that the result is the AES-128 encryption of `block` under
/// `key`, whichever implementation the crate picks on the machine.
#[verifier::external_body]
fn aes128_encrypt_block(key: &[u8; 16], block: &[u8; 16]) -> (out: [u8; 16])
    ensures
        out@ == aes128_encryption(key@, block@),
{
    let cipher = Aes128::new(key.into());
    let mut data = (*block).into();
    cipher.encrypt_block(&mut data);
    data.into()
}

/// The four bytes of `word`, most significant first.
fn be_bytes(word: u32) -> (bytes: [u8; 4])
    ensures
        is_big_endian_of(bytes@, word),
{
    let b0 = (word >> 24) as u8;
    let b1 = ((word >> 16) & 0xff) as u8;
    let b2 = ((word >> 8) & 0xff) as u8;
    let b3 = (word & 0xff) as u8;
    assert({
        &&& (word >> 24) < 0x100
        &&& ((word >> 16) & 0xff) < 0x100
        &&& ((word >> 8) & 0xff) < 0x100
        &&& (word & 0xff) < 0x100
        &&& word == (word >> 24) * 0x100_0000 + ((word >> 16) & 0xff) * 0x1_0000
            + ((word >> 8) & 0xff) * 0x100 + (word & 0xff)
    }) by (bit_vector);
    [b0, b1, b2, b3]
}

/// The block of the test vector `fixed_random`: its big-endian bytes, four
/// times over.
pub fn block_of(fixed_random: u32) -> (block: [u8; 16])
    ensures
        is_block_of(block@, fixed_random),
{
    let b = be_bytes(fixed_random);
    let block = [
        b[0], b[1], b[2], b[3],
        b[0], b[1], b[2], b[3],
        b[0], b[1], b[2], b[3],
        b[0], b[1], b[2], b[3],
    ];
    assert(block@.subrange(0, 4) =~= b@);
    block
}

/// The key of the target.
pub fn target_key() -> (key: [u8; 16])
    ensures
        key@ == key_bytes(),
{
    let key = [
        0x01u8, 0x23, 0x45, 0x67, 0x89, 0xAB, 0xCD, 0xEF,
        0x12, 0x34, 0x56, 0x78, 0x9A, 0xBC, 0xDE, 0xF0,
    ];
    assert(key@ =~= key_bytes());
    key
}

/// Encrypts `block` under `key` with AES-128: the operation to trace.
#[inline(never)]
pub fn encrypt(key: &[u8; 16], block: &[u8; 16]) -> (out: [u8; 16])
    ensures
        out@ == aes128_encryption(key@, block@),
{
    aes128_encrypt_block(key, block)
}

/// A block has one reading as a test vector: two vectors with the same block
/// are the same vector.
pub proof fn lemma_block_determines_vector(block: Seq<u8>, first: u32, second: u32)
    requires
        is_block_of(block, first),
        is_block_of(block, second),
    ensures
        first == second,
{
}

/// A test vector has one block.
pub proof fn lemma_vector_determines_block(first: Seq<u8>, second: Seq<u8>, fixed_random: u32)
    requires
        is_block_of(first, fixed_random),
        is_block_of(second, fixed_random),
    ensures
        first == second,
{
    let a = first.subrange(0, 4);
    let b = second.subrange(0, 4);
    assert(a[0] == b[0] && a[1] == b[1] && a[2] == b[2] && a[3] == b[3]);
    assert forall|i: int| 0 <= i < 16 implies first[i] == second[i] by {
        assert(first[i] == first[i % 4] && second[i] == second[i % 4]);
        assert(first[i % 4] == a[i % 4] && second[i % 4] == b[i % 4]);
    }
    assert(first =~= second);
}

} // verus!
