//! AES-128 on batches of blocks.
//!
//! The cipher itself is the `aes` crate's. This module gives its results names,
//! says of each call which named result it leaves in the batch, and builds the
//! batches that the measurements work on.

use vstd::prelude::*;
use aes::cipher::BlockDecrypt;
use aes::cipher::BlockEncrypt;
use aes::cipher::KeyInit;

verus! {

/// The width of a block in bytes.
pub const BLOCK_BYTES: usize = 16;

/// The width of a key in bytes.
pub const KEY_BYTES: usize = 16;

/// The block that AES-128 encryption under `key` makes of `block`.
pub uninterp spec fn aes128_encrypt(key: Seq<u8>, block: Seq<u8>) -> Seq<u8>;

/// The block that AES-128 decryption under `key` makes of `block`.
pub uninterp spec fn aes128_decrypt(key: Seq<u8>, block: Seq<u8>) -> Seq<u8>;

/// The key that a key schedule was derived from.
pub uninterp spec fn schedule_key(schedule: aes::Aes128) -> Seq<u8>;

/// The blocks of a batch, in order, each as its bytes.
pub uninterp spec fn batch_blocks(batch: Batch) -> Seq<Seq<u8>>;

/// The key schedule of the `aes` crate, `aes::Aes128`. Nothing is known of
/// what it holds but the key it was made from, [`schedule_key`].
#[verifier::external_type_specification]
#[verifier::external_body]
pub struct ExAes128(aes::Aes128);

/// A batch of blocks, held in the form that the `aes` crate works on in
/// place: a `Vec` of `aes::Block`, the crate's sixteen-byte array. Its blocks
/// are [`batch_blocks`].
#[verifier::external_body]
pub struct Batch {
    blocks: Vec<aes::Block>,
}

/// `Vec::new` for the blocks of a batch: a batch without blocks.
#[verifier::external_body]
fn batch_empty() -> (batch: Batch)
    ensures
        batch_blocks(batch) == Seq::<Seq<u8>>::empty(),
{
    Batch { blocks: Vec::new() }
}

/// `aes::Block::from` and `Vec::push`: the batch gets one more block at its end,
/// which holds the bytes given.
#[verifier::external_body]
fn batch_push(batch: &mut Batch, block: &[u8; 16])
    ensures
        batch_blocks(*final(batch)) == batch_blocks(*old(batch)).push(block@),
{
    batch.blocks.push(aes::Block::from(*block))
}

/// `Vec::len` of the blocks of a batch.
#[verifier::external_body]
fn batch_len(batch: &Batch) -> (len: usize)
    ensures
        len == batch_blocks(*batch).len(),
{
    batch.blocks.len()
}

/// `Into<[u8; 16]>` of `aes::Block`: the bytes of the block at index `i`.
#[verifier::external_body]
fn batch_get(batch: &Batch, i: usize) -> (bytes: [u8; 16])
    requires
        i < batch_blocks(*batch).len(),
    ensures
        bytes@ == batch_blocks(*batch)[i as int],
{
    batch.blocks[i].into()
}

/// `aes::Aes128::new`, of the trait `KeyInit`: the key schedule of `key`.
#[verifier::external_body]
fn key_schedule(key: &[u8; 16]) -> (schedule: aes::Aes128)
    ensures
        schedule_key(schedule) == key@,
{
    aes::Aes128::new(&aes::Block::from(*key))
}

/// `encrypt_blocks` of `aes::Aes128`, of the trait `BlockEncrypt`: every block
/// of the batch is replaced by its encryption under the key of the schedule.
/// The crate documents decryption as the inverse: decrypting what this call
/// leaves gives the blocks back that it found.
#[verifier::external_body]
fn encrypt_blocks(schedule: &aes::Aes128, batch: &mut Batch)
    ensures
        batch_blocks(*final(batch)).len() == batch_blocks(*old(batch)).len(),
        forall|i: int|
            0 <= i < batch_blocks(*old(batch)).len() ==> #[trigger] batch_blocks(*final(batch))[i]
                == aes128_encrypt(schedule_key(*schedule), batch_blocks(*old(batch))[i]),
        forall|i: int|
            0 <= i < batch_blocks(*old(batch)).len() ==> aes128_decrypt(
                schedule_key(*schedule),
                #[trigger] batch_blocks(*final(batch))[i],
            ) == batch_blocks(*old(batch))[i],
{
    schedule.encrypt_blocks(&mut batch.blocks)
}

/// `decrypt_blocks` of `aes::Aes128`, of the trait `BlockDecrypt`: every block
/// of the batch is replaced by its decryption under the key of the schedule.
#[verifier::external_body]
fn decrypt_blocks(schedule: &aes::Aes128, batch: &mut Batch)
    ensures
        batch_blocks(*final(batch)).len() == batch_blocks(*old(batch)).len(),
        forall|i: int|
            0 <= i < batch_blocks(*old(batch)).len() ==> #[trigger] batch_blocks(*final(batch))[i]
                == aes128_decrypt(schedule_key(*schedule), batch_blocks(*old(batch))[i]),
{
    schedule.decrypt_blocks(&mut batch.blocks)
}

/// Every block of `blocks` encrypted under `key`.
pub open spec fn encrypted(key: Seq<u8>, blocks: Seq<Seq<u8>>) -> Seq<Seq<u8>> {
    blocks.map_values(|block: Seq<u8>| aes128_encrypt(key, block))
}

/// Every block of `blocks` decrypted under `key`.
pub open spec fn decrypted(key: Seq<u8>, blocks: Seq<Seq<u8>>) -> Seq<Seq<u8>> {
    blocks.map_values(|block: Seq<u8>| aes128_decrypt(key, block))
}

/// `count` blocks, each with the bytes of `block`.
pub open spec fn uniform_blocks(block: Seq<u8>, count: nat) -> Seq<Seq<u8>> {
    Seq::new(count, |i: int| block)
}

impl View for Batch {
    type V = Seq<Seq<u8>>;

    open spec fn view(&self) -> Seq<Seq<u8>> {
        batch_blocks(*self)
    }
}

impl Batch {
    /// A batch of `count` blocks, each a copy of `block`.
    pub fn filled(block: &[u8; 16], count: usize) -> (batch: Batch)
        ensures
            batch@ == uniform_blocks(block@, count as nat),
    {
        let mut batch = batch_empty();
        let mut i: usize = 0;
        while i < count
            invariant
                i <= count,
                batch@ == uniform_blocks(block@, i as nat),
            decreases count - i,
        {
            batch_push(&mut batch, block);
            i = i + 1;
            assert(batch@ =~= uniform_blocks(block@, i as nat));
        }
        batch
    }

    /// The number of blocks.
    pub fn len(&self) -> (len: usize)
        ensures
            len == self@.len(),
    {
        batch_len(self)
    }

    /// The blocks of the batch, in order, each as its sixteen bytes.
    pub fn to_bytes(&self) -> (blocks: Vec<[u8; 16]>)
        ensures
            blocks@.len() == self@.len(),
            forall|i: int| 0 <= i < blocks@.len() ==> (#[trigger] blocks@[i])@ == self@[i],
    {
        let len = batch_len(self);
        let mut blocks: Vec<[u8; 16]> = Vec::new();
        let mut i: usize = 0;
        while i < len
            invariant
                i <= len,
                len == self@.len(),
                blocks@.len() == i,
                forall|j: int| 0 <= j < i ==> (#[trigger] blocks@[j])@ == self@[j],
            decreases len - i,
        {
            blocks.push(batch_get(self, i));
            i = i + 1;
        }
        blocks
    }
}

/// An AES-128 cipher with its key schedule derived.
pub struct Cipher {
    schedule: aes::Aes128,
}

impl Cipher {
    /// The key of the cipher.
    pub closed spec fn key(&self) -> Seq<u8> {
        schedule_key(self.schedule)
    }

    /// Derives the key schedule of `key`.
    pub fn new(key: &[u8; 16]) -> (cipher: Cipher)
        ensures
            cipher.key() == key@,
    {
        Cipher { schedule: key_schedule(key) }
    }

    /// Encrypts the batch in place, block by block. What it leaves is genuine
    /// ciphertext: decrypted under the same key, it is the batch as it was.
    pub fn encrypt_batch(&self, batch: &mut Batch)
        ensures
            final(batch)@ == encrypted(self.key(), old(batch)@),
            decrypted(self.key(), final(batch)@) == old(batch)@,
    {
        encrypt_blocks(&self.schedule, batch);
        assert(batch@ =~= encrypted(self.key(), old(batch)@));
        assert(decrypted(self.key(), batch@) =~= old(batch)@);
    }

    /// Decrypts the batch in place, block by block.
    pub fn decrypt_batch(&self, batch: &mut Batch)
        ensures
            final(batch)@ == decrypted(self.key(), old(batch)@),
    {
        decrypt_blocks(&self.schedule, batch);
        assert(batch@ =~= decrypted(self.key(), old(batch)@));
    }
}

} // verus!
