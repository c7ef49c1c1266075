//! The measurement engine: three totals of elapsed time, one for each kind of
//! work of the cipher.
//!
//! A total is a sum of samples. A sample is what the clock says one call took,
//! so nothing is known of it but its range; what the engine does with a sample
//! is [`TimingAccumulator::record`], which is exact. An accumulator is viewed as
//! the samples that went into it, so that a measurement can say how many it
//! took.

use vstd::prelude::*;
use std::time::Duration;
use std::time::Instant;
use crate::cipher::decrypted;
use crate::cipher::encrypted;
use crate::cipher::Batch;
use crate::cipher::Cipher;

verus! {

/// The longest time that one sample can hold, in nanoseconds: the whole seconds
/// of a `Duration` are a `u64`, and its fraction stays below one second.
pub const MAX_SAMPLE_NANOS: u128 = 18_446_744_073_709_551_615_999_999_999;

/// A point in time of the monotonic clock, `std::time::Instant`.
#[verifier::external_type_specification]
#[verifier::external_body]
pub struct ExInstant(std::time::Instant);

/// `Instant::now` reads the clock: nothing is known of the instant it returns.
pub assume_specification[ std::time::Instant::now ]() -> (now: Instant)
;

/// `Instant::elapsed` reads the clock again: nothing is known of the time it
/// returns.
pub assume_specification[ std::time::Instant::elapsed ](start: &Instant) -> (elapsed: Duration)
;

/// `Duration::as_nanos` gives a time in nanoseconds, which is at most
/// [`MAX_SAMPLE_NANOS`].
pub assume_specification[ std::time::Duration::as_nanos ](duration: &Duration) -> (nanos: u128)
    ensures
        nanos <= MAX_SAMPLE_NANOS,
;

/// The sum of a sequence of samples.
pub open spec fn total_of(samples: Seq<u128>) -> nat
    decreases samples.len(),
{
    if samples.len() == 0 {
        0
    } else {
        total_of(samples.drop_last()) + samples.last() as nat
    }
}

/// Whether every sample is a time that the clock can give.
pub open spec fn samples_in_range(samples: Seq<u128>) -> bool {
    forall|i: int| 0 <= i < samples.len() ==> samples[i] <= MAX_SAMPLE_NANOS
}

/// Samples that the clock can give add up to no more than as many longest
/// samples.
pub proof fn lemma_total_bound(samples: Seq<u128>)
    requires
        samples_in_range(samples),
    ensures
        total_of(samples) <= samples.len() * MAX_SAMPLE_NANOS,
    decreases samples.len(),
{
    if samples.len() > 0 {
        lemma_total_bound(samples.drop_last());
    }
}

/// A running total of elapsed nanoseconds. Its view is the samples that went
/// into it, oldest first; the total is their sum.
#[derive(Clone, Copy)]
pub struct TimingAccumulator {
    nanos: u128,
    samples: Ghost<Seq<u128>>,
}

impl View for TimingAccumulator {
    type V = Seq<u128>;

    closed spec fn view(&self) -> Seq<u128> {
        self.samples@
    }
}

impl TimingAccumulator {
    /// The number held is the sum of the samples.
    #[verifier::type_invariant]
    spec fn sums_its_samples(&self) -> bool {
        self.nanos == total_of(self.samples@)
    }

    /// The total so far, in nanoseconds.
    pub open spec fn total(&self) -> nat {
        total_of(self@)
    }

    /// An accumulator without samples.
    pub fn new() -> (acc: TimingAccumulator)
        ensures
            acc@ == Seq::<u128>::empty(),
    {
        TimingAccumulator { nanos: 0, samples: Ghost(Seq::empty()) }
    }

    /// Adds one sample to the total.
    pub fn record(&mut self, elapsed: u128)
        requires
            old(self).total() + elapsed <= u128::MAX,
        ensures
            final(self)@ == old(self)@.push(elapsed),
            final(self).total() == old(self).total() + elapsed,
    {
        proof {
            use_type_invariant(&*self);
            assert(self@.push(elapsed).drop_last() =~= self@);
        }
        *self = TimingAccumulator {
            nanos: self.nanos + elapsed,
            samples: Ghost(self.samples@.push(elapsed)),
        };
    }

    /// The total so far, in nanoseconds.
    pub fn nanos(&self) -> (nanos: u128)
        ensures
            nanos == self.total(),
    {
        proof {
            use_type_invariant(self);
        }
        self.nanos
    }
}

/// The three accumulators that the engine hands over, each with its total in
/// nanoseconds. They are totals, not averages: a throughput is a total divided
/// by the number of iterations, or of blocks, that went into it.
#[derive(Clone, Copy)]
pub struct Totals {
    pub keygen: TimingAccumulator,
    pub encrypt: TimingAccumulator,
    pub decrypt: TimingAccumulator,
}

/// What the engine measures: the key, the plaintext block that every batch is
/// filled with, the number of blocks of a batch, and how often each kind of
/// work is timed.
#[derive(Clone, Copy, Debug, PartialEq, Eq)]
pub struct BenchConfig {
    pub key: [u8; 16],
    pub block: [u8; 16],
    pub batch_size: usize,
    /// Iterations of the key-setup and of the encryption measurement.
    pub iterations: u32,
    /// Iterations of the decryption measurement.
    pub decrypt_iterations: u32,
}

impl BenchConfig {
    /// The benchmark as the program runs it: a key of zeros, a block of bytes
    /// 42, batches of 100 blocks, a million iterations of key setup and
    /// encryption, 255 of decryption.
    pub fn standard() -> (config: BenchConfig)
        ensures
            config.key@ == Seq::new(16, |i: int| 0u8),
            config.block@ == Seq::new(16, |i: int| 42u8),
            config.batch_size == 100,
            config.iterations == 1_000_000,
            config.decrypt_iterations == 255,
    {
        let config = BenchConfig {
            key: [0u8; 16],
            block: [42u8; 16],
            batch_size: 100,
            iterations: 1_000_000,
            decrypt_iterations: 255,
        };
        assert(config.key@ =~= Seq::new(16, |i: int| 0u8));
        assert(config.block@ =~= Seq::new(16, |i: int| 42u8));
        config
    }
}

/// Times one key setup: derives the schedule of `key` between two readings of
/// the clock, and hands it out with the time that it took.
pub fn time_key_setup(key: &[u8; 16]) -> (timed: (u128, Cipher))
    ensures
        timed.0 <= MAX_SAMPLE_NANOS,
        timed.1.key() == key@,
{
    let start = Instant::now();
    let cipher = Cipher::new(key);
    let duration = start.elapsed();
    (duration.as_nanos(), cipher)
}

/// Times one encryption of the batch in place.
pub fn time_encrypt(cipher: &Cipher, batch: &mut Batch) -> (nanos: u128)
    ensures
        nanos <= MAX_SAMPLE_NANOS,
        final(batch)@ == encrypted(cipher.key(), old(batch)@),
        decrypted(cipher.key(), final(batch)@) == old(batch)@,
{
    let start = Instant::now();
    cipher.encrypt_batch(batch);
    let duration = start.elapsed();
    duration.as_nanos()
}

/// Times one decryption of the batch in place.
pub fn time_decrypt(cipher: &Cipher, batch: &mut Batch) -> (nanos: u128)
    ensures
        nanos <= MAX_SAMPLE_NANOS,
        final(batch)@ == decrypted(cipher.key(), old(batch)@),
{
    let start = Instant::now();
    cipher.decrypt_batch(batch);
    let duration = start.elapsed();
    duration.as_nanos()
}

/// Times one decryption of genuine ciphertext: encrypts the batch, untimed,
/// and then times the decryption of what the encryption left. The batch comes
/// back as it went in.
pub fn time_decrypt_of_ciphertext(cipher: &Cipher, batch: &mut Batch) -> (nanos: u128)
    ensures
        nanos <= MAX_SAMPLE_NANOS,
        final(batch)@ == decrypted(cipher.key(), encrypted(cipher.key(), old(batch)@)),
        final(batch)@ == old(batch)@,
{
    cipher.encrypt_batch(batch);
    time_decrypt(cipher, batch)
}

/// The total of `iterations` key setups, each from `key` and each from
/// scratch.
pub fn measure_key_setup(key: &[u8; 16], iterations: u32) -> (acc: TimingAccumulator)
    ensures
        acc@.len() == iterations,
        samples_in_range(acc@),
        acc.total() <= iterations * MAX_SAMPLE_NANOS,
{
    let mut acc = TimingAccumulator::new();
    let mut i: u32 = 0;
    while i < iterations
        invariant
            i <= iterations,
            acc@.len() == i,
            samples_in_range(acc@),
        decreases iterations - i,
    {
        proof {
            lemma_total_bound(acc@);
        }
        let (nanos, _) = time_key_setup(key);
        acc.record(nanos);
        i = i + 1;
    }
    proof {
        lemma_total_bound(acc@);
    }
    acc
}

/// The total of `iterations` encryptions, each of a fresh batch of
/// `batch_size` copies of `block`. The schedule is derived once, and no batch
/// is built, while the clock runs.
pub fn measure_encrypt(key: &[u8; 16], block: &[u8; 16], batch_size: usize, iterations: u32) -> (acc:
    TimingAccumulator)
    ensures
        acc@.len() == iterations,
        samples_in_range(acc@),
        acc.total() <= iterations * MAX_SAMPLE_NANOS,
{
    let cipher = Cipher::new(key);
    let mut acc = TimingAccumulator::new();
    let mut i: u32 = 0;
    while i < iterations
        invariant
            i <= iterations,
            acc@.len() == i,
            samples_in_range(acc@),
        decreases iterations - i,
    {
        proof {
            lemma_total_bound(acc@);
        }
        let mut batch = Batch::filled(block, batch_size);
        let nanos = time_encrypt(&cipher, &mut batch);
        acc.record(nanos);
        i = i + 1;
    }
    proof {
        lemma_total_bound(acc@);
    }
    acc
}

/// The total of `iterations` decryptions, each of the ciphertext of a fresh
/// batch of `batch_size` copies of `block`. Every decryption gives the
/// plaintext batch back.
pub fn measure_decrypt(key: &[u8; 16], block: &[u8; 16], batch_size: usize, iterations: u32) -> (acc:
    TimingAccumulator)
    ensures
        acc@.len() == iterations,
        samples_in_range(acc@),
        acc.total() <= iterations * MAX_SAMPLE_NANOS,
{
    let cipher = Cipher::new(key);
    let mut acc = TimingAccumulator::new();
    let mut i: u32 = 0;
    while i < iterations
        invariant
            i <= iterations,
            acc@.len() == i,
            samples_in_range(acc@),
        decreases iterations - i,
    {
        proof {
            lemma_total_bound(acc@);
        }
        let mut batch = Batch::filled(block, batch_size);
        let nanos = time_decrypt_of_ciphertext(&cipher, &mut batch);
        acc.record(nanos);
        i = i + 1;
    }
    proof {
        lemma_total_bound(acc@);
    }
    acc
}

/// Runs the three measurements to completion, one after the other, and hands
/// over their accumulators: each holds one sample for every iteration of its
/// measurement. No total overflows, whatever the clock says.
pub fn run(config: &BenchConfig) -> (totals: Totals)
    ensures
        totals.keygen@.len() == config.iterations,
        totals.encrypt@.len() == config.iterations,
        totals.decrypt@.len() == config.decrypt_iterations,
        samples_in_range(totals.keygen@),
        samples_in_range(totals.encrypt@),
        samples_in_range(totals.decrypt@),
        totals.keygen.total() <= config.iterations * MAX_SAMPLE_NANOS,
        totals.encrypt.total() <= config.iterations * MAX_SAMPLE_NANOS,
        totals.decrypt.total() <= config.decrypt_iterations * MAX_SAMPLE_NANOS,
{
    let keygen = measure_key_setup(&config.key, config.iterations);
    let encrypt = measure_encrypt(&config.key, &config.block, config.batch_size, config.iterations);
    let decrypt = measure_decrypt(
        &config.key,
        &config.block,
        config.batch_size,
        config.decrypt_iterations,
    );
    Totals { keygen, encrypt, decrypt }
}

} // verus!
