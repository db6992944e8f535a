//! The deterministic garbage stream: a seeded AES-128-CTR keystream.
//!
//! A generator is a pure function of its seed and of the cumulative byte
//! position consumed so far: the seed is stretched into a cipher key and IV
//! by a seed-reproducible PRNG, and the stream itself is the counter-mode
//! keystream of that key and IV.  Two independently constructed generators
//! with the same seed therefore emit byte-identical data, which is what lets
//! the read-back phase re-derive the expected device contents from the seed
//! alone.

use vstd::prelude::*;

use crate::metadata::TestError;
use aes::cipher::{KeyIvInit, StreamCipher, StreamCipherSeek};
use rand::RngCore;
use rand::SeedableRng;
use rand_chacha::ChaCha8Rng;

verus! {

/// The 32 bytes that a ChaCha8 generator seeded from `seed` yields first;
/// a pure function of the seed.
pub uninterp spec fn seed_material(seed: u64) -> Seq<u8>;

/// Byte `i` of the AES-128-CTR keystream for the given key and IV; a pure
/// function of its arguments.
pub uninterp spec fn aes_ctr_byte(key: Seq<u8>, iv: Seq<u8>, i: int) -> u8;

/// The cipher key derived from `seed`: the first half of the seed material.
pub open spec fn key_of_seed(seed: u64) -> Seq<u8> {
    seed_material(seed).subrange(0, 16)
}

/// The cipher IV derived from `seed`: the second half of the seed material.
pub open spec fn iv_of_seed(seed: u64) -> Seq<u8> {
    seed_material(seed).subrange(16, 32)
}

/// Bytes `pos .. pos + n` of the keystream of the given key and IV.
pub open spec fn stream_segment(key: Seq<u8>, iv: Seq<u8>, pos: int, n: int) -> Seq<u8> {
    Seq::new(n as nat, |j: int| aes_ctr_byte(key, iv, pos + j))
}

/// Bytes `pos .. pos + n` of the stream that `seed` determines.
pub open spec fn keystream(seed: u64, pos: int, n: int) -> Seq<u8> {
    stream_segment(key_of_seed(seed), iv_of_seed(seed), pos, n)
}

/// The largest multiple of `block` that fits in `len`: how much of a buffer
/// of length `len` a generator with that block size fills.
pub open spec fn aligned_len(len: int, block: int) -> int {
    (len / block) * block
}

/// Relies on rand_chacha's `ChaCha8Rng::seed_from_u64` and on
/// `RngCore::fill_bytes`: `seed_from_u64` is documented as a fixed,
/// value-stable mapping from the seed to the generator state, and the first
/// 32 bytes drawn from that state are a pure function of it, so key and IV
/// depend on `seed` alone.
#[verifier::external_body]
fn derive_key_iv(seed: u64) -> (r: (Vec<u8>, Vec<u8>))
    ensures
        r.0@.len() == 16,
        r.1@.len() == 16,
        r.0@ + r.1@ == seed_material(seed),
{
    let mut rng = ChaCha8Rng::seed_from_u64(seed);
    let mut key = [0u8; 16];
    let mut iv = [0u8; 16];
    rng.fill_bytes(&mut key);
    rng.fill_bytes(&mut iv);
    (key.to_vec(), iv.to_vec())
}

/// Relies on `ctr::Ctr128LE<aes::Aes128>`: `KeyIvInit::new` and
/// `StreamCipherSeek::try_seek` place the cipher at byte position `pos` of
/// the keystream determined by key and IV, and
/// `StreamCipher::try_write_keystream` writes the next `n` keystream bytes,
/// a function of (key, IV, pos) alone.  On these inputs the call always
/// succeeds: with the 128-bit little-endian counter flavor, seeking to a
/// 64-bit byte position sets the counter to `pos / 16`, far below the
/// counter's maximum, and the keystream remaining past any position reached
/// that way exceeds what `remaining_blocks` can even report, so neither the
/// seek nor the keystream write has a live failure path.  The error arm only
/// mirrors the outside signature.
#[verifier::external_body]
fn keystream_segment_bytes(key: &Vec<u8>, iv: &Vec<u8>, pos: u64, n: usize) -> (r: Result<
    Vec<u8>,
    TestError,
>)
    requires
        key@.len() == 16,
        iv@.len() == 16,
        pos + n <= u64::MAX,
    ensures
        r is Ok,
        r matches Ok(b) ==> b@.len() == n && forall|j: int|
            0 <= j < n ==> b@[j] == aes_ctr_byte(key@, iv@, pos + j),
{
    let key: [u8; 16] = key.as_slice().try_into().map_err(|_| TestError::CipherFault)?;
    let iv: [u8; 16] = iv.as_slice().try_into().map_err(|_| TestError::CipherFault)?;
    let mut cipher = ctr::Ctr128LE::<aes::Aes128>::new(&key.into(), &iv.into());
    cipher.try_seek(pos).map_err(|_| TestError::CipherFault)?;
    let mut out = vec![0u8; n];
    cipher.try_write_keystream(&mut out).map_err(|_| TestError::CipherFault)?;
    Ok(out)
}

/// A generator for deterministically random-looking garbage data.
///
/// It emits the keystream of the key and IV derived from its seed, in whole
/// blocks of `block_size` bytes, and remembers the cumulative byte position
/// consumed so far.
pub struct GarbageGenerator {
    key: Vec<u8>,
    iv: Vec<u8>,
    pos: u64,
    block_size: usize,
}

impl GarbageGenerator {
    /// The cipher key this generator runs on.
    pub closed spec fn key_spec(self) -> Seq<u8> {
        self.key@
    }

    /// The cipher IV this generator runs on.
    pub closed spec fn iv_spec(self) -> Seq<u8> {
        self.iv@
    }

    /// The absolute byte position of the stream: how many bytes have been
    /// emitted since construction.
    pub closed spec fn pos_spec(self) -> int {
        self.pos as int
    }

    /// The block granularity the generator advances by.
    pub closed spec fn block_spec(self) -> int {
        self.block_size as int
    }

    /// A well-formed generator: 128-bit key and IV, non-empty blocks.
    pub closed spec fn wf(self) -> bool {
        &&& self.key@.len() == 16
        &&& self.iv@.len() == 16
        &&& self.block_size > 0
    }

    /// What the machine representation guarantees of any generator: the
    /// position is a 64-bit count, the block size fits a machine word, and
    /// a well-formed generator has a non-empty block.
    pub proof fn lemma_bounds(self)
        ensures
            0 <= self.pos_spec() <= u64::MAX,
            0 <= self.block_spec() <= usize::MAX,
            self.wf() ==> 1 <= self.block_spec(),
    {
    }

    /// The generator runs on the key and IV that `seed` determines, so its
    /// output is the stream of that seed.
    pub open spec fn seeded(self, seed: u64) -> bool {
        self.key_spec() == key_of_seed(seed) && self.iv_spec() == iv_of_seed(seed)
    }

    /// The block granularity, as handed to the constructor.
    pub fn block_size(&self) -> (r: usize)
        ensures
            r == self.block_spec(),
            self.wf() ==> r >= 1,
    {
        self.block_size
    }

    /// The absolute byte position of the stream so far.
    pub fn position(&self) -> (r: u64)
        ensures
            r == self.pos_spec(),
    {
        self.pos
    }

    /// Generate a new garbage generator for a block size from a random seed.
    pub fn new(block_size: usize, seed: u64) -> (r: Self)
        requires
            block_size > 0,
        ensures
            r.wf(),
            r.seeded(seed),
            r.pos_spec() == 0,
            r.block_spec() == block_size,
    {
        let (key, iv) = derive_key_iv(seed);
        proof {
            assert(key@ =~= seed_material(seed).subrange(0, 16));
            assert(iv@ =~= seed_material(seed).subrange(16, 32));
        }
        GarbageGenerator { key, iv, pos: 0, block_size }
    }

    /// Fills `buf` with the next bytes of the stream, covering the largest
    /// multiple of the generator's block size and leaving a shorter trailing
    /// remainder untouched; returns how many bytes were written.  On a
    /// well-formed generator the fill always succeeds: the `Result` mirrors
    /// the interface's fault class, which the cipher cannot produce here.
    pub fn fill_buffer(&mut self, buf: &mut Vec<u8>) -> (r: Result<usize, TestError>)
        requires
            old(self).wf(),
            old(self).pos_spec() + old(buf).len() <= u64::MAX,
        ensures
            r is Ok,
            final(self).wf(),
            final(self).key_spec() == old(self).key_spec(),
            final(self).iv_spec() == old(self).iv_spec(),
            final(self).block_spec() == old(self).block_spec(),
            final(buf).len() == old(buf).len(),
            r matches Ok(done) ==> {
                &&& done == aligned_len(old(buf).len() as int, old(self).block_spec())
                &&& old(buf).len() as int % old(self).block_spec() == 0 ==> done == old(
                    buf,
                ).len()
                &&& final(self).pos_spec() == old(self).pos_spec() + done
                &&& final(buf)@ == stream_segment(
                    old(self).key_spec(),
                    old(self).iv_spec(),
                    old(self).pos_spec(),
                    done as int,
                ) + old(buf)@.skip(done as int)
            },
    {
        let ghost key = self.key@;
        let ghost iv = self.iv@;
        let ghost pos0 = self.pos as int;
        let block = self.block_size;
        let mut off: usize = 0;
        while block <= buf.len() - off
            invariant
                key == old(self).key@,
                iv == old(self).iv@,
                pos0 == old(self).pos as int,
                block == old(self).block_size,
                self.key@ == key,
                self.iv@ == iv,
                self.key@.len() == 16,
                self.iv@.len() == 16,
                self.block_size == block,
                0 < block,
                off <= buf.len(),
                off % block == 0,
                buf.len() == old(buf).len(),
                pos0 + old(buf).len() <= u64::MAX,
                self.pos as int == pos0 + off,
                buf@ == stream_segment(key, iv, pos0, off as int) + old(buf)@.skip(off as int),
            decreases buf.len() - off,
        {
            let chunk = match keystream_segment_bytes(&self.key, &self.iv, self.pos, block) {
                Ok(chunk) => chunk,
                Err(e) => {
                    return Err(e);
                },
            };
            let ghost pre = buf@;
            copy_into(buf, off, &chunk);
            proof {
                assert(chunk@ =~= stream_segment(key, iv, pos0 + off as int, block as int));
                assert(pre.take(off as int) =~= stream_segment(key, iv, pos0, off as int));
                assert(pre.skip(off as int + block as int) =~= old(buf)@.skip(
                    off as int + block as int,
                ));
                assert(buf@ =~= stream_segment(key, iv, pos0, off as int + block as int) + old(
                    buf,
                )@.skip(off as int + block as int));
            }
            proof {
                vstd::arithmetic::div_mod::lemma_mod_add_multiples_vanish(off as int, block as int);
            }
            self.pos = self.pos + block as u64;
            off = off + block;
        }
        proof {
            lemma_aligned_from_remainder(buf.len() as int, block as int, off as int);
        }
        Ok(off)
    }
}

/// Copies `chunk` into `buf` starting at `off`, leaving the rest unchanged.
fn copy_into(buf: &mut Vec<u8>, off: usize, chunk: &Vec<u8>)
    requires
        off + chunk.len() <= old(buf).len(),
    ensures
        final(buf).len() == old(buf).len(),
        final(buf)@ == old(buf)@.take(off as int) + chunk@ + old(buf)@.skip(
            off as int + chunk.len() as int,
        ),
{
    let mut j: usize = 0;
    while j < chunk.len()
        invariant
            j <= chunk.len(),
            off + chunk.len() <= old(buf).len(),
            buf.len() == old(buf).len(),
            buf@ == old(buf)@.take(off as int) + chunk@.take(j as int) + old(buf)@.skip(
                off as int + j as int,
            ),
        decreases chunk.len() - j,
    {
        let ghost pre = buf@;
        buf.set(off + j, chunk[j]);
        proof {
            assert(buf@ =~= old(buf)@.take(off as int) + chunk@.take(j as int + 1) + old(
                buf,
            )@.skip(off as int + j as int + 1));
        }
        j = j + 1;
    }
    proof {
        assert(buf@ =~= old(buf)@.take(off as int) + chunk@ + old(buf)@.skip(
            off as int + chunk.len() as int,
        ));
    }
}

/// The total number of bytes a sequence of fill lengths asks for.
pub open spec fn total_len(lens: Seq<int>) -> int
    decreases lens.len(),
{
    if lens.len() == 0 {
        0
    } else {
        lens[0] + total_len(lens.skip(1))
    }
}

/// The bytes a generator emits over a sequence of `fill_buffer` calls with
/// the given buffer lengths, starting at stream position `pos`: each call
/// contributes the aligned part of its buffer and advances the position by
/// exactly that much.
pub open spec fn fills_output(
    key: Seq<u8>,
    iv: Seq<u8>,
    pos: int,
    block: int,
    lens: Seq<int>,
) -> Seq<u8>
    decreases lens.len(),
{
    if lens.len() == 0 {
        Seq::empty()
    } else {
        stream_segment(key, iv, pos, aligned_len(lens[0], block)) + fills_output(
            key,
            iv,
            pos + aligned_len(lens[0], block),
            block,
            lens.skip(1),
        )
    }
}

/// A sequence of non-negative lengths has a non-negative total.
proof fn lemma_total_len_nonneg(lens: Seq<int>)
    requires
        forall|i: int| 0 <= i < lens.len() ==> lens[i] >= 0,
    ensures
        total_len(lens) >= 0,
    decreases lens.len(),
{
    if lens.len() > 0 {
        assert(forall|i: int|
            0 <= i < lens.skip(1).len() ==> #[trigger] lens.skip(1)[i] == lens[i + 1]);
        lemma_total_len_nonneg(lens.skip(1));
    }
}

/// When every fill length is a whole multiple of the block size, the bytes
/// emitted over the calls are exactly the contiguous keystream from the
/// starting position, independent of how the total is cut into buffers.
proof fn lemma_aligned_fills_contiguous(
    key: Seq<u8>,
    iv: Seq<u8>,
    pos: int,
    block: int,
    lens: Seq<int>,
)
    requires
        block > 0,
        forall|i: int| 0 <= i < lens.len() ==> lens[i] >= 0 && #[trigger] lens[i] % block == 0,
    ensures
        fills_output(key, iv, pos, block, lens) == stream_segment(key, iv, pos, total_len(lens)),
    decreases lens.len(),
{
    if lens.len() == 0 {
        assert(fills_output(key, iv, pos, block, lens) =~= stream_segment(key, iv, pos, 0));
    } else {
        let head = lens[0];
        vstd::arithmetic::div_mod::lemma_fundamental_div_mod(head, block);
        assert(block * (head / block) == (head / block) * block) by (nonlinear_arith);
        assert(aligned_len(head, block) == head);
        assert(forall|i: int|
            0 <= i < lens.skip(1).len() ==> #[trigger] lens.skip(1)[i] == lens[i + 1]);
        lemma_aligned_fills_contiguous(key, iv, pos + head, block, lens.skip(1));
        lemma_total_len_nonneg(lens.skip(1));
        assert(stream_segment(key, iv, pos, head) + stream_segment(
            key,
            iv,
            pos + head,
            total_len(lens.skip(1)),
        ) =~= stream_segment(key, iv, pos, total_len(lens)));
    }
}

/// Law (determinism): two independently constructed generators with the
/// same seed emit byte-identical output over the same number of bytes,
/// provided each is consumed in whole multiples of its block size — however
/// the two cut that total into buffers.
pub proof fn lemma_stream_determinism(
    seed: u64,
    block1: int,
    block2: int,
    lens1: Seq<int>,
    lens2: Seq<int>,
)
    requires
        block1 > 0,
        block2 > 0,
        forall|i: int| 0 <= i < lens1.len() ==> lens1[i] >= 0 && #[trigger] lens1[i] % block1 == 0,
        forall|i: int| 0 <= i < lens2.len() ==> lens2[i] >= 0 && #[trigger] lens2[i] % block2 == 0,
        total_len(lens1) == total_len(lens2),
    ensures
        fills_output(key_of_seed(seed), iv_of_seed(seed), 0, block1, lens1) == fills_output(
            key_of_seed(seed),
            iv_of_seed(seed),
            0,
            block2,
            lens2,
        ),
{
    lemma_aligned_fills_contiguous(key_of_seed(seed), iv_of_seed(seed), 0, block1, lens1);
    lemma_aligned_fills_contiguous(key_of_seed(seed), iv_of_seed(seed), 0, block2, lens2);
}

/// If `off` is a multiple of `block`, does not exceed `len`, and leaves a
/// remainder shorter than `block`, then it is the aligned length of `len`.
proof fn lemma_aligned_from_remainder(len: int, block: int, off: int)
    requires
        0 < block,
        0 <= off <= len,
        off % block == 0,
        len - off < block,
    ensures
        off == aligned_len(len, block),
        len % block == 0 ==> off == len,
{
    let q = off / block;
    vstd::arithmetic::div_mod::lemma_fundamental_div_mod(off, block);
    assert(off == block * q);
    assert(block * q == q * block) by (nonlinear_arith);
    vstd::arithmetic::div_mod::lemma_fundamental_div_mod_converse(len, block, q, len - off);
    assert((len / block) * block == q * block);
}

} // verus!
