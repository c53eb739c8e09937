//! A blake2b hash suite: the pluggable hash backend, commitment hashing
//! over field-element and extension-field-element vectors, and the
//! Fiat-Shamir transcript random-number generator built on the same
//! backend.

use core::marker::PhantomData;
use vstd::prelude::*;

use crate::digest::Digest;
use crate::digest::digest_wf;
use crate::field::Fp;
use crate::field::FpExt;
use crate::field::P;
use crate::field::subelems_of;

verus! {

/// The 32-byte blake2b digest of a byte string, named abstractly: the
/// outside hash is a pure function of the input bytes alone.
pub uninterp spec fn blake2b_of(data: Seq<u8>) -> Seq<u8>;

/// Relies on blake2's `Blake2b256` (blake2b with digest length 32): a
/// pure function of the input bytes, producing exactly 32 bytes.
#[verifier::external_body]
fn blake2b_bytes(data: &[u8]) -> (r: Vec<u8>)
    ensures
        r@ == blake2b_of(data@),
        r@.len() == 32,
{
    let mut h = <blake2::Blake2b256 as blake2::Digest>::new();
    blake2::Digest::update(&mut h, data);
    let out = blake2::Digest::finalize(h);
    out.as_slice().to_vec()
}

/// Hash function capability: produce the 32-byte blake2b digest of a
/// byte string.  Implementations differ in where the computation runs,
/// never in the function computed.
pub trait Blake2bHasher {
    /// The blake2b digest of `data`.
    fn blake2b(data: &[u8]) -> (r: Vec<u8>)
        ensures
            r@ == blake2b_of(data@),
            r@.len() == 32,
    ;
}

/// Implementation of blake2b using the CPU.
pub struct Blake2bImplCpu;

impl Blake2bHasher for Blake2bImplCpu {
    fn blake2b(data: &[u8]) -> (r: Vec<u8>) {
        blake2b_bytes(data)
    }
}

/// A hash suite ties together the commitment hashing and the transcript
/// rng built over one backend.
pub trait HashSuite {
    /// The commitment hashing half of the suite.
    type Hash;

    /// The transcript rng half of the suite.
    type Rng;
}

/// Blake2b hash suite, generic over the hasher implementation.
pub struct HashSuiteBlake2b<T: Blake2bHasher> {
    hasher: PhantomData<T>,
}

impl<T: Blake2bHasher> HashSuite for HashSuiteBlake2b<T> {
    type Hash = ConfigHashBlake2b<T>;

    type Rng = Blake2bRng<T>;
}

/// Blake2b hash suite using the CPU.
pub type HashSuiteBlake2bCpu = HashSuiteBlake2b<Blake2bImplCpu>;

/// The big-endian byte encoding of one 32-bit word.
pub open spec fn word_be_bytes(w: u32) -> Seq<u8> {
    seq![
        (w / 0x1000000) as u8,
        ((w / 0x10000) % 0x100) as u8,
        ((w / 0x100) % 0x100) as u8,
        (w % 0x100) as u8,
    ]
}

/// The canonical byte encoding of a vector of field elements: each
/// element's word in big-endian bytes, concatenated in sequence order.
pub open spec fn encode_elems(es: Seq<Fp>) -> Seq<u8>
    decreases es.len(),
{
    if es.len() == 0 {
        Seq::empty()
    } else {
        encode_elems(es.drop_last()) + word_be_bytes(es.last().v)
    }
}

/// The byte encoding of one extension element: its four sub-elements in
/// sub-element order.
pub open spec fn ext_elem_bytes(x: FpExt) -> Seq<u8> {
    word_be_bytes(x.e0.v) + word_be_bytes(x.e1.v) + word_be_bytes(x.e2.v) + word_be_bytes(x.e3.v)
}

/// The byte encoding of a vector of extension elements, concatenated in
/// sequence order.
pub open spec fn encode_ext_elems(xs: Seq<FpExt>) -> Seq<u8>
    decreases xs.len(),
{
    if xs.len() == 0 {
        Seq::empty()
    } else {
        encode_ext_elems(xs.drop_last()) + ext_elem_bytes(xs.last())
    }
}

/// A vector of extension elements flattened to its base-field
/// sub-elements, order preserved.
pub open spec fn flatten_ext(xs: Seq<FpExt>) -> Seq<Fp>
    decreases xs.len(),
{
    if xs.len() == 0 {
        Seq::empty()
    } else {
        flatten_ext(xs.drop_last()) + subelems_of(xs.last())
    }
}

/// Append the big-endian bytes of one word to a byte buffer.
fn push_word_be(data: &mut Vec<u8>, w: u32)
    ensures
        final(data)@ == old(data)@ + word_be_bytes(w),
{
    data.push((w / 0x1000000) as u8);
    data.push(((w / 0x10000) % 0x100) as u8);
    data.push(((w / 0x100) % 0x100) as u8);
    data.push((w % 0x100) as u8);
    proof {
        assert(data@ =~= old(data)@ + word_be_bytes(w));
    }
}

/// Blake2b commitment hashing, generic over the hasher implementation.
pub struct ConfigHashBlake2b<T: Blake2bHasher> {
    hasher: PhantomData<T>,
}

impl<T: Blake2bHasher> ConfigHashBlake2b<T> {
    /// The tree-node function: hash the byte concatenation of `a` then
    /// `b`.  Order-sensitive by construction.
    pub fn hash_pair(a: &Digest, b: &Digest) -> (r: Digest)
        requires
            digest_wf(*a),
            digest_wf(*b),
        ensures
            digest_wf(r),
            r.bytes@ == blake2b_of(a.bytes@ + b.bytes@),
    {
        let mut data: Vec<u8> = Vec::new();
        data.extend_from_slice(a.bytes.as_slice());
        data.extend_from_slice(b.bytes.as_slice());
        proof {
            assert(data@ =~= a.bytes@ + b.bytes@);
        }
        Digest::from_bytes(T::blake2b(data.as_slice()))
    }

    /// Hash a vector of field elements: canonical big-endian word
    /// encoding, concatenated in sequence order, then hashed.
    pub fn hash_elem_slice(slice: &[Fp]) -> (r: Digest)
        ensures
            digest_wf(r),
            r.bytes@ == blake2b_of(encode_elems(slice@)),
    {
        let mut data: Vec<u8> = Vec::new();
        let mut i: usize = 0;
        while i < slice.len()
            invariant
                i <= slice@.len(),
                data@ == encode_elems(slice@.subrange(0, i as int)),
            decreases slice@.len() - i,
        {
            push_word_be(&mut data, slice[i].v);
            proof {
                let pre = slice@.subrange(0, i as int);
                let post = slice@.subrange(0, i + 1 as int);
                assert(post.drop_last() =~= pre);
                assert(post.last() == slice@[i as int]);
            }
            i += 1;
        }
        proof {
            assert(slice@.subrange(0, slice@.len() as int) =~= slice@);
        }
        Digest::from_bytes(T::blake2b(data.as_slice()))
    }

    /// Hash a vector of extension elements: each flattened to its four
    /// sub-elements in order, then encoded and hashed exactly as a
    /// vector of field elements.
    pub fn hash_ext_elem_slice(slice: &[FpExt]) -> (r: Digest)
        ensures
            digest_wf(r),
            r.bytes@ == blake2b_of(encode_ext_elems(slice@)),
    {
        let mut data: Vec<u8> = Vec::new();
        let mut i: usize = 0;
        while i < slice.len()
            invariant
                i <= slice@.len(),
                data@ == encode_ext_elems(slice@.subrange(0, i as int)),
            decreases slice@.len() - i,
        {
            let ghost before = data@;
            let x = slice[i];
            push_word_be(&mut data, x.e0.v);
            push_word_be(&mut data, x.e1.v);
            push_word_be(&mut data, x.e2.v);
            push_word_be(&mut data, x.e3.v);
            proof {
                let pre = slice@.subrange(0, i as int);
                let post = slice@.subrange(0, i + 1 as int);
                assert(post.drop_last() =~= pre);
                assert(post.last() == slice@[i as int]);
                assert(data@ =~= before + ext_elem_bytes(x));
            }
            i += 1;
        }
        proof {
            assert(slice@.subrange(0, slice@.len() as int) =~= slice@);
        }
        Digest::from_bytes(T::blake2b(data.as_slice()))
    }
}

/// Concatenating element vectors concatenates their encodings.
proof fn lemma_encode_elems_append(a: Seq<Fp>, b: Seq<Fp>)
    ensures
        encode_elems(a + b) == encode_elems(a) + encode_elems(b),
    decreases b.len(),
{
    if b.len() == 0 {
        assert(a + b =~= a);
        assert(encode_elems(a) + encode_elems(b) =~= encode_elems(a));
    } else {
        lemma_encode_elems_append(a, b.drop_last());
        assert((a + b).drop_last() =~= a + b.drop_last());
        assert((a + b).last() == b.last());
        assert(encode_elems(a) + (encode_elems(b.drop_last()) + word_be_bytes(b.last().v)) =~= (
        encode_elems(a) + encode_elems(b.drop_last())) + word_be_bytes(b.last().v));
    }
}

/// The encoding of one extension element equals the encoding of its
/// flattened sub-elements.
proof fn lemma_encode_subelems(x: FpExt)
    ensures
        encode_elems(subelems_of(x)) == ext_elem_bytes(x),
{
    reveal_with_fuel(encode_elems, 6);
    let s = subelems_of(x);
    assert(s.last() == x.e3);
    assert(s.drop_last() =~= seq![x.e0, x.e1, x.e2]);
    assert(s.drop_last().last() == x.e2);
    assert(s.drop_last().drop_last() =~= seq![x.e0, x.e1]);
    assert(s.drop_last().drop_last().last() == x.e1);
    assert(s.drop_last().drop_last().drop_last() =~= seq![x.e0]);
    assert(seq![x.e0].last() == x.e0);
    assert(seq![x.e0].drop_last() =~= Seq::<Fp>::empty());
    assert(encode_elems(seq![x.e0]) =~= word_be_bytes(x.e0.v));
    assert(encode_elems(subelems_of(x)) =~= ext_elem_bytes(x));
}

/// Flatten equivalence: hashing a vector of extension elements is
/// hashing the flattening of that vector into base-field elements, for
/// every vector.  Stated over the byte encodings, which the two hashing
/// operations feed to the identical backend.
pub proof fn lemma_flatten_equivalence(xs: Seq<FpExt>)
    ensures
        encode_ext_elems(xs) == encode_elems(flatten_ext(xs)),
        blake2b_of(encode_ext_elems(xs)) == blake2b_of(encode_elems(flatten_ext(xs))),
    decreases xs.len(),
{
    if xs.len() == 0 {
        assert(encode_ext_elems(xs) =~= encode_elems(flatten_ext(xs)));
    } else {
        lemma_flatten_equivalence(xs.drop_last());
        lemma_encode_elems_append(flatten_ext(xs.drop_last()), subelems_of(xs.last()));
        lemma_encode_subelems(xs.last());
    }
}

/// The initial Fiat-Shamir state: the all-zero digest-sized buffer.
pub open spec fn rng_init_state() -> Seq<u8> {
    Seq::new(32, |i: int| 0u8)
}

/// The state after absorbing a digest: the hash of the old state
/// followed by the digest bytes.
pub open spec fn rng_mix_state(s: Seq<u8>, d: Seq<u8>) -> Seq<u8> {
    blake2b_of(s + d)
}

/// The state after one extraction: the hash of the old state alone.
/// Structurally distinct from absorbing, whose hash input is strictly
/// longer.
pub open spec fn rng_next_state(s: Seq<u8>) -> Seq<u8> {
    blake2b_of(s)
}

/// A 32-bit word assembled from four bytes, big-endian.
pub open spec fn word_from_be(b0: u8, b1: u8, b2: u8, b3: u8) -> u32 {
    (b0 * 0x1000000 + b1 * 0x10000 + b2 * 0x100 + b3) as u32
}

/// The word one extraction yields from state `s`: the first four bytes
/// of the advanced state, big-endian.
pub open spec fn extracted_u32(s: Seq<u8>) -> u32 {
    let n = rng_next_state(s);
    word_from_be(n[0], n[1], n[2], n[3])
}

/// The field element one extraction yields from state `s`: the
/// extracted word reduced into the field.
pub open spec fn extracted_elem(s: Seq<u8>) -> Fp {
    Fp { v: (extracted_u32(s) % P) as u32 }
}

/// Blake2b-based Fiat-Shamir random number generator.
pub struct Blake2bRng<T: Blake2bHasher> {
    /// The current Fiat-Shamir state: one digest-sized buffer, replaced
    /// entirely by every absorb and every extraction.
    pub current: Vec<u8>,
    /// Ties the rng to its hasher implementation; no runtime content.
    pub hasher: PhantomData<T>,
}

impl<T: Blake2bHasher> Blake2bRng<T> {
    /// The rng is well formed when its state buffer is digest-sized.
    pub open spec fn wf(&self) -> bool {
        self.current@.len() == 32
    }

    /// A fresh rng, in the all-zero state.
    pub fn new() -> (r: Self)
        ensures
            r.wf(),
            r.current@ == rng_init_state(),
    {
        let mut current: Vec<u8> = Vec::new();
        let mut i: usize = 0;
        while i < 32
            invariant
                i <= 32,
                current@.len() == i,
                forall|j: int| 0 <= j < i ==> current@[j] == 0u8,
            decreases 32 - i,
        {
            current.push(0u8);
            i += 1;
        }
        proof {
            assert(current@ =~= rng_init_state());
        }
        Blake2bRng { current, hasher: PhantomData }
    }

    /// Absorb a digest: replace the state with the hash of the old
    /// state followed by the digest bytes, binding future extractions
    /// to the absorbed value.
    pub fn mix(&mut self, val: &Digest)
        requires
            old(self).wf(),
            digest_wf(*val),
        ensures
            final(self).wf(),
            final(self).current@ == rng_mix_state(old(self).current@, val.bytes@),
    {
        let mut data: Vec<u8> = Vec::new();
        data.extend_from_slice(self.current.as_slice());
        data.extend_from_slice(val.bytes.as_slice());
        proof {
            assert(data@ =~= self.current@ + val.bytes@);
        }
        self.current = T::blake2b(data.as_slice());
    }

    /// Extract one pseudorandom word: advance the state by hashing it,
    /// and return the first four bytes of the new state, big-endian.
    pub fn random_u32(&mut self) -> (r: u32)
        requires
            old(self).wf(),
        ensures
            final(self).wf(),
            final(self).current@ == rng_next_state(old(self).current@),
            r == extracted_u32(old(self).current@),
    {
        let next = T::blake2b(self.current.as_slice());
        let r = (next[0] as u32) * 0x1000000 + (next[1] as u32) * 0x10000 + (next[2] as u32)
            * 0x100 + (next[3] as u32);
        self.current = next;
        r
    }

    /// Extract one pseudorandom field element: one extracted word,
    /// reduced into the field's canonical representation.
    pub fn random_elem(&mut self) -> (r: Fp)
        requires
            old(self).wf(),
        ensures
            final(self).wf(),
            final(self).current@ == rng_next_state(old(self).current@),
            r == extracted_elem(old(self).current@),
            crate::field::fp_valid(r),
    {
        let w = self.random_u32();
        Fp::new(w)
    }

    /// Extract one pseudorandom extension element: exactly four
    /// sequential field-element extractions, assembled in sub-element
    /// order.
    pub fn random_ext_elem(&mut self) -> (r: FpExt)
        requires
            old(self).wf(),
        ensures
            final(self).wf(),
            ({
                let s0 = old(self).current@;
                let s1 = rng_next_state(s0);
                let s2 = rng_next_state(s1);
                let s3 = rng_next_state(s2);
                &&& final(self).current@ == rng_next_state(s3)
                &&& r.e0 == extracted_elem(s0)
                &&& r.e1 == extracted_elem(s1)
                &&& r.e2 == extracted_elem(s2)
                &&& r.e3 == extracted_elem(s3)
            }),
            crate::field::fp_ext_valid(r),
    {
        let e0 = self.random_elem();
        let e1 = self.random_elem();
        let e2 = self.random_elem();
        let e3 = self.random_elem();
        FpExt { e0, e1, e2, e3 }
    }
}

} // verus!
