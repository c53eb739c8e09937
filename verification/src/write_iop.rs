//! The prover-side transcript: appends proof words to an owned buffer
//! and drives the Fiat-Shamir rng.  Every operation pins the new buffer
//! and rng state as a function of the old state and the arguments
//! alone, so two transcripts driven identically cannot diverge.

use vstd::prelude::*;

use crate::blake2b::Blake2bHasher;
use crate::blake2b::Blake2bRng;
use crate::blake2b::extracted_elem;
use crate::blake2b::extracted_u32;
use crate::blake2b::rng_init_state;
use crate::blake2b::rng_mix_state;
use crate::blake2b::rng_next_state;
use crate::digest::Digest;
use crate::digest::digest_wf;
use crate::field::Fp;
use crate::field::FpExt;
use crate::words::words_from_bytes;
use crate::words::words_of_bytes;

verus! {

/// The word encoding of a vector of field elements: one canonical word
/// per element, in order.
pub open spec fn elem_words(es: Seq<Fp>) -> Seq<u32> {
    es.map_values(|e: Fp| e.v)
}

/// Prover-side transcript object.
pub struct WriteIOP<T: Blake2bHasher> {
    /// The proof buffer written so far; append-only, handed to the
    /// caller by value when the proof is finished.
    pub buf: Vec<u32>,
    /// The Fiat-Shamir rng driven alongside the buffer.
    pub rng: Blake2bRng<T>,
}

impl<T: Blake2bHasher> WriteIOP<T> {
    /// The transcript is well formed when its rng is.
    pub open spec fn wf(&self) -> bool {
        self.rng.wf()
    }

    /// Create a new empty proof: empty buffer, rng in the initial
    /// all-zero state.
    pub fn new() -> (r: Self)
        ensures
            r.wf(),
            r.buf@ == Seq::<u32>::empty(),
            r.rng.current@ == rng_init_state(),
    {
        WriteIOP { buf: Vec::new(), rng: Blake2bRng::new() }
    }

    /// Write raw words.  The data is not cryptographically bound on its
    /// own; it is typically committed by a later hash that includes it.
    /// The rng is not involved.
    pub fn write_u32_slice(&mut self, words: &[u32])
        requires
            old(self).wf(),
        ensures
            final(self).wf(),
            final(self).buf@ == old(self).buf@ + words@,
            final(self).rng == old(self).rng,
    {
        self.buf.extend_from_slice(words);
        proof {
            assert(self.buf@ =~= old(self).buf@ + words@);
        }
    }

    /// Write field elements as their canonical words, in order.
    pub fn write_field_elem_slice(&mut self, elems: &[Fp])
        requires
            old(self).wf(),
        ensures
            final(self).wf(),
            final(self).buf@ == old(self).buf@ + elem_words(elems@),
            final(self).rng == old(self).rng,
    {
        let mut i: usize = 0;
        while i < elems.len()
            invariant
                i <= elems@.len(),
                self.rng == old(self).rng,
                self.buf@.len() == old(self).buf@.len() + i,
                forall|j: int| 0 <= j < old(self).buf@.len() ==> self.buf@[j] == old(self).buf@[j],
                forall|j: int|
                    0 <= j < i ==> self.buf@[old(self).buf@.len() + j] == elems@[j].v,
            decreases elems@.len() - i,
        {
            let e = *vstd::slice::slice_index_get(elems, i);
            self.buf.push(e.v);
            i += 1;
        }
        proof {
            assert(self.buf@ =~= old(self).buf@ + elem_words(elems@));
        }
    }

    /// Write plain word-aligned bytes, packed little-endian into words,
    /// with no validation on either side.
    pub fn write_pod_slice(&mut self, bytes: &[u8])
        requires
            old(self).wf(),
            bytes@.len() % 4 == 0,
        ensures
            final(self).wf(),
            final(self).buf@ == old(self).buf@ + words_of_bytes(bytes@),
            final(self).rng == old(self).rng,
    {
        let ws = words_from_bytes(bytes);
        self.buf.extend_from_slice(ws.as_slice());
        proof {
            assert(self.buf@ =~= old(self).buf@ + words_of_bytes(bytes@));
        }
    }

    /// Commit to a digest (usually over data written earlier or a tree
    /// root): absorb it into the rng, binding every later draw.
    pub fn commit(&mut self, message: &Digest)
        requires
            old(self).wf(),
            digest_wf(*message),
        ensures
            final(self).wf(),
            final(self).buf@ == old(self).buf@,
            final(self).rng.current@ == rng_mix_state(old(self).rng.current@, message.bytes@),
    {
        self.rng.mix(message);
    }

    /// Draw one pseudorandom word; the buffer is untouched.
    pub fn random_u32(&mut self) -> (r: u32)
        requires
            old(self).wf(),
        ensures
            final(self).wf(),
            final(self).buf@ == old(self).buf@,
            final(self).rng.current@ == rng_next_state(old(self).rng.current@),
            r == extracted_u32(old(self).rng.current@),
    {
        self.rng.random_u32()
    }

    /// Draw one pseudorandom field element; the buffer is untouched.
    pub fn random_elem(&mut self) -> (r: Fp)
        requires
            old(self).wf(),
        ensures
            final(self).wf(),
            final(self).buf@ == old(self).buf@,
            final(self).rng.current@ == rng_next_state(old(self).rng.current@),
            r == extracted_elem(old(self).rng.current@),
            crate::field::fp_valid(r),
    {
        self.rng.random_elem()
    }

    /// Draw one pseudorandom extension element: four sequential
    /// field-element draws; the buffer is untouched.
    pub fn random_ext_elem(&mut self) -> (r: FpExt)
        requires
            old(self).wf(),
        ensures
            final(self).wf(),
            final(self).buf@ == old(self).buf@,
            ({
                let s0 = old(self).rng.current@;
                let s1 = rng_next_state(s0);
                let s2 = rng_next_state(s1);
                let s3 = rng_next_state(s2);
                &&& final(self).rng.current@ == rng_next_state(s3)
                &&& r.e0 == extracted_elem(s0)
                &&& r.e1 == extracted_elem(s1)
                &&& r.e2 == extracted_elem(s2)
                &&& r.e3 == extracted_elem(s3)
            }),
            crate::field::fp_ext_valid(r),
    {
        self.rng.random_ext_elem()
    }
}

} // verus!
