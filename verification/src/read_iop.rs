//! The verifier-side transcript: consumes a borrowed proof buffer
//! strictly front to back while driving a Fiat-Shamir rng exactly as
//! the prover did.  Every failure is a distinct, recoverable error;
//! a malformed buffer can never panic the verifier.

use vstd::prelude::*;

use crate::blake2b::Blake2bHasher;
use crate::blake2b::Blake2bRng;
use crate::blake2b::extracted_elem;
use crate::blake2b::extracted_u32;
use crate::blake2b::rng_init_state;
use crate::blake2b::rng_mix_state;
use crate::blake2b::rng_next_state;
use crate::digest::Digest;
use crate::digest::digest_wf;
use crate::field::Fp;
use crate::field::FpExt;
use crate::field::P;
use crate::words::bytes_from_words;
use crate::words::bytes_of_words;
use crate::write_iop::elem_words;

verus! {

/// The distinct, recoverable verification failures of the transcript
/// layer.
#[derive(Clone, Copy, Debug, PartialEq, Eq, Structural)]
pub enum IopError {
    /// A read asked for more words than remain in the buffer.
    Truncated,
    /// The completeness check found unconsumed words.
    TrailingData,
    /// A decoded word is not a canonical field-element encoding.
    InvalidFieldElement,
}

/// Whether every word of `ws` is a canonical field-element encoding.
pub open spec fn words_canonical(ws: Seq<u32>) -> bool {
    forall|i: int| 0 <= i < ws.len() ==> #[trigger] ws[i] < P
}

/// Verifier-side transcript object, borrowing the proof buffer for its
/// whole lifetime.
pub struct ReadIOP<'a, T: Blake2bHasher> {
    /// The proof buffer, fixed for the reader's lifetime.
    pub buf: &'a [u32],
    /// How many words have been consumed from the front; consumed words
    /// are never re-read.
    pub pos: usize,
    /// The Fiat-Shamir rng driven in lockstep with the prover's.
    pub rng: Blake2bRng<T>,
}

impl<'a, T: Blake2bHasher> ReadIOP<'a, T> {
    /// The reader is well formed when its rng is and its position is
    /// inside the buffer.
    pub open spec fn wf(&self) -> bool {
        self.rng.wf() && self.pos <= self.buf@.len()
    }

    /// Open a reader over a proof buffer: position zero, rng in the
    /// initial all-zero state.
    pub fn new(words: &'a [u32]) -> (r: Self)
        ensures
            r.wf(),
            r.buf@ == words@,
            r.pos == 0,
            r.rng.current@ == rng_init_state(),
    {
        ReadIOP { buf: words, pos: 0, rng: Blake2bRng::new() }
    }

    /// Read the next `n` words.  Fails with `Truncated`, consuming
    /// nothing, exactly when fewer than `n` words remain.
    pub fn read_u32s(&mut self, n: usize) -> (r: Result<&'a [u32], IopError>)
        requires
            old(self).wf(),
        ensures
            final(self).wf(),
            final(self).buf@ == old(self).buf@,
            final(self).rng == old(self).rng,
            r is Ok <==> old(self).pos + n <= old(self).buf@.len(),
            r is Ok ==> final(self).pos == old(self).pos + n && r->Ok_0@ == old(self).buf@.subrange(
                old(self).pos as int,
                old(self).pos + n,
            ),
            r is Err ==> final(self).pos == old(self).pos && r->Err_0 == IopError::Truncated,
    {
        if n <= self.buf.len() - self.pos {
            let out = vstd::slice::slice_subrange(self.buf, self.pos, self.pos + n);
            self.pos = self.pos + n;
            Ok(out)
        } else {
            Err(IopError::Truncated)
        }
    }

    /// Read `n` field elements, decoding each consumed word and
    /// rejecting any word that is not a canonical encoding.  Fails with
    /// `Truncated` when fewer than `n` words remain, and with
    /// `InvalidFieldElement` when any consumed word is out of range; on
    /// failure nothing is consumed.
    pub fn read_field_elem_slice(&mut self, n: usize) -> (r: Result<Vec<Fp>, IopError>)
        requires
            old(self).wf(),
        ensures
            final(self).wf(),
            final(self).buf@ == old(self).buf@,
            final(self).rng == old(self).rng,
            r is Ok <==> old(self).pos + n <= old(self).buf@.len() && words_canonical(
                old(self).buf@.subrange(old(self).pos as int, old(self).pos + n),
            ),
            r is Ok ==> final(self).pos == old(self).pos + n && elem_words(r->Ok_0@) == old(
                self,
            ).buf@.subrange(old(self).pos as int, old(self).pos + n),
            r is Ok ==> forall|i: int|
                0 <= i < r->Ok_0@.len() ==> crate::field::fp_valid(#[trigger] r->Ok_0@[i]),
            r is Err ==> final(self).pos == old(self).pos,
            old(self).pos + n > old(self).buf@.len() ==> r is Err && r->Err_0
                == IopError::Truncated,
            old(self).pos + n <= old(self).buf@.len() && !words_canonical(
                old(self).buf@.subrange(old(self).pos as int, old(self).pos + n),
            ) ==> r is Err && r->Err_0 == IopError::InvalidFieldElement,
    {
        if n > self.buf.len() - self.pos {
            return Err(IopError::Truncated);
        }
        let ghost sub = self.buf@.subrange(self.pos as int, self.pos + n);
        let mut out: Vec<Fp> = Vec::new();
        let mut i: usize = 0;
        while i < n
            invariant
                i <= n,
                self == old(self),
                self.wf(),
                self.pos + n <= self.buf@.len(),
                sub == self.buf@.subrange(self.pos as int, self.pos + n),
                out@.len() == i,
                forall|j: int| 0 <= j < i ==> #[trigger] out@[j].v == sub[j] && sub[j] < P,
            decreases n - i,
        {
            proof {
                assert(self.buf@.len() == vstd::slice::spec_slice_len(self.buf));
            }
            let w = *vstd::slice::slice_index_get(self.buf, self.pos + i);
            proof {
                assert(w == sub[i as int]);
            }
            if w >= P {
                proof {
                    assert(!words_canonical(sub));
                }
                return Err(IopError::InvalidFieldElement);
            }
            out.push(Fp { v: w });
            i += 1;
        }
        self.pos = self.pos + n;
        proof {
            assert(elem_words(out@) =~= sub);
            assert(words_canonical(sub));
        }
        Ok(out)
    }

    /// Read `n` plain bytes (`n` word-aligned) with no validation,
    /// unpacking the consumed words little-endian.  Fails with
    /// `Truncated`, consuming nothing, exactly when fewer than `n / 4`
    /// words remain.
    pub fn read_pod_slice(&mut self, n: usize) -> (r: Result<Vec<u8>, IopError>)
        requires
            old(self).wf(),
            n % 4 == 0,
        ensures
            final(self).wf(),
            final(self).buf@ == old(self).buf@,
            final(self).rng == old(self).rng,
            r is Ok <==> old(self).pos + n / 4 <= old(self).buf@.len(),
            r is Ok ==> final(self).pos == old(self).pos + n / 4 && r->Ok_0@ == bytes_of_words(
                old(self).buf@.subrange(old(self).pos as int, old(self).pos + n / 4),
            ),
            r is Err ==> final(self).pos == old(self).pos && r->Err_0 == IopError::Truncated,
    {
        let nw = n / 4;
        match self.read_u32s(nw) {
            Ok(ws) => Ok(bytes_from_words(ws)),
            Err(e) => Err(e),
        }
    }

    /// Commit (verifier side): absorb a digest, reconstructed from data
    /// read out of the buffer, into the rng at the same point the
    /// prover did.
    pub fn commit(&mut self, digest: &Digest)
        requires
            old(self).wf(),
            digest_wf(*digest),
        ensures
            final(self).wf(),
            final(self).buf@ == old(self).buf@,
            final(self).pos == old(self).pos,
            final(self).rng.current@ == rng_mix_state(old(self).rng.current@, digest.bytes@),
    {
        self.rng.mix(digest);
    }

    /// Succeeds exactly when the whole buffer has been consumed; any
    /// leftover word is a trailing-data error, a malformed proof.
    pub fn verify_complete(&self) -> (r: Result<(), IopError>)
        requires
            self.wf(),
        ensures
            r is Ok <==> self.pos == self.buf@.len(),
            r is Err ==> r->Err_0 == IopError::TrailingData,
    {
        if self.pos == self.buf.len() {
            Ok(())
        } else {
            Err(IopError::TrailingData)
        }
    }

    /// Draw one pseudorandom word; buffer and position are untouched.
    pub fn random_u32(&mut self) -> (r: u32)
        requires
            old(self).wf(),
        ensures
            final(self).wf(),
            final(self).buf@ == old(self).buf@,
            final(self).pos == old(self).pos,
            final(self).rng.current@ == rng_next_state(old(self).rng.current@),
            r == extracted_u32(old(self).rng.current@),
    {
        self.rng.random_u32()
    }

    /// Draw one pseudorandom field element; buffer and position are
    /// untouched.
    pub fn random_elem(&mut self) -> (r: Fp)
        requires
            old(self).wf(),
        ensures
            final(self).wf(),
            final(self).buf@ == old(self).buf@,
            final(self).pos == old(self).pos,
            final(self).rng.current@ == rng_next_state(old(self).rng.current@),
            r == extracted_elem(old(self).rng.current@),
            crate::field::fp_valid(r),
    {
        self.rng.random_elem()
    }

    /// Draw one pseudorandom extension element: four sequential
    /// field-element draws; buffer and position are untouched.
    pub fn random_ext_elem(&mut self) -> (r: FpExt)
        requires
            old(self).wf(),
        ensures
            final(self).wf(),
            final(self).buf@ == old(self).buf@,
            final(self).pos == old(self).pos,
            ({
                let s0 = old(self).rng.current@;
                let s1 = rng_next_state(s0);
                let s2 = rng_next_state(s1);
                let s3 = rng_next_state(s2);
                &&& final(self).rng.current@ == rng_next_state(s3)
                &&& r.e0 == extracted_elem(s0)
                &&& r.e1 == extracted_elem(s1)
                &&& r.e2 == extracted_elem(s2)
                &&& r.e3 == extracted_elem(s3)
            }),
            crate::field::fp_ext_valid(r),
    {
        self.rng.random_ext_elem()
    }
}

} // verus!
