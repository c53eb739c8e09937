//! The mirrored transcript protocol, as a mathematical model: one
//! operation vocabulary shared by the prover's write side and the
//! verifier's read side, and the laws that make the mirroring sound.
//!
//! The write-side and read-side objects each pin every operation's
//! effect, in their own contracts, to exactly the step functions below
//! (`op_words` for the buffer, `op_rng` for the Fiat-Shamir state).
//! The laws then say: replaying the operation shapes of any write run
//! against the buffer it produced succeeds at every step, hands back
//! exactly the written values, keeps the two rngs in lockstep, and
//! consumes the buffer exactly, so the final completeness check
//! succeeds.

use vstd::prelude::*;

use crate::blake2b::rng_init_state;
use crate::blake2b::rng_mix_state;
use crate::blake2b::rng_next_state;
use crate::field::Fp;
use crate::field::P;
use crate::field::fp_valid;
use crate::read_iop::words_canonical;
use crate::words::bytes_of_words;
use crate::words::lemma_bytes_words_roundtrip;
use crate::words::words_of_bytes;
use crate::write_iop::elem_words;

verus! {

/// One transcript operation, in the shape shared by both sides.
pub enum TranscriptOp {
    /// Raw words: `write_u32_slice` mirrored by `read_u32s` of the same
    /// count.
    Words(Seq<u32>),
    /// Field elements: `write_field_elem_slice` mirrored by
    /// `read_field_elem_slice` of the same count.
    Elems(Seq<Fp>),
    /// Plain word-aligned bytes: `write_pod_slice` mirrored by
    /// `read_pod_slice` of the same byte count.
    Raw(Seq<u8>),
    /// Both sides commit the same digest bytes.
    Commit(Seq<u8>),
    /// Both sides draw one pseudorandom word.
    RandomU32,
    /// Both sides draw one pseudorandom field element.
    RandomElem,
    /// Both sides draw one pseudorandom extension element.
    RandomExtElem,
}

/// Whether one operation is well formed: canonical elements, aligned
/// bytes, digest-sized commits.
pub open spec fn op_wf(op: TranscriptOp) -> bool {
    match op {
        TranscriptOp::Elems(es) => forall|i: int| 0 <= i < es.len() ==> fp_valid(#[trigger] es[i]),
        TranscriptOp::Raw(bs) => bs.len() % 4 == 0,
        TranscriptOp::Commit(d) => d.len() == 32,
        _ => true,
    }
}

/// Whether every operation of a sequence is well formed.
pub open spec fn ops_wf(ops: Seq<TranscriptOp>) -> bool {
    forall|i: int| 0 <= i < ops.len() ==> op_wf(#[trigger] ops[i])
}

/// The words one operation appends to the buffer on the write side,
/// and consumes from it on the read side.
pub open spec fn op_words(op: TranscriptOp) -> Seq<u32> {
    match op {
        TranscriptOp::Words(ws) => ws,
        TranscriptOp::Elems(es) => elem_words(es),
        TranscriptOp::Raw(bs) => words_of_bytes(bs),
        TranscriptOp::Commit(_) => Seq::empty(),
        TranscriptOp::RandomU32 => Seq::empty(),
        TranscriptOp::RandomElem => Seq::empty(),
        TranscriptOp::RandomExtElem => Seq::empty(),
    }
}

/// The Fiat-Shamir state after one operation, from state `s`; the same
/// step on both sides.
pub open spec fn op_rng(s: Seq<u8>, op: TranscriptOp) -> Seq<u8> {
    match op {
        TranscriptOp::Commit(d) => rng_mix_state(s, d),
        TranscriptOp::RandomU32 => rng_next_state(s),
        TranscriptOp::RandomElem => rng_next_state(s),
        TranscriptOp::RandomExtElem => rng_next_state(
            rng_next_state(rng_next_state(rng_next_state(s))),
        ),
        _ => s,
    }
}

/// The buffer a fresh write-transcript holds after a sequence of
/// operations: each operation's words, concatenated in order.
pub open spec fn ops_words(ops: Seq<TranscriptOp>) -> Seq<u32>
    decreases ops.len(),
{
    if ops.len() == 0 {
        Seq::empty()
    } else {
        op_words(ops.first()) + ops_words(ops.drop_first())
    }
}

/// The Fiat-Shamir state after a sequence of operations, from state
/// `s`; identical for the writer and for a reader replaying the same
/// shapes.
pub open spec fn ops_rng(s: Seq<u8>, ops: Seq<TranscriptOp>) -> Seq<u8>
    decreases ops.len(),
{
    if ops.len() == 0 {
        s
    } else {
        ops_rng(op_rng(s, ops.first()), ops.drop_first())
    }
}

/// A reader at position `pos` of buffer `buf`, rng state `rng`,
/// replaying the shapes of `ops`: every read succeeds (enough words
/// remain, and element words decode), the words each read consumes are
/// exactly the words the mirrored write appended — so the words, the
/// decoded elements and the unpacked raw bytes handed back equal the
/// values written — and the rng steps through the same states as the
/// writer's did.
pub open spec fn replay_ok(buf: Seq<u32>, pos: int, rng: Seq<u8>, ops: Seq<TranscriptOp>) -> bool
    decreases ops.len(),
{
    ops.len() == 0 || {
        let op = ops.first();
        let w = op_words(op);
        &&& pos + w.len() <= buf.len()
        &&& buf.subrange(pos, pos + w.len()) == w
        &&& (op matches TranscriptOp::Elems(es) ==> words_canonical(
            buf.subrange(pos, pos + w.len()),
        ))
        &&& (op matches TranscriptOp::Raw(bs) ==> bytes_of_words(
            buf.subrange(pos, pos + w.len()),
        ) == bs)
        &&& replay_ok(buf, pos + w.len(), op_rng(rng, op), ops.drop_first())
    }
}

/// Replaying well-formed operations against a buffer that holds their
/// words, between an already-consumed prefix and untouched trailing
/// words, succeeds and stays in lockstep.
proof fn lemma_replay_extend(pre: Seq<u32>, ops: Seq<TranscriptOp>, post: Seq<u32>, rng: Seq<u8>)
    requires
        ops_wf(ops),
    ensures
        replay_ok(pre + ops_words(ops) + post, pre.len() as int, rng, ops),
    decreases ops.len(),
{
    if ops.len() > 0 {
        let op = ops.first();
        let w = op_words(op);
        let rest = ops.drop_first();
        let buf = pre + ops_words(ops) + post;
        assert(op_wf(op));
        assert(ops_wf(rest)) by {
            assert(forall|i: int| 0 <= i < rest.len() ==> rest[i] == ops[i + 1] && op_wf(#[trigger] rest[i]));
        }
        assert(buf.subrange(pre.len() as int, pre.len() + w.len() as int) =~= w);
        if let TranscriptOp::Elems(es) = op {
            assert forall|i: int| 0 <= i < w.len() implies #[trigger] w[i] < P by {
                assert(w[i] == es[i].v);
                assert(fp_valid(es[i]));
            }
        }
        if let TranscriptOp::Raw(bs) = op {
            lemma_bytes_words_roundtrip(bs);
        }
        lemma_replay_extend(pre + w, rest, post, op_rng(rng, op));
        assert((pre + w) + ops_words(rest) + post =~= buf);
    }
}

/// Round trip, the load-bearing guarantee of the transcript layer: for
/// any well-formed operation sequence, a fresh write-transcript run of
/// it produces the buffer `ops_words(ops)`; a fresh read-transcript
/// over that buffer, replaying the same shapes, succeeds at every
/// step, returns exactly the written values, and drives its rng
/// through exactly the writer's states.  The final position is the
/// whole buffer's length, so the completeness check succeeds with
/// nothing left over.
pub proof fn lemma_round_trip(ops: Seq<TranscriptOp>)
    requires
        ops_wf(ops),
    ensures
        replay_ok(ops_words(ops), 0, rng_init_state(), ops),
{
    lemma_replay_extend(Seq::empty(), ops, Seq::empty(), rng_init_state());
    assert(Seq::<u32>::empty() + ops_words(ops) + Seq::<u32>::empty() =~= ops_words(ops));
}

/// Transcript determinism: the buffer and the final Fiat-Shamir state
/// are functions of the operation sequence and the initial state
/// alone.  Every executable operation's contract pins its effect over
/// the old state and the arguments, so two transcripts driven by
/// identical operations coincide word for word and draw for draw.
pub proof fn lemma_transcript_determinism(
    ops1: Seq<TranscriptOp>,
    ops2: Seq<TranscriptOp>,
    s1: Seq<u8>,
    s2: Seq<u8>,
)
    requires
        ops1 == ops2,
        s1 == s2,
    ensures
        ops_words(ops1) == ops_words(ops2),
        ops_rng(s1, ops1) == ops_rng(s2, ops2),
{
}

/// Element vectors with the same word encoding are the same vectors.
/// With the replay guarantee above, this says the elements a mirrored
/// read decodes are exactly the elements that were written: the
/// consumed words equal the written words, and those determine the
/// elements.
pub proof fn lemma_elem_words_injective(a: Seq<Fp>, b: Seq<Fp>)
    requires
        elem_words(a) == elem_words(b),
    ensures
        a == b,
{
    assert(elem_words(a).len() == a.len());
    assert(elem_words(b).len() == b.len());
    assert forall|i: int| 0 <= i < a.len() implies a[i] == b[i] by {
        assert(elem_words(a)[i] == a[i].v);
        assert(elem_words(b)[i] == b[i].v);
    }
    assert(a =~= b);
}

} // verus!
