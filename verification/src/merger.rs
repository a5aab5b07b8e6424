//! The stream merger: one ordered, stage-tagged output sequence out of the
//! reasoning stage's chunks followed by the completion stage's chunks.
//!
//! The merger is a pure labeling and forwarding pass: it preserves each
//! stage's own delivery order and never reorders, and because the completion
//! stage cannot start before the reasoning stage has finished, every
//! completion-tagged chunk comes after every reasoning-tagged chunk.

use vstd::prelude::*;
use crate::models::{OutputChunk, OutputChunkView, Stage};

verus! {

/// The model of a chunk sequence: each chunk replaced by its view.
pub open spec fn chunks_view(s: Seq<OutputChunk>) -> Seq<OutputChunkView> {
    Seq::new(s.len(), |i: int| s[i]@)
}

/// No completion-tagged chunk ever precedes a reasoning-tagged chunk.
pub open spec fn stage_ordered(s: Seq<OutputChunkView>) -> bool {
    forall|i: int, j: int|
        0 <= i < j < s.len() ==> !(s[i].stage == Stage::Completion && s[j].stage
            == Stage::Reasoning)
}

/// Every chunk of `s` is tagged `stage`.
pub open spec fn all_tagged(s: Seq<OutputChunkView>, stage: Stage) -> bool {
    forall|i: int| 0 <= i < s.len() ==> s[i].stage == stage
}

/// The concatenation of the deltas of the chunks of `s` tagged `stage`, in
/// emission order.
pub open spec fn stage_concat(s: Seq<OutputChunkView>, stage: Stage) -> Seq<char>
    decreases s.len(),
{
    if s.len() == 0 {
        Seq::<char>::empty()
    } else if s.last().stage == stage {
        stage_concat(s.drop_last(), stage) + s.last().delta
    } else {
        stage_concat(s.drop_last(), stage)
    }
}

/// Appending one chunk extends exactly the concatenation of its own stage.
pub proof fn lemma_stage_concat_push(s: Seq<OutputChunkView>, c: OutputChunkView, stage: Stage)
    ensures
        c.stage == stage ==> stage_concat(s.push(c), stage) == stage_concat(s, stage) + c.delta,
        c.stage != stage ==> stage_concat(s.push(c), stage) == stage_concat(s, stage),
{
    assert(s.push(c).drop_last() =~= s);
    assert(s.push(c).last() == c);
}

/// Appending a chunk of the ordered tail stage keeps the sequence ordered,
/// and so does appending a chunk of the head stage while only head-stage
/// chunks have been emitted.
pub proof fn lemma_stage_ordered_push(s: Seq<OutputChunkView>, c: OutputChunkView)
    requires
        stage_ordered(s),
        c.stage == Stage::Completion || all_tagged(s, Stage::Reasoning),
    ensures
        stage_ordered(s.push(c)),
{
    let t = s.push(c);
    assert forall|i: int, j: int| 0 <= i < j < t.len() implies !(t[i].stage == Stage::Completion
        && t[j].stage == Stage::Reasoning) by {
        if j < s.len() {
        } else {
            assert(t[j] == c);
            assert(t[i] == s[i]);
        }
    }
}

/// In a stage-ordered sequence, every reasoning-tagged chunk strictly
/// precedes every completion-tagged chunk.
pub proof fn lemma_stage_ordered_separates(s: Seq<OutputChunkView>)
    requires
        stage_ordered(s),
    ensures
        forall|i: int, j: int|
            (0 <= i < s.len() && 0 <= j < s.len() && s[i].stage == Stage::Reasoning && s[j].stage
                == Stage::Completion) ==> i < j,
{
    assert forall|i: int, j: int|
        (0 <= i < s.len() && 0 <= j < s.len() && s[i].stage == Stage::Reasoning && s[j].stage
            == Stage::Completion) implies i < j by {
        if j < i {
            assert(s[j].stage == Stage::Completion && s[i].stage == Stage::Reasoning);
        }
        if i == j {
            assert(s[i].stage == Stage::Reasoning && s[i].stage == Stage::Completion);
        }
    }
}

/// Tag each delta of one stage's stream, preserving its order.
pub fn tag_chunks(stage: Stage, deltas: &Vec<String>) -> (r: Vec<OutputChunk>)
    ensures
        r@.len() == deltas@.len(),
        forall|i: int| 0 <= i < r@.len() ==> r@[i]@.stage == stage,
        forall|i: int| 0 <= i < r@.len() ==> r@[i]@.delta == deltas@[i]@,
{
    let n: usize = deltas.len();
    let mut r: Vec<OutputChunk> = Vec::new();
    let mut i: usize = 0;
    while i < n
        invariant
            0 <= i <= n,
            n == deltas.len(),
            r@.len() == i,
            forall|j: int| 0 <= j < i ==> r@[j]@.stage == stage,
            forall|j: int| 0 <= j < i ==> r@[j]@.delta == deltas@[j]@,
        decreases n - i,
    {
        r.push(OutputChunk { stage, delta: deltas[i].clone() });
        i = i + 1;
    }
    r
}

/// Merge the reasoning stage's chunk stream, then the completion stage's,
/// into one stage-tagged output stream: order within each stage preserved,
/// all reasoning chunks before all completion chunks.
pub fn merge_streams(reasoning: &Vec<String>, completion: &Vec<String>) -> (r: Vec<OutputChunk>)
    ensures
        r@.len() == reasoning@.len() + completion@.len(),
        forall|i: int|
            0 <= i < reasoning@.len() ==> (#[trigger] r@[i])@.stage == Stage::Reasoning
                && r@[i]@.delta == reasoning@[i]@,
        forall|i: int|
            reasoning@.len() <= i < r@.len() ==> (#[trigger] r@[i])@.stage == Stage::Completion
                && r@[i]@.delta == completion@[i - reasoning@.len()]@,
        stage_ordered(chunks_view(r@)),
{
    let mut r = tag_chunks(Stage::Reasoning, reasoning);
    let ghost head_len = r@.len() as int;
    let tn: usize = completion.len();
    let mut i: usize = 0;
    while i < tn
        invariant
            0 <= i <= tn,
            tn == completion@.len(),
            r@.len() == head_len + i,
            head_len == reasoning@.len(),
            forall|j: int|
                0 <= j < head_len ==> (#[trigger] r@[j])@.stage == Stage::Reasoning
                    && r@[j]@.delta == reasoning@[j]@,
            forall|j: int|
                head_len <= j < r@.len() ==> (#[trigger] r@[j])@.stage == Stage::Completion
                    && r@[j]@.delta == completion@[j - head_len]@,
        decreases tn - i,
    {
        let c = OutputChunk { stage: Stage::Completion, delta: completion[i].clone() };
        r.push(c);
        i = i + 1;
    }
    proof {
        assert forall|i: int, j: int| 0 <= i < j < chunks_view(r@).len() implies !(chunks_view(
            r@,
        )[i].stage == Stage::Completion && chunks_view(r@)[j].stage == Stage::Reasoning) by {
            assert(chunks_view(r@)[i] == r@[i]@);
            assert(chunks_view(r@)[j] == r@[j]@);
            if r@[j]@.stage == Stage::Reasoning {
                assert(j < head_len);
            }
        }
    }
    r
}

} // verus!
