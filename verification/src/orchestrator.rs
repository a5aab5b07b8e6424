//! The dual-stage orchestrator: an explicit state machine that sequences
//! the reasoning call before the completion call, stitches their output,
//! and accounts usage and cost across both stages.
//!
//! The machine never performs network work itself. The surrounding program
//! makes each upstream call and hands the outcome back as plain values; the
//! machine decides what happens next. The lifecycle is
//! `Idle -> ReasoningInFlight -> CompletionInFlight -> Done`, with a
//! `Failed(stage)` terminal branch. The completion stage structurally cannot
//! start without the reasoning stage's output: the only transition that
//! yields a completion-stage request is the one fed by a successful
//! reasoning result, and a failed reasoning stage moves the machine to a
//! terminal state that no transition leaves.

use vstd::prelude::*;
use vstd::string::StringExecFns;
use crate::adapter::{
    ProviderRequest,
    build_completion_request,
    build_reasoning_request,
    chosen_model,
    contains_reasoning_trace,
    resolve_model,
};
use crate::error::{ClientError, OrchestrationError};
use crate::merger::{
    all_tagged,
    lemma_stage_concat_push,
    lemma_stage_ordered_push,
    stage_concat,
    stage_ordered,
};
use crate::models::{
    ChatRequest,
    Message,
    MessageView,
    OutputChunk,
    Role,
    Stage,
    StageResult,
    TokenUsage,
    UnifiedResponse,
    messages_view,
};
use crate::pricing::{PricingTable, combined_cost, has_price, spec_lookup, spec_stage_cost};
use crate::usage::{UsageAccumulator, sum_add, sum_zero, usage_sum_of};

verus! {

/// Where one request stands in its two-stage lifecycle.
#[derive(Clone, Copy, PartialEq, Eq, Structural, Debug)]
pub enum Phase {
    Idle,
    ReasoningInFlight,
    CompletionInFlight,
    Done,
    Failed(Stage),
}

/// One event of a streamed response: a stage-tagged chunk, the terminal
/// summary carrying the combined usage and cost, or the terminal failure.
#[derive(Debug)]
pub enum StreamEvent {
    Chunk(OutputChunk),
    Summary { usage: TokenUsage, cost: u128 },
    Failure(OrchestrationError),
}

/// Configuration of one stage: the provider the pricing table knows it by,
/// and the default model to run when the request carries no override.
#[derive(Debug)]
pub struct StageConfig {
    pub provider: String,
    pub model: String,
}

/// The per-request state machine.
pub struct Orchestrator {
    pub phase: Phase,
    pub stream: bool,
    pub messages: Vec<Message>,
    pub reasoning_provider: String,
    pub reasoning_model: String,
    pub completion_provider: String,
    pub completion_model: String,
    /// The reasoning stage's full output: set at once in buffered mode,
    /// accumulated delta by delta in streaming mode.
    pub reasoning_text: String,
    /// The completion stage's output so far (streaming mode).
    pub final_text: String,
    pub usage: UsageAccumulator,
    /// Every chunk handed out so far, in emission order.
    pub emitted: Ghost<Seq<crate::models::OutputChunkView>>,
}

impl Orchestrator {
    /// The stage whose upstream call is in flight.
    pub open spec fn active_stage(self) -> Stage {
        if self.phase == Phase::ReasoningInFlight {
            Stage::Reasoning
        } else {
            Stage::Completion
        }
    }

    /// The per-request configuration that no transition changes.
    pub open spec fn same_setup(self, other: Orchestrator) -> bool {
        &&& other.stream == self.stream
        &&& other.messages == self.messages
        &&& other.reasoning_provider == self.reasoning_provider
        &&& other.reasoning_model == self.reasoning_model
        &&& other.completion_provider == self.completion_provider
        &&& other.completion_model == self.completion_model
    }

    /// The machine's invariant.
    ///
    /// Emission order is stage-ordered at every state, so no
    /// completion-tagged chunk can ever precede a reasoning-tagged one.
    /// While the reasoning stage runs, only reasoning chunks exist and no
    /// usage has been recorded; while the completion stage runs, its own
    /// counter is still untouched. In streaming mode the accumulated texts
    /// are exactly the concatenations of the emitted deltas, stage by
    /// stage.
    pub open spec fn wf(self) -> bool {
        &&& stage_ordered(self.emitted@)
        &&& ((self.phase == Phase::Idle || self.phase == Phase::ReasoningInFlight) ==> all_tagged(
            self.emitted@,
            Stage::Reasoning,
        ))
        &&& ((self.phase == Phase::Idle || self.phase == Phase::ReasoningInFlight) ==> (
        usage_sum_of(self.usage.reasoning) == sum_zero() && usage_sum_of(self.usage.completion)
            == sum_zero()))
        &&& (self.phase == Phase::CompletionInFlight ==> usage_sum_of(self.usage.completion)
            == sum_zero())
        &&& (self.stream ==> self.reasoning_text@ == stage_concat(self.emitted@, Stage::Reasoning))
        &&& (self.stream ==> self.final_text@ == stage_concat(self.emitted@, Stage::Completion))
        &&& (!self.stream ==> self.emitted@.len() == 0)
    }

    /// Admit one request: reject an empty conversation, resolve each
    /// stage's model against its override, and stand ready to start the
    /// reasoning stage.
    pub fn new(request: ChatRequest, reasoning: &StageConfig, completion: &StageConfig) -> (r:
        Result<Orchestrator, OrchestrationError>)
        ensures
            request@.messages.len() == 0 <==> r is Err,
            r matches Err(e) ==> e == OrchestrationError::InvalidRequest,
            r matches Ok(o) ==> {
                &&& o.wf()
                &&& o.phase == Phase::Idle
                &&& o.stream == request.stream
                &&& messages_view(o.messages@) == request@.messages
                &&& o.reasoning_provider@ == reasoning.provider@
                &&& o.completion_provider@ == completion.provider@
                &&& o.reasoning_model@ == chosen_model(request@.reasoning_model, reasoning.model@)
                &&& o.completion_model@ == chosen_model(
                    request@.completion_model,
                    completion.model@,
                )
                &&& o.emitted@.len() == 0
            },
    {
        if request.messages.len() == 0 {
            return Err(OrchestrationError::InvalidRequest);
        }
        let reasoning_model = resolve_model(&request.reasoning_model, &reasoning.model);
        let completion_model = resolve_model(&request.completion_model, &completion.model);
        Ok(
            Orchestrator {
                phase: Phase::Idle,
                stream: request.stream,
                messages: request.messages,
                reasoning_provider: reasoning.provider.clone(),
                reasoning_model,
                completion_provider: completion.provider.clone(),
                completion_model,
                reasoning_text: String::new(),
                final_text: String::new(),
                usage: UsageAccumulator::new(),
                emitted: Ghost(Seq::empty()),
            },
        )
    }

    /// Start the reasoning stage: the request handed to the reasoning
    /// provider carries the caller's full message history, unmodified.
    pub fn start_reasoning(&mut self) -> (r: ProviderRequest)
        requires
            old(self).wf(),
            old(self).phase == Phase::Idle,
        ensures
            final(self).wf(),
            old(self).same_setup(*final(self)),
            final(self).phase == Phase::ReasoningInFlight,
            final(self).usage == old(self).usage,
            final(self).emitted@ == old(self).emitted@,
            final(self).reasoning_text == old(self).reasoning_text,
            final(self).final_text == old(self).final_text,
            r@.messages == messages_view(old(self).messages@),
            r@.model == old(self).reasoning_model@,
            r@.stream == old(self).stream,
    {
        self.phase = Phase::ReasoningInFlight;
        build_reasoning_request(&self.messages, &self.reasoning_model, self.stream)
    }

    /// Record the reasoning stage's buffered result and start the
    /// completion stage. The returned request holds the original messages
    /// plus one system-role segment carrying the reasoning stage's full
    /// output text.
    pub fn on_reasoning_success(&mut self, result: StageResult) -> (r: ProviderRequest)
        requires
            old(self).wf(),
            old(self).phase == Phase::ReasoningInFlight,
            !old(self).stream,
        ensures
            final(self).wf(),
            old(self).same_setup(*final(self)),
            final(self).phase == Phase::CompletionInFlight,
            final(self).reasoning_text@ == result@.text,
            usage_sum_of(final(self).usage.reasoning) == usage_sum_of(result.usage),
            usage_sum_of(final(self).usage.completion) == sum_zero(),
            final(self).emitted@ == old(self).emitted@,
            r@.messages.len() == messages_view(old(self).messages@).len() + 1,
            forall|i: int|
                0 <= i < messages_view(old(self).messages@).len() ==> r@.messages[i]
                    == messages_view(old(self).messages@)[i],
            r@.messages.last() == (MessageView { role: Role::System, content: result@.text }),
            contains_reasoning_trace(r@.messages, result@.text),
            r@.model == old(self).completion_model@,
            r@.stream == old(self).stream,
    {
        let StageResult { text, finish_reason: _, usage } = result;
        self.reasoning_text = text;
        self.usage.add(Stage::Reasoning, usage);
        self.phase = Phase::CompletionInFlight;
        build_completion_request(
            &self.messages,
            &self.reasoning_text,
            &self.completion_model,
            self.stream,
        )
    }

    /// Record that the in-flight stage's upstream call failed, and stop.
    ///
    /// The machine moves to the terminal `Failed` state, which no
    /// transition leaves: after a reasoning-stage failure the completion
    /// provider can never be handed a request. The returned error names the
    /// failed stage and carries the usage the earlier stages accumulated:
    /// zero when the reasoning stage itself failed, the reasoning stage's
    /// usage when the completion stage failed.
    pub fn fail_stage(&mut self, cause: ClientError) -> (r: OrchestrationError)
        requires
            old(self).wf(),
            old(self).phase == Phase::ReasoningInFlight || old(self).phase
                == Phase::CompletionInFlight,
        ensures
            final(self).wf(),
            old(self).same_setup(*final(self)),
            final(self).phase == Phase::Failed(old(self).active_stage()),
            final(self).usage == old(self).usage,
            final(self).emitted@ == old(self).emitted@,
            r == (OrchestrationError::Upstream {
                stage: old(self).active_stage(),
                cause,
                partial_usage: old(self).usage.reasoning,
            }),
            old(self).phase == Phase::ReasoningInFlight ==> usage_sum_of(
                old(self).usage.reasoning,
            ) == sum_zero(),
    {
        let stage = match self.phase {
            Phase::ReasoningInFlight => Stage::Reasoning,
            _ => Stage::Completion,
        };
        self.phase = Phase::Failed(stage);
        OrchestrationError::Upstream { stage, cause, partial_usage: self.usage.reasoning }
    }

    /// Record the completion stage's buffered result and assemble the
    /// unified response: both stages' text, their usage combined by
    /// pairwise addition, and the combined cost priced per stage from the
    /// table. Fails with `PricingNotFound` when either stage's
    /// provider/model pair has no price.
    pub fn on_completion_success(&mut self, result: StageResult, pricing: &PricingTable) -> (r:
        Result<UnifiedResponse, OrchestrationError>)
        requires
            old(self).wf(),
            old(self).phase == Phase::CompletionInFlight,
            !old(self).stream,
            old(self).usage.reasoning.prompt_tokens + result.usage.prompt_tokens <= u64::MAX,
            old(self).usage.reasoning.completion_tokens + result.usage.completion_tokens
                <= u64::MAX,
        ensures
            final(self).wf(),
            old(self).same_setup(*final(self)),
            final(self).phase == Phase::Done,
            final(self).emitted@ == old(self).emitted@,
            r is Ok <==> (has_price(
                pricing@,
                old(self).reasoning_provider@,
                old(self).reasoning_model@,
            ) && has_price(
                pricing@,
                old(self).completion_provider@,
                old(self).completion_model@,
            )),
            r matches Err(e) ==> e == OrchestrationError::PricingNotFound,
            r matches Ok(u) ==> {
                &&& u.reasoning_content@ == old(self).reasoning_text@
                &&& u.final_content@ == result@.text
                &&& usage_sum_of(u.combined_usage) == sum_add(
                    usage_sum_of(old(self).usage.reasoning),
                    usage_sum_of(result.usage),
                )
                &&& (spec_lookup(
                    pricing@,
                    old(self).reasoning_provider@,
                    old(self).reasoning_model@,
                ) matches Option::Some(rp) && spec_lookup(
                    pricing@,
                    old(self).completion_provider@,
                    old(self).completion_model@,
                ) matches Option::Some(cp) && u.combined_cost == spec_stage_cost(
                    old(self).usage.reasoning,
                    rp,
                ) + spec_stage_cost(result.usage, cp))
            },
    {
        let StageResult { text, finish_reason: _, usage } = result;
        self.final_text = text;
        self.usage.add(Stage::Completion, usage);
        self.phase = Phase::Done;
        let cost = match combined_cost(
            self.usage.reasoning,
            usage,
            pricing,
            &self.reasoning_provider,
            &self.reasoning_model,
            &self.completion_provider,
            &self.completion_model,
        ) {
            Ok(c) => c,
            Err(e) => {
                return Err(e);
            },
        };
        let total = self.usage.total();
        Ok(
            UnifiedResponse {
                reasoning_content: self.reasoning_text.clone(),
                final_content: self.final_text.clone(),
                combined_usage: total,
                combined_cost: cost,
            },
        )
    }

    /// Forward one streamed delta from the in-flight stage, tagged with
    /// that stage, and account it to the accumulated stage text.
    pub fn on_stream_delta(&mut self, delta: String) -> (c: OutputChunk)
        requires
            old(self).wf(),
            old(self).stream,
            old(self).phase == Phase::ReasoningInFlight || old(self).phase
                == Phase::CompletionInFlight,
        ensures
            final(self).wf(),
            old(self).same_setup(*final(self)),
            final(self).phase == old(self).phase,
            final(self).usage == old(self).usage,
            c@.stage == old(self).active_stage(),
            c@.delta == delta@,
            final(self).emitted@ == old(self).emitted@.push(c@),
            stage_ordered(final(self).emitted@),
    {
        let ghost old_emitted = self.emitted@;
        let is_reasoning = match self.phase {
            Phase::ReasoningInFlight => true,
            _ => false,
        };
        let stage = if is_reasoning {
            Stage::Reasoning
        } else {
            Stage::Completion
        };
        let c = OutputChunk { stage, delta };
        if is_reasoning {
            self.reasoning_text.append(c.delta.as_str());
        } else {
            self.final_text.append(c.delta.as_str());
        }
        proof {
            lemma_stage_concat_push(old_emitted, c@, Stage::Reasoning);
            lemma_stage_concat_push(old_emitted, c@, Stage::Completion);
            lemma_stage_ordered_push(old_emitted, c@);
        }
        self.emitted = Ghost(old_emitted.push(c@));
        proof {
            if is_reasoning {
                assert forall|i: int| 0 <= i < self.emitted@.len() implies (#[trigger] self.emitted@[i]).stage
                    == Stage::Reasoning by {
                    if i < old_emitted.len() {
                        assert(self.emitted@[i] == old_emitted[i]);
                    } else {
                        assert(self.emitted@[i] == c@);
                    }
                }
            }
        }
        c
    }

    /// Close the reasoning stage of a streamed request once its upstream
    /// reports finished, recording its usage, and start the completion
    /// stage. The completion request's distinguished segment carries
    /// exactly the concatenation of every reasoning delta streamed so far.
    pub fn finish_reasoning_stream(&mut self, usage: TokenUsage) -> (r: ProviderRequest)
        requires
            old(self).wf(),
            old(self).stream,
            old(self).phase == Phase::ReasoningInFlight,
        ensures
            final(self).wf(),
            old(self).same_setup(*final(self)),
            final(self).phase == Phase::CompletionInFlight,
            usage_sum_of(final(self).usage.reasoning) == usage_sum_of(usage),
            usage_sum_of(final(self).usage.completion) == sum_zero(),
            final(self).emitted@ == old(self).emitted@,
            r@.messages.len() == messages_view(old(self).messages@).len() + 1,
            forall|i: int|
                0 <= i < messages_view(old(self).messages@).len() ==> r@.messages[i]
                    == messages_view(old(self).messages@)[i],
            r@.messages.last() == (MessageView {
                role: Role::System,
                content: stage_concat(old(self).emitted@, Stage::Reasoning),
            }),
            contains_reasoning_trace(
                r@.messages,
                stage_concat(old(self).emitted@, Stage::Reasoning),
            ),
            r@.model == old(self).completion_model@,
            r@.stream == old(self).stream,
    {
        self.usage.add(Stage::Reasoning, usage);
        self.phase = Phase::CompletionInFlight;
        build_completion_request(
            &self.messages,
            &self.reasoning_text,
            &self.completion_model,
            self.stream,
        )
    }

    /// Close the completion stage of a streamed request: record its usage
    /// and produce the terminal summary event with the combined usage and
    /// cost, or `PricingNotFound` when either stage's provider/model pair
    /// has no price.
    pub fn finish_completion_stream(&mut self, usage: TokenUsage, pricing: &PricingTable) -> (r:
        Result<StreamEvent, OrchestrationError>)
        requires
            old(self).wf(),
            old(self).stream,
            old(self).phase == Phase::CompletionInFlight,
            old(self).usage.reasoning.prompt_tokens + usage.prompt_tokens <= u64::MAX,
            old(self).usage.reasoning.completion_tokens + usage.completion_tokens <= u64::MAX,
        ensures
            final(self).wf(),
            old(self).same_setup(*final(self)),
            final(self).phase == Phase::Done,
            final(self).emitted@ == old(self).emitted@,
            r is Ok <==> (has_price(
                pricing@,
                old(self).reasoning_provider@,
                old(self).reasoning_model@,
            ) && has_price(
                pricing@,
                old(self).completion_provider@,
                old(self).completion_model@,
            )),
            r matches Err(e) ==> e == OrchestrationError::PricingNotFound,
            r matches Ok(ev) ==> (ev matches StreamEvent::Summary { usage: total, cost }
                && usage_sum_of(total) == sum_add(
                usage_sum_of(old(self).usage.reasoning),
                usage_sum_of(usage),
            ) && (spec_lookup(
                pricing@,
                old(self).reasoning_provider@,
                old(self).reasoning_model@,
            ) matches Option::Some(rp) && spec_lookup(
                pricing@,
                old(self).completion_provider@,
                old(self).completion_model@,
            ) matches Option::Some(cp) && cost == spec_stage_cost(
                old(self).usage.reasoning,
                rp,
            ) + spec_stage_cost(usage, cp))),
    {
        self.usage.add(Stage::Completion, usage);
        self.phase = Phase::Done;
        let cost = match combined_cost(
            self.usage.reasoning,
            usage,
            pricing,
            &self.reasoning_provider,
            &self.reasoning_model,
            &self.completion_provider,
            &self.completion_model,
        ) {
            Ok(c) => c,
            Err(e) => {
                return Err(e);
            },
        };
        let total = self.usage.total();
        Ok(StreamEvent::Summary { usage: total, cost })
    }
}

} // verus!
