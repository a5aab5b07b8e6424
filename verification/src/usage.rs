//! Token usage accounting across the two stages.
//!
//! `TokenUsage` values combine by pairwise addition; the accumulator keeps
//! one counter per stage and merges the two into the request's total.

use vstd::prelude::*;
use crate::error::OrchestrationError;
use crate::models::{Stage, TokenUsage};
use crate::pricing::{PricingTable, combined_cost, has_price, spec_lookup, spec_stage_cost};

verus! {

/// The mathematical content of a `TokenUsage`: a pair of unbounded counters.
pub struct UsageSum {
    pub prompt: int,
    pub completion: int,
}

/// The model of a `TokenUsage` value.
pub open spec fn usage_sum_of(u: TokenUsage) -> UsageSum {
    UsageSum { prompt: u.prompt_tokens as int, completion: u.completion_tokens as int }
}

/// Pairwise addition on the model.
pub open spec fn sum_add(a: UsageSum, b: UsageSum) -> UsageSum {
    UsageSum { prompt: a.prompt + b.prompt, completion: a.completion + b.completion }
}

/// The model of the zero counter.
pub open spec fn sum_zero() -> UsageSum {
    UsageSum { prompt: 0, completion: 0 }
}

/// Combining usage counters is commutative.
pub proof fn lemma_sum_add_commutative(a: UsageSum, b: UsageSum)
    ensures
        sum_add(a, b) == sum_add(b, a),
{
}

/// Combining usage counters is associative.
pub proof fn lemma_sum_add_associative(a: UsageSum, b: UsageSum, c: UsageSum)
    ensures
        sum_add(sum_add(a, b), c) == sum_add(a, sum_add(b, c)),
{
}

/// The zero counter is the identity of combining.
pub proof fn lemma_sum_add_zero(a: UsageSum)
    ensures
        sum_add(a, sum_zero()) == a,
        sum_add(sum_zero(), a) == a,
{
}

impl TokenUsage {
    /// The zero counter.
    pub fn zero() -> (r: TokenUsage)
        ensures
            usage_sum_of(r) == sum_zero(),
    {
        TokenUsage { prompt_tokens: 0, completion_tokens: 0 }
    }

    /// Pairwise addition of two counters. The sums must fit the machine
    /// word; callers check before combining.
    pub fn combined(self, other: TokenUsage) -> (r: TokenUsage)
        requires
            self.prompt_tokens + other.prompt_tokens <= u64::MAX,
            self.completion_tokens + other.completion_tokens <= u64::MAX,
        ensures
            usage_sum_of(r) == sum_add(usage_sum_of(self), usage_sum_of(other)),
    {
        TokenUsage {
            prompt_tokens: self.prompt_tokens + other.prompt_tokens,
            completion_tokens: self.completion_tokens + other.completion_tokens,
        }
    }
}

/// Per-stage token counters for one request, merged into one total once both
/// stages have reported.
#[derive(Clone, Copy, PartialEq, Eq, Structural, Debug)]
pub struct UsageAccumulator {
    pub reasoning: TokenUsage,
    pub completion: TokenUsage,
}

impl UsageAccumulator {
    /// A fresh accumulator with both stages at zero.
    pub fn new() -> (r: UsageAccumulator)
        ensures
            usage_sum_of(r.reasoning) == sum_zero(),
            usage_sum_of(r.completion) == sum_zero(),
    {
        UsageAccumulator { reasoning: TokenUsage::zero(), completion: TokenUsage::zero() }
    }

    /// Record one stage's reported usage on top of what that stage already
    /// accumulated. The other stage's counter is untouched.
    pub fn add(&mut self, stage: Stage, usage: TokenUsage)
        requires
            stage == Stage::Reasoning ==> {
                &&& old(self).reasoning.prompt_tokens + usage.prompt_tokens <= u64::MAX
                &&& old(self).reasoning.completion_tokens + usage.completion_tokens <= u64::MAX
            },
            stage == Stage::Completion ==> {
                &&& old(self).completion.prompt_tokens + usage.prompt_tokens <= u64::MAX
                &&& old(self).completion.completion_tokens + usage.completion_tokens <= u64::MAX
            },
        ensures
            stage == Stage::Reasoning ==> {
                &&& usage_sum_of(final(self).reasoning) == sum_add(
                    usage_sum_of(old(self).reasoning),
                    usage_sum_of(usage),
                )
                &&& final(self).completion == old(self).completion
            },
            stage == Stage::Completion ==> {
                &&& usage_sum_of(final(self).completion) == sum_add(
                    usage_sum_of(old(self).completion),
                    usage_sum_of(usage),
                )
                &&& final(self).reasoning == old(self).reasoning
            },
    {
        match stage {
            Stage::Reasoning => {
                self.reasoning = self.reasoning.combined(usage);
            },
            Stage::Completion => {
                self.completion = self.completion.combined(usage);
            },
        }
    }

    /// Merge the two stage counters into the request's total.
    pub fn total(&self) -> (r: TokenUsage)
        requires
            self.reasoning.prompt_tokens + self.completion.prompt_tokens <= u64::MAX,
            self.reasoning.completion_tokens + self.completion.completion_tokens <= u64::MAX,
        ensures
            usage_sum_of(r) == sum_add(usage_sum_of(self.reasoning), usage_sum_of(self.completion)),
    {
        self.reasoning.combined(self.completion)
    }

    /// Price the two stage counters against the table, each stage at its
    /// own provider/model row. Cost is derived, never stored; an unknown
    /// pair fails with `PricingNotFound` rather than pricing at zero.
    pub fn cost(
        &self,
        table: &PricingTable,
        reasoning_provider: &String,
        reasoning_model: &String,
        completion_provider: &String,
        completion_model: &String,
    ) -> (r: Result<u128, OrchestrationError>)
        ensures
            r is Ok <==> (has_price(table@, reasoning_provider@, reasoning_model@) && has_price(
                table@,
                completion_provider@,
                completion_model@,
            )),
            r matches Err(e) ==> e == OrchestrationError::PricingNotFound,
            r matches Ok(c) ==> (spec_lookup(
                table@,
                reasoning_provider@,
                reasoning_model@,
            ) matches Option::Some(rp) && spec_lookup(
                table@,
                completion_provider@,
                completion_model@,
            ) matches Option::Some(cp) && c == spec_stage_cost(self.reasoning, rp)
                + spec_stage_cost(self.completion, cp)),
    {
        combined_cost(
            self.reasoning,
            self.completion,
            table,
            reasoning_provider,
            reasoning_model,
            completion_provider,
            completion_model,
        )
    }
}

} // verus!
