//! Per-provider pricing and cost derivation.
//!
//! Cost is derived, never stored: a pure function of provider, model and the
//! two token counters, through a static price-per-token table. A lookup for
//! a provider/model pair the table does not hold fails with
//! `PricingNotFound`; it never silently yields a zero price.

use vstd::prelude::*;
use crate::error::OrchestrationError;
use crate::models::TokenUsage;

verus! {

/// Price per token for one provider/model pair, in nanodollars.
#[derive(Clone, Copy, PartialEq, Eq, Structural, Debug)]
pub struct StagePrice {
    pub prompt_nanodollars: u32,
    pub completion_nanodollars: u32,
}

/// One row of the pricing table.
#[derive(Debug)]
pub struct PricingEntry {
    pub provider: String,
    pub model: String,
    pub price: StagePrice,
}

/// Mathematical model of a `PricingEntry`.
pub struct PricingEntryView {
    pub provider: Seq<char>,
    pub model: Seq<char>,
    pub price: StagePrice,
}

impl View for PricingEntry {
    type V = PricingEntryView;

    open spec fn view(&self) -> PricingEntryView {
        PricingEntryView { provider: self.provider@, model: self.model@, price: self.price }
    }
}

/// The static price-per-token table, keyed by provider and model.
#[derive(Debug)]
pub struct PricingTable {
    pub entries: Vec<PricingEntry>,
}

impl View for PricingTable {
    type V = Seq<PricingEntryView>;

    open spec fn view(&self) -> Seq<PricingEntryView> {
        Seq::new(self.entries@.len(), |i: int| self.entries@[i]@)
    }
}

/// Whether entry `e` is keyed by `provider` and `model`.
pub open spec fn entry_matches(e: PricingEntryView, provider: Seq<char>, model: Seq<char>) -> bool {
    e.provider == provider && e.model == model
}

/// The price the table yields for `provider`/`model` when scanned from row
/// `i` on: the first matching row wins.
pub open spec fn lookup_from(
    entries: Seq<PricingEntryView>,
    provider: Seq<char>,
    model: Seq<char>,
    i: int,
) -> Option<StagePrice>
    decreases entries.len() - i,
{
    if i < 0 || i >= entries.len() {
        Option::None
    } else if entry_matches(entries[i], provider, model) {
        Option::Some(entries[i].price)
    } else {
        lookup_from(entries, provider, model, i + 1)
    }
}

/// The price the table yields for `provider`/`model`, if any.
pub open spec fn spec_lookup(
    entries: Seq<PricingEntryView>,
    provider: Seq<char>,
    model: Seq<char>,
) -> Option<StagePrice> {
    lookup_from(entries, provider, model, 0)
}

/// Whether some row of the table is keyed by `provider`/`model`.
pub open spec fn has_price(
    entries: Seq<PricingEntryView>,
    provider: Seq<char>,
    model: Seq<char>,
) -> bool {
    exists|i: int| 0 <= i < entries.len() && entry_matches(entries[i], provider, model)
}

proof fn lemma_lookup_from_some_iff(
    entries: Seq<PricingEntryView>,
    provider: Seq<char>,
    model: Seq<char>,
    i: int,
)
    requires
        0 <= i <= entries.len(),
    ensures
        lookup_from(entries, provider, model, i).is_some() <==> exists|j: int|
            i <= j < entries.len() && entry_matches(entries[j], provider, model),
    decreases entries.len() - i,
{
    if i < entries.len() {
        if entry_matches(entries[i], provider, model) {
            assert(i <= i < entries.len() && entry_matches(entries[i], provider, model));
        } else {
            lemma_lookup_from_some_iff(entries, provider, model, i + 1);
        }
    }
}

/// A lookup succeeds exactly when the table holds the provider/model pair:
/// an unknown pair can never be answered, silently, with any price at all.
pub proof fn lemma_lookup_some_iff_has_price(
    entries: Seq<PricingEntryView>,
    provider: Seq<char>,
    model: Seq<char>,
)
    ensures
        spec_lookup(entries, provider, model).is_some() <==> has_price(entries, provider, model),
{
    lemma_lookup_from_some_iff(entries, provider, model, 0);
}

/// The nanodollar cost of `usage` at price `price`: prompt and completion
/// tokens each at their own per-token rate.
pub open spec fn spec_stage_cost(usage: TokenUsage, price: StagePrice) -> int {
    usage.prompt_tokens * price.prompt_nanodollars
        + usage.completion_tokens * price.completion_nanodollars
}

/// The nanodollar cost of one stage. A `u64` token count times a `u32`
/// per-token price stays far below the `u128` bound, so the arithmetic is
/// exact.
pub fn stage_cost(usage: TokenUsage, price: StagePrice) -> (c: u128)
    ensures
        c == spec_stage_cost(usage, price),
{
    proof {
        lemma_cost_bound(usage, price);
    }
    (usage.prompt_tokens as u128) * (price.prompt_nanodollars as u128)
        + (usage.completion_tokens as u128) * (price.completion_nanodollars as u128)
}

/// A stage's cost is bounded by the product of the widest token count and
/// the widest per-token price, twice over.
pub proof fn lemma_cost_bound(usage: TokenUsage, price: StagePrice)
    ensures
        0 <= spec_stage_cost(usage, price),
        spec_stage_cost(usage, price) <= 2 * (u64::MAX as int) * (u32::MAX as int),
{
    assert(usage.prompt_tokens * price.prompt_nanodollars <= (u64::MAX as int) * (u32::MAX
        as int)) by (nonlinear_arith)
        requires
            usage.prompt_tokens <= u64::MAX,
            price.prompt_nanodollars <= u32::MAX,
    ;
    assert(usage.completion_tokens * price.completion_nanodollars <= (u64::MAX as int) * (u32::MAX
        as int)) by (nonlinear_arith)
        requires
            usage.completion_tokens <= u64::MAX,
            price.completion_nanodollars <= u32::MAX,
    ;
    assert(0 <= usage.prompt_tokens * price.prompt_nanodollars) by (nonlinear_arith);
    assert(0 <= usage.completion_tokens * price.completion_nanodollars) by (nonlinear_arith);
}

/// The combined nanodollar cost of a two-stage request: each stage's usage
/// priced at its own provider/model row. Fails with `PricingNotFound` when
/// either pair has no row, and never silently yields a zero cost for an
/// unknown pair.
pub fn combined_cost(
    reasoning_usage: TokenUsage,
    completion_usage: TokenUsage,
    table: &PricingTable,
    reasoning_provider: &String,
    reasoning_model: &String,
    completion_provider: &String,
    completion_model: &String,
) -> (r: Result<u128, OrchestrationError>)
    ensures
        r is Ok <==> (has_price(table@, reasoning_provider@, reasoning_model@) && has_price(
            table@,
            completion_provider@,
            completion_model@,
        )),
        r matches Err(e) ==> e == OrchestrationError::PricingNotFound,
        r matches Ok(c) ==> (spec_lookup(
            table@,
            reasoning_provider@,
            reasoning_model@,
        ) matches Option::Some(rp) && spec_lookup(
            table@,
            completion_provider@,
            completion_model@,
        ) matches Option::Some(cp) && c == spec_stage_cost(reasoning_usage, rp) + spec_stage_cost(
            completion_usage,
            cp,
        )),
{
    let rp = match table.lookup(reasoning_provider, reasoning_model) {
        Ok(p) => p,
        Err(e) => {
            return Err(e);
        },
    };
    let cp = match table.lookup(completion_provider, completion_model) {
        Ok(p) => p,
        Err(e) => {
            return Err(e);
        },
    };
    proof {
        lemma_cost_bound(reasoning_usage, rp);
        lemma_cost_bound(completion_usage, cp);
    }
    Ok(stage_cost(reasoning_usage, rp) + stage_cost(completion_usage, cp))
}

impl PricingTable {
    /// An empty table: every lookup fails.
    pub fn new() -> (r: PricingTable)
        ensures
            r@.len() == 0,
    {
        PricingTable { entries: Vec::new() }
    }

    /// Append one row to the table.
    pub fn push(&mut self, entry: PricingEntry)
        ensures
            final(self)@ == old(self)@.push(entry@),
    {
        self.entries.push(entry);
        proof {
            assert(self@ =~= old(self)@.push(entry@));
        }
    }

    /// Find the price for `provider`/`model`: the first matching row, or
    /// `PricingNotFound` when no row carries that key.
    pub fn lookup(&self, provider: &String, model: &String) -> (r: Result<
        StagePrice,
        OrchestrationError,
    >)
        ensures
            r matches Ok(p) ==> spec_lookup(self@, provider@, model@) == Option::Some(p),
            r is Err ==> !has_price(self@, provider@, model@),
            r matches Err(e) ==> e == OrchestrationError::PricingNotFound,
            r is Ok <==> has_price(self@, provider@, model@),
    {
        proof {
            lemma_lookup_some_iff_has_price(self@, provider@, model@);
        }
        let n: usize = self.entries.len();
        let mut i: usize = 0;
        while i < n
            invariant
                0 <= i <= n,
                n == self.entries.len(),
                lookup_from(self@, provider@, model@, i as int) == spec_lookup(
                    self@,
                    provider@,
                    model@,
                ),
            decreases n - i,
        {
            let e = &self.entries[i];
            if e.provider == *provider && e.model == *model {
                return Ok(e.price);
            }
            i = i + 1;
        }
        Err(OrchestrationError::PricingNotFound)
    }
}

} // verus!
