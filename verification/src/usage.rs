use vstd::prelude::*;
use vstd::wrapping::i64_specs;

verus! {

/// Token counts of one or more `token_count` events.
///
/// Counts add with two's-complement wrap-around, as `+=` on `i64` does in a
/// release build.
#[derive(Clone, Copy, Debug, PartialEq, Eq, Structural)]
pub struct Usage {
    pub input_tokens: i64,
    pub cached_input_tokens: i64,
    pub output_tokens: i64,
    pub reasoning_output_tokens: i64,
    pub total_tokens: i64,
}

/// The usage with every count zero.
pub open spec fn zero_usage() -> Usage {
    Usage {
        input_tokens: 0,
        cached_input_tokens: 0,
        output_tokens: 0,
        reasoning_output_tokens: 0,
        total_tokens: 0,
    }
}

/// Field-wise sum of two usages, each count wrapping at 64 bits.
pub open spec fn add_usage(a: Usage, b: Usage) -> Usage {
    Usage {
        input_tokens: i64_specs::wrapping_add(a.input_tokens, b.input_tokens),
        cached_input_tokens: i64_specs::wrapping_add(a.cached_input_tokens, b.cached_input_tokens),
        output_tokens: i64_specs::wrapping_add(a.output_tokens, b.output_tokens),
        reasoning_output_tokens: i64_specs::wrapping_add(
            a.reasoning_output_tokens,
            b.reasoning_output_tokens,
        ),
        total_tokens: i64_specs::wrapping_add(a.total_tokens, b.total_tokens),
    }
}

impl Default for Usage {
    fn default() -> (res: Usage)
        ensures
            res == zero_usage(),
    {
        Usage {
            input_tokens: 0,
            cached_input_tokens: 0,
            output_tokens: 0,
            reasoning_output_tokens: 0,
            total_tokens: 0,
        }
    }
}

impl Usage {
    /// Adds the counts of `other` to these.
    pub fn merge(&mut self, other: &Usage)
        ensures
            *final(self) == add_usage(*old(self), *other),
    {
        self.input_tokens = self.input_tokens.wrapping_add(other.input_tokens);
        self.cached_input_tokens = self.cached_input_tokens.wrapping_add(
            other.cached_input_tokens,
        );
        self.output_tokens = self.output_tokens.wrapping_add(other.output_tokens);
        self.reasoning_output_tokens = self.reasoning_output_tokens.wrapping_add(
            other.reasoning_output_tokens,
        );
        self.total_tokens = self.total_tokens.wrapping_add(other.total_tokens);
    }
}

/// Adding usages does not depend on their order.
pub proof fn lemma_add_usage_commutative(a: Usage, b: Usage)
    ensures
        add_usage(a, b) == add_usage(b, a),
{
}

/// Adding usages does not depend on how they are grouped.
pub proof fn lemma_add_usage_associative(a: Usage, b: Usage, c: Usage)
    ensures
        add_usage(add_usage(a, b), c) == add_usage(a, add_usage(b, c)),
{
}

/// The zero usage adds nothing.
pub proof fn lemma_add_usage_zero(a: Usage)
    ensures
        add_usage(a, zero_usage()) == a,
        add_usage(zero_usage(), a) == a,
{
}

} // verus!
