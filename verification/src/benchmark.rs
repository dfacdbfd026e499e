//! Integer bookkeeping of a benchmark run: which prompt is used, which
//! rounds count, the token totals and the verdict of each model.

use vstd::prelude::*;
use crate::text::str_eq;

verus! {

/// The prompt used when none is given.
pub open spec fn default_prompt_text() -> Seq<char> {
    "Explain the concept of recursion in programming with a simple example."@
}

/// The prompt used when none is given.
pub fn default_prompt() -> (s: &'static str)
    ensures
        s@ == default_prompt_text(),
{
    "Explain the concept of recursion in programming with a simple example."
}

/// The prompt of a run and whether it differs from the default one.
pub fn benchmark_prompt(prompt: Option<&str>) -> (r: (String, bool))
    ensures
        r.0@ == match prompt {
            Some(p) => p@,
            None => default_prompt_text(),
        },
        r.1 == (r.0@ != default_prompt_text()),
{
    let d = default_prompt();
    let p = match prompt {
        Some(p) => p,
        None => d,
    };
    let custom = !str_eq(p, d);
    (p.to_string(), custom)
}

/// The token count of a round, where the reply carries a positive token
/// count and a positive evaluation time; such a round counts.
pub fn round_tokens(eval_count: Option<u64>, eval_duration: Option<u64>) -> (r: Option<u64>)
    ensures
        r == (match (eval_count, eval_duration) {
            (Some(c), Some(d)) => if c > 0 && d > 0 {
                Some(c)
            } else {
                None
            },
            _ => None,
        }),
{
    match (eval_count, eval_duration) {
        (Some(c), Some(d)) => {
            if c > 0 && d > 0 {
                Some(c)
            } else {
                None
            }
        },
        _ => None,
    }
}

/// The token total and the number of successful rounds of one model.
pub struct Tally {
    pub total_tokens: u64,
    pub successful_rounds: u32,
}

impl Tally {
    pub fn new() -> (t: Tally)
        ensures
            t.total_tokens == 0,
            t.successful_rounds == 0,
    {
        Tally { total_tokens: 0, successful_rounds: 0 }
    }

    /// Counts a successful round with `tokens` tokens. The token total
    /// wraps around at 2^64, as unchecked addition does in a release build.
    pub fn record(&mut self, tokens: u64)
        requires
            old(self).successful_rounds < u32::MAX,
        ensures
            final(self).successful_rounds == old(self).successful_rounds + 1,
            final(self).total_tokens as int == (old(self).total_tokens as int + tokens as int)
                % 0x1_0000_0000_0000_0000,
    {
        self.total_tokens = self.total_tokens.wrapping_add(tokens);
        self.successful_rounds = self.successful_rounds + 1;
    }

    /// The average token count of the successful rounds (rounded down).
    pub fn avg_tokens(&self) -> (a: u64)
        requires
            self.successful_rounds > 0,
        ensures
            a == self.total_tokens / (self.successful_rounds as u64),
    {
        self.total_tokens / (self.successful_rounds as u64)
    }
}

/// The verdict of a model: a tick where every round succeeded, a warning
/// where some did, a cross where none did.
pub open spec fn verdict(successful: u32, total: u32) -> Seq<char> {
    if successful == 0 {
        "✗"@
    } else if successful == total {
        "✓"@
    } else {
        "⚠"@
    }
}

pub fn verdict_mark(successful: u32, total: u32) -> (s: String)
    ensures
        s@ == verdict(successful, total),
{
    if successful == 0 {
        "✗".to_string()
    } else if successful == total {
        "✓".to_string()
    } else {
        "⚠".to_string()
    }
}

} // verus!
