//! The request handler: what one request computes and what it answers.

use crate::fibonacci::{fib, fibonacci, lemma_fibonacci_values};
use std::time::Instant;
use vstd::prelude::*;

verus! {

/// The label that every response carries.
pub const LANGUAGE: &'static str = "Rust";

/// The index of the Fibonacci number that every request computes.
pub const FIB_INDEX: u64 = 30;

/// The body of a response. It is made anew for each request and holds
/// nothing of the requests before it.
#[derive(Clone, Copy, Debug, PartialEq, Eq)]
pub struct Payload {
    /// The constant label [`LANGUAGE`].
    pub language: &'static str,
    /// The Fibonacci number at [`FIB_INDEX`].
    pub fibonacci_30: u64,
    /// The whole milliseconds that the computation took.
    pub compute_time_ms: u128,
}

impl Payload {
    /// What holds of every response, whatever the clock measured: the label
    /// and the Fibonacci number are fixed, only the time is free.
    pub open spec fn is_response(&self) -> bool {
        &&& self.language@ == LANGUAGE@
        &&& self.fibonacci_30 == fibonacci(FIB_INDEX as nat)
        &&& self.compute_time_ms >= 0
    }
}

/// Puts a computed number and the time it took into a response body.
pub fn payload(result: u64, elapsed_ms: u128) -> (p: Payload)
    ensures
        p.language@ == LANGUAGE@,
        p.fibonacci_30 == result,
        p.compute_time_ms == elapsed_ms,
{
    Payload { language: LANGUAGE, fibonacci_30: result, compute_time_ms: elapsed_ms }
}

/// Handles one request: reads the clock, computes the Fibonacci number at
/// [`FIB_INDEX`] recursively, reads the clock again and answers with the
/// label, the number and the milliseconds in between.
///
/// The handler takes nothing in and keeps nothing: the number is computed on
/// every call. The measured time depends on the clock alone, so the contract
/// leaves it free.
pub fn index() -> (p: Payload)
    ensures
        p.is_response(),
        p.language@ == LANGUAGE@,
        p.fibonacci_30 == 832_040,
        p.compute_time_ms >= 0,
{
    let start = Instant::now();
    let result = fib(FIB_INDEX);
    let duration = start.elapsed().as_millis();
    proof {
        lemma_fibonacci_values();
    }
    payload(result, duration)
}

/// Requests do not depend on one another: any two responses, however many
/// came before them and whatever the clock measured for each, carry the same
/// label and the same number, the Fibonacci number at [`FIB_INDEX`].
pub proof fn lemma_responses_agree(first: Payload, second: Payload)
    requires
        first.is_response(),
        second.is_response(),
    ensures
        first.language@ == second.language@,
        first.fibonacci_30 == second.fibonacci_30,
        first.fibonacci_30 == 832_040,
{
    lemma_fibonacci_values();
}

/// The label, letter by letter.
pub proof fn lemma_language_letters()
    ensures
        LANGUAGE@ == seq!['R', 'u', 's', 't'],
{
    reveal_strlit("Rust");
    assert(LANGUAGE@ =~= seq!['R', 'u', 's', 't']);
}

} // verus!
