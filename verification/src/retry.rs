//! The retry requirement: how many more bytes a failed read needs before it
//! could plausibly succeed. "Never" is represented by absence, never by a
//! zero amount.

use vstd::prelude::*;

verus! {

/// The single source of truth for length-based recoverability: with `had`
/// bytes present and `needed` bytes required, the shortage `needed - had`,
/// or nothing when there was no shortage at all. Every error kind's retry
/// model goes through this function; none special-cases it.
pub open spec fn retry_amount_from(had: int, needed: int) -> Option<int> {
    if had < needed {
        Some(needed - had)
    } else {
        None
    }
}

/// A positive number of additional bytes required before a failed read could
/// succeed. A failure that no amount of additional input would mend is
/// represented by `Option::<RetryRequirement>::None`, never by a zero here.
#[derive(Clone, Copy, Debug, PartialEq, Eq, Structural)]
pub struct RetryRequirement {
    amount: usize,
}

impl RetryRequirement {
    #[verifier::type_invariant]
    spec fn type_inv(self) -> bool {
        self.amount > 0
    }

    /// The number of additional bytes required.
    pub closed spec fn amount_spec(self) -> int {
        self.amount as int
    }

    /// Construct a requirement for `amount` more bytes.
    pub fn new(amount: usize) -> (r: RetryRequirement)
        requires
            amount > 0,
        ensures
            r.amount_spec() == amount,
    {
        RetryRequirement { amount }
    }

    /// Compute [`retry_amount_from`]: with `had` bytes present and `needed`
    /// bytes required, returns the shortage `needed - had`, or nothing when
    /// there was no shortage at all.
    pub fn from_had_and_needed(had: usize, needed: usize) -> (r: Option<RetryRequirement>)
        ensures
            r is Some <==> retry_amount_from(had as int, needed as int) is Some,
            r is Some <==> had < needed,
            r matches Some(rr) ==> Some(rr.amount_spec()) == retry_amount_from(
                had as int,
                needed as int,
            ),
            r matches Some(rr) ==> rr.amount_spec() == needed - had,
    {
        if had < needed {
            Some(RetryRequirement { amount: needed - had })
        } else {
            None
        }
    }

    /// How many more bytes are required; always at least one.
    pub fn continue_after(self) -> (r: usize)
        ensures
            r == self.amount_spec(),
            r >= 1,
    {
        proof {
            use_type_invariant(self);
        }
        self.amount
    }
}

} // verus!
