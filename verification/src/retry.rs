use vstd::prelude::*;

verus! {

/// The wait after the failed attempt number `round`, counted from 0: it grows
/// by `base` with each attempt.
pub open spec fn spec_backoff_delay(round: nat, base: nat) -> nat {
    (round + 1) * base
}

/// How often an operation is tried, and the unit of the wait between tries.
#[derive(Clone, Copy, Debug, PartialEq, Eq, Structural)]
pub struct RetryPolicy {
    max_attempts: u64,
    base_delay_secs: u64,
}

impl RetryPolicy {
    /// The operation is tried at least once, and the longest wait fits in
    /// `u64`.
    #[verifier::type_invariant]
    pub open spec fn wf(self) -> bool {
        self.spec_max_attempts() >= 1 && self.spec_max_attempts() * self.spec_base_delay()
            <= u64::MAX
    }

    /// The number of attempts after which the operation is given up.
    pub closed spec fn spec_max_attempts(self) -> nat {
        self.max_attempts as nat
    }

    /// The unit of the wait, in seconds.
    pub closed spec fn spec_base_delay(self) -> nat {
        self.base_delay_secs as nat
    }

    /// A policy of `max_attempts` attempts with waits of
    /// `base_delay_secs`, twice that, three times that and so on; none where
    /// no attempt is allowed or the longest wait does not fit in `u64`.
    pub fn new(max_attempts: u64, base_delay_secs: u64) -> (policy: Option<RetryPolicy>)
        ensures
            policy is Some <==> max_attempts >= 1 && max_attempts * base_delay_secs <= u64::MAX,
            policy matches Some(made) ==> made.wf() && made.spec_max_attempts() == max_attempts
                && made.spec_base_delay() == base_delay_secs,
    {
        if max_attempts == 0 {
            return None;
        }
        match max_attempts.checked_mul(base_delay_secs) {
            Some(_) => Some(RetryPolicy { max_attempts, base_delay_secs }),
            None => None,
        }
    }

    pub fn max_attempts(&self) -> (count: u64)
        ensures
            count == self.spec_max_attempts(),
            self.wf(),
    {
        proof {
            use_type_invariant(self);
        }
        self.max_attempts
    }

    pub fn base_delay_secs(&self) -> (secs: u64)
        ensures
            secs == self.spec_base_delay(),
    {
        self.base_delay_secs
    }

    /// The seconds to wait after the failed attempt number `round`.
    pub fn delay_after(&self, round: u64) -> (secs: u64)
        requires
            round < self.spec_max_attempts(),
        ensures
            secs == spec_backoff_delay(round as nat, self.spec_base_delay()),
    {
        proof {
            use_type_invariant(self);
            lemma_delay_bounded(
                round as nat,
                self.max_attempts as nat,
                self.base_delay_secs as nat,
            );
        }
        (round + 1) * self.base_delay_secs
    }

    /// The number of the attempt that follows the attempt number `round`, or
    /// none where the budget is spent.
    pub fn next_round(&self, round: u64) -> (next: Option<u64>)
        requires
            round < self.spec_max_attempts(),
        ensures
            match next {
                Some(number) => number == round + 1 && number < self.spec_max_attempts(),
                None => round + 1 >= self.spec_max_attempts(),
            },
    {
        if round + 1 < self.max_attempts {
            Some(round + 1)
        } else {
            None
        }
    }
}

/// No wait within the budget is longer than the wait after the last attempt.
pub proof fn lemma_delay_bounded(round: nat, max_attempts: nat, base: nat)
    requires
        round < max_attempts,
    ensures
        spec_backoff_delay(round, base) <= max_attempts * base,
{
    assert((round + 1) * base <= max_attempts * base) by (nonlinear_arith)
        requires
            round + 1 <= max_attempts,
    ;
}

/// The waits grow: a later attempt is followed by a wait at least as long.
pub proof fn lemma_delay_grows(earlier: nat, later: nat, base: nat)
    requires
        earlier <= later,
    ensures
        spec_backoff_delay(earlier, base) <= spec_backoff_delay(later, base),
{
    assert((earlier + 1) * base <= (later + 1) * base) by (nonlinear_arith)
        requires
            earlier <= later,
    ;
}

} // verus!
