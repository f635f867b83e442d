//! Capped exponential backoff between failed connection attempts.
//!
//! The first failed attempt waits [`INITIAL_WAIT`] seconds, every further
//! failure doubles the wait, and no wait exceeds [`MAX_WAIT`] seconds. There is
//! no jitter: the sequence of waits is 1, 2, 4, 8, 16, 32, 64, 64, ...
use vstd::prelude::*;

verus! {

/// The wait, in seconds, after the first failed attempt.
pub const INITIAL_WAIT: u64 = 1;

/// The longest wait, in seconds, between two attempts.
pub const MAX_WAIT: u64 = 64;

/// The wait that follows `previous_wait`: its double, capped at [`MAX_WAIT`].
pub open spec fn spec_next_wait(previous_wait: u64) -> u64 {
    if 2 * previous_wait < MAX_WAIT {
        (2 * previous_wait) as u64
    } else {
        MAX_WAIT
    }
}

/// The wait that a failed attempt costs when `failures` attempts have failed
/// in a row before it: [`INITIAL_WAIT`] for the first failure, and for each
/// later one the wait that follows the wait of the failure before.
pub open spec fn wait_after(failures: nat) -> u64
    decreases failures,
{
    if failures == 0 {
        INITIAL_WAIT
    } else {
        spec_next_wait(wait_after((failures - 1) as nat))
    }
}

/// Two to the power of `exponent`.
pub open spec fn pow2(exponent: nat) -> nat
    decreases exponent,
{
    if exponent == 0 {
        1
    } else {
        2 * pow2((exponent - 1) as nat)
    }
}

/// Computes the wait that follows `previous_wait`.
#[verifier::when_used_as_spec(spec_next_wait)]
pub fn next_wait(previous_wait: u64) -> (wait: u64)
    ensures
        wait == spec_next_wait(previous_wait),
        wait <= MAX_WAIT,
{
    if previous_wait < MAX_WAIT / 2 {
        2 * previous_wait
    } else {
        MAX_WAIT
    }
}

/// No wait is longer than [`MAX_WAIT`], whatever the previous wait was.
pub proof fn lemma_next_wait_bounded(previous_wait: u64)
    ensures
        next_wait(previous_wait) <= MAX_WAIT,
{
}

/// A wait within the cap is never followed by a shorter one.
pub proof fn lemma_next_wait_non_decreasing(previous_wait: u64)
    requires
        previous_wait <= MAX_WAIT,
    ensures
        previous_wait <= next_wait(previous_wait),
{
}

/// A longer previous wait never gives a shorter next wait.
pub proof fn lemma_next_wait_monotone(shorter: u64, longer: u64)
    requires
        shorter <= longer,
    ensures
        next_wait(shorter) <= next_wait(longer),
{
}

/// The waits of a run of failures are 1, 2, 4, 8, 16, 32 and then 64 for ever.
pub proof fn lemma_wait_after_closed_form(failures: nat)
    ensures
        failures < 6 ==> wait_after(failures) == pow2(failures),
        failures >= 6 ==> wait_after(failures) == MAX_WAIT,
    decreases failures,
{
    reveal_with_fuel(pow2, 7);
    if failures > 0 {
        lemma_wait_after_closed_form((failures - 1) as nat);
    }
}

/// Within a run of failures every wait lies between [`INITIAL_WAIT`] and
/// [`MAX_WAIT`], and the next wait is never shorter than the current one.
pub proof fn lemma_wait_after_non_decreasing(failures: nat)
    ensures
        INITIAL_WAIT <= wait_after(failures) <= MAX_WAIT,
        wait_after(failures) <= wait_after(failures + 1),
    decreases failures,
{
    if failures > 0 {
        lemma_wait_after_non_decreasing((failures - 1) as nat);
    }
}

/// The waits of a run of failures never decrease: an earlier wait is at most
/// any later one.
pub proof fn lemma_wait_after_monotone(earlier: nat, later: nat)
    requires
        earlier <= later,
    ensures
        wait_after(earlier) <= wait_after(later),
    decreases later - earlier,
{
    if earlier < later {
        lemma_wait_after_monotone(earlier, (later - 1) as nat);
        lemma_wait_after_non_decreasing((later - 1) as nat);
    }
}

/// The backoff of one reconnection: it counts the failed attempts and holds
/// the wait that the next failure costs.
pub struct Backoff {
    wait: u64,
    failures: Ghost<nat>,
}

impl Backoff {
    /// The wait held is the one that belongs to the number of failures.
    #[verifier::type_invariant]
    spec fn wait_matches_failures(&self) -> bool {
        self.wait == wait_after(self.failures@)
    }

    /// The number of failed attempts so far.
    pub closed spec fn failures(&self) -> nat {
        self.failures@
    }

    /// A backoff with no failure yet: the next failure waits [`INITIAL_WAIT`].
    pub fn new() -> (backoff: Backoff)
        ensures
            backoff.failures() == 0,
    {
        Backoff { wait: INITIAL_WAIT, failures: Ghost(0) }
    }

    /// The wait, in seconds, that the next failed attempt costs.
    pub fn wait(&self) -> (wait: u64)
        ensures
            wait == wait_after(self.failures()),
            INITIAL_WAIT <= wait <= MAX_WAIT,
    {
        proof {
            use_type_invariant(self);
            lemma_wait_after_non_decreasing(self.failures@);
        }
        self.wait
    }

    /// Records a failed attempt. Returns the seconds to wait before the next
    /// attempt and doubles the wait for the failure after it, up to the cap.
    pub fn fail(&mut self) -> (wait: u64)
        ensures
            wait == wait_after(old(self).failures()),
            INITIAL_WAIT <= wait <= MAX_WAIT,
            final(self).failures() == old(self).failures() + 1,
    {
        proof {
            use_type_invariant(&*self);
            lemma_wait_after_non_decreasing(self.failures@);
        }
        let wait = self.wait;
        let ghost failures = self.failures@ + 1;
        *self = Backoff { wait: next_wait(wait), failures: Ghost(failures) };
        wait
    }

    /// Forgets the failures: the next failure waits [`INITIAL_WAIT`] again.
    pub fn reset(&mut self)
        ensures
            final(self).failures() == 0,
    {
        *self = Backoff::new();
    }
}

} // verus!
