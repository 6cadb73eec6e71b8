//! The process-wide cold-start flag, the transition it makes on each request,
//! and what a whole run of requests observes.

use vstd::prelude::*;

verus! {

/// One process-wide flag: `true` while the process has not yet served a
/// request ("cold"), `false` forever after ("warm").
pub struct ColdStartFlag {
    is_cold: bool,
}

/// The flag value left behind by one request: serving a request always leaves
/// the process warm, whatever it found.
pub open spec fn next_cold(cold: bool) -> bool {
    false
}

/// The flag value of a fresh process after `n` requests have been served.
pub open spec fn cold_after(n: nat) -> bool
    decreases n,
{
    if n == 0 {
        true
    } else {
        next_cold(cold_after((n - 1) as nat))
    }
}

/// The flag values observed by the first `n` requests of a fresh process, in
/// the order in which their critical sections ran: request `i` observes the
/// flag as the `i` requests before it left it.
pub open spec fn observed_seq(n: nat) -> Seq<bool>
    decreases n,
{
    if n == 0 {
        Seq::empty()
    } else {
        observed_seq((n - 1) as nat).push(cold_after((n - 1) as nat))
    }
}

/// How many entries of `s` are `true`.
pub open spec fn count_true(s: Seq<bool>) -> nat
    decreases s.len(),
{
    if s.len() == 0 {
        0
    } else {
        count_true(s.drop_last()) + if s.last() {
            1nat
        } else {
            0nat
        }
    }
}

impl ColdStartFlag {
    /// Whether the process is still cold.
    pub closed spec fn cold(self) -> bool {
        self.is_cold
    }

    /// A fresh process instance starts cold.
    pub fn new() -> (flag: Self)
        ensures
            flag.cold(),
    {
        ColdStartFlag { is_cold: true }
    }

    /// The critical section of one request: read the flag, leave the process
    /// warm, and report the value that was read.
    pub fn observe_and_warm(&mut self) -> (was_cold: bool)
        ensures
            was_cold == old(self).cold(),
            final(self).cold() == next_cold(old(self).cold()),
    {
        let was_cold = self.is_cold;
        self.is_cold = false;
        was_cold
    }
}

/// Once warm, always warm: every request after the first observes the process
/// warm, however many requests went before it.
pub proof fn lemma_stays_warm(i: nat)
    requires
        i >= 1,
    ensures
        !cold_after(i),
{
}

/// The position in the serialization order alone decides what a request
/// observes: of `n` requests against a fresh process, request `i` observes
/// `true` exactly when it is the first.
pub proof fn lemma_observed_values(n: nat)
    ensures
        observed_seq(n).len() == n,
        forall|i: int| 0 <= i < n ==> observed_seq(n)[i] == (i == 0),
    decreases n,
{
    if n > 0 {
        lemma_observed_values((n - 1) as nat);
    }
}

/// Of `n` requests (`n >= 1`) that serialize on the lock of a fresh process,
/// exactly one observes `true`; the other `n - 1` observe `false`.
pub proof fn lemma_exactly_one_cold_observation(n: nat)
    requires
        n >= 1,
    ensures
        count_true(observed_seq(n)) == 1,
    decreases n,
{
    let m = (n - 1) as nat;
    assert(observed_seq(n).drop_last() =~= observed_seq(m));
    if n == 1 {
        assert(count_true(observed_seq(0)) == 0);
    } else {
        lemma_exactly_one_cold_observation(m);
        lemma_stays_warm(m);
    }
}

} // verus!
