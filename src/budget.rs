//! The shared row budget: a count of rows still to be produced, consumed one
//! unit per claim by any number of concurrent producers.
use std::sync::atomic::AtomicU64;
use std::sync::atomic::Ordering;
use vstd::prelude::*;

verus! {

/// One claim step on a remaining count: a unit is taken exactly when the
/// count is positive, and the count never goes below zero.
pub open spec fn claim_step(remaining: nat) -> (bool, nat) {
    if remaining > 0 {
        (true, (remaining - 1) as nat)
    } else {
        (false, 0)
    }
}

/// The outcome of `calls` claims applied one after another to a budget of
/// `initial`: how many succeeded, and what remains.
pub open spec fn claims_in_sequence(initial: nat, calls: nat) -> (nat, nat)
    decreases calls,
{
    if calls == 0 {
        (0, initial)
    } else {
        let (granted, left) = claims_in_sequence(initial, (calls - 1) as nat);
        let (ok, after) = claim_step(left);
        (if ok { granted + 1 } else { granted }, after)
    }
}

/// The compare-and-decrement applied atomically to the counter: the new value
/// when a unit can be taken, `None` when the budget is exhausted.
pub fn take_one(remaining: u64) -> (r: Option<u64>)
    ensures
        r is Some <==> claim_step(remaining as nat).0,
        r is Some ==> r->Some_0 as nat == claim_step(remaining as nat).1,
{
    if remaining > 0 {
        Some(remaining - 1)
    } else {
        None
    }
}

/// Relies on `AtomicU64::fetch_update`: it applies the update function
/// atomically and returns `Ok(previous)` when the function gave `Some`,
/// `Err(previous)` when it gave `None`. With `take_one` as the function, `Ok`
/// means the previous value was positive and `Err` that it was zero.
#[verifier::external_body]
fn fetch_take_one(counter: &AtomicU64) -> (r: Result<u64, u64>)
    ensures
        r is Ok ==> r->Ok_0 > 0,
        r is Err ==> r->Err_0 == 0,
{
    counter.fetch_update(Ordering::SeqCst, Ordering::SeqCst, |x| take_one(x))
}

/// Rows still to be produced, shared by reference across all producers.
pub struct Budget {
    remaining: AtomicU64,
}

impl Budget {
    pub fn new(total: u64) -> (r: Budget) {
        Budget { remaining: AtomicU64::new(total) }
    }

    /// Claims one unit: `true` when the remaining count was positive and has
    /// been decremented, `false` (count untouched) when it was already zero.
    /// The test and the decrement are one atomic step, so concurrent callers
    /// never take the same last unit and the count never goes negative.
    pub fn claim(&self) -> (r: bool) {
        match fetch_take_one(&self.remaining) {
            Ok(previous) => {
                assert(claim_step(previous as nat).0);
                true
            },
            Err(previous) => {
                assert(!claim_step(previous as nat).0);
                false
            },
        }
    }

    /// The number of rows not yet claimed, as seen at this moment.
    pub fn remaining(&self) -> (r: u64) {
        self.remaining.load(Ordering::SeqCst)
    }
}

/// Rows produced so far: the initial budget less what remains.
pub fn rows_claimed(initial: u64, remaining: u64) -> (r: u64)
    requires
        remaining <= initial,
    ensures
        r == initial - remaining,
{
    initial - remaining
}

proof fn lemma_claims_in_sequence(initial: nat, calls: nat)
    ensures
        claims_in_sequence(initial, calls).0 == if calls <= initial { calls } else { initial },
        claims_in_sequence(initial, calls).1 == initial - claims_in_sequence(initial, calls).0,
    decreases calls,
{
    if calls > 0 {
        lemma_claims_in_sequence(initial, (calls - 1) as nat);
    }
}

/// A statement about the model of the counter, `claims_in_sequence`: of
/// `calls` claim steps applied one after another to a budget of `initial`,
/// exactly `min(calls, initial)` succeed, and the budget ends at
/// `initial - min(calls, initial)`, never below zero. `Budget::claim` applies
/// one such step, `take_one`, to the shared counter; that each claim is one
/// atomic step, in some order, rests on the trusted `fetch_take_one` wrapper
/// of `AtomicU64::fetch_update`.
pub proof fn law_claims_grant_min(initial: nat, calls: nat)
    ensures
        claims_in_sequence(initial, calls).0 == if calls <= initial { calls } else { initial },
        claims_in_sequence(initial, calls).1 == initial - (if calls <= initial { calls } else { initial }),
{
    lemma_claims_in_sequence(initial, calls);
}

} // verus!
