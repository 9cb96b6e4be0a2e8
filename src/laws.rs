use vstd::prelude::*;

use crate::address::Address;
use crate::cache::{fresh_state, resolve_step, CacheState};

verus! {

/// The calls `results` took a cache of the given kind through `states`, one
/// `resolve` call per step.
pub open spec fn is_run(states: Seq<CacheState>, memoizes: bool, results: Seq<Address>) -> bool {
    &&& states.len() == results.len() + 1
    &&& forall|i: int|
        0 <= i < results.len() ==> resolve_step(#[trigger] states[i], memoizes, states[i + 1], results[i])
}

proof fn lemma_passthrough_prefix(states: Seq<CacheState>, results: Seq<Address>, k: int)
    requires
        is_run(states, false, results),
        states[0].slot is None,
        0 <= k < states.len(),
    ensures
        states[k].slot is None,
        states[k].resolutions == states[0].resolutions + k,
    decreases k,
{
    if k > 0 {
        lemma_passthrough_prefix(states, results, k - 1);
        assert(resolve_step(states[k - 1], false, states[k], results[k - 1]));
    }
}

/// A cache that keeps nothing runs the resolver on every call: after `n`
/// calls it has run it `n` more times, and it never holds an address.
pub proof fn lemma_passthrough_runs_every_call(states: Seq<CacheState>, results: Seq<Address>)
    requires
        is_run(states, false, results),
        states[0].slot is None,
    ensures
        states.last().resolutions == states[0].resolutions + results.len(),
        forall|i: int| 0 <= i < states.len() ==> (#[trigger] states[i]).slot is None,
{
    assert forall|i: int| 0 <= i < states.len() implies (#[trigger] states[i]).slot is None by {
        lemma_passthrough_prefix(states, results, i);
    }
    lemma_passthrough_prefix(states, results, results.len() as int);
}

proof fn lemma_memo_prefix(states: Seq<CacheState>, results: Seq<Address>, k: int)
    requires
        is_run(states, true, results),
        states[0] == fresh_state(),
        1 <= k < states.len(),
    ensures
        states[k] == (CacheState { slot: Some(results[0]), resolutions: 1 }),
        results[k - 1] == results[0],
    decreases k,
{
    if k > 1 {
        lemma_memo_prefix(states, results, k - 1);
    }
    assert(resolve_step(states[k - 1], true, states[k], results[k - 1]));
}

/// A memoizing cache used one call after another from fresh runs the
/// resolver exactly once, on the first call, and every call returns the
/// address that this first call resolved.
pub proof fn lemma_memo_resolves_once(states: Seq<CacheState>, results: Seq<Address>)
    requires
        is_run(states, true, results),
        states[0] == fresh_state(),
        results.len() >= 1,
    ensures
        states.last() == (CacheState { slot: Some(results[0]), resolutions: 1 }),
        forall|i: int| 0 <= i < results.len() ==> #[trigger] results[i] == results[0],
{
    assert forall|i: int| 0 <= i < results.len() implies #[trigger] results[i] == results[0] by {
        lemma_memo_prefix(states, results, i + 1);
    }
    lemma_memo_prefix(states, results, results.len() as int);
}

proof fn lemma_stored_prefix(states: Seq<CacheState>, memoizes: bool, results: Seq<Address>, a: Address, k: int)
    requires
        is_run(states, memoizes, results),
        states[0].slot == Some(a),
        0 <= k < states.len(),
    ensures
        states[k] == states[0],
        k >= 1 ==> results[k - 1] == a,
    decreases k,
{
    if k > 0 {
        lemma_stored_prefix(states, memoizes, results, a, k - 1);
        assert(resolve_step(states[k - 1], memoizes, states[k], results[k - 1]));
    }
}

/// Once a cache holds an address, no later call runs the resolver again or
/// changes what the cache holds, and every later call returns that address.
pub proof fn lemma_stored_address_is_final(
    states: Seq<CacheState>,
    memoizes: bool,
    results: Seq<Address>,
    a: Address,
)
    requires
        is_run(states, memoizes, results),
        states[0].slot == Some(a),
    ensures
        forall|i: int| 0 <= i < states.len() ==> #[trigger] states[i] == states[0],
        forall|i: int| 0 <= i < results.len() ==> #[trigger] results[i] == a,
{
    assert forall|i: int| 0 <= i < states.len() implies #[trigger] states[i] == states[0] by {
        lemma_stored_prefix(states, memoizes, results, a, i);
    }
    assert forall|i: int| 0 <= i < results.len() implies #[trigger] results[i] == a by {
        lemma_stored_prefix(states, memoizes, results, a, i + 1);
    }
}

} // verus!
