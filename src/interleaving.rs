use vstd::prelude::*;

use crate::address::Address;
use crate::cache::{resolve_step, CacheState};

verus! {

/// Where one caller of the claim-flag algorithm stands.
pub enum Phase {
    /// About to load the slot.
    Loading,
    /// Saw an empty slot; about to try to claim the flag.
    Claiming,
    /// Holds the flag; about to run the resolver and store its result.
    Resolving,
    /// Returned this address.
    Done(Address),
}

/// The shared slot and claim flag, with every caller's phase and the number
/// of resolver runs so far.
pub struct SharedState {
    pub slot: Option<Address>,
    pub lock: bool,
    pub resolutions: nat,
    pub callers: Seq<Phase>,
}

/// A fresh slot and `k` callers that have not started.
pub open spec fn initial(k: nat) -> SharedState {
    SharedState {
        slot: None,
        lock: false,
        resolutions: 0,
        callers: Seq::new(k, |i: int| Phase::Loading),
    }
}

/// One atomic action of caller `c`; `produced` is what the resolver yields if
/// this action runs it. A caller out of range, or one that is done, does nothing.
pub open spec fn step(s: SharedState, c: int, produced: Address) -> SharedState {
    if !(0 <= c < s.callers.len()) {
        s
    } else {
        match s.callers[c] {
            Phase::Loading => match s.slot {
                Some(a) => SharedState { callers: s.callers.update(c, Phase::Done(a)), ..s },
                None => SharedState { callers: s.callers.update(c, Phase::Claiming), ..s },
            },
            Phase::Claiming => if !s.lock {
                SharedState { lock: true, callers: s.callers.update(c, Phase::Resolving), ..s }
            } else {
                SharedState { callers: s.callers.update(c, Phase::Loading), ..s }
            },
            Phase::Resolving => SharedState {
                slot: Some(produced),
                resolutions: s.resolutions + 1,
                callers: s.callers.update(c, Phase::Done(produced)),
                ..s
            },
            Phase::Done(_) => s,
        }
    }
}

/// The state after the callers act in the order `schedule`, the resolver
/// yielding `produced[i]` if the `i`-th action runs it.
pub open spec fn run(s: SharedState, schedule: Seq<int>, produced: Seq<Address>) -> SharedState
    decreases schedule.len(),
{
    if schedule.len() == 0 || produced.len() == 0 {
        s
    } else {
        run(step(s, schedule[0], produced[0]), schedule.drop_first(), produced.drop_first())
    }
}

spec fn safe(s: SharedState) -> bool {
    &&& s.resolutions <= 1
    &&& (s.slot is None <==> s.resolutions == 0)
    &&& (s.slot is Some ==> s.lock)
    &&& forall|c: int|
        0 <= c < s.callers.len() ==> match #[trigger] s.callers[c] {
            Phase::Done(a) => s.slot == Some(a),
            Phase::Resolving => s.lock && s.slot is None,
            _ => true,
        }
    &&& forall|c: int, d: int|
        0 <= c < s.callers.len() && 0 <= d < s.callers.len() && #[trigger] s.callers[c] is Resolving
            && #[trigger] s.callers[d] is Resolving ==> c == d
}

proof fn lemma_step_safe(s: SharedState, c: int, produced: Address)
    requires
        safe(s),
    ensures
        safe(step(s, c, produced)),
        step(s, c, produced).callers.len() == s.callers.len(),
{
    let t = step(s, c, produced);
    if 0 <= c < s.callers.len() {
        assert forall|x: int| 0 <= x < t.callers.len() && x != c implies t.callers[x] == s.callers[x] by {}
    }
}

proof fn lemma_run_safe(s: SharedState, schedule: Seq<int>, produced: Seq<Address>)
    requires
        safe(s),
    ensures
        safe(run(s, schedule, produced)),
        run(s, schedule, produced).callers.len() == s.callers.len(),
    decreases schedule.len(),
{
    if schedule.len() != 0 && produced.len() != 0 {
        lemma_step_safe(s, schedule[0], produced[0]);
        lemma_run_safe(step(s, schedule[0], produced[0]), schedule.drop_first(), produced.drop_first());
    }
}

/// Any number of callers sharing one fresh claim-flag cache, interleaved in
/// any order, run the resolver at most once; as soon as any caller has
/// returned, the resolver has run exactly once, and every caller that has
/// returned saw the one stored address.
pub proof fn lemma_claim_flag_resolves_once(k: nat, schedule: Seq<int>, produced: Seq<Address>)
    ensures
        ({
            let t = run(initial(k), schedule, produced);
            &&& t.callers.len() == k
            &&& t.resolutions <= 1
            &&& forall|c: int|
                0 <= c < k && (#[trigger] t.callers[c]) is Done ==> t.slot == Some(
                    t.callers[c]->Done_0,
                ) && t.resolutions == 1
            &&& forall|c: int, d: int|
                0 <= c < k && 0 <= d < k && (#[trigger] t.callers[c]) is Done
                    && (#[trigger] t.callers[d]) is Done ==> t.callers[c]->Done_0
                    == t.callers[d]->Done_0
        }),
{
    let s = initial(k);
    assert(safe(s));
    lemma_run_safe(s, schedule, produced);
}

/// A lone caller of the claim-flag algorithm takes a memoizing cache through
/// one `resolve` step: from a state where the flag is claimed exactly when an
/// address is stored, it returns after one action if an address is stored and
/// after three otherwise, and what it returns and leaves behind is that step.
pub proof fn lemma_lone_caller_is_resolve_step(before: CacheState, produced: Address)
    ensures
        ({
            let s = SharedState {
                slot: before.slot,
                lock: before.slot is Some,
                resolutions: before.resolutions,
                callers: seq![Phase::Loading],
            };
            let n: int = if before.slot is Some { 1 } else { 3 };
            let t = run(s, Seq::new(n as nat, |i: int| 0int), Seq::new(n as nat, |i: int| produced));
            &&& t.callers[0] is Done
            &&& resolve_step(
                before,
                true,
                CacheState { slot: t.slot, resolutions: t.resolutions },
                t.callers[0]->Done_0,
            )
        }),
{
    let s = SharedState {
        slot: before.slot,
        lock: before.slot is Some,
        resolutions: before.resolutions,
        callers: seq![Phase::Loading],
    };
    let n: int = if before.slot is Some { 1 } else { 3 };
    let sched = Seq::new(n as nat, |i: int| 0int);
    let prod = Seq::new(n as nat, |i: int| produced);
    let s1 = step(s, 0, produced);
    assert(run(s, sched, prod) == run(s1, sched.drop_first(), prod.drop_first()));
    if before.slot is None {
        let s2 = step(s1, 0, produced);
        assert(run(s1, sched.drop_first(), prod.drop_first()) == run(
            s2,
            sched.drop_first().drop_first(),
            prod.drop_first().drop_first(),
        ));
        let s3 = step(s2, 0, produced);
        assert(run(s2, sched.drop_first().drop_first(), prod.drop_first().drop_first()) == run(
            s3,
            sched.drop_first().drop_first().drop_first(),
            prod.drop_first().drop_first().drop_first(),
        ));
    }
}

} // verus!
