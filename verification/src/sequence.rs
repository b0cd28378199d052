//! Sequence Generator: one Collatz trajectory from a starting value down to 1.

use crate::error::CollatzError;
use vstd::prelude::*;

verus! {

/// Safety bound on trajectory length: a run that has not reached 1 after this
/// many steps is reported as `DivergenceSuspected` instead of looping on.
pub const STEP_LIMIT: usize = 100000;

/// One application of the Collatz recurrence.
pub open spec fn collatz_step(x: nat) -> nat {
    if x % 2 == 0 {
        x / 2
    } else {
        3 * x + 1
    }
}

/// The value after `k` applications of the recurrence to `n`.
pub open spec fn iterate(n: nat, k: nat) -> nat
    decreases k,
{
    if k == 0 {
        n
    } else {
        collatz_step(iterate(n, (k - 1) as nat))
    }
}

/// `s` is the complete Collatz trajectory of `n`: it starts at `n`, follows
/// the recurrence, stops at the first 1, and holds only positive values.
pub open spec fn is_trajectory(s: Seq<u64>, n: nat) -> bool {
    &&& s.len() >= 1
    &&& s[0] as nat == n
    &&& s[s.len() - 1] == 1u64
    &&& forall|i: int| 0 <= i < s.len() - 1 ==> (#[trigger] s[i]) as nat != 1
    &&& forall|i: int| 0 <= i < s.len() - 1 ==> s[i + 1] as nat == collatz_step(
        (#[trigger] s[i]) as nat,
    )
    &&& forall|i: int| 0 <= i < s.len() ==> (#[trigger] s[i]) >= 1u64
}

/// The orbit of `n` reaches 1 within `b` steps, every value on the way
/// representable as a `u64`.
pub open spec fn run_succeeds(n: nat, b: nat) -> bool {
    exists|k: nat|
        k <= b && #[trigger] iterate(n, k) == 1 && (forall|j: nat|
            j <= k ==> #[trigger] iterate(n, j) <= u64::MAX)
}

/// Before reaching 1 and within `b` steps, the orbit of `n` leaves the `u64`
/// range (an odd value whose `3x + 1` exceeds `u64::MAX`).
pub open spec fn run_overflows(n: nat, b: nat) -> bool {
    exists|j: nat|
        j < b && #[trigger] iterate(n, j + 1) > u64::MAX && (forall|i: nat|
            i <= j ==> #[trigger] iterate(n, i) != 1 && iterate(n, i) <= u64::MAX)
}

/// For `b` whole steps the orbit of `n` stays inside the `u64` range without
/// ever reaching 1.
pub open spec fn run_diverges(n: nat, b: nat) -> bool {
    forall|j: nat| j <= b ==> #[trigger] iterate(n, j) != 1 && iterate(n, j) <= u64::MAX
}

/// One Collatz step on a machine integer.
pub fn collatz(input: u64) -> (r: u64)
    requires
        input % 2 == 1 ==> 3 * input + 1 <= u64::MAX,
    ensures
        r as nat == collatz_step(input as nat),
{
    if input % 2 == 0 {
        input / 2
    } else {
        input * 3 + 1
    }
}

/// The Collatz trajectory of `input`, cut off by the `limit` safety bound.
///
/// Exactly one of three outcomes, each pinned to its inputs:
/// - `Ok(v)`: `input >= 1` and the orbit reaches 1 within `limit` steps with
///   every value in `u64` range; `v` is the full trajectory.
/// - `Err(InvalidInput(input))`: `input == 0`, or `3x + 1` would overflow
///   `u64` before the orbit reaches 1 (rejected, never wrapped).
/// - `Err(DivergenceSuspected(input))`: the orbit stays in range but has not
///   reached 1 after `limit` steps.
pub fn collatz_run_bounded(input: u64, limit: usize) -> (result: Result<Vec<u64>, CollatzError>)
    ensures
        result matches Ok(v) ==> is_trajectory(v@, input as nat) && v@.len() <= limit + 1,
        (result is Ok) <==> (input >= 1 && run_succeeds(input as nat, limit as nat)),
        (result == Err::<Vec<u64>, CollatzError>(CollatzError::InvalidInput(input))) <==> (input
            == 0 || run_overflows(input as nat, limit as nat)),
        (result == Err::<Vec<u64>, CollatzError>(CollatzError::DivergenceSuspected(input))) <==> (
        input >= 1 && run_diverges(input as nat, limit as nat)),
        result is Err ==> result == Err::<Vec<u64>, CollatzError>(CollatzError::InvalidInput(input))
            || result == Err::<Vec<u64>, CollatzError>(CollatzError::DivergenceSuspected(input)),
{
    if input == 0 {
        proof {
            assert forall|j: nat| #[trigger] iterate(0, j) == 0 by {
                lemma_iterate_zero(j);
            }
            assert(!run_succeeds(0, limit as nat));
            assert(!run_overflows(0, limit as nat));
        }
        return Err(CollatzError::InvalidInput(input));
    }
    let mut output: Vec<u64> = Vec::new();
    output.push(input);
    let mut cur: u64 = input;
    let mut steps: usize = 0;
    while cur > 1
        invariant
            1 <= input,
            1 <= cur,
            steps <= limit,
            cur as nat == iterate(input as nat, steps as nat),
            output@.len() == steps + 1,
            forall|j: int|
                0 <= j <= steps ==> (#[trigger] output@[j]) as nat == iterate(
                    input as nat,
                    j as nat,
                ),
            forall|j: int| 0 <= j < steps ==> (#[trigger] output@[j]) != 1u64,
            forall|j: int| 0 <= j <= steps ==> (#[trigger] output@[j]) >= 1u64,
        decreases limit - steps,
    {
        if steps >= limit {
            // Safety bound hit: the whole bounded orbit stayed in range and
            // never reached 1.
            proof {
                assert forall|j: nat| j <= limit as nat implies #[trigger] iterate(
                    input as nat,
                    j,
                ) != 1 && iterate(input as nat, j) <= u64::MAX by {
                    assert(iterate(input as nat, j) == output@[j as int]);
                    if j < limit as nat {
                        assert(output@[j as int] != 1u64);
                    } else {
                        assert(output@[j as int] == cur && cur > 1);
                    }
                }
                assert(run_diverges(input as nat, limit as nat));
                assert(!run_succeeds(input as nat, limit as nat));
                assert(!run_overflows(input as nat, limit as nat));
            }
            return Err(CollatzError::DivergenceSuspected(input));
        }
        let next: u64;
        if cur % 2 == 0 {
            next = cur / 2;
        } else {
            if cur > (u64::MAX - 1) / 3 {
                // The 3x + 1 step would leave the u64 range: reject.
                proof {
                    let s = steps as nat;
                    assert(iterate(input as nat, s + 1) == collatz_step(cur as nat));
                    assert(collatz_step(cur as nat) == 3 * (cur as nat) + 1);
                    assert(3 * (cur as nat) + 1 > u64::MAX);
                    assert forall|i: nat| i <= s implies #[trigger] iterate(input as nat, i) != 1
                        && iterate(input as nat, i) <= u64::MAX by {
                        assert(iterate(input as nat, i) == output@[i as int]);
                        if i < s {
                            assert(output@[i as int] != 1u64);
                        } else {
                            assert(output@[i as int] == cur && cur > 1);
                        }
                    }
                    assert(s < limit as nat && iterate(input as nat, s + 1) > u64::MAX);
                    assert(run_overflows(input as nat, limit as nat));
                    assert forall|k: nat|
                        k <= limit as nat && #[trigger] iterate(input as nat, k)
                            == 1 implies !(forall|j: nat|
                        j <= k ==> #[trigger] iterate(input as nat, j) <= u64::MAX) by {
                        assert(k > s) by {
                            if k <= s {
                                assert(iterate(input as nat, k) != 1);
                            }
                        }
                        assert(s + 1 <= k && iterate(input as nat, s + 1) > u64::MAX);
                    }
                    assert(!run_succeeds(input as nat, limit as nat));
                    assert(!run_diverges(input as nat, limit as nat)) by {
                        assert(s + 1 <= limit as nat && iterate(input as nat, s + 1) > u64::MAX);
                    }
                }
                return Err(CollatzError::InvalidInput(input));
            }
            assert(3 * cur + 1 <= u64::MAX);
            next = cur * 3 + 1;
        }
        proof {
            assert(next as nat == collatz_step(cur as nat));
            assert(iterate(input as nat, (steps + 1) as nat) == collatz_step(
                iterate(input as nat, steps as nat),
            ));
        }
        cur = next;
        output.push(cur);
        steps = steps + 1;
    }
    proof {
        let s = steps as nat;
        assert(cur == 1 && iterate(input as nat, s) == 1);
        assert forall|j: nat| j <= s implies #[trigger] iterate(input as nat, j) <= u64::MAX by {
            assert(iterate(input as nat, j) == output@[j as int]);
        }
        assert(run_succeeds(input as nat, limit as nat));
        assert(is_trajectory(output@, input as nat)) by {
            assert(output@[output@.len() - 1] == 1u64);
            assert forall|i: int| 0 <= i < output@.len() - 1 implies output@[i + 1] as nat
                == collatz_step((#[trigger] output@[i]) as nat) by {
                assert(output@[i] as nat == iterate(input as nat, i as nat));
                assert(output@[i + 1] as nat == iterate(input as nat, (i + 1) as nat));
                assert(iterate(input as nat, (i + 1) as nat) == collatz_step(
                    iterate(input as nat, i as nat),
                ));
            }
        }
        assert(!run_overflows(input as nat, limit as nat)) by {
            assert forall|j: nat|
                j < limit as nat && #[trigger] iterate(input as nat, j + 1)
                    > u64::MAX implies !(forall|i: nat|
                i <= j ==> #[trigger] iterate(input as nat, i) != 1 && iterate(input as nat, i)
                    <= u64::MAX) by {
                assert(j + 1 > s) by {
                    if j + 1 <= s {
                        assert(iterate(input as nat, j + 1) <= u64::MAX);
                    }
                }
                assert(s <= j && iterate(input as nat, s) == 1);
            }
        }
        assert(!run_diverges(input as nat, limit as nat)) by {
            assert(s <= limit as nat && iterate(input as nat, s) == 1);
        }
    }
    Ok(output)
}

/// The Collatz trajectory of `input` under the library's default safety
/// bound, `STEP_LIMIT`.
pub fn collatz_run(input: u64) -> (result: Result<Vec<u64>, CollatzError>)
    ensures
        result matches Ok(v) ==> is_trajectory(v@, input as nat) && v@.len() <= STEP_LIMIT + 1,
        (result is Ok) <==> (input >= 1 && run_succeeds(input as nat, STEP_LIMIT as nat)),
        (result == Err::<Vec<u64>, CollatzError>(CollatzError::InvalidInput(input))) <==> (input
            == 0 || run_overflows(input as nat, STEP_LIMIT as nat)),
        (result == Err::<Vec<u64>, CollatzError>(CollatzError::DivergenceSuspected(input))) <==> (
        input >= 1 && run_diverges(input as nat, STEP_LIMIT as nat)),
        result is Err ==> result == Err::<Vec<u64>, CollatzError>(CollatzError::InvalidInput(input))
            || result == Err::<Vec<u64>, CollatzError>(CollatzError::DivergenceSuspected(input)),
{
    collatz_run_bounded(input, STEP_LIMIT)
}

/// The orbit of 0 is constantly 0.
proof fn lemma_iterate_zero(k: nat)
    ensures
        iterate(0, k) == 0,
    decreases k,
{
    if k > 0 {
        lemma_iterate_zero((k - 1) as nat);
    }
}

/// Matching prefixes: two trajectories of the same start agree at every
/// index both of them have.
proof fn lemma_trajectory_prefix(s1: Seq<u64>, s2: Seq<u64>, n: nat, i: int)
    requires
        is_trajectory(s1, n),
        is_trajectory(s2, n),
        0 <= i < s1.len(),
        i < s2.len(),
    ensures
        s1[i] == s2[i],
    decreases i,
{
    if i > 0 {
        lemma_trajectory_prefix(s1, s2, n, i - 1);
    }
}

/// The trajectory of a starting value is unique: the recurrence and the
/// stop-at-first-1 rule leave no freedom, so recomputing a start can never
/// give a different sequence.
pub proof fn lemma_trajectory_unique(s1: Seq<u64>, s2: Seq<u64>, n: nat)
    requires
        is_trajectory(s1, n),
        is_trajectory(s2, n),
    ensures
        s1 =~= s2,
{
    if s1.len() < s2.len() {
        lemma_trajectory_prefix(s1, s2, n, s1.len() - 1);
        assert(s2[s1.len() - 1] as nat != 1);
    }
    if s2.len() < s1.len() {
        lemma_trajectory_prefix(s1, s2, n, s2.len() - 1);
        assert(s1[s2.len() - 1] as nat != 1);
    }
    assert forall|i: int| 0 <= i < s1.len() implies s1[i] == s2[i] by {
        lemma_trajectory_prefix(s1, s2, n, i);
    }
}

/// A trajectory of 1 is exactly the one-element sequence `[1]`.
pub proof fn lemma_trajectory_of_one(s: Seq<u64>)
    requires
        is_trajectory(s, 1),
    ensures
        s =~= seq![1u64],
{
    if s.len() > 1 {
        assert(s[0] as nat != 1);
    }
}

/// For a start above 1 the trajectory has a second element, and it is `n / 2`
/// for even `n` and `3n + 1` for odd `n`.
pub proof fn lemma_trajectory_second_element(s: Seq<u64>, n: nat)
    requires
        is_trajectory(s, n),
        n > 1,
    ensures
        s.len() >= 2,
        n % 2 == 0 ==> s[1] as nat == n / 2,
        n % 2 == 1 ==> s[1] as nat == 3 * n + 1,
{
    assert(s.len() >= 2) by {
        if s.len() == 1 {
            assert(s[0] == 1u64);
        }
    }
    assert(s[1] as nat == collatz_step(s[0] as nat));
}

} // verus!
