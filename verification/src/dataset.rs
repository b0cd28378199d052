//! Dataset Builder: trajectories for a half-open range of starting values,
//! with the extrema that size the chart axes.

use crate::error::CollatzError;
use crate::sequence::{collatz_run, is_trajectory, run_overflows, run_succeeds, STEP_LIMIT};
use vstd::prelude::*;

verus! {

/// The run for starting value `v` succeeds under the default safety bound.
pub open spec fn run_ok(v: u64) -> bool {
    v >= 1 && run_succeeds(v as nat, STEP_LIMIT as nat)
}

/// The error that the run for starting value `v` reports when it fails.
pub open spec fn run_error_of(v: u64) -> CollatzError {
    if v == 0 || run_overflows(v as nat, STEP_LIMIT as nat) {
        CollatzError::InvalidInput(v)
    } else {
        CollatzError::DivergenceSuspected(v)
    }
}

/// An ordered collection of trajectories, one per starting value in
/// `[start, start + trajectories.len())`, together with its extrema.
pub struct Dataset {
    /// First starting value of the range.
    pub start: u64,
    /// Trajectory `i` belongs to starting value `start + i`.
    pub trajectories: Vec<Vec<u64>>,
    /// The largest value appearing in any trajectory.
    pub max_height: u64,
    /// The largest trajectory length.
    pub max_iterations: usize,
}

impl Dataset {
    /// One past the last starting value of the range.
    pub open spec fn end_spec(self) -> int {
        self.start + self.trajectories@.len()
    }

    /// Internal invariant: every trajectory matches its starting value, and
    /// the extrema bound the data exactly (attained whenever the dataset is
    /// not empty).
    pub open spec fn wf(self) -> bool {
        &&& self.start >= 1
        &&& self.start + self.trajectories@.len() <= u64::MAX
        &&& forall|i: int|
            0 <= i < self.trajectories@.len() ==> is_trajectory(
                (#[trigger] self.trajectories@[i])@,
                (self.start + i) as nat,
            )
        &&& forall|i: int, j: int|
            0 <= i < self.trajectories@.len() && 0 <= j < self.trajectories@[i]@.len() ==> (
            #[trigger] self.trajectories@[i]@[j]) <= self.max_height
        &&& forall|i: int|
            0 <= i < self.trajectories@.len() ==> (#[trigger] self.trajectories@[i])@.len()
                <= self.max_iterations
        &&& self.trajectories@.len() > 0 ==> exists|i: int, j: int|
            0 <= i < self.trajectories@.len() && 0 <= j < self.trajectories@[i]@.len() && (
            #[trigger] self.trajectories@[i]@[j]) == self.max_height
        &&& self.trajectories@.len() > 0 ==> exists|i: int|
            0 <= i < self.trajectories@.len() && (#[trigger] self.trajectories@[i])@.len()
                == self.max_iterations
    }

    /// Number of trajectories held.
    pub fn len(&self) -> (r: usize)
        ensures
            r == self.trajectories@.len(),
    {
        self.trajectories.len()
    }

    /// One past the last starting value of the range.
    pub fn end(&self) -> (r: u64)
        requires
            self.wf(),
        ensures
            r == self.end_spec(),
    {
        self.start + self.trajectories.len() as u64
    }
}

/// The largest value in one trajectory.
pub fn trajectory_max(t: &Vec<u64>) -> (m: u64)
    requires
        t@.len() >= 1,
    ensures
        forall|j: int| 0 <= j < t@.len() ==> (#[trigger] t@[j]) <= m,
        exists|j: int| 0 <= j < t@.len() && (#[trigger] t@[j]) == m,
{
    let mut m: u64 = t[0];
    let mut j: usize = 1;
    while j < t.len()
        invariant
            1 <= j <= t@.len(),
            forall|k: int| 0 <= k < j ==> (#[trigger] t@[k]) <= m,
            exists|k: int| 0 <= k < j && (#[trigger] t@[k]) == m,
        decreases t@.len() - j,
    {
        if t[j] > m {
            m = t[j];
        }
        j = j + 1;
    }
    m
}

/// The largest value across all trajectories of a collection.
pub fn max_height(data_set: &Vec<Vec<u64>>) -> (r: u64)
    requires
        data_set@.len() >= 1,
        forall|i: int| 0 <= i < data_set@.len() ==> (#[trigger] data_set@[i])@.len() >= 1,
    ensures
        forall|i: int, j: int|
            0 <= i < data_set@.len() && 0 <= j < data_set@[i]@.len() ==> (
            #[trigger] data_set@[i]@[j]) <= r,
        exists|i: int, j: int|
            0 <= i < data_set@.len() && 0 <= j < data_set@[i]@.len() && (
            #[trigger] data_set@[i]@[j]) == r,
{
    let mut r: u64 = trajectory_max(&data_set[0]);
    let mut i: usize = 1;
    proof {
        let j0 = choose|j: int| 0 <= j < data_set@[0]@.len() && data_set@[0]@[j] == r;
        assert(data_set@[0]@[j0] == r);
    }
    while i < data_set.len()
        invariant
            1 <= i <= data_set@.len(),
            forall|a: int| 0 <= a < data_set@.len() ==> (#[trigger] data_set@[a])@.len() >= 1,
            forall|a: int, j: int|
                0 <= a < i && 0 <= j < data_set@[a]@.len() ==> (#[trigger] data_set@[a]@[j]) <= r,
            exists|a: int, j: int|
                0 <= a < i && 0 <= j < data_set@[a]@.len() && (#[trigger] data_set@[a]@[j]) == r,
        decreases data_set@.len() - i,
    {
        let tm = trajectory_max(&data_set[i]);
        if tm > r {
            r = tm;
            proof {
                let j0 = choose|j: int|
                    0 <= j < data_set@[i as int]@.len() && data_set@[i as int]@[j] == r;
                assert(data_set@[i as int]@[j0] == r);
            }
        }
        i = i + 1;
    }
    r
}

/// The largest trajectory length in a collection.
pub fn max_iterations(data_set: &Vec<Vec<u64>>) -> (r: usize)
    requires
        data_set@.len() >= 1,
    ensures
        forall|i: int| 0 <= i < data_set@.len() ==> (#[trigger] data_set@[i])@.len() <= r,
        exists|i: int| 0 <= i < data_set@.len() && (#[trigger] data_set@[i])@.len() == r,
{
    let mut r: usize = data_set[0].len();
    let mut i: usize = 1;
    while i < data_set.len()
        invariant
            1 <= i <= data_set@.len(),
            forall|a: int| 0 <= a < i ==> (#[trigger] data_set@[a])@.len() <= r,
            exists|a: int| 0 <= a < i && (#[trigger] data_set@[a])@.len() == r,
        decreases data_set@.len() - i,
    {
        let l = data_set[i].len();
        if l > r {
            r = l;
        }
        i = i + 1;
    }
    r
}

/// Builds the Dataset for the half-open range `[start, end)` in input order,
/// computing both extrema in the same pass.
///
/// All-or-nothing: the first starting value whose run fails aborts the batch,
/// and the error carries that value. An empty or inverted range is rejected
/// with `InvalidInput(start)`; a range containing 0 is rejected through the
/// run for 0.
pub fn generate_data_set(start: u64, end: u64) -> (r: Result<Dataset, CollatzError>)
    ensures
        r matches Ok(d) ==> d.wf() && d.start == start && d.trajectories@.len() == end - start,
        (r is Ok) <==> (start < end && (forall|v: u64| start <= v < end ==> #[trigger] run_ok(v))),
        end <= start ==> r == Err::<Dataset, CollatzError>(CollatzError::InvalidInput(start)),
        forall|v: u64|
            start < end && start <= v < end && !(#[trigger] run_ok(v)) && (forall|w: u64|
                start <= w < v ==> #[trigger] run_ok(w)) ==> r == Err::<Dataset, CollatzError>(
                run_error_of(v),
            ),
        r is Err && start < end ==> exists|v: u64|
            start <= v < end && !(#[trigger] run_ok(v)) && (forall|w: u64|
                start <= w < v ==> #[trigger] run_ok(w)) && r == Err::<Dataset, CollatzError>(
                run_error_of(v),
            ),
{
    if end <= start {
        return Err(CollatzError::InvalidInput(start));
    }
    let mut trajectories: Vec<Vec<u64>> = Vec::new();
    let mut max_h: u64 = 0;
    let mut max_it: usize = 0;
    let mut v: u64 = start;
    while v < end
        invariant
            start <= v <= end,
            start < end,
            trajectories@.len() == v - start,
            forall|w: u64| start <= w < v ==> #[trigger] run_ok(w),
            forall|i: int|
                0 <= i < trajectories@.len() ==> is_trajectory(
                    (#[trigger] trajectories@[i])@,
                    (start + i) as nat,
                ),
            forall|i: int, j: int|
                0 <= i < trajectories@.len() && 0 <= j < trajectories@[i]@.len() ==> (
                #[trigger] trajectories@[i]@[j]) <= max_h,
            forall|i: int|
                0 <= i < trajectories@.len() ==> (#[trigger] trajectories@[i])@.len() <= max_it,
            trajectories@.len() > 0 ==> exists|i: int, j: int|
                0 <= i < trajectories@.len() && 0 <= j < trajectories@[i]@.len() && (
                #[trigger] trajectories@[i]@[j]) == max_h,
            trajectories@.len() > 0 ==> exists|i: int|
                0 <= i < trajectories@.len() && (#[trigger] trajectories@[i])@.len() == max_it,
            trajectories@.len() == 0 ==> max_h == 0 && max_it == 0,
        decreases end - v,
    {
        let t = match collatz_run(v) {
            Ok(t) => t,
            Err(e) => {
                proof {
                    assert(!run_ok(v));
                    if e == CollatzError::InvalidInput(v) {
                        assert(run_error_of(v) == e);
                    } else {
                        assert(e == CollatzError::DivergenceSuspected(v));
                        assert(!run_overflows(v as nat, STEP_LIMIT as nat)) by {
                            if run_overflows(v as nat, STEP_LIMIT as nat) {
                                assert(Err::<Vec<u64>, CollatzError>(
                                    CollatzError::InvalidInput(v),
                                ) == Err::<Vec<u64>, CollatzError>(
                                    CollatzError::DivergenceSuspected(v),
                                ));
                            }
                        }
                        assert(run_error_of(v) == e);
                    }
                    // `v` is the least failing start: everything below it ran.
                    assert forall|x: u64|
                        start < end && start <= x < end && !(#[trigger] run_ok(x)) && (forall|
                            w: u64,
                        |
                            start <= w < x ==> #[trigger] run_ok(w)) implies x == v by {
                        if x < v {
                            assert(run_ok(x));
                        }
                        if x > v {
                            assert(run_ok(v));
                        }
                    }
                }
                return Err(e);
            },
        };
        let tm = trajectory_max(&t);
        let tl = t.len();
        let ghost pre = trajectories@;
        let ghost tview = t@;
        trajectories.push(t);
        proof {
            assert(trajectories@[pre.len() as int]@ == tview);
            assert(tview[0] >= 1 && tview[0] <= tm);
        }
        if tm > max_h {
            max_h = tm;
            proof {
                let jw = choose|j: int| 0 <= j < tview.len() && tview[j] == tm;
                assert(trajectories@[pre.len() as int]@[jw] == max_h);
            }
        } else {
            proof {
                // `tm >= 1 > 0`, so a smaller-or-equal `tm` means the old
                // witness for `max_h` exists and survives the push.
                assert(pre.len() > 0);
                let (wa, wb) = choose|a: int, b: int|
                    0 <= a < pre.len() && 0 <= b < pre[a]@.len() && pre[a]@[b] == max_h;
                assert(trajectories@[wa]@[wb] == max_h);
            }
        }
        if tl > max_it {
            max_it = tl;
            proof {
                assert(trajectories@[pre.len() as int]@.len() == max_it);
            }
        } else {
            proof {
                assert(pre.len() > 0);
                let wa = choose|a: int| 0 <= a < pre.len() && pre[a]@.len() == max_it;
                assert(trajectories@[wa]@.len() == max_it);
            }
        }
        v = v + 1;
    }
    proof {
        assert(run_ok(start));
    }
    Ok(
        Dataset {
            start,
            trajectories,
            max_height: max_h,
            max_iterations: max_it,
        },
    )
}

/// Building a dataset for the same range twice gives the same trajectories
/// and the same extrema: there is nothing nondeterministic in the pipeline.
pub proof fn lemma_dataset_deterministic(d1: Dataset, d2: Dataset)
    requires
        d1.wf(),
        d2.wf(),
        d1.start == d2.start,
        d1.trajectories@.len() == d2.trajectories@.len(),
    ensures
        forall|i: int|
            0 <= i < d1.trajectories@.len() ==> (#[trigger] d1.trajectories@[i])@
                =~= d2.trajectories@[i]@,
        d1.trajectories@.len() > 0 ==> d1.max_height == d2.max_height && d1.max_iterations
            == d2.max_iterations,
{
    assert forall|i: int| 0 <= i < d1.trajectories@.len() implies (#[trigger] d1.trajectories@[i])@
        =~= d2.trajectories@[i]@ by {
        crate::sequence::lemma_trajectory_unique(
            d1.trajectories@[i]@,
            d2.trajectories@[i]@,
            (d1.start + i) as nat,
        );
    }
    if d1.trajectories@.len() > 0 {
        let (a1, b1) = choose|a: int, b: int|
            0 <= a < d1.trajectories@.len() && 0 <= b < d1.trajectories@[a]@.len()
                && #[trigger] d1.trajectories@[a]@[b] == d1.max_height;
        assert(d2.trajectories@[a1]@[b1] == d1.max_height);
        let (a2, b2) = choose|a: int, b: int|
            0 <= a < d2.trajectories@.len() && 0 <= b < d2.trajectories@[a]@.len()
                && #[trigger] d2.trajectories@[a]@[b] == d2.max_height;
        assert(d1.trajectories@[a2]@[b2] == d2.max_height);
        let w1 = choose|a: int|
            0 <= a < d1.trajectories@.len() && (#[trigger] d1.trajectories@[a])@.len()
                == d1.max_iterations;
        assert(d2.trajectories@[w1]@.len() == d1.max_iterations);
        let w2 = choose|a: int|
            0 <= a < d2.trajectories@.len() && (#[trigger] d2.trajectories@[a])@.len()
                == d2.max_iterations;
        assert(d1.trajectories@[w2]@.len() == d2.max_iterations);
    }
}

} // verus!
