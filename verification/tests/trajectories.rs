use collatz_graph::dataset::{generate_data_set, max_height, max_iterations, trajectory_max};
use collatz_graph::error::CollatzError;
use collatz_graph::sequence::{collatz, collatz_run, collatz_run_bounded};

#[test]
fn single_step_even_halves() {
    assert_eq!(collatz(6), 3);
    assert_eq!(collatz(4), 2);
    assert_eq!(collatz(2), 1);
}

#[test]
fn single_step_odd_triples_plus_one() {
    assert_eq!(collatz(7), 22);
    assert_eq!(collatz(1), 4);
    assert_eq!(collatz(5), 16);
}

#[test]
fn run_of_one_is_single_element() {
    assert_eq!(collatz_run(1), Ok(vec![1]));
}

#[test]
fn runs_end_in_one_with_positive_elements() {
    for n in 1..200u64 {
        let v = collatz_run(n).unwrap();
        assert_eq!(*v.last().unwrap(), 1);
        assert!(v.iter().all(|&x| x >= 1));
        assert_eq!(v[0], n);
    }
}

#[test]
fn second_element_follows_recurrence() {
    for n in 2..200u64 {
        let v = collatz_run(n).unwrap();
        if n % 2 == 0 {
            assert_eq!(v[1], n / 2);
        } else {
            assert_eq!(v[1], 3 * n + 1);
        }
    }
}

#[test]
fn zero_is_rejected_deterministically() {
    assert_eq!(collatz_run(0), Err(CollatzError::InvalidInput(0)));
    assert_eq!(collatz_run(0), Err(CollatzError::InvalidInput(0)));
    assert!(matches!(
        generate_data_set(0, 5),
        Err(CollatzError::InvalidInput(0))
    ));
    assert!(matches!(
        generate_data_set(0, 5),
        Err(CollatzError::InvalidInput(0))
    ));
}

#[test]
fn overflowing_start_is_rejected() {
    // u64::MAX is odd, so the very first step would overflow.
    assert_eq!(
        collatz_run(u64::MAX),
        Err(CollatzError::InvalidInput(u64::MAX))
    );
    // Smallest value whose 3x + 1 leaves the u64 range.
    let v = 6148914691236517205u64;
    assert_eq!(collatz_run(v), Err(CollatzError::InvalidInput(v)));
    assert!(matches!(
        generate_data_set(v, v + 1),
        Err(CollatzError::InvalidInput(w)) if w == v
    ));
}

#[test]
fn tight_safety_bound_reports_divergence() {
    // The trajectory of 6 has 9 elements (8 steps); two steps are not enough.
    assert_eq!(
        collatz_run_bounded(6, 2),
        Err(CollatzError::DivergenceSuspected(6))
    );
    // The trajectory of 7 takes exactly 16 steps.
    assert!(collatz_run_bounded(7, 16).is_ok());
    assert_eq!(
        collatz_run_bounded(7, 15),
        Err(CollatzError::DivergenceSuspected(7))
    );
}

#[test]
fn inverted_and_empty_ranges_are_rejected() {
    assert!(matches!(
        generate_data_set(5, 5),
        Err(CollatzError::InvalidInput(5))
    ));
    assert!(matches!(
        generate_data_set(9, 2),
        Err(CollatzError::InvalidInput(9))
    ));
}

#[test]
fn dataset_covers_range_in_order() {
    let d = generate_data_set(2, 10).unwrap();
    assert_eq!(d.len(), 8);
    assert_eq!(d.start, 2);
    assert_eq!(d.end(), 10);
    for i in 0..8usize {
        assert_eq!(d.trajectories[i][0], 2 + i as u64);
        assert_eq!(*d.trajectories[i].last().unwrap(), 1);
    }
}

#[test]
fn extrema_bound_and_touch_the_data() {
    let d = generate_data_set(1, 10).unwrap();
    let mut seen_height = false;
    let mut seen_iterations = false;
    for t in &d.trajectories {
        assert!(t.len() <= d.max_iterations);
        if t.len() == d.max_iterations {
            seen_iterations = true;
        }
        for &x in t {
            assert!(x <= d.max_height);
            if x == d.max_height {
                seen_height = true;
            }
        }
    }
    assert!(seen_height);
    assert!(seen_iterations);
    // Known extrema of the range [1, 10): value 52 (from 7 and 9) and the
    // 20-element trajectory of 9.
    assert_eq!(d.max_height, 52);
    assert_eq!(d.max_iterations, 20);
}

#[test]
fn single_value_range_one() {
    let d = generate_data_set(1, 2).unwrap();
    assert_eq!(d.len(), 1);
    assert_eq!(d.trajectories[0], vec![1]);
    assert_eq!(d.max_height, 1);
    assert_eq!(d.max_iterations, 1);
}

#[test]
fn single_value_range_four() {
    let d = generate_data_set(4, 5).unwrap();
    assert_eq!(d.trajectories[0], vec![4, 2, 1]);
    assert_eq!(d.trajectories[0].len(), 3);
    assert_eq!(d.max_height, 4);
    assert_eq!(d.max_iterations, 3);
}

#[test]
fn single_value_range_seven() {
    let d = generate_data_set(7, 8).unwrap();
    assert_eq!(
        d.trajectories[0],
        vec![7, 22, 11, 34, 17, 52, 26, 13, 40, 20, 10, 5, 16, 8, 4, 2, 1]
    );
    assert_eq!(d.trajectories[0].len(), 17);
    assert_eq!(d.max_height, 52);
    assert_eq!(d.max_iterations, 17);
}

#[test]
fn standalone_extrema_functions() {
    let rows = vec![vec![4u64, 2, 1], vec![5, 16, 8, 4, 2, 1], vec![1]];
    assert_eq!(max_height(&rows), 16);
    assert_eq!(max_iterations(&rows), 6);
    assert_eq!(trajectory_max(&rows[1]), 16);
    assert_eq!(trajectory_max(&rows[2]), 1);
}

#[test]
fn error_kind_names() {
    assert_eq!(CollatzError::InvalidInput(3).kind_name(), "invalid input");
    assert_eq!(
        CollatzError::DivergenceSuspected(3).kind_name(),
        "divergence suspected"
    );
    assert_eq!(CollatzError::EmptyDataset.kind_name(), "empty dataset");
    assert_eq!(CollatzError::RenderFailure.kind_name(), "render failure");
}
