use hq_launcher::progress::{byte_fraction_bp, fraction_bp, overall_from_step, PROGRESS_SCALE};

#[test]
fn overall_endpoints() {
    // An unstarted first step is 0; a finished last step is 100%.
    assert_eq!(overall_from_step(1, 0, 5), 0);
    assert_eq!(overall_from_step(5, PROGRESS_SCALE, 5), PROGRESS_SCALE);
    assert_eq!(overall_from_step(1, 0, 2), 0);
    assert_eq!(overall_from_step(2, PROGRESS_SCALE, 2), PROGRESS_SCALE);
}

#[test]
fn overall_midpoints() {
    // Step 3 of 5 at half progress: (2 + 0.5) / 5 = 50%.
    assert_eq!(overall_from_step(3, 5000, 5), 5000);
    // Step 1 of 2 done: 1 / 2 = 50%.
    assert_eq!(overall_from_step(1, PROGRESS_SCALE, 2), 5000);
    // Step 2 of 2 at a quarter: (1 + 0.25) / 2 = 62.5%.
    assert_eq!(overall_from_step(2, 2500, 2), 6250);
}

#[test]
fn overall_clamps_step_and_progress() {
    // A step below 1 counts as 1; above the total, as the total.
    assert_eq!(overall_from_step(0, 0, 5), 0);
    assert_eq!(overall_from_step(9, PROGRESS_SCALE, 5), PROGRESS_SCALE);
    // Step progress above one whole step is clamped.
    assert_eq!(overall_from_step(1, 20000, 5), 2000);
}

#[test]
fn overall_is_monotonic_in_step_progress() {
    let mut last = 0;
    for sp in [0u32, 1, 100, 2500, 5000, 9999, 10000] {
        let o = overall_from_step(3, sp, 5);
        assert!(o >= last);
        last = o;
    }
}

#[test]
fn fraction_of_done_over_total() {
    assert_eq!(fraction_bp(0, 10), 0);
    assert_eq!(fraction_bp(5, 10), 5000);
    assert_eq!(fraction_bp(10, 10), PROGRESS_SCALE);
    assert_eq!(fraction_bp(20, 10), PROGRESS_SCALE);
    // An empty task counts as complete.
    assert_eq!(fraction_bp(0, 0), PROGRESS_SCALE);
    assert_eq!(fraction_bp(1, 3), 3333);
}

#[test]
fn byte_fraction_without_estimate_is_zero() {
    assert_eq!(byte_fraction_bp(500, None), 0);
    assert_eq!(byte_fraction_bp(500, Some(0)), 0);
    assert_eq!(byte_fraction_bp(50, Some(100)), 5000);
    assert_eq!(byte_fraction_bp(200, Some(100)), PROGRESS_SCALE);
}
