use mandelbrot::engine::{
    compute, mandelbrot_set, mandelbrot_set_parallel, sample_at, worker_pool, ComputeError, Mode,
    SampleResult, WorkerConfig,
};
use mandelbrot::escape::{escape_time_of, SCALE};
use mandelbrot::viewport::{default_region, sample_point, Region, Resolution};

fn region(x_min: i64, x_max: i64, y_min: i64, y_max: i64) -> Region {
    Region { x_min, x_max, y_min, y_max }
}

#[test]
fn origin_reaches_cap() {
    for cap in [1u32, 2, 50, 1000] {
        assert_eq!(escape_time_of(0, 0, cap), cap);
    }
}

#[test]
fn two_plus_two_i_escapes_at_once() {
    assert_eq!(escape_time_of(2 * SCALE, 2 * SCALE, 1000), 1);
    assert_eq!(escape_time_of(3 * SCALE, 0, 1000), 1);
}

#[test]
fn one_escapes_after_three_steps() {
    // 0 -> 1 -> 2 -> 5: |2|^2 = 4 is still inside, |5|^2 is not.
    assert_eq!(escape_time_of(SCALE, 0, 1000), 3);
    assert_eq!(escape_time_of(SCALE, 0, 2), 2);
}

#[test]
fn minus_one_cycles_forever() {
    assert_eq!(escape_time_of(-SCALE, 0, 500), 500);
}

#[test]
fn zero_cap_gives_zero() {
    assert_eq!(escape_time_of(0, 0, 0), 0);
}

#[test]
fn sample_points_follow_the_grid() {
    let r = default_region();
    let res = Resolution { width: 4, height: 4 };
    let p = sample_point(&r, &res, 0);
    assert_eq!((p.px, p.py, p.re, p.im), (0, 0, -5 * SCALE / 2, -SCALE));
    let p = sample_point(&r, &res, 6);
    assert_eq!((p.px, p.py), (2, 1));
    // x: -2.5 + 3.5 * 2 / 4 = -0.75; y: -1 + 2 * 1 / 4 = -0.5
    assert_eq!(p.re, -3 * SCALE / 4);
    assert_eq!(p.im, -SCALE / 2);
}

#[test]
fn sample_at_evaluates_its_point() {
    let r = region(-2 * SCALE, 2 * SCALE, -2 * SCALE, 2 * SCALE);
    let res = Resolution { width: 4, height: 4 };
    // pixel (2, 2) samples the origin
    let s = sample_at(&r, &res, 77, 10);
    assert_eq!(s, SampleResult { px: 2, py: 2, count: 77 });
    // pixel (3, 2) samples 1 + 0i
    let s = sample_at(&r, &res, 77, 11);
    assert_eq!(s, SampleResult { px: 3, py: 2, count: 3 });
}

#[test]
fn end_to_end_four_by_four() {
    let r = region(-5 * SCALE / 2, SCALE, -SCALE, SCALE);
    let res = Resolution { width: 4, height: 4 };
    let seq = compute(&r, &res, 50, Mode::Sequential).unwrap();
    assert_eq!(seq.len(), 16);
    for (k, s) in seq.iter().enumerate() {
        assert_eq!(s.px as usize, k % 4);
        assert_eq!(s.py as usize, k / 4);
        assert!(s.count <= 50);
    }
    let par = compute(&r, &res, 50, Mode::Parallel(WorkerConfig::Count(4))).unwrap();
    assert_eq!(seq, par);
}

#[test]
fn parallel_matches_sequential() {
    let r = default_region();
    let res = Resolution { width: 37, height: 23 };
    let seq = mandelbrot_set(&r, &res, 200);
    for w in [1usize, 2, 3, 8] {
        let pool = worker_pool(WorkerConfig::Count(w)).unwrap();
        let par = mandelbrot_set_parallel(&pool, &r, &res, 200);
        assert_eq!(seq, par);
    }
    let all = compute(&r, &res, 200, Mode::Parallel(WorkerConfig::AllAvailable)).unwrap();
    assert_eq!(seq, all);
}

#[test]
fn field_covers_each_pixel_once() {
    let r = default_region();
    let res = Resolution { width: 5, height: 3 };
    let f = compute(&r, &res, 30, Mode::Sequential).unwrap();
    assert_eq!(f.len(), 15);
    let mut seen = vec![false; 15];
    for s in &f {
        assert!(s.px < 5 && s.py < 3);
        let k = (s.py * 5 + s.px) as usize;
        assert!(!seen[k]);
        seen[k] = true;
    }
    assert!(seen.iter().all(|b| *b));
}

#[test]
fn counts_stay_within_cap() {
    let r = default_region();
    let res = Resolution { width: 40, height: 30 };
    let f = compute(&r, &res, 25, Mode::Sequential).unwrap();
    assert!(f.iter().all(|s| s.count <= 25));
    assert!(f.iter().any(|s| s.count == 25));
    assert!(f.iter().any(|s| s.count < 25));
}

#[test]
fn empty_grid_is_empty() {
    let res = Resolution { width: 0, height: 0 };
    let f = compute(&default_region(), &res, 10, Mode::Sequential).unwrap();
    assert!(f.is_empty());
}

#[test]
fn refuses_inverted_region() {
    let res = Resolution { width: 4, height: 4 };
    let r = region(SCALE, -SCALE, -SCALE, SCALE);
    assert_eq!(compute(&r, &res, 10, Mode::Sequential), Err(ComputeError::InvalidRegion));
    let flat = region(-SCALE, SCALE, SCALE, SCALE);
    assert_eq!(compute(&flat, &res, 10, Mode::Sequential), Err(ComputeError::InvalidRegion));
}

#[test]
fn refuses_region_out_of_range() {
    let res = Resolution { width: 4, height: 4 };
    let r = region(i64::MIN, 0, -SCALE, SCALE);
    assert_eq!(compute(&r, &res, 10, Mode::Sequential), Err(ComputeError::InvalidRegion));
}

#[test]
fn refuses_half_empty_resolution() {
    let res = Resolution { width: 0, height: 4 };
    assert_eq!(
        compute(&default_region(), &res, 10, Mode::Sequential),
        Err(ComputeError::InvalidResolution)
    );
}

#[test]
fn refuses_zero_cap() {
    let res = Resolution { width: 4, height: 4 };
    assert_eq!(
        compute(&default_region(), &res, 0, Mode::Sequential),
        Err(ComputeError::InvalidIterationCap)
    );
}

#[test]
fn refuses_zero_workers() {
    let res = Resolution { width: 4, height: 4 };
    assert_eq!(
        compute(&default_region(), &res, 10, Mode::Parallel(WorkerConfig::Count(0))),
        Err(ComputeError::InvalidWorkerCount)
    );
    assert!(matches!(worker_pool(WorkerConfig::Count(0)), Err(ComputeError::InvalidWorkerCount)));
}

#[test]
fn region_and_resolution_checks() {
    assert!(default_region().is_valid());
    assert!(!region(0, 0, 0, 1).is_valid());
    assert!(Resolution { width: 0, height: 0 }.is_valid());
    assert!(!Resolution { width: 3, height: 0 }.is_valid());
    assert_eq!(Resolution { width: 800, height: 500 }.pixel_count_exec(), 400_000);
}

#[test]
fn escapes_never_reach_the_cap() {
    // 1 + 0i leaves the radius at its third point: with room for a fourth
    // step the count is 3, below the cap
    assert_eq!(escape_time_of(SCALE, 0, 4), 3);
    // with a cap of 3 the loop stops before looking at that point: the
    // count is the cap, the sentinel of "not escaped within the budget"
    assert_eq!(escape_time_of(SCALE, 0, 3), 3);
    assert_eq!(escape_time_of(2 * SCALE, 2 * SCALE, 2), 1);
    assert_eq!(escape_time_of(2 * SCALE, 2 * SCALE, 1), 1);
}

#[test]
fn pool_size_follows_the_request() {
    assert_eq!(mandelbrot::engine::requested_threads(WorkerConfig::Count(6)), 6);
    assert!(mandelbrot::engine::requested_threads(WorkerConfig::AllAvailable) >= 1);
    let pool = worker_pool(WorkerConfig::Count(3)).unwrap();
    assert_eq!(pool.current_num_threads(), 3);
}
