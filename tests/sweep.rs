use mandelbrot::engine::ComputeError;
use mandelbrot::escape::SCALE;
use mandelbrot::scaling::{
    micros_sample, benchmark_worker_counts, run_sweep, scaling_schedule, summarize, ScheduleEntry,
    SweepKind,
};
use mandelbrot::viewport::{default_region, Region};

#[test]
fn benchmark_workers() {
    assert_eq!(benchmark_worker_counts(), vec![1, 2, 4, 6, 8, 12, 16, 18]);
}

#[test]
fn strong_schedule_keeps_rows() {
    let s = scaling_schedule(SweepKind::Strong, &vec![1, 2, 4], 500).unwrap();
    assert_eq!(
        s,
        vec![
            ScheduleEntry { workers: 1, rows: 500 },
            ScheduleEntry { workers: 2, rows: 500 },
            ScheduleEntry { workers: 4, rows: 500 },
        ]
    );
}

#[test]
fn weak_schedule_grows_rows() {
    let s = scaling_schedule(SweepKind::Weak, &benchmark_worker_counts(), 500).unwrap();
    let rows: Vec<u32> = s.iter().map(|e| e.rows).collect();
    assert_eq!(rows, vec![500, 1000, 2000, 3000, 4000, 6000, 8000, 9000]);
}

#[test]
fn weak_schedule_overflow() {
    assert_eq!(scaling_schedule(SweepKind::Weak, &vec![1, 3], u32::MAX / 2), None);
    assert!(scaling_schedule(SweepKind::Weak, &vec![1, 2], u32::MAX / 2).is_some());
}

#[test]
fn summary_of_samples() {
    let r = summarize(4, 100, &vec![10, 20, 30]);
    assert_eq!((r.workers, r.rows, r.mean_micros, r.stddev_micros), (4, 100, 20, 8));
    let one = summarize(1, 100, &vec![77]);
    assert_eq!((one.mean_micros, one.stddev_micros), (77, 0));
}

#[test]
fn micros_saturate() {
    assert_eq!(micros_sample(12), 12);
    assert_eq!(micros_sample(u128::MAX), u32::MAX);
}

#[test]
fn sweep_records_every_configuration() {
    let schedule = scaling_schedule(SweepKind::Strong, &vec![1, 2, 4], 60).unwrap();
    let records = run_sweep(&schedule, &default_region(), 80, 100, 3);
    assert_eq!(records.len(), 3);
    for (e, r) in schedule.iter().zip(records.iter()) {
        let rec = r.as_ref().unwrap();
        assert_eq!((rec.workers, rec.rows), (e.workers, e.rows));
    }
    let first = records[0].as_ref().unwrap().mean_micros;
    let last = records[2].as_ref().unwrap().mean_micros;
    if first < last {
        println!("one worker ({} us) was faster than four ({} us)", first, last);
    }
}

#[test]
fn sweep_skips_refused_entries() {
    let schedule = vec![
        ScheduleEntry { workers: 0, rows: 10 },
        ScheduleEntry { workers: 2, rows: 10 },
    ];
    let records = run_sweep(&schedule, &default_region(), 10, 20, 1);
    assert_eq!(records[0], Err(ComputeError::InvalidWorkerCount));
    let rec = records[1].unwrap();
    assert_eq!((rec.workers, rec.rows, rec.stddev_micros), (2, 10, 0));
    let bad = Region { x_min: SCALE, x_max: 0, y_min: 0, y_max: SCALE };
    let records = run_sweep(&schedule, &bad, 10, 20, 1);
    assert_eq!(records[1], Err(ComputeError::InvalidRegion));
}
