use vstd::prelude::*;
use std::time::{Duration, Instant};
use crate::engine::{input_error, mandelbrot_set_parallel, validate, worker_pool, ComputeError, Mode, WorkerConfig};
use crate::stats::{
    calculate_mean, calculate_standard_deviation, is_isqrt, mean_of, variance_of,
};
use crate::viewport::{default_region, default_region_spec, Region, Resolution};

verus! {

#[verifier::external_type_specification]
#[verifier::external_body]
pub struct ExInstant(std::time::Instant);

/// Width in pixels of the standard benchmark problem.
pub const BENCH_WIDTH: u32 = 800;

/// Height in pixels of the strong-scaling problem.
pub const BENCH_ROWS: u32 = 500;

/// Rows per worker of the weak-scaling problem: the height grows with the workers.
pub const ROWS_PER_WORKER: u32 = 500;

/// Iteration cap of the standard benchmark problem.
pub const BENCH_CAP: u32 = 1000;

/// Timed trials per configuration of the standard sweeps.
pub const BENCH_TRIALS: usize = 30;

/// Strong scaling keeps the problem fixed; weak scaling grows it with the workers.
#[derive(Clone, Copy, Debug, PartialEq, Eq, Structural)]
pub enum SweepKind {
    Strong,
    Weak,
}

/// One configuration of a sweep: a worker count and the grid height.
#[derive(Clone, Copy, Debug, PartialEq, Eq, Structural)]
pub struct ScheduleEntry {
    pub workers: usize,
    pub rows: u32,
}

/// Timing summary of one configuration, in microseconds.
#[derive(Clone, Copy, Debug, PartialEq, Eq, Structural)]
pub struct ScalingRecord {
    pub workers: usize,
    pub rows: u32,
    pub mean_micros: u32,
    pub stddev_micros: u32,
}

/// `rec` holds the configuration `(workers, rows)` and the mean and
/// standard deviation of the samples `times`.
pub open spec fn summarizes(rec: ScalingRecord, workers: usize, rows: u32, times: Seq<u32>) -> bool {
    &&& rec.workers == workers
    &&& rec.rows == rows
    &&& rec.mean_micros == mean_of(times)
    &&& is_isqrt(rec.stddev_micros as int, variance_of(times, mean_of(times)))
}

/// The grid height of a configuration with `workers` workers.
pub open spec fn rows_for(kind: SweepKind, workers: int, rows: int) -> int {
    match kind {
        SweepKind::Strong => rows,
        SweepKind::Weak => workers * rows,
    }
}

/// The worker counts of the standard sweeps.
pub fn benchmark_worker_counts() -> (r: Vec<usize>)
    ensures
        r@ == seq![1usize, 2, 4, 6, 8, 12, 16, 18],
{
    let r = vec![1usize, 2, 4, 6, 8, 12, 16, 18];
    assert(r@ =~= seq![1usize, 2, 4, 6, 8, 12, 16, 18]);
    r
}

/// The schedule of a sweep over `workers`. A strong sweep gives every
/// configuration `rows` rows; a weak one gives `workers * rows` rows, so that
/// each worker has `rows` rows. `None` when a height does not fit in `u32`.
pub fn scaling_schedule(kind: SweepKind, workers: &Vec<usize>, rows: u32) -> (r: Option<
    Vec<ScheduleEntry>,
>)
    ensures
        r is Some <==> forall|i: int|
            0 <= i < workers@.len() ==> rows_for(kind, #[trigger] workers@[i] as int, rows as int)
                <= u32::MAX,
        r matches Some(s) ==> s@.len() == workers@.len() && forall|i: int|
            0 <= i < workers@.len() ==> #[trigger] s@[i] == (ScheduleEntry {
                workers: workers@[i],
                rows: rows_for(kind, workers@[i] as int, rows as int) as u32,
            }),
{
    let mut out: Vec<ScheduleEntry> = Vec::new();
    let mut i: usize = 0;
    while i < workers.len()
        invariant
            i <= workers@.len(),
            out@.len() == i,
            forall|j: int|
                0 <= j < i ==> rows_for(kind, #[trigger] workers@[j] as int, rows as int)
                    <= u32::MAX,
            forall|j: int|
                0 <= j < i ==> #[trigger] out@[j] == (ScheduleEntry {
                    workers: workers@[j],
                    rows: rows_for(kind, workers@[j] as int, rows as int) as u32,
                }),
        decreases workers@.len() - i,
    {
        let w = workers[i];
        let h: u32 = match kind {
            SweepKind::Strong => rows,
            SweepKind::Weak => {
                if w > u32::MAX as usize {
                    if rows > 0 {
                        proof {
                            vstd::arithmetic::mul::lemma_mul_inequality(
                                u32::MAX as int,
                                w as int,
                                rows as int,
                            );
                        }
                        return None;
                    }
                    assert(w * rows == 0);
                    0
                } else {
                    proof {
                        vstd::arithmetic::mul::lemma_mul_upper_bound(
                            w as int,
                            u32::MAX as int,
                            rows as int,
                            u32::MAX as int,
                        );
                    }
                    let p: u64 = (w as u64) * (rows as u64);
                    if p > u32::MAX as u64 {
                        return None;
                    }
                    p as u32
                }
            },
        };
        out.push(ScheduleEntry { workers: w, rows: h });
        i = i + 1;
    }
    Some(out)
}

/// Summarizes the timing samples of one configuration.
pub fn summarize(workers: usize, rows: u32, times: &Vec<u32>) -> (r: ScalingRecord)
    ensures
        summarizes(r, workers, rows, times@),
        times@.len() <= 1 ==> r.stddev_micros == 0,
{
    let mean_micros = calculate_mean(times);
    let stddev_micros = calculate_standard_deviation(times);
    ScalingRecord { workers, rows, mean_micros, stddev_micros }
}

/// Relies on `Instant::now` for the current time.
#[verifier::external_body]
fn now() -> (r: Instant) {
    Instant::now()
}

/// Relies on `Instant::elapsed` for the time passed since `start`.
#[verifier::external_body]
fn elapsed_since(start: &Instant) -> (r: Duration) {
    start.elapsed()
}

/// Relies on `Duration::as_micros` for the whole microseconds of a duration.
#[verifier::external_body]
fn whole_micros(d: &Duration) -> (r: u128) {
    d.as_micros()
}

/// A duration in microseconds as a timing sample, saturated at `u32::MAX`.
pub fn micros_sample(micros: u128) -> (r: u32)
    ensures
        r == (if micros > u32::MAX { u32::MAX as int } else { micros as int }),
{
    if micros > u32::MAX as u128 {
        u32::MAX
    } else {
        micros as u32
    }
}

/// Times `trials` parallel computations of the field on `pool`, one sample
/// in microseconds per trial. Only the computation is timed.
pub fn run_trials(
    pool: &rayon::ThreadPool,
    region: &Region,
    res: &Resolution,
    cap: u32,
    trials: usize,
) -> (r: Vec<u32>)
    requires
        region.valid(),
        res.valid(),
    ensures
        r@.len() == trials,
{
    let mut times: Vec<u32> = Vec::new();
    let mut i: usize = 0;
    while i < trials
        invariant
            region.valid(),
            res.valid(),
            i <= trials,
            times@.len() == i,
        decreases trials - i,
    {
        let start = now();
        let _field = mandelbrot_set_parallel(pool, region, res, cap);
        let d = elapsed_since(&start);
        times.push(micros_sample(whole_micros(&d)));
        i = i + 1;
    }
    times
}

/// The inputs of the computation timed for a schedule entry.
pub open spec fn entry_error(region: Region, width: u32, cap: u32, e: ScheduleEntry) -> Option<
    ComputeError,
> {
    input_error(
        region,
        Resolution { width, height: e.rows },
        cap,
        Mode::Parallel(WorkerConfig::Count(e.workers)),
    )
}

/// What a sweep reports for entry `e`: the input error, if any; otherwise
/// either a refused pool or the summary of `trials` samples.
pub open spec fn entry_outcome(
    region: Region,
    width: u32,
    cap: u32,
    trials: usize,
    e: ScheduleEntry,
    o: Result<ScalingRecord, ComputeError>,
) -> bool {
    match entry_error(region, width, cap, e) {
        Some(err) => o == Err::<ScalingRecord, ComputeError>(err),
        None => o == Err::<ScalingRecord, ComputeError>(ComputeError::PoolUnavailable) || (
        o matches Ok(rec) && exists|t: Seq<u32>|
            t.len() == trials && summarizes(rec, e.workers, e.rows, t)),
    }
}

/// Runs a scaling sweep: for each schedule entry, `trials` timed parallel
/// computations of a `width` by `rows` grid over `region` on a pool of that
/// entry's workers, summarized as one record. An entry whose inputs are
/// refused, or whose pool the host cannot provide, gets its error and the
/// sweep goes on with the next entry.
pub fn run_sweep(
    schedule: &Vec<ScheduleEntry>,
    region: &Region,
    width: u32,
    cap: u32,
    trials: usize,
) -> (r: Vec<Result<ScalingRecord, ComputeError>>)
    ensures
        r@.len() == schedule@.len(),
        forall|i: int|
            0 <= i < schedule@.len() ==> entry_outcome(
                *region,
                width,
                cap,
                trials,
                schedule@[i],
                #[trigger] r@[i],
            ),
{
    let mut out: Vec<Result<ScalingRecord, ComputeError>> = Vec::new();
    let mut i: usize = 0;
    while i < schedule.len()
        invariant
            i <= schedule@.len(),
            out@.len() == i,
            forall|j: int|
                0 <= j < i ==> entry_outcome(
                    *region,
                    width,
                    cap,
                    trials,
                    schedule@[j],
                    #[trigger] out@[j],
                ),
        decreases schedule@.len() - i,
    {
        let e = schedule[i];
        let res = Resolution { width, height: e.rows };
        let mode = Mode::Parallel(WorkerConfig::Count(e.workers));
        let outcome: Result<ScalingRecord, ComputeError> = match validate(region, &res, cap, mode) {
            Some(err) => Err(err),
            None => {
                match worker_pool(WorkerConfig::Count(e.workers)) {
                    Err(_) => Err(ComputeError::PoolUnavailable),
                    Ok(pool) => {
                        let times = run_trials(&pool, region, &res, cap, trials);
                        let rec = summarize(e.workers, e.rows, &times);
                        assert(times@.len() == trials && summarizes(rec, e.workers, e.rows, times@));
                        Ok(rec)
                    },
                }
            },
        };
        out.push(outcome);
        i = i + 1;
    }
    out
}

/// The standard strong-scaling sweep: an 800 by 500 grid of the default
/// region with cap 1000, 30 trials at each of the benchmark worker counts.
pub fn strong_scale() -> (r: Vec<Result<ScalingRecord, ComputeError>>)
    ensures
        r@.len() == 8,
        forall|i: int|
            0 <= i < 8 ==> entry_outcome(
                default_region_spec(),
                BENCH_WIDTH,
                BENCH_CAP,
                BENCH_TRIALS,
                ScheduleEntry { workers: seq![1usize, 2, 4, 6, 8, 12, 16, 18][i], rows: BENCH_ROWS },
                #[trigger] r@[i],
            ),
{
    let workers = benchmark_worker_counts();
    let schedule = scaling_schedule(SweepKind::Strong, &workers, BENCH_ROWS);
    let s = schedule.unwrap();
    run_sweep(&s, &default_region(), BENCH_WIDTH, BENCH_CAP, BENCH_TRIALS)
}

/// The standard weak-scaling sweep: an 800-pixel-wide grid of the default
/// region with cap 1000 and 500 rows per worker, 30 trials at each of the
/// benchmark worker counts.
pub fn weak_scale() -> (r: Vec<Result<ScalingRecord, ComputeError>>)
    ensures
        r@.len() == 8,
        forall|i: int|
            0 <= i < 8 ==> entry_outcome(
                default_region_spec(),
                BENCH_WIDTH,
                BENCH_CAP,
                BENCH_TRIALS,
                ScheduleEntry {
                    workers: seq![1usize, 2, 4, 6, 8, 12, 16, 18][i],
                    rows: (seq![1usize, 2, 4, 6, 8, 12, 16, 18][i] * ROWS_PER_WORKER) as u32,
                },
                #[trigger] r@[i],
            ),
{
    let workers = benchmark_worker_counts();
    let schedule = scaling_schedule(SweepKind::Weak, &workers, ROWS_PER_WORKER);
    let s = schedule.unwrap();
    run_sweep(&s, &default_region(), BENCH_WIDTH, BENCH_CAP, BENCH_TRIALS)
}

} // verus!
