use vstd::prelude::*;
use rayon::iter::{IndexedParallelIterator, IntoParallelIterator, ParallelIterator};
use crate::escape::{escape_time, escape_time_of};
use crate::viewport::{
    lemma_pixel_in_grid, pixel_x, pixel_y, point_im, point_re, sample_point, Region, Resolution,
};

verus! {

#[verifier::external_type_specification]
#[verifier::external_body]
pub struct ExThreadPool(rayon::ThreadPool);

#[verifier::external_type_specification]
#[verifier::external_body]
pub struct ExThreadPoolBuildError(rayon::ThreadPoolBuildError);

/// The outcome for one pixel: its column, its row and its escape time.
#[derive(Clone, Copy, Debug, PartialEq, Eq, Structural)]
pub struct SampleResult {
    pub px: u32,
    pub py: u32,
    pub count: u32,
}

/// Why a computation was refused before it began, or could not run.
#[derive(Clone, Copy, Debug, PartialEq, Eq, Structural)]
pub enum ComputeError {
    InvalidRegion,
    InvalidResolution,
    InvalidIterationCap,
    InvalidWorkerCount,
    /// The host could not provide a worker pool of the requested size.
    PoolUnavailable,
}

/// How many workers a parallel computation uses.
#[derive(Clone, Copy, Debug, PartialEq, Eq, Structural)]
pub enum WorkerConfig {
    /// One worker per logical CPU of the host.
    AllAvailable,
    Count(usize),
}

/// How a field is computed.
#[derive(Clone, Copy, Debug, PartialEq, Eq, Structural)]
pub enum Mode {
    Sequential,
    Parallel(WorkerConfig),
}

/// The result for the pixel with row-major flat index `k`.
pub open spec fn expected_sample(region: Region, res: Resolution, cap: u32, k: int) -> SampleResult {
    let px = pixel_x(res, k);
    let py = pixel_y(res, k);
    SampleResult {
        px: px as u32,
        py: py as u32,
        count: escape_time(point_re(region, res, px), point_im(region, res, py), cap as nat) as u32,
    }
}

/// The whole field: one result per pixel, in row-major flat-index order.
pub open spec fn field(region: Region, res: Resolution, cap: u32) -> Seq<SampleResult> {
    Seq::new(res.pixel_count(), |k: int| expected_sample(region, res, cap, k))
}

/// Evaluates the pixel with flat index `k`.
pub fn sample_at(region: &Region, res: &Resolution, cap: u32, k: usize) -> (r: SampleResult)
    requires
        region.valid(),
        res.valid(),
        k < res.pixel_count(),
    ensures
        r == expected_sample(*region, *res, cap, k as int),
        r.count <= cap,
{
    let p = sample_point(region, res, k);
    let count = escape_time_of(p.re, p.im, cap);
    SampleResult { px: p.px, py: p.py, count }
}

/// Computes the field on the current thread, pixel by pixel in flat-index order.
pub fn mandelbrot_set(region: &Region, res: &Resolution, cap: u32) -> (r: Vec<SampleResult>)
    requires
        region.valid(),
        res.valid(),
    ensures
        r@ == field(*region, *res, cap),
{
    let n = res.pixel_count_exec();
    let mut out: Vec<SampleResult> = Vec::with_capacity(n);
    let mut k: usize = 0;
    while k < n
        invariant
            region.valid(),
            res.valid(),
            n == res.pixel_count(),
            k <= n,
            out@ =~= field(*region, *res, cap).take(k as int),
        decreases n - k,
    {
        let s = sample_at(region, res, cap, k);
        out.push(s);
        k = k + 1;
    }
    assert(field(*region, *res, cap).take(n as int) =~= field(*region, *res, cap));
    out
}

/// Relies on rayon's `ThreadPoolBuilder::num_threads` and `ThreadPoolBuilder::build`
/// to create a pool of at most `workers` threads; the host may refuse.
#[verifier::external_body]
fn build_pool(workers: usize) -> (r: Result<rayon::ThreadPool, rayon::ThreadPoolBuildError>) {
    rayon::ThreadPoolBuilder::new().num_threads(workers).build()
}

/// Relies on `num_cpus::get`, which always returns at least 1.
#[verifier::external_body]
fn logical_cpus() -> (r: usize)
    ensures
        r >= 1,
{
    num_cpus::get()
}

/// Relies on rayon's `ThreadPool::install`, which runs the operation inside the pool
/// and returns its result, and on `IndexedParallelIterator::collect_into_vec`, which
/// stores the item for index `k` of the range `0..n` at position `k`. Each item is
/// `sample_at` of its index.
#[verifier::external_body]
fn par_samples(
    pool: &rayon::ThreadPool,
    region: &Region,
    res: &Resolution,
    cap: u32,
    n: usize,
) -> (r: Vec<SampleResult>)
    requires
        region.valid(),
        res.valid(),
        n == res.pixel_count(),
    ensures
        r@ == field(*region, *res, cap),
{
    pool.install(|| {
        let mut out: Vec<SampleResult> = Vec::new();
        (0..n).into_par_iter().map(|k| sample_at(region, res, cap, k)).collect_into_vec(&mut out);
        out
    })
}

/// The number of threads asked of the pool for `workers`: the count itself,
/// or one per logical CPU of the host.
pub fn requested_threads(workers: WorkerConfig) -> (r: usize)
    ensures
        workers matches WorkerConfig::Count(c) ==> r == c,
        workers is AllAvailable ==> r >= 1,
{
    match workers {
        WorkerConfig::AllAvailable => logical_cpus(),
        WorkerConfig::Count(c) => c,
    }
}

/// A worker pool scoped to the caller: `Count(0)` is refused, `AllAvailable`
/// asks for one worker per logical CPU.
pub fn worker_pool(workers: WorkerConfig) -> (r: Result<rayon::ThreadPool, ComputeError>)
    ensures
        workers == WorkerConfig::Count(0) ==> r == Err::<rayon::ThreadPool, ComputeError>(
            ComputeError::InvalidWorkerCount,
        ),
        workers != WorkerConfig::Count(0) ==> (r is Ok || r == Err::<rayon::ThreadPool, ComputeError>(
            ComputeError::PoolUnavailable,
        )),
{
    let n: usize = requested_threads(workers);
    if n == 0 {
        return Err(ComputeError::InvalidWorkerCount);
    }
    match build_pool(n) {
        Ok(pool) => Ok(pool),
        Err(_) => Err(ComputeError::PoolUnavailable),
    }
}

/// Computes the field on the workers of `pool`. Which worker evaluates which
/// pixel is left open; the result is in flat-index order all the same.
pub fn mandelbrot_set_parallel(
    pool: &rayon::ThreadPool,
    region: &Region,
    res: &Resolution,
    cap: u32,
) -> (r: Vec<SampleResult>)
    requires
        region.valid(),
        res.valid(),
    ensures
        r@ == field(*region, *res, cap),
{
    let n = res.pixel_count_exec();
    par_samples(pool, region, res, cap, n)
}

/// The error that `compute` reports for its inputs, if any, in the order in
/// which they are checked.
pub open spec fn input_error(region: Region, res: Resolution, cap: u32, mode: Mode) -> Option<
    ComputeError,
> {
    if !region.valid() {
        Some(ComputeError::InvalidRegion)
    } else if !res.valid() {
        Some(ComputeError::InvalidResolution)
    } else if cap == 0 {
        Some(ComputeError::InvalidIterationCap)
    } else if mode == Mode::Parallel(WorkerConfig::Count(0)) {
        Some(ComputeError::InvalidWorkerCount)
    } else {
        None
    }
}

/// Checks the inputs of a computation: the first error of `input_error`, if any.
pub fn validate(region: &Region, res: &Resolution, cap: u32, mode: Mode) -> (r: Option<ComputeError>)
    ensures
        r == input_error(*region, *res, cap, mode),
{
    if !region.is_valid() {
        Some(ComputeError::InvalidRegion)
    } else if !res.is_valid() {
        Some(ComputeError::InvalidResolution)
    } else if cap == 0 {
        Some(ComputeError::InvalidIterationCap)
    } else if mode == Mode::Parallel(WorkerConfig::Count(0)) {
        Some(ComputeError::InvalidWorkerCount)
    } else {
        None
    }
}

/// Validates the inputs, then computes the field in the given mode.
/// The field does not depend on the mode: sequential and parallel runs give
/// the same results, element for element.
pub fn compute(region: &Region, res: &Resolution, cap: u32, mode: Mode) -> (r: Result<
    Vec<SampleResult>,
    ComputeError,
>)
    ensures
        input_error(*region, *res, cap, mode) matches Some(e) ==> r == Err::<
            Vec<SampleResult>,
            ComputeError,
        >(e),
        input_error(*region, *res, cap, mode) is None && mode == Mode::Sequential ==> r is Ok,
        input_error(*region, *res, cap, mode) is None ==> (r is Ok || r == Err::<
            Vec<SampleResult>,
            ComputeError,
        >(ComputeError::PoolUnavailable)),
        r is Ok ==> r->Ok_0@ == field(*region, *res, cap),
        r is Ok ==> forall|k: int| 0 <= k < r->Ok_0@.len() ==> #[trigger] r->Ok_0@[k].count <= cap,
{
    if let Some(e) = validate(region, res, cap, mode) {
        return Err(e);
    }
    proof {
        lemma_field_bounded(*region, *res, cap);
    }
    match mode {
        Mode::Sequential => Ok(mandelbrot_set(region, res, cap)),
        Mode::Parallel(workers) => {
            match worker_pool(workers) {
                Ok(pool) => Ok(mandelbrot_set_parallel(&pool, region, res, cap)),
                Err(e) => Err(e),
            }
        },
    }
}

/// Every escape time in the field lies in `[0, cap]`.
pub proof fn lemma_field_bounded(region: Region, res: Resolution, cap: u32)
    requires
        region.valid(),
        res.valid(),
    ensures
        forall|k: int|
            0 <= k < field(region, res, cap).len() ==> #[trigger] field(region, res, cap)[k].count
                <= cap,
{
    assert forall|k: int| 0 <= k < field(region, res, cap).len() implies #[trigger] field(
        region,
        res,
        cap,
    )[k].count <= cap by {
        lemma_pixel_in_grid(res, k);
        crate::escape::lemma_escape_time_bounded(
            point_re(region, res, pixel_x(res, k)),
            point_im(region, res, pixel_y(res, k)),
            cap as nat,
        );
    }
}

/// Flat index of the pixel `(px, py)`: row-major, `py * width + px`.
pub open spec fn flat_index(res: Resolution, px: int, py: int) -> int {
    py * (res.width as int) + px
}

/// The field covers the grid exactly once: it has `width * height` results,
/// the pixel `(px, py)` stands at flat index `py * width + px`, and no two
/// results name the same pixel.
pub proof fn lemma_field_covers_grid(region: Region, res: Resolution, cap: u32)
    requires
        region.valid(),
        res.valid(),
    ensures
        field(region, res, cap).len() == res.width * res.height,
        forall|px: int, py: int|
            0 <= px < res.width && 0 <= py < res.height ==> 0 <= #[trigger] flat_index(res, px, py)
                < field(region, res, cap).len(),
        forall|px: int, py: int|
            0 <= px < res.width && 0 <= py < res.height ==> field(region, res, cap)[#[trigger] flat_index(
                res,
                px,
                py,
            )].px == px && field(region, res, cap)[flat_index(res, px, py)].py == py,
        forall|i: int, j: int|
            0 <= i < field(region, res, cap).len() && 0 <= j < field(region, res, cap).len() && i
                != j ==> #[trigger] field(region, res, cap)[i].px != #[trigger] field(
                region,
                res,
                cap,
            )[j].px || field(region, res, cap)[i].py != field(region, res, cap)[j].py,
{
    let f = field(region, res, cap);
    let w = res.width as int;
    let h = res.height as int;
    assert forall|px: int, py: int| 0 <= px < w && 0 <= py < h implies 0 <= #[trigger] flat_index(
        res,
        px,
        py,
    ) < f.len() && f[flat_index(res, px, py)].px == px && f[flat_index(res, px, py)].py == py by {
        let k = py * w + px;
        assert(0 <= py * w) by (nonlinear_arith)
            requires
                0 <= py,
                0 <= w,
        ;
        assert(py * w + px < w * h) by (nonlinear_arith)
            requires
                0 <= px < w,
                0 <= py < h,
        ;
        vstd::arithmetic::div_mod::lemma_fundamental_div_mod_converse(k, w, py, px);
        lemma_pixel_in_grid(res, k);
    }
    assert forall|i: int, j: int|
        0 <= i < f.len() && 0 <= j < f.len() && i != j implies #[trigger] f[i].px != #[trigger] f[
        j].px || f[i].py != f[j].py by {
        lemma_pixel_in_grid(res, i);
        lemma_pixel_in_grid(res, j);
        vstd::arithmetic::div_mod::lemma_fundamental_div_mod(i, w);
        vstd::arithmetic::div_mod::lemma_fundamental_div_mod(j, w);
    }
}

} // verus!
