use vstd::prelude::*;

verus! {

/// Sum of a sequence of timing samples.
pub open spec fn sum_of(s: Seq<u32>) -> int
    decreases s.len(),
{
    if s.len() == 0 {
        0
    } else {
        sum_of(s.drop_last()) + s.last()
    }
}

/// Mean of the samples, rounded down; zero for no samples.
pub open spec fn mean_of(s: Seq<u32>) -> int {
    if s.len() == 0 {
        0
    } else {
        sum_of(s) / (s.len() as int)
    }
}

/// Sum of the squared distances of the samples from `m`.
pub open spec fn sq_dev_sum(s: Seq<u32>, m: int) -> int
    decreases s.len(),
{
    if s.len() == 0 {
        0
    } else {
        sq_dev_sum(s.drop_last(), m) + (m - s.last()) * (m - s.last())
    }
}

/// Population variance of the samples about `m`, rounded down; zero for no samples.
pub open spec fn variance_of(s: Seq<u32>, m: int) -> int {
    if s.len() == 0 {
        0
    } else {
        sq_dev_sum(s, m) / (s.len() as int)
    }
}

/// `r` is the integer square root of `n`: the largest integer whose square is at most `n`.
pub open spec fn is_isqrt(r: int, n: int) -> bool {
    0 <= r && r * r <= n < (r + 1) * (r + 1)
}

/// Largest value of a squared deviation of two samples.
pub open spec fn max_sq_dev() -> int {
    0xfffffffe00000001
}

proof fn lemma_sum_bound(s: Seq<u32>)
    ensures
        0 <= sum_of(s) <= s.len() * u32::MAX,
    decreases s.len(),
{
    if s.len() > 0 {
        lemma_sum_bound(s.drop_last());
    }
}

/// The mean of the samples, rounded down; zero for no samples.
pub fn calculate_mean(times: &Vec<u32>) -> (r: u32)
    ensures
        r == mean_of(times@),
{
    let n = times.len();
    if n == 0 {
        return 0;
    }
    let mut acc: u128 = 0;
    let mut i: usize = 0;
    while i < n
        invariant
            n == times@.len(),
            i <= n,
            acc == sum_of(times@.take(i as int)),
            acc <= i * u32::MAX,
        decreases n - i,
    {
        assert(times@.take(i + 1).drop_last() =~= times@.take(i as int));
        acc = acc + times[i] as u128;
        i = i + 1;
    }
    assert(times@.take(n as int) =~= times@);
    proof {
        lemma_sum_bound(times@);
        vstd::arithmetic::div_mod::lemma_div_is_ordered(acc as int, n * u32::MAX, n as int);
        vstd::arithmetic::div_mod::lemma_div_multiples_vanish(u32::MAX as int, n as int);
        vstd::arithmetic::div_mod::lemma_div_pos_is_pos(acc as int, n as int);
    }
    (acc / (n as u128)) as u32
}

/// The population variance about `mean`: the sum of `(mean - t)^2` over the
/// samples divided by their number, rounded down; zero for no samples.
pub fn calculate_variance(times: &Vec<u32>, mean: u32) -> (r: u64)
    ensures
        r == variance_of(times@, mean as int),
{
    let n = times.len();
    if n == 0 {
        return 0;
    }
    let mut acc: u128 = 0;
    let mut i: usize = 0;
    while i < n
        invariant
            n == times@.len(),
            i <= n,
            acc == sq_dev_sum(times@.take(i as int), mean as int),
            acc <= i * max_sq_dev(),
        decreases n - i,
    {
        assert(times@.take(i + 1).drop_last() =~= times@.take(i as int));
        let t: u32 = times[i];
        let d: u64 = if mean >= t {
            (mean - t) as u64
        } else {
            (t - mean) as u64
        };
        proof {
            assert(d * d == (mean - t) * (mean - t)) by (nonlinear_arith)
                requires
                    d == mean - t || d == t - mean,
            ;
            assert(0 <= d * d <= max_sq_dev()) by (nonlinear_arith)
                requires
                    0 <= d <= u32::MAX,
            ;
            assert(i * max_sq_dev() + max_sq_dev() <= usize::MAX * max_sq_dev()) by (nonlinear_arith)
                requires
                    i < usize::MAX,
            ;
            assert(usize::MAX * max_sq_dev() < u128::MAX) by (nonlinear_arith)
                requires
                    usize::MAX <= u64::MAX,
            ;
        }
        acc = acc + (d * d) as u128;
        i = i + 1;
    }
    assert(times@.take(n as int) =~= times@);
    proof {
        vstd::arithmetic::div_mod::lemma_div_is_ordered(acc as int, n * max_sq_dev(), n as int);
        vstd::arithmetic::div_mod::lemma_div_multiples_vanish(max_sq_dev(), n as int);
        vstd::arithmetic::div_mod::lemma_div_pos_is_pos(acc as int, n as int);
    }
    (acc / (n as u128)) as u64
}

/// The integer square root of `n`, by bisection.
pub fn integer_sqrt(n: u64) -> (r: u32)
    ensures
        is_isqrt(r as int, n as int),
{
    let mut lo: u64 = 0;
    let mut hi: u64 = 0x100000000;
    while hi - lo > 1
        invariant
            lo < hi <= 0x100000000,
            lo * lo <= n,
            n < hi * hi,
        decreases hi - lo,
    {
        let mid: u64 = lo + (hi - lo) / 2;
        proof {
            assert(mid * mid <= 0xffffffff * 0xffffffff) by (nonlinear_arith)
                requires
                    mid < 0x100000000,
            ;
        }
        if mid * mid <= n {
            lo = mid;
        } else {
            hi = mid;
        }
    }
    lo as u32
}

/// The standard deviation of the samples: the integer square root of their
/// variance about their mean.
pub fn calculate_standard_deviation(times: &Vec<u32>) -> (r: u32)
    ensures
        is_isqrt(r as int, variance_of(times@, mean_of(times@))),
        times@.len() <= 1 ==> r == 0,
{
    let mean = calculate_mean(times);
    let variance = calculate_variance(times, mean);
    proof {
        if times@.len() <= 1 {
            lemma_spread_of_one_sample(times@);
        }
    }
    let r = integer_sqrt(variance);
    proof {
        if variance == 0 && r > 0 {
            assert(r * r >= 1) by (nonlinear_arith)
                requires
                    r >= 1,
            ;
        }
    }
    r
}

/// A single sample, or none, has variance zero about its own mean.
pub proof fn lemma_spread_of_one_sample(s: Seq<u32>)
    requires
        s.len() <= 1,
    ensures
        variance_of(s, mean_of(s)) == 0,
{
    if s.len() == 1 {
        assert(s.drop_last().len() == 0);
        assert(sum_of(s.drop_last()) == 0);
        assert(sq_dev_sum(s.drop_last(), s[0] as int) == 0);
        assert(sum_of(s) == s[0]);
        assert(mean_of(s) == s[0]);
        assert(sq_dev_sum(s, mean_of(s)) == 0);
    }
}

} // verus!
