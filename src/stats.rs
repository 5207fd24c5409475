//! Exact integer statistics over RGBA8 buffers.
//!
//! Luminance is kept in thousandths (`299 R + 587 G + 114 B`), so every
//! threshold comparison is exact.
use vstd::prelude::*;

verus! {

/// Luminance of pixel `p`, in thousandths of a level.
pub open spec fn lum(d: Seq<u8>, p: int) -> int {
    299 * d[4 * p] + 587 * d[4 * p + 1] + 114 * d[4 * p + 2]
}

/// Sum of the luminance of the first `n` pixels.
pub open spec fn lum_sum(d: Seq<u8>, n: int) -> int
    decreases n,
{
    if n <= 0 {
        0
    } else {
        lum_sum(d, n - 1) + lum(d, n - 1)
    }
}

/// Largest luminance among the first `n` pixels (0 for none).
pub open spec fn lum_max(d: Seq<u8>, n: int) -> int
    decreases n,
{
    if n <= 0 {
        0
    } else if lum(d, n - 1) > lum_max(d, n - 1) {
        lum(d, n - 1)
    } else {
        lum_max(d, n - 1)
    }
}

/// Whether a colour channel of pixel `p` is 0 or 255.
pub open spec fn clipped(d: Seq<u8>, p: int) -> bool {
    d[4 * p] == 0 || d[4 * p] == 255 || d[4 * p + 1] == 0 || d[4 * p + 1] == 255 || d[4 * p
        + 2] == 0 || d[4 * p + 2] == 255
}

/// Number of clipped pixels among the first `n`.
pub open spec fn clipped_count(d: Seq<u8>, n: int) -> int
    decreases n,
{
    if n <= 0 {
        0
    } else {
        clipped_count(d, n - 1) + if clipped(d, n - 1) { 1int } else { 0int }
    }
}

/// Number of samples of channel `c`: the bytes at `c, c + 4, c + 8, ...`.
pub open spec fn chan_count(len: int, c: int) -> int {
    if len > c {
        (len - c + 3) / 4
    } else {
        0
    }
}

/// Sum of the first `k` samples of channel `c`.
pub open spec fn chan_sum(d: Seq<u8>, c: int, k: int) -> int
    decreases k,
{
    if k <= 0 {
        0
    } else {
        chan_sum(d, c, k - 1) + d[c + 4 * (k - 1)]
    }
}

/// Sum of the squares of the first `k` samples of channel `c`.
pub open spec fn chan_sq_sum(d: Seq<u8>, c: int, k: int) -> int
    decreases k,
{
    if k <= 0 {
        0
    } else {
        chan_sq_sum(d, c, k - 1) + d[c + 4 * (k - 1)] * d[c + 4 * (k - 1)]
    }
}

/// Sample standard deviation below 2, for `n` samples with sum `s` and sum of
/// squares `q`: `(n q - s^2) / (n (n - 1)) < 4`. Fewer than two samples have
/// deviation 0.
pub open spec fn stddev_below_2(s: int, q: int, n: int) -> bool {
    n <= 1 || n * q - s * s < 4 * n * (n - 1)
}

/// Luminance totals of a buffer's whole pixels.
pub struct LumStats {
    pub sum: u128,
    pub max: u32,
    pub count: u64,
}

/// Sum and sum of squares of one channel.
pub struct ChannelStats {
    pub sum: u128,
    pub sq_sum: u128,
    pub count: u64,
}

/// Luminance sum and maximum over the whole pixels of `d`.
pub fn luminance_stats(d: &Vec<u8>) -> (r: LumStats)
    ensures
        r.count == d@.len() / 4,
        r.sum == lum_sum(d@, r.count as int),
        r.max == lum_max(d@, r.count as int),
{
    let len = d.len();
    let n: usize = len / 4;
    let mut p: usize = 0;
    let mut sum: u128 = 0;
    let mut max: u32 = 0;
    while p < n
        invariant
            len == d@.len(),
            n == d@.len() / 4,
            p <= n,
            sum == lum_sum(d@, p as int),
            sum <= p * 255000,
            max == lum_max(d@, p as int),
            max <= 255000,
        decreases n - p,
    {
        assert(4 * p + 3 < d@.len());
        let l: u32 = 299 * d[4 * p] as u32 + 587 * d[4 * p + 1] as u32 + 114 * d[4 * p + 2] as u32;
        sum = sum + l as u128;
        if l > max {
            max = l;
        }
        p += 1;
    }
    LumStats { sum, max, count: n as u64 }
}

/// Number of whole pixels of `d` with a colour channel at 0 or 255.
pub fn count_clipped_pixels(d: &Vec<u8>) -> (r: u64)
    ensures
        r == clipped_count(d@, (d@.len() / 4) as int),
{
    let len = d.len();
    let n: usize = len / 4;
    let mut p: usize = 0;
    let mut k: u64 = 0;
    while p < n
        invariant
            len == d@.len(),
            n == d@.len() / 4,
            p <= n,
            k == clipped_count(d@, p as int),
            k <= p,
        decreases n - p,
    {
        assert(4 * p + 3 < d@.len());
        let i = 4 * p;
        if d[i] == 0 || d[i] == 255 || d[i + 1] == 0 || d[i + 1] == 255 || d[i + 2] == 0 || d[i
            + 2] == 255 {
            k += 1;
        }
        p += 1;
    }
    k
}

/// Sum and sum of squares of channel `c` of `d`.
pub fn channel_stats(d: &Vec<u8>, c: usize) -> (r: ChannelStats)
    requires
        c < 4,
    ensures
        r.count == chan_count(d@.len() as int, c as int),
        r.sum == chan_sum(d@, c as int, r.count as int),
        r.sq_sum == chan_sq_sum(d@, c as int, r.count as int),
        r.sum <= 255 * r.count,
        r.sq_sum <= 65025 * r.count,
{
    let len = d.len();
    let n: usize = if len > c {
        (len - c) / 4 + if (len - c) % 4 == 0 { 0usize } else { 1usize }
    } else {
        0
    };
    assert(n == chan_count(len as int, c as int));
    let mut k: usize = 0;
    let mut sum: u128 = 0;
    let mut sq: u128 = 0;
    while k < n
        invariant
            len == d@.len(),
            c < 4,
            n == chan_count(len as int, c as int),
            k <= n,
            sum == chan_sum(d@, c as int, k as int),
            sq == chan_sq_sum(d@, c as int, k as int),
            sum <= 255 * k,
            sq <= 65025 * k,
        decreases n - k,
    {
        let v = d[c + 4 * k] as u128;
        assert(v * v <= 65025) by (nonlinear_arith)
            requires
                v <= 255,
        ;
        sum = sum + v;
        sq = sq + v * v;
        k += 1;
    }
    ChannelStats { sum, sq_sum: sq, count: n as u64 }
}

/// Exact test of `stddev_below_2` without wide products.
pub fn stddev_small(s: u128, q: u128, n: u64) -> (r: bool)
    requires
        s <= 255 * n,
        q <= 65025 * n,
    ensures
        r == stddev_below_2(s as int, q as int, n as int),
{
    if n <= 1 {
        return true;
    }
    let n = n as u128;
    let m = s / n;
    let rem = s % n;
    assert(m <= 255) by (nonlinear_arith)
        requires
            s <= 255 * n,
            m == s / n,
            n > 0,
    ;
    assert(m * m * n + 2 * m * rem <= 65025 * n + 510 * n) by (nonlinear_arith)
        requires
            m <= 255,
            rem < n,
    ;
    assert(m * m <= 65025 && m * m * n <= 65025 * n && 2 * m * rem <= 510 * n) by (nonlinear_arith)
        requires
            m <= 255,
            rem < n,
    ;
    let base = m * m * n + 2 * m * rem;
    assert(s == m * n + rem) by (nonlinear_arith)
        requires
            m == s / n,
            rem == s % n,
            n > 0,
    ;
    assert(n * q - s * s == n * (q - base) - rem * rem) by (nonlinear_arith)
        requires
            s == m * n + rem,
            base == m * m * n + 2 * m * rem,
    ;
    if q < base {
        assert(n * (q - base) < 0) by (nonlinear_arith)
            requires
                q < base,
                n > 0,
        ;
        return true;
    }
    let dd = q - base;
    let lim = 4 * (n - 1);
    if dd < lim {
        assert(n * dd - rem * rem < 4 * n * (n - 1)) by (nonlinear_arith)
            requires
                dd < lim,
                lim == 4 * (n - 1),
                n > 0,
        ;
        return true;
    }
    let e = dd - lim;
    assert((n * q - s * s < 4 * n * (n - 1)) == (n * e < rem * rem)) by (nonlinear_arith)
        requires
            n * q - s * s == n * (q - base) - rem * rem,
            dd == q - base,
            e == dd - lim,
            lim == 4 * (n - 1),
    ;
    if e >= n {
        assert(n * e >= n * n) by (nonlinear_arith)
            requires
                e >= n,
                n > 0,
        ;
        assert(rem * rem < n * n) by (nonlinear_arith)
            requires
                rem < n,
        ;
        return false;
    }
    assert(n * e < n * n) by (nonlinear_arith)
        requires
            e < n,
            n > 0,
    ;
    assert(n * n <= 0x1_0000_0000_0000_0000u128 * 0x1_0000_0000_0000_0000u128) by (nonlinear_arith)
        requires
            n <= 0x1_0000_0000_0000_0000u128,
    ;
    assert(rem * rem < n * n) by (nonlinear_arith)
        requires
            rem < n,
    ;
    n * e < rem * rem
}

} // verus!
