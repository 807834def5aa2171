//! The integer side of the spectrum analyser: cycling through input
//! devices, how many FFT windows a buffer of samples yields, and which
//! spectrum lines feed each displayed bin.
use vstd::prelude::*;

verus! {

/// Samples per FFT window.
pub const BUFFER_SIZE: usize = 2048;

/// Samples the window advances by after each transform.
pub const HOP: usize = 1024;

/// Bins shown on the disc.
pub const BIN_COUNT: usize = 64;

/// The device after `current` in a list of `count` devices, wrapping to the
/// first; `None` when there are no devices.
pub fn next_device_index(current: usize, count: usize) -> (res: Option<usize>)
    requires
        count > 0 ==> current < usize::MAX,
    ensures
        count == 0 ==> res is None,
        count > 0 ==> res == Some(((current + 1) % (count as int)) as usize),
{
    if count == 0 {
        None
    } else {
        Some((current + 1) % count)
    }
}

/// What to do with a sample buffer of a given length: how many windows to
/// transform, each followed by dropping `HOP` samples from the front, and
/// how many samples to drop afterwards to keep memory bounded.
pub struct RingPlan {
    pub windows: usize,
    pub trim: usize,
}

/// Plans the processing of a buffer of `len` samples.  Windows are taken
/// while a full one is buffered, so afterwards fewer than `BUFFER_SIZE`
/// samples remain (at least `HOP` when any window was taken), and the
/// memory bound of four windows is then never exceeded: nothing is trimmed.
pub fn ring_schedule(len: usize) -> (res: RingPlan)
    ensures
        res.windows * HOP <= len,
        len - res.windows * HOP < BUFFER_SIZE,
        len >= BUFFER_SIZE ==> len - res.windows * HOP >= HOP,
        len < BUFFER_SIZE ==> res.windows == 0,
        res.trim == 0,
{
    let mut rest = len;
    let mut windows: usize = 0;
    while rest >= BUFFER_SIZE
        invariant
            windows * HOP + rest == len,
            len >= BUFFER_SIZE ==> rest >= HOP,
            len < BUFFER_SIZE ==> windows == 0,
        decreases rest,
    {
        rest = rest - HOP;
        windows = windows + 1;
    }
    let trim = if rest > BUFFER_SIZE * 4 {
        rest - BUFFER_SIZE * 2
    } else {
        0
    };
    RingPlan { windows, trim }
}

/// The first spectrum line of bin `i` before clamping: the squared position
/// `(i / 64)^2` of the bin along a spectrum of `spec_len` lines, rounded down.
pub open spec fn bin_start(i: int, spec_len: int) -> int {
    (i * i * spec_len) / 4096
}

/// The spectrum lines `from..to` that bin `i` averages: from `bin_start(i)`
/// to `bin_start(i + 1)`, at least one line, never past the end.
pub open spec fn bin_bounds(i: int, spec_len: int) -> (int, int) {
    let from0 = bin_start(i, spec_len);
    let to0 = bin_start(i + 1, spec_len);
    let to1 = if to0 <= from0 {
        from0 + 1
    } else {
        to0
    };
    let to2 = if to1 > spec_len {
        spec_len
    } else {
        to1
    };
    if from0 >= spec_len {
        (spec_len - 1, spec_len)
    } else {
        (from0, to2)
    }
}

/// The spectrum lines that bin `i` of 64 averages, over a spectrum of
/// `spec_len` lines.  The range is never empty and lies inside the spectrum.
/// Spectra are limited to fewer than 2^40 lines, for which the squared
/// positions are exact in double precision and the products fit in 64 bits.
pub fn bin_range(i: usize, spec_len: usize) -> (res: (usize, usize))
    requires
        i < BIN_COUNT,
        0 < spec_len < 0x100_0000_0000,
    ensures
        res.0 == bin_bounds(i as int, spec_len as int).0,
        res.1 == bin_bounds(i as int, spec_len as int).1,
        res.0 < res.1 <= spec_len,
{
    let n = spec_len as u64;
    let ii = i as u64;
    proof {
        assert(ii * ii <= 4096) by (nonlinear_arith)
            requires
                ii < 64,
        ;
        assert((ii + 1) * (ii + 1) <= 4096) by (nonlinear_arith)
            requires
                ii < 64,
        ;
        assert((ii * ii) * n <= 4096 * n) by (nonlinear_arith)
            requires
                ii * ii <= 4096,
        ;
        assert(((ii + 1) * (ii + 1)) * n <= 4096 * n) by (nonlinear_arith)
            requires
                (ii + 1) * (ii + 1) <= 4096,
        ;
        assert(ii * ii * n <= 4096 * n) by (nonlinear_arith)
            requires
                ii < 64,
        ;
        assert((ii + 1) * (ii + 1) * n <= 4096 * n) by (nonlinear_arith)
            requires
                ii < 64,
        ;
        assert(ii * ii * n <= (ii + 1) * (ii + 1) * n) by (nonlinear_arith);
    }
    let from0 = ii * ii * n / 4096;
    let to0 = (ii + 1) * (ii + 1) * n / 4096;
    let mut to = if to0 <= from0 {
        from0 + 1
    } else {
        to0
    };
    if to > n {
        to = n;
    }
    let mut from = from0;
    if from >= n {
        from = n - 1;
        to = n;
    }
    (from as usize, to as usize)
}

} // verus!
