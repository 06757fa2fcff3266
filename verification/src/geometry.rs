//! Window sizes derived from the size of a monitor.

use vstd::prelude::*;

verus! {

/// A width and a height in physical pixels.
#[derive(Clone, Copy, Debug, PartialEq, Eq, Structural)]
pub struct PhysicalSize {
    pub width: u32,
    pub height: u32,
}

/// Three quarters of `n`, rounded down to a whole number.
pub open spec fn three_quarters(n: int) -> int {
    (3 * n) / 4
}

/// The window size that goes with a monitor: three quarters of the monitor
/// in each dimension, each rounded down.
pub open spec fn min_size_of(monitor: PhysicalSize) -> PhysicalSize {
    PhysicalSize {
        width: three_quarters(monitor.width as int) as u32,
        height: three_quarters(monitor.height as int) as u32,
    }
}

/// Three quarters of a pixel count, rounded down.
pub fn scale_dimension(n: u32) -> (r: u32)
    ensures
        r == three_quarters(n as int),
{
    let wide: u64 = n as u64;
    let scaled: u64 = wide * 3 / 4;
    scaled as u32
}

/// The minimum (and initial) size of the window on a monitor of the given
/// size.
pub fn min_window_size(monitor: PhysicalSize) -> (size: PhysicalSize)
    ensures
        size == min_size_of(monitor),
        size.width == three_quarters(monitor.width as int),
        size.height == three_quarters(monitor.height as int),
{
    PhysicalSize {
        width: scale_dimension(monitor.width),
        height: scale_dimension(monitor.height),
    }
}

/// `three_quarters(n)` is three quarters of `n` with the fraction dropped:
/// four times it is at most `3 * n`, and four times the next whole number is
/// more.
pub proof fn lemma_three_quarters_is_floor(n: int)
    ensures
        4 * three_quarters(n) <= 3 * n < 4 * (three_quarters(n) + 1),
{
}

/// No other whole number lies that close below three quarters of `n`.
pub proof fn lemma_floor_is_unique(n: int, q: int)
    requires
        4 * q <= 3 * n < 4 * (q + 1),
    ensures
        q == three_quarters(n),
{
}

/// For every monitor, each dimension of the derived size is three quarters of
/// the monitor's, with the fraction dropped.
pub proof fn lemma_min_size_is_floor(monitor: PhysicalSize)
    ensures
        4 * min_size_of(monitor).width <= 3 * monitor.width < 4 * (min_size_of(monitor).width + 1),
        4 * min_size_of(monitor).height <= 3 * monitor.height < 4 * (min_size_of(
            monitor,
        ).height + 1),
{
}

/// The derived size never exceeds the monitor, and both of its dimensions are
/// non-negative; a dimension of two pixels or more gives at least one pixel.
pub proof fn lemma_min_size_fits(monitor: PhysicalSize)
    ensures
        0 <= min_size_of(monitor).width <= monitor.width,
        0 <= min_size_of(monitor).height <= monitor.height,
        monitor.width >= 2 ==> min_size_of(monitor).width >= 1,
        monitor.height >= 2 ==> min_size_of(monitor).height >= 1,
{
}

/// A larger monitor never gives a smaller window.
pub proof fn lemma_min_size_monotone(a: PhysicalSize, b: PhysicalSize)
    requires
        a.width <= b.width,
        a.height <= b.height,
    ensures
        min_size_of(a).width <= min_size_of(b).width,
        min_size_of(a).height <= min_size_of(b).height,
{
}

} // verus!
