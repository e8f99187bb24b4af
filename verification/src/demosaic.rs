use vstd::prelude::*;

use crate::bayer::{values, zeroed, BayerChannel, BayerImage, BayerPattern, RgbImage};
use crate::laws::law_fast_path_agrees_with_checked;
use crate::primitive::FornaxPrimitive;

verus! {

// ---------- The model: a mosaic is a sequence `m` of numbers, row by row ----------

/// The neighbourhoods that linear interpolation averages over.
#[derive(Debug, Clone, Copy, PartialEq, Eq, Structural)]
pub enum Stencil {
    /// The four corner neighbours.
    Diagonal,
    /// The four edge neighbours.
    Neighbour,
    /// The neighbours to the left and to the right.
    LeftRight,
    /// The neighbours above and below.
    TopDown,
}

/// Whether `(x, y)` is a pixel of a `w` by `h` image.
pub open spec fn in_frame(w: int, h: int, x: int, y: int) -> bool {
    0 <= x < w && 0 <= y < h
}

/// The sample at `(x, y)`, where that is a pixel.
pub open spec fn pixel(m: Seq<int>, w: int, x: int, y: int) -> int {
    m[y * w + x]
}

/// The sample at `(x, y)` where it is a pixel, zero elsewhere.
pub open spec fn sample(m: Seq<int>, w: int, h: int, x: int, y: int) -> int {
    if in_frame(w, h, x, y) {
        pixel(m, w, x, y)
    } else {
        0
    }
}

/// One where `(x, y)` is a pixel, zero elsewhere.
pub open spec fn present(w: int, h: int, x: int, y: int) -> int {
    if in_frame(w, h, x, y) {
        1
    } else {
        0
    }
}

/// The sum of the samples of stencil `s` around `(x, y)` that lie in the image.
pub open spec fn stencil_sum(m: Seq<int>, w: int, h: int, s: Stencil, x: int, y: int) -> int {
    match s {
        Stencil::Diagonal => sample(m, w, h, x - 1, y - 1) + sample(m, w, h, x + 1, y - 1)
            + sample(m, w, h, x - 1, y + 1) + sample(m, w, h, x + 1, y + 1),
        Stencil::Neighbour => sample(m, w, h, x - 1, y) + sample(m, w, h, x + 1, y)
            + sample(m, w, h, x, y - 1) + sample(m, w, h, x, y + 1),
        Stencil::LeftRight => sample(m, w, h, x - 1, y) + sample(m, w, h, x + 1, y),
        Stencil::TopDown => sample(m, w, h, x, y - 1) + sample(m, w, h, x, y + 1),
    }
}

/// How many samples of stencil `s` around `(x, y)` lie in the image.
pub open spec fn stencil_count(w: int, h: int, s: Stencil, x: int, y: int) -> int {
    match s {
        Stencil::Diagonal => present(w, h, x - 1, y - 1) + present(w, h, x + 1, y - 1)
            + present(w, h, x - 1, y + 1) + present(w, h, x + 1, y + 1),
        Stencil::Neighbour => present(w, h, x - 1, y) + present(w, h, x + 1, y)
            + present(w, h, x, y - 1) + present(w, h, x, y + 1),
        Stencil::LeftRight => present(w, h, x - 1, y) + present(w, h, x + 1, y),
        Stencil::TopDown => present(w, h, x, y - 1) + present(w, h, x, y + 1),
    }
}

/// The mean of the samples of stencil `s` around `(x, y)` that lie in the
/// image, rounded down.
pub open spec fn stencil_mean(m: Seq<int>, w: int, h: int, s: Stencil, x: int, y: int) -> int {
    stencil_sum(m, w, h, s, x, y) / stencil_count(w, h, s, x, y)
}

/// The mean of stencil `s` can be taken in a channel type whose largest value
/// is `max`: some of its samples lie in the image, and their sum fits.
pub open spec fn stencil_fits(m: Seq<int>, w: int, h: int, s: Stencil, x: int, y: int, max: int) -> bool {
    stencil_count(w, h, s, x, y) > 0 && stencil_sum(m, w, h, s, x, y) <= max
}

/// Component `k` (0 red, 1 green, 2 blue) of the interpolated colour of the
/// pixel at `(x, y)`, whose photosite records channel `c`.
pub open spec fn component(m: Seq<int>, w: int, h: int, c: BayerChannel, x: int, y: int, k: int) -> int {
    let centre = pixel(m, w, x, y);
    match c {
        BayerChannel::R => if k == 0 {
            centre
        } else if k == 1 {
            stencil_mean(m, w, h, Stencil::Neighbour, x, y)
        } else {
            stencil_mean(m, w, h, Stencil::Diagonal, x, y)
        },
        BayerChannel::G => if k == 0 {
            stencil_mean(m, w, h, Stencil::LeftRight, x, y)
        } else if k == 1 {
            centre
        } else {
            stencil_mean(m, w, h, Stencil::TopDown, x, y)
        },
        BayerChannel::B => if k == 0 {
            stencil_mean(m, w, h, Stencil::Diagonal, x, y)
        } else if k == 1 {
            stencil_mean(m, w, h, Stencil::Neighbour, x, y)
        } else {
            centre
        },
        BayerChannel::G2 => if k == 0 {
            stencil_mean(m, w, h, Stencil::TopDown, x, y)
        } else if k == 1 {
            centre
        } else {
            stencil_mean(m, w, h, Stencil::LeftRight, x, y)
        },
    }
}

/// The means that the pixel at `(x, y)` of channel `c` needs can be taken in
/// a channel type whose largest value is `max`.
pub open spec fn pixel_computable(m: Seq<int>, w: int, h: int, c: BayerChannel, x: int, y: int, max: int) -> bool {
    match c {
        BayerChannel::R | BayerChannel::B => stencil_fits(m, w, h, Stencil::Neighbour, x, y, max)
            && stencil_fits(m, w, h, Stencil::Diagonal, x, y, max),
        BayerChannel::G | BayerChannel::G2 => stencil_fits(m, w, h, Stencil::LeftRight, x, y, max)
            && stencil_fits(m, w, h, Stencil::TopDown, x, y, max),
    }
}

/// Where component `k` of the pixel at `(x, y)` of a `w`-wide image stands in
/// the three-channel buffer.
pub open spec fn rgb_index(w: int, x: int, y: int, k: int) -> int {
    3 * (y * w + x) + k
}

/// The sum of stencil `s` around `(x, y)` where the whole stencil lies in the
/// image, so that no sample is left out.
pub open spec fn window_sum(m: Seq<int>, w: int, s: Stencil, x: int, y: int) -> int {
    match s {
        Stencil::Diagonal => pixel(m, w, x - 1, y - 1) + pixel(m, w, x + 1, y - 1) + pixel(m, w, x - 1, y + 1)
            + pixel(m, w, x + 1, y + 1),
        Stencil::Neighbour => pixel(m, w, x - 1, y) + pixel(m, w, x + 1, y) + pixel(m, w, x, y - 1)
            + pixel(m, w, x, y + 1),
        Stencil::LeftRight => pixel(m, w, x - 1, y) + pixel(m, w, x + 1, y),
        Stencil::TopDown => pixel(m, w, x, y - 1) + pixel(m, w, x, y + 1),
    }
}

/// How many samples stencil `s` holds.
pub open spec fn window_size(s: Stencil) -> int {
    match s {
        Stencil::Diagonal | Stencil::Neighbour => 4,
        Stencil::LeftRight | Stencil::TopDown => 2,
    }
}

/// The mean of the whole stencil `s` around `(x, y)`, rounded down.
pub open spec fn window_mean(m: Seq<int>, w: int, s: Stencil, x: int, y: int) -> int {
    window_sum(m, w, s, x, y) / window_size(s)
}

/// Component `k` of the colour of the pixel at `(x, y)` of channel `c`, from
/// whole stencils.
pub open spec fn window_component(m: Seq<int>, w: int, c: BayerChannel, x: int, y: int, k: int) -> int {
    let centre = pixel(m, w, x, y);
    match c {
        BayerChannel::R => if k == 0 {
            centre
        } else if k == 1 {
            window_mean(m, w, Stencil::Neighbour, x, y)
        } else {
            window_mean(m, w, Stencil::Diagonal, x, y)
        },
        BayerChannel::G => if k == 0 {
            window_mean(m, w, Stencil::LeftRight, x, y)
        } else if k == 1 {
            centre
        } else {
            window_mean(m, w, Stencil::TopDown, x, y)
        },
        BayerChannel::B => if k == 0 {
            window_mean(m, w, Stencil::Diagonal, x, y)
        } else if k == 1 {
            window_mean(m, w, Stencil::Neighbour, x, y)
        } else {
            centre
        },
        BayerChannel::G2 => if k == 0 {
            window_mean(m, w, Stencil::TopDown, x, y)
        } else if k == 1 {
            centre
        } else {
            window_mean(m, w, Stencil::LeftRight, x, y)
        },
    }
}

/// The whole-stencil sums that the pixel at `(x, y)` of channel `c` needs fit
/// in a channel type whose largest value is `max`.
pub open spec fn window_computable(m: Seq<int>, w: int, c: BayerChannel, x: int, y: int, max: int) -> bool {
    match c {
        BayerChannel::R | BayerChannel::B => window_sum(m, w, Stencil::Neighbour, x, y) <= max
            && window_sum(m, w, Stencil::Diagonal, x, y) <= max,
        BayerChannel::G | BayerChannel::G2 => window_sum(m, w, Stencil::LeftRight, x, y) <= max
            && window_sum(m, w, Stencil::TopDown, x, y) <= max,
    }
}

proof fn lemma_index_in_frame(w: int, h: int, x: int, y: int)
    by (nonlinear_arith)
    requires
        in_frame(w, h, x, y),
    ensures
        0 <= y * w + x < w * h,
{
}

proof fn lemma_index_in_rows(w: int, x: int, y: int, last: int, n: int)
    by (nonlinear_arith)
    requires
        0 <= x < w,
        0 <= y <= last,
        (last + 1) * w <= n,
    ensures
        0 <= y * w + x < n,
{
}

pub(crate) proof fn lemma_samples_nonnegative(m: Seq<int>, w: int, h: int)
    requires
        w * h <= m.len(),
        forall|i: int| 0 <= i < m.len() ==> #[trigger] m[i] >= 0,
    ensures
        forall|x: int, y: int| #[trigger] sample(m, w, h, x, y) >= 0,
{
    assert forall|x: int, y: int| #[trigger] sample(m, w, h, x, y) >= 0 by {
        if in_frame(w, h, x, y) {
            lemma_index_in_frame(w, h, x, y);
        }
    }
}

proof fn lemma_slice_len_bounded<T>(raw: &[T])
    ensures
        raw@.len() <= usize::MAX,
{
    assert(raw@.len() == raw.len());
}

pub(crate) proof fn lemma_values_nonnegative<T: FornaxPrimitive>(s: Seq<T>)
    ensures
        values(s).len() == s.len(),
        forall|i: int| 0 <= i < s.len() ==> #[trigger] values(s)[i] >= 0 && values(s)[i] == s[i].value(),
{
}

// ---------- Indexing ----------

fn idx(width: u32, x: u32, y: u32) -> (r: usize)
    requires
        y * width + x <= usize::MAX,
    ensures
        r == y * width + x,
{
    proof {
        vstd::arithmetic::mul::lemma_mul_nonnegative(y as int, width as int);
    }
    y as usize * width as usize + x as usize
}

// ---------- Checked path: any pixel, border rows and columns included ----------

fn diagonal_checked<T: FornaxPrimitive>(raw: &[T], width: u32, height: u32, x: u32, y: u32) -> (r: T)
    requires
        x < width,
        y < height,
        width * height <= raw@.len(),
        stencil_fits(values(raw@), width as int, height as int, Stencil::Diagonal, x as int, y as int, T::max_value() as int),
    ensures
        r.value() == stencil_mean(values(raw@), width as int, height as int, Stencil::Diagonal, x as int, y as int),
{
    let ghost m = values(raw@);
    let ghost (w, h, xi, yi) = (width as int, height as int, x as int, y as int);
    proof {
        lemma_slice_len_bounded(raw);
        lemma_values_nonnegative(raw@);
        lemma_samples_nonnegative(m, w, h);
        T::lemma_max_value_holds_counts();
    }
    let mut count = 0_u32;
    let mut sum = T::zero();
    if x > 0 && y > 0 {
        proof { lemma_index_in_frame(w, h, xi - 1, yi - 1); }
        sum = sum.plus(raw[idx(width, x - 1, y - 1)]);
        count += 1;
    }
    if x + 1 < width && y > 0 {
        proof { lemma_index_in_frame(w, h, xi + 1, yi - 1); }
        sum = sum.plus(raw[idx(width, x + 1, y - 1)]);
        count += 1;
    }
    if x > 0 && y + 1 < height {
        proof { lemma_index_in_frame(w, h, xi - 1, yi + 1); }
        sum = sum.plus(raw[idx(width, x - 1, y + 1)]);
        count += 1;
    }
    if x + 1 < width && y + 1 < height {
        proof { lemma_index_in_frame(w, h, xi + 1, yi + 1); }
        sum = sum.plus(raw[idx(width, x + 1, y + 1)]);
        count += 1;
    }
    sum.divide(T::from_count(count))
}

fn neighbour_checked<T: FornaxPrimitive>(raw: &[T], width: u32, height: u32, x: u32, y: u32) -> (r: T)
    requires
        x < width,
        y < height,
        width * height <= raw@.len(),
        stencil_fits(values(raw@), width as int, height as int, Stencil::Neighbour, x as int, y as int, T::max_value() as int),
    ensures
        r.value() == stencil_mean(values(raw@), width as int, height as int, Stencil::Neighbour, x as int, y as int),
{
    let ghost m = values(raw@);
    let ghost (w, h, xi, yi) = (width as int, height as int, x as int, y as int);
    proof {
        lemma_slice_len_bounded(raw);
        lemma_values_nonnegative(raw@);
        lemma_samples_nonnegative(m, w, h);
        T::lemma_max_value_holds_counts();
    }
    let mut count = 0_u32;
    let mut sum = T::zero();
    if x > 0 {
        proof { lemma_index_in_frame(w, h, xi - 1, yi); }
        sum = sum.plus(raw[idx(width, x - 1, y)]);
        count += 1;
    }
    if x + 1 < width {
        proof { lemma_index_in_frame(w, h, xi + 1, yi); }
        sum = sum.plus(raw[idx(width, x + 1, y)]);
        count += 1;
    }
    if y > 0 {
        proof { lemma_index_in_frame(w, h, xi, yi - 1); }
        sum = sum.plus(raw[idx(width, x, y - 1)]);
        count += 1;
    }
    if y + 1 < height {
        proof { lemma_index_in_frame(w, h, xi, yi + 1); }
        sum = sum.plus(raw[idx(width, x, y + 1)]);
        count += 1;
    }
    sum.divide(T::from_count(count))
}

fn left_right_checked<T: FornaxPrimitive>(raw: &[T], width: u32, x: u32, y: u32, Ghost(height): Ghost<u32>) -> (r: T)
    requires
        x < width,
        y < height,
        width * height <= raw@.len(),
        stencil_fits(values(raw@), width as int, height as int, Stencil::LeftRight, x as int, y as int, T::max_value() as int),
    ensures
        r.value() == stencil_mean(values(raw@), width as int, height as int, Stencil::LeftRight, x as int, y as int),
{
    let ghost m = values(raw@);
    let ghost (w, h, xi, yi) = (width as int, height as int, x as int, y as int);
    proof {
        lemma_slice_len_bounded(raw);
        lemma_values_nonnegative(raw@);
        lemma_samples_nonnegative(m, w, h);
        T::lemma_max_value_holds_counts();
    }
    let mut count = 0_u32;
    let mut sum = T::zero();
    if x > 0 {
        proof { lemma_index_in_frame(w, h, xi - 1, yi); }
        sum = sum.plus(raw[idx(width, x - 1, y)]);
        count += 1;
    }
    if x + 1 < width {
        proof { lemma_index_in_frame(w, h, xi + 1, yi); }
        sum = sum.plus(raw[idx(width, x + 1, y)]);
        count += 1;
    }
    sum.divide(T::from_count(count))
}

fn top_down_checked<T: FornaxPrimitive>(raw: &[T], width: u32, height: u32, x: u32, y: u32) -> (r: T)
    requires
        x < width,
        y < height,
        width * height <= raw@.len(),
        stencil_fits(values(raw@), width as int, height as int, Stencil::TopDown, x as int, y as int, T::max_value() as int),
    ensures
        r.value() == stencil_mean(values(raw@), width as int, height as int, Stencil::TopDown, x as int, y as int),
{
    let ghost m = values(raw@);
    let ghost (w, h, xi, yi) = (width as int, height as int, x as int, y as int);
    proof {
        lemma_slice_len_bounded(raw);
        lemma_values_nonnegative(raw@);
        lemma_samples_nonnegative(m, w, h);
        T::lemma_max_value_holds_counts();
    }
    let mut count = 0_u32;
    let mut sum = T::zero();
    if y > 0 {
        proof { lemma_index_in_frame(w, h, xi, yi - 1); }
        sum = sum.plus(raw[idx(width, x, y - 1)]);
        count += 1;
    }
    if y + 1 < height {
        proof { lemma_index_in_frame(w, h, xi, yi + 1); }
        sum = sum.plus(raw[idx(width, x, y + 1)]);
        count += 1;
    }
    sum.divide(T::from_count(count))
}

// ---------- Fast path: the whole stencil lies in the image ----------

/// Caller guarantees that `x` is in `1..width-1` and that rows `y-1..=y+1` lie in `raw`.
fn diagonal_fast<T: FornaxPrimitive>(raw: &[T], width: u32, x: u32, y: u32) -> (r: T)
    requires
        1 <= x,
        x + 1 < width,
        1 <= y < u32::MAX,
        (y + 2) * width <= raw@.len(),
        window_sum(values(raw@), width as int, Stencil::Diagonal, x as int, y as int) <= T::max_value(),
    ensures
        r.value() == window_mean(values(raw@), width as int, Stencil::Diagonal, x as int, y as int),
{
    let ghost (w, xi, yi) = (width as int, x as int, y as int);
    let ghost last = yi + 1;
    proof {
        lemma_slice_len_bounded(raw);
        lemma_values_nonnegative(raw@);
        T::lemma_max_value_holds_counts();
    }
    proof { lemma_index_in_rows(w, xi - 1, yi - 1, last, raw@.len() as int); }
    let tl = raw[idx(width, x - 1, y - 1)];
    proof { lemma_index_in_rows(w, xi + 1, yi - 1, last, raw@.len() as int); }
    let tr = raw[idx(width, x + 1, y - 1)];
    proof { lemma_index_in_rows(w, xi - 1, yi + 1, last, raw@.len() as int); }
    let bl = raw[idx(width, x - 1, y + 1)];
    proof { lemma_index_in_rows(w, xi + 1, yi + 1, last, raw@.len() as int); }
    let br = raw[idx(width, x + 1, y + 1)];
    tl.plus(tr).plus(bl).plus(br).divide(T::from_count(4))
}

/// Caller guarantees that `x` is in `1..width-1` and that rows `y-1..=y+1` lie in `raw`.
fn neighbour_fast<T: FornaxPrimitive>(raw: &[T], width: u32, x: u32, y: u32) -> (r: T)
    requires
        1 <= x,
        x + 1 < width,
        1 <= y < u32::MAX,
        (y + 2) * width <= raw@.len(),
        window_sum(values(raw@), width as int, Stencil::Neighbour, x as int, y as int) <= T::max_value(),
    ensures
        r.value() == window_mean(values(raw@), width as int, Stencil::Neighbour, x as int, y as int),
{
    let ghost (w, xi, yi) = (width as int, x as int, y as int);
    let ghost last = yi + 1;
    proof {
        lemma_slice_len_bounded(raw);
        lemma_values_nonnegative(raw@);
        T::lemma_max_value_holds_counts();
    }
    proof { lemma_index_in_rows(w, xi - 1, yi, last, raw@.len() as int); }
    let l = raw[idx(width, x - 1, y)];
    proof { lemma_index_in_rows(w, xi + 1, yi, last, raw@.len() as int); }
    let r = raw[idx(width, x + 1, y)];
    proof { lemma_index_in_rows(w, xi, yi - 1, last, raw@.len() as int); }
    let t = raw[idx(width, x, y - 1)];
    proof { lemma_index_in_rows(w, xi, yi + 1, last, raw@.len() as int); }
    let b = raw[idx(width, x, y + 1)];
    l.plus(r).plus(t).plus(b).divide(T::from_count(4))
}

/// Caller guarantees that `x` is in `1..width-1` and that row `y` lies in `raw`.
fn left_right_fast<T: FornaxPrimitive>(raw: &[T], width: u32, x: u32, y: u32) -> (r: T)
    requires
        1 <= x,
        x + 1 < width,
        (y + 1) * width <= raw@.len(),
        window_sum(values(raw@), width as int, Stencil::LeftRight, x as int, y as int) <= T::max_value(),
    ensures
        r.value() == window_mean(values(raw@), width as int, Stencil::LeftRight, x as int, y as int),
{
    let ghost (w, xi, yi) = (width as int, x as int, y as int);
    let ghost last = yi;
    proof {
        lemma_slice_len_bounded(raw);
        lemma_values_nonnegative(raw@);
        T::lemma_max_value_holds_counts();
    }
    proof { lemma_index_in_rows(w, xi - 1, yi, last, raw@.len() as int); }
    let l = raw[idx(width, x - 1, y)];
    proof { lemma_index_in_rows(w, xi + 1, yi, last, raw@.len() as int); }
    let r = raw[idx(width, x + 1, y)];
    l.plus(r).divide(T::from_count(2))
}

/// Caller guarantees that `y >= 1` and that rows `y-1..=y+1` lie in `raw`.
fn top_down_fast<T: FornaxPrimitive>(raw: &[T], width: u32, x: u32, y: u32) -> (r: T)
    requires
        x < width,
        1 <= y < u32::MAX,
        (y + 2) * width <= raw@.len(),
        window_sum(values(raw@), width as int, Stencil::TopDown, x as int, y as int) <= T::max_value(),
    ensures
        r.value() == window_mean(values(raw@), width as int, Stencil::TopDown, x as int, y as int),
{
    let ghost (w, xi, yi) = (width as int, x as int, y as int);
    let ghost last = yi + 1;
    proof {
        lemma_slice_len_bounded(raw);
        lemma_values_nonnegative(raw@);
        T::lemma_max_value_holds_counts();
    }
    proof { lemma_index_in_rows(w, xi, yi - 1, last, raw@.len() as int); }
    let t = raw[idx(width, x, y - 1)];
    proof { lemma_index_in_rows(w, xi, yi + 1, last, raw@.len() as int); }
    let b = raw[idx(width, x, y + 1)];
    t.plus(b).divide(T::from_count(2))
}

// ---------- Per-pixel dispatch ----------

/// Writes the colour of an interior pixel, whose whole 3x3 neighbourhood lies in the
/// image, at positions `3x..3x+3` of its row.
fn write_pixel_fast<T: FornaxPrimitive>(raw: &[T], width: u32, x: u32, y: u32, channel: BayerChannel, out_row: &mut [T])
    requires
        1 <= x,
        x + 1 < width,
        1 <= y < u32::MAX,
        (y + 2) * width <= raw@.len(),
        window_computable(values(raw@), width as int, channel, x as int, y as int, T::max_value() as int),
        3 * x + 3 <= old(out_row)@.len(),
    ensures
        final(out_row)@.len() == old(out_row)@.len(),
        forall|j: int| 0 <= j < old(out_row)@.len() && !(3 * x <= j < 3 * x + 3)
            ==> final(out_row)@[j] == old(out_row)@[j],
        forall|k: int| 0 <= k < 3 ==> (#[trigger] final(out_row)@[row_index(x as int, k)]).value() == window_component(values(raw@), width as int, channel, x as int, y as int, k),
{
    proof {
        lemma_slice_len_bounded(raw);
        lemma_values_nonnegative(raw@);
        lemma_index_in_rows(width as int, x as int, y as int, y + 1, raw@.len() as int);
        assert((y + 1) * width <= (y + 2) * width) by (nonlinear_arith);
        assert(out_row@.len() == out_row.len());
    }
    let o = x as usize * 3;
    let centre = raw[idx(width, x, y)];
    match channel {
        BayerChannel::R => {
            out_row[o] = centre;
            out_row[o + 1] = neighbour_fast(raw, width, x, y);
            out_row[o + 2] = diagonal_fast(raw, width, x, y);
        }
        BayerChannel::G => {
            out_row[o] = left_right_fast(raw, width, x, y);
            out_row[o + 1] = centre;
            out_row[o + 2] = top_down_fast(raw, width, x, y);
        }
        BayerChannel::B => {
            out_row[o] = diagonal_fast(raw, width, x, y);
            out_row[o + 1] = neighbour_fast(raw, width, x, y);
            out_row[o + 2] = centre;
        }
        BayerChannel::G2 => {
            out_row[o] = top_down_fast(raw, width, x, y);
            out_row[o + 1] = centre;
            out_row[o + 2] = left_right_fast(raw, width, x, y);
        }
    }
}

/// Writes the colour of any pixel, border pixels included, at positions
/// `3x..3x+3` of its row.
fn write_pixel_checked<T: FornaxPrimitive>(raw: &[T], width: u32, height: u32, x: u32, y: u32, channel: BayerChannel, out_row: &mut [T])
    requires
        x < width,
        y < height,
        width * height <= raw@.len(),
        pixel_computable(values(raw@), width as int, height as int, channel, x as int, y as int, T::max_value() as int),
        3 * x + 3 <= old(out_row)@.len(),
    ensures
        final(out_row)@.len() == old(out_row)@.len(),
        forall|j: int| 0 <= j < old(out_row)@.len() && !(3 * x <= j < 3 * x + 3)
            ==> final(out_row)@[j] == old(out_row)@[j],
        forall|k: int| 0 <= k < 3 ==> (#[trigger] final(out_row)@[row_index(x as int, k)]).value() == component(values(raw@), width as int, height as int, channel, x as int, y as int, k),
{
    proof {
        lemma_slice_len_bounded(raw);
        lemma_values_nonnegative(raw@);
        lemma_index_in_frame(width as int, height as int, x as int, y as int);
        assert(out_row@.len() == out_row.len());
    }
    let o = x as usize * 3;
    let centre = raw[idx(width, x, y)];
    match channel {
        BayerChannel::R => {
            out_row[o] = centre;
            out_row[o + 1] = neighbour_checked(raw, width, height, x, y);
            out_row[o + 2] = diagonal_checked(raw, width, height, x, y);
        }
        BayerChannel::G => {
            out_row[o] = left_right_checked(raw, width, x, y, Ghost(height));
            out_row[o + 1] = centre;
            out_row[o + 2] = top_down_checked(raw, width, height, x, y);
        }
        BayerChannel::B => {
            out_row[o] = diagonal_checked(raw, width, height, x, y);
            out_row[o + 1] = neighbour_checked(raw, width, height, x, y);
            out_row[o + 2] = centre;
        }
        BayerChannel::G2 => {
            out_row[o] = top_down_checked(raw, width, height, x, y);
            out_row[o + 1] = centre;
            out_row[o + 2] = left_right_checked(raw, width, x, y, Ghost(height));
        }
    }
}

// ---------- Rows ----------

/// Where component `k` of the pixel in column `x` stands in a row of the
/// three-channel buffer.
pub open spec fn row_index(x: int, k: int) -> int {
    3 * x + k
}

proof fn lemma_rows_in_frame(w: int, h: int, y: int)
    by (nonlinear_arith)
    requires
        0 <= y,
        y + 1 < h,
        0 <= w,
    ensures
        (y + 2) * w <= w * h,
{
}

/// The colours of row `y`, three values per pixel, left to right.
fn fill_row<T: FornaxPrimitive>(raw: &[T], width: u32, height: u32, mask: &[BayerChannel; 4], y: u32) -> (row: Vec<T>)
    requires
        y < height,
        width * height <= raw@.len(),
        3 * width <= usize::MAX,
        forall|x: int| 0 <= x < width ==> #[trigger] pixel_computable(values(raw@), width as int, height as int,
            mask@[x % 2 + 2 * (y % 2)], x, y as int, T::max_value() as int),
    ensures
        row@.len() == 3 * width,
        forall|x: int, k: int| 0 <= x < width && 0 <= k < 3 ==> (#[trigger] row@[row_index(x, k)]).value()
            == component(values(raw@), width as int, height as int, mask@[x % 2 + 2 * (y % 2)], x, y as int, k),
{
    let is_border_row = y == 0 || y == height - 1;
    let mut row: Vec<T> = zeroed(3 * width as usize);
    for x in 0..width
        invariant
            y < height,
            width * height <= raw@.len(),
            is_border_row == (y == 0 || y == height - 1),
            forall|x: int| 0 <= x < width ==> #[trigger] pixel_computable(values(raw@), width as int, height as int,
                mask@[x % 2 + 2 * (y % 2)], x, y as int, T::max_value() as int),
            row@.len() == 3 * width,
            forall|xx: int, k: int| 0 <= xx < x && 0 <= k < 3 ==> (#[trigger] row@[row_index(xx, k)]).value()
                == component(values(raw@), width as int, height as int, mask@[xx % 2 + 2 * (y % 2)], xx, y as int, k),
    {
        // `(x & 1) + 2 * (y & 1)` is this pixel's slot in the 2x2 Bayer tile.
        assert((x & 1) == x % 2 && (y & 1) == y % 2) by (bit_vector);
        let channel = mask[((x & 1) + 2 * (y & 1)) as usize];
        let ghost xi = x as int;
        assert(channel == mask@[xi % 2 + 2 * (y % 2)]);
        assert(pixel_computable(values(raw@), width as int, height as int, mask@[xi % 2 + 2 * (y % 2)],
            xi, y as int, T::max_value() as int));
        let ghost before = row@;
        if is_border_row || x == 0 || x == width - 1 {
            write_pixel_checked(raw, width, height, x, y, channel, row.as_mut_slice());
        } else {
            proof {
                lemma_rows_in_frame(width as int, height as int, y as int);
                law_fast_path_agrees_with_checked(values(raw@), width as int, height as int, xi, y as int);
            }
            write_pixel_fast(raw, width, x, y, channel, row.as_mut_slice());
        }
        assert forall|xx: int, k: int| 0 <= xx < x + 1 && 0 <= k < 3 implies (#[trigger] row@[row_index(xx, k)]).value()
            == component(values(raw@), width as int, height as int, mask@[xx % 2 + 2 * (y % 2)], xx, y as int, k) by {
            if xx < x {
                assert(row@[row_index(xx, k)] == before[row_index(xx, k)]);
            } else {
                assert(xx == xi);
            }
        }
    }
    row
}

// ---------- Deciding whether an image can be interpolated ----------

/// Adds the sample at `(x + dx, y + dy)`, where that is a pixel, to a running
/// sum `acc` that is kept as a channel value while it fits.
fn add_sample<T: FornaxPrimitive>(
    raw: &[T],
    width: u32,
    height: u32,
    total: Option<T>,
    count: u32,
    x: u32,
    y: u32,
    dx: i32,
    dy: i32,
    Ghost(acc): Ghost<int>,
) -> (r: (Option<T>, u32))
    requires
        x < width,
        y < height,
        -1 <= dx <= 1,
        -1 <= dy <= 1,
        width * height <= raw@.len(),
        count <= 3,
        0 <= acc,
        total is Some <==> acc <= T::max_value(),
        total matches Some(t) ==> t.value() == acc,
    ensures
        r.1 == count + present(width as int, height as int, x + dx, y + dy),
        r.0 is Some <==> acc + sample(values(raw@), width as int, height as int, x + dx, y + dy) <= T::max_value(),
        r.0 matches Some(t) ==> t.value() == acc + sample(values(raw@), width as int, height as int, x + dx, y + dy),
{
    proof {
        lemma_slice_len_bounded(raw);
        lemma_values_nonnegative(raw@);
    }
    let inside = (dx >= 0 || x > 0) && (dx <= 0 || x + 1 < width) && (dy >= 0 || y > 0) && (dy <= 0 || y + 1 < height);
    if !inside {
        return (total, count);
    }
    let xx = if dx < 0 { x - 1 } else if dx > 0 { x + 1 } else { x };
    let yy = if dy < 0 { y - 1 } else if dy > 0 { y + 1 } else { y };
    proof {
        lemma_index_in_frame(width as int, height as int, xx as int, yy as int);
    }
    let s = raw[idx(width, xx, yy)];
    let next = match total {
        Some(t) => t.checked_plus(s),
        None => None,
    };
    (next, count + 1)
}

/// The count of the samples of stencil `s` around `(x, y)`, and their sum as
/// a channel value where it fits.
fn stencil_total<T: FornaxPrimitive>(raw: &[T], width: u32, height: u32, s: Stencil, x: u32, y: u32) -> (r: (
    Option<T>,
    u32,
))
    requires
        x < width,
        y < height,
        width * height <= raw@.len(),
    ensures
        r.1 == stencil_count(width as int, height as int, s, x as int, y as int),
        r.0 is Some <==> stencil_sum(values(raw@), width as int, height as int, s, x as int, y as int)
            <= T::max_value(),
        r.0 matches Some(t) ==> t.value() == stencil_sum(values(raw@), width as int, height as int, s, x as int, y as int),
{
    let ghost (m, w, h, xi, yi) = (values(raw@), width as int, height as int, x as int, y as int);
    proof {
        lemma_slice_len_bounded(raw);
        lemma_values_nonnegative(raw@);
        lemma_samples_nonnegative(m, w, h);
    }
    let (dx0, dy0, dx1, dy1, more, dx2, dy2, dx3, dy3): (i32, i32, i32, i32, bool, i32, i32, i32, i32) = match s {
        Stencil::Diagonal => (-1, -1, 1, -1, true, -1, 1, 1, 1),
        Stencil::Neighbour => (-1, 0, 1, 0, true, 0, -1, 0, 1),
        Stencil::LeftRight => (-1, 0, 1, 0, false, 0, 0, 0, 0),
        Stencil::TopDown => (0, -1, 0, 1, false, 0, 0, 0, 0),
    };
    let ghost a0 = sample(m, w, h, xi + dx0, yi + dy0);
    let ghost a1 = sample(m, w, h, xi + dx1, yi + dy1);
    let (t, c) = add_sample(raw, width, height, Some(T::zero()), 0, x, y, dx0, dy0, Ghost(0));
    let (t, c) = add_sample(raw, width, height, t, c, x, y, dx1, dy1, Ghost(a0));
    if !more {
        return (t, c);
    }
    let ghost a2 = sample(m, w, h, xi + dx2, yi + dy2);
    let (t, c) = add_sample(raw, width, height, t, c, x, y, dx2, dy2, Ghost(a0 + a1));
    add_sample(raw, width, height, t, c, x, y, dx3, dy3, Ghost(a0 + a1 + a2))
}

/// Whether the mean of stencil `s` around `(x, y)` can be taken in `T`.
fn stencil_fits_exec<T: FornaxPrimitive>(raw: &[T], width: u32, height: u32, s: Stencil, x: u32, y: u32) -> (r: bool)
    requires
        x < width,
        y < height,
        width * height <= raw@.len(),
    ensures
        r == stencil_fits(values(raw@), width as int, height as int, s, x as int, y as int, T::max_value() as int),
{
    let (total, count) = stencil_total(raw, width, height, s, x, y);
    count > 0 && total.is_some()
}

/// Whether the colour of the pixel at `(x, y)`, of channel `channel`, can be
/// interpolated in `T`.
fn pixel_computable_exec<T: FornaxPrimitive>(
    raw: &[T],
    width: u32,
    height: u32,
    channel: BayerChannel,
    x: u32,
    y: u32,
) -> (r: bool)
    requires
        x < width,
        y < height,
        width * height <= raw@.len(),
    ensures
        r == pixel_computable(values(raw@), width as int, height as int, channel, x as int, y as int, T::max_value() as int),
{
    match channel {
        BayerChannel::R | BayerChannel::B => stencil_fits_exec(raw, width, height, Stencil::Neighbour, x, y)
            && stencil_fits_exec(raw, width, height, Stencil::Diagonal, x, y),
        BayerChannel::G | BayerChannel::G2 => stencil_fits_exec(raw, width, height, Stencil::LeftRight, x, y)
            && stencil_fits_exec(raw, width, height, Stencil::TopDown, x, y),
    }
}

// ---------- Whole images ----------

/// The numbers the samples of a Bayer image stand for, row by row.
pub open spec fn mosaic_values<T: FornaxPrimitive>(img: BayerImage<T>) -> Seq<int> {
    values(img.spec_mosaic().samples())
}

pub open spec fn image_width<T: FornaxPrimitive>(img: BayerImage<T>) -> int {
    img.spec_mosaic().spec_width() as int
}

pub open spec fn image_height<T: FornaxPrimitive>(img: BayerImage<T>) -> int {
    img.spec_mosaic().spec_height() as int
}

/// The colour of the pixel at `(x, y)` of `img` can be interpolated in `T`.
pub open spec fn pixel_demosaicable<T: FornaxPrimitive>(img: BayerImage<T>, x: int, y: int) -> bool {
    pixel_computable(mosaic_values(img), image_width(img), image_height(img),
        img.spec_pattern().channel_at(x, y), x, y, T::max_value() as int)
}

/// Component `k` of the interpolated colour of the pixel at `(x, y)` of `img`.
pub open spec fn interpolated<T: FornaxPrimitive>(img: BayerImage<T>, x: int, y: int, k: int) -> int {
    component(mosaic_values(img), image_width(img), image_height(img),
        img.spec_pattern().channel_at(x, y), x, y, k)
}

/// Every pixel of row `y` of `img` can be interpolated in `T`.
pub open spec fn row_demosaicable<T: FornaxPrimitive>(img: BayerImage<T>, y: int) -> bool {
    forall|x: int| 0 <= x < image_width(img) ==> #[trigger] pixel_demosaicable(img, x, y)
}

/// Every pixel of `img` can be interpolated in `T`: no mean is taken over an
/// empty stencil, and no sum exceeds the largest value of `T`.
pub open spec fn demosaicable<T: FornaxPrimitive>(img: BayerImage<T>) -> bool {
    forall|x: int, y: int| in_frame(image_width(img), image_height(img), x, y)
        ==> #[trigger] pixel_demosaicable(img, x, y)
}

/// A three-channel buffer of the size of `img` fits in memory.
pub open spec fn output_fits<T: FornaxPrimitive>(img: BayerImage<T>) -> bool {
    3 * (image_width(img) * image_height(img)) <= usize::MAX
}

/// `out` is the linear interpolation of `img`: it has the size of `img`, and
/// each pixel holds the recorded sample in its own channel and, in the other
/// two, the rounded-down means of the neighbours that recorded them.
pub open spec fn is_linear_demosaic<T: FornaxPrimitive>(img: BayerImage<T>, out: RgbImage<T>) -> bool {
    let w = image_width(img);
    let h = image_height(img);
    &&& out.spec_width() == w
    &&& out.spec_height() == h
    &&& out.samples().len() == 3 * (w * h)
    &&& forall|x: int, y: int, k: int| in_frame(w, h, x, y) && 0 <= k < 3
        ==> (#[trigger] out.samples()[rgb_index(w, x, y, k)]).value() == interpolated(img, x, y, k)
}

/// `row` is row `y` of the linear interpolation of `img`.
pub open spec fn is_linear_row<T: FornaxPrimitive>(img: BayerImage<T>, y: int, row: Seq<T>) -> bool {
    &&& row.len() == 3 * image_width(img)
    &&& forall|x: int, k: int| 0 <= x < image_width(img) && 0 <= k < 3
        ==> (#[trigger] row[row_index(x, k)]).value() == interpolated(img, x, y, k)
}

proof fn lemma_earlier_rows(w: int, x: int, yy: int, y: int, k: int)
    by (nonlinear_arith)
    requires
        0 <= x < w,
        0 <= yy < y,
        0 <= k < 3,
    ensures
        0 <= rgb_index(w, x, yy, k) < 3 * (y * w),
{
}

proof fn lemma_next_row(w: int, y: int)
    by (nonlinear_arith)
    ensures
        3 * (y * w) + 3 * w == 3 * ((y + 1) * w),
{
}

/// Bilinear demosaicing: each missing channel of a pixel is the mean of the
/// nearest photosites that recorded it.
#[derive(Debug, Clone, Copy, PartialEq, Eq, Structural, Hash)]
pub struct DemosaicLinear;

impl DemosaicLinear {
    /// The interpolated colours of row `y` of `bayer_image`, three values
    /// per pixel, left to right.
    pub fn demosaic_row<T: FornaxPrimitive>(&self, bayer_image: &BayerImage<T>, y: u32) -> (row: Vec<T>)
        requires
            y < image_height(*bayer_image),
            3 * image_width(*bayer_image) <= usize::MAX,
            row_demosaicable(*bayer_image, y as int),
        ensures
            is_linear_row(*bayer_image, y as int, row@),
    {
        let mosaic = bayer_image.mosaic();
        let (width, height) = mosaic.dimensions();
        let bayer_mask = bayer_image.pattern().as_mask();
        let raw_mosaic: &[T] = mosaic.as_raw().as_slice();
        assert forall|x: int| 0 <= x < width implies #[trigger] pixel_computable(values(raw_mosaic@), width as int,
            height as int, bayer_mask@[x % 2 + 2 * (y % 2)], x, y as int, T::max_value() as int) by {
            assert(pixel_demosaicable(*bayer_image, x, y as int));
        }
        fill_row(raw_mosaic, width, height, &bayer_mask, y)
    }

    /// Whether every pixel of `bayer_image` can be interpolated in `T`: the
    /// condition under which `demosaic` computes its result.
    pub fn can_demosaic<T: FornaxPrimitive>(&self, bayer_image: &BayerImage<T>) -> (r: bool)
        ensures
            r == demosaicable(*bayer_image),
    {
        let ghost img = *bayer_image;
        let mosaic = bayer_image.mosaic();
        let (width, height) = mosaic.dimensions();
        let bayer_mask = bayer_image.pattern().as_mask();
        let raw_mosaic: &[T] = mosaic.as_raw().as_slice();
        for y in 0..height
            invariant
                img == *bayer_image,
                width == image_width(img),
                height == image_height(img),
                values(raw_mosaic@) == mosaic_values(img),
                width * height <= raw_mosaic@.len(),
                bayer_mask@ == img.spec_pattern().mask(),
                forall|x: int, yy: int| 0 <= x < width && 0 <= yy < y ==> #[trigger] pixel_demosaicable(img, x, yy),
        {
            for x in 0..width
                invariant
                    img == *bayer_image,
                    y < height,
                    width == image_width(img),
                    height == image_height(img),
                    values(raw_mosaic@) == mosaic_values(img),
                    width * height <= raw_mosaic@.len(),
                    bayer_mask@ == img.spec_pattern().mask(),
                    forall|xx: int, yy: int| 0 <= xx < width && 0 <= yy < y ==> #[trigger] pixel_demosaicable(img, xx, yy),
                    forall|xx: int| 0 <= xx < x ==> #[trigger] pixel_demosaicable(img, xx, y as int),
            {
                assert((x & 1) == x % 2 && (y & 1) == y % 2) by (bit_vector);
                let channel = bayer_mask[((x & 1) + 2 * (y & 1)) as usize];
                if !pixel_computable_exec(raw_mosaic, width, height, channel, x, y) {
                    assert(!pixel_demosaicable(img, x as int, y as int));
                    return false;
                }
                assert(pixel_demosaicable(img, x as int, y as int));
            }
        }
        true
    }

    /// The linear interpolation of `bayer_image`.
    pub fn demosaic<T: FornaxPrimitive>(&self, bayer_image: &BayerImage<T>) -> (r: RgbImage<T>)
        requires
            demosaicable(*bayer_image),
            output_fits(*bayer_image),
        ensures
            is_linear_demosaic(*bayer_image, r),
    {
        let ghost img = *bayer_image;
        let mosaic = bayer_image.mosaic();
        let pattern = bayer_image.pattern();
        let (width, height) = mosaic.dimensions();
        let bayer_mask = pattern.as_mask();

        if width == 0 || height == 0 {
            return RgbImage::new(width, height);
        }

        let raw_mosaic: &[T] = mosaic.as_raw().as_slice();
        let mut out: Vec<T> = Vec::new();
        assert(0 * width == 0) by (nonlinear_arith);
        assert(3 * width <= 3 * (width * height)) by (nonlinear_arith)
            requires
                height >= 1,
        ;
        for y in 0..height
            invariant
                img == *bayer_image,
                width == image_width(img),
                height == image_height(img),
                values(raw_mosaic@) == mosaic_values(img),
                width * height <= raw_mosaic@.len(),
                3 * width <= usize::MAX,
                bayer_mask@ == pattern.mask(),
                pattern == img.spec_pattern(),
                demosaicable(img),
                out@.len() == 3 * (y * width),
                forall|x: int, yy: int, k: int| 0 <= x < width && 0 <= yy < y && 0 <= k < 3
                    ==> (#[trigger] out@[rgb_index(width as int, x, yy, k)]).value() == interpolated(img, x, yy, k),
        {
            assert forall|x: int| 0 <= x < width implies #[trigger] pixel_computable(values(raw_mosaic@),
                width as int, height as int, bayer_mask@[x % 2 + 2 * (y % 2)], x, y as int,
                T::max_value() as int) by {
                assert(pixel_demosaicable(img, x, y as int));
            }
            let ghost before = out@;
            let mut row = fill_row(raw_mosaic, width, height, &bayer_mask, y);
            let ghost row_seq = row@;
            out.append(&mut row);
            proof {
                lemma_next_row(width as int, y as int);
                assert forall|x: int, yy: int, k: int| 0 <= x < width && 0 <= yy < y + 1 && 0 <= k < 3
                    implies (#[trigger] out@[rgb_index(width as int, x, yy, k)]).value()
                        == interpolated(img, x, yy, k) by {
                    if yy < y {
                        lemma_earlier_rows(width as int, x, yy, y as int, k);
                        assert(out@[rgb_index(width as int, x, yy, k)] == before[rgb_index(width as int, x, yy, k)]);
                    } else {
                        assert(rgb_index(width as int, x, yy, k) == before.len() + row_index(x, k));
                        assert(out@[rgb_index(width as int, x, yy, k)] == row_seq[row_index(x, k)]);
                    }
                }
            }
        }
        assert(height * width == width * height) by (nonlinear_arith);
        RgbImage::from_parts(width, height, out)
    }
}

} // verus!
