use vstd::prelude::*;

use crate::bayer::{BayerChannel, BayerImage, BayerPattern, RgbImage};
use crate::demosaic::{
    lemma_samples_nonnegative, lemma_values_nonnegative, stencil_fits,
    demosaicable, image_height, image_width, in_frame, interpolated, is_linear_demosaic, is_linear_row, mosaic_values, row_index,
    pixel, pixel_computable, pixel_demosaicable, present, rgb_index, sample, stencil_count, stencil_mean, stencil_sum, window_component, window_computable, window_mean, window_size, window_sum,
    component, Stencil,
};
use crate::dcraw::{
    DCRawFbddNoiserd, DCRawHighlightMode, DCRawOutputBps, DCRawOutputColor, DCRawOutputTiff, DCRawParams,
    DCRawUseCameraMatrix, DCRawUserFlip, DCRawUserQual, LibrawOutputParams, F64_ONE_BITS,
};
use crate::primitive::FornaxPrimitive;

verus! {

proof fn lemma_weighted_bounds(s: int, p: int, lo: int, hi: int)
    requires
        p == 0 || p == 1,
        p == 1 ==> lo <= s <= hi,
        p == 0 ==> s == 0,
    ensures
        p * lo <= s <= p * hi,
{
}

proof fn lemma_mean_between(sum: int, count: int, lo: int, hi: int)
    by (nonlinear_arith)
    requires
        0 < count,
        count * lo <= sum <= count * hi,
    ensures
        lo <= sum / count <= hi,
{
}

proof fn lemma_sum4_bounds(s0: int, s1: int, s2: int, s3: int, p0: int, p1: int, p2: int, p3: int, lo: int, hi: int)
    by (nonlinear_arith)
    requires
        p0 * lo <= s0 <= p0 * hi,
        p1 * lo <= s1 <= p1 * hi,
        p2 * lo <= s2 <= p2 * hi,
        p3 * lo <= s3 <= p3 * hi,
    ensures
        (p0 + p1 + p2 + p3) * lo <= s0 + s1 + s2 + s3 <= (p0 + p1 + p2 + p3) * hi,
{
}

/// Whether the offset `(dx, dy)` from a pixel is one of the positions of
/// stencil `s`.
pub open spec fn on_stencil(s: Stencil, dx: int, dy: int) -> bool {
    let unit_x = dx == 1 || dx == -1;
    let unit_y = dy == 1 || dy == -1;
    match s {
        Stencil::Diagonal => unit_x && unit_y,
        Stencil::Neighbour => (dx == 0 && unit_y) || (dy == 0 && unit_x),
        Stencil::LeftRight => dy == 0 && unit_x,
        Stencil::TopDown => dx == 0 && unit_y,
    }
}

/// Where every sample of stencil `s` around `(x, y)` that lies in the image
/// is in `[lo, hi]`, so is the mean of the stencil, if it holds a sample.
proof fn lemma_stencil_mean_bounded(m: Seq<int>, w: int, h: int, s: Stencil, x: int, y: int, lo: int, hi: int)
    requires
        stencil_count(w, h, s, x, y) > 0,
        forall|xx: int, yy: int| in_frame(w, h, xx, yy) && on_stencil(s, xx - x, yy - y)
            ==> lo <= #[trigger] pixel(m, w, xx, yy) <= hi,
    ensures
        lo <= stencil_mean(m, w, h, s, x, y) <= hi,
{
    let (dx0, dy0, dx1, dy1, dx2, dy2, dx3, dy3, more) = match s {
        Stencil::Diagonal => (-1int, -1int, 1int, -1int, -1int, 1int, 1int, 1int, true),
        Stencil::Neighbour => (-1, 0, 1, 0, 0, -1, 0, 1, true),
        Stencil::LeftRight => (-1, 0, 1, 0, 0, 0, 0, 0, false),
        Stencil::TopDown => (0, -1, 0, 1, 0, 0, 0, 0, false),
    };
    let s0 = sample(m, w, h, x + dx0, y + dy0);
    let s1 = sample(m, w, h, x + dx1, y + dy1);
    let p0 = present(w, h, x + dx0, y + dy0);
    let p1 = present(w, h, x + dx1, y + dy1);
    lemma_weighted_bounds(s0, p0, lo, hi);
    lemma_weighted_bounds(s1, p1, lo, hi);
    if more {
        let s2 = sample(m, w, h, x + dx2, y + dy2);
        let s3 = sample(m, w, h, x + dx3, y + dy3);
        let p2 = present(w, h, x + dx2, y + dy2);
        let p3 = present(w, h, x + dx3, y + dy3);
        lemma_weighted_bounds(s2, p2, lo, hi);
        lemma_weighted_bounds(s3, p3, lo, hi);
        lemma_sum4_bounds(s0, s1, s2, s3, p0, p1, p2, p3, lo, hi);
    } else {
        lemma_sum4_bounds(s0, s1, 0, 0, p0, p1, 0, 0, lo, hi);
    }
    lemma_mean_between(stencil_sum(m, w, h, s, x, y), stencil_count(w, h, s, x, y), lo, hi);
}

/// The slot of the interpolated colour that holds the channel a photosite records.
pub open spec fn recorded_slot(c: BayerChannel) -> int {
    match c {
        BayerChannel::R => 0,
        BayerChannel::G | BayerChannel::G2 => 1,
        BayerChannel::B => 2,
    }
}

/// Interpolation keeps what the sensor measured: each pixel's own channel in
/// the result is the sample its photosite recorded.
pub proof fn law_recorded_samples_kept<T: FornaxPrimitive>(img: BayerImage<T>, out: RgbImage<T>)
    requires
        is_linear_demosaic(img, out),
    ensures
        forall|x: int, y: int| #![trigger img.spec_pattern().channel_at(x, y)]
            in_frame(image_width(img), image_height(img), x, y)
            ==> out.samples()[rgb_index(image_width(img), x, y, recorded_slot(img.spec_pattern().channel_at(x, y)))].value()
                == pixel(mosaic_values(img), image_width(img), x, y),
{
    assert forall|x: int, y: int| #![trigger img.spec_pattern().channel_at(x, y)]
        in_frame(image_width(img), image_height(img), x, y)
        implies out.samples()[rgb_index(image_width(img), x, y, recorded_slot(img.spec_pattern().channel_at(x, y)))].value()
            == pixel(mosaic_values(img), image_width(img), x, y) by {
        let k = recorded_slot(img.spec_pattern().channel_at(x, y));
        assert(out.samples()[rgb_index(image_width(img), x, y, k)].value() == interpolated(img, x, y, k));
    }
}

/// Interpolation never leaves the range of the samples: where every sample of
/// the image lies in `[lo, hi]`, so does every channel of every pixel of the
/// result.
pub proof fn law_result_within_sample_range<T: FornaxPrimitive>(img: BayerImage<T>, out: RgbImage<T>, lo: int, hi: int)
    requires
        demosaicable(img),
        is_linear_demosaic(img, out),
        forall|x: int, y: int| in_frame(image_width(img), image_height(img), x, y)
            ==> lo <= #[trigger] pixel(mosaic_values(img), image_width(img), x, y) <= hi,
    ensures
        forall|x: int, y: int, k: int| in_frame(image_width(img), image_height(img), x, y) && 0 <= k < 3
            ==> lo <= (#[trigger] out.samples()[rgb_index(image_width(img), x, y, k)]).value() <= hi,
{
    let m = mosaic_values(img);
    let w = image_width(img);
    let h = image_height(img);
    assert forall|x: int, y: int, k: int| in_frame(w, h, x, y) && 0 <= k < 3
        implies lo <= (#[trigger] out.samples()[rgb_index(w, x, y, k)]).value() <= hi by {
        assert(pixel_demosaicable(img, x, y));
        assert(pixel(m, w, x, y) == pixel(m, w, x, y));
        lemma_stencil_mean_bounded(m, w, h, Stencil::Diagonal, x, y, lo, hi);
        lemma_stencil_mean_bounded(m, w, h, Stencil::Neighbour, x, y, lo, hi);
        lemma_stencil_mean_bounded(m, w, h, Stencil::LeftRight, x, y, lo, hi);
        lemma_stencil_mean_bounded(m, w, h, Stencil::TopDown, x, y, lo, hi);
    }
}

/// A flat field stays flat: where every sample of the image is `v`, every
/// channel of every pixel of the result is `v`.
pub proof fn law_flat_field_preserved<T: FornaxPrimitive>(img: BayerImage<T>, out: RgbImage<T>, v: int)
    requires
        demosaicable(img),
        is_linear_demosaic(img, out),
        forall|x: int, y: int| in_frame(image_width(img), image_height(img), x, y)
            ==> #[trigger] pixel(mosaic_values(img), image_width(img), x, y) == v,
    ensures
        forall|x: int, y: int, k: int| in_frame(image_width(img), image_height(img), x, y) && 0 <= k < 3
            ==> (#[trigger] out.samples()[rgb_index(image_width(img), x, y, k)]).value() == v,
{
    law_result_within_sample_range(img, out, v, v);
}

/// The pattern of the same sensor with its red and blue photosites exchanged.
pub open spec fn red_blue_exchanged(p: BayerPattern) -> BayerPattern {
    match p {
        BayerPattern::RGGB => BayerPattern::BGGR,
        BayerPattern::BGGR => BayerPattern::RGGB,
        BayerPattern::GRBG => BayerPattern::GBRG,
        BayerPattern::GBRG => BayerPattern::GRBG,
    }
}

/// The channel a photosite records once red and blue are exchanged.
pub open spec fn channel_exchanged(c: BayerChannel) -> BayerChannel {
    match c {
        BayerChannel::R => BayerChannel::B,
        BayerChannel::B => BayerChannel::R,
        BayerChannel::G => BayerChannel::G2,
        BayerChannel::G2 => BayerChannel::G,
    }
}

proof fn lemma_exchanged_channel(p: BayerPattern, x: int, y: int)
    ensures
        red_blue_exchanged(p).channel_at(x, y) == channel_exchanged(p.channel_at(x, y)),
{
    let slot = x % 2 + 2 * (y % 2);
    let q = red_blue_exchanged(p);
    assert(p.mask().len() == 4 && q.mask().len() == 4);
    let swapped = p.mask().map_values(|c: BayerChannel| channel_exchanged(c));
    match p {
        BayerPattern::RGGB => assert(q.mask() =~= swapped),
        BayerPattern::BGGR => assert(q.mask() =~= swapped),
        BayerPattern::GRBG => assert(q.mask() =~= swapped),
        BayerPattern::GBRG => assert(q.mask() =~= swapped),
    }
    assert(0 <= slot < 4);
}

/// Reading the same mosaic under the pattern with red and blue exchanged
/// exchanges the red and blue channels of the result, and keeps green.
pub proof fn law_red_blue_exchange<T: FornaxPrimitive>(a: BayerImage<T>, out_a: RgbImage<T>, b: BayerImage<T>, out_b: RgbImage<T>)
    requires
        b.spec_mosaic() == a.spec_mosaic(),
        b.spec_pattern() == red_blue_exchanged(a.spec_pattern()),
        is_linear_demosaic(a, out_a),
        is_linear_demosaic(b, out_b),
    ensures
        forall|x: int, y: int, k: int| in_frame(image_width(a), image_height(a), x, y) && 0 <= k < 3
            ==> (#[trigger] out_a.samples()[rgb_index(image_width(a), x, y, k)]).value()
                == out_b.samples()[rgb_index(image_width(a), x, y, 2 - k)].value(),
{
    let w = image_width(a);
    assert forall|x: int, y: int, k: int| in_frame(w, image_height(a), x, y) && 0 <= k < 3
        implies (#[trigger] out_a.samples()[rgb_index(w, x, y, k)]).value()
            == out_b.samples()[rgb_index(w, x, y, 2 - k)].value() by {
        assert(out_a.samples()[rgb_index(w, x, y, k)].value() == interpolated(a, x, y, k));
        assert(out_b.samples()[rgb_index(w, x, y, 2 - k)].value() == interpolated(b, x, y, 2 - k));
        let slot = x % 2 + 2 * (y % 2);
        assert(0 <= slot < 4);
        let ca = a.spec_pattern().channel_at(x, y);
        let cb = b.spec_pattern().channel_at(x, y);
        lemma_exchanged_channel(a.spec_pattern(), x, y);
        if k == 0 {
        } else if k == 1 {
        } else {
        }
    }
}

/// The result is its rows laid end to end: row `y` of the whole-image
/// interpolation is the row that `demosaic_row` computes for `y`.
pub proof fn law_rows_assemble_image<T: FornaxPrimitive>(img: BayerImage<T>, out: RgbImage<T>, y: int, row: Seq<T>)
    requires
        0 <= y < image_height(img),
        is_linear_demosaic(img, out),
        is_linear_row(img, y, row),
    ensures
        out.samples().subrange(3 * (y * image_width(img)), 3 * (y * image_width(img)) + 3 * image_width(img)) == row,
{
    let w = image_width(img);
    let h = image_height(img);
    lemma_row_inside(w, h, y);
    let part = out.samples().subrange(3 * (y * w), 3 * (y * w) + 3 * w);
    assert forall|i: int| 0 <= i < row.len() implies part[i] == row[i] by {
        let x = i / 3;
        let k = i % 3;
        assert(i == row_index(x, k));
        assert(rgb_index(w, x, y, k) == 3 * (y * w) + i);
        assert(out.samples()[rgb_index(w, x, y, k)].value() == interpolated(img, x, y, k));
        assert(row[row_index(x, k)].value() == interpolated(img, x, y, k));
        T::lemma_value_injective(part[i], row[i]);
    }
    assert(part =~= row);
}

proof fn lemma_row_inside(w: int, h: int, y: int)
    by (nonlinear_arith)
    requires
        0 <= y < h,
        0 <= w,
    ensures
        0 <= 3 * (y * w),
        3 * (y * w) + 3 * w <= 3 * (w * h),
{
}

/// Every 2x2 tile holds each of the four channels once.
pub proof fn law_tile_holds_each_channel_once(p: BayerPattern)
    ensures
        p.mask().len() == 4,
        forall|c: BayerChannel| #[trigger] p.mask().contains(c),
        forall|i: int, j: int| 0 <= i < 4 && 0 <= j < 4 && i != j ==> p.mask()[i] != p.mask()[j],
{
    assert forall|c: BayerChannel| #[trigger] p.mask().contains(c) by {
        if p.mask()[0] == c {
            assert(p.mask()[0] == c);
        } else if p.mask()[1] == c {
            assert(p.mask()[1] == c);
        } else if p.mask()[2] == c {
            assert(p.mask()[2] == c);
        } else {
            assert(p.mask()[3] == c);
        }
    }
}

/// The pattern repeats every two columns and every two rows.
pub proof fn law_pattern_repeats(p: BayerPattern, x: int, y: int)
    ensures
        p.channel_at(x + 2, y) == p.channel_at(x, y),
        p.channel_at(x, y + 2) == p.channel_at(x, y),
{
    assert((x + 2) % 2 == x % 2);
    assert((y + 2) % 2 == y % 2);
}

/// Settings left unset leave libraw's settings as they are.
pub proof fn law_unset_settings_change_nothing(current: LibrawOutputParams)
    ensures
        DCRawParams::unset().applied_to(current) == current,
{
    assert(DCRawParams::unset().applied_to(current) =~= current);
}

/// Writing the same settings twice leaves what writing them once leaves.
pub proof fn law_setting_twice_is_setting_once(params: DCRawParams, current: LibrawOutputParams)
    ensures
        params.applied_to(params.applied_to(current)) == params.applied_to(current),
{
    let once = params.applied_to(current);
    let twice = params.applied_to(once);
    assert(twice.aber@ =~= once.aber@);
    assert(twice.gamm@ =~= once.gamm@);
    assert(twice =~= once);
}

/// The cg preset sets the gamma curve to power one and toe slope one, the
/// output colour space to ACES and the output to 16 bits per sample, and
/// leaves every other setting of libraw as it is.
pub proof fn law_cg_preset_effect(current: LibrawOutputParams)
    ensures
        ({
            let r = DCRawParams::cg().applied_to(current);
            &&& r.gamm@ == current.gamm@.update(0, F64_ONE_BITS).update(1, F64_ONE_BITS)
            &&& r.output_color == 6
            &&& r.output_bps == 16
            &&& r == (LibrawOutputParams { gamm: r.gamm, output_color: 6, output_bps: 16, ..current })
        }),
{
    let r = DCRawParams::cg().applied_to(current);
    assert(r.gamm@ =~= current.gamm@.update(0, F64_ONE_BITS).update(1, F64_ONE_BITS));
}

/// Inside the image, the fast path and the checked path take the same means:
/// around a pixel whose whole 3x3 neighbourhood lies in the image, every
/// stencil is whole, its sum and size are those of the whole window, and the
/// colour computed from whole windows is the colour of the model.
pub proof fn law_fast_path_agrees_with_checked(m: Seq<int>, w: int, h: int, x: int, y: int)
    requires
        1 <= x < w - 1,
        1 <= y < h - 1,
    ensures
        forall|s: Stencil| #[trigger] stencil_sum(m, w, h, s, x, y) == window_sum(m, w, s, x, y)
            && stencil_count(w, h, s, x, y) == window_size(s),
        forall|s: Stencil| #[trigger] stencil_mean(m, w, h, s, x, y) == window_mean(m, w, s, x, y),
        forall|c: BayerChannel, k: int| #[trigger] component(m, w, h, c, x, y, k) == window_component(m, w, c, x, y, k),
        forall|c: BayerChannel, max: int| #[trigger] pixel_computable(m, w, h, c, x, y, max)
            <==> window_computable(m, w, c, x, y, max),
{
    assert forall|s: Stencil| #[trigger] stencil_sum(m, w, h, s, x, y) == window_sum(m, w, s, x, y)
        && stencil_count(w, h, s, x, y) == window_size(s) by {
        match s {
            Stencil::Diagonal => {},
            Stencil::Neighbour => {},
            Stencil::LeftRight => {},
            Stencil::TopDown => {},
        }
    }
    assert forall|s: Stencil| #[trigger] stencil_mean(m, w, h, s, x, y) == window_mean(m, w, s, x, y) by {
        assert(stencil_sum(m, w, h, s, x, y) == window_sum(m, w, s, x, y));
    }
    assert forall|c: BayerChannel, k: int| #[trigger] component(m, w, h, c, x, y, k) == window_component(m, w, c, x, y, k) by {
        assert(stencil_mean(m, w, h, Stencil::Diagonal, x, y) == window_mean(m, w, Stencil::Diagonal, x, y));
        assert(stencil_mean(m, w, h, Stencil::Neighbour, x, y) == window_mean(m, w, Stencil::Neighbour, x, y));
        assert(stencil_mean(m, w, h, Stencil::LeftRight, x, y) == window_mean(m, w, Stencil::LeftRight, x, y));
        assert(stencil_mean(m, w, h, Stencil::TopDown, x, y) == window_mean(m, w, Stencil::TopDown, x, y));
    }
    assert forall|c: BayerChannel, max: int| #[trigger] pixel_computable(m, w, h, c, x, y, max)
        <==> window_computable(m, w, c, x, y, max) by {
        assert(stencil_sum(m, w, h, Stencil::Diagonal, x, y) == window_sum(m, w, Stencil::Diagonal, x, y));
        assert(stencil_sum(m, w, h, Stencil::Neighbour, x, y) == window_sum(m, w, Stencil::Neighbour, x, y));
        assert(stencil_sum(m, w, h, Stencil::LeftRight, x, y) == window_sum(m, w, Stencil::LeftRight, x, y));
        assert(stencil_sum(m, w, h, Stencil::TopDown, x, y) == window_sum(m, w, Stencil::TopDown, x, y));
    }
}

/// Each pixel of the result depends only on the 3x3 window around it: two
/// images of the same size and pattern whose samples agree on that window
/// give that pixel the same colour.
pub proof fn law_interpolation_is_local<T: FornaxPrimitive>(
    a: BayerImage<T>,
    out_a: RgbImage<T>,
    b: BayerImage<T>,
    out_b: RgbImage<T>,
    x: int,
    y: int,
)
    requires
        image_width(a) == image_width(b),
        image_height(a) == image_height(b),
        a.spec_pattern() == b.spec_pattern(),
        in_frame(image_width(a), image_height(a), x, y),
        forall|xx: int, yy: int| x - 1 <= xx <= x + 1 && y - 1 <= yy <= y + 1
            && in_frame(image_width(a), image_height(a), xx, yy)
            ==> #[trigger] pixel(mosaic_values(a), image_width(a), xx, yy) == pixel(mosaic_values(b), image_width(a), xx, yy),
        is_linear_demosaic(a, out_a),
        is_linear_demosaic(b, out_b),
    ensures
        forall|k: int| 0 <= k < 3 ==> #[trigger] interpolated(a, x, y, k) == interpolated(b, x, y, k),
        forall|k: int| 0 <= k < 3 ==> #[trigger] out_a.samples()[rgb_index(image_width(a), x, y, k)]
            == out_b.samples()[rgb_index(image_width(a), x, y, k)],
{
    let w = image_width(a);
    let h = image_height(a);
    let (ma, mb) = (mosaic_values(a), mosaic_values(b));
    assert(pixel(ma, w, x, y) == pixel(mb, w, x, y));
    assert forall|dx: int, dy: int| -1 <= dx <= 1 && -1 <= dy <= 1
        implies #[trigger] sample(ma, w, h, x + dx, y + dy) == sample(mb, w, h, x + dx, y + dy) by {
        if in_frame(w, h, x + dx, y + dy) {
            assert(pixel(ma, w, x + dx, y + dy) == pixel(mb, w, x + dx, y + dy));
        }
    }
    assert forall|s: Stencil| #[trigger] stencil_mean(ma, w, h, s, x, y) == stencil_mean(mb, w, h, s, x, y) by {
        assert(sample(ma, w, h, x + -1, y + -1) == sample(mb, w, h, x + -1, y + -1));
        assert(sample(ma, w, h, x + 1, y + -1) == sample(mb, w, h, x + 1, y + -1));
        assert(sample(ma, w, h, x + -1, y + 1) == sample(mb, w, h, x + -1, y + 1));
        assert(sample(ma, w, h, x + 1, y + 1) == sample(mb, w, h, x + 1, y + 1));
        assert(sample(ma, w, h, x + -1, y + 0) == sample(mb, w, h, x + -1, y + 0));
        assert(sample(ma, w, h, x + 1, y + 0) == sample(mb, w, h, x + 1, y + 0));
        assert(sample(ma, w, h, x + 0, y + -1) == sample(mb, w, h, x + 0, y + -1));
        assert(sample(ma, w, h, x + 0, y + 1) == sample(mb, w, h, x + 0, y + 1));
    }
    assert forall|k: int| 0 <= k < 3 implies #[trigger] interpolated(a, x, y, k) == interpolated(b, x, y, k) by {
        assert(stencil_mean(ma, w, h, Stencil::Diagonal, x, y) == stencil_mean(mb, w, h, Stencil::Diagonal, x, y));
        assert(stencil_mean(ma, w, h, Stencil::Neighbour, x, y) == stencil_mean(mb, w, h, Stencil::Neighbour, x, y));
        assert(stencil_mean(ma, w, h, Stencil::LeftRight, x, y) == stencil_mean(mb, w, h, Stencil::LeftRight, x, y));
        assert(stencil_mean(ma, w, h, Stencil::TopDown, x, y) == stencil_mean(mb, w, h, Stencil::TopDown, x, y));
    }
    assert forall|k: int| 0 <= k < 3 implies #[trigger] out_a.samples()[rgb_index(w, x, y, k)]
        == out_b.samples()[rgb_index(w, x, y, k)] by {
        assert(interpolated(a, x, y, k) == interpolated(b, x, y, k));
        T::lemma_value_injective(out_a.samples()[rgb_index(w, x, y, k)], out_b.samples()[rgb_index(w, x, y, k)]);
    }
}

proof fn lemma_rgb_index_onto(w: int, h: int, i: int) -> (r: (int, int, int))
    requires
        0 <= w,
        0 <= h,
        0 <= i < 3 * (w * h),
    ensures
        in_frame(w, h, r.0, r.1),
        0 <= r.2 < 3,
        rgb_index(w, r.0, r.1, r.2) == i,
{
    let p = i / 3;
    let k = i % 3;
    assert(0 <= p < w * h && i == 3 * p + k && 0 <= k < 3) by (nonlinear_arith)
        requires
            0 <= i < 3 * (w * h),
            p == i / 3,
            k == i % 3,
    ;
    assert(w > 0 && h > 0) by (nonlinear_arith)
        requires
            0 <= p < w * h,
            w >= 0,
            h >= 0,
    ;
    let y = p / w;
    let x = p % w;
    assert(0 <= x < w && 0 <= y < h && p == y * w + x) by (nonlinear_arith)
        requires
            0 <= p < w * h,
            w > 0,
            y == p / w,
            x == p % w,
    ;
    (x, y, k)
}

/// Interpolation is a function of the image: two linear interpolations of the
/// same image are the same buffer, however their rows were scheduled.
pub proof fn law_result_determined_by_image<T: FornaxPrimitive>(img: BayerImage<T>, out1: RgbImage<T>, out2: RgbImage<T>)
    requires
        is_linear_demosaic(img, out1),
        is_linear_demosaic(img, out2),
    ensures
        out1.spec_width() == out2.spec_width(),
        out1.spec_height() == out2.spec_height(),
        out1.samples() == out2.samples(),
{
    let w = image_width(img);
    let h = image_height(img);
    assert forall|i: int| 0 <= i < out1.samples().len() implies out1.samples()[i] == out2.samples()[i] by {
        let (x, y, k) = lemma_rgb_index_onto(w, h, i);
        assert(out1.samples()[rgb_index(w, x, y, k)].value() == interpolated(img, x, y, k));
        assert(out2.samples()[rgb_index(w, x, y, k)].value() == interpolated(img, x, y, k));
        T::lemma_value_injective(out1.samples()[i], out2.samples()[i]);
    }
    assert(out1.samples() =~= out2.samples());
}

/// The channel of the photosites to the left and right of a site of channel `c`.
pub open spec fn beside(c: BayerChannel) -> BayerChannel {
    match c {
        BayerChannel::R => BayerChannel::G,
        BayerChannel::G => BayerChannel::R,
        BayerChannel::B => BayerChannel::G2,
        BayerChannel::G2 => BayerChannel::B,
    }
}

/// The channel of the photosites above and below a site of channel `c`.
pub open spec fn above(c: BayerChannel) -> BayerChannel {
    match c {
        BayerChannel::R => BayerChannel::G2,
        BayerChannel::G2 => BayerChannel::R,
        BayerChannel::G => BayerChannel::B,
        BayerChannel::B => BayerChannel::G,
    }
}

/// The channel of the photosites diagonal to a site of channel `c`.
pub open spec fn across(c: BayerChannel) -> BayerChannel {
    match c {
        BayerChannel::R => BayerChannel::B,
        BayerChannel::B => BayerChannel::R,
        BayerChannel::G => BayerChannel::G2,
        BayerChannel::G2 => BayerChannel::G,
    }
}

/// How the channels of neighbouring photosites relate, for every pattern:
/// red sites have green to the side, green-on-blue above and below and blue
/// on the diagonals, and so on round the tile.
pub proof fn law_neighbouring_channels(p: BayerPattern, x: int, y: int)
    ensures
        p.channel_at(x - 1, y) == beside(p.channel_at(x, y)),
        p.channel_at(x + 1, y) == beside(p.channel_at(x, y)),
        p.channel_at(x, y - 1) == above(p.channel_at(x, y)),
        p.channel_at(x, y + 1) == above(p.channel_at(x, y)),
        p.channel_at(x - 1, y - 1) == across(p.channel_at(x, y)),
        p.channel_at(x + 1, y - 1) == across(p.channel_at(x, y)),
        p.channel_at(x - 1, y + 1) == across(p.channel_at(x, y)),
        p.channel_at(x + 1, y + 1) == across(p.channel_at(x, y)),
{
    let a = x % 2;
    let b = y % 2;
    assert((x - 1) % 2 == 1 - a && (x + 1) % 2 == 1 - a);
    assert((y - 1) % 2 == 1 - b && (y + 1) % 2 == 1 - b);
    assert(a == 0 || a == 1);
    assert(b == 0 || b == 1);
    match p {
        BayerPattern::RGGB => {},
        BayerPattern::BGGR => {},
        BayerPattern::GRBG => {},
        BayerPattern::GBRG => {},
    }
}

/// The value a photosite of channel `c` records when every red site records
/// `r`, every green site `g` and every blue site `b`.
pub open spec fn site_value(c: BayerChannel, r: int, g: int, b: int) -> int {
    match c {
        BayerChannel::R => r,
        BayerChannel::G | BayerChannel::G2 => g,
        BayerChannel::B => b,
    }
}

/// A scene of one colour gives that colour everywhere: where every red
/// photosite records `r`, every green one `g` and every blue one `b`, every
/// pixel of the result is `(r, g, b)`. In particular the red of a blue site
/// comes from its diagonal (red) neighbours, never from its edge (green) ones.
pub proof fn law_uniform_sites_give_uniform_colour<T: FornaxPrimitive>(
    img: BayerImage<T>,
    out: RgbImage<T>,
    r: int,
    g: int,
    b: int,
)
    requires
        demosaicable(img),
        is_linear_demosaic(img, out),
        forall|x: int, y: int| in_frame(image_width(img), image_height(img), x, y)
            ==> #[trigger] pixel(mosaic_values(img), image_width(img), x, y)
                == site_value(img.spec_pattern().channel_at(x, y), r, g, b),
    ensures
        forall|x: int, y: int, k: int| in_frame(image_width(img), image_height(img), x, y) && 0 <= k < 3
            ==> (#[trigger] out.samples()[rgb_index(image_width(img), x, y, k)]).value()
                == (if k == 0 { r } else if k == 1 { g } else { b }),
{
    let m = mosaic_values(img);
    let w = image_width(img);
    let h = image_height(img);
    let p = img.spec_pattern();
    assert forall|x: int, y: int, k: int| in_frame(w, h, x, y) && 0 <= k < 3
        implies (#[trigger] out.samples()[rgb_index(w, x, y, k)]).value()
            == (if k == 0 { r } else if k == 1 { g } else { b }) by {
        let c = p.channel_at(x, y);
        assert(pixel_demosaicable(img, x, y));
        assert(out.samples()[rgb_index(w, x, y, k)].value() == interpolated(img, x, y, k));
        assert forall|s: Stencil| stencil_count(w, h, s, x, y) > 0
            && (s == Stencil::Neighbour ==> (c == BayerChannel::R || c == BayerChannel::B))
            implies #[trigger] stencil_mean(m, w, h, s, x, y)
            == match s {
                Stencil::Diagonal => site_value(across(c), r, g, b),
                Stencil::Neighbour => site_value(beside(c), r, g, b),
                Stencil::LeftRight => site_value(beside(c), r, g, b),
                Stencil::TopDown => site_value(above(c), r, g, b),
            } by {
            let v = match s {
                Stencil::Diagonal => site_value(across(c), r, g, b),
                Stencil::Neighbour => site_value(beside(c), r, g, b),
                Stencil::LeftRight => site_value(beside(c), r, g, b),
                Stencil::TopDown => site_value(above(c), r, g, b),
            };
            assert forall|xx: int, yy: int| in_frame(w, h, xx, yy) && on_stencil(s, xx - x, yy - y)
                implies v <= #[trigger] pixel(m, w, xx, yy) <= v by {
                law_neighbouring_channels(p, x, y);
                assert(pixel(m, w, xx, yy) == site_value(p.channel_at(xx, yy), r, g, b));
            }
            lemma_stencil_mean_bounded(m, w, h, s, x, y, v, v);
        }
        match c {
            BayerChannel::R | BayerChannel::B => {
                assert(stencil_mean(m, w, h, Stencil::Diagonal, x, y) == site_value(across(c), r, g, b));
                assert(stencil_mean(m, w, h, Stencil::Neighbour, x, y) == site_value(beside(c), r, g, b));
            },
            BayerChannel::G | BayerChannel::G2 => {
                assert(stencil_mean(m, w, h, Stencil::LeftRight, x, y) == site_value(beside(c), r, g, b));
                assert(stencil_mean(m, w, h, Stencil::TopDown, x, y) == site_value(above(c), r, g, b));
            },
        }
        assert(pixel(m, w, x, y) == site_value(c, r, g, b));
    }
}

proof fn lemma_count_times_bound(count: int, q: int)
    by (nonlinear_arith)
    requires
        0 <= count <= 4,
        0 <= q,
    ensures
        count * q <= 4 * q,
{
}

/// In an image of at least two rows and two columns, every stencil around a
/// pixel holds a sample, and where the samples are at most `q` with `4 * q`
/// fitting in `max`, its sum fits too.
proof fn lemma_stencil_fits_small(m: Seq<int>, w: int, h: int, s: Stencil, x: int, y: int, q: int, max: int)
    requires
        w >= 2,
        h >= 2,
        in_frame(w, h, x, y),
        0 <= q,
        4 * q <= max,
        forall|xx: int, yy: int| in_frame(w, h, xx, yy) ==> 0 <= #[trigger] pixel(m, w, xx, yy) <= q,
    ensures
        stencil_fits(m, w, h, s, x, y, max),
{
    let (dx0, dy0, dx1, dy1, dx2, dy2, dx3, dy3, more) = match s {
        Stencil::Diagonal => (-1int, -1int, 1int, -1int, -1int, 1int, 1int, 1int, true),
        Stencil::Neighbour => (-1, 0, 1, 0, 0, -1, 0, 1, true),
        Stencil::LeftRight => (-1, 0, 1, 0, 0, 0, 0, 0, false),
        Stencil::TopDown => (0, -1, 0, 1, 0, 0, 0, 0, false),
    };
    let s0 = sample(m, w, h, x + dx0, y + dy0);
    let s1 = sample(m, w, h, x + dx1, y + dy1);
    let p0 = present(w, h, x + dx0, y + dy0);
    let p1 = present(w, h, x + dx1, y + dy1);
    lemma_weighted_bounds(s0, p0, 0, q);
    lemma_weighted_bounds(s1, p1, 0, q);
    if more {
        let s2 = sample(m, w, h, x + dx2, y + dy2);
        let s3 = sample(m, w, h, x + dx3, y + dy3);
        let p2 = present(w, h, x + dx2, y + dy2);
        let p3 = present(w, h, x + dx3, y + dy3);
        lemma_weighted_bounds(s2, p2, 0, q);
        lemma_weighted_bounds(s3, p3, 0, q);
        lemma_sum4_bounds(s0, s1, s2, s3, p0, p1, p2, p3, 0, q);
        lemma_count_times_bound(p0 + p1 + p2 + p3, q);
    } else {
        lemma_sum4_bounds(s0, s1, 0, 0, p0, p1, 0, 0, 0, q);
        lemma_count_times_bound(p0 + p1, q);
    }
}

/// An image of at least two rows and two columns whose samples are each at
/// most a quarter of the largest value of `T` can always be interpolated in
/// `T`: `can_demosaic` accepts it.
pub proof fn law_small_samples_demosaicable<T: FornaxPrimitive>(img: BayerImage<T>, q: int)
    requires
        image_width(img) * image_height(img) <= img.spec_mosaic().samples().len(),
        image_width(img) >= 2,
        image_height(img) >= 2,
        0 <= q,
        4 * q <= T::max_value(),
        forall|x: int, y: int| in_frame(image_width(img), image_height(img), x, y)
            ==> #[trigger] pixel(mosaic_values(img), image_width(img), x, y) <= q,
    ensures
        demosaicable(img),
{
    let m = mosaic_values(img);
    let w = image_width(img);
    let h = image_height(img);
    lemma_values_nonnegative(img.spec_mosaic().samples());
    lemma_samples_nonnegative(m, w, h);
    assert forall|xx: int, yy: int| in_frame(w, h, xx, yy) implies 0 <= #[trigger] pixel(m, w, xx, yy) <= q by {
        assert(sample(m, w, h, xx, yy) >= 0);
    }
    assert forall|x: int, y: int| in_frame(w, h, x, y) implies #[trigger] pixel_demosaicable(img, x, y) by {
        lemma_stencil_fits_small(m, w, h, Stencil::Diagonal, x, y, q, T::max_value() as int);
        lemma_stencil_fits_small(m, w, h, Stencil::Neighbour, x, y, q, T::max_value() as int);
        lemma_stencil_fits_small(m, w, h, Stencil::LeftRight, x, y, q, T::max_value() as int);
        lemma_stencil_fits_small(m, w, h, Stencil::TopDown, x, y, q, T::max_value() as int);
    }
}

/// A flat field of value `v` at least four pixels wide and high can be
/// interpolated in `T` exactly when four samples' sum `4 * v` fits in `T`:
/// `can_demosaic` answers that and nothing stricter.
pub proof fn law_flat_field_demosaicable_iff<T: FornaxPrimitive>(img: BayerImage<T>, v: int)
    requires
        image_width(img) * image_height(img) <= img.spec_mosaic().samples().len(),
        image_width(img) >= 4,
        image_height(img) >= 4,
        forall|x: int, y: int| in_frame(image_width(img), image_height(img), x, y)
            ==> #[trigger] pixel(mosaic_values(img), image_width(img), x, y) == v,
    ensures
        demosaicable(img) <==> 4 * v <= T::max_value(),
{
    let m = mosaic_values(img);
    let w = image_width(img);
    let h = image_height(img);
    lemma_values_nonnegative(img.spec_mosaic().samples());
    lemma_samples_nonnegative(m, w, h);
    assert(sample(m, w, h, 0, 0) >= 0);
    assert(pixel(m, w, 0, 0) == v);
    if 4 * v <= T::max_value() {
        law_small_samples_demosaicable(img, v);
    }
    if demosaicable(img) {
        // The red site of the tile at columns 1..=2, rows 1..=2 lies inside.
        let (x, y) = match img.spec_pattern() {
            BayerPattern::RGGB => (2int, 2int),
            BayerPattern::BGGR => (1, 1),
            BayerPattern::GRBG => (1, 2),
            BayerPattern::GBRG => (2, 1),
        };
        assert(img.spec_pattern().channel_at(x, y) == BayerChannel::R);
        assert(pixel_demosaicable(img, x, y));
        assert(pixel(m, w, x - 1, y) == v);
        assert(pixel(m, w, x + 1, y) == v);
        assert(pixel(m, w, x, y - 1) == v);
        assert(pixel(m, w, x, y + 1) == v);
        assert(stencil_sum(m, w, h, Stencil::Neighbour, x, y) == 4 * v);
    }
}

/// What writing settings into libraw does to each of its settings: a setting
/// given as `Some` is written (copied as it is; a switch as 1 for true and 0
/// for false; a choice as its libraw number; the two aberration scales into
/// the first and third slots; the power and toe slope into the first two
/// gamma slots; a path as given), and a setting left `None` keeps libraw's
/// current value.
pub proof fn law_each_setting_written(params: DCRawParams, current: LibrawOutputParams)
    ensures
        ({
            let r = params.applied_to(current);
            &&& (params.greybox matches Some(v) ==> r.greybox == v)
            &&& (params.greybox is None ==> r.greybox == current.greybox)
            &&& (params.cropbox matches Some(v) ==> r.cropbox == v)
            &&& (params.cropbox is None ==> r.cropbox == current.cropbox)
            &&& (params.aber matches Some(v) ==> r.aber@ == seq![v[0], current.aber[1], v[1], current.aber[3]])
            &&& (params.aber is None ==> r.aber == current.aber)
            &&& (params.gamm matches Some(v) ==> r.gamm@ == seq![v[0], v[1], current.gamm[2], current.gamm[3], current.gamm[4], current.gamm[5]])
            &&& (params.gamm is None ==> r.gamm == current.gamm)
            &&& (params.user_mul matches Some(v) ==> r.user_mul == v)
            &&& (params.user_mul is None ==> r.user_mul == current.user_mul)
            &&& (params.bright matches Some(v) ==> r.bright == v)
            &&& (params.bright is None ==> r.bright == current.bright)
            &&& (params.threshold matches Some(v) ==> r.threshold == v)
            &&& (params.threshold is None ==> r.threshold == current.threshold)
            &&& (params.half_size matches Some(v) ==> r.half_size == (if v { 1i32 } else { 0i32 }))
            &&& (params.half_size is None ==> r.half_size == current.half_size)
            &&& (params.four_color_rgb matches Some(v) ==> r.four_color_rgb == (if v { 1i32 } else { 0i32 }))
            &&& (params.four_color_rgb is None ==> r.four_color_rgb == current.four_color_rgb)
            &&& (params.highlight matches Some(v) ==> r.highlight == v.spec_code())
            &&& (params.highlight is None ==> r.highlight == current.highlight)
            &&& (params.use_auto_wb matches Some(v) ==> r.use_auto_wb == (if v { 1i32 } else { 0i32 }))
            &&& (params.use_auto_wb is None ==> r.use_auto_wb == current.use_auto_wb)
            &&& (params.use_camera_wb matches Some(v) ==> r.use_camera_wb == (if v { 1i32 } else { 0i32 }))
            &&& (params.use_camera_wb is None ==> r.use_camera_wb == current.use_camera_wb)
            &&& (params.use_camera_matrix matches Some(v) ==> r.use_camera_matrix == v.spec_code())
            &&& (params.use_camera_matrix is None ==> r.use_camera_matrix == current.use_camera_matrix)
            &&& (params.output_color matches Some(v) ==> r.output_color == v.spec_code())
            &&& (params.output_color is None ==> r.output_color == current.output_color)
            &&& (params.output_profile matches Some(v) ==> r.output_profile == Some(v))
            &&& (params.output_profile is None ==> r.output_profile == current.output_profile)
            &&& (params.camera_profile matches Some(v) ==> r.camera_profile == Some(v))
            &&& (params.camera_profile is None ==> r.camera_profile == current.camera_profile)
            &&& (params.bad_pixels matches Some(v) ==> r.bad_pixels == Some(v))
            &&& (params.bad_pixels is None ==> r.bad_pixels == current.bad_pixels)
            &&& (params.dark_frame matches Some(v) ==> r.dark_frame == Some(v))
            &&& (params.dark_frame is None ==> r.dark_frame == current.dark_frame)
            &&& (params.output_bps matches Some(v) ==> r.output_bps == v.spec_code())
            &&& (params.output_bps is None ==> r.output_bps == current.output_bps)
            &&& (params.output_tiff matches Some(v) ==> r.output_tiff == v.spec_code())
            &&& (params.output_tiff is None ==> r.output_tiff == current.output_tiff)
            &&& (params.user_flip matches Some(v) ==> r.user_flip == v.spec_code())
            &&& (params.user_flip is None ==> r.user_flip == current.user_flip)
            &&& (params.user_qual matches Some(v) ==> r.user_qual == v.spec_code())
            &&& (params.user_qual is None ==> r.user_qual == current.user_qual)
            &&& (params.user_black matches Some(v) ==> r.user_black == v)
            &&& (params.user_black is None ==> r.user_black == current.user_black)
            &&& (params.user_cblack matches Some(v) ==> r.user_cblack == v)
            &&& (params.user_cblack is None ==> r.user_cblack == current.user_cblack)
            &&& (params.user_sat matches Some(v) ==> r.user_sat == v)
            &&& (params.user_sat is None ==> r.user_sat == current.user_sat)
            &&& (params.med_passes matches Some(v) ==> r.med_passes == v)
            &&& (params.med_passes is None ==> r.med_passes == current.med_passes)
            &&& (params.no_auto_bright matches Some(v) ==> r.no_auto_bright == (if v { 1i32 } else { 0i32 }))
            &&& (params.no_auto_bright is None ==> r.no_auto_bright == current.no_auto_bright)
            &&& (params.auto_bright_thr matches Some(v) ==> r.auto_bright_thr == v)
            &&& (params.auto_bright_thr is None ==> r.auto_bright_thr == current.auto_bright_thr)
            &&& (params.adjust_maximum_thr matches Some(v) ==> r.adjust_maximum_thr == v)
            &&& (params.adjust_maximum_thr is None ==> r.adjust_maximum_thr == current.adjust_maximum_thr)
            &&& (params.use_fuji_rotate matches Some(v) ==> r.use_fuji_rotate == (if v { 1i32 } else { 0i32 }))
            &&& (params.use_fuji_rotate is None ==> r.use_fuji_rotate == current.use_fuji_rotate)
            &&& (params.dcb_iterations matches Some(v) ==> r.dcb_iterations == v)
            &&& (params.dcb_iterations is None ==> r.dcb_iterations == current.dcb_iterations)
            &&& (params.dcb_enhance_fl matches Some(v) ==> r.dcb_enhance_fl == v)
            &&& (params.dcb_enhance_fl is None ==> r.dcb_enhance_fl == current.dcb_enhance_fl)
            &&& (params.fbdd_noiserd matches Some(v) ==> r.fbdd_noiserd == v.spec_code())
            &&& (params.fbdd_noiserd is None ==> r.fbdd_noiserd == current.fbdd_noiserd)
            &&& (params.exp_correc matches Some(v) ==> r.exp_correc == v)
            &&& (params.exp_correc is None ==> r.exp_correc == current.exp_correc)
            &&& (params.exp_shift matches Some(v) ==> r.exp_shift == v)
            &&& (params.exp_shift is None ==> r.exp_shift == current.exp_shift)
            &&& (params.exp_preser matches Some(v) ==> r.exp_preser == v)
            &&& (params.exp_preser is None ==> r.exp_preser == current.exp_preser)
            &&& (params.no_auto_scale matches Some(v) ==> r.no_auto_scale == (if v { 1i32 } else { 0i32 }))
            &&& (params.no_auto_scale is None ==> r.no_auto_scale == current.no_auto_scale)
            &&& (params.no_interpolation matches Some(v) ==> r.no_interpolation == (if v { 1i32 } else { 0i32 }))
            &&& (params.no_interpolation is None ==> r.no_interpolation == current.no_interpolation)
        }),
{
    let r = params.applied_to(current);
    if let Some(v) = params.aber {
        assert(r.aber@ =~= seq![v[0], current.aber[1], v[1], current.aber[3]]);
    }
    if let Some(v) = params.gamm {
        assert(r.gamm@ =~= seq![v[0], v[1], current.gamm[2], current.gamm[3], current.gamm[4], current.gamm[5]]);
    }
}

/// Every choice is written as the number libraw documents for it.
pub proof fn law_libraw_codes()
    ensures
        DCRawHighlightMode::Clip.spec_code() == 0,
        DCRawHighlightMode::Unclip.spec_code() == 1,
        DCRawHighlightMode::Blend.spec_code() == 2,
        DCRawHighlightMode::Rebuild3.spec_code() == 3,
        DCRawHighlightMode::Rebuild4.spec_code() == 4,
        DCRawHighlightMode::Rebuild5.spec_code() == 5,
        DCRawHighlightMode::Rebuild6.spec_code() == 6,
        DCRawHighlightMode::Rebuild7.spec_code() == 7,
        DCRawHighlightMode::Rebuild8.spec_code() == 8,
        DCRawHighlightMode::Rebuild9.spec_code() == 9,
        DCRawUseCameraMatrix::NotUse.spec_code() == 0,
        DCRawUseCameraMatrix::EmbeddedProfile.spec_code() == 1,
        DCRawUseCameraMatrix::EmbeddedData.spec_code() == 3,
        DCRawOutputColor::Raw.spec_code() == 0,
        DCRawOutputColor::SRGB.spec_code() == 1,
        DCRawOutputColor::Adobe.spec_code() == 2,
        DCRawOutputColor::WideGamut.spec_code() == 3,
        DCRawOutputColor::ProPhoto.spec_code() == 4,
        DCRawOutputColor::XYZ.spec_code() == 5,
        DCRawOutputColor::ACES.spec_code() == 6,
        DCRawOutputColor::DciP3.spec_code() == 7,
        DCRawOutputColor::Rec2020.spec_code() == 8,
        DCRawOutputBps::_8bit.spec_code() == 8,
        DCRawOutputBps::_16bit.spec_code() == 16,
        DCRawOutputTiff::Ppm.spec_code() == 0,
        DCRawOutputTiff::Tiff.spec_code() == 1,
        DCRawUserFlip::NoRotation.spec_code() == 0,
        DCRawUserFlip::Rotate180.spec_code() == 3,
        DCRawUserFlip::Rotate90CCW.spec_code() == 5,
        DCRawUserFlip::Rotate90CW.spec_code() == 6,
        DCRawUserQual::Linear.spec_code() == 0,
        DCRawUserQual::VNG.spec_code() == 1,
        DCRawUserQual::PPG.spec_code() == 2,
        DCRawUserQual::AHD.spec_code() == 3,
        DCRawUserQual::DCB.spec_code() == 4,
        DCRawUserQual::DHT.spec_code() == 11,
        DCRawUserQual::AAHD.spec_code() == 12,
        DCRawFbddNoiserd::Off.spec_code() == 0,
        DCRawFbddNoiserd::Light.spec_code() == 1,
        DCRawFbddNoiserd::Full.spec_code() == 2,
{
}

/// Whether `c` is one of the two green channels.
pub open spec fn is_green(c: BayerChannel) -> bool {
    c == BayerChannel::G || c == BayerChannel::G2
}

/// Each pattern's name reads its 2x2 tile row by row from the top-left.
pub proof fn law_pattern_names_read_the_tile()
    ensures
        BayerPattern::RGGB.channel_at(0, 0) == BayerChannel::R && is_green(BayerPattern::RGGB.channel_at(1, 0))
            && is_green(BayerPattern::RGGB.channel_at(0, 1)) && BayerPattern::RGGB.channel_at(1, 1) == BayerChannel::B,
        BayerPattern::BGGR.channel_at(0, 0) == BayerChannel::B && is_green(BayerPattern::BGGR.channel_at(1, 0))
            && is_green(BayerPattern::BGGR.channel_at(0, 1)) && BayerPattern::BGGR.channel_at(1, 1) == BayerChannel::R,
        is_green(BayerPattern::GRBG.channel_at(0, 0)) && BayerPattern::GRBG.channel_at(1, 0) == BayerChannel::R
            && BayerPattern::GRBG.channel_at(0, 1) == BayerChannel::B && is_green(BayerPattern::GRBG.channel_at(1, 1)),
        is_green(BayerPattern::GBRG.channel_at(0, 0)) && BayerPattern::GBRG.channel_at(1, 0) == BayerChannel::B
            && BayerPattern::GBRG.channel_at(0, 1) == BayerChannel::R && is_green(BayerPattern::GBRG.channel_at(1, 1)),
{
}

} // verus!


