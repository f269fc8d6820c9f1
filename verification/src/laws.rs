//! Proofs connecting the synthetic pattern generator to the validators:
//! frames the generator produces pass the matching validator and fail the
//! other one, and `pixel_at` behaves as the packed 4:2:2 layout prescribes.

use vstd::prelude::*;
use crate::mock::{TestPattern, bar_index, bar_yuv, frame_bytes_ok, gradient_luma, pair_bytes_at, pattern_pair};
use crate::traits::{Format, pair_offset, pixel_at_spec, yuv_to_rgb_spec};
use crate::validation::{
    COLOR_TOLERANCE, LUMINANCE_SLACK_SCALED, MIN_LUMINANCE_CHANGE_SCALED, bar_ok, bar_sample_x,
    color_bars_ok, colors_match_spec, expected_bar_rgb, gradient_ok, gradient_sample,
    gradient_sample_count, gradient_sample_lum, luminance_scaled,
};

verus! {

/// An out-of-range pixel query yields `None`: a column at or beyond the
/// width, or a byte group that would run past the buffer.
pub proof fn lemma_pixel_at_out_of_bounds(data: Seq<u8>, x: int, y: int, width: int)
    requires
        x >= width || pair_offset(x, y, width) + 3 >= data.len(),
    ensures
        pixel_at_spec(data, x, y, width) is None,
{
}

/// Two pixels of one pair share their chroma: for an even column whose pixel
/// is readable, the odd neighbor is readable too, and both convert their own
/// luma byte with the same chroma bytes.
pub proof fn lemma_pixel_pair_shares_chroma(data: Seq<u8>, x: int, y: int, width: int)
    requires
        0 <= x,
        0 <= y,
        x % 2 == 0,
        x + 1 < width,
        pixel_at_spec(data, x, y, width) is Some,
    ensures
        ({
            let off = pair_offset(x, y, width);
            &&& pixel_at_spec(data, x, y, width) == Some(
                yuv_to_rgb_spec(data[off], data[off + 1], data[off + 3]),
            )
            &&& pixel_at_spec(data, x + 1, y, width) == Some(
                yuv_to_rgb_spec(data[off + 2], data[off + 1], data[off + 3]),
            )
        }),
{
    assert((x + 1) % 2 == 1);
    assert(pair_offset(x + 1, y, width) == pair_offset(x, y, width));
}

/// Converting the neutral chroma pair leaves a gray pixel: every channel
/// equals the luma.
pub proof fn lemma_neutral_rgb(l: u8)
    ensures
        yuv_to_rgb_spec(l, 128, 128) == (l, l, l),
{
    reveal(yuv_to_rgb_spec);
    vstd::arithmetic::div_mod::lemma_div_multiples_vanish(l as int, 1000);
    vstd::arithmetic::div_mod::lemma_div_multiples_vanish(l as int, 100000);
}

/// The fixed-point conversion maps each color bar's luma/chroma triple to
/// exactly the RGB value the color-bar validator expects.
pub proof fn lemma_bar_rgb(i: int)
    requires
        0 <= i < 8,
    ensures
        ({
            let yuv = bar_yuv(i);
            yuv_to_rgb_spec(yuv.0, yuv.1, yuv.2) == expected_bar_rgb(i)
        }),
{
    reveal(yuv_to_rgb_spec);
}

/// Reading any in-range pixel of a generated frame yields the conversion of
/// the pattern's luma/chroma triple for the pair that contains the column.
pub proof fn lemma_pattern_sample(pat: TestPattern, data: Seq<u8>, fmt: Format, x: int, y: int)
    requires
        fmt.width % 2 == 0,
        0 <= x < fmt.width,
        0 <= y < fmt.height,
        frame_bytes_ok(pat, data, fmt.width as int, fmt.height as int),
    ensures
        ({
            let pair = pattern_pair(pat, fmt.width as int, x - x % 2);
            pixel_at_spec(data, x, y, fmt.width as int) == Some(
                yuv_to_rgb_spec(pair.0, pair.1, pair.2),
            )
        }),
{
    let w = fmt.width as int;
    let h = fmt.height as int;
    let px = x - x % 2;
    assert(0 <= px && px + 1 < w && px % 2 == 0);
    vstd::arithmetic::mul::lemma_mul_inequality(y + 1, h, w);
    vstd::arithmetic::mul::lemma_mul_is_distributive_add_other_way(w, y, 1);
    vstd::arithmetic::mul::lemma_mul_is_commutative(h, w);
    vstd::arithmetic::mul::lemma_mul_is_associative(2, w, h);
    assert(pair_offset(x, y, w) + 3 < data.len());
    assert(pair_bytes_at(pat, data, w, y, px));
}

/// A generated color-bar frame passes color-bar validation against the same
/// format, for any format with at least one row whose width is divisible by
/// 8 and at least 16, so that every bar is at least one pixel pair wide.
pub proof fn lemma_color_bars_frame_validates(data: Seq<u8>, fmt: Format)
    requires
        fmt.width % 8 == 0,
        fmt.width >= 16,
        fmt.height >= 1,
        frame_bytes_ok(TestPattern::ColorBars, data, fmt.width as int, fmt.height as int),
    ensures
        color_bars_ok(data, fmt),
{
    let w = fmt.width as int;
    let h = fmt.height as int;
    let bw = w / 8;
    vstd::arithmetic::div_mod::lemma_fundamental_div_mod(w, 8);
    assert(w == 8 * bw);
    let half = bw / 2;
    vstd::arithmetic::div_mod::lemma_fundamental_div_mod(bw, 2);
    assert(1 <= half && half < bw);
    vstd::arithmetic::div_mod::lemma_div_pos_is_pos(h, 2);
    vstd::arithmetic::div_mod::lemma_div_is_strictly_smaller(h, 2);
    assert forall|i: int| 0 <= i < 8 implies bar_ok(data, fmt, i) by {
        let sx = bar_sample_x(w, i);
        vstd::arithmetic::mul::lemma_mul_inequality(i, 7, bw);
        vstd::arithmetic::mul::lemma_mul_nonnegative(i, bw);
        assert(0 <= sx < w);
        let px = sx - sx % 2;
        assert(i * bw <= px);
        vstd::arithmetic::mul::lemma_mul_is_distributive_add_other_way(bw, i, 1);
        assert(px < (i + 1) * bw);
        vstd::arithmetic::div_mod::lemma_fundamental_div_mod_converse(px, bw, i, px - i * bw);
        assert(px / bw == i);
        assert(bar_index(w, px) == i);
        lemma_pattern_sample(TestPattern::ColorBars, data, fmt, sx, h / 2);
        lemma_bar_rgb(i);
        assert(pixel_at_spec(data, sx, h / 2, w) == Some(expected_bar_rgb(i)));
        assert(colors_match_spec(expected_bar_rgb(i), expected_bar_rgb(i), COLOR_TOLERANCE));
    }
}

/// A generated gradient frame passes gradient validation against the same
/// format, for any format with at least one row and an even width of at
/// least 12, so that the samples span enough of the ramp.
pub proof fn lemma_gradient_frame_validates(data: Seq<u8>, fmt: Format)
    requires
        fmt.width % 2 == 0,
        fmt.width >= 12,
        fmt.height >= 1,
        frame_bytes_ok(TestPattern::Gradient, data, fmt.width as int, fmt.height as int),
    ensures
        gradient_ok(data, fmt),
{
    let w = fmt.width as int;
    let h = fmt.height as int;
    let n = gradient_sample_count(w);
    let q = (w - 1) / 10;
    vstd::arithmetic::div_mod::lemma_fundamental_div_mod(w - 1, 10);
    assert(n == q + 1);
    vstd::arithmetic::div_mod::lemma_div_pos_is_pos(h, 2);
    vstd::arithmetic::div_mod::lemma_div_is_strictly_smaller(h, 2);

    assert forall|t: int| 0 <= t < n implies (#[trigger] gradient_sample(data, fmt, t)) is Some
        && gradient_sample_lum(data, fmt, t) == 1000 * (((10 * t) * 255) / w) by {
        let x = 10 * t;
        assert(0 <= x < w);
        lemma_pattern_sample(TestPattern::Gradient, data, fmt, x, h / 2);
        vstd::arithmetic::div_mod::lemma_div_pos_is_pos(x * 255, w);
        vstd::arithmetic::mul::lemma_mul_strict_inequality(x, w, 255);
        vstd::arithmetic::div_mod::lemma_multiply_divide_lt(x * 255, w, 255);
        lemma_neutral_rgb(gradient_luma(w, x));
    }

    assert forall|t: int| 1 <= t < n implies #[trigger] gradient_sample_lum(data, fmt, t)
        >= gradient_sample_lum(data, fmt, t - 1) - LUMINANCE_SLACK_SCALED by {
        vstd::arithmetic::div_mod::lemma_div_is_ordered(
            (10 * (t - 1)) * 255,
            (10 * t) * 255,
            w,
        );
    }

    assert(gradient_sample_lum(data, fmt, n - 1) - gradient_sample_lum(data, fmt, 0)
        >= MIN_LUMINANCE_CHANGE_SCALED) by {
        vstd::arithmetic::div_mod::lemma_div_of0(w);
        assert(gradient_sample_lum(data, fmt, 0) == 0);
        assert((10 * q) * 255 >= 51 * w);
        vstd::arithmetic::div_mod::lemma_div_is_ordered(51 * w, (10 * q) * 255, w);
        vstd::arithmetic::div_mod::lemma_div_multiples_vanish(51, w);
        vstd::arithmetic::mul::lemma_mul_is_commutative(w, 51);
        assert(((10 * q) * 255) / w >= 51);
    }
}

/// A generated solid frame fails gradient validation against the same
/// format, for any format with at least one row and an even, positive width:
/// its luminance is constant, so the overall change never reaches the
/// minimum.
pub proof fn lemma_solid_frame_fails_gradient(
    data: Seq<u8>,
    fmt: Format,
    luma: u8,
    chroma_u: u8,
    chroma_v: u8,
)
    requires
        fmt.width % 2 == 0,
        fmt.width >= 2,
        fmt.height >= 1,
        frame_bytes_ok(
            TestPattern::Solid(luma, chroma_u, chroma_v),
            data,
            fmt.width as int,
            fmt.height as int,
        ),
    ensures
        !gradient_ok(data, fmt),
{
    let w = fmt.width as int;
    let h = fmt.height as int;
    let n = gradient_sample_count(w);
    let q = (w - 1) / 10;
    vstd::arithmetic::div_mod::lemma_fundamental_div_mod(w - 1, 10);
    vstd::arithmetic::div_mod::lemma_div_pos_is_pos(w - 1, 10);
    assert(n == q + 1 && n >= 1);
    vstd::arithmetic::div_mod::lemma_div_pos_is_pos(h, 2);
    vstd::arithmetic::div_mod::lemma_div_is_strictly_smaller(h, 2);
    let pat = TestPattern::Solid(luma, chroma_u, chroma_v);
    lemma_pattern_sample(pat, data, fmt, 0, h / 2);
    lemma_pattern_sample(pat, data, fmt, 10 * (n - 1), h / 2);
    assert(gradient_sample_lum(data, fmt, n - 1) == gradient_sample_lum(data, fmt, 0));
}

proof fn lemma_bar_step_exists(w: int, tt: int)
    requires
        0 <= tt,
        bar_index(w, 0) == 0,
        bar_index(w, 10 * tt) >= 1,
    ensures
        exists|s: int|
            1 <= s <= tt && bar_index(w, 10 * (s - 1)) < #[trigger] bar_index(w, 10 * s),
    decreases tt,
{
    if tt == 0 {
        assert(false);
    } else if bar_index(w, 10 * (tt - 1)) < bar_index(w, 10 * tt) {
        assert(1 <= tt <= tt && bar_index(w, 10 * (tt - 1)) < bar_index(w, 10 * tt));
    } else {
        lemma_bar_step_exists(w, tt - 1);
    }
}

/// A generated color-bar frame fails gradient validation against the same
/// format, for any format with at least one row whose width is divisible by
/// 8 and positive: either every sample sits in the first bar, so the
/// luminance never changes, or some adjacent samples cross a bar boundary,
/// where the luminance drops far more than the slack allows.
pub proof fn lemma_color_bars_fail_gradient(data: Seq<u8>, fmt: Format)
    requires
        fmt.width % 8 == 0,
        fmt.width >= 8,
        fmt.height >= 1,
        frame_bytes_ok(TestPattern::ColorBars, data, fmt.width as int, fmt.height as int),
    ensures
        !gradient_ok(data, fmt),
{
    let w = fmt.width as int;
    let h = fmt.height as int;
    let bw = w / 8;
    vstd::arithmetic::div_mod::lemma_div_non_zero(w, 8);
    let n = gradient_sample_count(w);
    let q = (w - 1) / 10;
    vstd::arithmetic::div_mod::lemma_fundamental_div_mod(w - 1, 10);
    vstd::arithmetic::div_mod::lemma_div_pos_is_pos(w - 1, 10);
    assert(n == q + 1 && n >= 1);
    vstd::arithmetic::div_mod::lemma_div_pos_is_pos(h, 2);
    vstd::arithmetic::div_mod::lemma_div_is_strictly_smaller(h, 2);
    vstd::arithmetic::div_mod::lemma_div_of0(bw);
    assert(bar_index(w, 0) == 0);

    assert forall|t: int| 0 <= t < n implies (#[trigger] gradient_sample(data, fmt, t)) is Some
        && 0 <= bar_index(w, 10 * t) <= 7 && gradient_sample_lum(data, fmt, t)
        == luminance_scaled(expected_bar_rgb(bar_index(w, 10 * t))) by {
        let x = 10 * t;
        assert(0 <= x < w);
        vstd::arithmetic::div_mod::lemma_div_pos_is_pos(x, bw);
        lemma_pattern_sample(TestPattern::ColorBars, data, fmt, x, h / 2);
        lemma_bar_rgb(bar_index(w, x));
    }

    assert(forall|a: int, b: int|
        0 <= a < b <= 7 ==> luminance_scaled(#[trigger] expected_bar_rgb(b)) < luminance_scaled(
            #[trigger] expected_bar_rgb(a),
        ) - LUMINANCE_SLACK_SCALED);

    if bar_index(w, 10 * (n - 1)) == 0 {
        assert forall|t: int| 0 <= t < n implies 0 <= #[trigger] bar_index(w, 10 * t) <= 0 by {
            vstd::arithmetic::div_mod::lemma_div_pos_is_pos(10 * t, bw);
            vstd::arithmetic::div_mod::lemma_div_is_ordered(10 * t, 10 * (n - 1), bw);
        }
        assert(gradient_sample_lum(data, fmt, n - 1) == gradient_sample_lum(data, fmt, 0));
        assert(!gradient_ok(data, fmt));
    } else {
        lemma_bar_step_exists(w, n - 1);
        let s = choose|s: int|
            1 <= s <= n - 1 && bar_index(w, 10 * (s - 1)) < #[trigger] bar_index(w, 10 * s);
        assert(gradient_sample_lum(data, fmt, s) < gradient_sample_lum(data, fmt, s - 1)
            - LUMINANCE_SLACK_SCALED);
        assert(!gradient_ok(data, fmt));
    }
}

/// A generated gradient frame fails color-bar validation against the same
/// format, for any format with at least one row whose width is divisible by
/// 8 and positive: the sample for the first bar sits in the darkest
/// sixteenth of the ramp, far from the expected white.
pub proof fn lemma_gradient_fails_color_bars(data: Seq<u8>, fmt: Format)
    requires
        fmt.width % 8 == 0,
        fmt.width >= 8,
        fmt.height >= 1,
        frame_bytes_ok(TestPattern::Gradient, data, fmt.width as int, fmt.height as int),
    ensures
        !color_bars_ok(data, fmt),
{
    let w = fmt.width as int;
    let h = fmt.height as int;
    let bw = w / 8;
    vstd::arithmetic::div_mod::lemma_div_non_zero(w, 8);
    vstd::arithmetic::div_mod::lemma_div_nonincreasing(w, 8);
    vstd::arithmetic::div_mod::lemma_div_pos_is_pos(bw, 2);
    vstd::arithmetic::div_mod::lemma_div_nonincreasing(bw, 2);
    vstd::arithmetic::div_mod::lemma_div_pos_is_pos(h, 2);
    vstd::arithmetic::div_mod::lemma_div_is_strictly_smaller(h, 2);
    let sx = bar_sample_x(w, 0);
    assert(sx == bw / 2);
    assert(0 <= sx < w);
    let px = sx - sx % 2;
    lemma_pattern_sample(TestPattern::Gradient, data, fmt, sx, h / 2);
    vstd::arithmetic::div_mod::lemma_div_denominator(w, 8, 2);
    vstd::arithmetic::div_mod::lemma_fundamental_div_mod(w, 16);
    assert(16 * px <= w);
    vstd::arithmetic::div_mod::lemma_div_pos_is_pos(px * 255, w);
    vstd::arithmetic::div_mod::lemma_multiply_divide_lt(px * 255, w, 16);
    assert((px * 255) / w <= 15);
    let g = gradient_luma(w, px);
    assert(g <= 15);
    lemma_neutral_rgb(g);
    assert(!colors_match_spec((g, g, g), expected_bar_rgb(0), COLOR_TOLERANCE));
    assert(!bar_ok(data, fmt, 0));
}

} // verus!
