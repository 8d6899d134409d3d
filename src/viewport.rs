use vstd::prelude::*;

verus! {

/// Whether a `width` by `height` window is wider than the ratio
/// `ratio_w : ratio_h`.
pub open spec fn is_wider(width: int, height: int, ratio_w: int, ratio_h: int) -> bool {
    width * ratio_h > height * ratio_w
}

/// The largest viewport of ratio `ratio_w : ratio_h` that fits a `width` by
/// `height` window, given exactly as `(w, h, d)`: a viewport of `w / d` by
/// `h / d`. A wider window keeps its full height, and the width is
/// height × ratio (bars at the sides); any other window keeps its full width,
/// and the height is width ÷ ratio (bars above and below).
pub open spec fn fitted_size(width: int, height: int, ratio_w: int, ratio_h: int) -> (int, int, int) {
    if is_wider(width, height, ratio_w, ratio_h) {
        (height * ratio_w, height * ratio_h, ratio_h)
    } else {
        (width * ratio_w, width * ratio_h, ratio_w)
    }
}

/// Fits a viewport of ratio `ratio_w : ratio_h` into a `width` by `height`
/// window. The result `(w, h, d)` is exact: the viewport is `w / d` by
/// `h / d`.
pub fn fit_viewport(width: u32, height: u32, ratio_w: u32, ratio_h: u32) -> (r: (u64, u64, u32))
    requires
        ratio_w > 0,
        ratio_h > 0,
    ensures
        (r.0 as int, r.1 as int, r.2 as int) == fitted_size(
            width as int,
            height as int,
            ratio_w as int,
            ratio_h as int,
        ),
        r.2 > 0,
        r.0 * ratio_h == r.1 * ratio_w,
        is_wider(width as int, height as int, ratio_w as int, ratio_h as int) ==> r.1 == height * r.2,
        !is_wider(width as int, height as int, ratio_w as int, ratio_h as int) ==> r.0 == width * r.2,
{
    proof {
        lemma_u32_product(width, ratio_h);
        lemma_u32_product(height, ratio_w);
        lemma_u32_product(width, ratio_w);
        lemma_u32_product(height, ratio_h);
        lemma_fit_keeps_ratio_any(width as int, height as int, ratio_w as int, ratio_h as int);
    }
    let wide = (width as u64) * (ratio_h as u64);
    let tall = (height as u64) * (ratio_w as u64);
    if wide > tall {
        ((height as u64) * (ratio_w as u64), (height as u64) * (ratio_h as u64), ratio_h)
    } else {
        ((width as u64) * (ratio_w as u64), (width as u64) * (ratio_h as u64), ratio_w)
    }
}

proof fn lemma_u32_product(a: u32, b: u32)
    ensures
        0 <= (a as int) * (b as int) <= u64::MAX,
{
    assert(0 <= (a as int) * (b as int) <= u64::MAX) by (nonlinear_arith)
        requires a <= u32::MAX, b <= u32::MAX, 0 <= a, 0 <= b;
}

proof fn lemma_fit_keeps_ratio_any(width: int, height: int, ratio_w: int, ratio_h: int)
    ensures
        ({
            let (fw, fh, d) = fitted_size(width, height, ratio_w, ratio_h);
            &&& fw * ratio_h == fh * ratio_w
            &&& is_wider(width, height, ratio_w, ratio_h) ==> fh == height * d
            &&& !is_wider(width, height, ratio_w, ratio_h) ==> fw == width * d
        }),
{
    assert(height * ratio_w * ratio_h == height * ratio_h * ratio_w) by (nonlinear_arith);
    assert(width * ratio_w * ratio_h == width * ratio_h * ratio_w) by (nonlinear_arith);
    assert(height * ratio_h == height * ratio_h);
    assert(width * ratio_w == width * ratio_w);
}

/// For a positive window and ratio, the fitted viewport is not empty, lies
/// inside the window, fills it along one side, and has exactly the target
/// ratio: its width times `ratio_h` equals its height times `ratio_w`.
pub proof fn lemma_fit_keeps_ratio(width: u32, height: u32, ratio_w: u32, ratio_h: u32)
    requires
        width > 0,
        height > 0,
        ratio_w > 0,
        ratio_h > 0,
    ensures
        ({
            let (fw, fh, d) = fitted_size(width as int, height as int, ratio_w as int, ratio_h as int);
            &&& d > 0
            &&& fw > 0
            &&& fh > 0
            &&& fw <= width * d
            &&& fh <= height * d
            &&& fw == width * d || fh == height * d
            &&& fw * ratio_h == fh * ratio_w
        }),
{
    let (w, h, rw, rh) = (width as int, height as int, ratio_w as int, ratio_h as int);
    lemma_fit_keeps_ratio_any(w, h, rw, rh);
    assert(w * rw > 0 && w * rh > 0 && h * rw > 0 && h * rh > 0) by (nonlinear_arith)
        requires w > 0, h > 0, rw > 0, rh > 0;
    if is_wider(w, h, rw, rh) {
        assert(h * rw <= w * rh);
    } else {
        assert(w * rh <= h * rw);
    }
}

/// Scaling a window by a positive factor scales its fitted viewport by the
/// same factor and leaves the denominator as it was.
pub proof fn lemma_fit_scales(width: int, height: int, ratio_w: int, ratio_h: int, k: int)
    requires
        k > 0,
    ensures
        ({
            let (fw, fh, d) = fitted_size(width, height, ratio_w, ratio_h);
            fitted_size(k * width, k * height, ratio_w, ratio_h) == (k * fw, k * fh, d)
        }),
{
    let (w, h, rw, rh) = (width, height, ratio_w, ratio_h);
    assert(is_wider(k * w, k * h, rw, rh) == is_wider(w, h, rw, rh)) by (nonlinear_arith)
        requires k > 0;
    assert(k * h * rw == k * (h * rw) && k * h * rh == k * (h * rh)) by (nonlinear_arith);
    assert(k * w * rw == k * (w * rw) && k * w * rh == k * (w * rh)) by (nonlinear_arith);
}

} // verus!
