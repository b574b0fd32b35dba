use vstd::prelude::*;

verus! {

/// What the caller asked for: the output format by name, an optional
/// bounding box, and two switches for images that come from a file.
pub struct Arg {
    pub format: String,
    pub width: Option<u32>,
    pub height: Option<u32>,
    pub ignore_format: bool,
    pub stderr_path: bool,
}

/// The size an image is brought to. The scale applied is
/// `scale_num / scale_den`, never above one.
#[derive(Clone, Copy, Debug, PartialEq, Eq, Structural)]
pub struct PlannedDimensions {
    pub width: u32,
    pub height: u32,
    pub scale_num: u32,
    pub scale_den: u32,
    pub resized: bool,
}

/// The image keeps its size.
pub open spec fn unresized(w: u32, h: u32) -> PlannedDimensions {
    PlannedDimensions { width: w, height: h, scale_num: 1, scale_den: 1, resized: false }
}

/// `n * num / den`, truncated toward zero.
pub open spec fn scaled(n: u32, num: u32, den: u32) -> int {
    (n as int) * (num as int) / (den as int)
}

/// Width brought to `mw`; height scaled by `mw / w`.
pub open spec fn fit_width(w: u32, h: u32, mw: u32) -> PlannedDimensions {
    PlannedDimensions {
        width: mw,
        height: scaled(h, mw, w) as u32,
        scale_num: mw,
        scale_den: w,
        resized: true,
    }
}

/// Height brought to `mh`; width scaled by `mh / h`.
pub open spec fn fit_height(w: u32, h: u32, mh: u32) -> PlannedDimensions {
    PlannedDimensions {
        width: scaled(w, mh, h) as u32,
        height: mh,
        scale_num: mh,
        scale_den: h,
        resized: true,
    }
}

/// The plan for a `w` x `h` image under an optional maximum width and
/// height. Only the binding axis decides, and the image only ever shrinks.
/// With both bounds, `mw / w < mh / h` is compared as `mw * h < mh * w`.
pub open spec fn plan(w: u32, h: u32, max_w: Option<u32>, max_h: Option<u32>) -> PlannedDimensions {
    match (max_w, max_h) {
        (Some(mw), Some(mh)) => {
            if (mw as int) * (h as int) < (mh as int) * (w as int) {
                if w <= mw { unresized(w, h) } else { fit_width(w, h, mw) }
            } else {
                if h <= mh { unresized(w, h) } else { fit_height(w, h, mh) }
            }
        },
        (Some(mw), None) => if w <= mw { unresized(w, h) } else { fit_width(w, h, mw) },
        (None, Some(mh)) => if h <= mh { unresized(w, h) } else { fit_height(w, h, mh) },
        (None, None) => unresized(w, h),
    }
}

proof fn lemma_scaled_below(n: u32, num: u32, den: u32)
    requires
        num < den,
    ensures
        0 <= scaled(n, num, den) <= n,
{
    assert((n as int) * (num as int) <= (n as int) * (den as int)) by (nonlinear_arith)
        requires num < den;
    assert(0 <= (n as int) * (num as int) / (den as int) <= n) by (nonlinear_arith)
        requires
            (n as int) * (num as int) <= (n as int) * (den as int),
            num < den,
    ;
}

proof fn lemma_product_fits(a: u32, b: u32)
    ensures
        (a as int) * (b as int) <= u64::MAX,
{
    assert((a as int) * (b as int) <= (u32::MAX as int) * (u32::MAX as int)) by (nonlinear_arith);
}

/// `n * num / den` computed exactly, for `num < den`.
fn scale_dim(n: u32, num: u32, den: u32) -> (r: u32)
    requires
        num < den,
    ensures
        r == scaled(n, num, den),
{
    proof {
        lemma_scaled_below(n, num, den);
        lemma_product_fits(n, num);
    }
    ((n as u64) * (num as u64) / (den as u64)) as u32
}

fn resize_to_width(w: u32, h: u32, mw: u32) -> (r: PlannedDimensions)
    requires
        mw < w,
    ensures
        r == fit_width(w, h, mw),
{
    PlannedDimensions { width: mw, height: scale_dim(h, mw, w), scale_num: mw, scale_den: w, resized: true }
}

fn resize_to_height(w: u32, h: u32, mh: u32) -> (r: PlannedDimensions)
    requires
        mh < h,
    ensures
        r == fit_height(w, h, mh),
{
    PlannedDimensions { width: scale_dim(w, mh, h), height: mh, scale_num: mh, scale_den: h, resized: true }
}

/// Without a bound the image keeps its size at scale one.
pub proof fn law_no_bound_keeps_size(w: u32, h: u32)
    requires
        w > 0,
        h > 0,
    ensures
        plan(w, h, None, None) == unresized(w, h),
        !plan(w, h, None, None).resized,
        plan(w, h, None, None).scale_num == plan(w, h, None, None).scale_den,
{
}

/// A maximum width that the image already meets leaves it unresized.
pub proof fn law_width_within_bound(w: u32, h: u32, mw: u32)
    requires
        w > 0,
        h > 0,
        mw > 0,
        w <= mw,
    ensures
        plan(w, h, Some(mw), None) == unresized(w, h),
{
}

/// A maximum width below the image's width gives exactly that width, the
/// height scaled by `mw / w` and truncated, and a resize.
pub proof fn law_width_over_bound(w: u32, h: u32, mw: u32)
    requires
        w > 0,
        h > 0,
        mw > 0,
        w > mw,
    ensures
        plan(w, h, Some(mw), None).width == mw,
        plan(w, h, Some(mw), None).height == (h as int) * (mw as int) / (w as int),
        plan(w, h, Some(mw), None).resized,
{
    lemma_scaled_below(h, mw, w);
}

/// A maximum height that the image already meets leaves it unresized.
pub proof fn law_height_within_bound(w: u32, h: u32, mh: u32)
    requires
        w > 0,
        h > 0,
        mh > 0,
        h <= mh,
    ensures
        plan(w, h, None, Some(mh)) == unresized(w, h),
{
}

/// A maximum height below the image's height gives exactly that height, the
/// width scaled by `mh / h` and truncated, and a resize.
pub proof fn law_height_over_bound(w: u32, h: u32, mh: u32)
    requires
        w > 0,
        h > 0,
        mh > 0,
        h > mh,
    ensures
        plan(w, h, None, Some(mh)).height == mh,
        plan(w, h, None, Some(mh)).width == (w as int) * (mh as int) / (h as int),
        plan(w, h, None, Some(mh)).resized,
{
    lemma_scaled_below(w, mh, h);
}

/// Under both bounds the result fits the box and never grows; after a resize
/// one side meets its bound exactly.
pub proof fn law_fits_box(w: u32, h: u32, mw: u32, mh: u32)
    requires
        w > 0,
        h > 0,
        mw > 0,
        mh > 0,
    ensures
        plan(w, h, Some(mw), Some(mh)).width <= mw,
        plan(w, h, Some(mw), Some(mh)).height <= mh,
        plan(w, h, Some(mw), Some(mh)).width <= w,
        plan(w, h, Some(mw), Some(mh)).height <= h,
        plan(w, h, Some(mw), Some(mh)).resized ==> (plan(w, h, Some(mw), Some(mh)).width == mw
            || plan(w, h, Some(mw), Some(mh)).height == mh),
{
    let (wi, hi, mwi, mhi) = (w as int, h as int, mw as int, mh as int);
    if mwi * hi < mhi * wi {
        if w > mw {
            lemma_scaled_below(h, mw, w);
            assert(hi * mwi / wi <= mhi) by (nonlinear_arith)
                requires mwi * hi < mhi * wi, wi > 0, mhi > 0, hi > 0;
        } else {
            assert(hi < mhi) by (nonlinear_arith)
                requires mwi * hi < mhi * wi, wi > 0, wi <= mwi, hi > 0;
        }
    } else {
        if h > mh {
            lemma_scaled_below(w, mh, h);
            assert(wi * mhi / hi <= mwi) by (nonlinear_arith)
                requires mwi * hi >= mhi * wi, hi > 0, mwi > 0, wi > 0;
        } else {
            assert(wi <= mwi) by (nonlinear_arith)
                requires mwi * hi >= mhi * wi, hi > 0, hi <= mhi, wi > 0;
        }
    }
}

impl Arg {
    /// Plans the output size of a `w` x `h` image under this bounding box.
    pub fn get_image_width(&self, w: u32, h: u32) -> (r: PlannedDimensions)
        requires
            w > 0,
            h > 0,
        ensures
            r == plan(w, h, self.width, self.height),
    {
        let same = PlannedDimensions { width: w, height: h, scale_num: 1, scale_den: 1, resized: false };
        match (self.width, self.height) {
            (Some(mw), Some(mh)) => {
                proof {
                    lemma_product_fits(mw, h);
                    lemma_product_fits(mh, w);
                }
                if (mw as u64) * (h as u64) < (mh as u64) * (w as u64) {
                    if w <= mw { same } else { resize_to_width(w, h, mw) }
                } else {
                    if h <= mh { same } else { resize_to_height(w, h, mh) }
                }
            },
            (Some(mw), None) => if w <= mw { same } else { resize_to_width(w, h, mw) },
            (None, Some(mh)) => if h <= mh { same } else { resize_to_height(w, h, mh) },
            (None, None) => same,
        }
    }
}

} // verus!
