//! Fitting the window's size to what the GPU can render to.
use vstd::prelude::*;

verus! {

/// `p / q` rounded to the nearest integer, halves rounded up.
pub open spec fn round_div(p: int, q: int) -> int {
    (2 * p + q) / (2 * q)
}

/// `v` clamped to `[lo, hi]`.
pub open spec fn clamp_int(v: int, lo: int, hi: int) -> int {
    if v < lo {
        lo
    } else if v > hi {
        hi
    } else {
        v
    }
}

/// The larger of `a` and `b`.
pub open spec fn max_int(a: int, b: int) -> int {
    if a >= b {
        a
    } else {
        b
    }
}

/// The surface size for a `w` by `h` window when neither side may exceed `m`:
/// a zero side becomes 1; a window that fits is kept; otherwise both sides
/// are scaled by `m / max(w, h)`, rounded, and kept within `[1, m]`.
pub open spec fn clamped_surface_size(w: int, h: int, m: int) -> (int, int) {
    if w == 0 || h == 0 {
        (max_int(w, 1), max_int(h, 1))
    } else if w <= m && h <= m {
        (w, h)
    } else {
        let l = max_int(w, h);
        (clamp_int(round_div(w * m, l), 1, m), clamp_int(round_div(h * m, l), 1, m))
    }
}

/// Rounding to the nearest integer is off by at most one half.
pub proof fn lemma_round_div_error(p: int, q: int)
    requires
        0 <= p,
        0 < q,
    ensures
        2 * p - q < 2 * q * round_div(p, q) <= 2 * p + q,
        0 <= round_div(p, q),
{
    let r = round_div(p, q);
    vstd::arithmetic::div_mod::lemma_fundamental_div_mod(2 * p + q, 2 * q);
    vstd::arithmetic::div_mod::lemma_mod_bound(2 * p + q, 2 * q);
    vstd::arithmetic::div_mod::lemma_div_pos_is_pos(2 * p + q, 2 * q);
}

/// Scales a `width` by `height` window so that neither side exceeds
/// `max_dimension`, keeping the aspect ratio: each side is multiplied by
/// `max_dimension / max(width, height)` and rounded to the nearest integer. A
/// window that already fits is kept as it is, and a zero side becomes 1.
pub fn clamp_surface_size(width: u32, height: u32, max_dimension: u32) -> (size: (u32, u32))
    requires
        width == 0 || height == 0 || max_dimension >= 1,
    ensures
        (size.0 as int, size.1 as int) == clamped_surface_size(
            width as int,
            height as int,
            max_dimension as int,
        ),
        0 < width <= max_dimension && 0 < height <= max_dimension ==> size == (width, height),
{
    if width == 0 || height == 0 {
        let w = if width > 1 {
            width
        } else {
            1
        };
        let h = if height > 1 {
            height
        } else {
            1
        };
        return (w, h);
    }
    if width <= max_dimension && height <= max_dimension {
        return (width, height);
    }
    let longest: u128 = if width >= height {
        width as u128
    } else {
        height as u128
    };
    let m = max_dimension as u128;
    assert((width as u128) * m <= 0xffff_ffff * 0xffff_ffff) by (nonlinear_arith)
        requires
            width <= 0xffff_ffff,
            m <= 0xffff_ffff,
    ;
    assert((height as u128) * m <= 0xffff_ffff * 0xffff_ffff) by (nonlinear_arith)
        requires
            height <= 0xffff_ffff,
            m <= 0xffff_ffff,
    ;
    let rw = (2 * ((width as u128) * m) + longest) / (2 * longest);
    let rh = (2 * ((height as u128) * m) + longest) / (2 * longest);
    let cw: u32 = if rw < 1 {
        1
    } else if rw > m {
        max_dimension
    } else {
        rw as u32
    };
    let ch: u32 = if rh < 1 {
        1
    } else if rh > m {
        max_dimension
    } else {
        rh as u32
    };
    (cw, ch)
}

/// The fitted surface never exceeds the limit, unless a side was zero; the
/// longer side of a window that does not fit becomes exactly the limit; and
/// each side keeps the window's aspect ratio up to rounding, unless raised
/// to the minimum of 1.
pub proof fn lemma_clamped_surface_size_fits(w: int, h: int, m: int)
    requires
        0 < w,
        0 < h,
        1 <= m,
    ensures
        1 <= clamped_surface_size(w, h, m).0 <= m,
        1 <= clamped_surface_size(w, h, m).1 <= m,
        !(w <= m && h <= m) && w >= h ==> clamped_surface_size(w, h, m).0 == m,
        !(w <= m && h <= m) && h >= w ==> clamped_surface_size(w, h, m).1 == m,
        !(w <= m && h <= m) && clamped_surface_size(w, h, m).0 > 1 ==> {
            let l = max_int(w, h);
            let s = clamped_surface_size(w, h, m).0;
            2 * w * m - l < 2 * l * s <= 2 * w * m + l
        },
        !(w <= m && h <= m) && clamped_surface_size(w, h, m).1 > 1 ==> {
            let l = max_int(w, h);
            let s = clamped_surface_size(w, h, m).1;
            2 * h * m - l < 2 * l * s <= 2 * h * m + l
        },
{
    if !(w <= m && h <= m) {
        let l = max_int(w, h);
        assert(0 <= w * m && 0 <= h * m) by (nonlinear_arith)
            requires
                0 < w,
                0 < h,
                0 < m,
        ;
        lemma_round_div_error(w * m, l);
        lemma_round_div_error(h * m, l);
        assert(w * m <= l * m && h * m <= l * m) by (nonlinear_arith)
            requires
                0 < w <= l,
                0 < h <= l,
                0 < m,
        ;
        let rw = round_div(w * m, l);
        let rh = round_div(h * m, l);
        assert(rw <= m) by (nonlinear_arith)
            requires
                2 * l * rw <= 2 * (w * m) + l,
                w * m <= l * m,
                l > 0,
        ;
        assert(rh <= m) by (nonlinear_arith)
            requires
                2 * l * rh <= 2 * (h * m) + l,
                h * m <= l * m,
                l > 0,
        ;
        if w >= h {
            assert(round_div(w * m, l) == m) by {
                assert(2 * (w * m) + l == (2 * l) * m + l) by (nonlinear_arith)
                    requires
                        l == w,
                ;
                vstd::arithmetic::div_mod::lemma_fundamental_div_mod_converse(
                    2 * (w * m) + l,
                    2 * l,
                    m,
                    l,
                );
            }
        }
        if h >= w {
            assert(round_div(h * m, l) == m) by {
                assert(2 * (h * m) + l == (2 * l) * m + l) by (nonlinear_arith)
                    requires
                        l == h,
                ;
                vstd::arithmetic::div_mod::lemma_fundamental_div_mod_converse(
                    2 * (h * m) + l,
                    2 * l,
                    m,
                    l,
                );
            }
        }
        assert(2 * w * m == 2 * (w * m) && 2 * h * m == 2 * (h * m)) by (nonlinear_arith);
    }
}

/// A window that fits within the limit on both sides is kept exactly as it
/// is, whichever side is the longer; a zero side becomes 1 and the other side
/// is kept, at least 1.
pub proof fn lemma_fitting_window_kept(w: int, h: int, m: int)
    ensures
        0 < w <= m && 0 < h <= m ==> clamped_surface_size(w, h, m) == (w, h),
        w == 0 && h > 0 ==> clamped_surface_size(w, h, m) == (1int, h),
        h == 0 && w > 0 ==> clamped_surface_size(w, h, m) == (w, 1int),
        w == 0 && h == 0 ==> clamped_surface_size(w, h, m) == (1int, 1int),
{
}

} // verus!
