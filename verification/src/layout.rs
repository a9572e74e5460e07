//! Grid geometry for thumbnails: how many columns and rows a window count
//! needs, how a window scales into a cell, and lookups by stable identifier.
//!
//! All geometry here is exact integer arithmetic; ratios are carried as
//! fractions and scale factors in permille (1000 = 1.0).

use vstd::prelude::*;
use vstd::arithmetic::div_mod::lemma_fundamental_div_mod;

verus! {

/// Placement of one window's thumbnail on the overview canvas.
#[derive(Clone, Copy, Debug, PartialEq, Eq, Structural)]
pub struct ThumbnailLayout {
    /// Left edge on the canvas.
    pub x: i16,
    /// Top edge on the canvas.
    pub y: i16,
    /// Thumbnail width.
    pub width: u16,
    /// Thumbnail height.
    pub height: u16,
    /// Index of the window this layout belongs to, stable across grid
    /// recalculations.
    pub window_index: usize,
}

/// Whether `c` columns are enough for `count` windows on a `width` by
/// `height` area: the column count is meant to track the area's aspect
/// ratio, nearest to the square root of `count * width / height`, so `c`
/// suffices once `count * width / height < (c + 1/2)^2`, written here
/// without fractions.
pub open spec fn cols_sufficient(c: int, count: int, width: int, height: int) -> bool {
    4 * count * width < (2 * c + 1) * (2 * c + 1) * height
}

/// Grid dimensions for a window count: the fewest columns that track the
/// area's aspect ratio, and as many rows as those columns need.
///
/// The returned `(columns, rows)` always satisfies `columns * rows >=
/// count`, so every window has a cell.
pub fn optimal_grid(count: usize, width: u16, height: u16) -> (r: (usize, usize))
    requires
        height > 0,
    ensures
        count == 0 ==> r == (1usize, 1usize),
        count > 0 ==> ({
            &&& 1 <= r.0
            &&& cols_sufficient(r.0 as int, count as int, width as int, height as int)
            &&& forall|c: int|
                1 <= c < r.0 ==> !cols_sufficient(c, count as int, width as int, height as int)
            &&& r.1 == (count - 1) as int / r.0 as int + 1
        }),
        r.0 >= 1,
        r.1 >= 1,
        r.0 * r.1 >= count,
{
    if count == 0 {
        return (1, 1);
    }
    proof {
        assert(4 * (count as int) * (width as int) < 0x4_0000_0000_0000_0000_0000int)
            by (nonlinear_arith)
            requires
                count as int <= 0xffff_ffff_ffff_ffffint,
                width <= 0xffffint,
        ;
    }
    let need: u128 = 4 * (count as u128) * (width as u128);
    let h: u128 = height as u128;
    let mut c: usize = 1;
    loop
        invariant
            1 <= c,
            c as int <= 4 * (count as int) * (width as int) + 1,
            need == 4 * (count as int) * (width as int),
            need < 0x4_0000_0000_0000_0000_0000u128,
            h == height as int,
            h >= 1,
            h <= 0x1_0000u128,
            count >= 1,
            forall|k: int|
                1 <= k < c ==> !cols_sufficient(k, count as int, width as int, height as int),
        ensures
            cols_sufficient(c as int, count as int, width as int, height as int),
            forall|k: int|
                1 <= k < c ==> !cols_sufficient(k, count as int, width as int, height as int),
        decreases 4 * (count as int) * (width as int) + 2 - c,
    {
        proof {
            // The previous column count fell short, which bounds this one:
            // its square is at most `4 * count * width`.
            if c > 1 {
                assert(!cols_sufficient(
                    c as int - 1,
                    count as int,
                    width as int,
                    height as int,
                ));
                assert(c as int <= 0x200_0000_0000int) by (nonlinear_arith)
                    requires
                        (2 * (c as int) - 1) * (2 * (c as int) - 1) * (height as int) <= 4 * (
                        count as int) * (width as int),
                        4 * (count as int) * (width as int) < 0x4_0000_0000_0000_0000_0000int,
                        height >= 1,
                        c >= 2,
                ;
            }
            assert(c as int <= 0x200_0000_0000int);
        }
        let t: u128 = 2 * (c as u128) + 1;
        proof {
            assert(t * t <= 0x400_0000_0001u128 * 0x400_0000_0001u128) by (nonlinear_arith)
                requires
                    1 <= t <= 0x400_0000_0001u128,
            ;
            assert(t * t * h < 0x1_0000_0000_0000_0000_0000_0000_0000u128) by (nonlinear_arith)
                requires
                    1 <= t <= 0x400_0000_0001u128,
                    h <= 0x1_0000u128,
            ;
        }
        if need < t * t * h {
            break ;
        }
        proof {
            // This column count still falls short, so it sits strictly
            // below both the decrease bound and the type's range.
            assert((c as int) < 4 * (count as int) * (width as int)) by (nonlinear_arith)
                requires
                    (2 * (c as int) + 1) * (2 * (c as int) + 1) * (height as int) <= 4 * (
                    count as int) * (width as int),
                    height >= 1,
                    c >= 1,
            ;
            assert((c as int) < (usize::MAX as int)) by (nonlinear_arith)
                requires
                    (2 * (c as int) + 1) * (2 * (c as int) + 1) * (height as int) <= 4 * (
                    count as int) * (width as int),
                    height >= 1,
                    width <= 0xffffint,
                    1 <= c,
                    count as int <= usize::MAX as int,
                    usize::MAX as int >= 0xffff_ffffint,
            ;
        }
        c = c + 1;
    }
    let rows: usize = (count - 1) / c + 1;
    proof {
        lemma_fundamental_div_mod((count - 1) as int, c as int);
        assert(c * rows >= count) by (nonlinear_arith)
            requires
                c >= 1,
                count >= 1,
                rows == (count - 1) as int / c as int + 1,
                ((count - 1) as int) == c * ((count - 1) as int / c as int) + ((count - 1) as int % (
                c as int)),
                0 <= ((count - 1) as int % (c as int)) < c as int,
        ;
        assert(rows <= count) by (nonlinear_arith)
            requires
                c >= 1,
                count >= 1,
                rows == (count - 1) as int / c as int + 1,
                ((count - 1) as int) == c * ((count - 1) as int / c as int) + ((count - 1) as int % (
                c as int)),
                0 <= ((count - 1) as int % (c as int)) < c as int,
        ;
    }
    (c, rows)
}

/// The smaller of two nonnegative fractions, each a numerator over a
/// positive denominator.
pub open spec fn min_fraction(n1: int, d1: int, n2: int, d2: int) -> (int, int) {
    if n1 * d2 <= n2 * d1 {
        (n1, d1)
    } else {
        (n2, d2)
    }
}

/// The scale a source is painted at inside a cell: the largest factor that
/// fits both axes, capped at `max_scale_permille` (1000 = 1.0), as a
/// fraction.
pub open spec fn fit_scale(
    src_width: int,
    src_height: int,
    max_width: int,
    max_height: int,
    max_scale_permille: int,
) -> (int, int) {
    let axis = min_fraction(max_width, src_width, max_height, src_height);
    min_fraction(axis.0, axis.1, max_scale_permille, 1000)
}

/// Scale a source size to fit within bounds, preserving its aspect ratio
/// and never exceeding the scale cap; degenerate sources get the full
/// bounds, and each result axis is at least one pixel.
pub fn scale_to_fit(
    src_width: u16,
    src_height: u16,
    max_width: u16,
    max_height: u16,
    max_scale_permille: u32,
) -> (r: (u16, u16))
    ensures
        (src_width == 0 || src_height == 0) ==> r == (max_width, max_height),
        (src_width > 0 && src_height > 0) ==> ({
            let scale = fit_scale(
                src_width as int,
                src_height as int,
                max_width as int,
                max_height as int,
                max_scale_permille as int,
            );
            &&& r.0 == if src_width * scale.0 / scale.1 > 1 {
                src_width * scale.0 / scale.1
            } else {
                1int
            }
            &&& r.1 == if src_height * scale.0 / scale.1 > 1 {
                src_height * scale.0 / scale.1
            } else {
                1int
            }
            &&& (r.0 <= max_width || r.0 == 1)
            &&& (r.1 <= max_height || r.1 == 1)
        }),
{
    if src_width == 0 || src_height == 0 {
        return (max_width, max_height);
    }
    let sw = src_width as u64;
    let sh = src_height as u64;
    let mw = max_width as u64;
    let mh = max_height as u64;
    let p = max_scale_permille as u64;
    proof {
        assert(mw * sh < 0x1_0000_0000u64 && mh * sw < 0x1_0000_0000u64) by (nonlinear_arith)
            requires
                mw <= 0xffffu64,
                sh <= 0xffffu64,
                mh <= 0xffffu64,
                sw <= 0xffffu64,
        ;
    }
    let first_axis = mw * sh <= mh * sw;
    let (n1, d1): (u64, u64) = if first_axis {
        (mw, sw)
    } else {
        (mh, sh)
    };
    proof {
        // The smaller axis fraction is at most either axis bound over its
        // source size.
        assert(n1 * sw <= mw * d1 && n1 * sh <= mh * d1);
        assert(n1 * 1000 < 0x4_0000_0000u64) by (nonlinear_arith)
            requires
                n1 <= 0xffffu64,
        ;
        assert(p * d1 <= 0xffff_ffff_ffff_ffffu64) by (nonlinear_arith)
            requires
                p <= 0xffff_ffffu64,
                d1 <= 0xffffu64,
        ;
    }
    let keep_axis = n1 * 1000 <= p * d1;
    let (num, den): (u64, u64) = if keep_axis {
        (n1, d1)
    } else {
        (p, 1000)
    };
    proof {
        // Capping at the permille scale keeps the fraction within both
        // axis bounds.
        if !keep_axis {
            assert(p * sw * d1 <= mw * 1000 * d1) by (nonlinear_arith)
                requires
                    p * d1 <= n1 * 1000,
                    n1 * sw <= mw * d1,
                    sw >= 0,
                    d1 >= 1,
            ;
            assert(p * sw <= mw * 1000) by (nonlinear_arith)
                requires
                    p * sw * d1 <= mw * 1000 * d1,
                    d1 >= 1,
            ;
            assert(p * sh * d1 <= mh * 1000 * d1) by (nonlinear_arith)
                requires
                    p * d1 <= n1 * 1000,
                    n1 * sh <= mh * d1,
                    sh >= 0,
                    d1 >= 1,
            ;
            assert(p * sh <= mh * 1000) by (nonlinear_arith)
                requires
                    p * sh * d1 <= mh * 1000 * d1,
                    d1 >= 1,
            ;
        }
        assert(num * sw <= mw * den && num * sh <= mh * den);
        assert(sw * num <= 0xffff_ffff_ffff_ffffu64 && sh * num
            <= 0xffff_ffff_ffff_ffffu64) by (nonlinear_arith)
            requires
                sw <= 0xffffu64,
                sh <= 0xffffu64,
                num <= 0xffff_ffffu64,
        ;
    }
    let w64 = sw * num / den;
    let h64 = sh * num / den;
    proof {
        lemma_fundamental_div_mod((sw * num) as int, den as int);
        assert(w64 <= mw) by (nonlinear_arith)
            requires
                den >= 1,
                num * sw <= mw * den,
                ((sw * num) as int) == den * ((sw * num) as int / den as int) + ((sw * num) as int
                    % (den as int)),
                0 <= ((sw * num) as int % (den as int)) < den as int,
                w64 == (sw * num) as int / den as int,
        ;
        lemma_fundamental_div_mod((sh * num) as int, den as int);
        assert(h64 <= mh) by (nonlinear_arith)
            requires
                den >= 1,
                num * sh <= mh * den,
                ((sh * num) as int) == den * ((sh * num) as int / den as int) + ((sh * num) as int
                    % (den as int)),
                0 <= ((sh * num) as int % (den as int)) < den as int,
                h64 == (sh * num) as int / den as int,
        ;
        let scale = fit_scale(
            src_width as int,
            src_height as int,
            max_width as int,
            max_height as int,
            max_scale_permille as int,
        );
        assert(num == scale.0 && den == scale.1);
    }
    let w = if w64 > 1 {
        w64 as u16
    } else {
        1u16
    };
    let h = if h64 > 1 {
        h64 as u16
    } else {
        1u16
    };
    (w, h)
}

/// The first layout carrying a window index, if any.
pub open spec fn lookup_layout(layouts: Seq<ThumbnailLayout>, window_index: usize) -> Option<
    ThumbnailLayout,
>
    decreases layouts.len(),
{
    if layouts.len() == 0 {
        None
    } else if layouts[0].window_index == window_index {
        Some(layouts[0])
    } else {
        lookup_layout(layouts.drop_first(), window_index)
    }
}

/// Find a window's layout by its stable index — lookups go by identifier,
/// not by position, so removals cannot leave stale references.
pub fn find_layout(layouts: &Vec<ThumbnailLayout>, window_index: usize) -> (r: Option<
    ThumbnailLayout,
>)
    ensures
        r == lookup_layout(layouts@, window_index),
{
    let n = layouts.len();
    proof {
        assert(layouts@.skip(0) =~= layouts@);
    }
    for i in 0..n
        invariant
            n == layouts@.len(),
            lookup_layout(layouts@, window_index) == lookup_layout(
                layouts@.skip(i as int),
                window_index,
            ),
    {
        proof {
            assert(layouts@.skip(i as int)[0] == layouts@[i as int]);
            assert(layouts@.skip(i as int).drop_first() =~= layouts@.skip(i as int + 1));
        }
        if layouts[i].window_index == window_index {
            return Some(layouts[i]);
        }
    }
    proof {
        assert(layouts@.skip(n as int) =~= Seq::<ThumbnailLayout>::empty());
    }
    None
}

} // verus!
