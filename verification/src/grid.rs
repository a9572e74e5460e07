//! Grid cell geometry: where each thumbnail lands once every window has
//! been assigned a cell.
//!
//! The assignment itself (which window goes to which cell) is a heuristic
//! of the layout collaborator; this module turns an assignment into exact
//! pixel rectangles: cells split the available area evenly, the grid is
//! centered on the screen below the reserved strip, a row holding fewer
//! windows than there are columns is centered within the grid, and each
//! window scales into its cell preserving its aspect ratio.

use vstd::prelude::*;
use vstd::arithmetic::div_mod::lemma_fundamental_div_mod;

use crate::compositor::Rect;
use crate::layout::ThumbnailLayout;
use crate::layout::fit_scale;
use crate::layout::scale_to_fit;

verus! {

/// Difference clamped at zero.
pub open spec fn sat_sub(a: int, b: int) -> int {
    if a >= b {
        a - b
    } else {
        0
    }
}

/// Width of one cell: the available width, minus the padding between
/// columns, split evenly.
pub open spec fn cell_width(cols: int, screen_width: int, margin: int, padding: int) -> int {
    sat_sub(sat_sub(screen_width, 2 * margin), (cols - 1) * padding) / cols
}

/// Height of one cell: the available height below the reserved strip,
/// minus the padding between rows, split evenly.
pub open spec fn cell_height(
    rows: int,
    screen_height: int,
    top_reserved: int,
    margin: int,
    padding: int,
) -> int {
    sat_sub(sat_sub(sat_sub(screen_height, top_reserved), 2 * margin), (rows - 1) * padding) / rows
}

/// Total width of the grid: all columns and the padding between them.
pub open spec fn grid_width(cols: int, screen_width: int, margin: int, padding: int) -> int {
    cols * cell_width(cols, screen_width, margin, padding) + (cols - 1) * padding
}

/// Total height of the grid.
pub open spec fn grid_height(
    rows: int,
    screen_height: int,
    top_reserved: int,
    margin: int,
    padding: int,
) -> int {
    rows * cell_height(rows, screen_height, top_reserved, margin, padding) + (rows - 1) * padding
}

/// How many assignments fall in one row of the grid.
pub open spec fn count_in_row(assignments: Seq<usize>, cols: int, row: int) -> int
    decreases assignments.len(),
{
    if assignments.len() == 0 {
        0
    } else {
        (if assignments[0] as int / cols == row {
            1int
        } else {
            0int
        }) + count_in_row(assignments.drop_first(), cols, row)
    }
}

/// A thumbnail's width inside a cell, as the aspect-preserving scaling
/// computes it.
pub open spec fn thumb_width(
    src_width: int,
    src_height: int,
    max_width: int,
    max_height: int,
    max_scale_permille: int,
) -> int {
    if src_width == 0 || src_height == 0 {
        max_width
    } else {
        let scale = fit_scale(src_width, src_height, max_width, max_height, max_scale_permille);
        let v = src_width * scale.0 / scale.1;
        if v > 1 {
            v
        } else {
            1
        }
    }
}

/// A thumbnail's height inside a cell.
pub open spec fn thumb_height(
    src_width: int,
    src_height: int,
    max_width: int,
    max_height: int,
    max_scale_permille: int,
) -> int {
    if src_width == 0 || src_height == 0 {
        max_height
    } else {
        let scale = fit_scale(src_width, src_height, max_width, max_height, max_scale_permille);
        let v = src_height * scale.0 / scale.1;
        if v > 1 {
            v
        } else {
            1
        }
    }
}

/// The exact layout of one window given its cell assignment: its cell's
/// corner (grid offset, row centering, column and row strides), then the
/// scaled thumbnail centered within the cell.
pub open spec fn spec_grid_layout(
    window: Rect,
    assignments: Seq<usize>,
    cols: int,
    rows: int,
    screen_width: int,
    screen_height: int,
    top_reserved: int,
    padding: int,
    margin: int,
    max_scale_permille: int,
    index: int,
) -> ThumbnailLayout {
    let a = assignments[index] as int;
    let col = a % cols;
    let row = a / cols;
    let cw = cell_width(cols, screen_width, margin, padding);
    let ch = cell_height(rows, screen_height, top_reserved, margin, padding);
    let gw = grid_width(cols, screen_width, margin, padding);
    let gh = grid_height(rows, screen_height, top_reserved, margin, padding);
    let grid_offset_x = sat_sub(screen_width, gw) / 2;
    let grid_offset_y = top_reserved + sat_sub(sat_sub(screen_height, top_reserved), gh) / 2;
    let row_count = count_in_row(assignments, cols, row);
    let row_offset_x = if row_count < cols {
        sat_sub(gw, row_count * cw + sat_sub(row_count, 1) * padding) / 2
    } else {
        0
    };
    let cell_x = grid_offset_x + row_offset_x + col * (cw + padding);
    let cell_y = grid_offset_y + row * (ch + padding);
    let tw = thumb_width(
        window.width as int,
        window.height as int,
        cw,
        ch,
        max_scale_permille,
    );
    let th = thumb_height(
        window.width as int,
        window.height as int,
        cw,
        ch,
        max_scale_permille,
    );
    ThumbnailLayout {
        x: (cell_x + sat_sub(cw, tw) / 2) as i16,
        y: (cell_y + sat_sub(ch, th) / 2) as i16,
        width: tw as u16,
        height: th as u16,
        window_index: index as usize,
    }
}

/// Dividing keeps the product below the dividend.
proof fn lemma_div_mul_le(x: int, d: int)
    requires
        x >= 0,
        d >= 1,
    ensures
        d * (x / d) <= x,
        x / d >= 0,
    decreases 0int,
{
    lemma_fundamental_div_mod(x, d);
}

/// A row never counts more assignments than there are.
proof fn lemma_count_in_row_le_len(assignments: Seq<usize>, cols: int, row: int)
    ensures
        0 <= count_in_row(assignments, cols, row) <= assignments.len(),
    decreases assignments.len(),
{
    if assignments.len() > 0 {
        lemma_count_in_row_le_len(assignments.drop_first(), cols, row);
    }
}

/// Turn a cell assignment into pixel layouts. The screen is protocol
/// coordinates; each cell index must lie in the grid and within its row's
/// occupancy, which the assignment construction guarantees by filling rows
/// from the left.
pub fn build_grid_layouts(
    windows: &Vec<Rect>,
    assignments: &Vec<usize>,
    cols: usize,
    rows: usize,
    screen_width: u16,
    screen_height: u16,
    top_reserved: u16,
    padding: u16,
    margin: u16,
    max_scale_permille: u32,
) -> (r: Vec<ThumbnailLayout>)
    requires
        windows@.len() == assignments@.len(),
        1 <= cols <= 0xffff,
        1 <= rows <= 0xffff,
        screen_width <= 0x7fff,
        screen_height <= 0x7fff,
        top_reserved <= screen_height,
        (cols - 1) * padding <= screen_width,
        (rows - 1) * padding <= screen_height - top_reserved,
        forall|i: int|
            0 <= i < assignments@.len() ==> ((#[trigger] assignments@[i]) as int) < cols * rows,
        forall|i: int|
            0 <= i < assignments@.len() ==> ((#[trigger] assignments@[i]) as int % (cols as int))
                < count_in_row(assignments@, cols as int, assignments@[i] as int / (cols as int)),
    ensures
        r@.len() == windows@.len(),
        forall|i: int|
            0 <= i < r@.len() ==> #[trigger] r@[i] == spec_grid_layout(
                windows@[i],
                assignments@,
                cols as int,
                rows as int,
                screen_width as int,
                screen_height as int,
                top_reserved as int,
                padding as int,
                margin as int,
                max_scale_permille as int,
                i,
            ),
{
    let colsw = cols as u64;
    let rowsw = rows as u64;
    let sw = screen_width as u64;
    let sh = screen_height as u64;
    let top = top_reserved as u64;
    let pad = padding as u64;
    let marg = margin as u64;

    let avail_w: u64 = if sw >= 2 * marg {
        sw - 2 * marg
    } else {
        0
    };
    let avail_strip: u64 = sh - top;
    let avail_h: u64 = if avail_strip >= 2 * marg {
        avail_strip - 2 * marg
    } else {
        0
    };
    proof {
        // The preconditions bound the total padding by the screen.
        assert((colsw - 1) * pad <= 0x7fffu64);
        assert((rowsw - 1) * pad <= 0x7fffu64);
    }
    let tph: u64 = (colsw - 1) * pad;
    let tpv: u64 = (rowsw - 1) * pad;
    let cw: u64 = (if avail_w >= tph {
        avail_w - tph
    } else {
        0
    }) / colsw;
    let ch: u64 = (if avail_h >= tpv {
        avail_h - tpv
    } else {
        0
    }) / rowsw;
    proof {
        lemma_div_mul_le(sat_sub(avail_w as int, tph as int), colsw as int);
        lemma_div_mul_le(sat_sub(avail_h as int, tpv as int), rowsw as int);
        assert(colsw * cw <= avail_w && rowsw * ch <= avail_h) by (nonlinear_arith)
            requires
                colsw as int * (cw as int) <= sat_sub(avail_w as int, tph as int),
                rowsw as int * (ch as int) <= sat_sub(avail_h as int, tpv as int),
                cw as int == sat_sub(avail_w as int, tph as int) / (colsw as int),
                ch as int == sat_sub(avail_h as int, tpv as int) / (rowsw as int),
                sat_sub(avail_w as int, tph as int) >= 0,
                sat_sub(avail_h as int, tpv as int) >= 0,
        ;
    }
    let gw: u64 = colsw * cw + tph;
    let gh: u64 = rowsw * ch + tpv;
    proof {
        // The grid never outgrows the screen: either the cells fit the
        // available area, or they are empty and only the padding is left,
        // which the preconditions bound.
        assert(gw <= sw);
        assert(gh <= sh - top);
        assert(gw as int == grid_width(
            cols as int,
            screen_width as int,
            margin as int,
            padding as int,
        ));
        assert(gh as int == grid_height(
            rows as int,
            screen_height as int,
            top_reserved as int,
            margin as int,
            padding as int,
        ));
    }
    let grid_offset_x: u64 = (if sw >= gw {
        sw - gw
    } else {
        0
    }) / 2;
    let grid_offset_y: u64 = top + (if avail_strip >= gh {
        avail_strip - gh
    } else {
        0
    }) / 2;

    // Row occupancy histogram.
    let mut per_row: Vec<usize> = Vec::new();
    let mut k: usize = 0;
    while k < rows
        invariant
            k <= rows,
            per_row@.len() == k,
            forall|t: int| 0 <= t < k ==> per_row@[t] == 0,
        decreases rows - k,
    {
        per_row.push(0);
        k = k + 1;
    }
    let n = assignments.len();
    proof {
        assert(assignments@.skip(0) =~= assignments@);
    }
    for i in 0..n
        invariant
            n == assignments@.len(),
            1 <= cols <= 0xffff,
            1 <= rows <= 0xffff,
            per_row@.len() == rows,
            forall|i2: int|
                0 <= i2 < assignments@.len() ==> ((#[trigger] assignments@[i2]) as int) < cols
                    * rows,
            forall|t: int|
                0 <= t < rows ==> per_row@[t] as int + count_in_row(
                    assignments@.skip(i as int),
                    cols as int,
                    t,
                ) == count_in_row(assignments@, cols as int, t),
            forall|t: int| 0 <= t < rows ==> per_row@[t] <= i,
    {
        proof {
            assert(assignments@.skip(i as int)[0] == assignments@[i as int]);
            assert(assignments@.skip(i as int).drop_first() =~= assignments@.skip(i as int + 1));
            assert(((assignments@[i as int] as int) / (cols as int)) < rows as int)
                by (nonlinear_arith)
                requires
                    (assignments@[i as int] as int) < cols as int * (rows as int),
                    cols >= 1,
                    rows >= 1,
                    (assignments@[i as int] as int) >= 0,
            ;
            assert((assignments@[i as int] as int) / (cols as int) >= 0) by {
                lemma_div_mul_le(assignments@[i as int] as int, cols as int);
            }
        }
        let row = assignments[i] / cols;
        let old_count = per_row[row];
        per_row.set(row, old_count + 1);
    }
    proof {
        assert(assignments@.skip(n as int) =~= Seq::<usize>::empty());
    }

    // Lay each window out in its assigned cell.
    let mut r: Vec<ThumbnailLayout> = Vec::new();
    let m = windows.len();
    for i in 0..m
        invariant
            m == windows@.len(),
            m == assignments@.len(),
            1 <= cols <= 0xffff,
            1 <= rows <= 0xffff,
            screen_width <= 0x7fff,
            screen_height <= 0x7fff,
            top_reserved <= screen_height,
            colsw == cols as int,
            rowsw == rows as int,
            sw == screen_width as int,
            sh == screen_height as int,
            top == top_reserved as int,
            pad == padding as int,
            marg == margin as int,
            cw as int == cell_width(cols as int, screen_width as int, margin as int, padding as int),
            ch as int == cell_height(
                rows as int,
                screen_height as int,
                top_reserved as int,
                margin as int,
                padding as int,
            ),
            gw as int == grid_width(cols as int, screen_width as int, margin as int, padding as int),
            gh as int == grid_height(
                rows as int,
                screen_height as int,
                top_reserved as int,
                margin as int,
                padding as int,
            ),
            colsw * cw + tph == gw,
            rowsw * ch + tpv == gh,
            gw <= sw,
            gh <= sh - top,
            cw <= 0x7fff,
            ch <= 0x7fff,
            grid_offset_x as int == sat_sub(screen_width as int, gw as int) / 2,
            grid_offset_y as int == top_reserved + sat_sub(
                sat_sub(screen_height as int, top_reserved as int),
                gh as int,
            ) / 2,
            per_row@.len() == rows,
            forall|t: int|
                0 <= t < rows ==> per_row@[t] as int == count_in_row(assignments@, cols as int, t),
            forall|i2: int|
                0 <= i2 < assignments@.len() ==> ((#[trigger] assignments@[i2]) as int) < cols
                    * rows,
            forall|i2: int|
                0 <= i2 < assignments@.len() ==> ((#[trigger] assignments@[i2]) as int % (
                cols as int)) < count_in_row(
                    assignments@,
                    cols as int,
                    assignments@[i2] as int / (cols as int),
                ),
            r@.len() == i,
            forall|j: int|
                0 <= j < i ==> #[trigger] r@[j] == spec_grid_layout(
                    windows@[j],
                    assignments@,
                    cols as int,
                    rows as int,
                    screen_width as int,
                    screen_height as int,
                    top_reserved as int,
                    padding as int,
                    margin as int,
                    max_scale_permille as int,
                    j,
                ),
    {
        let a = assignments[i];
        let col = (a % cols) as u64;
        let row = a / cols;
        proof {
            assert(((a as int) / (cols as int)) < rows as int) by (nonlinear_arith)
                requires
                    (a as int) < cols as int * (rows as int),
                    cols >= 1,
                    rows >= 1,
                    (a as int) >= 0,
            ;
            lemma_div_mul_le(a as int, cols as int);
            lemma_fundamental_div_mod(a as int, cols as int);
        }
        let row_count = per_row[row] as u64;
        proof {
            lemma_count_in_row_le_len(assignments@, cols as int, row as int);
        }
        let row_offset_x: u64 = if row_count < colsw {
            proof {
                // A sparser row is narrower than the grid, and each of
                // its terms alone stays within it.
                assert(row_count * cw + sat_sub(row_count as int, 1) * pad <= gw && row_count * cw
                    <= gw && sat_sub(row_count as int, 1) * pad <= gw) by (nonlinear_arith)
                    requires
                        0 <= row_count as int,
                        row_count as int <= colsw as int - 1,
                        colsw >= 1,
                        cw >= 0,
                        pad >= 0,
                        gw == colsw * cw + (colsw - 1) * pad,
                ;
            }
            let row_width = row_count * cw + (if row_count >= 1 {
                row_count - 1
            } else {
                0
            }) * pad;
            (if gw >= row_width {
                gw - row_width
            } else {
                0
            }) / 2
        } else {
            0
        };
        proof {
            assert(col * (cw + pad) <= 0xffffu64 * 0x17ffeu64) by (nonlinear_arith)
                requires
                    col <= 0xffffu64,
                    cw <= 0x7fffu64,
                    pad <= 0xffffu64,
            ;
            assert((row as u64) * (ch + pad) <= 0xffffu64 * 0x17ffeu64) by (nonlinear_arith)
                requires
                    row as u64 <= 0xffffu64,
                    ch <= 0x7fffu64,
                    pad <= 0xffffu64,
            ;
        }
        // The occupancy precondition keeps every cell within its row, so
        // the horizontal position stays on the screen.
        let cell_x: u64 = grid_offset_x + row_offset_x + col * (cw + pad);
        let cell_y: u64 = grid_offset_y + (row as u64) * (ch + pad);
        proof {
            let rc = count_in_row(assignments@, cols as int, row as int);
            assert((col as int) < rc);
            if row_count < colsw {
                let rw = row_count as int * cw + sat_sub(row_count as int, 1) * pad;
                assert(col as int * (cw as int + pad as int) + cw <= rw) by (nonlinear_arith)
                    requires
                        col as int + 1 <= row_count as int,
                        cw >= 0,
                        pad >= 0,
                        rw == row_count as int * cw + sat_sub(row_count as int, 1) * pad,
                ;
                assert(rw <= gw as int) by (nonlinear_arith)
                    requires
                        0 <= row_count as int <= colsw as int - 1,
                        colsw >= 1,
                        cw >= 0,
                        pad >= 0,
                        rw == row_count as int * cw + sat_sub(row_count as int, 1) * pad,
                        gw == colsw * cw + (colsw - 1) * pad,
                ;
                assert(row_offset_x as int <= gw - rw);
                assert(cell_x + cw <= sw);
            } else {
                assert(col as int * (cw as int + pad as int) + cw <= gw as int)
                    by (nonlinear_arith)
                    requires
                        col as int <= colsw as int - 1,
                        colsw >= 1,
                        cw >= 0,
                        pad >= 0,
                        gw == colsw * cw + (colsw - 1) * pad,
                ;
                assert(cell_x + cw <= sw);
            }
            assert((row as int) * (ch as int + pad as int) + ch <= gh as int) by (nonlinear_arith)
                requires
                    row as int <= rowsw as int - 1,
                    rowsw >= 1,
                    ch >= 0,
                    pad >= 0,
                    gh == rowsw * ch + (rowsw - 1) * pad,
            ;
            assert(cell_y + ch <= sh);
        }
        let window = &windows[i];
        let (tw, th) = scale_to_fit(window.width, window.height, cw as u16, ch as u16,
            max_scale_permille);
        let x64: u64 = cell_x + (if cw >= tw as u64 {
            cw - tw as u64
        } else {
            0
        }) / 2;
        let y64: u64 = cell_y + (if ch >= th as u64 {
            ch - th as u64
        } else {
            0
        }) / 2;
        proof {
            assert(x64 + 0 <= cell_x + cw);
            assert(y64 <= cell_y + ch);
        }
        r.push(
            ThumbnailLayout {
                x: x64 as u16 as i16,
                y: y64 as u16 as i16,
                width: tw,
                height: th,
                window_index: i,
            },
        );
        proof {
            assert(r@[i as int] == spec_grid_layout(
                windows@[i as int],
                assignments@,
                cols as int,
                rows as int,
                screen_width as int,
                screen_height as int,
                top_reserved as int,
                padding as int,
                margin as int,
                max_scale_permille as int,
                i as int,
            ));
        }
    }
    r
}

} // verus!
