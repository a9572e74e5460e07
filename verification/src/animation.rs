//! Animation interpolation: moving thumbnails between their on-screen
//! positions and their grid cells, dragging snap-backs, and grid
//! re-arrangements.
//!
//! The timeline collaborator owns the clock; every function here takes the
//! current time in milliseconds as an argument and computes positions by
//! exact integer arithmetic. Easing is cubic ease-out: with elapsed time
//! `e` of a duration `d`, a coordinate moves by the fraction
//! `(d^3 - (d - e)^3) / d^3` of its total distance, rounded toward the
//! start.

use vstd::prelude::*;
use vstd::arithmetic::div_mod::lemma_div_is_ordered;
use vstd::arithmetic::div_mod::lemma_div_multiples_vanish;

use crate::compositor::Rect;
use crate::layout::ThumbnailLayout;
use crate::layout::find_layout;
use crate::layout::lookup_layout;

verus! {

/// Durations must stay below this bound (about 49 days) so cubing them in
/// the easing arithmetic cannot overflow.
pub const MAX_DURATION_MS: u64 = 0xffff_ffff;

/// Animation timing configuration.
#[derive(Clone, Copy, Debug, PartialEq, Eq, Structural)]
pub struct AnimationConfig {
    /// How long the animation runs, in milliseconds.
    pub duration_ms: u64,
    /// Frames per second the loop aims for.
    pub fps: u32,
}

impl Default for AnimationConfig {
    /// Half a second at sixty frames per second.
    fn default() -> (c: AnimationConfig)
        ensures
            c.duration_ms == 500,
            c.fps == 60,
    {
        AnimationConfig { duration_ms: 500, fps: 60 }
    }
}

/// A thumbnail's placement at one animation instant.
#[derive(Clone, Copy, Debug, PartialEq, Eq, Structural)]
pub struct AnimatedLayout {
    /// Left edge on the canvas.
    pub x: i16,
    /// Top edge on the canvas.
    pub y: i16,
    /// Thumbnail width.
    pub width: u16,
    /// Thumbnail height.
    pub height: u16,
    /// Index of the window this layout belongs to.
    pub window_index: usize,
}

impl From<ThumbnailLayout> for AnimatedLayout {
    fn from(l: ThumbnailLayout) -> (r: AnimatedLayout)
        ensures
            r == (AnimatedLayout {
                x: l.x,
                y: l.y,
                width: l.width,
                height: l.height,
                window_index: l.window_index,
            }),
    {
        AnimatedLayout {
            x: l.x,
            y: l.y,
            width: l.width,
            height: l.height,
            window_index: l.window_index,
        }
    }
}

impl vstd::std_specs::convert::FromSpecImpl<ThumbnailLayout> for AnimatedLayout {
    open spec fn obeys_from_spec() -> bool {
        true
    }

    open spec fn from_spec(l: ThumbnailLayout) -> AnimatedLayout {
        AnimatedLayout {
            x: l.x,
            y: l.y,
            width: l.width,
            height: l.height,
            window_index: l.window_index,
        }
    }
}

/// The cube of an integer.
pub open spec fn cube(x: int) -> int {
    x * x * x
}

/// Numerator of the eased progress fraction over denominator `cube(d)`:
/// cubic ease-out, zero at `e == 0` and `cube(d)` at `e == d`.
pub open spec fn eased_num(e: int, d: int) -> int {
    cube(d) - cube(d - e)
}

/// A coordinate interpolated from `a` to `b` at elapsed time `e` of
/// duration `d`: `b` once the duration is over, otherwise `a` plus the
/// eased fraction of the distance, rounded toward `a`.
pub open spec fn interp_coord(a: int, b: int, e: int, d: int) -> int {
    if e >= d {
        b
    } else if b >= a {
        a + (b - a) * eased_num(e, d) / cube(d)
    } else {
        a - (a - b) * eased_num(e, d) / cube(d)
    }
}

/// Elapsed animation time: how far `now` is past `start`, clamped to the
/// duration and never negative.
pub open spec fn clamped_elapsed(start: int, duration: int, now: int) -> int {
    if now <= start {
        0
    } else if now - start >= duration {
        duration
    } else {
        now - start
    }
}

/// The eased fraction stays within zero and one: its numerator is between
/// zero and its denominator.
proof fn lemma_eased_num_bounds(e: int, d: int)
    requires
        0 <= e < d,
    ensures
        0 <= eased_num(e, d) <= cube(d),
{
    assert(0 <= (d - e) * (d - e) * (d - e) <= d * d * d) by (nonlinear_arith)
        requires
            0 <= d - e <= d,
    ;
}

/// Interpolate one coordinate. The result never leaves the closed interval
/// between `a` and `b`.
fn interp_i32(a: i32, b: i32, e: u64, d: u64) -> (r: i32)
    requires
        -0x10000 <= a <= 0x10000,
        -0x10000 <= b <= 0x10000,
        d <= MAX_DURATION_MS,
    ensures
        r == interp_coord(a as int, b as int, e as int, d as int),
        a <= b ==> a <= r <= b,
        b <= a ==> b <= r <= a,
{
    if e >= d {
        return b;
    }
    let du = d as u128;
    let eu = e as u128;
    proof {
        assert(du * du <= 0xffff_ffffu128 * 0xffff_ffffu128 && du * du * du <= 0xffff_ffffu128
            * 0xffff_ffffu128 * 0xffff_ffffu128) by (nonlinear_arith)
            requires
                du <= 0xffff_ffffu128,
        ;
    }
    let den = du * du * du;
    let rem = du - eu;
    proof {
        assert(rem * rem <= du * du && rem * rem * rem <= du * du * du) by (nonlinear_arith)
            requires
                0 <= rem <= du,
        ;
        lemma_eased_num_bounds(e as int, d as int);
    }
    let num = den - rem * rem * rem;
    let (lo, delta): (i32, u128) = if b >= a {
        (a, (b - a) as u128)
    } else {
        (b, (a - b) as u128)
    };
    proof {
        assert(delta * num <= delta * den) by (nonlinear_arith)
            requires
                0 <= num <= den,
                delta >= 0,
        ;
        assert(delta * num <= 0x20001u128 * (0xffff_ffffu128 * 0xffff_ffffu128
            * 0xffff_ffffu128)) by (nonlinear_arith)
            requires
                delta <= 0x20001u128,
                num <= 0xffff_ffffu128 * 0xffff_ffffu128 * 0xffff_ffffu128,
        ;
        assert(den >= 1) by (nonlinear_arith)
            requires
                du >= 1,
                den == du * du * du,
        ;
        lemma_div_is_ordered((delta * num) as int, (delta * den) as int, den as int);
        lemma_div_multiples_vanish(delta as int, den as int);
        assert(delta * den == den * delta) by (nonlinear_arith);
    }
    let m = delta * num / den;
    assert(m <= delta);
    if b >= a {
        a + m as i32
    } else {
        a - m as i32
    }
}

/// Interpolate a signed canvas coordinate.
fn interp_pos(a: i16, b: i16, e: u64, d: u64) -> (r: i16)
    requires
        d <= MAX_DURATION_MS,
    ensures
        r == interp_coord(a as int, b as int, e as int, d as int),
{
    let v = interp_i32(a as i32, b as i32, e, d);
    v as i16
}

/// Interpolate an unsigned extent, kept at least one pixel so a shrinking
/// rectangle never vanishes into a degenerate paint.
fn interp_dim(a: u16, b: u16, e: u64, d: u64) -> (r: u16)
    requires
        d <= MAX_DURATION_MS,
    ensures
        r as int == ({
            let v = interp_coord(a as int, b as int, e as int, d as int);
            if v > 1 {
                v
            } else {
                1int
            }
        }),
{
    let v = interp_i32(a as i32, b as i32, e, d);
    if v > 1 {
        v as u16
    } else {
        1u16
    }
}

/// Starting layouts for the entrance animation: each window's thumbnail
/// begins centered on the window's on-screen position at its final size,
/// clamped into the screen. Screen dimensions are protocol coordinates and
/// fit in a signed sixteen-bit value.
pub fn calculate_start_layouts(
    windows: &Vec<Rect>,
    end_layouts: &Vec<ThumbnailLayout>,
    screen_width: u16,
    screen_height: u16,
) -> (r: Vec<AnimatedLayout>)
    requires
        screen_width <= 0x7fff,
        screen_height <= 0x7fff,
        forall|i: int|
            0 <= i < end_layouts@.len() ==> end_layouts@[i].width <= screen_width
                && end_layouts@[i].height <= screen_height,
    ensures
        r@.len() == if windows@.len() <= end_layouts@.len() {
            windows@.len()
        } else {
            end_layouts@.len()
        },
        forall|i: int|
            0 <= i < r@.len() ==> r@[i] == spec_start_layout(
                windows@[i],
                end_layouts@[i],
                screen_width as int,
                screen_height as int,
                i as int,
            ),
{
    let mut r: Vec<AnimatedLayout> = Vec::new();
    let n = if windows.len() <= end_layouts.len() {
        windows.len()
    } else {
        end_layouts.len()
    };
    for i in 0..n
        invariant
            n <= windows@.len(),
            n <= end_layouts@.len(),
            screen_width <= 0x7fff,
            screen_height <= 0x7fff,
            forall|j: int|
                0 <= j < end_layouts@.len() ==> end_layouts@[j].width <= screen_width
                    && end_layouts@[j].height <= screen_height,
            r@.len() == i,
            forall|j: int|
                0 <= j < i ==> r@[j] == spec_start_layout(
                    windows@[j],
                    end_layouts@[j],
                    screen_width as int,
                    screen_height as int,
                    j as int,
                ),
    {
        let w = &windows[i];
        let end = &end_layouts[i];
        let x = clamp_start(w.x, w.width, end.width, screen_width);
        let y = clamp_start(w.y, w.height, end.height, screen_height);
        r.push(
            AnimatedLayout { x, y, width: end.width, height: end.height, window_index: i },
        );
    }
    r
}

/// A start coordinate on one axis: the thumbnail centered on the window,
/// then clamped below by the screen edge and above by where the thumbnail
/// still fits (in that order, so an oversized thumbnail sits at the upper
/// clamp even when negative).
/// Half of an integer, rounded toward zero.
pub open spec fn half_toward_zero(x: int) -> int {
    if x >= 0 {
        x / 2
    } else {
        -((-x) / 2)
    }
}

pub open spec fn spec_clamp_start(
    window_pos: int,
    window_size: int,
    end_size: int,
    screen_size: int,
) -> int {
    let centered = half_toward_zero(2 * window_pos + window_size - end_size);
    let lower_clamped = if centered >= 0 {
        centered
    } else {
        0
    };
    let limit = screen_size - end_size;
    if lower_clamped <= limit {
        lower_clamped
    } else {
        limit
    }
}

/// The start layout of one window: centered on the window at the final
/// size, clamped into the screen.
pub open spec fn spec_start_layout(
    window: Rect,
    end: ThumbnailLayout,
    screen_width: int,
    screen_height: int,
    index: int,
) -> AnimatedLayout {
    AnimatedLayout {
        x: spec_clamp_start(window.x as int, window.width as int, end.width as int, screen_width)
            as i16,
        y: spec_clamp_start(
            window.y as int,
            window.height as int,
            end.height as int,
            screen_height,
        ) as i16,
        width: end.width,
        height: end.height,
        window_index: index as usize,
    }
}

fn clamp_start(window_pos: i16, window_size: u16, end_size: u16, screen_size: u16) -> (r: i16)
    requires
        screen_size <= 0x7fff,
        end_size <= screen_size,
    ensures
        r as int == spec_clamp_start(
            window_pos as int,
            window_size as int,
            end_size as int,
            screen_size as int,
        ),
{
    let spread: i32 = 2 * (window_pos as i32) + (window_size as i32) - (end_size as i32);
    let centered: i32 = if spread >= 0 {
        spread / 2
    } else {
        -((-spread) / 2)
    };
    let lower_clamped: i32 = if centered >= 0 {
        centered
    } else {
        0
    };
    let limit: i32 = (screen_size as i32) - (end_size as i32);
    let v: i32 = if lower_clamped <= limit {
        lower_clamped
    } else {
        limit
    };
    v as i16
}

/// Interpolate every thumbnail between its start and end layout at the
/// given elapsed time: positions ease, sizes stay at their final values.
pub fn interpolate_layouts(
    start: &Vec<AnimatedLayout>,
    end: &Vec<ThumbnailLayout>,
    elapsed_ms: u64,
    duration_ms: u64,
) -> (r: Vec<AnimatedLayout>)
    requires
        duration_ms <= MAX_DURATION_MS,
    ensures
        r@.len() == if start@.len() <= end@.len() {
            start@.len()
        } else {
            end@.len()
        },
        forall|i: int|
            0 <= i < r@.len() ==> r@[i] == (AnimatedLayout {
                x: interp_coord(
                    start@[i].x as int,
                    end@[i].x as int,
                    elapsed_ms as int,
                    duration_ms as int,
                ) as i16,
                y: interp_coord(
                    start@[i].y as int,
                    end@[i].y as int,
                    elapsed_ms as int,
                    duration_ms as int,
                ) as i16,
                width: end@[i].width,
                height: end@[i].height,
                window_index: start@[i].window_index,
            }),
{
    let mut r: Vec<AnimatedLayout> = Vec::new();
    let n = if start.len() <= end.len() {
        start.len()
    } else {
        end.len()
    };
    for i in 0..n
        invariant
            n <= start@.len(),
            n <= end@.len(),
            duration_ms <= MAX_DURATION_MS,
            r@.len() == i,
            forall|j: int|
                0 <= j < i ==> r@[j] == (AnimatedLayout {
                    x: interp_coord(
                        start@[j].x as int,
                        end@[j].x as int,
                        elapsed_ms as int,
                        duration_ms as int,
                    ) as i16,
                    y: interp_coord(
                        start@[j].y as int,
                        end@[j].y as int,
                        elapsed_ms as int,
                        duration_ms as int,
                    ) as i16,
                    width: end@[j].width,
                    height: end@[j].height,
                    window_index: start@[j].window_index,
                }),
    {
        let x = interp_pos(start[i].x, end[i].x, elapsed_ms, duration_ms);
        let y = interp_pos(start[i].y, end[i].y, elapsed_ms, duration_ms);
        r.push(
            AnimatedLayout {
                x,
                y,
                width: end[i].width,
                height: end[i].height,
                window_index: start[i].window_index,
            },
        );
    }
    r
}

/// The running entrance or exit animation: start and end layouts, when it
/// began, how long it runs, and the frame pacing derived from the
/// configured frame rate.
pub struct Animator {
    /// Where each thumbnail starts.
    pub start_layouts: Vec<AnimatedLayout>,
    /// Where each thumbnail ends.
    pub end_layouts: Vec<ThumbnailLayout>,
    /// The instant the animation began, in milliseconds.
    pub start_ms: u64,
    /// How long the animation runs, in milliseconds.
    pub duration_ms: u64,
    /// One frame's duration in nanoseconds.
    pub frame_duration_nanos: u64,
}

impl Animator {
    /// Timing bounds that keep the easing arithmetic exact.
    pub open spec fn wf(self) -> bool {
        self.duration_ms <= MAX_DURATION_MS
    }

    /// Begin an animation at the given instant.
    pub fn new(
        start_layouts: Vec<AnimatedLayout>,
        end_layouts: Vec<ThumbnailLayout>,
        config: &AnimationConfig,
        now_ms: u64,
    ) -> (a: Animator)
        requires
            config.duration_ms <= MAX_DURATION_MS,
            config.fps >= 1,
        ensures
            a.start_layouts == start_layouts,
            a.end_layouts == end_layouts,
            a.start_ms == now_ms,
            a.duration_ms == config.duration_ms,
            a.frame_duration_nanos == 1_000_000_000u64 / config.fps as u64,
            a.wf(),
    {
        Animator {
            start_layouts,
            end_layouts,
            start_ms: now_ms,
            duration_ms: config.duration_ms,
            frame_duration_nanos: 1_000_000_000u64 / (config.fps as u64),
        }
    }

    /// Whether the animation has run its full duration by `now_ms`.
    pub fn is_complete(&self, now_ms: u64) -> (r: bool)
        ensures
            r == (clamped_elapsed(self.start_ms as int, self.duration_ms as int, now_ms as int)
                >= self.duration_ms),
    {
        let elapsed = if now_ms >= self.start_ms {
            now_ms - self.start_ms
        } else {
            0
        };
        elapsed >= self.duration_ms
    }

    /// The layouts to paint at `now_ms`: every thumbnail eased between its
    /// start and end position, at its final size.
    pub fn current_layouts(&self, now_ms: u64) -> (r: Vec<AnimatedLayout>)
        requires
            self.wf(),
        ensures
            r@.len() == if self.start_layouts@.len() <= self.end_layouts@.len() {
                self.start_layouts@.len()
            } else {
                self.end_layouts@.len()
            },
            forall|i: int|
                0 <= i < r@.len() ==> r@[i] == (AnimatedLayout {
                    x: interp_coord(
                        self.start_layouts@[i].x as int,
                        self.end_layouts@[i].x as int,
                        clamped_elapsed(
                            self.start_ms as int,
                            self.duration_ms as int,
                            now_ms as int,
                        ),
                        self.duration_ms as int,
                    ) as i16,
                    y: interp_coord(
                        self.start_layouts@[i].y as int,
                        self.end_layouts@[i].y as int,
                        clamped_elapsed(
                            self.start_ms as int,
                            self.duration_ms as int,
                            now_ms as int,
                        ),
                        self.duration_ms as int,
                    ) as i16,
                    width: self.end_layouts@[i].width,
                    height: self.end_layouts@[i].height,
                    window_index: self.start_layouts@[i].window_index,
                }),
    {
        let elapsed = self.elapsed(now_ms);
        interpolate_layouts(&self.start_layouts, &self.end_layouts, elapsed, self.duration_ms)
    }

    /// How long one frame lasts, in nanoseconds.
    pub fn frame_duration(&self) -> (r: u64)
        ensures
            r == self.frame_duration_nanos,
    {
        self.frame_duration_nanos
    }

    /// Elapsed animation time at `now_ms`, clamped to the duration.
    pub fn elapsed(&self, now_ms: u64) -> (r: u64)
        ensures
            r == clamped_elapsed(self.start_ms as int, self.duration_ms as int, now_ms as int),
    {
        if now_ms <= self.start_ms {
            0
        } else if now_ms - self.start_ms >= self.duration_ms {
            self.duration_ms
        } else {
            now_ms - self.start_ms
        }
    }
}

/// Where a drag animation is headed.
#[derive(Clone, Copy, Debug, PartialEq, Eq, Structural)]
pub enum AnimationMode {
    /// The window was dropped on a desktop preview and snaps onto it.
    SnapToDesktop { desktop_index: usize },
    /// The drop missed; the window glides back to its grid cell.
    RevertToGrid,
}

/// An in-flight snap or revert animation of one dragged window.
#[derive(Clone, Copy, Debug, PartialEq, Eq, Structural)]
pub struct DragAnimation {
    /// Where the animation is headed.
    pub mode: AnimationMode,
    /// Index of the window being animated.
    pub window_index: usize,
    /// The rectangle the drag was released at.
    pub from: Rect,
    /// The rectangle the window glides to.
    pub to: Rect,
    /// The instant the animation began, in milliseconds.
    pub start_ms: u64,
    /// How long it runs, in milliseconds.
    pub duration_ms: u64,
}

impl DragAnimation {
    /// Timing bounds that keep the easing arithmetic exact.
    pub open spec fn wf(self) -> bool {
        self.duration_ms <= MAX_DURATION_MS
    }

    /// Whether the glide has run its full duration by `now_ms`.
    pub fn is_complete(&self, now_ms: u64) -> (r: bool)
        ensures
            r == (clamped_elapsed(self.start_ms as int, self.duration_ms as int, now_ms as int)
                >= self.duration_ms),
    {
        let elapsed = if now_ms >= self.start_ms {
            now_ms - self.start_ms
        } else {
            0
        };
        elapsed >= self.duration_ms
    }

    /// The rectangle to paint the gliding window at: every edge eased,
    /// extents kept at least one pixel.
    pub fn current_position(&self, now_ms: u64) -> (r: Rect)
        requires
            self.wf(),
        ensures
            ({
                let e = clamped_elapsed(self.start_ms as int, self.duration_ms as int, now_ms as int);
                let d = self.duration_ms as int;
                &&& r.x == interp_coord(self.from.x as int, self.to.x as int, e, d) as i16
                &&& r.y == interp_coord(self.from.y as int, self.to.y as int, e, d) as i16
                &&& r.width as int == ({
                    let v = interp_coord(self.from.width as int, self.to.width as int, e, d);
                    if v > 1 {
                        v
                    } else {
                        1int
                    }
                })
                &&& r.height as int == ({
                    let v = interp_coord(self.from.height as int, self.to.height as int, e, d);
                    if v > 1 {
                        v
                    } else {
                        1int
                    }
                })
            }),
    {
        let e = if now_ms <= self.start_ms {
            0
        } else if now_ms - self.start_ms >= self.duration_ms {
            self.duration_ms
        } else {
            now_ms - self.start_ms
        };
        Rect {
            x: interp_pos(self.from.x, self.to.x, e, self.duration_ms),
            y: interp_pos(self.from.y, self.to.y, e, self.duration_ms),
            width: interp_dim(self.from.width, self.to.width, e, self.duration_ms),
            height: interp_dim(self.from.height, self.to.height, e, self.duration_ms),
        }
    }
}


/// The start/end layout pairs of a grid transition: each old layout paired
/// with the new layout of the same window; windows that left the grid are
/// dropped.
pub open spec fn transition_pairs(
    old_layouts: Seq<ThumbnailLayout>,
    new_layouts: Seq<ThumbnailLayout>,
) -> Seq<(ThumbnailLayout, ThumbnailLayout)>
    decreases old_layouts.len(),
{
    if old_layouts.len() == 0 {
        Seq::empty()
    } else {
        (match lookup_layout(new_layouts, old_layouts[0].window_index) {
            Some(nl) => seq![(old_layouts[0], nl)],
            None => Seq::<(ThumbnailLayout, ThumbnailLayout)>::empty(),
        }) + transition_pairs(old_layouts.drop_first(), new_layouts)
    }
}

/// An in-flight re-arrangement of the grid after windows were removed:
/// every remaining thumbnail glides from its old cell to its new one.
pub struct GridTransitionAnimation {
    /// Old and new layout of each remaining window.
    pub transitions: Vec<(ThumbnailLayout, ThumbnailLayout)>,
    /// The instant the transition began, in milliseconds.
    pub start_ms: u64,
    /// How long it runs, in milliseconds.
    pub duration_ms: u64,
}

impl GridTransitionAnimation {
    /// Timing bounds that keep the easing arithmetic exact.
    pub open spec fn wf(self) -> bool {
        self.duration_ms <= MAX_DURATION_MS
    }

    /// Pair every old layout with the new layout of the same window and
    /// start the clock.
    pub fn new(
        old_layouts: &Vec<ThumbnailLayout>,
        new_layouts: &Vec<ThumbnailLayout>,
        duration_ms: u64,
        now_ms: u64,
    ) -> (a: GridTransitionAnimation)
        requires
            duration_ms <= MAX_DURATION_MS,
        ensures
            a.transitions@ == transition_pairs(old_layouts@, new_layouts@),
            a.start_ms == now_ms,
            a.duration_ms == duration_ms,
            a.wf(),
    {
        let mut transitions: Vec<(ThumbnailLayout, ThumbnailLayout)> = Vec::new();
        let n = old_layouts.len();
        proof {
            assert(old_layouts@.skip(0) =~= old_layouts@);
        }
        for i in 0..n
            invariant
                n == old_layouts@.len(),
                transitions@ + transition_pairs(old_layouts@.skip(i as int), new_layouts@)
                    == transition_pairs(old_layouts@, new_layouts@),
        {
            proof {
                assert(old_layouts@.skip(i as int)[0] == old_layouts@[i as int]);
                assert(old_layouts@.skip(i as int).drop_first() =~= old_layouts@.skip(
                    i as int + 1,
                ));
            }
            if let Some(nl) = find_layout(new_layouts, old_layouts[i].window_index) {
                transitions.push((old_layouts[i], nl));
            }
        }
        proof {
            assert(old_layouts@.skip(n as int) =~= Seq::<ThumbnailLayout>::empty());
        }
        GridTransitionAnimation { transitions, start_ms: now_ms, duration_ms }
    }

    /// Whether the transition has run its full duration by `now_ms`.
    pub fn is_complete(&self, now_ms: u64) -> (r: bool)
        ensures
            r == (clamped_elapsed(self.start_ms as int, self.duration_ms as int, now_ms as int)
                >= self.duration_ms),
    {
        let elapsed = if now_ms >= self.start_ms {
            now_ms - self.start_ms
        } else {
            0
        };
        elapsed >= self.duration_ms
    }

    /// The layouts to paint at `now_ms`: every pair eased between its old
    /// and new cell, extents kept at least one pixel.
    pub fn current_layouts(&self, now_ms: u64) -> (r: Vec<ThumbnailLayout>)
        requires
            self.wf(),
        ensures
            r@.len() == self.transitions@.len(),
            forall|i: int|
                0 <= i < r@.len() ==> ({
                    let e = clamped_elapsed(
                        self.start_ms as int,
                        self.duration_ms as int,
                        now_ms as int,
                    );
                    let d = self.duration_ms as int;
                    let from = self.transitions@[i].0;
                    let to = self.transitions@[i].1;
                    #[trigger] r@[i] == (ThumbnailLayout {
                        x: interp_coord(from.x as int, to.x as int, e, d) as i16,
                        y: interp_coord(from.y as int, to.y as int, e, d) as i16,
                        width: (if interp_coord(from.width as int, to.width as int, e, d) > 1 {
                            interp_coord(from.width as int, to.width as int, e, d)
                        } else {
                            1int
                        }) as u16,
                        height: (if interp_coord(from.height as int, to.height as int, e, d) > 1 {
                            interp_coord(from.height as int, to.height as int, e, d)
                        } else {
                            1int
                        }) as u16,
                        window_index: from.window_index,
                    })
                }),
    {
        let e = if now_ms <= self.start_ms {
            0
        } else if now_ms - self.start_ms >= self.duration_ms {
            self.duration_ms
        } else {
            now_ms - self.start_ms
        };
        let mut r: Vec<ThumbnailLayout> = Vec::new();
        let n = self.transitions.len();
        for i in 0..n
            invariant
                n == self.transitions@.len(),
                self.wf(),
                e == clamped_elapsed(self.start_ms as int, self.duration_ms as int, now_ms as int),
                r@.len() == i,
                forall|j: int|
                    0 <= j < i ==> ({
                        let el = clamped_elapsed(
                            self.start_ms as int,
                            self.duration_ms as int,
                            now_ms as int,
                        );
                        let d = self.duration_ms as int;
                        let from = self.transitions@[j].0;
                        let to = self.transitions@[j].1;
                        #[trigger] r@[j] == (ThumbnailLayout {
                            x: interp_coord(from.x as int, to.x as int, el, d) as i16,
                            y: interp_coord(from.y as int, to.y as int, el, d) as i16,
                            width: (if interp_coord(from.width as int, to.width as int, el, d)
                                > 1 {
                                interp_coord(from.width as int, to.width as int, el, d)
                            } else {
                                1int
                            }) as u16,
                            height: (if interp_coord(from.height as int, to.height as int, el, d)
                                > 1 {
                                interp_coord(from.height as int, to.height as int, el, d)
                            } else {
                                1int
                            }) as u16,
                            window_index: from.window_index,
                        })
                    }),
        {
            let (from, to) = self.transitions[i];
            r.push(
                ThumbnailLayout {
                    x: interp_pos(from.x, to.x, e, self.duration_ms),
                    y: interp_pos(from.y, to.y, e, self.duration_ms),
                    width: interp_dim(from.width, to.width, e, self.duration_ms),
                    height: interp_dim(from.height, to.height, e, self.duration_ms),
                    window_index: from.window_index,
                },
            );
        }
        r
    }
}

} // verus!
