//! The desktop bar along the top of the overview: one preview rectangle
//! per virtual desktop, a delete button on each, and a plus button to add
//! a desktop — plus the hit testing that turns pointer coordinates into
//! bar elements and the scaled mini-window rectangles drawn inside each
//! preview.

use vstd::prelude::*;

use crate::desktop_state::DesktopState;

verus! {

/// Height of the bar in pixels.
pub const BAR_HEIGHT: u16 = 120;

/// Horizontal gap between desktop previews.
pub const PREVIEW_PADDING: u16 = 15;

/// Height of one desktop preview.
pub const PREVIEW_HEIGHT: u16 = 80;

/// Width of one desktop preview: 16:9 at the preview height.
pub const PREVIEW_WIDTH: u16 = 142;

/// Side length of the plus button.
pub const PLUS_BUTTON_SIZE: u16 = 40;

/// Gap between the plus button and the screen edge.
pub const PLUS_BUTTON_MARGIN: u16 = 20;

/// Side length of a preview's delete button.
pub const DELETE_BUTTON_SIZE: u16 = 16;

/// Gap between a delete button and its preview's corner.
pub const DELETE_BUTTON_MARGIN: u16 = 4;

/// What a point on the bar hits.
#[derive(Clone, Copy, Debug, PartialEq, Eq, Structural)]
pub enum DesktopBarHit {
    /// Nothing interactive.
    Miss,
    /// A desktop preview, by desktop index.
    Desktop(u32),
    /// A preview's delete button, by desktop index.
    DeleteButton(u32),
    /// The plus button.
    PlusButton,
}

/// One window's scaled rectangle inside a desktop preview, relative to the
/// preview's origin.
#[derive(Clone, Copy, Debug, PartialEq, Eq, Structural)]
pub struct MiniWindowLayout {
    /// Frame window identifier, for lookups among the captures.
    pub window_id: u32,
    /// Left edge within the preview.
    pub x: i16,
    /// Top edge within the preview.
    pub y: i16,
    /// Scaled width.
    pub width: u16,
    /// Scaled height.
    pub height: u16,
}

/// One window's on-screen placement, as the mini layouts need it.
#[derive(Clone, Copy, Debug, PartialEq, Eq, Structural)]
pub struct WindowPlacement {
    /// The window's frame identifier.
    pub frame_id: u32,
    /// The window's client identifier.
    pub client_id: u32,
    /// Left edge on screen.
    pub x: i16,
    /// Top edge on screen.
    pub y: i16,
    /// On-screen width.
    pub width: u16,
    /// On-screen height.
    pub height: u16,
}

/// One desktop's preview rectangle in the bar.
#[derive(Clone, Debug)]
pub struct DesktopPreviewLayout {
    /// The desktop this preview stands for, 0-indexed.
    pub desktop_index: u32,
    /// Left edge on the canvas.
    pub x: i16,
    /// Top edge on the canvas.
    pub y: i16,
    /// Preview width.
    pub width: u16,
    /// Preview height.
    pub height: u16,
    /// Whether this is the current desktop.
    pub is_current: bool,
    /// The windows drawn inside the preview.
    pub mini_windows: Vec<MiniWindowLayout>,
    /// Delete button's left edge, relative to the preview.
    pub delete_button_x: i16,
    /// Delete button's top edge, relative to the preview.
    pub delete_button_y: i16,
    /// Delete button's side length.
    pub delete_button_size: u16,
}

/// The plus button's placement.
#[derive(Clone, Copy, Debug, PartialEq, Eq, Structural)]
pub struct PlusButtonLayout {
    /// Left edge on the canvas.
    pub x: i16,
    /// Top edge on the canvas.
    pub y: i16,
    /// Side length.
    pub size: u16,
}

/// The bar's full state and geometry.
#[derive(Clone, Debug)]
pub struct DesktopBar {
    /// How many desktops the bar shows.
    pub num_desktops: u32,
    /// The current desktop, 0-indexed.
    pub current_desktop: u32,
    /// One preview per desktop, in desktop order.
    pub preview_layouts: Vec<DesktopPreviewLayout>,
    /// The plus button.
    pub plus_button: PlusButtonLayout,
    /// Height of the bar.
    pub bar_height: u16,
}

/// Whether a point lies in a preview's rectangle.
pub open spec fn in_preview(p: DesktopPreviewLayout, x: int, y: int) -> bool {
    &&& p.x <= x < p.x + p.width
    &&& p.y <= y < p.y + p.height
}

/// Whether a point lies in a preview's delete button.
pub open spec fn in_delete(p: DesktopPreviewLayout, x: int, y: int) -> bool {
    let dx = p.x + p.delete_button_x;
    let dy = p.y + p.delete_button_y;
    &&& dx <= x < dx + p.delete_button_size
    &&& dy <= y < dy + p.delete_button_size
}

/// Whether a point lies in the plus button.
pub open spec fn in_plus(pb: PlusButtonLayout, x: int, y: int) -> bool {
    &&& pb.x <= x < pb.x + pb.size
    &&& pb.y <= y < pb.y + pb.size
}

/// The first preview a point hits, with the delete button taking priority
/// inside its preview when more than one desktop exists.
pub open spec fn hit_previews(
    previews: Seq<DesktopPreviewLayout>,
    several: bool,
    x: int,
    y: int,
) -> DesktopBarHit
    decreases previews.len(),
{
    if previews.len() == 0 {
        DesktopBarHit::Miss
    } else if in_preview(previews[0], x, y) {
        if several && in_delete(previews[0], x, y) {
            DesktopBarHit::DeleteButton(previews[0].desktop_index)
        } else {
            DesktopBarHit::Desktop(previews[0].desktop_index)
        }
    } else {
        hit_previews(previews.drop_first(), several, x, y)
    }
}

/// The left edge of preview `i`: the previews are centered as a block, or
/// start at the left edge when the bar overflows the screen.
pub open spec fn spec_preview_x(num_desktops: int, screen_width: int, i: int) -> int {
    let total = num_desktops * 157 - 15;
    let start = if screen_width >= total {
        (screen_width - total) / 2
    } else {
        0
    };
    start + i * 157
}

/// The preview a fresh bar holds at position `i`.
pub open spec fn preview_as_laid_out(
    p: DesktopPreviewLayout,
    num_desktops: int,
    current_desktop: u32,
    screen_width: int,
    i: int,
) -> bool {
    &&& p.desktop_index == i
    &&& p.x == spec_preview_x(num_desktops, screen_width, i) as i16
    &&& p.y == 20
    &&& p.width == PREVIEW_WIDTH
    &&& p.height == PREVIEW_HEIGHT
    &&& p.is_current == (i == current_desktop)
    &&& p.mini_windows@ =~= Seq::<MiniWindowLayout>::empty()
    &&& p.delete_button_x == 122
    &&& p.delete_button_y == 4
    &&& p.delete_button_size == DELETE_BUTTON_SIZE
}

/// A preview whose rectangle and delete button lie within signed 16-bit
/// coordinates.
pub open spec fn preview_in_bounds(p: DesktopPreviewLayout) -> bool {
    &&& p.x + p.width <= 0x7fff
    &&& p.y + p.height <= 0x7fff
    &&& 0 <= p.delete_button_x
    &&& 0 <= p.delete_button_y
    &&& p.x + p.delete_button_x + p.delete_button_size <= 0x7fff
    &&& p.y + p.delete_button_y + p.delete_button_size <= 0x7fff
}


/// A value scaled by `factor / den`, rounded toward zero.
pub open spec fn scale_trunc(v: int, factor: int, den: int) -> int {
    if v >= 0 {
        v * factor / den
    } else {
        -((-v) * factor / den)
    }
}

/// A coordinate clamped into the signed 16-bit range.
pub open spec fn sat_i16(v: int) -> int {
    if v < -0x8000 {
        -0x8000
    } else if v > 0x7fff {
        0x7fff
    } else {
        v
    }
}

/// An extent clamped below by a floor and above by the unsigned 16-bit
/// range.
pub open spec fn sat_dim(v: int, lo: int) -> int {
    if v < lo {
        lo
    } else if v > 0xffff {
        0xffff
    } else {
        v
    }
}

/// The first placement carrying a window identifier, matching either the
/// client or the frame window.
pub open spec fn find_placement(placements: Seq<WindowPlacement>, id: u32) -> Option<
    WindowPlacement,
>
    decreases placements.len(),
{
    if placements.len() == 0 {
        None
    } else if placements[0].client_id == id || placements[0].frame_id == id {
        Some(placements[0])
    } else {
        find_placement(placements.drop_first(), id)
    }
}

/// A window's rectangle scaled from the screen into a preview: positions
/// and extents scale by the preview size over the screen size, extents kept
/// at least a few pixels so every window stays visible.
pub open spec fn mini_of(w: WindowPlacement, screen_width: int, screen_height: int)
    -> MiniWindowLayout {
    MiniWindowLayout {
        window_id: w.frame_id,
        x: sat_i16(scale_trunc(w.x as int, PREVIEW_WIDTH as int, screen_width)) as i16,
        y: sat_i16(scale_trunc(w.y as int, PREVIEW_HEIGHT as int, screen_height)) as i16,
        width: sat_dim(w.width as int * PREVIEW_WIDTH as int / screen_width, 4) as u16,
        height: sat_dim(w.height as int * PREVIEW_HEIGHT as int / screen_height, 3) as u16,
    }
}

/// The mini layouts of a desktop's windows, in the order the desktop lists
/// them; windows without a placement are left out.
pub open spec fn minis_for(
    ids: Seq<u32>,
    placements: Seq<WindowPlacement>,
    screen_width: int,
    screen_height: int,
) -> Seq<MiniWindowLayout>
    decreases ids.len(),
{
    if ids.len() == 0 {
        Seq::empty()
    } else {
        (match find_placement(placements, ids[0]) {
            Some(w) => seq![mini_of(w, screen_width, screen_height)],
            None => Seq::<MiniWindowLayout>::empty(),
        }) + minis_for(ids.drop_first(), placements, screen_width, screen_height)
    }
}

/// Find the placement of a window by either of its identifiers.
fn find_placement_exec(placements: &Vec<WindowPlacement>, id: u32) -> (r: Option<WindowPlacement>)
    ensures
        r == find_placement(placements@, id),
{
    let n = placements.len();
    proof {
        assert(placements@.skip(0) =~= placements@);
    }
    for i in 0..n
        invariant
            n == placements@.len(),
            find_placement(placements@, id) == find_placement(placements@.skip(i as int), id),
    {
        proof {
            assert(placements@.skip(i as int)[0] == placements@[i as int]);
            assert(placements@.skip(i as int).drop_first() =~= placements@.skip(i as int + 1));
        }
        if placements[i].client_id == id || placements[i].frame_id == id {
            return Some(placements[i]);
        }
    }
    proof {
        assert(placements@.skip(n as int) =~= Seq::<WindowPlacement>::empty());
    }
    None
}

/// Scale a screen coordinate into a preview.
fn scale_coord(v: i16, factor: u16, den: u16) -> (r: i16)
    requires
        den >= 1,
    ensures
        r as int == sat_i16(scale_trunc(v as int, factor as int, den as int)),
{
    let mag: u64 = if v >= 0 {
        v as u64
    } else {
        (-(v as i32)) as u64
    };
    proof {
        assert(mag * factor <= 0x8000u64 * 0x10000u64) by (nonlinear_arith)
            requires
                mag <= 0x8000u64,
                factor <= 0xffffu64,
        ;
    }
    let scaled: u64 = mag * (factor as u64) / (den as u64);
    let clamped: u64 = if scaled > 0x7fff {
        if v >= 0 {
            0x7fff
        } else {
            0x8000
        }
    } else {
        scaled
    };
    if v >= 0 {
        clamped as i16
    } else {
        -(clamped as i32) as i16
    }
}

/// Scale a screen extent into a preview, kept at least `lo` pixels.
fn scale_dim(v: u16, factor: u16, den: u16, lo: u16) -> (r: u16)
    requires
        den >= 1,
        1 <= lo,
    ensures
        r as int == sat_dim(v as int * factor as int / den as int, lo as int),
{
    proof {
        assert((v as u64) * (factor as u64) <= 0xffffu64 * 0xffffu64) by (nonlinear_arith)
            requires
                v <= 0xffffu64,
                factor <= 0xffffu64,
        ;
    }
    let scaled: u64 = (v as u64) * (factor as u64) / (den as u64);
    if scaled < lo as u64 {
        lo
    } else if scaled > 0xffff {
        0xffff
    } else {
        scaled as u16
    }
}


/// A preview as it stands after a mini-layout pass: geometry and flags
/// kept, mini windows recomputed from the desktop's windows.
pub open spec fn preview_minis_updated(
    p: DesktopPreviewLayout,
    q: DesktopPreviewLayout,
    state: DesktopState,
    placements: Seq<WindowPlacement>,
    screen_width: int,
    screen_height: int,
) -> bool {
    &&& p.desktop_index == q.desktop_index
    &&& p.x == q.x
    &&& p.y == q.y
    &&& p.width == q.width
    &&& p.height == q.height
    &&& p.is_current == q.is_current
    &&& p.delete_button_x == q.delete_button_x
    &&& p.delete_button_y == q.delete_button_y
    &&& p.delete_button_size == q.delete_button_size
    &&& p.mini_windows@ == minis_for(
        state.spec_windows_on_desktop(q.desktop_index),
        placements,
        screen_width,
        screen_height,
    )
}


/// The preview positions with a gap opened for an insert animation: the
/// dragged preview is left out, the rest line up from the first preview's
/// edge with the usual stride, and one extra stride opens where the drag
/// would land (no gap is needed for an insert at the end).
pub open spec fn gap_positions(
    previews: Seq<DesktopPreviewLayout>,
    dragged: u32,
    insert_before: u32,
    num_desktops: u32,
    x: int,
) -> Seq<(u32, i16)>
    decreases previews.len(),
{
    if previews.len() == 0 {
        Seq::empty()
    } else if previews[0].desktop_index == dragged {
        gap_positions(previews.drop_first(), dragged, insert_before, num_desktops, x)
    } else {
        let x1 = if previews[0].desktop_index == insert_before && insert_before < num_desktops {
            x + 157
        } else {
            x
        };
        seq![(previews[0].desktop_index, x1 as i16)] + gap_positions(
            previews.drop_first(),
            dragged,
            insert_before,
            num_desktops,
            x1 + 157,
        )
    }
}

impl DesktopBar {
    /// Geometry bounds every method relies on: each rectangle, delete
    /// button and the plus button lie within signed 16-bit coordinates.
    pub open spec fn wf(self) -> bool {
        &&& forall|i: int|
            0 <= i < self.preview_layouts@.len() ==> preview_in_bounds(
                #[trigger] self.preview_layouts@[i],
            )
        &&& self.plus_button.x + self.plus_button.size <= 0x7fff
        &&& self.plus_button.y + self.plus_button.size <= 0x7fff
    }

    /// Lay the bar out for a desktop count on a screen of the given width.
    /// The counts and width are bounded so every coordinate fits the
    /// protocol's signed 16-bit fields.
    pub fn new(num_desktops: u32, current_desktop: u32, screen_width: u16) -> (bar: DesktopBar)
        requires
            1 <= num_desktops <= 208,
            60 <= screen_width <= 0x7fff,
        ensures
            bar.num_desktops == num_desktops,
            bar.current_desktop == current_desktop,
            bar.bar_height == BAR_HEIGHT,
            bar.plus_button == (PlusButtonLayout {
                x: (screen_width - 60) as i16,
                y: 40,
                size: PLUS_BUTTON_SIZE,
            }),
            bar.preview_layouts@.len() == num_desktops,
            forall|i: int|
                0 <= i < num_desktops ==> preview_as_laid_out(
                    #[trigger] bar.preview_layouts@[i],
                    num_desktops as int,
                    current_desktop,
                    screen_width as int,
                    i,
                ),
            bar.wf(),
    {
        let total: u32 = num_desktops * 157 - 15;
        let start: u32 = if screen_width as u32 >= total {
            (screen_width as u32 - total) / 2
        } else {
            0
        };
        let mut preview_layouts: Vec<DesktopPreviewLayout> = Vec::new();
        for i in 0..num_desktops
            invariant
                1 <= num_desktops <= 208,
                60 <= screen_width <= 0x7fff,
                total == num_desktops * 157 - 15,
                start == if screen_width >= total {
                    (screen_width - total) / 2
                } else {
                    0int
                },
                preview_layouts@.len() == i,
                forall|j: int|
                    0 <= j < i ==> preview_as_laid_out(
                        #[trigger] preview_layouts@[j],
                        num_desktops as int,
                        current_desktop,
                        screen_width as int,
                        j,
                    ),
                forall|j: int|
                    0 <= j < i ==> preview_in_bounds(#[trigger] preview_layouts@[j]),
        {
            let x32: u32 = start + i * 157;
            proof {
                assert(start + i * 157 + 157 <= 0x7fff);
            }
            let x = x32 as u16 as i16;
            preview_layouts.push(
                DesktopPreviewLayout {
                    desktop_index: i,
                    x,
                    y: 20,
                    width: PREVIEW_WIDTH,
                    height: PREVIEW_HEIGHT,
                    is_current: i == current_desktop,
                    mini_windows: Vec::new(),
                    delete_button_x: (PREVIEW_WIDTH - DELETE_BUTTON_SIZE - DELETE_BUTTON_MARGIN)
                        as i16,
                    delete_button_y: DELETE_BUTTON_MARGIN as i16,
                    delete_button_size: DELETE_BUTTON_SIZE,
                },
            );
        }
        DesktopBar {
            num_desktops,
            current_desktop,
            preview_layouts,
            plus_button: PlusButtonLayout {
                x: (screen_width - (PLUS_BUTTON_MARGIN + PLUS_BUTTON_SIZE)) as i16,
                y: 40,
                size: PLUS_BUTTON_SIZE,
            },
            bar_height: BAR_HEIGHT,
        }
    }

    /// Whether a point falls within the bar's strip at the top of the
    /// screen.
    pub fn contains_point(&self, x: i16, y: i16) -> (r: bool)
        requires
            self.bar_height <= 0x7fff,
        ensures
            r == (0 <= y < self.bar_height),
    {
        let _ = x;
        y >= 0 && y < self.bar_height as i16
    }

    /// What the bar's element a point hits: the plus button first, then the
    /// previews in order, the delete button taking priority inside its
    /// preview when more than one desktop exists.
    pub open spec fn spec_hit_test(self, x: int, y: int) -> DesktopBarHit {
        if in_plus(self.plus_button, x, y) {
            DesktopBarHit::PlusButton
        } else {
            hit_previews(self.preview_layouts@, self.num_desktops > 1, x, y)
        }
    }

    /// Hit-test a point against the bar.
    pub fn hit_test(&self, x: i16, y: i16) -> (r: DesktopBarHit)
        requires
            self.wf(),
        ensures
            r == self.spec_hit_test(x as int, y as int),
    {
        let pb = &self.plus_button;
        let xi = x as i32;
        let yi = y as i32;
        if xi >= pb.x as i32 && xi < pb.x as i32 + pb.size as i32 && yi >= pb.y as i32 && yi
            < pb.y as i32 + pb.size as i32 {
            return DesktopBarHit::PlusButton;
        }
        let several = self.num_desktops > 1;
        let n = self.preview_layouts.len();
        proof {
            assert(self.preview_layouts@.skip(0) =~= self.preview_layouts@);
        }
        for i in 0..n
            invariant
                self.wf(),
                n == self.preview_layouts@.len(),
                several == (self.num_desktops > 1),
                xi == x as int,
                yi == y as int,
                !in_plus(self.plus_button, x as int, y as int),
                hit_previews(self.preview_layouts@, several, x as int, y as int) == hit_previews(
                    self.preview_layouts@.skip(i as int),
                    several,
                    x as int,
                    y as int,
                ),
        {
            proof {
                assert(self.preview_layouts@.skip(i as int)[0] == self.preview_layouts@[i as int]);
                assert(self.preview_layouts@.skip(i as int).drop_first()
                    =~= self.preview_layouts@.skip(i as int + 1));
            }
            let p = &self.preview_layouts[i];
            if xi >= p.x as i32 && xi < p.x as i32 + p.width as i32 && yi >= p.y as i32 && yi
                < p.y as i32 + p.height as i32 {
                if several {
                    let dx = p.x as i32 + p.delete_button_x as i32;
                    let dy = p.y as i32 + p.delete_button_y as i32;
                    if xi >= dx && xi < dx + p.delete_button_size as i32 && yi >= dy && yi < dy
                        + p.delete_button_size as i32 {
                        return DesktopBarHit::DeleteButton(p.desktop_index);
                    }
                }
                return DesktopBarHit::Desktop(p.desktop_index);
            }
        }
        proof {
            assert(self.preview_layouts@.skip(n as int) =~= Seq::<DesktopPreviewLayout>::empty());
        }
        DesktopBarHit::Miss
    }

    /// The center of the first preview of a desktop, if the desktop has
    /// one.
    pub open spec fn spec_preview_center(
        previews: Seq<DesktopPreviewLayout>,
        desktop_index: u32,
    ) -> Option<(int, int)>
        decreases previews.len(),
    {
        if previews.len() == 0 {
            None
        } else if previews[0].desktop_index == desktop_index {
            Some(
                (
                    previews[0].x + previews[0].width as int / 2,
                    previews[0].y + previews[0].height as int / 2,
                ),
            )
        } else {
            Self::spec_preview_center(previews.drop_first(), desktop_index)
        }
    }

    /// The center of a desktop's preview, if the desktop has one — the
    /// target of the snap animation when a window is dropped on it.
    pub fn get_preview_center(&self, desktop_index: u32) -> (r: Option<(i16, i16)>)
        requires
            self.wf(),
        ensures
            match r {
                Some(c) => Self::spec_preview_center(self.preview_layouts@, desktop_index)
                    == Some((c.0 as int, c.1 as int)),
                None => Self::spec_preview_center(self.preview_layouts@, desktop_index) is None,
            },
    {
        let n = self.preview_layouts.len();
        proof {
            assert(self.preview_layouts@.skip(0) =~= self.preview_layouts@);
        }
        for i in 0..n
            invariant
                self.wf(),
                n == self.preview_layouts@.len(),
                Self::spec_preview_center(self.preview_layouts@, desktop_index)
                    == Self::spec_preview_center(
                    self.preview_layouts@.skip(i as int),
                    desktop_index,
                ),
        {
            proof {
                assert(self.preview_layouts@.skip(i as int)[0] == self.preview_layouts@[i as int]);
                assert(self.preview_layouts@.skip(i as int).drop_first()
                    =~= self.preview_layouts@.skip(i as int + 1));
            }
            let p = &self.preview_layouts[i];
            if p.desktop_index == desktop_index {
                let cx = (p.x as i32 + (p.width / 2) as i32) as i16;
                let cy = (p.y as i32 + (p.height / 2) as i32) as i16;
                return Some((cx, cy));
            }
        }
        proof {
            assert(self.preview_layouts@.skip(n as int) =~= Seq::<DesktopPreviewLayout>::empty());
        }
        None
    }

    /// The desktop a dragged preview would be inserted before, given the
    /// cursor's horizontal position: the first other preview whose center
    /// lies right of the cursor, or the desktop count for the end.
    pub open spec fn spec_insert_position(
        previews: Seq<DesktopPreviewLayout>,
        dragged: u32,
        cursor_x: int,
        num_desktops: u32,
    ) -> u32
        decreases previews.len(),
    {
        if previews.len() == 0 {
            num_desktops
        } else if previews[0].desktop_index != dragged && cursor_x < previews[0].x + previews[0].width
            as int / 2 {
            previews[0].desktop_index
        } else {
            Self::spec_insert_position(previews.drop_first(), dragged, cursor_x, num_desktops)
        }
    }

    /// Where a dragged desktop would land, by cursor position.
    pub fn calculate_insert_position(&self, cursor_x: i16, dragged_desktop: u32) -> (r: u32)
        requires
            self.wf(),
        ensures
            r == Self::spec_insert_position(
                self.preview_layouts@,
                dragged_desktop,
                cursor_x as int,
                self.num_desktops,
            ),
    {
        let n = self.preview_layouts.len();
        proof {
            assert(self.preview_layouts@.skip(0) =~= self.preview_layouts@);
        }
        for i in 0..n
            invariant
                self.wf(),
                n == self.preview_layouts@.len(),
                Self::spec_insert_position(
                    self.preview_layouts@,
                    dragged_desktop,
                    cursor_x as int,
                    self.num_desktops,
                ) == Self::spec_insert_position(
                    self.preview_layouts@.skip(i as int),
                    dragged_desktop,
                    cursor_x as int,
                    self.num_desktops,
                ),
        {
            proof {
                assert(self.preview_layouts@.skip(i as int)[0] == self.preview_layouts@[i as int]);
                assert(self.preview_layouts@.skip(i as int).drop_first()
                    =~= self.preview_layouts@.skip(i as int + 1));
            }
            let p = &self.preview_layouts[i];
            if p.desktop_index != dragged_desktop && (cursor_x as i32) < p.x as i32 + (p.width
                / 2) as i32 {
                return p.desktop_index;
            }
        }
        proof {
            assert(self.preview_layouts@.skip(n as int) =~= Seq::<DesktopPreviewLayout>::empty());
        }
        self.num_desktops
    }

    /// Recompute every preview's mini-window layouts from the current
    /// captures and desktop assignments: each preview lists its desktop's
    /// windows scaled from screen to preview coordinates; geometry and the
    /// rest of the bar stay as they are.
    pub fn calculate_mini_layouts(
        &mut self,
        windows: &Vec<WindowPlacement>,
        desktop_state: &DesktopState,
        screen_width: u16,
        screen_height: u16,
    )
        requires
            screen_width >= 1,
            screen_height >= 1,
        ensures
            final(self).preview_layouts@.len() == old(self).preview_layouts@.len(),
            forall|i: int|
                0 <= i < final(self).preview_layouts@.len() ==> preview_minis_updated(
                    #[trigger] final(self).preview_layouts@[i],
                    old(self).preview_layouts@[i],
                    *desktop_state,
                    windows@,
                    screen_width as int,
                    screen_height as int,
                ),
            final(self).num_desktops == old(self).num_desktops,
            final(self).current_desktop == old(self).current_desktop,
            final(self).plus_button == old(self).plus_button,
            final(self).bar_height == old(self).bar_height,
            old(self).wf() ==> final(self).wf(),
    {
        let mut updated: Vec<DesktopPreviewLayout> = Vec::new();
        let n = self.preview_layouts.len();
        for i in 0..n
            invariant
                *self == *old(self),
                n == self.preview_layouts@.len(),
                screen_width >= 1,
                screen_height >= 1,
                updated@.len() == i,
                forall|j: int|
                    0 <= j < i ==> preview_minis_updated(
                        #[trigger] updated@[j],
                        self.preview_layouts@[j],
                        *desktop_state,
                        windows@,
                        screen_width as int,
                        screen_height as int,
                    ),
        {
            let q = &self.preview_layouts[i];
            let ids = desktop_state.windows_on_desktop(q.desktop_index);
            let mut minis: Vec<MiniWindowLayout> = Vec::new();
            let m = ids.len();
            proof {
                assert(ids@.skip(0) =~= ids@);
            }
            for k in 0..m
                invariant
                    m == ids@.len(),
                    screen_width >= 1,
                    screen_height >= 1,
                    minis@ + minis_for(
                        ids@.skip(k as int),
                        windows@,
                        screen_width as int,
                        screen_height as int,
                    ) == minis_for(ids@, windows@, screen_width as int, screen_height as int),
            {
                proof {
                    assert(ids@.skip(k as int)[0] == ids@[k as int]);
                    assert(ids@.skip(k as int).drop_first() =~= ids@.skip(k as int + 1));
                }
                if let Some(w) = find_placement_exec(windows, ids[k]) {
                    let mini = MiniWindowLayout {
                        window_id: w.frame_id,
                        x: scale_coord(w.x, PREVIEW_WIDTH, screen_width),
                        y: scale_coord(w.y, PREVIEW_HEIGHT, screen_height),
                        width: scale_dim(w.width, PREVIEW_WIDTH, screen_width, 4),
                        height: scale_dim(w.height, PREVIEW_HEIGHT, screen_height, 3),
                    };
                    proof {
                        assert(mini == mini_of(w, screen_width as int, screen_height as int));
                    }
                    minis.push(mini);
                }
            }
            proof {
                assert(ids@.skip(m as int) =~= Seq::<u32>::empty());
            }
            updated.push(
                DesktopPreviewLayout {
                    desktop_index: q.desktop_index,
                    x: q.x,
                    y: q.y,
                    width: q.width,
                    height: q.height,
                    is_current: q.is_current,
                    mini_windows: minis,
                    delete_button_x: q.delete_button_x,
                    delete_button_y: q.delete_button_y,
                    delete_button_size: q.delete_button_size,
                },
            );
        }
        self.preview_layouts = updated;
    }

    /// Preview positions for the insert animation while a desktop preview
    /// is dragged: each remaining preview with the left edge it slides to.
    /// The widths involved are bounded so every position stays a protocol
    /// coordinate.
    pub fn calculate_layouts_with_gap(&self, dragged_index: u32, insert_before: u32) -> (r: Vec<
        (u32, i16),
    >)
        requires
            self.preview_layouts@.len() > 0 ==> self.preview_layouts@[0].x + 157 * (2
                * self.preview_layouts@.len() + 1) <= 0x7fff,
        ensures
            r@ == gap_positions(
                self.preview_layouts@,
                dragged_index,
                insert_before,
                self.num_desktops,
                if self.preview_layouts@.len() > 0 {
                    self.preview_layouts@[0].x as int
                } else {
                    0int
                },
            ),
    {
        let mut r: Vec<(u32, i16)> = Vec::new();
        let n = self.preview_layouts.len();
        if n == 0 {
            return r;
        }
        let base: i32 = self.preview_layouts[0].x as i32;
        let mut x: i32 = base;
        proof {
            assert(self.preview_layouts@.skip(0) =~= self.preview_layouts@);
        }
        for i in 0..n
            invariant
                n == self.preview_layouts@.len(),
                n > 0,
                base == self.preview_layouts@[0].x as int,
                base + 157 * (2 * n + 1) <= 0x7fff,
                base <= x <= base + 157 * (2 * i + 1),
                r@ + gap_positions(
                    self.preview_layouts@.skip(i as int),
                    dragged_index,
                    insert_before,
                    self.num_desktops,
                    x as int,
                ) == gap_positions(
                    self.preview_layouts@,
                    dragged_index,
                    insert_before,
                    self.num_desktops,
                    base as int,
                ),
        {
            proof {
                assert(self.preview_layouts@.skip(i as int)[0] == self.preview_layouts@[i as int]);
                assert(self.preview_layouts@.skip(i as int).drop_first()
                    =~= self.preview_layouts@.skip(i as int + 1));
            }
            let p = &self.preview_layouts[i];
            if p.desktop_index != dragged_index {
                let x1: i32 = if p.desktop_index == insert_before && insert_before
                    < self.num_desktops {
                    x + 157
                } else {
                    x
                };
                r.push((p.desktop_index, x1 as i16));
                x = x1 + 157;
            }
        }
        proof {
            assert(self.preview_layouts@.skip(n as int) =~= Seq::<DesktopPreviewLayout>::empty());
        }
        r
    }
}

} // verus!
