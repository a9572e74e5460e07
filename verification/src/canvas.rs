//! The overview canvas: one process-wide off-screen buffer sized to the
//! display, its paint handle, an optional wallpaper paint handle, and the
//! on-screen window that presents it.
//!
//! The canvas has no erase primitive of its own, so every frame starts by
//! painting the background over the whole buffer. Presenting blits the
//! buffer to the window and re-asserts the window at the top of the
//! stacking order immediately before the blit, since compositing work from
//! other clients can change stacking in between.

use vstd::prelude::*;

verus! {

/// The fixed dark fill used where no wallpaper is available.
pub const BACKGROUND_FILL: u32 = 0x1a1a1a;

/// The fixed dark fill of a placeholder surface's buffer.
pub const PLACEHOLDER_FILL: u32 = 0x222222;

/// The overview's off-screen canvas and presenting window.
#[derive(Clone, Copy, Debug, PartialEq, Eq, Structural)]
pub struct OverviewCanvas {
    /// The on-screen window that presents the canvas.
    pub window: u32,
    /// The off-screen buffer all painting lands in.
    pub buffer: u32,
    /// The compositable paint handle of the buffer.
    pub paint: u32,
    /// Canvas width: the display's width.
    pub width: u16,
    /// Canvas height: the display's height.
    pub height: u16,
    /// Paint handle of the wallpaper, where one was discoverable.
    pub background: Option<u32>,
}

/// How a frame erases the previous one: composite the wallpaper 1:1 over
/// the full canvas, or fill it with the fixed dark color.
#[derive(Clone, Copy, Debug, PartialEq, Eq, Structural)]
pub enum ClearPlan {
    /// Composite this paint handle over the whole canvas, unscaled.
    Wallpaper { background: u32, width: u16, height: u16 },
    /// Fill the whole canvas buffer with this color.
    Solid { color: u32, width: u16, height: u16 },
}

/// The steps of presenting a frame, in order: raise the presenting window
/// to the top of the stacking order, blit the full buffer to it, then force
/// a flush so the frame is visible before anything further happens.
#[derive(Clone, Copy, Debug, PartialEq, Eq, Structural)]
pub struct PresentPlan {
    /// The window to raise and blit into.
    pub window: u32,
    /// The buffer the frame was painted into.
    pub buffer: u32,
    /// Width of the blit: the whole canvas.
    pub width: u16,
    /// Height of the blit: the whole canvas.
    pub height: u16,
}

/// One deallocation tearing the canvas down.
#[derive(Clone, Copy, Debug, PartialEq, Eq, Structural)]
pub enum CanvasAction {
    /// Free a compositable paint handle.
    FreePaint(u32),
    /// Free the off-screen buffer.
    FreeBuffer(u32),
    /// Destroy the presenting window.
    DestroyWindow(u32),
}

/// One restacking request.
#[derive(Clone, Copy, Debug, PartialEq, Eq, Structural)]
pub enum StackOp {
    /// Lower this window to the bottom of the stacking order.
    Lower(u32),
    /// Raise `window` directly above `sibling`.
    RaiseAbove { window: u32, sibling: u32 },
}

/// The wallpaper handle to use: the primary root-background property if it
/// names a buffer, else the fallback property, else none. A zero value is
/// no buffer.
pub open spec fn spec_pick_background(primary: Option<u32>, fallback: Option<u32>) -> Option<u32> {
    if primary is Some && primary.unwrap() != 0 {
        primary
    } else if fallback is Some && fallback.unwrap() != 0 {
        fallback
    } else {
        None
    }
}

/// Choose the wallpaper buffer from the two root-background properties.
pub fn pick_background(primary: Option<u32>, fallback: Option<u32>) -> (r: Option<u32>)
    ensures
        r == spec_pick_background(primary, fallback),
{
    match primary {
        Some(p) if p != 0 => Some(p),
        _ => match fallback {
            Some(q) if q != 0 => Some(q),
            _ => None,
        },
    }
}

/// What tearing a canvas down frees, in order: the wallpaper paint handle
/// where one exists, the canvas paint handle, the buffer, and finally the
/// presenting window.
pub open spec fn spec_destroy_plan(c: OverviewCanvas) -> Seq<CanvasAction> {
    (if c.background is Some {
        seq![CanvasAction::FreePaint(c.background.unwrap())]
    } else {
        Seq::empty()
    }) + seq![
        CanvasAction::FreePaint(c.paint),
        CanvasAction::FreeBuffer(c.buffer),
        CanvasAction::DestroyWindow(c.window),
    ]
}

impl OverviewCanvas {
    /// Bundle the allocated handles into a canvas.
    pub fn assemble(
        window: u32,
        buffer: u32,
        paint: u32,
        width: u16,
        height: u16,
        background: Option<u32>,
    ) -> (c: OverviewCanvas)
        ensures
            c == (OverviewCanvas { window, buffer, paint, width, height, background }),
    {
        OverviewCanvas { window, buffer, paint, width, height, background }
    }

    /// Plan the erase that must precede each frame's re-paint: wallpaper
    /// 1:1 over the full canvas where one exists, else the fixed dark fill.
    pub fn clear_to_background(&self) -> (p: ClearPlan)
        ensures
            self.background is Some ==> p == (ClearPlan::Wallpaper {
                background: self.background.unwrap(),
                width: self.width,
                height: self.height,
            }),
            self.background is None ==> p == (ClearPlan::Solid {
                color: BACKGROUND_FILL,
                width: self.width,
                height: self.height,
            }),
    {
        match self.background {
            Some(bg) => ClearPlan::Wallpaper {
                background: bg,
                width: self.width,
                height: self.height,
            },
            None => ClearPlan::Solid {
                color: BACKGROUND_FILL,
                width: self.width,
                height: self.height,
            },
        }
    }

    /// Plan the presentation of the finished frame: raise the presenting
    /// window, blit the whole buffer into it, flush.
    pub fn present(&self) -> (p: PresentPlan)
        ensures
            p == (PresentPlan {
                window: self.window,
                buffer: self.buffer,
                width: self.width,
                height: self.height,
            }),
    {
        PresentPlan { window: self.window, buffer: self.buffer, width: self.width, height: self.height }
    }

    /// Plan the teardown at the end of the overview session.
    pub fn destroy(&self) -> (plan: Vec<CanvasAction>)
        ensures
            plan@ =~= spec_destroy_plan(*self),
    {
        let mut plan: Vec<CanvasAction> = Vec::new();
        if let Some(bg) = self.background {
            plan.push(CanvasAction::FreePaint(bg));
        }
        plan.push(CanvasAction::FreePaint(self.paint));
        plan.push(CanvasAction::FreeBuffer(self.buffer));
        plan.push(CanvasAction::DestroyWindow(self.window));
        plan
    }
}

/// Plan the requests that restore a bottom-to-top stacking order: the first
/// window is lowered to the bottom, each following window is raised
/// directly above its predecessor.
pub fn plan_restack(order: &Vec<u32>) -> (r: Vec<StackOp>)
    ensures
        r@.len() == order@.len(),
        order@.len() > 0 ==> r@[0] == StackOp::Lower(order@[0]),
        forall|i: int|
            1 <= i < order@.len() ==> r@[i] == (StackOp::RaiseAbove {
                window: order@[i],
                sibling: order@[i - 1],
            }),
{
    let mut r: Vec<StackOp> = Vec::new();
    let n = order.len();
    for i in 0..n
        invariant
            n == order@.len(),
            r@.len() == i,
            i > 0 ==> r@[0] == StackOp::Lower(order@[0]),
            forall|j: int|
                1 <= j < i ==> r@[j] == (StackOp::RaiseAbove {
                    window: order@[j],
                    sibling: order@[j - 1],
                }),
    {
        if i == 0 {
            r.push(StackOp::Lower(order[0]));
        } else {
            r.push(StackOp::RaiseAbove { window: order[i], sibling: order[i - 1] });
        }
    }
    r
}

} // verus!
