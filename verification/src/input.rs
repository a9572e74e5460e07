//! Pointer and keyboard interpretation for the overview: which thumbnail
//! or bar element a click lands on, hover tracking, and the drag state
//! machine that tells a click from a window drag.
//!
//! Events arrive as plain coordinates, button numbers and keycodes; the
//! event loop outside the library performs the actions returned here.

use vstd::prelude::*;

use crate::desktop_bar::DesktopBar;
use crate::desktop_bar::DesktopBarHit;
use crate::layout::ThumbnailLayout;

verus! {

/// How far the pointer must move before a press becomes a drag.
pub const DRAG_THRESHOLD: i16 = 5;

/// What the event loop should do with an input event.
#[derive(Clone, Copy, Debug, PartialEq, Eq, Structural)]
pub enum InputAction {
    /// The user selected a window by clicking its thumbnail.
    SelectWindow(usize),
    /// The pointer hovers a thumbnail, or none.
    Hover(Option<usize>),
    /// Dismiss the overview.
    Dismiss,
    /// Nothing to do.
    Nothing,
    /// The user clicked a desktop preview.
    ActivateDesktop(u32),
    /// The user clicked the plus button.
    ClickPlusButton,
    /// A drag of a window's thumbnail began.
    StartDrag(usize),
    /// The drag moved to this position.
    DragMove(i16, i16),
    /// A window was dropped on a desktop preview.
    DropOnDesktop(usize, u32),
    /// The drag ended anywhere else.
    CancelDrag,
    /// The pointer hovers a desktop preview, or none.
    HoverDesktop(Option<u32>),
}

/// One drag in progress.
#[derive(Clone, Copy, Debug, PartialEq, Eq, Structural)]
pub struct DragState {
    /// The window being dragged.
    pub window_index: usize,
    /// Where the press happened.
    pub start_x: i16,
    /// Where the press happened.
    pub start_y: i16,
    /// Where the pointer is now.
    pub current_x: i16,
    /// Where the pointer is now.
    pub current_y: i16,
    /// Whether the movement passed the drag threshold.
    pub is_active: bool,
    /// Offset from the thumbnail's center to the press point.
    pub click_offset_x: i16,
    /// Offset from the thumbnail's center to the press point.
    pub click_offset_y: i16,
}

/// Whether a position lies beyond the drag threshold from the press.
pub open spec fn beyond_threshold(d: DragState, x: int, y: int) -> bool {
    ||| x - d.start_x > DRAG_THRESHOLD as int
    ||| d.start_x - x > DRAG_THRESHOLD as int
    ||| y - d.start_y > DRAG_THRESHOLD as int
    ||| d.start_y - y > DRAG_THRESHOLD as int
}

/// The drag state after a pointer move.
pub open spec fn moved(d: DragState, x: i16, y: i16) -> DragState {
    DragState {
        current_x: x,
        current_y: y,
        is_active: d.is_active || beyond_threshold(d, x as int, y as int),
        ..d
    }
}

impl DragState {
    /// A fresh potential drag at the press position.
    pub fn new(window_index: usize, x: i16, y: i16) -> (d: DragState)
        ensures
            d == (DragState {
                window_index,
                start_x: x,
                start_y: y,
                current_x: x,
                current_y: y,
                is_active: false,
                click_offset_x: 0,
                click_offset_y: 0,
            }),
    {
        DragState {
            window_index,
            start_x: x,
            start_y: y,
            current_x: x,
            current_y: y,
            is_active: false,
            click_offset_x: 0,
            click_offset_y: 0,
        }
    }

    /// Record the offset from the thumbnail's center to the press point.
    pub fn set_click_offset(&mut self, offset_x: i16, offset_y: i16)
        ensures
            *final(self) == (DragState {
                click_offset_x: offset_x,
                click_offset_y: offset_y,
                ..*old(self)
            }),
    {
        self.click_offset_x = offset_x;
        self.click_offset_y = offset_y;
    }

    /// Track a pointer move; true exactly when this move turned the press
    /// into a drag.
    pub fn update(&mut self, x: i16, y: i16) -> (became_active: bool)
        ensures
            *final(self) == moved(*old(self), x, y),
            became_active == (!old(self).is_active && beyond_threshold(
                *old(self),
                x as int,
                y as int,
            )),
    {
        self.current_x = x;
        self.current_y = y;
        if !self.is_active {
            let dx = x as i32 - self.start_x as i32;
            let dy = y as i32 - self.start_y as i32;
            if dx > DRAG_THRESHOLD as i32 || -dx > DRAG_THRESHOLD as i32 || dy
                > DRAG_THRESHOLD as i32 || -dy > DRAG_THRESHOLD as i32 {
                self.is_active = true;
                return true;
            }
        }
        false
    }
}

/// The first thumbnail containing a point, by stable window index.
pub open spec fn thumbnail_at(layouts: Seq<ThumbnailLayout>, x: int, y: int) -> Option<usize>
    decreases layouts.len(),
{
    if layouts.len() == 0 {
        None
    } else if layouts[0].x <= x < layouts[0].x + layouts[0].width && layouts[0].y <= y < layouts[0].y
        + layouts[0].height {
        Some(layouts[0].window_index)
    } else {
        thumbnail_at(layouts.drop_first(), x, y)
    }
}

/// Tracks hover and drag across input events.
pub struct InputHandler {
    /// The thumbnails to hit-test, by stable window index.
    pub layouts: Vec<ThumbnailLayout>,
    /// The desktop bar, when one is shown.
    pub desktop_bar: Option<DesktopBar>,
    /// The thumbnail under the pointer, if any.
    pub hovered_index: Option<usize>,
    /// The desktop preview under the pointer, if any.
    pub hovered_desktop: Option<u32>,
    /// The press that may become (or already is) a drag.
    pub drag_state: Option<DragState>,
}

impl InputHandler {
    /// Geometry bounds hit-testing relies on.
    pub open spec fn wf(self) -> bool {
        &&& forall|i: int|
            0 <= i < self.layouts@.len() ==> (#[trigger] self.layouts@[i]).x
                + self.layouts@[i].width <= 0x7fff && self.layouts@[i].y
                + self.layouts@[i].height <= 0x7fff
        &&& match self.desktop_bar {
            Some(bar) => bar.wf() && bar.bar_height <= 0x7fff,
            None => true,
        }
    }

    /// Bounds of one layout list.
    pub open spec fn layouts_bounded(layouts: Seq<ThumbnailLayout>) -> bool {
        forall|i: int|
            0 <= i < layouts.len() ==> (#[trigger] layouts[i]).x + layouts[i].width <= 0x7fff
                && layouts[i].y + layouts[i].height <= 0x7fff
    }

    /// A handler with nothing hovered and no drag.
    pub fn new(layouts: Vec<ThumbnailLayout>, desktop_bar: Option<DesktopBar>) -> (h: InputHandler)
        requires
            Self::layouts_bounded(layouts@),
            match desktop_bar {
                Some(bar) => bar.wf() && bar.bar_height <= 0x7fff,
                None => true,
            },
        ensures
            h.layouts == layouts,
            h.desktop_bar == desktop_bar,
            h.hovered_index is None,
            h.hovered_desktop is None,
            h.drag_state is None,
            h.wf(),
    {
        InputHandler {
            layouts,
            desktop_bar,
            hovered_index: None,
            hovered_desktop: None,
            drag_state: None,
        }
    }

    /// The thumbnail currently hovered.
    pub fn hovered(&self) -> (r: Option<usize>)
        ensures
            r == self.hovered_index,
    {
        self.hovered_index
    }

    /// The desktop preview currently hovered.
    pub fn hovered_desktop(&self) -> (r: Option<u32>)
        ensures
            r == self.hovered_desktop,
    {
        self.hovered_desktop
    }

    /// Whether a drag is active.
    pub fn is_dragging(&self) -> (r: bool)
        ensures
            r == match self.drag_state {
                Some(d) => d.is_active,
                None => false,
            },
    {
        match &self.drag_state {
            Some(d) => d.is_active,
            None => false,
        }
    }

    /// The drag in progress, if any.
    pub fn drag_state(&self) -> (r: Option<DragState>)
        ensures
            r == self.drag_state,
    {
        self.drag_state
    }

    /// Record the click offset on the drag in progress, if one exists.
    pub fn set_drag_click_offset(&mut self, offset_x: i16, offset_y: i16)
        ensures
            final(self).drag_state == match old(self).drag_state {
                Some(d) => Some(
                    DragState { click_offset_x: offset_x, click_offset_y: offset_y, ..d },
                ),
                None => None::<DragState>,
            },
            final(self).layouts == old(self).layouts,
            final(self).desktop_bar == old(self).desktop_bar,
            final(self).hovered_index == old(self).hovered_index,
            final(self).hovered_desktop == old(self).hovered_desktop,
    {
        if let Some(d) = &mut self.drag_state {
            d.set_click_offset(offset_x, offset_y);
        }
    }

    /// Replace the layouts after the grid is recalculated.
    pub fn update_layouts(&mut self, new_layouts: Vec<ThumbnailLayout>)
        requires
            Self::layouts_bounded(new_layouts@),
        ensures
            final(self).layouts == new_layouts,
            final(self).desktop_bar == old(self).desktop_bar,
            final(self).hovered_index == old(self).hovered_index,
            final(self).hovered_desktop == old(self).hovered_desktop,
            final(self).drag_state == old(self).drag_state,
            old(self).wf() ==> final(self).wf(),
    {
        self.layouts = new_layouts;
    }

    /// Replace the desktop bar after it changes.
    pub fn update_desktop_bar(&mut self, new_bar: Option<DesktopBar>)
        requires
            match new_bar {
                Some(bar) => bar.wf() && bar.bar_height <= 0x7fff,
                None => true,
            },
        ensures
            final(self).desktop_bar == new_bar,
            final(self).layouts == old(self).layouts,
            final(self).hovered_index == old(self).hovered_index,
            final(self).hovered_desktop == old(self).hovered_desktop,
            final(self).drag_state == old(self).drag_state,
            old(self).wf() ==> final(self).wf(),
    {
        self.desktop_bar = new_bar;
    }

    /// Find the thumbnail containing a point.
    pub fn find_thumbnail_at(&self, x: i16, y: i16) -> (r: Option<usize>)
        requires
            self.wf(),
        ensures
            r == thumbnail_at(self.layouts@, x as int, y as int),
    {
        let n = self.layouts.len();
        proof {
            assert(self.layouts@.skip(0) =~= self.layouts@);
        }
        for i in 0..n
            invariant
                self.wf(),
                n == self.layouts@.len(),
                thumbnail_at(self.layouts@, x as int, y as int) == thumbnail_at(
                    self.layouts@.skip(i as int),
                    x as int,
                    y as int,
                ),
        {
            proof {
                assert(self.layouts@.skip(i as int)[0] == self.layouts@[i as int]);
                assert(self.layouts@.skip(i as int).drop_first() =~= self.layouts@.skip(
                    i as int + 1,
                ));
            }
            let l = &self.layouts[i];
            let in_x = x >= l.x && (x as i32) < l.x as i32 + l.width as i32;
            let in_y = y >= l.y && (y as i32) < l.y as i32 + l.height as i32;
            if in_x && in_y {
                return Some(l.window_index);
            }
        }
        proof {
            assert(self.layouts@.skip(n as int) =~= Seq::<ThumbnailLayout>::empty());
        }
        None
    }

    /// What a button press does and how it changes the drag state: any
    /// button but the first dismisses; the bar's elements act immediately;
    /// a press on a thumbnail arms a potential drag; a press on nothing
    /// dismisses.
    pub open spec fn spec_button_press(self, x: int, y: int, button: u8) -> (
        InputAction,
        Option<DragState>,
    ) {
        if button != 1 {
            (InputAction::Dismiss, self.drag_state)
        } else if self.desktop_bar is Some && 0 <= y < self.desktop_bar.unwrap().bar_height {
            (
                match self.desktop_bar.unwrap().spec_hit_test(x, y) {
                    DesktopBarHit::Desktop(idx) => InputAction::ActivateDesktop(idx),
                    DesktopBarHit::PlusButton => InputAction::ClickPlusButton,
                    DesktopBarHit::DeleteButton(_) => InputAction::Nothing,
                    DesktopBarHit::Miss => InputAction::Nothing,
                },
                self.drag_state,
            )
        } else {
            match thumbnail_at(self.layouts@, x, y) {
                Some(index) => (
                    InputAction::Nothing,
                    Some(
                        DragState {
                            window_index: index,
                            start_x: x as i16,
                            start_y: y as i16,
                            current_x: x as i16,
                            current_y: y as i16,
                            is_active: false,
                            click_offset_x: 0,
                            click_offset_y: 0,
                        },
                    ),
                ),
                None => (InputAction::Dismiss, self.drag_state),
            }
        }
    }

    /// Handle a button press.
    pub fn handle_button_press(&mut self, x: i16, y: i16, button: u8) -> (action: InputAction)
        requires
            old(self).wf(),
        ensures
            action == old(self).spec_button_press(x as int, y as int, button).0,
            final(self).drag_state == old(self).spec_button_press(x as int, y as int, button).1,
            final(self).layouts == old(self).layouts,
            final(self).desktop_bar == old(self).desktop_bar,
            final(self).hovered_index == old(self).hovered_index,
            final(self).hovered_desktop == old(self).hovered_desktop,
            final(self).wf(),
    {
        if button != 1 {
            return InputAction::Dismiss;
        }
        let mut on_bar = false;
        let mut bar_action: InputAction = InputAction::Nothing;
        if let Some(bar) = &self.desktop_bar {
            if bar.contains_point(x, y) {
                on_bar = true;
                bar_action = match bar.hit_test(x, y) {
                    DesktopBarHit::Desktop(idx) => InputAction::ActivateDesktop(idx),
                    DesktopBarHit::PlusButton => InputAction::ClickPlusButton,
                    DesktopBarHit::DeleteButton(_) => InputAction::Nothing,
                    DesktopBarHit::Miss => InputAction::Nothing,
                };
            }
        }
        if on_bar {
            return bar_action;
        }
        if let Some(index) = self.find_thumbnail_at(x, y) {
            self.drag_state = Some(DragState::new(index, x, y));
            return InputAction::Nothing;
        }
        InputAction::Dismiss
    }

    /// What a button release does: an active drag drops on a desktop or is
    /// cancelled; an inactive press was a click and selects; the drag state
    /// empties either way.
    pub open spec fn spec_button_release(self, x: int, y: int) -> InputAction {
        match self.drag_state {
            Some(drag) => {
                if drag.is_active {
                    if self.desktop_bar is Some && (self.desktop_bar.unwrap().spec_hit_test(x, y))
                        matches DesktopBarHit::Desktop(_) {
                        match self.desktop_bar.unwrap().spec_hit_test(x, y) {
                            DesktopBarHit::Desktop(idx) => InputAction::DropOnDesktop(
                                drag.window_index,
                                idx,
                            ),
                            _ => InputAction::CancelDrag,
                        }
                    } else {
                        InputAction::CancelDrag
                    }
                } else {
                    InputAction::SelectWindow(drag.window_index)
                }
            },
            None => InputAction::Nothing,
        }
    }

    /// Handle a button release.
    pub fn handle_button_release(&mut self, x: i16, y: i16) -> (action: InputAction)
        requires
            old(self).wf(),
        ensures
            action == old(self).spec_button_release(x as int, y as int),
            final(self).drag_state is None,
            final(self).layouts == old(self).layouts,
            final(self).desktop_bar == old(self).desktop_bar,
            final(self).hovered_index == old(self).hovered_index,
            final(self).hovered_desktop == old(self).hovered_desktop,
            final(self).wf(),
    {
        let taken = self.drag_state;
        self.drag_state = None;
        match taken {
            Some(drag) => {
                if drag.is_active {
                    if let Some(bar) = &self.desktop_bar {
                        if let DesktopBarHit::Desktop(idx) = bar.hit_test(x, y) {
                            return InputAction::DropOnDesktop(drag.window_index, idx);
                        }
                    }
                    InputAction::CancelDrag
                } else {
                    InputAction::SelectWindow(drag.window_index)
                }
            },
            None => InputAction::Nothing,
        }
    }

    /// What a key press does: Escape dismisses, Return selects the hovered
    /// thumbnail, everything else does nothing.
    pub open spec fn spec_key_press(self, keycode: u8) -> InputAction {
        if keycode == 9 {
            InputAction::Dismiss
        } else if keycode == 36 {
            match self.hovered_index {
                Some(index) => InputAction::SelectWindow(index),
                None => InputAction::Nothing,
            }
        } else {
            InputAction::Nothing
        }
    }

    /// Handle a key press. Keycode 9 is Escape and 36 is Return on common
    /// keymaps.
    pub fn handle_key_press(&self, keycode: u8) -> (action: InputAction)
        ensures
            action == self.spec_key_press(keycode),
    {
        if keycode == 9 {
            InputAction::Dismiss
        } else if keycode == 36 {
            match self.hovered_index {
                Some(index) => InputAction::SelectWindow(index),
                None => InputAction::Nothing,
            }
        } else {
            InputAction::Nothing
        }
    }

    /// The desktop under a point, for hover tracking during a drag.
    pub open spec fn spec_bar_desktop_at(self, x: int, y: int) -> Option<u32> {
        match self.desktop_bar {
            Some(bar) => match bar.spec_hit_test(x, y) {
                DesktopBarHit::Desktop(idx) => Some(idx),
                _ => None,
            },
            None => None,
        }
    }

    /// Handle a pointer motion event.
    ///
    /// With a press armed, the move may activate the drag (`StartDrag`),
    /// or continue it (`DragMove`) while tracking which desktop preview is
    /// under the pointer. Without an active drag, hovering the bar reports
    /// desktop hover changes and hovering the grid reports thumbnail hover
    /// changes.
    pub fn handle_motion(&mut self, x: i16, y: i16) -> (action: InputAction)
        requires
            old(self).wf(),
        ensures
            final(self).layouts == old(self).layouts,
            final(self).desktop_bar == old(self).desktop_bar,
            final(self).wf(),
            ({
                let h = *old(self);
                match h.drag_state {
                    Some(drag) => {
                        let drag2 = moved(drag, x, y);
                        &&& final(self).drag_state == Some(drag2)
                        &&& if !drag.is_active && drag2.is_active {
                            &&& action == InputAction::StartDrag(drag.window_index)
                            &&& final(self).hovered_desktop == h.hovered_desktop
                            &&& final(self).hovered_index == h.hovered_index
                        } else if drag.is_active {
                            &&& action == InputAction::DragMove(x, y)
                            &&& final(self).hovered_desktop == h.spec_bar_desktop_at(
                                x as int,
                                y as int,
                            )
                            &&& final(self).hovered_index == h.hovered_index
                        } else {
                            h.spec_plain_motion(x as int, y as int, action, *final(self))
                        }
                    },
                    None => ({
                        &&& final(self).drag_state is None
                        &&& h.spec_plain_motion(x as int, y as int, action, *final(self))
                    }),
                }
            }),
    {
        if self.drag_state.is_some() {
            let mut drag = self.drag_state.unwrap();
            let became_active = drag.update(x, y);
            self.drag_state = Some(drag);
            if became_active {
                return InputAction::StartDrag(drag.window_index);
            }
            if drag.is_active {
                let new_hover = self.bar_desktop_at(x, y);
                self.hovered_desktop = new_hover;
                return InputAction::DragMove(x, y);
            }
        }
        if let Some(bar) = &self.desktop_bar {
            if bar.contains_point(x, y) {
                let new_hover = match bar.hit_test(x, y) {
                    DesktopBarHit::Desktop(idx) => Some(idx),
                    _ => None,
                };
                if new_hover != self.hovered_desktop {
                    self.hovered_desktop = new_hover;
                    return InputAction::HoverDesktop(new_hover);
                }
                return InputAction::Nothing;
            } else if self.hovered_desktop.is_some() {
                self.hovered_desktop = None;
                return InputAction::HoverDesktop(None);
            }
        }
        let new_hover = self.find_thumbnail_at(x, y);
        if new_hover != self.hovered_index {
            self.hovered_index = new_hover;
            return InputAction::Hover(new_hover);
        }
        InputAction::Nothing
    }

    /// Hover tracking when no drag is active: on the bar, desktop-hover
    /// changes are reported; off the bar, a lingering desktop hover is
    /// cleared; otherwise thumbnail-hover changes are reported.
    pub open spec fn spec_plain_motion(
        self,
        x: int,
        y: int,
        action: InputAction,
        after: InputHandler,
    ) -> bool {
        if self.desktop_bar is Some && 0 <= y < self.desktop_bar.unwrap().bar_height {
            let new_hover = match self.desktop_bar.unwrap().spec_hit_test(x, y) {
                DesktopBarHit::Desktop(idx) => Some(idx),
                _ => None::<u32>,
            };
            if new_hover != self.hovered_desktop {
                &&& action == InputAction::HoverDesktop(new_hover)
                &&& after.hovered_desktop == new_hover
                &&& after.hovered_index == self.hovered_index
            } else {
                &&& action == InputAction::Nothing
                &&& after.hovered_desktop == self.hovered_desktop
                &&& after.hovered_index == self.hovered_index
            }
        } else if self.desktop_bar is Some && self.hovered_desktop is Some {
            &&& action == InputAction::HoverDesktop(None)
            &&& after.hovered_desktop is None
            &&& after.hovered_index == self.hovered_index
        } else {
            let new_hover = thumbnail_at(self.layouts@, x, y);
            if new_hover != self.hovered_index {
                &&& action == InputAction::Hover(new_hover)
                &&& after.hovered_index == new_hover
                &&& after.hovered_desktop == self.hovered_desktop
            } else {
                &&& action == InputAction::Nothing
                &&& after.hovered_index == self.hovered_index
                &&& after.hovered_desktop == self.hovered_desktop
            }
        }
    }

    /// The desktop preview under a point, if any.
    fn bar_desktop_at(&self, x: i16, y: i16) -> (r: Option<u32>)
        requires
            self.wf(),
        ensures
            r == self.spec_bar_desktop_at(x as int, y as int),
    {
        match &self.desktop_bar {
            Some(bar) => match bar.hit_test(x, y) {
                DesktopBarHit::Desktop(idx) => Some(idx),
                _ => None,
            },
            None => None,
        }
    }
}

} // verus!
