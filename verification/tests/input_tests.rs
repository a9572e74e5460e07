use xpose::desktop_bar::DesktopBar;
use xpose::input::DragState;
use xpose::input::InputAction;
use xpose::input::InputHandler;
use xpose::layout::ThumbnailLayout;

fn grid() -> Vec<ThumbnailLayout> {
    vec![
        ThumbnailLayout { x: 100, y: 200, width: 300, height: 200, window_index: 0 },
        ThumbnailLayout { x: 500, y: 200, width: 300, height: 200, window_index: 1 },
    ]
}

fn handler_with_bar() -> InputHandler {
    InputHandler::new(grid(), Some(DesktopBar::new(2, 0, 1920)))
}

#[test]
fn click_on_thumbnail_selects_on_release() {
    let mut h = handler_with_bar();
    // Press on the second thumbnail arms a potential drag, no action yet.
    assert_eq!(h.handle_button_press(510, 250, 1), InputAction::Nothing);
    assert!(!h.is_dragging());
    // Releasing without movement is a click.
    assert_eq!(h.handle_button_release(510, 250), InputAction::SelectWindow(1));
    assert!(h.drag_state().is_none());
}

#[test]
fn press_outside_everything_dismisses() {
    let mut h = handler_with_bar();
    assert_eq!(h.handle_button_press(50, 1000, 1), InputAction::Dismiss);
    // Any button but the first dismisses too.
    assert_eq!(h.handle_button_press(510, 250, 3), InputAction::Dismiss);
}

#[test]
fn press_on_bar_elements_acts_immediately() {
    let mut h = handler_with_bar();
    let bar = DesktopBar::new(2, 0, 1920);
    let p = &bar.preview_layouts[1];
    assert_eq!(
        h.handle_button_press(p.x + 5, p.y + 50, 1),
        InputAction::ActivateDesktop(1)
    );
    let pb = &bar.plus_button;
    assert_eq!(
        h.handle_button_press(pb.x + 2, pb.y + 2, 1),
        InputAction::ClickPlusButton
    );
}

#[test]
fn drag_starts_after_threshold_and_drops_on_desktop() {
    let mut h = handler_with_bar();
    assert_eq!(h.handle_motion(510, 250), InputAction::Hover(Some(1)));
    assert_eq!(h.handle_button_press(510, 250, 1), InputAction::Nothing);
    // Small movement stays below the threshold and the hover is unchanged.
    assert_eq!(h.handle_motion(512, 252), InputAction::Nothing);
    assert!(!h.is_dragging());
    // Crossing the threshold starts the drag.
    assert_eq!(h.handle_motion(520, 260), InputAction::StartDrag(1));
    assert!(h.is_dragging());
    // Further motion reports drag moves.
    assert_eq!(h.handle_motion(400, 90), InputAction::DragMove(400, 90));
    // Releasing over a desktop preview drops the window there.
    let bar = DesktopBar::new(2, 0, 1920);
    let p = &bar.preview_layouts[0];
    assert_eq!(
        h.handle_button_release(p.x + 5, p.y + 50),
        InputAction::DropOnDesktop(1, 0)
    );
}

#[test]
fn drag_released_elsewhere_cancels() {
    let mut h = handler_with_bar();
    h.handle_button_press(510, 250, 1);
    h.handle_motion(560, 300);
    assert!(h.is_dragging());
    assert_eq!(h.handle_button_release(560, 300), InputAction::CancelDrag);
}

#[test]
fn hover_changes_are_reported_once() {
    let mut h = handler_with_bar();
    assert_eq!(h.handle_motion(110, 210), InputAction::Hover(Some(0)));
    assert_eq!(h.handle_motion(120, 220), InputAction::Nothing);
    assert_eq!(h.handle_motion(510, 210), InputAction::Hover(Some(1)));
    assert_eq!(h.handle_motion(50, 1000), InputAction::Hover(None));
    assert_eq!(h.hovered(), None);
}

#[test]
fn bar_hover_tracks_desktops() {
    let mut h = handler_with_bar();
    let bar = DesktopBar::new(2, 0, 1920);
    let p = &bar.preview_layouts[1];
    assert_eq!(
        h.handle_motion(p.x + 5, p.y + 50),
        InputAction::HoverDesktop(Some(1))
    );
    assert_eq!(h.hovered_desktop(), Some(1));
    // Leaving the bar clears the desktop hover.
    assert_eq!(h.handle_motion(500, 500), InputAction::HoverDesktop(None));
}

#[test]
fn escape_and_return_keys() {
    let mut h = handler_with_bar();
    assert_eq!(h.handle_key_press(9), InputAction::Dismiss);
    // Return with nothing hovered does nothing; with a hover it selects.
    assert_eq!(h.handle_key_press(36), InputAction::Nothing);
    h.handle_motion(110, 210);
    assert_eq!(h.handle_key_press(36), InputAction::SelectWindow(0));
    assert_eq!(h.handle_key_press(77), InputAction::Nothing);
}

#[test]
fn drag_state_tracks_positions() {
    let mut d = DragState::new(4, 100, 100);
    assert!(!d.update(103, 103));
    assert!(!d.is_active);
    assert!(d.update(100, 110));
    assert!(d.is_active);
    // Once active, further updates do not re-report activation.
    assert!(!d.update(200, 200));
    assert_eq!((d.current_x, d.current_y), (200, 200));
}
