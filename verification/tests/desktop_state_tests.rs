use xpose::desktop_state::DesktopState;

#[test]
fn fresh_state_defaults() {
    let s = DesktopState::default_state();
    assert_eq!(s.current, 0);
    assert_eq!(s.desktops, 4);
    assert!(s.windows.is_empty());
    assert!(s.app_hidden.is_empty());
    assert!(s.stacking.is_empty());
    assert_eq!(DesktopState::state_path(), "/tmp/xpose/desktop_state.json");
}

#[test]
fn new_windows_bind_to_the_current_desktop() {
    let mut s = DesktopState::default_state();
    assert_eq!(s.get_window_desktop(100, 2), 2);
    // A second ask keeps the binding, whatever desktop is current.
    assert_eq!(s.get_window_desktop(100, 3), 2);
    assert_eq!(s.get_window_desktop_assignment(100), Some(2));
    assert_eq!(s.get_window_desktop_assignment(999), None);
}

#[test]
fn rebinding_replaces_the_assignment() {
    let mut s = DesktopState::default_state();
    s.set_window_desktop(100, 1);
    s.set_window_desktop(200, 2);
    s.set_window_desktop(100, 3);
    assert_eq!(s.get_window_desktop_assignment(100), Some(3));
    assert_eq!(s.get_window_desktop_assignment(200), Some(2));
}

#[test]
fn visibility_follows_binding_and_hiding() {
    let mut s = DesktopState::default_state();
    s.set_window_desktop(100, 1);
    assert!(s.is_visible_on(100, 1));
    assert!(!s.is_visible_on(100, 2));
    // Unknown windows are visible until assigned.
    assert!(s.is_visible_on(999, 2));
    // A window hidden by the tool never shows.
    s.set_app_hidden(100, true);
    assert!(s.is_app_hidden(100));
    assert!(!s.is_visible_on(100, 1));
    s.set_app_hidden(100, false);
    assert!(!s.is_app_hidden(100));
    assert!(s.is_visible_on(100, 1));
}

#[test]
fn cleanup_drops_dead_windows_everywhere() {
    let mut s = DesktopState::default_state();
    s.set_window_desktop(100, 1);
    s.set_window_desktop(200, 1);
    s.set_app_hidden(200, true);
    s.add_to_stacking(100, 1);
    s.add_to_stacking(200, 1);
    s.cleanup_dead_windows(&vec![100]);
    assert_eq!(s.get_window_desktop_assignment(100), Some(1));
    assert_eq!(s.get_window_desktop_assignment(200), None);
    assert!(!s.is_app_hidden(200));
    assert_eq!(s.windows_on_desktop(1), vec![100]);
}

#[test]
fn stacking_keeps_newest_on_top() {
    let mut s = DesktopState::default_state();
    s.set_window_desktop(100, 1);
    s.set_window_desktop(200, 1);
    s.set_window_desktop(300, 1);
    s.add_to_stacking(100, 1);
    s.add_to_stacking(200, 1);
    s.add_to_stacking(300, 1);
    // Re-adding moves a window to the top, without duplicating it.
    s.add_to_stacking(100, 1);
    assert_eq!(s.windows_on_desktop(1), vec![200, 300, 100]);
    s.remove_from_stacking(200, 1);
    // Window 200 keeps its binding, so it reappears after the stacked ones.
    assert_eq!(s.windows_on_desktop(1), vec![300, 100, 200]);
}

#[test]
fn windows_on_desktop_lists_unstacked_windows_last() {
    let mut s = DesktopState::default_state();
    s.set_window_desktop(100, 1);
    s.set_window_desktop(200, 2);
    s.set_window_desktop(300, 1);
    s.add_to_stacking(300, 1);
    // Desktop 1: the stacked window first, then the unstacked one; the
    // window bound to desktop 2 stays out.
    assert_eq!(s.windows_on_desktop(1), vec![300, 100]);
    assert_eq!(s.windows_on_desktop(2), vec![200]);
}
