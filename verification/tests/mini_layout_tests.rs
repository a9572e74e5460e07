use xpose::desktop_bar::DesktopBar;
use xpose::desktop_bar::WindowPlacement;
use xpose::desktop_state::DesktopState;

#[test]
fn mini_layouts_scale_from_screen_to_preview() {
    let mut bar = DesktopBar::new(2, 0, 1920);
    let mut state = DesktopState::default_state();
    state.set_window_desktop(10, 0);
    state.set_window_desktop(20, 1);
    let placements = vec![
        WindowPlacement { frame_id: 10, client_id: 11, x: 960, y: 540, width: 960, height: 540 },
        WindowPlacement { frame_id: 20, client_id: 21, x: 0, y: 0, width: 40, height: 30 },
    ];
    bar.calculate_mini_layouts(&placements, &state, 1920, 1080);

    // Desktop 0 shows window 10 at half the preview: 960*142/1920 = 71.
    let minis0 = &bar.preview_layouts[0].mini_windows;
    assert_eq!(minis0.len(), 1);
    assert_eq!(minis0[0].window_id, 10);
    assert_eq!(minis0[0].x, 71);
    assert_eq!(minis0[0].y, 40);
    assert_eq!(minis0[0].width, 71);
    assert_eq!(minis0[0].height, 40);

    // Desktop 1 shows the tiny window clamped to the minimum mini size.
    let minis1 = &bar.preview_layouts[1].mini_windows;
    assert_eq!(minis1.len(), 1);
    assert_eq!(minis1[0].window_id, 20);
    assert_eq!(minis1[0].width, 4);
    assert_eq!(minis1[0].height, 3);

    // Geometry of the previews themselves is untouched.
    assert_eq!(bar.preview_layouts[0].width, 142);
    assert_eq!(bar.preview_layouts[0].height, 80);
}

#[test]
fn mini_layouts_skip_windows_without_placement() {
    let mut bar = DesktopBar::new(1, 0, 1920);
    let mut state = DesktopState::default_state();
    state.set_window_desktop(10, 0);
    state.set_window_desktop(99, 0);
    let placements = vec![WindowPlacement {
        frame_id: 10,
        client_id: 11,
        x: 0,
        y: 0,
        width: 100,
        height: 100,
    }];
    bar.calculate_mini_layouts(&placements, &state, 1920, 1080);
    assert_eq!(bar.preview_layouts[0].mini_windows.len(), 1);
    assert_eq!(bar.preview_layouts[0].mini_windows[0].window_id, 10);
}

#[test]
fn gap_layouts_shift_for_the_insert_position() {
    let bar = DesktopBar::new(3, 0, 1920);
    // Previews at x 732, 889, 1046; dragging desktop 1 away and inserting
    // before desktop 2 opens one stride of 157 before it.
    let positions = bar.calculate_layouts_with_gap(1, 2);
    assert_eq!(positions, vec![(0, 732), (2, 732 + 157 + 157)]);
    // Inserting at the end opens no explicit gap; the remaining previews
    // pack from the left.
    let packed = bar.calculate_layouts_with_gap(1, 3);
    assert_eq!(packed, vec![(0, 732), (2, 732 + 157)]);
}
