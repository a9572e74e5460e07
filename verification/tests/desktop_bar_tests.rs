use xpose::desktop_bar::DesktopBar;
use xpose::desktop_bar::DesktopBarHit;

#[test]
fn test_desktop_bar_layout() {
    let bar = DesktopBar::new(4, 0, 1920);

    assert_eq!(bar.num_desktops, 4);
    assert_eq!(bar.current_desktop, 0);
    assert_eq!(bar.preview_layouts.len(), 4);
    assert!(bar.preview_layouts[0].is_current);
    assert!(!bar.preview_layouts[1].is_current);
}

#[test]
fn test_hit_test_desktop() {
    let bar = DesktopBar::new(4, 0, 1920);
    let preview = &bar.preview_layouts[0];

    // Hit inside first preview
    let hit = bar.hit_test(preview.x + 5, preview.y + 5);
    assert_eq!(hit, DesktopBarHit::Desktop(0));
}

#[test]
fn test_hit_test_plus_button() {
    let bar = DesktopBar::new(4, 0, 1920);
    let pb = &bar.plus_button;

    let hit = bar.hit_test(pb.x + 5, pb.y + 5);
    assert_eq!(hit, DesktopBarHit::PlusButton);
}

#[test]
fn test_hit_test_none() {
    let bar = DesktopBar::new(4, 0, 1920);

    // Hit in empty area
    let hit = bar.hit_test(5, 5);
    assert_eq!(hit, DesktopBarHit::Miss);
}

#[test]
fn test_contains_point() {
    let bar = DesktopBar::new(4, 0, 1920);

    assert!(bar.contains_point(100, 50));
    assert!(!bar.contains_point(100, 150));
    assert!(!bar.contains_point(100, -10));
}

#[test]
fn test_get_preview_center() {
    let bar = DesktopBar::new(4, 0, 1920);

    // First desktop should have a center
    let center = bar.get_preview_center(0);
    assert!(center.is_some());

    // Non-existent desktop
    let none = bar.get_preview_center(99);
    assert!(none.is_none());
}

#[test]
fn test_hit_test_delete_button() {
    let bar = DesktopBar::new(4, 1, 1920);
    let preview = &bar.preview_layouts[2];

    // Inside the delete button in the preview's top-right corner.
    let hit = bar.hit_test(
        preview.x + preview.delete_button_x + 2,
        preview.y + preview.delete_button_y + 2,
    );
    assert_eq!(hit, DesktopBarHit::DeleteButton(2));
}

#[test]
fn test_hit_test_no_delete_on_single_desktop() {
    // With a single desktop the delete button is inert; the hit falls
    // through to the preview itself.
    let bar = DesktopBar::new(1, 0, 1920);
    let preview = &bar.preview_layouts[0];

    let hit = bar.hit_test(
        preview.x + preview.delete_button_x + 2,
        preview.y + preview.delete_button_y + 2,
    );
    assert_eq!(hit, DesktopBarHit::Desktop(0));
}

#[test]
fn test_preview_positions_centered() {
    let bar = DesktopBar::new(4, 0, 1920);

    // Four previews of width 142 with three 15-pixel gaps span 613 pixels,
    // centered on a 1920-wide screen starting at 653, stepping by 157.
    assert_eq!(bar.preview_layouts[0].x, 653);
    assert_eq!(bar.preview_layouts[1].x, 810);
    assert_eq!(bar.preview_layouts[2].x, 967);
    assert_eq!(bar.preview_layouts[3].x, 1124);
    assert_eq!(bar.plus_button.x, 1860);
    assert_eq!(bar.plus_button.y, 40);
}

#[test]
fn test_insert_position() {
    let bar = DesktopBar::new(3, 0, 1920);
    // Centers: previews at x 732, 889, 1046; centers at 803, 960, 1117.
    // A cursor left of the first center inserts before desktop 0.
    assert_eq!(bar.calculate_insert_position(100, 2), 0);
    // A cursor right of every center inserts at the end.
    assert_eq!(bar.calculate_insert_position(1900, 0), 3);
    // The dragged preview itself is skipped.
    assert_eq!(bar.calculate_insert_position(750, 0), 1);
}
