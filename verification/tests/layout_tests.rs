use xpose::layout::ThumbnailLayout;
use xpose::layout::find_layout;
use xpose::layout::optimal_grid;
use xpose::layout::scale_to_fit;

#[test]
fn test_optimal_grid() {
    // 1 window -> 1x1
    assert_eq!(optimal_grid(1, 1920, 1080), (1, 1));
    // 2 windows on widescreen -> 2x1
    assert_eq!(optimal_grid(2, 1920, 1080), (2, 1));
    // 4 windows -> 2x2 or 3x2 depending on aspect
    let (cols, rows) = optimal_grid(4, 1920, 1080);
    assert!(cols * rows >= 4);
}

#[test]
fn test_scale_to_fit() {
    // 1920x1080 into 400x300 cell
    let (w, h) = scale_to_fit(1920, 1080, 400, 300, 1000);
    // Should scale down proportionally
    assert!(w <= 400);
    assert!(h <= 300);
    // Aspect ratio preserved (16:9)
    let ratio = w as f64 / h as f64;
    assert!((ratio - 16.0 / 9.0).abs() < 0.1);
}

#[test]
fn test_scale_to_fit_exact_values() {
    // The limiting axis is the width: 400/1920 of the source.
    assert_eq!(scale_to_fit(1920, 1080, 400, 300, 1000), (400, 225));
    // The scale cap wins when the cell is large: 90% of 100x50.
    assert_eq!(scale_to_fit(100, 50, 1000, 1000, 900), (90, 45));
    // A degenerate source gets the full cell.
    assert_eq!(scale_to_fit(0, 50, 400, 300, 1000), (400, 300));
    // Extents never collapse to zero.
    let (w, h) = scale_to_fit(2000, 1, 100, 100, 1000);
    assert_eq!(w, 100);
    assert_eq!(h, 1);
}

#[test]
fn test_optimal_grid_empty_and_tall() {
    assert_eq!(optimal_grid(0, 1920, 1080), (1, 1));
    // A tall screen favors fewer columns: 4 windows on a portrait screen.
    let (cols, rows) = optimal_grid(4, 1080, 1920);
    assert!(cols * rows >= 4);
    assert!(cols <= rows + 1);
}

#[test]
fn test_find_layout_by_stable_index() {
    let layouts = vec![
        ThumbnailLayout { x: 0, y: 0, width: 10, height: 10, window_index: 7 },
        ThumbnailLayout { x: 20, y: 0, width: 10, height: 10, window_index: 3 },
    ];
    let found = find_layout(&layouts, 3).unwrap();
    assert_eq!(found.x, 20);
    assert!(find_layout(&layouts, 9).is_none());
}
