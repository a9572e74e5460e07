use xpose::compositor::Rect;
use xpose::grid::build_grid_layouts;

fn window(w: u16, h: u16) -> Rect {
    Rect { x: 0, y: 0, width: w, height: h }
}

#[test]
fn grid_centers_cells_and_partial_rows() {
    // Three windows on a 2x2 grid: cells are 900x420 under a 120-pixel
    // strip with 20-pixel padding and 50-pixel margins; the second row
    // holds one window and is centered.
    let windows = vec![window(800, 600), window(800, 600), window(800, 600)];
    let assignments = vec![0usize, 1, 2];
    let layouts = build_grid_layouts(&windows, &assignments, 2, 2, 1920, 1080, 120, 20, 50, 900);

    assert_eq!(layouts.len(), 3);
    // 800x600 in a 900x420 cell scales by 420/600 to 560x420.
    assert_eq!(
        (layouts[0].x, layouts[0].y, layouts[0].width, layouts[0].height),
        (220, 170, 560, 420)
    );
    assert_eq!((layouts[1].x, layouts[1].y), (1140, 170));
    // The lone window of the second row sits centered under the grid.
    assert_eq!((layouts[2].x, layouts[2].y), (680, 610));
    assert_eq!(layouts[2].window_index, 2);
}

#[test]
fn grid_gives_degenerate_windows_the_full_cell() {
    let windows = vec![window(0, 0)];
    let assignments = vec![0usize];
    let layouts = build_grid_layouts(&windows, &assignments, 1, 1, 1920, 1080, 0, 20, 50, 1000);
    assert_eq!(layouts.len(), 1);
    // A zero-sized source takes the whole 1820x980 cell.
    assert_eq!((layouts[0].width, layouts[0].height), (1820, 980));
    assert_eq!((layouts[0].x, layouts[0].y), (50, 50));
}
