use xpose::canvas::CanvasAction;
use xpose::canvas::ClearPlan;
use xpose::canvas::OverviewCanvas;
use xpose::canvas::StackOp;
use xpose::canvas::pick_background;
use xpose::canvas::plan_restack;
use xpose::compositor::BlendOp;
use xpose::compositor::Filter;
use xpose::compositor::Rect;
use xpose::compositor::identity_transform;
use xpose::compositor::paint_scaled;
use xpose::compositor::paint_with_opacity;
use xpose::errors::XposeError;
use xpose::negotiate::PictFormatInfo;
use xpose::negotiate::negotiate;
use xpose::negotiate::resolve_pict_format;

#[test]
fn unscaled_paint_is_identity_transform() {
    // Destination of exactly the source size: scale 1.0 on both axes.
    let dst = Rect { x: 10, y: 20, width: 300, height: 200 };
    let plan = paint_scaled(300, 200, dst, BlendOp::Replace).unwrap();
    assert_eq!(plan.transform, identity_transform());
    assert_eq!(plan.transform.xx, 65536);
    assert_eq!(plan.transform.yy, 65536);
    assert_eq!(plan.filter, Filter::Nearest);
    assert_eq!(plan.dst, dst);
    assert_eq!(plan.mask_alpha, None);
}

#[test]
fn scaled_paint_maps_destination_back_to_source() {
    // 1920x1080 shrunk to a quarter: the inverse transform scales by 4.
    let dst = Rect { x: 0, y: 0, width: 480, height: 270 };
    let plan = paint_scaled(1920, 1080, dst, BlendOp::Replace).unwrap();
    assert_eq!(plan.transform.xx, 4 * 65536);
    assert_eq!(plan.transform.yy, 4 * 65536);
    assert_eq!(plan.transform.ww, 65536);
    assert_eq!(plan.filter, Filter::Smooth);
}

#[test]
fn zero_area_paint_is_a_no_op() {
    let empty = Rect { x: 0, y: 0, width: 0, height: 50 };
    assert!(paint_scaled(100, 100, empty, BlendOp::Replace).is_none());
    assert!(paint_with_opacity(empty, 65535).is_none());
}

#[test]
fn zero_opacity_is_a_no_op() {
    let dst = Rect { x: 5, y: 5, width: 100, height: 100 };
    assert!(paint_with_opacity(dst, 0).is_none());
}

#[test]
fn full_opacity_matches_unscaled_geometry() {
    // Full opacity paints the same rectangle through the same identity
    // transform as an unscaled opaque paint; only the blend operator and
    // mask differ.
    let dst = Rect { x: 5, y: 5, width: 100, height: 100 };
    let by_opacity = paint_with_opacity(dst, 65535).unwrap();
    let by_scale = paint_scaled(100, 100, dst, BlendOp::Replace).unwrap();
    assert_eq!(by_opacity.transform, by_scale.transform);
    assert_eq!(by_opacity.transform, identity_transform());
    assert_eq!(by_opacity.dst, by_scale.dst);
    assert_eq!(by_opacity.mask_alpha, Some(65535));
    assert_eq!(by_opacity.op, BlendOp::Over);
    assert_eq!(by_scale.op, BlendOp::Replace);
}

#[test]
fn negotiate_assembles_capabilities() {
    let formats = vec![
        PictFormatInfo { id: 1, depth: 32, direct: true },
        PictFormatInfo { id: 2, depth: 24, direct: false },
        PictFormatInfo { id: 3, depth: 24, direct: true },
        PictFormatInfo { id: 4, depth: 24, direct: true },
    ];
    let caps = negotiate(Some((0, 4)), true, true, &formats, 24).unwrap();
    assert_eq!(caps.composite_major, 0);
    assert_eq!(caps.composite_minor, 4);
    // The first direct format of the right depth wins.
    assert_eq!(caps.pict_format, 3);
    assert_eq!(caps.depth, 24);
}

#[test]
fn negotiate_reports_distinct_failures() {
    let formats = vec![PictFormatInfo { id: 3, depth: 24, direct: true }];
    assert_eq!(
        negotiate(None, true, true, &formats, 24).unwrap_err(),
        XposeError::NoComposite
    );
    assert_eq!(
        negotiate(Some((0, 1)), true, true, &formats, 24).unwrap_err(),
        XposeError::CompositeVersionTooLow
    );
    assert_eq!(
        negotiate(Some((0, 4)), false, true, &formats, 24).unwrap_err(),
        XposeError::NoRender
    );
    assert_eq!(
        negotiate(Some((0, 4)), true, false, &formats, 24).unwrap_err(),
        XposeError::NoDamage
    );
    assert_eq!(
        negotiate(Some((0, 4)), true, true, &formats, 32).unwrap_err(),
        XposeError::NoPictFormat
    );
    // A newer major version passes regardless of the minor one.
    assert!(negotiate(Some((1, 0)), true, true, &formats, 24).is_ok());
}

#[test]
fn pict_format_scan_needs_direct_color() {
    let formats = vec![
        PictFormatInfo { id: 1, depth: 24, direct: false },
        PictFormatInfo { id: 2, depth: 24, direct: false },
    ];
    assert_eq!(
        resolve_pict_format(&formats, 24).unwrap_err(),
        XposeError::NoPictFormat
    );
}

#[test]
fn canvas_clear_present_destroy() {
    let canvas = OverviewCanvas::assemble(1, 2, 3, 1920, 1080, Some(9));
    match canvas.clear_to_background() {
        ClearPlan::Wallpaper { background, width, height } => {
            assert_eq!(background, 9);
            assert_eq!((width, height), (1920, 1080));
        }
        ClearPlan::Solid { .. } => panic!("wallpaper expected"),
    }
    let bare = OverviewCanvas::assemble(1, 2, 3, 1920, 1080, None);
    match bare.clear_to_background() {
        ClearPlan::Solid { color, width, height } => {
            assert_eq!(color, 0x1a1a1a);
            assert_eq!((width, height), (1920, 1080));
        }
        ClearPlan::Wallpaper { .. } => panic!("solid fill expected"),
    }
    let present = canvas.present();
    assert_eq!(present.window, 1);
    assert_eq!(present.buffer, 2);
    assert_eq!((present.width, present.height), (1920, 1080));
    assert_eq!(
        canvas.destroy(),
        vec![
            CanvasAction::FreePaint(9),
            CanvasAction::FreePaint(3),
            CanvasAction::FreeBuffer(2),
            CanvasAction::DestroyWindow(1),
        ]
    );
}

#[test]
fn background_pick_skips_zero_handles() {
    assert_eq!(pick_background(Some(5), Some(6)), Some(5));
    assert_eq!(pick_background(Some(0), Some(6)), Some(6));
    assert_eq!(pick_background(None, Some(6)), Some(6));
    assert_eq!(pick_background(Some(0), Some(0)), None);
    assert_eq!(pick_background(None, None), None);
}

#[test]
fn restack_lowers_first_then_raises_in_order() {
    let order = vec![11, 22, 33];
    let ops = plan_restack(&order);
    assert_eq!(
        ops,
        vec![
            StackOp::Lower(11),
            StackOp::RaiseAbove { window: 22, sibling: 11 },
            StackOp::RaiseAbove { window: 33, sibling: 22 },
        ]
    );
}
