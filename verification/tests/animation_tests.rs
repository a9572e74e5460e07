use xpose::animation::AnimationConfig;
use xpose::animation::AnimatedLayout;
use xpose::animation::AnimationMode;
use xpose::animation::Animator;
use xpose::animation::DragAnimation;
use xpose::animation::calculate_start_layouts;
use xpose::compositor::Rect;
use xpose::layout::ThumbnailLayout;

fn one_start(x: i16, y: i16) -> Vec<AnimatedLayout> {
    vec![AnimatedLayout { x, y, width: 200, height: 150, window_index: 0 }]
}

fn one_end(x: i16, y: i16) -> Vec<ThumbnailLayout> {
    vec![ThumbnailLayout { x, y, width: 200, height: 150, window_index: 0 }]
}

#[test]
fn animator_timing_and_frames() {
    let config = AnimationConfig { duration_ms: 500, fps: 60 };
    let a = Animator::new(one_start(0, 0), one_end(100, 0), &config, 1000);
    assert_eq!(a.frame_duration(), 1_000_000_000 / 60);
    assert!(!a.is_complete(1000));
    assert!(!a.is_complete(1499));
    assert!(a.is_complete(1500));
    assert!(a.is_complete(2000));
    // A clock that jumped backwards has not completed anything.
    assert!(!a.is_complete(900));
}

#[test]
fn animator_eases_from_start_to_end() {
    let config = AnimationConfig { duration_ms: 500, fps: 60 };
    let a = Animator::new(one_start(0, 0), one_end(100, 0), &config, 1000);

    // At the start nothing has moved; the size is already final.
    let at_start = a.current_layouts(1000);
    assert_eq!(at_start[0].x, 0);
    assert_eq!(at_start[0].width, 200);

    // Halfway through, cubic ease-out has covered 7/8 of the distance:
    // 100 * (500^3 - 250^3) / 500^3 = 87.5, rounded toward the start.
    let midway = a.current_layouts(1250);
    assert_eq!(midway[0].x, 87);

    // At (and past) the end the thumbnail sits exactly at its cell.
    assert_eq!(a.current_layouts(1500)[0].x, 100);
    assert_eq!(a.current_layouts(9999)[0].x, 100);
}

#[test]
fn default_animation_config() {
    let config = AnimationConfig::default();
    assert_eq!(config.duration_ms, 500);
    assert_eq!(config.fps, 60);
}

#[test]
fn start_layouts_center_on_windows_and_clamp() {
    let windows = vec![
        Rect { x: 100, y: 100, width: 800, height: 600 },
        // A window hanging off the left edge clamps to the screen.
        Rect { x: -500, y: 10, width: 300, height: 300 },
    ];
    let ends = vec![
        ThumbnailLayout { x: 0, y: 0, width: 200, height: 150, window_index: 0 },
        ThumbnailLayout { x: 0, y: 0, width: 200, height: 150, window_index: 1 },
    ];
    let starts = calculate_start_layouts(&windows, &ends, 1920, 1080);
    assert_eq!(starts.len(), 2);
    // Centered on the window: (2*100 + 800 - 200) / 2 = 400 and
    // (2*100 + 600 - 150) / 2 = 325.
    assert_eq!(starts[0].x, 400);
    assert_eq!(starts[0].y, 325);
    assert_eq!(starts[0].width, 200);
    assert_eq!(starts[0].window_index, 0);
    // The off-screen window clamps to the left edge.
    assert_eq!(starts[1].x, 0);
}

#[test]
fn drag_animation_reaches_its_target() {
    let anim = DragAnimation {
        mode: AnimationMode::RevertToGrid,
        window_index: 3,
        from: Rect { x: 500, y: 400, width: 60, height: 40 },
        to: Rect { x: 100, y: 80, width: 200, height: 150 },
        start_ms: 0,
        duration_ms: 200,
    };
    assert!(!anim.is_complete(100));
    assert!(anim.is_complete(200));
    let done = anim.current_position(200);
    assert_eq!(done, anim.to);
    // Halfway: 7/8 of each distance, rounded toward the start value.
    let mid = anim.current_position(100);
    assert_eq!(mid.x, 500 - 350);
    assert_eq!(mid.y, 400 - 280);
}

#[test]
fn shrinking_rectangles_keep_a_pixel() {
    let anim = DragAnimation {
        mode: AnimationMode::SnapToDesktop { desktop_index: 1 },
        window_index: 0,
        from: Rect { x: 0, y: 0, width: 8, height: 8 },
        to: Rect { x: 0, y: 0, width: 0, height: 0 },
        start_ms: 0,
        duration_ms: 100,
    };
    let done = anim.current_position(100);
    assert_eq!(done.width, 1);
    assert_eq!(done.height, 1);
}
