//! End-to-end scenarios: a capture session driven with plain values in
//! place of the display server.

use xpose::compositor::BlendOp;
use xpose::compositor::Rect;
use xpose::compositor::paint_scaled;
use xpose::dispatcher::drain_batch;
use xpose::surface::AcquireAttempt;
use xpose::surface::BufferGeometry;
use xpose::surface::CapturedSurface;
use xpose::surface::UpgradeAttempt;
use xpose::surface::acquire;
use xpose::surface::acquire_placeholder;
use xpose::surface::refresh;
use xpose::surface::try_upgrade;

fn good_attempt(buffer: u32, w: u16, h: u16, paint: u32, invalidation: u32) -> AcquireAttempt {
    AcquireAttempt {
        redirected: true,
        buffer: Some(buffer),
        geometry: Some(BufferGeometry { width: w, height: h }),
        paint: Some(paint),
        invalidation: Some(invalidation),
    }
}

#[test]
fn three_window_set_with_one_failed_capture() {
    // Acquire three windows; window B's capture fails and gets a
    // placeholder at its nominal size.
    let (ra, _) = acquire(1, 800, 600, &good_attempt(10, 800, 600, 11, 12));
    let a = ra.unwrap();

    let failed = AcquireAttempt {
        redirected: true,
        buffer: None,
        geometry: None,
        paint: None,
        invalidation: None,
    };
    let (rb, cleanup) = acquire(2, 640, 480, &failed);
    assert!(rb.is_err());
    assert!(cleanup.is_empty());
    let (rb2, _) = acquire_placeholder(
        2,
        640,
        480,
        &AcquireAttempt {
            redirected: true,
            buffer: Some(20),
            geometry: None,
            paint: Some(21),
            invalidation: Some(22),
        },
    );
    let mut b = rb2.unwrap();

    let (rc, _) = acquire(3, 1024, 768, &good_attempt(30, 1024, 768, 31, 32));
    let c = rc.unwrap();

    // Two active surfaces and one placeholder.
    let placeholders = [&a, &b, &c].iter().filter(|s| s.is_placeholder).count();
    assert_eq!(placeholders, 1);
    assert!(!a.is_placeholder && !c.is_placeholder && b.is_placeholder);

    // A later tick upgrades B with a successful fresh capture.
    let (upgraded, _) = try_upgrade(
        &mut b,
        &UpgradeAttempt {
            buffer: Some(23),
            geometry: Some(BufferGeometry { width: 644, height: 484 }),
            paint: Some(24),
        },
    );
    assert!(upgraded);
    let actives = [&a, &b, &c].iter().filter(|s| !s.is_placeholder).count();
    assert_eq!(actives, 3);

    // B's real content is painted at its assigned rectangle: the plan
    // covers that rectangle and scales from B's real buffer size.
    let b_rect = Rect { x: 700, y: 100, width: 322, height: 242 };
    let plan = paint_scaled(b.content_width, b.content_height, b_rect, BlendOp::Replace).unwrap();
    assert_eq!(plan.dst, b_rect);
    assert_eq!(plan.transform.xx, 644 * 65536 / 322);
    assert_eq!(plan.transform.yy, 484 * 65536 / 242);
}

#[test]
fn batch_of_notifications_drives_two_refreshes() {
    // Send five invalidation notifications for surface A and one for
    // surface C in a single batch: two refreshes, two dirty rectangles.
    let (ra, _) = acquire(1, 800, 600, &good_attempt(10, 800, 600, 11, 111));
    let (rb, _) = acquire(2, 640, 480, &good_attempt(20, 640, 480, 21, 222));
    let (rc, _) = acquire(3, 1024, 768, &good_attempt(30, 1024, 768, 31, 333));
    let mut surfaces: Vec<CapturedSurface> = vec![ra.unwrap(), rb.unwrap(), rc.unwrap()];
    let rects = [
        Rect { x: 0, y: 0, width: 400, height: 300 },
        Rect { x: 420, y: 0, width: 320, height: 240 },
        Rect { x: 760, y: 0, width: 512, height: 384 },
    ];

    let events = vec![111, 111, 111, 111, 111, 333];
    let batch = drain_batch(&surfaces, &events);
    assert_eq!(batch.acks.len(), 6);
    assert_eq!(batch.refresh, vec![0, 2]);

    // Each distinct surface is refreshed once and only its rectangle is
    // re-composited.
    let mut dirty: Vec<Rect> = Vec::new();
    for &idx in &batch.refresh {
        let fresh = UpgradeAttempt {
            buffer: Some(idx as u32 * 100 + 50),
            geometry: Some(BufferGeometry {
                width: surfaces[idx].content_width,
                height: surfaces[idx].content_height,
            }),
            paint: Some(idx as u32 * 100 + 51),
        };
        let (outcome, _) = refresh(&mut surfaces[idx], &fresh);
        assert!(outcome.is_ok());
        dirty.push(rects[idx]);
    }
    assert_eq!(dirty.len(), 2);
    assert_eq!(dirty[0], rects[0]);
    assert_eq!(dirty[1], rects[2]);
}
