use xpose::dispatcher::InvalidationDispatcher;
use xpose::dispatcher::drain_batch;
use xpose::dispatcher::resolve_surface;
use xpose::surface::AcquireAttempt;
use xpose::surface::BufferGeometry;
use xpose::surface::CapturedSurface;
use xpose::surface::acquire;

fn surface_with_invalidation(source: u32, handle: u32) -> CapturedSurface {
    let (r, _) = acquire(
        source,
        100,
        100,
        &AcquireAttempt {
            redirected: true,
            buffer: Some(source * 10),
            geometry: Some(BufferGeometry { width: 100, height: 100 }),
            paint: Some(source * 10 + 1),
            invalidation: Some(handle),
        },
    );
    r.unwrap()
}

#[test]
fn repeated_notifications_coalesce_to_one_refresh() {
    // Many notifications for one surface within a batch: one refresh.
    let surfaces = vec![
        surface_with_invalidation(1, 11),
        surface_with_invalidation(2, 12),
    ];
    let events = vec![11, 11, 11, 11, 11];
    let batch = drain_batch(&surfaces, &events);
    assert_eq!(batch.acks, events);
    assert_eq!(batch.refresh, vec![0]);
}

#[test]
fn batch_refreshes_each_distinct_surface_once() {
    // Five notifications for surface A and one for surface C: exactly two
    // refreshes, one per distinct surface.
    let surfaces = vec![
        surface_with_invalidation(1, 11),
        surface_with_invalidation(2, 12),
        surface_with_invalidation(3, 13),
    ];
    let events = vec![11, 11, 11, 11, 11, 13];
    let batch = drain_batch(&surfaces, &events);
    // Every notification is acknowledged.
    assert_eq!(batch.acks, events);
    // Exactly the two distinct surfaces, in first-notification order.
    assert_eq!(batch.refresh, vec![0, 2]);
}

#[test]
fn unknown_handles_are_acknowledged_but_refresh_nothing() {
    let surfaces = vec![surface_with_invalidation(1, 11)];
    let events = vec![99, 98];
    let batch = drain_batch(&surfaces, &events);
    assert_eq!(batch.acks, events);
    assert!(batch.refresh.is_empty());
}

#[test]
fn resolve_matches_by_invalidation_handle() {
    let surfaces = vec![
        surface_with_invalidation(1, 11),
        surface_with_invalidation(2, 12),
    ];
    assert_eq!(resolve_surface(&surfaces, 12), Some(1));
    assert_eq!(resolve_surface(&surfaces, 44), None);
}

#[test]
fn pending_set_deduplicates_by_membership() {
    let mut d = InvalidationDispatcher::new();
    d.note(4);
    d.note(4);
    d.note(2);
    d.note(4);
    let pending = d.take_pending();
    assert_eq!(pending, vec![4, 2]);
    // Taking the set returns the dispatcher to idle.
    assert!(d.take_pending().is_empty());
}
