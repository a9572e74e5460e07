use xpose::errors::Severity;
use xpose::errors::XposeError;
use xpose::surface::AcquireAttempt;
use xpose::surface::BufferGeometry;
use xpose::surface::ReleaseAction;
use xpose::surface::UpgradeAttempt;
use xpose::surface::acquire;
use xpose::surface::acquire_placeholder;
use xpose::surface::refresh;
use xpose::surface::release;
use xpose::surface::try_upgrade;

fn complete_acquire() -> AcquireAttempt {
    AcquireAttempt {
        redirected: true,
        buffer: Some(100),
        geometry: Some(BufferGeometry { width: 640, height: 480 }),
        paint: Some(200),
        invalidation: Some(300),
    }
}

#[test]
fn acquire_uses_reported_geometry_not_nominal() {
    // The caller's nominal size differs from the buffer's reported one;
    // the surface must carry the reported geometry.
    let (r, cleanup) = acquire(7, 555, 444, &complete_acquire());
    let s = r.unwrap();
    assert_eq!(s.source_id, 7);
    assert!(s.redirected);
    assert_eq!(s.surface_handle, Some(100));
    assert_eq!(s.paint_handle, Some(200));
    assert_eq!(s.invalidation_handle, Some(300));
    assert_eq!(s.content_width, 640);
    assert_eq!(s.content_height, 480);
    assert!(!s.is_placeholder);
    assert!(cleanup.is_empty());
}

#[test]
fn acquire_failure_frees_partial_resources() {
    // The paint step failed; what was allocated before it must be freed,
    // derived handles first, and redirection stays on for a later retry.
    let attempt = AcquireAttempt {
        redirected: true,
        buffer: Some(100),
        geometry: Some(BufferGeometry { width: 640, height: 480 }),
        paint: None,
        invalidation: None,
    };
    let (r, cleanup) = acquire(7, 640, 480, &attempt);
    assert_eq!(r.unwrap_err(), XposeError::RequestFailed);
    assert_eq!(cleanup, vec![ReleaseAction::FreeBuffer(100)]);
}

#[test]
fn placeholder_keeps_fallback_size_and_flag() {
    let attempt = AcquireAttempt {
        redirected: true,
        buffer: Some(101),
        geometry: None,
        paint: Some(201),
        invalidation: Some(301),
    };
    let (r, cleanup) = acquire_placeholder(9, 320, 240, &attempt);
    let s = r.unwrap();
    assert!(s.is_placeholder);
    assert_eq!(s.content_width, 320);
    assert_eq!(s.content_height, 240);
    assert_eq!(s.invalidation_handle, Some(301));
    assert!(cleanup.is_empty());
}

#[test]
fn upgrade_success_replaces_and_frees_old() {
    let (r, _) = acquire_placeholder(
        9,
        320,
        240,
        &AcquireAttempt {
            redirected: true,
            buffer: Some(101),
            geometry: None,
            paint: Some(201),
            invalidation: Some(301),
        },
    );
    let mut s = r.unwrap();
    let fresh = UpgradeAttempt {
        buffer: Some(102),
        geometry: Some(BufferGeometry { width: 800, height: 600 }),
        paint: Some(202),
    };
    let (upgraded, frees) = try_upgrade(&mut s, &fresh);
    assert!(upgraded);
    assert!(!s.is_placeholder);
    assert_eq!(s.surface_handle, Some(102));
    assert_eq!(s.paint_handle, Some(202));
    assert_ne!(s.paint_handle, Some(201));
    assert_eq!(s.content_width, 800);
    assert_eq!(s.content_height, 600);
    // The old handles are freed only now that the replacement is in.
    assert_eq!(
        frees,
        vec![ReleaseAction::FreePaint(201), ReleaseAction::FreeBuffer(101)]
    );
}

#[test]
fn upgrade_failure_leaves_surface_untouched() {
    let (r, _) = acquire_placeholder(
        9,
        320,
        240,
        &AcquireAttempt {
            redirected: true,
            buffer: Some(101),
            geometry: None,
            paint: Some(201),
            invalidation: Some(301),
        },
    );
    let mut s = r.unwrap();
    let before = s;
    // The fresh buffer was named but its geometry query failed.
    let fresh = UpgradeAttempt { buffer: Some(102), geometry: None, paint: None };
    let (upgraded, frees) = try_upgrade(&mut s, &fresh);
    assert!(!upgraded);
    assert_eq!(s, before);
    assert_eq!(frees, vec![ReleaseAction::FreeBuffer(102)]);
}

#[test]
fn refresh_failure_retains_previous_handles() {
    let (r, _) = acquire(7, 640, 480, &complete_acquire());
    let mut s = r.unwrap();
    let before = s;
    let (outcome, frees) = refresh(
        &mut s,
        &UpgradeAttempt { buffer: None, geometry: None, paint: None },
    );
    assert_eq!(outcome.unwrap_err(), XposeError::RequestFailed);
    assert_eq!(s, before);
    assert!(frees.is_empty());
}

#[test]
fn refresh_success_swaps_content() {
    let (r, _) = acquire(7, 640, 480, &complete_acquire());
    let mut s = r.unwrap();
    let (outcome, frees) = refresh(
        &mut s,
        &UpgradeAttempt {
            buffer: Some(110),
            geometry: Some(BufferGeometry { width: 642, height: 482 }),
            paint: Some(210),
        },
    );
    assert!(outcome.is_ok());
    assert_eq!(s.surface_handle, Some(110));
    assert_eq!(s.paint_handle, Some(210));
    assert_eq!(s.content_width, 642);
    assert_eq!(
        frees,
        vec![ReleaseAction::FreePaint(200), ReleaseAction::FreeBuffer(100)]
    );
}

#[test]
fn release_frees_everything_once() {
    let (r, _) = acquire(7, 640, 480, &complete_acquire());
    let mut s = r.unwrap();
    let plan = release(&mut s);
    assert_eq!(
        plan,
        vec![
            ReleaseAction::FreePaint(200),
            ReleaseAction::FreeBuffer(100),
            ReleaseAction::DestroyInvalidation(300),
            ReleaseAction::DisableRedirect(7),
        ]
    );
    assert_eq!(s.surface_handle, None);
    assert_eq!(s.paint_handle, None);
    assert_eq!(s.invalidation_handle, None);
    assert!(!s.redirected);
    // A second release finds nothing left to free.
    let again = release(&mut s);
    assert!(again.is_empty());
}

#[test]
fn error_severities_follow_the_taxonomy() {
    assert_eq!(XposeError::NoComposite.severity(), Severity::Fatal);
    assert_eq!(XposeError::CompositeVersionTooLow.severity(), Severity::Fatal);
    assert_eq!(XposeError::NoRender.severity(), Severity::Fatal);
    assert_eq!(XposeError::NoDamage.severity(), Severity::Fatal);
    assert_eq!(XposeError::NoPictFormat.severity(), Severity::Fatal);
    assert_eq!(XposeError::NoWindows.severity(), Severity::Fatal);
    assert_eq!(XposeError::ConnectionLost.severity(), Severity::Fatal);
    assert_eq!(
        XposeError::RequestFailed.severity(),
        Severity::PerWindowRecoverable
    );
    assert_eq!(XposeError::UpgradeFailed.severity(), Severity::Transient);
}
