//! Captured window surfaces: the resource bundle holding one window's
//! off-screen content and its lifecycle.
//!
//! A surface owns a redirection flag, an off-screen pixel buffer handle, a
//! compositable paint handle, an invalidation registration, the buffer's
//! authoritative dimensions, and a placeholder flag. The protocol requests
//! that allocate these resources are made by the caller in the documented
//! order, each step reporting success or failure; this module decides how
//! the outcomes assemble into a surface, what must be freed when a step
//! failed, and how an existing surface changes on upgrade, refresh and
//! release.
//!
//! Replacement policy: on upgrade and refresh, the previous handles are
//! freed only after the replacement is confirmed valid; on a failed
//! replacement the previous handles are retained untouched and the attempt
//! is dropped. A surface is therefore never left without valid handles.

use vstd::prelude::*;

use crate::errors::XposeError;

verus! {

/// One window's captured off-screen content.
#[derive(Clone, Copy, Debug, PartialEq, Eq, Structural)]
pub struct CapturedSurface {
    /// Handle of the on-screen window being captured (borrowed, not owned).
    pub source_id: u32,
    /// Whether off-screen redirection is active for `source_id`.
    pub redirected: bool,
    /// Handle of the off-screen pixel buffer, if one is held.
    pub surface_handle: Option<u32>,
    /// Compositable paint handle derived from the buffer, if one is held.
    pub paint_handle: Option<u32>,
    /// Registration for change notifications on `source_id`, if held.
    pub invalidation_handle: Option<u32>,
    /// Width of the captured buffer (authoritative, from the server).
    pub content_width: u16,
    /// Height of the captured buffer (authoritative, from the server).
    pub content_height: u16,
    /// True when the buffer is a synthetic solid fill, not real content.
    pub is_placeholder: bool,
}

impl CapturedSurface {
    /// Structural invariant: buffer and paint handle are both held or both
    /// absent, and an active redirection always has an invalidation
    /// registration.
    pub open spec fn wf(self) -> bool {
        &&& (self.surface_handle is Some <==> self.paint_handle is Some)
        &&& (self.redirected ==> self.invalidation_handle is Some)
    }

    /// Whether the surface holds content that can be composited.
    pub open spec fn has_content(self) -> bool {
        self.surface_handle is Some
    }

    /// Terminal state: no resources held, redirection undone.
    pub open spec fn released(self) -> bool {
        &&& self.surface_handle is None
        &&& self.paint_handle is None
        &&& self.invalidation_handle is None
        &&& !self.redirected
    }
}

/// A buffer's reported width and height.
#[derive(Clone, Copy, Debug, PartialEq, Eq, Structural)]
pub struct BufferGeometry {
    /// Reported width in pixels.
    pub width: u16,
    /// Reported height in pixels.
    pub height: u16,
}

/// One deallocation the caller must send to the display server.
#[derive(Clone, Copy, Debug, PartialEq, Eq, Structural)]
pub enum ReleaseAction {
    /// Free a compositable paint handle.
    FreePaint(u32),
    /// Free an off-screen pixel buffer.
    FreeBuffer(u32),
    /// Destroy an invalidation registration.
    DestroyInvalidation(u32),
    /// Undo off-screen redirection for a source window.
    DisableRedirect(u32),
}

/// The outcomes of the five acquisition steps, in the order they are sent:
/// enable redirection, name an off-screen buffer, query its authoritative
/// geometry, derive a paint handle, register for invalidation. A step that
/// failed (or was skipped after an earlier failure) is `false` or `None`.
#[derive(Clone, Copy, Debug, PartialEq, Eq, Structural)]
pub struct AcquireAttempt {
    /// Step 1: redirection is on for the source window.
    pub redirected: bool,
    /// Step 2: the named off-screen buffer bound to the window's contents.
    pub buffer: Option<u32>,
    /// Step 3: the buffer's reported width and height.
    pub geometry: Option<BufferGeometry>,
    /// Step 4: the paint handle derived from the buffer.
    pub paint: Option<u32>,
    /// Step 5: the invalidation registration on the source window.
    pub invalidation: Option<u32>,
}

/// The outcomes of a fresh capture (acquisition steps 2 to 4) made for an
/// upgrade or refresh of an existing surface.
#[derive(Clone, Copy, Debug, PartialEq, Eq, Structural)]
pub struct UpgradeAttempt {
    /// The fresh off-screen buffer, if naming it succeeded.
    pub buffer: Option<u32>,
    /// The fresh buffer's reported geometry, if the query succeeded.
    pub geometry: Option<BufferGeometry>,
    /// The paint handle derived from the fresh buffer, if that succeeded.
    pub paint: Option<u32>,
}

/// Whether every acquisition step succeeded.
pub open spec fn acquire_complete(a: AcquireAttempt) -> bool {
    &&& a.redirected
    &&& a.buffer is Some
    &&& a.geometry is Some
    &&& a.paint is Some
    &&& a.invalidation is Some
}

/// Whether a placeholder acquisition got what it needs. The placeholder
/// buffer is allocated at the fallback size, so no geometry query is made;
/// redirection is attempted but a placeholder tolerates its failure.
pub open spec fn placeholder_complete(a: AcquireAttempt) -> bool {
    &&& a.buffer is Some
    &&& a.paint is Some
    &&& a.invalidation is Some
}

/// Whether a replacement capture succeeded in full.
pub open spec fn upgrade_complete(a: UpgradeAttempt) -> bool {
    &&& a.buffer is Some
    &&& a.geometry is Some
    &&& a.paint is Some
}

/// What a failed acquisition must free: exactly the partial resources the
/// attempt allocated, derived handles first. Redirection stays on so that a
/// later placeholder or upgrade can succeed.
pub open spec fn acquire_cleanup(a: AcquireAttempt) -> Seq<ReleaseAction> {
    (if a.paint is Some {
        seq![ReleaseAction::FreePaint(a.paint.unwrap())]
    } else {
        Seq::empty()
    }) + (if a.invalidation is Some {
        seq![ReleaseAction::DestroyInvalidation(a.invalidation.unwrap())]
    } else {
        Seq::empty()
    }) + (if a.buffer is Some {
        seq![ReleaseAction::FreeBuffer(a.buffer.unwrap())]
    } else {
        Seq::empty()
    })
}

/// What a failed replacement must free: the fresh partial resources, never
/// the surface's current ones.
pub open spec fn upgrade_cleanup(a: UpgradeAttempt) -> Seq<ReleaseAction> {
    (if a.paint is Some {
        seq![ReleaseAction::FreePaint(a.paint.unwrap())]
    } else {
        Seq::empty()
    }) + (if a.buffer is Some {
        seq![ReleaseAction::FreeBuffer(a.buffer.unwrap())]
    } else {
        Seq::empty()
    })
}

/// What a confirmed replacement frees afterwards: the surface's previous
/// paint handle and buffer, in that order.
pub open spec fn replaced_frees(s: CapturedSurface) -> Seq<ReleaseAction> {
    (if s.paint_handle is Some {
        seq![ReleaseAction::FreePaint(s.paint_handle.unwrap())]
    } else {
        Seq::empty()
    }) + (if s.surface_handle is Some {
        seq![ReleaseAction::FreeBuffer(s.surface_handle.unwrap())]
    } else {
        Seq::empty()
    })
}

/// What releasing a surface must send: free the paint handle, the buffer
/// and the invalidation registration, then disable redirection — one action
/// per resource actually held, so a released surface yields nothing.
pub open spec fn release_plan(s: CapturedSurface) -> Seq<ReleaseAction> {
    (if s.paint_handle is Some {
        seq![ReleaseAction::FreePaint(s.paint_handle.unwrap())]
    } else {
        Seq::empty()
    }) + (if s.surface_handle is Some {
        seq![ReleaseAction::FreeBuffer(s.surface_handle.unwrap())]
    } else {
        Seq::empty()
    }) + (if s.invalidation_handle is Some {
        seq![ReleaseAction::DestroyInvalidation(s.invalidation_handle.unwrap())]
    } else {
        Seq::empty()
    }) + (if s.redirected {
        seq![ReleaseAction::DisableRedirect(s.source_id)]
    } else {
        Seq::empty()
    })
}

/// Assemble an acquired surface from the five step outcomes, or report the
/// failure together with the frees that undo the partial allocation.
///
/// The surface's dimensions come from the buffer's reported geometry; the
/// caller-supplied nominal size plays no part in the result.
pub fn acquire(source_id: u32, nominal_width: u16, nominal_height: u16, attempt: &AcquireAttempt)
    -> (r: (Result<CapturedSurface, XposeError>, Vec<ReleaseAction>))
    ensures
        acquire_complete(*attempt) ==> ({
            &&& r.0 is Ok
            &&& r.0.unwrap().source_id == source_id
            &&& r.0.unwrap().redirected
            &&& r.0.unwrap().surface_handle == attempt.buffer
            &&& r.0.unwrap().paint_handle == attempt.paint
            &&& r.0.unwrap().invalidation_handle == attempt.invalidation
            &&& r.0.unwrap().content_width == attempt.geometry.unwrap().width
            &&& r.0.unwrap().content_height == attempt.geometry.unwrap().height
            &&& !r.0.unwrap().is_placeholder
            &&& r.0.unwrap().wf()
            &&& r.1@ =~= Seq::<ReleaseAction>::empty()
        }),
        !acquire_complete(*attempt) ==> ({
            &&& r.0 == Err::<CapturedSurface, XposeError>(XposeError::RequestFailed)
            &&& r.1@ =~= acquire_cleanup(*attempt)
        }),
{
    let _ = nominal_width;
    let _ = nominal_height;
    if attempt.redirected && attempt.buffer.is_some() && attempt.geometry.is_some()
        && attempt.paint.is_some() && attempt.invalidation.is_some() {
        let g = attempt.geometry.unwrap();
        let surface = CapturedSurface {
            source_id,
            redirected: true,
            surface_handle: attempt.buffer,
            paint_handle: attempt.paint,
            invalidation_handle: attempt.invalidation,
            content_width: g.width,
            content_height: g.height,
            is_placeholder: false,
        };
        (Ok(surface), Vec::new())
    } else {
        let mut cleanup: Vec<ReleaseAction> = Vec::new();
        if let Some(p) = attempt.paint {
            cleanup.push(ReleaseAction::FreePaint(p));
        }
        if let Some(d) = attempt.invalidation {
            cleanup.push(ReleaseAction::DestroyInvalidation(d));
        }
        if let Some(b) = attempt.buffer {
            cleanup.push(ReleaseAction::FreeBuffer(b));
        }
        (Err(XposeError::RequestFailed), cleanup)
    }
}

/// Assemble a placeholder surface around a fresh solid-fill buffer of the
/// fallback size, or report the failure with the frees that undo it. The
/// placeholder still registers for invalidation so a later redraw of the
/// window gives it a chance to upgrade.
pub fn acquire_placeholder(
    source_id: u32,
    fallback_width: u16,
    fallback_height: u16,
    attempt: &AcquireAttempt,
) -> (r: (Result<CapturedSurface, XposeError>, Vec<ReleaseAction>))
    ensures
        placeholder_complete(*attempt) ==> ({
            &&& r.0 is Ok
            &&& r.0.unwrap().source_id == source_id
            &&& r.0.unwrap().redirected == attempt.redirected
            &&& r.0.unwrap().surface_handle == attempt.buffer
            &&& r.0.unwrap().paint_handle == attempt.paint
            &&& r.0.unwrap().invalidation_handle == attempt.invalidation
            &&& r.0.unwrap().content_width == fallback_width
            &&& r.0.unwrap().content_height == fallback_height
            &&& r.0.unwrap().is_placeholder
            &&& r.0.unwrap().wf()
            &&& r.1@ =~= Seq::<ReleaseAction>::empty()
        }),
        !placeholder_complete(*attempt) ==> ({
            &&& r.0 == Err::<CapturedSurface, XposeError>(XposeError::RequestFailed)
            &&& r.1@ =~= acquire_cleanup(*attempt)
        }),
{
    if attempt.buffer.is_some() && attempt.paint.is_some() && attempt.invalidation.is_some() {
        let surface = CapturedSurface {
            source_id,
            redirected: attempt.redirected,
            surface_handle: attempt.buffer,
            paint_handle: attempt.paint,
            invalidation_handle: attempt.invalidation,
            content_width: fallback_width,
            content_height: fallback_height,
            is_placeholder: true,
        };
        (Ok(surface), Vec::new())
    } else {
        let mut cleanup: Vec<ReleaseAction> = Vec::new();
        if let Some(p) = attempt.paint {
            cleanup.push(ReleaseAction::FreePaint(p));
        }
        if let Some(d) = attempt.invalidation {
            cleanup.push(ReleaseAction::DestroyInvalidation(d));
        }
        if let Some(b) = attempt.buffer {
            cleanup.push(ReleaseAction::FreeBuffer(b));
        }
        (Err(XposeError::RequestFailed), cleanup)
    }
}

/// Try to replace the surface's content with a fresh capture. On a complete
/// attempt the handles and dimensions are swapped in, the placeholder flag
/// is cleared, and the previous handles are handed back to be freed — only
/// now that the replacement is confirmed. On an incomplete attempt the
/// surface is left untouched and only the fresh partial resources are freed.
pub fn try_upgrade(surface: &mut CapturedSurface, attempt: &UpgradeAttempt) -> (r: (
    bool,
    Vec<ReleaseAction>,
))
    ensures
        upgrade_complete(*attempt) ==> ({
            &&& r.0
            &&& final(surface).source_id == old(surface).source_id
            &&& final(surface).redirected == old(surface).redirected
            &&& final(surface).invalidation_handle == old(surface).invalidation_handle
            &&& final(surface).surface_handle == attempt.buffer
            &&& final(surface).paint_handle == attempt.paint
            &&& final(surface).content_width == attempt.geometry.unwrap().width
            &&& final(surface).content_height == attempt.geometry.unwrap().height
            &&& !final(surface).is_placeholder
            &&& r.1@ =~= replaced_frees(*old(surface))
        }),
        !upgrade_complete(*attempt) ==> ({
            &&& !r.0
            &&& *final(surface) == *old(surface)
            &&& r.1@ =~= upgrade_cleanup(*attempt)
        }),
        old(surface).wf() ==> final(surface).wf(),
{
    if attempt.buffer.is_some() && attempt.geometry.is_some() && attempt.paint.is_some() {
        let mut frees: Vec<ReleaseAction> = Vec::new();
        if let Some(p) = surface.paint_handle {
            frees.push(ReleaseAction::FreePaint(p));
        }
        if let Some(b) = surface.surface_handle {
            frees.push(ReleaseAction::FreeBuffer(b));
        }
        let g = attempt.geometry.unwrap();
        surface.surface_handle = attempt.buffer;
        surface.paint_handle = attempt.paint;
        surface.content_width = g.width;
        surface.content_height = g.height;
        surface.is_placeholder = false;
        (true, frees)
    } else {
        let mut frees: Vec<ReleaseAction> = Vec::new();
        if let Some(p) = attempt.paint {
            frees.push(ReleaseAction::FreePaint(p));
        }
        if let Some(b) = attempt.buffer {
            frees.push(ReleaseAction::FreeBuffer(b));
        }
        (false, frees)
    }
}

/// Refresh a surface's content after an invalidation notification. Same
/// replacement policy as an upgrade: the previous handles are retained and
/// the refresh dropped when the fresh capture is incomplete, so the surface
/// is never momentarily without valid handles; the error is propagated for
/// the frame loop to log and skip.
pub fn refresh(surface: &mut CapturedSurface, attempt: &UpgradeAttempt) -> (r: (
    Result<(), XposeError>,
    Vec<ReleaseAction>,
))
    ensures
        upgrade_complete(*attempt) ==> ({
            &&& r.0 is Ok
            &&& final(surface).source_id == old(surface).source_id
            &&& final(surface).redirected == old(surface).redirected
            &&& final(surface).invalidation_handle == old(surface).invalidation_handle
            &&& final(surface).surface_handle == attempt.buffer
            &&& final(surface).paint_handle == attempt.paint
            &&& final(surface).content_width == attempt.geometry.unwrap().width
            &&& final(surface).content_height == attempt.geometry.unwrap().height
            &&& !final(surface).is_placeholder
            &&& r.1@ =~= replaced_frees(*old(surface))
        }),
        !upgrade_complete(*attempt) ==> ({
            &&& r.0 == Err::<(), XposeError>(XposeError::RequestFailed)
            &&& *final(surface) == *old(surface)
            &&& r.1@ =~= upgrade_cleanup(*attempt)
        }),
        old(surface).wf() ==> final(surface).wf(),
{
    let (upgraded, frees) = try_upgrade(surface, attempt);
    if upgraded {
        (Ok(()), frees)
    } else {
        (Err(XposeError::RequestFailed), frees)
    }
}

/// Release a surface: hand back one action per resource actually held —
/// paint handle, buffer, invalidation registration, then the redirection —
/// and put the surface in its terminal state. The caller attempts every
/// action even if an earlier one fails; partial cleanup is worse than a
/// logged failure.
pub fn release(surface: &mut CapturedSurface) -> (plan: Vec<ReleaseAction>)
    ensures
        plan@ =~= release_plan(*old(surface)),
        final(surface).released(),
        final(surface).wf(),
        final(surface).source_id == old(surface).source_id,
{
    let mut plan: Vec<ReleaseAction> = Vec::new();
    if let Some(p) = surface.paint_handle {
        plan.push(ReleaseAction::FreePaint(p));
    }
    if let Some(b) = surface.surface_handle {
        plan.push(ReleaseAction::FreeBuffer(b));
    }
    if let Some(d) = surface.invalidation_handle {
        plan.push(ReleaseAction::DestroyInvalidation(d));
    }
    if surface.redirected {
        plan.push(ReleaseAction::DisableRedirect(surface.source_id));
    }
    surface.paint_handle = None;
    surface.surface_handle = None;
    surface.invalidation_handle = None;
    surface.redirected = false;
    plan
}

/// Law: releasing is safe to repeat — a surface in the terminal state holds
/// nothing, so a second release plan is empty and frees nothing twice.
pub proof fn lemma_release_terminal_is_empty(s: CapturedSurface)
    requires
        s.released(),
    ensures
        release_plan(s) =~= Seq::<ReleaseAction>::empty(),
{
}

/// Law: a release plan covers every held resource — nothing is leaked, and
/// each of the four constituent operations appears whenever its resource is
/// held, independently of the others.
pub proof fn lemma_release_plan_complete(s: CapturedSurface)
    ensures
        s.paint_handle is Some ==> release_plan(s).contains(
            ReleaseAction::FreePaint(s.paint_handle.unwrap()),
        ),
        s.surface_handle is Some ==> release_plan(s).contains(
            ReleaseAction::FreeBuffer(s.surface_handle.unwrap()),
        ),
        s.invalidation_handle is Some ==> release_plan(s).contains(
            ReleaseAction::DestroyInvalidation(s.invalidation_handle.unwrap()),
        ),
        s.redirected ==> release_plan(s).contains(ReleaseAction::DisableRedirect(s.source_id)),
{
    let plan = release_plan(s);
    if s.paint_handle is Some {
        assert(plan[0] == ReleaseAction::FreePaint(s.paint_handle.unwrap()));
    }
    if s.surface_handle is Some {
        let i = if s.paint_handle is Some {
            1int
        } else {
            0int
        };
        assert(plan[i] == ReleaseAction::FreeBuffer(s.surface_handle.unwrap()));
    }
    if s.invalidation_handle is Some {
        let i = (if s.paint_handle is Some {
            1int
        } else {
            0int
        }) + (if s.surface_handle is Some {
            1int
        } else {
            0int
        });
        assert(plan[i] == ReleaseAction::DestroyInvalidation(s.invalidation_handle.unwrap()));
    }
    if s.redirected {
        let i = plan.len() - 1;
        assert(plan[i] == ReleaseAction::DisableRedirect(s.source_id));
    }
}

} // verus!
