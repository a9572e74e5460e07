//! Error kinds of the capture/composite core and their severity taxonomy.
//!
//! Failures fall into three bands: fatal ones end the session (a missing or
//! too-old extension, a lost connection), per-window ones only cost the one
//! window (a failed acquisition or refresh), and transient ones are silently
//! retried on a later tick (a failed placeholder upgrade).

use vstd::prelude::*;

verus! {

/// An error of the overview core.
#[derive(Clone, Copy, Debug, PartialEq, Eq, Structural)]
pub enum XposeError {
    /// The redirection (composite) extension is absent.
    NoComposite,
    /// The redirection extension is present but its version is too old.
    CompositeVersionTooLow,
    /// The compositing-rendering (render) extension is absent.
    NoRender,
    /// The invalidation (damage) extension is absent.
    NoDamage,
    /// No advertised pixel format matches the display's depth with a direct
    /// color model.
    NoPictFormat,
    /// No windows were found to display.
    NoWindows,
    /// The display-server connection broke.
    ConnectionLost,
    /// A single request failed, typically because its window disappeared.
    RequestFailed,
    /// A best-effort placeholder upgrade did not succeed yet.
    UpgradeFailed,
}

/// How an error is to be handled by the frame loop.
#[derive(Clone, Copy, Debug, PartialEq, Eq, Structural)]
pub enum Severity {
    /// Abort the session; no retry.
    Fatal,
    /// Log, substitute a placeholder or skip the window this frame, continue.
    PerWindowRecoverable,
    /// Retry silently on a future tick; never surfaced to the user.
    Transient,
}

impl XposeError {
    /// The severity band an error falls under.
    pub open spec fn spec_severity(self) -> Severity {
        match self {
            XposeError::NoComposite => Severity::Fatal,
            XposeError::CompositeVersionTooLow => Severity::Fatal,
            XposeError::NoRender => Severity::Fatal,
            XposeError::NoDamage => Severity::Fatal,
            XposeError::NoPictFormat => Severity::Fatal,
            XposeError::NoWindows => Severity::Fatal,
            XposeError::ConnectionLost => Severity::Fatal,
            XposeError::RequestFailed => Severity::PerWindowRecoverable,
            XposeError::UpgradeFailed => Severity::Transient,
        }
    }

    /// Classify an error for the frame loop: fatal errors terminate the
    /// session, per-window errors skip one paint, transient errors are
    /// retried later.
    pub fn severity(&self) -> (s: Severity)
        ensures
            s == self.spec_severity(),
    {
        match self {
            XposeError::NoComposite => Severity::Fatal,
            XposeError::CompositeVersionTooLow => Severity::Fatal,
            XposeError::NoRender => Severity::Fatal,
            XposeError::NoDamage => Severity::Fatal,
            XposeError::NoPictFormat => Severity::Fatal,
            XposeError::NoWindows => Severity::Fatal,
            XposeError::ConnectionLost => Severity::Fatal,
            XposeError::RequestFailed => Severity::PerWindowRecoverable,
            XposeError::UpgradeFailed => Severity::Transient,
        }
    }

    /// A human-readable description, in place of a `Display` impl.
    pub fn message(&self) -> String {
        match self {
            XposeError::NoComposite => "composite extension not available".to_string(),
            XposeError::CompositeVersionTooLow => {
                "composite extension version too old".to_string()
            },
            XposeError::NoRender => "render extension not available".to_string(),
            XposeError::NoDamage => "damage extension not available".to_string(),
            XposeError::NoPictFormat => "no suitable picture format".to_string(),
            XposeError::NoWindows => "no windows found to display".to_string(),
            XposeError::ConnectionLost => "display-server connection lost".to_string(),
            XposeError::RequestFailed => "request failed".to_string(),
            XposeError::UpgradeFailed => "placeholder upgrade not ready".to_string(),
        }
    }
}

} // verus!
