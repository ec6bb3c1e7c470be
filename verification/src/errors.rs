//! The closed error taxonomy shared by every resolution backend.

use vstd::prelude::*;

verus! {

/// Outcome vocabulary for sandboxed resolution.
///
/// `EscapeAttempt` and `SymlinkLoop` are security-relevant detections and are
/// always surfaced to callers; `Unsupported` is internal backend signalling
/// ("try the fallback") and is never handed to a top-level caller; `Io`
/// passes an ordinary filesystem error through unchanged, as the raw OS
/// error number (when one exists) together with the error's text.
#[derive(Clone, Debug)]
pub enum ResolutionError {
    /// Resolution would leave the capability's subtree.
    EscapeAttempt,
    /// The symlink expansion budget was exceeded.
    SymlinkLoop,
    /// The native primitive is unavailable for this call shape or kernel;
    /// resolution falls back to the manual walker instead of surfacing this.
    Unsupported,
    /// An ordinary filesystem error, passed through unchanged.
    Io { errno: Option<i32>, message: String },
}

impl ResolutionError {
    pub fn is_escape_attempt(&self) -> (r: bool)
        ensures
            r <==> (*self matches ResolutionError::EscapeAttempt),
    {
        matches!(self, ResolutionError::EscapeAttempt)
    }

    pub fn is_symlink_loop(&self) -> (r: bool)
        ensures
            r <==> (*self matches ResolutionError::SymlinkLoop),
    {
        matches!(self, ResolutionError::SymlinkLoop)
    }

    pub fn is_unsupported(&self) -> (r: bool)
        ensures
            r <==> (*self matches ResolutionError::Unsupported),
    {
        matches!(self, ResolutionError::Unsupported)
    }

    pub fn is_io(&self) -> (r: bool)
        ensures
            r <==> (*self matches ResolutionError::Io { .. }),
    {
        matches!(self, ResolutionError::Io { .. })
    }
}

} // verus!
