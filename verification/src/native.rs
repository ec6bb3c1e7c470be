//! The native fast-path backend: decision logic for the atomic beneath-root
//! open, its bounded retry loop, outcome classification, and the process-wide
//! monotonic record of whether the primitive exists at all.
//!
//! The kernel call itself is issued by a driver outside this crate; it feeds
//! each outcome back in as a [`NativeOutcome`] and performs the step handed
//! back. Every decision the fast path makes — retry on the transient
//! concurrent-rename condition, translate a cross-device report into an
//! escape detection, fall back when a sandbox policy blocks the call shape,
//! permanently mark a missing primitive — is made here, under contract.

use vstd::prelude::*;
use crate::errors::ResolutionError;
use crate::options::{OpenOptions, compute_oflags, creation_mode, oflags_valid, oflags_of,
    creation_mode_of, ERRNO_INVALID};

verus! {

// Raw OS error numbers the native call's failures are classified by, with
// their usual Linux values.
pub const ERRNO_PERM: i32 = 1;
pub const ERRNO_AGAIN: i32 = 11;
pub const ERRNO_XDEV: i32 = 18;
pub const ERRNO_NOSYS: i32 = 38;

// Resolve-restriction bits handed to the native call: stay beneath the
// starting directory, and refuse kernel-magic links.
pub const RESOLVE_BENEATH: u64 = 0x08;
pub const RESOLVE_NO_MAGICLINKS: u64 = 0x02;

/// How many times the identical native call is issued in all when the kernel
/// keeps reporting the transient "a concurrent rename interrupted me"
/// condition, before giving up and using the manual walker.
pub const NATIVE_RETRY_ATTEMPTS: u64 = 4;

/// The process-wide record of whether the native primitive is known to be
/// missing from the running kernel. It starts clear and supports only the
/// one-way transition to "known unsupported": absence of a primitive is a
/// permanent property of the kernel, so the flag is never cleared.
pub struct SupportFlag {
    known_unsupported: bool,
}

impl SupportFlag {
    pub closed spec fn spec_known_unsupported(&self) -> bool {
        self.known_unsupported
    }

    pub fn new() -> (r: SupportFlag)
        ensures
            !r.spec_known_unsupported(),
    {
        SupportFlag { known_unsupported: false }
    }

    pub fn is_known_unsupported(&self) -> (r: bool)
        ensures
            r == self.spec_known_unsupported(),
    {
        self.known_unsupported
    }

    /// Record that the kernel reported the primitive as not implemented.
    /// The transition is one-way: there is no operation that clears it.
    pub fn mark_unsupported(&mut self)
        ensures
            final(self).spec_known_unsupported(),
    {
        self.known_unsupported = true;
    }
}

/// What the kernel reported for one issue of the native call, as plain
/// values extracted by the driver: success, or a failure with its raw OS
/// error number (when one exists) and its text.
pub enum NativeOutcome {
    Opened,
    Failed { errno: Option<i32>, message: String },
}

/// Where one classified failure sends the resolution next.
#[derive(Clone, Copy, Debug, PartialEq, Eq, Structural)]
pub enum NativeDisposition {
    /// Transient concurrent-rename condition: reissue the identical call.
    Retry,
    /// The kernel detected a cross-device crossing during beneath-root
    /// resolution: a successful escape detection, not an ordinary error.
    Escape,
    /// A sandboxing policy blocked this call shape; use the manual walker,
    /// but do not mark the primitive unsupported in general.
    FallbackBlocked,
    /// The kernel does not implement the primitive at all; mark it so
    /// permanently and use the manual walker.
    FallbackUnsupported,
    /// Any other error is surfaced unchanged.
    Surface,
}

pub open spec fn classify_spec(errno: i32) -> NativeDisposition {
    if errno == ERRNO_AGAIN {
        NativeDisposition::Retry
    } else if errno == ERRNO_XDEV {
        NativeDisposition::Escape
    } else if errno == ERRNO_PERM {
        NativeDisposition::FallbackBlocked
    } else if errno == ERRNO_NOSYS {
        NativeDisposition::FallbackUnsupported
    } else {
        NativeDisposition::Surface
    }
}

/// Classify a raw OS error from the native call.
pub fn classify_native_errno(errno: i32) -> (d: NativeDisposition)
    ensures
        d == classify_spec(errno),
{
    if errno == ERRNO_AGAIN {
        NativeDisposition::Retry
    } else if errno == ERRNO_XDEV {
        NativeDisposition::Escape
    } else if errno == ERRNO_PERM {
        NativeDisposition::FallbackBlocked
    } else if errno == ERRNO_NOSYS {
        NativeDisposition::FallbackUnsupported
    } else {
        NativeDisposition::Surface
    }
}

/// Whether an outcome is the kernel's "primitive not implemented" report,
/// the only report that moves the support flag.
pub open spec fn is_nosys_report(outcome: NativeOutcome) -> bool {
    outcome matches NativeOutcome::Failed { errno: Some(e), .. } && e == ERRNO_NOSYS
}

/// One resolution's native attempt: the flag and mode bits computed once up
/// front (each retry reissues the identical call unchanged) and how many
/// issues of the call remain in the budget.
pub struct NativeAttempt {
    attempts_left: u64,
    oflags: u64,
    mode: u32,
}

impl NativeAttempt {
    pub closed spec fn attempts_left(&self) -> u64 {
        self.attempts_left
    }

    pub closed spec fn oflags(&self) -> u64 {
        self.oflags
    }

    pub closed spec fn mode(&self) -> u32 {
        self.mode
    }

    pub open spec fn wf(&self) -> bool {
        self.attempts_left() <= NATIVE_RETRY_ATTEMPTS
    }
}

/// The driver's next move in the fast path.
pub enum NativeStep {
    /// Issue the native beneath-root call with these flag, mode and
    /// resolve-restriction bits.
    CallNative { oflags: u64, mode: u32, resolve: u64 },
    /// Resolve with the manual walker instead; the caller never sees that
    /// the fast path was tried.
    UseFallback,
    /// Hand this error to the caller.
    Fail { error: ResolutionError },
    /// The native call opened the handle: resolution is complete.
    Resolved,
}

/// Begin the fast path for one resolution. When the primitive is already
/// known to be unsupported the native call is skipped entirely; when the
/// intent is invalid the error surfaces before any call; otherwise the first
/// of at most [`NATIVE_RETRY_ATTEMPTS`] identical calls is requested.
pub fn native_begin(flag: &SupportFlag, options: &OpenOptions) -> (r: (NativeAttempt, NativeStep))
    ensures
        r.0.wf(),
        flag.spec_known_unsupported() ==> r.1 == NativeStep::UseFallback,
        (!flag.spec_known_unsupported() && oflags_valid(*options)) ==> {
            &&& r.1 == (NativeStep::CallNative {
                oflags: oflags_of(*options),
                mode: creation_mode_of(*options),
                resolve: RESOLVE_BENEATH | RESOLVE_NO_MAGICLINKS,
            })
            &&& r.0.attempts_left() == NATIVE_RETRY_ATTEMPTS
            &&& r.0.oflags() == oflags_of(*options)
            &&& r.0.mode() == creation_mode_of(*options)
        },
        (!flag.spec_known_unsupported() && !oflags_valid(*options)) ==> (r.1 matches
            NativeStep::Fail { error: ResolutionError::Io { errno, message } } && errno == Some(
        ERRNO_INVALID) && message@ == "invalid open options"@),
{
    if flag.is_known_unsupported() {
        return (NativeAttempt { attempts_left: 0, oflags: 0, mode: 0 }, NativeStep::UseFallback);
    }
    let oflags = match compute_oflags(options) {
        Ok(f) => f,
        Err(e) => {
            return (
                NativeAttempt { attempts_left: 0, oflags: 0, mode: 0 },
                NativeStep::Fail { error: e },
            );
        },
    };
    let mode = creation_mode(options);
    (
        NativeAttempt { attempts_left: NATIVE_RETRY_ATTEMPTS, oflags, mode },
        NativeStep::CallNative { oflags, mode, resolve: RESOLVE_BENEATH | RESOLVE_NO_MAGICLINKS },
    )
}

/// Advance the fast path by one kernel-reported outcome.
///
/// Success completes the resolution. A failure with a raw OS error is
/// classified: the transient condition reissues the identical call while
/// budget remains and otherwise falls back to the walker; a cross-device
/// report is surfaced as an escape detection; a blocked call shape falls
/// back without touching the support flag; a missing primitive marks the
/// flag permanently and falls back; anything else is surfaced unchanged, as
/// is a failure that carries no OS error number. The backend-internal
/// "unsupported" signal is never surfaced as an error.
pub fn native_on_outcome(att: &mut NativeAttempt, flag: &mut SupportFlag, outcome: NativeOutcome)
    -> (step: NativeStep)
    requires
        old(att).wf(),
    ensures
        final(att).wf(),
        // the support flag moves exactly on the "not implemented" report, one way
        final(flag).spec_known_unsupported() == (old(flag).spec_known_unsupported()
            || is_nosys_report(outcome)),
        // the attempt budget never grows, and each reissued call consumes some of it
        final(att).attempts_left() <= old(att).attempts_left(),
        (step matches NativeStep::CallNative { .. }) ==> final(att).attempts_left() < old(
            att,
        ).attempts_left(),
        // the internal fallback signal is never surfaced to a caller
        !(step matches NativeStep::Fail { error: ResolutionError::Unsupported }),
        match outcome {
            NativeOutcome::Opened => step == NativeStep::Resolved,
            NativeOutcome::Failed { errno, message } => match errno {
                Some(e) => match classify_spec(e) {
                    NativeDisposition::Retry => if old(att).attempts_left() > 1 {
                        &&& step == (NativeStep::CallNative {
                            oflags: old(att).oflags(),
                            mode: old(att).mode(),
                            resolve: RESOLVE_BENEATH | RESOLVE_NO_MAGICLINKS,
                        })
                        &&& final(att).attempts_left() == old(att).attempts_left() - 1
                    } else {
                        step == NativeStep::UseFallback
                    },
                    NativeDisposition::Escape => step == (NativeStep::Fail {
                        error: ResolutionError::EscapeAttempt,
                    }),
                    NativeDisposition::FallbackBlocked => step == NativeStep::UseFallback,
                    NativeDisposition::FallbackUnsupported => step == NativeStep::UseFallback,
                    NativeDisposition::Surface => step == (NativeStep::Fail {
                        error: ResolutionError::Io { errno: Some(e), message },
                    }),
                },
                None => step == (NativeStep::Fail {
                    error: ResolutionError::Io { errno: None, message },
                }),
            },
        },
{
    match outcome {
        NativeOutcome::Opened => NativeStep::Resolved,
        NativeOutcome::Failed { errno, message } => match errno {
            Some(e) => match classify_native_errno(e) {
                NativeDisposition::Retry => {
                    if att.attempts_left > 1 {
                        att.attempts_left = att.attempts_left - 1;
                        NativeStep::CallNative {
                            oflags: att.oflags,
                            mode: att.mode,
                            resolve: RESOLVE_BENEATH | RESOLVE_NO_MAGICLINKS,
                        }
                    } else {
                        NativeStep::UseFallback
                    }
                },
                NativeDisposition::Escape => NativeStep::Fail {
                    error: ResolutionError::EscapeAttempt,
                },
                NativeDisposition::FallbackBlocked => NativeStep::UseFallback,
                NativeDisposition::FallbackUnsupported => {
                    flag.mark_unsupported();
                    NativeStep::UseFallback
                },
                NativeDisposition::Surface => NativeStep::Fail {
                    error: ResolutionError::Io { errno: Some(e), message },
                },
            },
            None => NativeStep::Fail { error: ResolutionError::Io { errno: None, message } },
        },
    }
}

/// How the support flag evolves across a sequence of kernel reports.
pub open spec fn flag_after_reports(before: bool, reports: Seq<NativeOutcome>) -> bool
    decreases reports.len(),
{
    if reports.len() == 0 {
        before
    } else {
        flag_after_reports(before || is_nosys_report(reports[0]), reports.skip(1))
    }
}

/// Monotonic-support law: once the primitive has been marked unsupported, no
/// sequence of further kernel reports ever clears the mark — and a marked
/// flag makes [`native_begin`] skip the native call entirely, so the native
/// path is never re-attempted in this process.
pub proof fn lemma_support_monotonic(reports: Seq<NativeOutcome>)
    ensures
        flag_after_reports(true, reports),
    decreases reports.len(),
{
    if reports.len() > 0 {
        lemma_support_monotonic(reports.skip(1));
    }
}

} // verus!
