//! The divergence-checking harness, active only in diagnostic builds: after
//! any fast-path success the same inputs are re-resolved by the manual walker
//! — with creation, create-new and truncation disabled, see
//! [`crate::options::OpenOptions::without_side_effects`] — and the two
//! results must name the same underlying file identity, so backend drift is
//! a hard failure instead of a silent security regression.

use vstd::prelude::*;
use crate::errors::ResolutionError;

verus! {

#[verifier::external_type_specification]
#[verifier::external_body]
pub struct ExIoError(std::io::Error);

#[verifier::external_type_specification]
#[verifier::external_body]
pub struct ExIoErrorKind(std::io::ErrorKind);

/// Relies on std::io::Error::kind: the error's category.
#[verifier::external_body]
fn io_error_kind(e: &std::io::Error) -> (k: std::io::ErrorKind) {
    e.kind()
}

/// Relies on std::io::Error's Display implementation, through ToString: the
/// error's human-readable text.
#[verifier::external_body]
fn io_error_message(e: &std::io::Error) -> (m: String) {
    e.to_string()
}

/// A file's identity: device and index node, as the platform reports them
/// for an open handle. Two handles name the same underlying file exactly
/// when both numbers match — identity comparison, never path-string
/// comparison.
#[derive(Clone, Copy, Debug, PartialEq, Eq, Structural)]
pub struct FileId {
    pub dev: u64,
    pub ino: u64,
}

/// Whether the two backends agree: true exactly when the walker's
/// re-resolution succeeded and named the same file identity the fast path
/// opened. Anything else — a walker failure, or a different identity — is
/// drift and must fail the diagnostic build.
pub fn backends_agree(fast: FileId, manual: &Result<FileId, ResolutionError>) -> (ok: bool)
    ensures
        ok <==> (*manual matches Ok(id) && id == fast),
{
    match manual {
        Ok(id) => id.dev == fast.dev && id.ino == fast.ino,
        Err(_) => false,
    }
}

/// Record an outcome in a comparable form: success keeps a clone of the
/// value, failure keeps the error's category and text.
pub fn map_result<T: Clone>(result: &std::io::Result<T>) -> (r: Result<
    T,
    (std::io::ErrorKind, String),
>)
    ensures
        r is Ok <==> (*result) is Ok,
        (*result) is Ok ==> cloned((*result)->Ok_0, r->Ok_0),
{
    match result {
        Ok(t) => Ok(t.clone()),
        Err(e) => Err((io_error_kind(e), io_error_message(e))),
    }
}

} // verus!
