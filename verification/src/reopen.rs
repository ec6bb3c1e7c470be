//! Reopen planning: obtaining an independent handle, with different open
//! intent, for a file that is already open. Platform introspection may
//! recover a resolvable path for the handle; that path is advisory — it is
//! re-resolved in full against an ambient root used only for this narrow
//! case, never trusted directly. When nothing can be recovered the attempt
//! fails with a distinguished error: the original handle is never returned
//! with different semantics.

use vstd::prelude::*;
use crate::errors::ResolutionError;
use crate::path::{Component, models, parse_components, parse_unrooted};

verus! {

/// Decide the recovery step of a reopen. `recovered` is what introspection
/// found for the handle, if anything: the component sequence to re-resolve
/// against the ambient root, or the distinguished "could not reopen"
/// failure.
pub fn reopen_plan(recovered: Option<&[u8]>) -> (r: Result<Vec<Component>, ResolutionError>)
    ensures
        match recovered {
            Some(path) => (r matches Ok(comps) && models(comps@) == parse_components(path@)),
            None => (r matches Err(ResolutionError::Io { errno, message }) && errno is None
                && message@ == "could not reopen file"@),
        },
{
    match recovered {
        Some(path) => Ok(parse_unrooted(path)),
        None => Err(ResolutionError::Io {
            errno: None,
            message: "could not reopen file".to_string(),
        }),
    }
}

} // verus!
