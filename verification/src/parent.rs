//! Parent decomposition for mutating operations: all but the last component
//! resolve to an open parent directory handle, and the last component stays a
//! plain name. The terminal syscall is issued against that (handle, name)
//! pair, never a concatenated path, so no time-of-check/time-of-use window
//! opens between resolving the target and mutating it: a concurrent rename
//! can change *which* direct child the name denotes, but never make the
//! mutation act outside the resolved parent. An operation on two paths
//! (rename, link) decomposes each side independently under the same rule.

use vstd::prelude::*;
use crate::divergence::FileId;
use crate::errors::ResolutionError;
use crate::options::ERRNO_INVALID;
use crate::path::{Component, ComponentModel, models, parse_components, parse_rec, flush_name,
    is_cur_dir_name, is_parent_name, SLASH};

verus! {

/// A name a terminal syscall can act on: nonempty, free of separators, and
/// neither of the special names, so it denotes exactly one direct child of
/// the directory handle it is used with.
pub open spec fn plain_name(name: Seq<u8>) -> bool {
    &&& name.len() > 0
    &&& !is_cur_dir_name(name)
    &&& !is_parent_name(name)
    &&& forall|i: int| 0 <= i < name.len() ==> name[i] != SLASH
}

pub open spec fn all_components_plain(s: Seq<ComponentModel>) -> bool {
    forall|i: int|
        0 <= i < s.len() ==> ((#[trigger] s[i]) matches ComponentModel::Normal(n) ==> plain_name(
            n,
        ))
}

proof fn lemma_parse_rec_plain(s: Seq<u8>, cur: Seq<u8>)
    requires
        forall|i: int| 0 <= i < cur.len() ==> cur[i] != SLASH,
    ensures
        all_components_plain(parse_rec(s, cur)),
    decreases s.len(),
{
    if s.len() == 0 {
        assert(all_components_plain(flush_name(cur)));
    } else if s[0] == SLASH {
        lemma_parse_rec_plain(s.skip(1), Seq::empty());
        let a = flush_name(cur);
        let b = parse_rec(s.skip(1), Seq::empty());
        assert(all_components_plain(a));
        assert forall|i: int| 0 <= i < (a + b).len() implies ((#[trigger] (a + b)[i]) matches
            ComponentModel::Normal(n) ==> plain_name(n)) by {
            if i < a.len() {
                assert((a + b)[i] == a[i]);
            } else {
                assert((a + b)[i] == b[i - a.len()]);
            }
        }
    } else {
        lemma_parse_rec_plain(s.skip(1), cur.push(s[0]));
    }
}

/// Every normal component a path parses to is a plain name: the parser
/// splits on separators and strips the special names, so whatever the walker
/// or a terminal syscall is handed denotes one direct child at a time.
pub proof fn lemma_parsed_components_plain(s: Seq<u8>)
    ensures
        all_components_plain(parse_components(s)),
{
    lemma_parse_rec_plain(s, Seq::empty());
}

/// Split a mutation path into (parent components, final name). The final
/// component must be a plain name — a path with no final component, or one
/// ending in a parent step, cannot name a mutation target and is rejected —
/// and the parent components are resolved like any other path before the
/// terminal syscall runs against (parent handle, name).
pub fn split_parent(components: Vec<Component>) -> (r: Result<
    (Vec<Component>, Vec<u8>),
    ResolutionError,
>)
    ensures
        match r {
            Ok((parent, name)) => {
                &&& models(components@).len() > 0
                &&& models(components@).last() == ComponentModel::Normal(name@)
                &&& models(parent@) == models(components@).drop_last()
                &&& all_components_plain(models(components@)) ==> plain_name(name@)
            },
            Err(e) => {
                &&& (models(components@).len() == 0 || models(components@).last()
                    == ComponentModel::Parent)
                &&& (e matches ResolutionError::Io { errno, message } && errno == Some(
                    ERRNO_INVALID,
                ) && message@ == "mutation path must end in a plain name"@)
            },
        },
{
    let mut components = components;
    let ghost whole = components@;
    match components.pop() {
        None => Err(ResolutionError::Io {
            errno: Some(ERRNO_INVALID),
            message: "mutation path must end in a plain name".to_string(),
        }),
        Some(Component::Parent) => {
            assert(models(whole).last() == whole.last()@);
            Err(ResolutionError::Io {
                errno: Some(ERRNO_INVALID),
                message: "mutation path must end in a plain name".to_string(),
            })
        },
        Some(Component::Normal { name }) => {
            assert(models(whole).last() == whole.last()@);
            assert(models(components@) =~~= models(whole).drop_last());
            Ok((components, name))
        },
    }
}

/// An operation on two paths (rename, link) must decompose both sides under
/// the same root capability, compared by the roots' file identities: a pair
/// of handles under different roots is refused as an escape attempt, since
/// the mutation would otherwise bridge two authority domains.
pub fn check_same_capability(a: FileId, b: FileId) -> (r: Result<(), ResolutionError>)
    ensures
        a == b ==> r == Result::<(), ResolutionError>::Ok(()),
        a != b ==> r == Result::<(), ResolutionError>::Err(ResolutionError::EscapeAttempt),
{
    if a.dev == b.dev && a.ino == b.ino {
        Ok(())
    } else {
        Err(ResolutionError::EscapeAttempt)
    }
}

} // verus!
