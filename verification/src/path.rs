//! Untrusted caller paths, parsed into the component sequence the walker
//! consumes: separators split names, empty names and `.` are dropped, `..`
//! becomes an explicit parent step, and an absolute path is rejected.

use vstd::prelude::*;
use crate::errors::ResolutionError;

verus! {

pub const SLASH: u8 = 47;

pub const DOT: u8 = 46;

/// One parsed component: a plain name to open, or a step to the parent.
#[derive(Clone, Debug)]
pub enum Component {
    Normal { name: Vec<u8> },
    Parent,
}

/// The mathematical form of a component.
#[verifier::ext_equal]
pub enum ComponentModel {
    Normal(Seq<u8>),
    Parent,
}

impl View for Component {
    type V = ComponentModel;

    open spec fn view(&self) -> ComponentModel {
        match self {
            Component::Normal { name } => ComponentModel::Normal(name@),
            Component::Parent => ComponentModel::Parent,
        }
    }
}

/// The mathematical form of a parsed component sequence.
pub open spec fn models(s: Seq<Component>) -> Seq<ComponentModel> {
    s.map_values(|c: Component| c@)
}

pub open spec fn is_cur_dir_name(name: Seq<u8>) -> bool {
    name.len() == 1 && name[0] == DOT
}

pub open spec fn is_parent_name(name: Seq<u8>) -> bool {
    name.len() == 2 && name[0] == DOT && name[1] == DOT
}

/// What one separated name contributes: nothing for an empty name or `.`,
/// a parent step for `..`, and otherwise itself.
pub open spec fn classify_name(name: Seq<u8>) -> Option<ComponentModel> {
    if name.len() == 0 || is_cur_dir_name(name) {
        None
    } else if is_parent_name(name) {
        Some(ComponentModel::Parent)
    } else {
        Some(ComponentModel::Normal(name))
    }
}

pub open spec fn flush_name(name: Seq<u8>) -> Seq<ComponentModel> {
    match classify_name(name) {
        None => Seq::empty(),
        Some(c) => seq![c],
    }
}

/// The parse of the remaining bytes `s`, with `cur` the name read so far.
pub open spec fn parse_rec(s: Seq<u8>, cur: Seq<u8>) -> Seq<ComponentModel>
    decreases s.len(),
{
    if s.len() == 0 {
        flush_name(cur)
    } else if s[0] == SLASH {
        flush_name(cur) + parse_rec(s.skip(1), Seq::empty())
    } else {
        parse_rec(s.skip(1), cur.push(s[0]))
    }
}

/// The component sequence a byte path parses to.
pub open spec fn parse_components(s: Seq<u8>) -> Seq<ComponentModel> {
    parse_rec(s, Seq::empty())
}

pub open spec fn is_absolute(s: Seq<u8>) -> bool {
    s.len() > 0 && s[0] == SLASH
}

/// Append the component (if any) that one separated name contributes.
fn classify_push(comps: &mut Vec<Component>, cur: Vec<u8>)
    ensures
        models(final(comps)@) == models(old(comps)@) + flush_name(cur@),
{
    let ghost before = old(comps)@;
    if cur.len() == 0 || (cur.len() == 1 && cur[0] == DOT) {
        assert(models(comps@) =~~= models(before) + flush_name(cur@));
    } else if cur.len() == 2 && cur[0] == DOT && cur[1] == DOT {
        comps.push(Component::Parent);
        assert(models(comps@) =~~= models(before) + flush_name(cur@));
    } else {
        comps.push(Component::Normal { name: cur });
        assert(models(comps@) =~~= models(before) + flush_name(cur@));
    }
}

/// Parse a byte path into components with no absolute check: for the one
/// narrow case where the path names the ambient root rather than a
/// capability (reopen recovery), and for building component sequences from
/// trusted inputs such as symlink targets already checked for rootedness.
pub fn parse_unrooted(bytes: &[u8]) -> (comps: Vec<Component>)
    ensures
        models(comps@) == parse_components(bytes@),
{
    let mut comps: Vec<Component> = Vec::new();
    let mut cur: Vec<u8> = Vec::new();
    let mut i: usize = 0;
    assert(bytes@.skip(0) =~= bytes@);
    assert(models(comps@) + parse_rec(bytes@, cur@) =~~= parse_rec(bytes@, cur@));
    while i < bytes.len()
        invariant
            i <= bytes@.len(),
            parse_components(bytes@) == models(comps@) + parse_rec(
                bytes@.skip(i as int),
                cur@,
            ),
        decreases bytes@.len() - i,
    {
        let ghost rest = bytes@.skip(i as int);
        assert(rest[0] == bytes@[i as int]);
        assert(rest.skip(1) =~= bytes@.skip(i as int + 1));
        if bytes[i] == SLASH {
            let ghost comps_before = comps@;
            let ghost cur_before = cur@;
            classify_push(&mut comps, cur);
            cur = Vec::new();
            assert(parse_rec(rest, cur_before) == flush_name(cur_before) + parse_rec(
                rest.skip(1),
                Seq::empty(),
            ));
            assert(models(comps@) + parse_rec(bytes@.skip(i as int + 1), cur@) =~~= (models(
                comps_before,
            ) + flush_name(cur_before)) + parse_rec(rest.skip(1), Seq::empty()));
            assert((models(comps_before) + flush_name(cur_before)) + parse_rec(
                rest.skip(1),
                Seq::empty(),
            ) =~~= models(comps_before) + (flush_name(cur_before) + parse_rec(
                rest.skip(1),
                Seq::empty(),
            )));
        } else {
            let ghost cur_before = cur@;
            cur.push(bytes[i]);
            assert(parse_rec(rest, cur_before) == parse_rec(rest.skip(1), cur_before.push(
                rest[0],
            )));
            assert(cur@ =~= cur_before.push(rest[0]));
        }
        i = i + 1;
    }
    assert(bytes@.skip(i as int) =~= Seq::<u8>::empty());
    let ghost comps_before = comps@;
    let ghost cur_before = cur@;
    classify_push(&mut comps, cur);
    assert(parse_rec(Seq::empty(), cur_before) == flush_name(cur_before));
    assert(models(comps@) =~~= models(comps_before) + flush_name(cur_before));
    comps
}

/// Parse an untrusted caller path relative to a capability. An absolute
/// path can never be resolved inside a capability's subtree and is rejected
/// as an escape attempt; any other path parses to its component sequence.
pub fn parse_relative_path(bytes: &[u8]) -> (r: Result<Vec<Component>, ResolutionError>)
    ensures
        is_absolute(bytes@) ==> r == Result::<Vec<Component>, ResolutionError>::Err(
            ResolutionError::EscapeAttempt,
        ),
        !is_absolute(bytes@) ==> (r matches Ok(comps) && models(comps@) == parse_components(
            bytes@,
        )),
{
    if bytes.len() > 0 && bytes[0] == SLASH {
        return Err(ResolutionError::EscapeAttempt);
    }
    Ok(parse_unrooted(bytes))
}

} // verus!
