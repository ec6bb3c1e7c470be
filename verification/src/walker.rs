//! The manual resolution walker: the portable reference semantics every
//! backend must match. It consumes parsed components left to right, keeps an
//! explicit queue into which symlink targets are spliced at the front, counts
//! symlink expansions against a fixed ceiling, and never lets a `..` step
//! ascend past the capability's root.
//!
//! The walker makes every decision; a driver outside this crate holds the
//! directory handles and performs each step it is handed — always opening
//! exactly one component relative to the current handle, never a constructed
//! path — and reports what it found back into the walker. The ghost
//! `position` tracks the chain of plain child names from the root to the
//! current handle, so the no-escape guarantee is visible in every contract:
//! the position only ever grows by one name or shrinks while nonempty.

use vstd::prelude::*;
use crate::errors::ResolutionError;
use crate::options::OpenOptions;
use crate::path::{Component, ComponentModel, models, parse_components, parse_unrooted,
    is_absolute, SLASH};

verus! {

/// The ceiling on symlink expansions for one whole resolution, bounding both
/// accidental cycles and adversarial expansion bombs.
pub const MAX_SYMLINK_EXPANSIONS: u64 = 40;

/// The name a normal component carries.
pub open spec fn component_name(c: ComponentModel) -> Seq<u8> {
    match c {
        ComponentModel::Normal(name) => name,
        ComponentModel::Parent => Seq::empty(),
    }
}

fn clone_bytes(v: &Vec<u8>) -> (r: Vec<u8>)
    ensures
        r@ == v@,
{
    let r = v.clone();
    assert(r@ =~= v@);
    r
}

/// One resolution's walker state.
pub struct Walker {
    remaining: Vec<Component>,
    depth: usize,
    expansions: u64,
    follow_trailing: bool,
    allow_ascent: bool,
    position: Ghost<Seq<Seq<u8>>>,
}

/// What the driver must do next, decided from the walker state alone.
pub enum WalkAction {
    /// Open `name` relative to the current handle, without following a
    /// symlink, and descend into it if it is a directory.
    Descend { name: Vec<u8> },
    /// Open the final component `name` with the caller's full open
    /// semantics; a trailing symlink may be followed only when `follow`.
    Final { name: Vec<u8>, follow: bool },
    /// Pop back to the already-visited parent directory: an intra-subtree
    /// `..`, permitted only by policy and only below the root.
    Ascend,
    /// No components remain: the current handle is the result.
    Finished,
    /// Resolution fails with this error.
    Fail { error: ResolutionError },
}

/// The mathematical form of a walker action.
#[verifier::ext_equal]
pub enum WalkActionModel {
    Descend { name: Seq<u8> },
    Final { name: Seq<u8>, follow: bool },
    Ascend,
    Finished,
    Fail { error: ResolutionError },
}

impl View for WalkAction {
    type V = WalkActionModel;

    open spec fn view(&self) -> WalkActionModel {
        match self {
            WalkAction::Descend { name } => WalkActionModel::Descend { name: name@ },
            WalkAction::Final { name, follow } => WalkActionModel::Final {
                name: name@,
                follow: *follow,
            },
            WalkAction::Ascend => WalkActionModel::Ascend,
            WalkAction::Finished => WalkActionModel::Finished,
            WalkAction::Fail { error } => WalkActionModel::Fail { error: *error },
        }
    }
}

/// The action a walker state decides on: done when the queue is empty; for a
/// `..`, ascend only when policy allows it and the walker stands strictly
/// below the root, and otherwise refuse it as an escape attempt; for a plain
/// name, descend, or apply the final open semantics on the last component.
pub open spec fn action_of(w: Walker) -> WalkActionModel {
    let rem = w.remaining_model();
    if rem.len() == 0 {
        WalkActionModel::Finished
    } else {
        match rem[0] {
            ComponentModel::Parent => if w.allow_ascent() && w.depth() > 0 {
                WalkActionModel::Ascend
            } else {
                WalkActionModel::Fail { error: ResolutionError::EscapeAttempt }
            },
            ComponentModel::Normal(name) => if rem.len() == 1 {
                WalkActionModel::Final { name, follow: w.follow_trailing() }
            } else {
                WalkActionModel::Descend { name }
            },
        }
    }
}

/// Whether one more symlink expansion fits the budget.
pub open spec fn expansion_permitted(w: Walker) -> bool {
    w.expansions() < MAX_SYMLINK_EXPANSIONS
}

impl Walker {
    pub closed spec fn remaining_model(&self) -> Seq<ComponentModel> {
        models(self.remaining@)
    }

    pub closed spec fn depth(&self) -> usize {
        self.depth
    }

    pub closed spec fn expansions(&self) -> u64 {
        self.expansions
    }

    pub closed spec fn follow_trailing(&self) -> bool {
        self.follow_trailing
    }

    pub closed spec fn allow_ascent(&self) -> bool {
        self.allow_ascent
    }

    /// The plain child names from the root down to the current handle.
    pub closed spec fn position(&self) -> Seq<Seq<u8>> {
        self.position@
    }

    /// The current handle always stands exactly `depth` descents below the
    /// root, and the expansion counter never passes its ceiling.
    pub open spec fn wf(&self) -> bool {
        &&& self.position().len() == self.depth()
        &&& self.expansions() <= MAX_SYMLINK_EXPANSIONS
    }

    /// A fresh walker for one resolution, standing at the capability root.
    /// `allow_ascent` is the configured policy for intra-subtree `..`:
    /// when false, every `..` is refused outright.
    pub fn new(components: Vec<Component>, options: &OpenOptions, allow_ascent: bool) -> (w:
        Walker)
        ensures
            w.wf(),
            w.remaining_model() == models(components@),
            w.depth() == 0,
            w.expansions() == 0,
            w.follow_trailing() == options.follow_trailing,
            w.allow_ascent() == allow_ascent,
            w.position() == Seq::<Seq<u8>>::empty(),
    {
        Walker {
            remaining: components,
            depth: 0,
            expansions: 0,
            follow_trailing: options.follow_trailing,
            allow_ascent,
            position: Ghost(Seq::empty()),
        }
    }

    /// Decide the next step from the current state.
    pub fn next_action(&self) -> (a: WalkAction)
        ensures
            a@ == action_of(*self),
    {
        if self.remaining.len() == 0 {
            WalkAction::Finished
        } else {
            match &self.remaining[0] {
                Component::Parent => {
                    if self.allow_ascent && self.depth > 0 {
                        WalkAction::Ascend
                    } else {
                        WalkAction::Fail { error: ResolutionError::EscapeAttempt }
                    }
                },
                Component::Normal { name } => {
                    let name = clone_bytes(name);
                    if self.remaining.len() == 1 {
                        WalkAction::Final { name, follow: self.follow_trailing }
                    } else {
                        WalkAction::Descend { name }
                    }
                },
            }
        }
    }

    /// The driver opened the front component without following a symlink and
    /// found a directory: consume the component and step down into it.
    pub fn advance_descend(&mut self)
        requires
            old(self).wf(),
            old(self).depth() < usize::MAX,
            action_of(*old(self)) matches WalkActionModel::Descend { .. },
        ensures
            final(self).wf(),
            final(self).remaining_model() == old(self).remaining_model().skip(1),
            final(self).depth() == old(self).depth() + 1,
            final(self).position() == old(self).position().push(
                component_name(old(self).remaining_model()[0]),
            ),
            final(self).expansions() == old(self).expansions(),
            final(self).follow_trailing() == old(self).follow_trailing(),
            final(self).allow_ascent() == old(self).allow_ascent(),
    {
        let ghost before = self.remaining@;
        let c = self.remaining.remove(0);
        assert(before[0]@ == models(before)[0]);
        match c {
            Component::Normal { name } => {
                proof {
                    self.position@ = self.position@.push(name@);
                }
            },
            Component::Parent => {
                assert(false);
            },
        }
        self.depth = self.depth + 1;
        assert(models(self.remaining@) =~~= models(before).skip(1));
    }

    /// The driver pops back to the parent handle it already holds: consume
    /// one `..`. Only ever requested strictly below the root.
    pub fn advance_ascend(&mut self)
        requires
            old(self).wf(),
            action_of(*old(self)) == WalkActionModel::Ascend,
        ensures
            final(self).wf(),
            final(self).remaining_model() == old(self).remaining_model().skip(1),
            final(self).depth() == old(self).depth() - 1,
            final(self).position() == old(self).position().drop_last(),
            final(self).expansions() == old(self).expansions(),
            final(self).follow_trailing() == old(self).follow_trailing(),
            final(self).allow_ascent() == old(self).allow_ascent(),
    {
        let ghost before = self.remaining@;
        let _ = self.remaining.remove(0);
        self.depth = self.depth - 1;
        proof {
            self.position@ = self.position@.drop_last();
        }
        assert(models(self.remaining@) =~~= models(before).skip(1));
    }

    /// The front component, opened without following, turned out to be a
    /// symlink with this target: splice the target's components onto the
    /// front of the queue and continue from the same directory handle.
    ///
    /// The expansion is refused with `SymlinkLoop` once the ceiling is
    /// reached, and a rooted target is refused as an escape attempt; in both
    /// cases the walker is left unchanged.
    pub fn expand_symlink(&mut self, target: &[u8]) -> (r: Result<(), ResolutionError>)
        requires
            old(self).wf(),
            old(self).remaining_model().len() > 0,
            old(self).remaining_model()[0] matches ComponentModel::Normal(_),
        ensures
            final(self).wf(),
            final(self).depth() == old(self).depth(),
            final(self).position() == old(self).position(),
            final(self).follow_trailing() == old(self).follow_trailing(),
            final(self).allow_ascent() == old(self).allow_ascent(),
            !expansion_permitted(*old(self)) ==> r == Result::<(), ResolutionError>::Err(
                ResolutionError::SymlinkLoop,
            ) && *final(self) == *old(self),
            (expansion_permitted(*old(self)) && is_absolute(target@)) ==> r == Result::<
                (),
                ResolutionError,
            >::Err(ResolutionError::EscapeAttempt) && *final(self) == *old(self),
            (expansion_permitted(*old(self)) && !is_absolute(target@)) ==> {
                &&& r == Result::<(), ResolutionError>::Ok(())
                &&& final(self).expansions() == old(self).expansions() + 1
                &&& final(self).remaining_model() == parse_components(target@) + old(
                    self,
                ).remaining_model().skip(1)
            },
    {
        if self.expansions >= MAX_SYMLINK_EXPANSIONS {
            return Err(ResolutionError::SymlinkLoop);
        }
        if target.len() > 0 && target[0] == SLASH {
            return Err(ResolutionError::EscapeAttempt);
        }
        let ghost before = self.remaining@;
        self.expansions = self.expansions + 1;
        let _ = self.remaining.remove(0);
        let mut spliced = parse_unrooted(target);
        spliced.append(&mut self.remaining);
        self.remaining = spliced;
        assert(models(self.remaining@) =~~= parse_components(target@) + models(before).skip(1));
        Ok(())
    }
}

/// No-escape law: the walker never steps above the capability's root. A `..`
/// at depth zero — or any `..` when ascent is disabled by policy — decides a
/// failure with `EscapeAttempt`, never an ascent; and an ascent is only ever
/// decided while the position holds at least one name to pop. Together with
/// the rejection of absolute caller paths and rooted symlink targets, every
/// way a path could leave the subtree is refused with `EscapeAttempt`.
pub proof fn lemma_no_escape(w: Walker)
    requires
        w.wf(),
        w.remaining_model().len() > 0,
        w.remaining_model()[0] == ComponentModel::Parent,
    ensures
        (w.depth() == 0 || !w.allow_ascent()) ==> action_of(w) == (WalkActionModel::Fail {
            error: ResolutionError::EscapeAttempt,
        }),
        action_of(w) == WalkActionModel::Ascend ==> w.depth() > 0 && w.position().len() > 0,
{
}

/// Symlink-budget law: an expansion is permitted exactly while the counter
/// stands below the ceiling, so a chain whose length stays below
/// `MAX_SYMLINK_EXPANSIONS` still resolves, while any longer chain — a cycle
/// in particular — fails with `SymlinkLoop` at the ceiling.
pub proof fn lemma_symlink_budget(w: Walker)
    requires
        w.wf(),
    ensures
        expansion_permitted(w) <==> w.expansions() < MAX_SYMLINK_EXPANSIONS,
        !expansion_permitted(w) ==> w.expansions() == MAX_SYMLINK_EXPANSIONS,
{
}

} // verus!
