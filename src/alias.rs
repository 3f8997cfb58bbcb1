//! The read alias and the requests that move it.

use vstd::prelude::*;
use crate::index_version::{IndexVersion, index_name};

verus! {

/// Name of the alias through which every query reads articles.
pub const INDEX_ALIAS: &'static str = "articles";

/// One action of an alias update request.
#[derive(Debug)]
pub enum AliasAction {
    /// Detach `alias` from `index`.
    Remove { index: String, alias: String },
    /// Attach `alias` to `index`.
    Add { index: String, alias: String },
}

/// The indices behind an alias after one action.
pub open spec fn apply_action(targets: Set<Seq<char>>, a: AliasAction) -> Set<Seq<char>> {
    match a {
        AliasAction::Remove { index, .. } => targets.remove(index@),
        AliasAction::Add { index, .. } => targets.insert(index@),
    }
}

/// The indices behind an alias after a request, whose actions the store
/// applies together, in order.
pub open spec fn apply_actions(targets: Set<Seq<char>>, actions: Seq<AliasAction>) -> Set<Seq<char>>
    decreases actions.len(),
{
    if actions.len() == 0 {
        targets
    } else {
        apply_actions(apply_action(targets, actions[0]), actions.drop_first())
    }
}

pub open spec fn action_is(a: AliasAction, add: bool, index: Seq<char>, alias: Seq<char>) -> bool {
    match a {
        AliasAction::Remove { index: i, alias: n } => !add && i@ == index && n@ == alias,
        AliasAction::Add { index: i, alias: n } => add && i@ == index && n@ == alias,
    }
}

/// The actions that move `alias` from the index of `prev` (if any) to the
/// index of `new`: a removal first, then the addition.
pub open spec fn swap_actions_ok(
    actions: Seq<AliasAction>,
    alias: Seq<char>,
    prev: Option<IndexVersion>,
    new: IndexVersion,
) -> bool {
    match prev {
        Some(p) => actions.len() == 2
            && action_is(actions[0], false, index_name(alias, p.0 as nat), alias)
            && action_is(actions[1], true, index_name(alias, new.0 as nat), alias),
        None => actions.len() == 1
            && action_is(actions[0], true, index_name(alias, new.0 as nat), alias),
    }
}

/// The indices behind the alias before a swap from `prev`.
pub open spec fn targets_before(alias: Seq<char>, prev: Option<IndexVersion>) -> Set<Seq<char>> {
    match prev {
        Some(p) => set![index_name(alias, p.0 as nat)],
        None => Set::empty(),
    }
}

/// Builds the single request that moves `alias` from `prev` to `new`.
pub fn swap_alias_actions(alias: &str, prev: Option<IndexVersion>, new: IndexVersion) -> (r: Vec<AliasAction>)
    ensures
        swap_actions_ok(r@, alias@, prev, new),
{
    let mut actions: Vec<AliasAction> = Vec::new();
    if let Some(p) = prev {
        actions.push(AliasAction::Remove { index: p.attach_to_alias(alias), alias: String::from_str(alias) });
    }
    actions.push(AliasAction::Add { index: new.attach_to_alias(alias), alias: String::from_str(alias) });
    actions
}

/// A swap is atomic for readers: the one request takes the alias from
/// exactly the old index (or from none, on the first run) to exactly the new
/// one, so a reader sees the old index or the new one, never both and never
/// neither once an index existed.
pub proof fn lemma_swap_is_atomic(
    actions: Seq<AliasAction>,
    alias: Seq<char>,
    prev: Option<IndexVersion>,
    new: IndexVersion,
)
    requires
        swap_actions_ok(actions, alias, prev, new),
        prev matches Some(p) ==> p != new,
    ensures
        apply_actions(targets_before(alias, prev), actions) == set![index_name(alias, new.0 as nat)],
        prev is Some ==> targets_before(alias, prev).len() == 1,
{
    let new_name = index_name(alias, new.0 as nat);
    match prev {
        Some(p) => {
            let old_name = index_name(alias, p.0 as nat);
            let t0 = targets_before(alias, prev);
            let t1 = apply_action(t0, actions[0]);
            assert(t1 =~= Set::<Seq<char>>::empty());
            let rest = actions.drop_first();
            assert(rest[0] == actions[1]);
            let t2 = apply_action(t1, rest[0]);
            assert(t2 =~= set![new_name]);
            assert(rest.drop_first().len() == 0);
            assert(apply_actions(t2, rest.drop_first()) == t2);
            assert(apply_actions(t1, rest) == t2);
            assert(t0 =~= set![old_name]);
            assert(t0.len() == 1) by {
                assert(set![old_name] =~= Set::<Seq<char>>::empty().insert(old_name));
            }
        },
        None => {
            let t0 = targets_before(alias, prev);
            let t1 = apply_action(t0, actions[0]);
            assert(t1 =~= set![new_name]);
            assert(actions.drop_first().len() == 0);
            assert(apply_actions(t1, actions.drop_first()) == t1);
        },
    }
}

} // verus!
