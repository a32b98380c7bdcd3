//! Properties of the dispatch state machine.
//!
//! These proof functions state, over `step_outcome` and `step_gates`, what
//! the dispatcher guarantees across whole runs: unknown tokens and
//! filtered names never act, a burst of notifications for one project
//! triggers exactly once, a released gate can trigger again, and distinct
//! projects never disturb one another.

use vstd::prelude::*;
use crate::config::Project;
use crate::dispatch::{step_gates, step_outcome};
use crate::filter::{accepts_view, name_listed, FilterPolarity};
use crate::registry::{has_token, project_of, token_index, tokens_unique};

verus! {

/// The per-project flags after a burst: each notification in `names` is
/// dispatched in turn for the same token `t`.
pub open spec fn burst_gates(
    ps: Seq<Project>,
    gates: Seq<bool>,
    pol: FilterPolarity,
    t: Seq<char>,
    names: Seq<Option<Seq<char>>>,
) -> Seq<bool>
    decreases names.len(),
{
    if names.len() == 0 {
        gates
    } else {
        burst_gates(ps, step_gates(ps, gates, pol, t, names[0]), pol, t, names.drop_first())
    }
}

/// How many notifications of a burst for token `t` trigger an action.
pub open spec fn burst_trigger_count(
    ps: Seq<Project>,
    gates: Seq<bool>,
    pol: FilterPolarity,
    t: Seq<char>,
    names: Seq<Option<Seq<char>>>,
) -> nat
    decreases names.len(),
{
    if names.len() == 0 {
        0
    } else {
        (if step_outcome(ps, gates, pol, t, names[0]) is Triggered {
            1nat
        } else {
            0nat
        }) + burst_trigger_count(
            ps,
            step_gates(ps, gates, pol, t, names[0]),
            pol,
            t,
            names.drop_first(),
        )
    }
}

/// A notification for a token outside the registry produces no action and
/// leaves every gate unchanged.
pub proof fn lemma_unknown_token_no_effect(
    ps: Seq<Project>,
    gates: Seq<bool>,
    pol: FilterPolarity,
    t: Seq<char>,
    name: Option<Seq<char>>,
)
    requires
        !has_token(ps, t),
    ensures
        step_outcome(ps, gates, pol, t, name) is UnknownToken,
        step_gates(ps, gates, pol, t, name) == gates,
{
}

/// Under the allow-list polarity, a notification naming a package outside
/// a project's filter list is rejected and leaves every gate unchanged.
pub proof fn lemma_allow_list_blocks_unlisted(
    ps: Seq<Project>,
    gates: Seq<bool>,
    t: Seq<char>,
    n: Seq<char>,
)
    requires
        has_token(ps, t),
        project_of(ps, t).package_names matches Some(names) && !name_listed(names@, n),
    ensures
        step_outcome(ps, gates, FilterPolarity::AllowListed, t, Some(n)) is FilteredName,
        step_gates(ps, gates, FilterPolarity::AllowListed, t, Some(n)) == gates,
{
}

/// Under the reject-list polarity, a notification naming a package on a
/// project's filter list is rejected and leaves every gate unchanged.
pub proof fn lemma_reject_list_blocks_listed(
    ps: Seq<Project>,
    gates: Seq<bool>,
    t: Seq<char>,
    n: Seq<char>,
)
    requires
        has_token(ps, t),
        project_of(ps, t).package_names matches Some(names) && name_listed(names@, n),
    ensures
        step_outcome(ps, gates, FilterPolarity::RejectListed, t, Some(n)) is FilteredName,
        step_gates(ps, gates, FilterPolarity::RejectListed, t, Some(n)) == gates,
{
}

/// While a project's gate is held, no notification of a burst for that
/// project triggers, and no gate changes.
pub proof fn lemma_held_gate_blocks_burst(
    ps: Seq<Project>,
    gates: Seq<bool>,
    pol: FilterPolarity,
    t: Seq<char>,
    names: Seq<Option<Seq<char>>>,
)
    requires
        gates.len() == ps.len(),
        tokens_unique(ps),
        has_token(ps, t),
        gates[token_index(ps, t)],
    ensures
        burst_trigger_count(ps, gates, pol, t, names) == 0,
        burst_gates(ps, gates, pol, t, names) == gates,
    decreases names.len(),
{
    if names.len() > 0 {
        assert(step_gates(ps, gates, pol, t, names[0]) == gates);
        lemma_held_gate_blocks_burst(ps, gates, pol, t, names.drop_first());
    }
}

/// Of a burst of accepted notifications for one project whose gate starts
/// free, exactly one — the first — triggers an action; afterwards the
/// project's gate is held and no other gate has changed.
pub proof fn lemma_burst_triggers_exactly_once(
    ps: Seq<Project>,
    gates: Seq<bool>,
    pol: FilterPolarity,
    t: Seq<char>,
    names: Seq<Option<Seq<char>>>,
)
    requires
        gates.len() == ps.len(),
        tokens_unique(ps),
        has_token(ps, t),
        !gates[token_index(ps, t)],
        names.len() >= 1,
        forall|k: int| 0 <= k < names.len() ==> accepts_view(project_of(ps, t), names[k], pol),
    ensures
        burst_trigger_count(ps, gates, pol, t, names) == 1,
        burst_gates(ps, gates, pol, t, names) == gates.update(token_index(ps, t), true),
{
    assert(accepts_view(project_of(ps, t), names[0], pol));
    assert(step_outcome(ps, gates, pol, t, names[0]) is Triggered);
    let g1 = step_gates(ps, gates, pol, t, names[0]);
    assert(g1 == gates.update(token_index(ps, t), true));
    lemma_held_gate_blocks_burst(ps, g1, pol, t, names.drop_first());
}

/// After a project's gate is released, an accepted notification for
/// that project triggers again.
pub proof fn lemma_release_reenables(
    ps: Seq<Project>,
    gates: Seq<bool>,
    pol: FilterPolarity,
    t: Seq<char>,
    name: Option<Seq<char>>,
)
    requires
        gates.len() == ps.len(),
        tokens_unique(ps),
        has_token(ps, t),
        accepts_view(project_of(ps, t), name, pol),
    ensures
        step_outcome(ps, gates.update(token_index(ps, t), false), pol, t, name) is Triggered,
{
}

/// Notifications for two distinct projects, each with a free gate, both
/// trigger: acting for the first project does not disturb the second's
/// gate, and afterwards both gates are held.
pub proof fn lemma_projects_independent(
    ps: Seq<Project>,
    gates: Seq<bool>,
    pol: FilterPolarity,
    t1: Seq<char>,
    t2: Seq<char>,
    n1: Option<Seq<char>>,
    n2: Option<Seq<char>>,
)
    requires
        gates.len() == ps.len(),
        tokens_unique(ps),
        has_token(ps, t1),
        has_token(ps, t2),
        t1 != t2,
        !gates[token_index(ps, t1)],
        !gates[token_index(ps, t2)],
        accepts_view(project_of(ps, t1), n1, pol),
        accepts_view(project_of(ps, t2), n2, pol),
    ensures
        step_outcome(ps, gates, pol, t1, n1) is Triggered,
        step_outcome(ps, step_gates(ps, gates, pol, t1, n1), pol, t2, n2) is Triggered,
        step_gates(ps, step_gates(ps, gates, pol, t1, n1), pol, t2, n2)
            == gates.update(token_index(ps, t1), true).update(token_index(ps, t2), true),
{
    let i1 = token_index(ps, t1);
    let i2 = token_index(ps, t2);
    assert(ps[i1].token@ == t1);
    assert(ps[i2].token@ == t2);
    assert(i1 != i2);
}

} // verus!
