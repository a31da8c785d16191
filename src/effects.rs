//! The steps that the engine asks its caller to carry out, and what each one
//! does to the store and to the member it concerns.

use vstd::prelude::*;
use crate::model::punishment;
use crate::model::punishment_removed_role;

verus! {

/// One store write or platform call, for one member of one community.
#[derive(Clone, Debug)]
pub enum Step {
    /// Delete the punishment row with this identifier.
    DeletePunishment(i64),
    /// Delete the removed-role row with this identifier.
    DeleteRemovedRole(i64),
    /// Give the member this role.
    AddRole(u64),
    /// Take this role from the member.
    RemoveRole(u64),
    /// Take all these roles from the member in one call.
    RemoveRoles(Vec<u64>),
    /// Ban the member from the community.
    Ban,
    /// Lift the member's ban.
    Unban,
}

/// The rows of the store and the platform state of one member.
pub struct World {
    pub punishments: Set<punishment::Model>,
    pub removed_roles: Set<punishment_removed_role::Model>,
    pub roles: Set<u64>,
    pub banned: bool,
}

/// What one step does.
pub open spec fn apply_step(w: World, s: Step) -> World {
    match s {
        Step::DeletePunishment(id) => World {
            punishments: w.punishments.filter(|p: punishment::Model| p.id != id),
            ..w
        },
        Step::DeleteRemovedRole(id) => World {
            removed_roles: w.removed_roles.filter(|r: punishment_removed_role::Model| r.id != id),
            ..w
        },
        Step::AddRole(role) => World { roles: w.roles.insert(role), ..w },
        Step::RemoveRole(role) => World { roles: w.roles.remove(role), ..w },
        Step::RemoveRoles(roles) => World { roles: w.roles.difference(roles@.to_set()), ..w },
        Step::Ban => World { banned: true, ..w },
        Step::Unban => World { banned: false, ..w },
    }
}

/// What a sequence of steps does, carried out in order.
pub open spec fn apply_steps(w: World, steps: Seq<Step>) -> World
    decreases steps.len(),
{
    if steps.len() == 0 {
        w
    } else {
        apply_step(apply_steps(w, steps.drop_last()), steps.last())
    }
}

/// Carrying out `a` and then `b` is carrying out `a + b`.
pub proof fn lemma_apply_steps_append(w: World, a: Seq<Step>, b: Seq<Step>)
    ensures
        apply_steps(w, a + b) == apply_steps(apply_steps(w, a), b),
    decreases b.len(),
{
    if b.len() == 0 {
        assert(a + b =~= a);
    } else {
        lemma_apply_steps_append(w, a, b.drop_last());
        assert((a + b).drop_last() =~= a + b.drop_last());
    }
}

/// Carrying out one step.
pub proof fn lemma_apply_one(w: World, a: Step)
    ensures
        apply_steps(w, seq![a]) == apply_step(w, a),
{
    let s = seq![a];
    assert(s.drop_last() =~= Seq::<Step>::empty());
    assert(s.last() == a);
    assert(apply_steps(w, Seq::<Step>::empty()) == w);
    assert(apply_steps(w, s) == apply_step(apply_steps(w, s.drop_last()), s.last()));
}

/// Carrying out two steps.
pub proof fn lemma_apply_two(w: World, a: Step, b: Step)
    ensures
        apply_steps(w, seq![a, b]) == apply_step(apply_step(w, a), b),
{
    let s = seq![a, b];
    assert(s.drop_last() =~= seq![a]);
    assert(s.last() == b);
    lemma_apply_one(w, a);
    assert(apply_steps(w, s) == apply_step(apply_steps(w, s.drop_last()), s.last()));
}

/// A copy of a list of identifiers.
pub(crate) fn copy_ids(v: &Vec<u64>) -> (r: Vec<u64>)
    ensures
        r@ == v@,
{
    let mut r: Vec<u64> = Vec::new();
    let mut i: usize = 0;
    while i < v.len()
        invariant
            i <= v@.len(),
            r@ == v@.subrange(0, i as int),
        decreases v@.len() - i,
    {
        r.push(v[i]);
        i = i + 1;
        assert(r@ =~= v@.subrange(0, i as int));
    }
    assert(r@ =~= v@);
    r
}

/// No step adds a punishment row; a row survives a sequence of steps only if
/// no step of it deletes the row's identifier.
pub proof fn lemma_punishments_after(w: World, steps: Seq<Step>)
    ensures
        forall|p: punishment::Model|
            #[trigger] apply_steps(w, steps).punishments.contains(p) ==> w.punishments.contains(p)
                && forall|k: int| 0 <= k < steps.len() ==> steps[k] != Step::DeletePunishment(p.id),
    decreases steps.len(),
{
    if steps.len() > 0 {
        lemma_punishments_after(w, steps.drop_last());
        assert forall|p: punishment::Model|
            #[trigger] apply_steps(w, steps).punishments.contains(p) implies w.punishments.contains(p)
                && forall|k: int| 0 <= k < steps.len() ==> steps[k] != Step::DeletePunishment(p.id) by {
            assert(apply_steps(w, steps.drop_last()).punishments.contains(p));
            assert forall|k: int| 0 <= k < steps.len() implies steps[k] != Step::DeletePunishment(p.id) by {
                if k < steps.len() - 1 {
                    assert(steps.drop_last()[k] == steps[k]);
                }
            }
        }
    }
}

} // verus!
