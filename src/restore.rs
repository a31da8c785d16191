//! Giving back what a punishment took: the steps that end one punishment.

use vstd::prelude::*;
use crate::effects::Step;
use crate::model::punishment::{self, PunishmentType};
use crate::model::punishment_removed_role;

verus! {

/// A punishment row together with the rows of the roles it removed.
#[derive(Clone, Debug)]
pub struct PunishmentRecord {
    pub punishment: punishment::Model,
    pub removed_roles: Vec<punishment_removed_role::Model>,
}

/// The steps for the removed-role rows `rows` of a punishment of kind `kind`:
/// after a dunce each role is given back and then its row deleted; after a
/// ban the rows are only deleted.
pub open spec fn role_return_steps(kind: PunishmentType, rows: Seq<punishment_removed_role::Model>) -> Seq<
    Step,
>
    decreases rows.len(),
{
    if rows.len() == 0 {
        seq![]
    } else {
        role_return_steps(kind, rows.drop_last()) + match kind {
            PunishmentType::Dunce => seq![
                Step::AddRole(rows.last().role_id),
                Step::DeleteRemovedRole(rows.last().id),
            ],
            PunishmentType::Ban => seq![Step::DeleteRemovedRole(rows.last().id)],
        }
    }
}

/// The steps that end the punishment of `rec`: its row is deleted first, then
/// its removed roles are dealt with in order.
pub open spec fn record_steps(rec: PunishmentRecord) -> Seq<Step> {
    seq![Step::DeletePunishment(rec.punishment.id)] + role_return_steps(
        rec.punishment.punishment_type,
        rec.removed_roles@,
    )
}

/// The last step of ending a punishment of kind `kind`: the dunce role is
/// taken away (where the community has one), or the ban is lifted.
pub open spec fn closing_steps(kind: PunishmentType, dunce_role_id: Option<u64>) -> Seq<Step> {
    match kind {
        PunishmentType::Dunce => match dunce_role_id {
            Some(d) => seq![Step::RemoveRole(d)],
            None => seq![],
        },
        PunishmentType::Ban => seq![Step::Unban],
    }
}

/// Appends to `steps` the steps that end the punishment of `rec`.
pub fn push_record_steps(steps: &mut Vec<Step>, rec: &PunishmentRecord)
    ensures
        final(steps)@ == old(steps)@ + record_steps(*rec),
{
    steps.push(Step::DeletePunishment(rec.punishment.id));
    let ghost start = steps@;
    let kind = rec.punishment.punishment_type;
    let mut i: usize = 0;
    while i < rec.removed_roles.len()
        invariant
            i <= rec.removed_roles@.len(),
            steps@ == start + role_return_steps(kind, rec.removed_roles@.subrange(0, i as int)),
        decreases rec.removed_roles@.len() - i,
    {
        let row = rec.removed_roles[i];
        proof {
            assert(rec.removed_roles@.subrange(0, i + 1).drop_last() =~= rec.removed_roles@.subrange(
                0,
                i as int,
            ));
        }
        match kind {
            PunishmentType::Dunce => {
                steps.push(Step::AddRole(row.role_id));
                steps.push(Step::DeleteRemovedRole(row.id));
            },
            PunishmentType::Ban => {
                steps.push(Step::DeleteRemovedRole(row.id));
            },
        }
        i = i + 1;
        assert(steps@ =~= start + role_return_steps(kind, rec.removed_roles@.subrange(0, i as int)));
    }
    assert(rec.removed_roles@.subrange(0, rec.removed_roles@.len() as int) =~= rec.removed_roles@);
    assert(steps@ =~= old(steps)@ + record_steps(*rec));
}

/// Appends to `steps` the closing steps of a punishment of kind `kind`.
pub fn push_closing_steps(steps: &mut Vec<Step>, kind: PunishmentType, dunce_role_id: Option<u64>)
    ensures
        final(steps)@ == old(steps)@ + closing_steps(kind, dunce_role_id),
{
    match kind {
        PunishmentType::Dunce => match dunce_role_id {
            Some(d) => {
                steps.push(Step::RemoveRole(d));
            },
            None => {},
        },
        PunishmentType::Ban => {
            steps.push(Step::Unban);
        },
    }
    assert(steps@ =~= old(steps)@ + closing_steps(kind, dunce_role_id));
}

} // verus!
