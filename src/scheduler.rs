//! One reconciliation pass over one community: which members to kick for
//! failing to verify in time, and which punishments have run out.
//!
//! Both decisions read the same snapshot of the community's punishments, taken
//! once at the start of the pass, so a punishment that runs out during a pass
//! still protects its member from that pass's kick check.

use vstd::prelude::*;
use crate::commands::punishments::{LiftRequest, has_target, is_target, lift_steps, target_steps};
use crate::effects::Step;
use crate::model::punishment;
use crate::model::server;
use crate::restore::{PunishmentRecord, closing_steps, push_closing_steps, push_record_steps, record_steps};

verus! {

/// What the reconciliation pass needs to know of one member.
#[derive(Clone, Debug)]
pub struct MemberInfo {
    pub user_id: u64,
    pub roles: Vec<u64>,
    pub bot: bool,
    /// When the member joined, as a Unix timestamp in seconds, if known.
    pub joined_at: Option<i64>,
}

/// Whether `roles` holds `role`.
pub fn holds_role(roles: &Vec<u64>, role: u64) -> (r: bool)
    ensures
        r == roles@.contains(role),
{
    let mut i: usize = 0;
    while i < roles.len()
        invariant
            i <= roles@.len(),
            forall|j: int| 0 <= j < i ==> roles@[j] != role,
        decreases roles@.len() - i,
    {
        if roles[i] == role {
            return true;
        }
        i = i + 1;
    }
    false
}

/// Whether member `m` of community `server` has gone unverified for longer
/// than the community allows, as of `now`. Only communities with both a
/// timeout and a verified role kick; bots are never kicked.
pub open spec fn overdue(server: server::Model, m: MemberInfo, now: i64) -> bool {
    &&& server.verification_timeout is Some
    &&& server.verified_role_id is Some
    &&& !m.roles@.contains(server.verified_role_id->Some_0)
    &&& !m.bot
    &&& m.joined_at is Some
    &&& m.joined_at->Some_0 < now - server.verification_timeout->Some_0 * 3600
}

/// Whether the snapshot holds any punishment of `user` in community `server_id`.
pub open spec fn is_punished(records: Seq<PunishmentRecord>, server_id: u64, user: u64) -> bool {
    exists|i: int|
        0 <= i < records.len() && #[trigger] records[i].punishment.user_id == user
            && records[i].punishment.server_id == server_id
}

/// The users to kick, in member order.
pub open spec fn kicks(
    server: server::Model,
    members: Seq<MemberInfo>,
    records: Seq<PunishmentRecord>,
    now: i64,
) -> Seq<u64>
    decreases members.len(),
{
    if members.len() == 0 {
        seq![]
    } else {
        kicks(server, members.drop_last(), records, now) + if overdue(server, members.last(), now)
            && !is_punished(records, server.id, members.last().user_id) {
            seq![members.last().user_id]
        } else {
            seq![]
        }
    }
}

fn punished(records: &Vec<PunishmentRecord>, server_id: u64, user: u64) -> (r: bool)
    ensures
        r == is_punished(records@, server_id, user),
{
    let mut i: usize = 0;
    while i < records.len()
        invariant
            i <= records@.len(),
            forall|j: int|
                0 <= j < i ==> !(#[trigger] records@[j].punishment.user_id == user
                    && records@[j].punishment.server_id == server_id),
        decreases records@.len() - i,
    {
        let p = records[i].punishment;
        if p.user_id == user && p.server_id == server_id {
            return true;
        }
        i = i + 1;
    }
    false
}

/// Decides which members of community `server` to kick at time `now`: every
/// overdue member, except those with a punishment in the snapshot `records`.
pub fn verification_sweep(
    server: &server::Model,
    members: &Vec<MemberInfo>,
    records: &Vec<PunishmentRecord>,
    now: i64,
) -> (r: Vec<u64>)
    ensures
        r@ == kicks(*server, members@, records@, now),
        forall|k: u64| r@.contains(k) ==> !is_punished(records@, server.id, k),
        forall|i: int|
            0 <= i < members@.len() && overdue(*server, #[trigger] members@[i], now) && !is_punished(
                records@,
                server.id,
                members@[i].user_id,
            ) ==> r@.contains(members@[i].user_id),
        forall|k: u64|
            r@.contains(k) ==> exists|i: int|
                0 <= i < members@.len() && #[trigger] members@[i].user_id == k && overdue(
                    *server,
                    members@[i],
                    now,
                ),
{
    let mut r: Vec<u64> = Vec::new();
    let (timeout, verified) = match (server.verification_timeout, server.verified_role_id) {
        (Some(t), Some(v)) => (t, v),
        _ => {
            proof {
                lemma_no_kicks_unconfigured(*server, members@, records@, now);
            }
            assert(r@ =~= seq![]);
            return r;
        },
    };
    let mut i: usize = 0;
    while i < members.len()
        invariant
            i <= members@.len(),
            server.verification_timeout == Some(timeout),
            server.verified_role_id == Some(verified),
            r@ == kicks(*server, members@.subrange(0, i as int), records@, now),
            forall|k: u64| r@.contains(k) ==> !is_punished(records@, server.id, k),
            forall|j: int|
                0 <= j < i && overdue(*server, #[trigger] members@[j], now) && !is_punished(
                    records@,
                    server.id,
                    members@[j].user_id,
                ) ==> r@.contains(members@[j].user_id),
            forall|k: u64|
                r@.contains(k) ==> exists|j: int|
                    0 <= j < i && #[trigger] members@[j].user_id == k && overdue(
                        *server,
                        members@[j],
                        now,
                    ),
        decreases members@.len() - i,
    {
        let m = &members[i];
        proof {
            assert(members@.subrange(0, i + 1).drop_last() =~= members@.subrange(0, i as int));
        }
        let late = match m.joined_at {
            Some(j) => (j as i128) < (now as i128) - (timeout as i128) * 3600,
            None => false,
        };
        let ghost r0 = r@;
        if late && !m.bot && !holds_role(&m.roles, verified) && !punished(records, server.id, m.user_id) {
            r.push(m.user_id);
            proof {
                assert forall|k: u64| r@.contains(k) implies !is_punished(records@, server.id, k) by {
                    if k != m.user_id {
                        assert(r0.contains(k));
                    }
                }
                assert forall|k: u64| r@.contains(k) implies exists|j: int|
                    0 <= j < i + 1 && #[trigger] members@[j].user_id == k && overdue(
                        *server,
                        members@[j],
                        now,
                    ) by {
                    if k != m.user_id {
                        assert(r0.contains(k));
                    } else {
                        assert(r@[r@.len() - 1] == k);
                        assert(members@[i as int].user_id == k);
                    }
                }
                assert(r@[r@.len() - 1] == m.user_id);
                assert forall|j: int|
                    0 <= j < i + 1 && overdue(*server, #[trigger] members@[j], now) && !is_punished(
                        records@,
                        server.id,
                        members@[j].user_id,
                    ) implies r@.contains(members@[j].user_id) by {
                    if j < i {
                        let x = choose|x: int| 0 <= x < r0.len() && r0[x] == members@[j].user_id;
                        assert(r@[x] == members@[j].user_id);
                    }
                }
            }
        } else {
            assert(r@ =~= kicks(*server, members@.subrange(0, i + 1), records@, now));
            assert(!(overdue(*server, members@[i as int], now) && !is_punished(
                records@,
                server.id,
                members@[i as int].user_id,
            )));
        }
        i = i + 1;
    }
    assert(members@.subrange(0, members@.len() as int) =~= members@);
    r
}

/// A community without both a timeout and a verified role kicks nobody.
proof fn lemma_no_kicks_unconfigured(
    server: server::Model,
    members: Seq<MemberInfo>,
    records: Seq<PunishmentRecord>,
    now: i64,
)
    requires
        server.verification_timeout is None || server.verified_role_id is None,
    ensures
        kicks(server, members, records, now) == Seq::<u64>::empty(),
    decreases members.len(),
{
    if members.len() > 0 {
        lemma_no_kicks_unconfigured(server, members.drop_last(), records, now);
        assert(kicks(server, members, records, now) =~= Seq::<u64>::empty());
    }
}

/// The steps that end one punishment that ran out, for one member.
#[derive(Clone, Debug)]
pub struct ExpiryPlan {
    pub user_id: u64,
    pub steps: Vec<Step>,
}

/// The plans as plain values.
pub open spec fn plans_view(plans: Seq<ExpiryPlan>) -> Seq<(u64, Seq<Step>)> {
    plans.map_values(|p: ExpiryPlan| (p.user_id, p.steps@))
}

/// Whether punishment `p` of community `server_id` has run out by `now`.
/// Punishments without an end never run out.
pub open spec fn is_expired(server_id: u64, p: punishment::Model, now: i64) -> bool {
    p.server_id == server_id && p.expires is Some && p.expires->Some_0 < now
}

/// For each punishment of `records` that has run out, in order, its member
/// and the steps that end it: the same steps as a lift, then the dunce role
/// taken away (where the community has one) or the ban lifted.
pub open spec fn expiries(server: server::Model, records: Seq<PunishmentRecord>, now: i64) -> Seq<
    (u64, Seq<Step>),
>
    decreases records.len(),
{
    if records.len() == 0 {
        seq![]
    } else {
        let rec = records.last();
        expiries(server, records.drop_last(), now) + if is_expired(server.id, rec.punishment, now) {
            seq![
                (rec.punishment.user_id, record_steps(rec) + closing_steps(
                    rec.punishment.punishment_type,
                    server.dunce_role_id,
                )),
            ]
        } else {
            seq![]
        }
    }
}

/// Decides which punishments of community `server` have run out at `now`
/// and how to end each.
pub fn expiry_sweep(server: &server::Model, records: &Vec<PunishmentRecord>, now: i64) -> (r: Vec<
    ExpiryPlan,
>)
    ensures
        plans_view(r@) == expiries(*server, records@, now),
{
    let mut r: Vec<ExpiryPlan> = Vec::new();
    let mut i: usize = 0;
    while i < records.len()
        invariant
            i <= records@.len(),
            plans_view(r@) == expiries(*server, records@.subrange(0, i as int), now),
        decreases records@.len() - i,
    {
        let rec = &records[i];
        proof {
            assert(records@.subrange(0, i + 1).drop_last() =~= records@.subrange(0, i as int));
        }
        let p = rec.punishment;
        let expired = match p.expires {
            Some(e) => p.server_id == server.id && e < now,
            None => false,
        };
        let ghost r0 = r@;
        if expired {
            let mut steps: Vec<Step> = Vec::new();
            push_record_steps(&mut steps, rec);
            push_closing_steps(&mut steps, p.punishment_type, server.dunce_role_id);
            r.push(ExpiryPlan { user_id: p.user_id, steps });
            assert(plans_view(r@) =~= plans_view(r0).push(
                (p.user_id, record_steps(*rec) + closing_steps(p.punishment_type, server.dunce_role_id)),
            ));
            assert(plans_view(r@) =~= expiries(*server, records@.subrange(0, i + 1), now));
        } else {
            assert(plans_view(r@) =~= expiries(*server, records@.subrange(0, i + 1), now));
        }
        i = i + 1;
    }
    assert(records@.subrange(0, records@.len() as int) =~= records@);
    r
}

/// What one reconciliation pass over a community does: the users to kick and
/// the punishments to end.
#[derive(Clone, Debug)]
pub struct TickPlan {
    pub kicks: Vec<u64>,
    pub expiries: Vec<ExpiryPlan>,
}

/// Decides one reconciliation pass over community `server` at time `now`,
/// given its members and one snapshot `records` of all its punishments with
/// their removed roles.
pub fn update_server(
    server: &server::Model,
    members: &Vec<MemberInfo>,
    records: &Vec<PunishmentRecord>,
    now: i64,
) -> (r: TickPlan)
    ensures
        r.kicks@ == kicks(*server, members@, records@, now),
        forall|k: u64| r.kicks@.contains(k) ==> !is_punished(records@, server.id, k),
        plans_view(r.expiries@) == expiries(*server, records@, now),
{
    let kicks = verification_sweep(server, members, records, now);
    let expiries = expiry_sweep(server, records, now);
    TickPlan { kicks, expiries }
}

/// Ending a punishment that has run out takes exactly the steps of lifting it
/// by hand, when the store's answer to the lift is that punishment alone.
pub proof fn lemma_expiry_is_lift(server: server::Model, rec: PunishmentRecord, now: i64)
    requires
        is_expired(server.id, rec.punishment, now),
    ensures
        expiries(server, seq![rec], now) == seq![
            (
                rec.punishment.user_id,
                lift_steps(
                    LiftRequest {
                        server_id: server.id,
                        user_id: rec.punishment.user_id,
                        punishment_type: rec.punishment.punishment_type,
                        dunce_role_id: server.dunce_role_id,
                    },
                    seq![rec],
                ),
            ),
        ],
{
    let req = LiftRequest {
        server_id: server.id,
        user_id: rec.punishment.user_id,
        punishment_type: rec.punishment.punishment_type,
        dunce_role_id: server.dunce_role_id,
    };
    let recs = seq![rec];
    assert(recs.drop_last() =~= Seq::<PunishmentRecord>::empty());
    assert(recs.last() == rec);
    assert(is_target(recs[0].punishment, req));
    assert(has_target(req, recs));
    assert(target_steps(req, Seq::<PunishmentRecord>::empty()) == Seq::<Step>::empty());
    assert(target_steps(req, recs) =~= record_steps(rec));
    assert(expiries(server, Seq::<PunishmentRecord>::empty(), now) == Seq::<(u64, Seq<Step>)>::empty());
    assert(expiries(server, recs, now) =~= seq![
        (rec.punishment.user_id, record_steps(rec) + closing_steps(
            rec.punishment.punishment_type,
            server.dunce_role_id,
        )),
    ]);
}

} // verus!
