//! Issuing and lifting punishments.
//!
//! Lengths use a fixed calendar: a week is 7 days, a month 4 weeks and a year
//! 48 weeks. This is a deliberate simplification, not calendar arithmetic.

use vstd::prelude::*;
use crate::effects::{Step, World, apply_step, apply_steps, copy_ids, lemma_apply_one, lemma_apply_steps_append, lemma_apply_two, lemma_punishments_after};
use crate::restore::{PunishmentRecord, closing_steps, role_return_steps, push_closing_steps, push_record_steps, record_steps};
use crate::model::punishment::{self, PunishmentType};
use crate::model::punishment_removed_role;
use crate::model::server;
use crate::commands::options::{
    ArgError, ArgErrorKind, CommandOption, OptionValue, integer_option_spec, parse_integer_option,
    parse_user_option, result_view, text_is, user_option_spec,
};

verus! {

/// Seconds in one unit of the named duration option; `None` for any other name.
pub open spec fn unit_seconds(name: Seq<char>) -> Option<int> {
    if name == "years"@ {
        Some(48 * 604800int)
    } else if name == "months"@ {
        Some(4 * 604800int)
    } else if name == "weeks"@ {
        Some(604800)
    } else if name == "days"@ {
        Some(86400)
    } else if name == "hours"@ {
        Some(3600)
    } else if name == "minutes"@ {
        Some(60)
    } else {
        None
    }
}

/// Seconds in one unit of the named duration option.
fn unit_of(name: &str) -> (r: Option<i64>)
    ensures
        r matches Some(u) ==> unit_seconds(name@) == Some(u as int) && 0 < u <= 48 * 604800,
        r is None ==> unit_seconds(name@) is None,
{
    if text_is(name, "years") {
        Some(48 * 604800)
    } else if text_is(name, "months") {
        Some(4 * 604800)
    } else if text_is(name, "weeks") {
        Some(604800)
    } else if text_is(name, "days") {
        Some(86400)
    } else if text_is(name, "hours") {
        Some(3600)
    } else if text_is(name, "minutes") {
        Some(60)
    } else {
        None
    }
}

/// The running total of seconds after adding the duration option `name`.
pub open spec fn duration_step(acc: int, name: Seq<char>, value: Option<OptionValue>) -> Result<
    int,
    (ArgErrorKind, Seq<char>),
> {
    match unit_seconds(name) {
        None => Err((ArgErrorKind::UnknownParam, name)),
        Some(unit) => match integer_option_spec(name, value) {
            Err(e) => Err(e),
            Ok(v) => if v < 0 {
                Err((ArgErrorKind::Negative, name))
            } else if acc + v * unit > i64::MAX {
                Err((ArgErrorKind::DurationOverflow, ""@))
            } else {
                Ok(acc + v * unit)
            },
        },
    }
}

/// Adds the length given by duration option `option` (named `name`) to the
/// running total of seconds; on an error the total is left as it was.
pub fn duration_parse(duration_accumulator: &mut i64, name: &str, option: &CommandOption) -> (r:
    Result<(), ArgError>)
    ensures
        match duration_step(*old(duration_accumulator) as int, name@, option.value) {
            Ok(t) => r is Ok && *final(duration_accumulator) as int == t,
            Err(e) => r is Err && r->Err_0@ == e && *final(duration_accumulator) == *old(
                duration_accumulator,
            ),
        },
{
    let unit = match unit_of(name) {
        None => {
            return Err(ArgError::new(ArgErrorKind::UnknownParam, name));
        },
        Some(u) => u,
    };
    let v = match parse_integer_option(name, option) {
        Err(e) => {
            return Err(e);
        },
        Ok(v) => v,
    };
    if v < 0 {
        return Err(ArgError::new(ArgErrorKind::Negative, name));
    }
    let vw = v as i128;
    let uw = unit as i128;
    assert(0 <= vw * uw <= 0x7fff_ffff_ffff_ffffi128 * (48 * 604800)) by (nonlinear_arith)
        requires
            0 <= vw <= 0x7fff_ffff_ffff_ffffi128,
            0 < uw <= 48 * 604800,
    ;
    let total: i128 = (*duration_accumulator as i128) + vw * uw;
    if total > i64::MAX as i128 {
        return Err(ArgError::new(ArgErrorKind::DurationOverflow, ""));
    }
    *duration_accumulator = total as i64;
    Ok(())
}

/// The user and total length gathered so far from the options of a `dunce`
/// or `ban` invocation, after one more option.
pub open spec fn punish_option_step(st: (Option<u64>, int), o: CommandOption) -> Result<
    (Option<u64>, int),
    (ArgErrorKind, Seq<char>),
> {
    if o.name@ == "user"@ {
        match user_option_spec(o.value) {
            Ok(u) => Ok((Some(u), st.1)),
            Err(e) => Err(e),
        }
    } else {
        match duration_step(st.1, o.name@, o.value) {
            Ok(t) => Ok((st.0, t)),
            Err(e) => Err(e),
        }
    }
}

/// The options of a `dunce` or `ban` invocation read in order, stopping at
/// the first error.
pub open spec fn punish_options_fold(opts: Seq<CommandOption>) -> Result<
    (Option<u64>, int),
    (ArgErrorKind, Seq<char>),
>
    decreases opts.len(),
{
    if opts.len() == 0 {
        Ok((None, 0))
    } else {
        match punish_options_fold(opts.drop_last()) {
            Err(e) => Err(e),
            Ok(st) => punish_option_step(st, opts.last()),
        }
    }
}

/// The target user and the length in seconds that a `dunce` or `ban`
/// invocation asks for.
pub open spec fn punish_options_spec(opts: Seq<CommandOption>) -> Result<
    (u64, int),
    (ArgErrorKind, Seq<char>),
> {
    match punish_options_fold(opts) {
        Err(e) => Err(e),
        Ok((None, _)) => Err((ArgErrorKind::Missing, "user"@)),
        Ok((Some(u), t)) => Ok((u, t)),
    }
}

/// Once the options fail to read, reading more of them fails the same way.
proof fn lemma_punish_fold_err_sticks(opts: Seq<CommandOption>, j: int, k: int)
    requires
        0 <= j <= k <= opts.len(),
        punish_options_fold(opts.subrange(0, j)) is Err,
    ensures
        punish_options_fold(opts.subrange(0, k)) == punish_options_fold(opts.subrange(0, j)),
    decreases k - j,
{
    if k > j {
        lemma_punish_fold_err_sticks(opts, j, k - 1);
        assert(opts.subrange(0, k).drop_last() =~= opts.subrange(0, k - 1));
    }
}

/// Reads the target user and the length in seconds of a `dunce` or `ban`
/// invocation.
pub fn parse_punish_options(options: &Vec<CommandOption>) -> (r: Result<(u64, i64), ArgError>)
    ensures
        match punish_options_spec(options@) {
            Ok((u, t)) => r matches Ok((ru, rt)) && ru == u && rt as int == t && 0 <= t,
            Err(e) => r is Err && r->Err_0@ == e,
        },
{
    let mut user_opt: Option<u64> = None;
    let mut acc: i64 = 0;
    let mut i: usize = 0;
    while i < options.len()
        invariant
            i <= options@.len(),
            punish_options_fold(options@.subrange(0, i as int)) == Ok::<
                (Option<u64>, int),
                (ArgErrorKind, Seq<char>),
            >((user_opt, acc as int)),
            0 <= acc,
        decreases options@.len() - i,
    {
        let o = &options[i];
        proof {
            assert(options@.subrange(0, i + 1).drop_last() =~= options@.subrange(0, i as int));
        }
        if text_is(o.name.as_str(), "user") {
            match parse_user_option(o) {
                Ok(u) => {
                    user_opt = Some(u);
                },
                Err(e) => {
                    proof {
                        lemma_punish_fold_err_sticks(options@, i + 1, options@.len() as int);
                        assert(options@.subrange(0, options@.len() as int) =~= options@);
                    }
                    return Err(e);
                },
            }
        } else {
            match duration_parse(&mut acc, o.name.as_str(), o) {
                Ok(()) => {},
                Err(e) => {
                    proof {
                        lemma_punish_fold_err_sticks(options@, i + 1, options@.len() as int);
                        assert(options@.subrange(0, options@.len() as int) =~= options@);
                    }
                    return Err(e);
                },
            }
        }
        i = i + 1;
    }
    assert(options@.subrange(0, options@.len() as int) =~= options@);
    match user_opt {
        None => Err(ArgError::new(ArgErrorKind::Missing, "user")),
        Some(u) => Ok((u, acc)),
    }
}

/// The user gathered so far from the options of an `undunce` or `unban`
/// invocation, after one more option.
pub open spec fn lift_option_step(st: Option<u64>, o: CommandOption) -> Result<
    Option<u64>,
    (ArgErrorKind, Seq<char>),
> {
    if o.name@ == "user"@ {
        match user_option_spec(o.value) {
            Ok(u) => Ok(Some(u)),
            Err(e) => Err(e),
        }
    } else {
        Err((ArgErrorKind::UnknownParam, o.name@))
    }
}

/// The options of an `undunce` or `unban` invocation read in order, stopping
/// at the first error.
pub open spec fn lift_options_fold(opts: Seq<CommandOption>) -> Result<
    Option<u64>,
    (ArgErrorKind, Seq<char>),
>
    decreases opts.len(),
{
    if opts.len() == 0 {
        Ok(None)
    } else {
        match lift_options_fold(opts.drop_last()) {
            Err(e) => Err(e),
            Ok(st) => lift_option_step(st, opts.last()),
        }
    }
}

/// The target user of an `undunce` or `unban` invocation.
pub open spec fn lift_options_spec(opts: Seq<CommandOption>) -> Result<u64, (ArgErrorKind, Seq<char>)> {
    match lift_options_fold(opts) {
        Err(e) => Err(e),
        Ok(None) => Err((ArgErrorKind::Missing, "user"@)),
        Ok(Some(u)) => Ok(u),
    }
}

/// Once the options fail to read, reading more of them fails the same way.
proof fn lemma_lift_fold_err_sticks(opts: Seq<CommandOption>, j: int, k: int)
    requires
        0 <= j <= k <= opts.len(),
        lift_options_fold(opts.subrange(0, j)) is Err,
    ensures
        lift_options_fold(opts.subrange(0, k)) == lift_options_fold(opts.subrange(0, j)),
    decreases k - j,
{
    if k > j {
        lemma_lift_fold_err_sticks(opts, j, k - 1);
        assert(opts.subrange(0, k).drop_last() =~= opts.subrange(0, k - 1));
    }
}

/// Reads the target user of an `undunce` or `unban` invocation.
pub fn parse_lift_options(options: &Vec<CommandOption>) -> (r: Result<u64, ArgError>)
    ensures
        result_view(r) == lift_options_spec(options@),
{
    let mut user_opt: Option<u64> = None;
    let mut i: usize = 0;
    while i < options.len()
        invariant
            i <= options@.len(),
            lift_options_fold(options@.subrange(0, i as int)) == Ok::<
                Option<u64>,
                (ArgErrorKind, Seq<char>),
            >(user_opt),
        decreases options@.len() - i,
    {
        let o = &options[i];
        proof {
            assert(options@.subrange(0, i + 1).drop_last() =~= options@.subrange(0, i as int));
        }
        if text_is(o.name.as_str(), "user") {
            match parse_user_option(o) {
                Ok(u) => {
                    user_opt = Some(u);
                },
                Err(e) => {
                    proof {
                        lemma_lift_fold_err_sticks(options@, i + 1, options@.len() as int);
                        assert(options@.subrange(0, options@.len() as int) =~= options@);
                    }
                    return Err(e);
                },
            }
        } else {
            proof {
                lemma_lift_fold_err_sticks(options@, i + 1, options@.len() as int);
                assert(options@.subrange(0, options@.len() as int) =~= options@);
            }
            return Err(ArgError::new(ArgErrorKind::UnknownParam, o.name.as_str()));
        }
        i = i + 1;
    }
    assert(options@.subrange(0, options@.len() as int) =~= options@);
    match user_opt {
        None => Err(ArgError::new(ArgErrorKind::Missing, "user")),
        Some(u) => Ok(u),
    }
}

/// A punishment that a command asks for, checked and ready to be recorded.
#[derive(Clone, Copy, Debug)]
pub struct PunishmentRequest {
    pub server_id: u64,
    pub user_id: u64,
    pub punishment_type: PunishmentType,
    /// When the punishment ends, as a Unix timestamp in seconds; `None` for never.
    pub expires: Option<i64>,
    /// The community's dunce role, known for every dunce.
    pub dunce_role_id: Option<u64>,
}

/// Checks a `dunce` or `ban` invocation made at time `now` (seconds) in
/// community `server_id`, whose configuration `server` has been loaded if the
/// community has one.
pub fn prepare_punishment(
    punishment_type: PunishmentType,
    server_id: Option<u64>,
    server: Option<&server::Model>,
    options: &Vec<CommandOption>,
    now: i64,
) -> (r: Result<PunishmentRequest, ArgError>)
    ensures
        server_id is None ==> r is Err && r->Err_0@ == (ArgErrorKind::NotInServer, ""@),
        server_id is Some && punishment_type == PunishmentType::Dunce && server is None ==> r is Err
            && r->Err_0@ == (ArgErrorKind::NotInServer, ""@),
        server_id is Some && punishment_type == PunishmentType::Dunce && server is Some
            && server->Some_0.dunce_role_id is None ==> r is Err && r->Err_0@ == (ArgErrorKind::NoDunceRole, ""@),
        server_id is Some && (punishment_type == PunishmentType::Ban || (server is Some
            && server->Some_0.dunce_role_id is Some)) ==> match punish_options_spec(options@) {
            Err(e) => r is Err && r->Err_0@ == e,
            Ok((u, t)) => if now + t > i64::MAX {
                r is Err && r->Err_0@ == (ArgErrorKind::DurationOverflow, ""@)
            } else {
                r matches Ok(req) && req.server_id == server_id->Some_0 && req.user_id == u
                    && req.punishment_type == punishment_type && (t == 0 ==> req.expires is None) && (t
                    > 0 ==> req.expires is Some && req.expires->Some_0 == now + t) && (punishment_type == PunishmentType::Dunce
                    ==> req.dunce_role_id == server->Some_0.dunce_role_id) && (punishment_type
                    == PunishmentType::Ban ==> req.dunce_role_id is None)
            },
        },
{
    let sid = match server_id {
        None => {
            return Err(ArgError::new(ArgErrorKind::NotInServer, ""));
        },
        Some(s) => s,
    };
    let dunce_role_id = match punishment_type {
        PunishmentType::Dunce => match server {
            None => {
                return Err(ArgError::new(ArgErrorKind::NotInServer, ""));
            },
            Some(m) => match m.dunce_role_id {
                None => {
                    return Err(ArgError::new(ArgErrorKind::NoDunceRole, ""));
                },
                Some(d) => Some(d),
            },
        },
        PunishmentType::Ban => None,
    };
    let (user_id, seconds) = match parse_punish_options(options) {
        Err(e) => {
            return Err(e);
        },
        Ok(p) => p,
    };
    if now as i128 + seconds as i128 > i64::MAX as i128 {
        return Err(ArgError::new(ArgErrorKind::DurationOverflow, ""));
    }
    let expires = if seconds == 0 {
        None
    } else {
        Some(now + seconds)
    };
    Ok(PunishmentRequest { server_id: sid, user_id, punishment_type, expires, dunce_role_id })
}

/// Whether `steps` are the platform calls that put the punishment `req` into
/// force on a member who holds `roles`: a dunce loses them all in one call and
/// then gets the dunce role; a ban is a ban.
pub open spec fn enforces(steps: Seq<Step>, req: PunishmentRequest, roles: Seq<u64>) -> bool {
    match req.punishment_type {
        PunishmentType::Dunce => {
            &&& steps.len() == 2
            &&& (steps[0] matches Step::RemoveRoles(v) && v@ == roles)
            &&& steps[1] == Step::AddRole(req.dunce_role_id->Some_0)
        },
        PunishmentType::Ban => steps == seq![Step::Ban],
    }
}

/// The platform calls that put `req` into force on a member who holds
/// `roles`. The caller records each of `roles` as removed by the punishment
/// before it makes any of these calls.
pub fn enforce_punishment(req: &PunishmentRequest, roles: &Vec<u64>) -> (r: Vec<Step>)
    requires
        req.punishment_type == PunishmentType::Dunce ==> req.dunce_role_id is Some,
    ensures
        enforces(r@, *req, roles@),
{
    match req.punishment_type {
        PunishmentType::Dunce => {
            let d = match req.dunce_role_id {
                Some(d) => d,
                None => 0,
            };
            let mut r: Vec<Step> = Vec::new();
            r.push(Step::RemoveRoles(copy_ids(roles)));
            r.push(Step::AddRole(d));
            r
        },
        PunishmentType::Ban => {
            let mut r: Vec<Step> = Vec::new();
            r.push(Step::Ban);
            assert(r@ =~= seq![Step::Ban]);
            r
        },
    }
}

/// The row that records `req` in the store under identifier `id`.
pub open spec fn record_of(req: PunishmentRequest, id: i64) -> punishment::Model {
    punishment::Model {
        id,
        user_id: req.user_id,
        server_id: req.server_id,
        punishment_type: req.punishment_type,
        expires: req.expires,
    }
}

impl PunishmentRequest {
    /// The row that records this punishment, once the store has given it `id`.
    pub fn to_model(&self, id: i64) -> (r: punishment::Model)
        ensures
            r == record_of(*self, id),
    {
        punishment::Model {
            id,
            user_id: self.user_id,
            server_id: self.server_id,
            punishment_type: self.punishment_type,
            expires: self.expires,
        }
    }
}

/// A request to end the punishments of one kind of one user in one community.
#[derive(Clone, Copy, Debug)]
pub struct LiftRequest {
    pub server_id: u64,
    pub user_id: u64,
    pub punishment_type: PunishmentType,
    /// The community's dunce role, known for every lifted dunce.
    pub dunce_role_id: Option<u64>,
}

/// Checks an `undunce` or `unban` invocation made in community `server_id`,
/// whose configuration `server` has been loaded if the community has one.
pub fn prepare_lift(
    punishment_type: PunishmentType,
    server_id: Option<u64>,
    server: Option<&server::Model>,
    options: &Vec<CommandOption>,
) -> (r: Result<LiftRequest, ArgError>)
    ensures
        server_id is None ==> r is Err && r->Err_0@ == (ArgErrorKind::NotInServer, ""@),
        server_id is Some && punishment_type == PunishmentType::Dunce && server is None ==> r is Err
            && r->Err_0@ == (ArgErrorKind::NotInServer, ""@),
        server_id is Some && punishment_type == PunishmentType::Dunce && server is Some
            && server->Some_0.dunce_role_id is None ==> r is Err && r->Err_0@ == (ArgErrorKind::NoDunceRole, ""@),
        server_id is Some && (punishment_type == PunishmentType::Ban || (server is Some
            && server->Some_0.dunce_role_id is Some)) ==> match lift_options_spec(options@) {
            Err(e) => r is Err && r->Err_0@ == e,
            Ok(u) => r matches Ok(req) && req.server_id == server_id->Some_0 && req.user_id == u
                && req.punishment_type == punishment_type && (punishment_type == PunishmentType::Dunce
                ==> req.dunce_role_id == server->Some_0.dunce_role_id) && (punishment_type
                == PunishmentType::Ban ==> req.dunce_role_id is None),
        },
{
    let sid = match server_id {
        None => {
            return Err(ArgError::new(ArgErrorKind::NotInServer, ""));
        },
        Some(s) => s,
    };
    let dunce_role_id = match punishment_type {
        PunishmentType::Dunce => match server {
            None => {
                return Err(ArgError::new(ArgErrorKind::NotInServer, ""));
            },
            Some(m) => match m.dunce_role_id {
                None => {
                    return Err(ArgError::new(ArgErrorKind::NoDunceRole, ""));
                },
                Some(d) => Some(d),
            },
        },
        PunishmentType::Ban => None,
    };
    match parse_lift_options(options) {
        Err(e) => Err(e),
        Ok(user_id) => Ok(LiftRequest { server_id: sid, user_id, punishment_type, dunce_role_id }),
    }
}

/// How a lift ended.
#[derive(Clone, Copy, Debug, PartialEq, Eq, Structural)]
pub enum LiftOutcome {
    /// At least one punishment was ended.
    Lifted,
    /// The user had no such punishment; nothing was done.
    NotFound,
}

/// Whether the row `p` is a punishment that `req` asks to end.
pub open spec fn is_target(p: punishment::Model, req: LiftRequest) -> bool {
    p.server_id == req.server_id && p.user_id == req.user_id && p.punishment_type == req.punishment_type
}

/// Whether some record of `recs` is one that `req` asks to end.
pub open spec fn has_target(req: LiftRequest, recs: Seq<PunishmentRecord>) -> bool {
    exists|i: int| 0 <= i < recs.len() && #[trigger] is_target(recs[i].punishment, req)
}

/// The steps that end, in order, each record of `recs` that `req` asks to end.
pub open spec fn target_steps(req: LiftRequest, recs: Seq<PunishmentRecord>) -> Seq<Step>
    decreases recs.len(),
{
    if recs.len() == 0 {
        seq![]
    } else {
        target_steps(req, recs.drop_last()) + if is_target(recs.last().punishment, req) {
            record_steps(recs.last())
        } else {
            seq![]
        }
    }
}

/// The steps of lifting `req` given the records the store returned: every
/// targeted punishment is ended, then the dunce role is taken away or the ban
/// lifted, once. With nothing to end there is nothing to do.
pub open spec fn lift_steps(req: LiftRequest, recs: Seq<PunishmentRecord>) -> Seq<Step> {
    if has_target(req, recs) {
        target_steps(req, recs) + closing_steps(req.punishment_type, req.dunce_role_id)
    } else {
        seq![]
    }
}

/// The outcome of lifting `req` given the records the store returned.
pub open spec fn lift_outcome(req: LiftRequest, recs: Seq<PunishmentRecord>) -> LiftOutcome {
    if has_target(req, recs) {
        LiftOutcome::Lifted
    } else {
        LiftOutcome::NotFound
    }
}

/// Decides how to lift `req`, given the punishments (with their removed
/// roles) that the store returned for it.
pub fn plan_lift(req: &LiftRequest, records: &Vec<PunishmentRecord>) -> (r: (LiftOutcome, Vec<Step>))
    ensures
        r.0 == lift_outcome(*req, records@),
        r.1@ == lift_steps(*req, records@),
{
    let mut steps: Vec<Step> = Vec::new();
    let mut found = false;
    let mut i: usize = 0;
    while i < records.len()
        invariant
            i <= records@.len(),
            steps@ == target_steps(*req, records@.subrange(0, i as int)),
            found == has_target(*req, records@.subrange(0, i as int)),
            !found ==> steps@.len() == 0,
        decreases records@.len() - i,
    {
        let rec = &records[i];
        let ghost prefix = records@.subrange(0, i as int);
        proof {
            assert(records@.subrange(0, i + 1).drop_last() =~= prefix);
        }
        let p = rec.punishment;
        if p.server_id == req.server_id && p.user_id == req.user_id && p.punishment_type
            == req.punishment_type {
            push_record_steps(&mut steps, rec);
            found = true;
            assert(is_target(records@.subrange(0, i + 1)[i as int].punishment, *req));
        } else {
            assert(steps@ =~= target_steps(*req, records@.subrange(0, i + 1)));
            assert forall|j: int| 0 <= j < i + 1 && is_target(
                #[trigger] records@.subrange(0, i + 1)[j].punishment,
                *req,
            ) implies 0 <= j < i && is_target(prefix[j].punishment, *req) by {
                assert(records@.subrange(0, i + 1)[j] == records@[j]);
            }
        }
        i = i + 1;
    }
    assert(records@.subrange(0, records@.len() as int) =~= records@);
    if found {
        push_closing_steps(&mut steps, req.punishment_type, req.dunce_role_id);
        (LiftOutcome::Lifted, steps)
    } else {
        assert(steps@ =~= seq![]);
        (LiftOutcome::NotFound, steps)
    }
}

/// Every record that `req` targets has its row deleted by the lift's steps.
proof fn lemma_target_steps_delete(req: LiftRequest, recs: Seq<PunishmentRecord>)
    ensures
        forall|i: int|
            0 <= i < recs.len() && #[trigger] is_target(recs[i].punishment, req) ==> exists|k: int|
                0 <= k < target_steps(req, recs).len() && target_steps(req, recs)[k]
                    == Step::DeletePunishment(recs[i].punishment.id),
    decreases recs.len(),
{
    if recs.len() > 0 {
        let prev = recs.drop_last();
        lemma_target_steps_delete(req, prev);
        let last_steps = if is_target(recs.last().punishment, req) {
            record_steps(recs.last())
        } else {
            seq![]
        };
        assert(target_steps(req, recs) == target_steps(req, prev) + last_steps);
        assert forall|i: int|
            0 <= i < recs.len() && #[trigger] is_target(recs[i].punishment, req) implies exists|k: int|
                0 <= k < target_steps(req, recs).len() && target_steps(req, recs)[k]
                    == Step::DeletePunishment(recs[i].punishment.id) by {
            if i < recs.len() - 1 {
                assert(prev[i] == recs[i]);
                let k = choose|k: int|
                    0 <= k < target_steps(req, prev).len() && target_steps(req, prev)[k]
                        == Step::DeletePunishment(prev[i].punishment.id);
                assert(target_steps(req, recs)[k] == Step::DeletePunishment(recs[i].punishment.id));
            } else {
                let k = target_steps(req, prev).len() as int;
                assert(last_steps[0] == Step::DeletePunishment(recs[i].punishment.id));
                assert(target_steps(req, recs)[k] == Step::DeletePunishment(recs[i].punishment.id));
            }
        }
    }
}

/// Lifting twice in a row. Where the store holds a punishment that `req`
/// targets, and `first` is what the store returns for `req` (every targeted
/// row, and only rows of the store), the first lift ends it. `second` is
/// anything the store can return after the first lift's steps: it holds no
/// targeted punishment, so the second lift finds nothing and does nothing.
/// Neither lift is an error: `plan_lift` has no error at all.
pub proof fn lemma_lift_twice(
    w: World,
    req: LiftRequest,
    first: Seq<PunishmentRecord>,
    second: Seq<PunishmentRecord>,
)
    requires
        exists|p: punishment::Model| #[trigger] w.punishments.contains(p) && is_target(p, req),
        forall|p: punishment::Model|
            #[trigger] w.punishments.contains(p) && is_target(p, req) ==> exists|i: int|
                0 <= i < first.len() && first[i].punishment == p,
        forall|i: int| 0 <= i < first.len() ==> w.punishments.contains(#[trigger] first[i].punishment),
        forall|i: int|
            0 <= i < second.len() ==> apply_steps(w, lift_steps(req, first)).punishments.contains(
                #[trigger] second[i].punishment,
            ),
    ensures
        lift_outcome(req, first) == LiftOutcome::Lifted,
        lift_outcome(req, second) == LiftOutcome::NotFound,
        lift_steps(req, second) == Seq::<Step>::empty(),
{
    let p0 = choose|p: punishment::Model| #[trigger] w.punishments.contains(p) && is_target(p, req);
    let i0 = choose|i: int| 0 <= i < first.len() && first[i].punishment == p0;
    assert(is_target(first[i0].punishment, req));
    assert(has_target(req, first));
    let steps = lift_steps(req, first);
    lemma_target_steps_delete(req, first);
    lemma_punishments_after(w, steps);
    assert forall|i: int| 0 <= i < second.len() implies !(#[trigger] is_target(second[i].punishment, req)) by {
        let p = second[i].punishment;
        assert(apply_steps(w, steps).punishments.contains(p));
        if is_target(p, req) {
            assert(w.punishments.contains(p));
            let j = choose|j: int| 0 <= j < first.len() && first[j].punishment == p;
            assert(is_target(first[j].punishment, req));
            let k = choose|k: int|
                0 <= k < target_steps(req, first).len() && target_steps(req, first)[k]
                    == Step::DeletePunishment(first[j].punishment.id);
            assert(steps[k] == Step::DeletePunishment(p.id));
        }
    }
    assert(!has_target(req, second));
}

/// What giving back the rows `rows` of a dunce does: each role is given again
/// and each row deleted.
proof fn lemma_dunce_role_return(w: World, rows: Seq<punishment_removed_role::Model>)
    ensures
        apply_steps(w, role_return_steps(PunishmentType::Dunce, rows)).roles == w.roles.union(
            Set::new(|r: u64| exists|i: int| 0 <= i < rows.len() && rows[i].role_id == r),
        ),
        apply_steps(w, role_return_steps(PunishmentType::Dunce, rows)).removed_roles
            == w.removed_roles.filter(
            |x: punishment_removed_role::Model| forall|i: int| 0 <= i < rows.len() ==> rows[i].id != x.id,
        ),
        apply_steps(w, role_return_steps(PunishmentType::Dunce, rows)).punishments == w.punishments,
    decreases rows.len(),
{
    let s = role_return_steps(PunishmentType::Dunce, rows);
    if rows.len() == 0 {
        assert(w.roles.union(
            Set::new(|r: u64| exists|i: int| 0 <= i < rows.len() && rows[i].role_id == r),
        ) =~= w.roles);
        assert(w.removed_roles.filter(
            |x: punishment_removed_role::Model| forall|i: int| 0 <= i < rows.len() ==> rows[i].id != x.id,
        ) =~= w.removed_roles);
    } else {
        let prev = rows.drop_last();
        let x = rows.last();
        lemma_dunce_role_return(w, prev);
        let a = role_return_steps(PunishmentType::Dunce, prev);
        let b = seq![Step::AddRole(x.role_id), Step::DeleteRemovedRole(x.id)];
        assert(s == a + b);
        lemma_apply_steps_append(w, a, b);
        let w1 = apply_steps(w, a);
        lemma_apply_two(w1, Step::AddRole(x.role_id), Step::DeleteRemovedRole(x.id));
        let w2 = apply_steps(w, s);
        assert(w2.roles == w1.roles.insert(x.role_id));
        assert(w2.removed_roles == w1.removed_roles.filter(
            |y: punishment_removed_role::Model| y.id != x.id,
        ));
        assert(w2.roles =~= w.roles.union(
            Set::new(|r: u64| exists|i: int| 0 <= i < rows.len() && rows[i].role_id == r),
        )) by {
            assert forall|r: u64| w2.roles.contains(r) implies w.roles.union(
                Set::new(|r: u64| exists|i: int| 0 <= i < rows.len() && rows[i].role_id == r),
            ).contains(r) by {
                if r != x.role_id && !w.roles.contains(r) {
                    let i = choose|i: int| 0 <= i < prev.len() && prev[i].role_id == r;
                    assert(rows[i].role_id == r);
                }
            }
            assert forall|r: u64| w.roles.union(
                Set::new(|r: u64| exists|i: int| 0 <= i < rows.len() && rows[i].role_id == r),
            ).contains(r) implies w2.roles.contains(r) by {
                if !w.roles.contains(r) && r != x.role_id {
                    let i = choose|i: int| 0 <= i < rows.len() && rows[i].role_id == r;
                    assert(i < prev.len());
                    assert(prev[i].role_id == r);
                }
            }
        }
        assert(w2.removed_roles =~= w.removed_roles.filter(
            |y: punishment_removed_role::Model| forall|i: int| 0 <= i < rows.len() ==> rows[i].id != y.id,
        )) by {
            assert forall|y: punishment_removed_role::Model| w2.removed_roles.contains(y) implies (forall|i: int|
                0 <= i < rows.len() ==> rows[i].id != y.id) by {
                assert forall|i: int| 0 <= i < rows.len() implies rows[i].id != y.id by {
                    if i < prev.len() {
                        assert(prev[i] == rows[i]);
                    }
                }
            }
            assert forall|y: punishment_removed_role::Model|
                w.removed_roles.contains(y) && (forall|i: int| 0 <= i < rows.len() ==> rows[i].id != y.id)
                implies w2.removed_roles.contains(y) by {
                assert forall|i: int| 0 <= i < prev.len() implies prev[i].id != y.id by {
                    assert(prev[i] == rows[i]);
                }
                assert(rows[rows.len() - 1].id != y.id);
            }
        }
    }
}

/// Dunce, then lift at once. `w` is the store and member just after the
/// dunce was recorded: the member holds exactly `roles` (not the dunce role),
/// and the removed-role rows of the new punishment `id` are exactly `rows`,
/// one per role. `create` are the dunce's platform calls, and the lift's
/// store answer is that punishment with its rows. Afterwards the member holds
/// exactly `roles` again, and neither the punishment nor any of its
/// removed-role rows is left.
pub proof fn lemma_dunce_round_trip(
    w: World,
    req: PunishmentRequest,
    roles: Seq<u64>,
    create: Seq<Step>,
    id: i64,
    rec: PunishmentRecord,
)
    requires
        req.punishment_type == PunishmentType::Dunce,
        req.dunce_role_id is Some,
        !roles.contains(req.dunce_role_id->Some_0),
        w.roles == roles.to_set(),
        enforces(create, req, roles),
        rec.punishment == record_of(req, id),
        rec.removed_roles@.len() == roles.len(),
        forall|i: int|
            0 <= i < roles.len() ==> (#[trigger] rec.removed_roles@[i]).punishment_id == id
                && rec.removed_roles@[i].role_id == roles[i],
        forall|x: punishment_removed_role::Model|
            #[trigger] w.removed_roles.contains(x) && x.punishment_id == id ==> rec.removed_roles@.contains(x),
    ensures
        ({
            let lift = LiftRequest {
                server_id: req.server_id,
                user_id: req.user_id,
                punishment_type: PunishmentType::Dunce,
                dunce_role_id: req.dunce_role_id,
            };
            let after = apply_steps(w, create + lift_steps(lift, seq![rec]));
            &&& after.roles == roles.to_set()
            &&& forall|x: punishment_removed_role::Model| #[trigger]
                after.removed_roles.contains(x) ==> x.punishment_id != id
            &&& forall|p: punishment::Model| #[trigger] after.punishments.contains(p) ==> p.id != id
        }),
{
    let lift = LiftRequest {
        server_id: req.server_id,
        user_id: req.user_id,
        punishment_type: PunishmentType::Dunce,
        dunce_role_id: req.dunce_role_id,
    };
    let d = req.dunce_role_id->Some_0;
    let rows = rec.removed_roles@;
    let recs = seq![rec];
    assert(is_target(recs[0].punishment, lift));
    assert(has_target(lift, recs));
    assert(recs.drop_last() =~= Seq::<PunishmentRecord>::empty());
    assert(recs.last() == rec);
    assert(target_steps(lift, Seq::<PunishmentRecord>::empty()) == Seq::<Step>::empty());
    assert(target_steps(lift, recs) =~= record_steps(rec));
    let ls = lift_steps(lift, recs);
    // the dunce's own calls
    lemma_apply_steps_append(w, create, ls);
    assert(create =~= seq![create[0], create[1]]);
    lemma_apply_two(w, create[0], create[1]);
    let w1 = apply_steps(w, create);
    let v = create[0]->RemoveRoles_0;
    assert(v@.to_set() == roles.to_set());
    assert(apply_step(w, create[0]).roles =~= Set::<u64>::empty());
    assert(w1.roles =~= set![d]);
    // the lift
    let del = seq![Step::DeletePunishment(id)];
    let rr = role_return_steps(PunishmentType::Dunce, rows);
    let close = seq![Step::RemoveRole(d)];
    assert(ls =~= del + rr + close);
    lemma_apply_steps_append(w1, del + rr, close);
    lemma_apply_steps_append(w1, del, rr);
    lemma_apply_one(w1, Step::DeletePunishment(id));
    let w2 = apply_steps(w1, del);
    lemma_dunce_role_return(w2, rows);
    let w3 = apply_steps(w2, rr);
    lemma_apply_one(w3, Step::RemoveRole(d));
    let after = apply_steps(w3, close);
    assert(after == apply_steps(w, create + ls));
    assert(after.roles =~= roles.to_set()) by {
        assert forall|r: u64| roles.to_set().contains(r) implies after.roles.contains(r) by {
            let i = choose|i: int| 0 <= i < roles.len() && roles[i] == r;
            assert(rows[i].role_id == r);
        }
        assert forall|r: u64| after.roles.contains(r) implies roles.to_set().contains(r) by {
            if r != d {
                let i = choose|i: int| 0 <= i < rows.len() && rows[i].role_id == r;
                assert(roles[i] == r);
            }
        }
    }
    assert forall|x: punishment_removed_role::Model| #[trigger]
        after.removed_roles.contains(x) implies x.punishment_id != id by {
        if x.punishment_id == id {
            assert(w.removed_roles.contains(x));
            let i = choose|i: int| 0 <= i < rows.len() && rows[i] == x;
        }
    }
}

} // verus!
