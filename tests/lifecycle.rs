use raincoat::commands::options::{parse_integer_option, ArgErrorKind, CommandOption, OptionValue};
use raincoat::commands::punishments::{
    duration_parse, enforce_punishment, plan_lift, prepare_lift, prepare_punishment,
    LiftOutcome, LiftRequest,
};
use raincoat::effects::Step;
use raincoat::model::punishment::{Model, PunishmentType};
use raincoat::model::punishment_removed_role;
use raincoat::model::server;
use raincoat::restore::PunishmentRecord;
use std::collections::BTreeSet;

fn opt(name: &str, value: Option<OptionValue>) -> CommandOption {
    CommandOption { name: name.to_string(), value }
}

fn user(id: u64) -> CommandOption {
    opt("user", Some(OptionValue::User(id)))
}

fn integer(name: &str, v: i64) -> CommandOption {
    opt(name, Some(OptionValue::Integer(v)))
}

fn server_with_dunce(id: u64, dunce: Option<u64>) -> server::Model {
    server::Model {
        id,
        mod_role_id: 1,
        verified_role_id: None,
        verification_message_id: None,
        verification_emoji: None,
        verification_timeout: None,
        dunce_role_id: dunce,
    }
}

fn record(id: i64, user_id: u64, server_id: u64, kind: PunishmentType, expires: Option<i64>, roles: &[u64]) -> PunishmentRecord {
    PunishmentRecord {
        punishment: Model { id, user_id, server_id, punishment_type: kind, expires },
        removed_roles: roles
            .iter()
            .enumerate()
            .map(|(i, r)| punishment_removed_role::Model { id: 100 + i as i64, punishment_id: id, role_id: *r })
            .collect(),
    }
}

#[test]
fn every_unit_adds_its_fixed_length() {
    let now = 1_000_000;
    let opts = vec![
        user(7),
        integer("years", 1),
        integer("months", 1),
        integer("weeks", 1),
        integer("days", 1),
        integer("hours", 1),
        integer("minutes", 1),
    ];
    let req = prepare_punishment(PunishmentType::Ban, Some(42), None, &opts, now).unwrap();
    let total = 48 * 604800 + 4 * 604800 + 604800 + 86400 + 3600 + 60;
    assert_eq!(req.expires, Some(now + total));
    assert_eq!(req.user_id, 7);
    assert_eq!(req.server_id, 42);
}

#[test]
fn zero_length_is_indefinite() {
    let opts = vec![user(7), integer("days", 0), integer("hours", 0)];
    let req = prepare_punishment(PunishmentType::Ban, Some(42), None, &opts, 500).unwrap();
    assert_eq!(req.expires, None);
    let opts = vec![user(7)];
    let req = prepare_punishment(PunishmentType::Ban, Some(42), None, &opts, 500).unwrap();
    assert_eq!(req.expires, None);
}

#[test]
fn a_day_ban_expires_a_day_later() {
    let opts = vec![user(7), integer("days", 1)];
    let req = prepare_punishment(PunishmentType::Ban, Some(42), None, &opts, 10_000).unwrap();
    assert_eq!(req.expires, Some(10_000 + 86_400));
}

#[test]
fn dunce_needs_a_community_and_a_dunce_role() {
    let opts = vec![user(7)];
    let e = prepare_punishment(PunishmentType::Dunce, None, None, &opts, 0).unwrap_err();
    assert_eq!(e.kind, ArgErrorKind::NotInServer);
    let e = prepare_punishment(PunishmentType::Dunce, Some(42), None, &opts, 0).unwrap_err();
    assert_eq!(e.kind, ArgErrorKind::NotInServer);
    let s = server_with_dunce(42, None);
    let e = prepare_punishment(PunishmentType::Dunce, Some(42), Some(&s), &opts, 0).unwrap_err();
    assert_eq!(e.kind, ArgErrorKind::NoDunceRole);
    assert_eq!(e.to_error().cause, "No dunce role has been configured for this server.");
    let s = server_with_dunce(42, Some(9));
    let req = prepare_punishment(PunishmentType::Dunce, Some(42), Some(&s), &opts, 0).unwrap();
    assert_eq!(req.dunce_role_id, Some(9));
}

#[test]
fn option_errors_name_the_parameter() {
    let e = prepare_punishment(PunishmentType::Ban, Some(1), None, &vec![], 0).unwrap_err();
    assert_eq!((e.kind, e.param.as_str()), (ArgErrorKind::Missing, "user"));
    assert_eq!(e.to_error().cause, "Requires 'user' param");
    let e = prepare_punishment(PunishmentType::Ban, Some(1), None, &vec![opt("user", None)], 0).unwrap_err();
    assert_eq!(e.kind, ArgErrorKind::Unresolved);
    assert_eq!(e.to_error().cause, "Couldn't resolve 'user' param");
    let e = prepare_punishment(PunishmentType::Ban, Some(1), None, &vec![opt("user", Some(OptionValue::Integer(3)))], 0)
        .unwrap_err();
    assert_eq!(e.kind, ArgErrorKind::WrongType);
    assert_eq!(e.to_error().cause, "Unexpected type for 'user' param");
    let e = prepare_punishment(PunishmentType::Ban, Some(1), None, &vec![user(2), integer("fortnights", 1)], 0).unwrap_err();
    assert_eq!((e.kind, e.param.as_str()), (ArgErrorKind::UnknownParam, "fortnights"));
    assert_eq!(e.to_error().cause, "Unknown param: fortnights");
    let e = prepare_punishment(PunishmentType::Ban, Some(1), None, &vec![user(2), integer("days", -1)], 0).unwrap_err();
    assert_eq!((e.kind, e.param.as_str()), (ArgErrorKind::Negative, "days"));
    assert_eq!(e.to_error().cause, "'days' must not be negative");
}

#[test]
fn too_long_a_punishment_is_refused() {
    let e = prepare_punishment(PunishmentType::Ban, Some(1), None, &vec![user(2), integer("years", i64::MAX)], 0)
        .unwrap_err();
    assert_eq!(e.kind, ArgErrorKind::DurationOverflow);
    let e = prepare_punishment(PunishmentType::Ban, Some(1), None, &vec![user(2), integer("minutes", 2)], i64::MAX - 100)
        .unwrap_err();
    assert_eq!(e.kind, ArgErrorKind::DurationOverflow);
    assert_eq!(e.to_error().cause, "The requested duration is too long.");
}

#[test]
fn duration_parse_accumulates_and_keeps_total_on_error() {
    let mut acc: i64 = 60;
    duration_parse(&mut acc, "hours", &integer("hours", 2)).unwrap();
    assert_eq!(acc, 60 + 7200);
    assert!(duration_parse(&mut acc, "hours", &opt("hours", Some(OptionValue::Text("x".to_string())))).is_err());
    assert_eq!(acc, 7260);
    assert!(duration_parse(&mut acc, "weeks", &integer("weeks", i64::MAX)).is_err());
    assert_eq!(acc, 7260);
}

#[test]
fn integer_option_is_read() {
    assert_eq!(parse_integer_option("days", &integer("days", 5)).unwrap(), 5);
    assert_eq!(parse_integer_option("days", &opt("days", None)).unwrap_err().kind, ArgErrorKind::Unresolved);
}

#[test]
fn dunce_strips_roles_then_gives_dunce_role() {
    let s = server_with_dunce(42, Some(9));
    let req = prepare_punishment(PunishmentType::Dunce, Some(42), Some(&s), &vec![user(7)], 0).unwrap();
    let steps = enforce_punishment(&req, &vec![3, 4]);
    assert_eq!(steps.len(), 2);
    match &steps[0] {
        Step::RemoveRoles(v) => assert_eq!(v, &vec![3, 4]),
        other => panic!("unexpected {:?}", other),
    }
    assert!(matches!(steps[1], Step::AddRole(9)));
    let ban = prepare_punishment(PunishmentType::Ban, Some(42), None, &vec![user(7)], 0).unwrap();
    let steps = enforce_punishment(&ban, &vec![3, 4]);
    assert_eq!(steps.len(), 1);
    assert!(matches!(steps[0], Step::Ban));
}

fn dunce_lift(user_id: u64) -> LiftRequest {
    LiftRequest { server_id: 42, user_id, punishment_type: PunishmentType::Dunce, dunce_role_id: Some(9) }
}

#[test]
fn lift_of_missing_punishment_is_not_found_and_does_nothing() {
    let (outcome, steps) = plan_lift(&dunce_lift(7), &vec![]);
    assert_eq!(outcome, LiftOutcome::NotFound);
    assert!(steps.is_empty());
    // rows of other users, kinds and communities are not targets
    let recs = vec![
        record(1, 8, 42, PunishmentType::Dunce, None, &[3]),
        record(2, 7, 42, PunishmentType::Ban, None, &[3]),
        record(3, 7, 43, PunishmentType::Dunce, None, &[3]),
    ];
    let (outcome, steps) = plan_lift(&dunce_lift(7), &recs);
    assert_eq!(outcome, LiftOutcome::NotFound);
    assert!(steps.is_empty());
}

#[test]
fn lift_twice_is_lifted_then_not_found() {
    let recs = vec![record(1, 7, 42, PunishmentType::Dunce, None, &[3, 4])];
    let (first, steps) = plan_lift(&dunce_lift(7), &recs);
    assert_eq!(first, LiftOutcome::Lifted);
    assert!(matches!(steps[0], Step::DeletePunishment(1)));
    // the store no longer holds the row, so the second query returns nothing
    let (second, steps) = plan_lift(&dunce_lift(7), &vec![]);
    assert_eq!(second, LiftOutcome::NotFound);
    assert!(steps.is_empty());
}

#[test]
fn dunce_lift_restores_roles_in_order() {
    let recs = vec![record(1, 7, 42, PunishmentType::Dunce, None, &[3, 4])];
    let (_, steps) = plan_lift(&dunce_lift(7), &recs);
    let shown: Vec<String> = steps.iter().map(|s| format!("{:?}", s)).collect();
    assert_eq!(
        shown,
        vec![
            "DeletePunishment(1)",
            "AddRole(3)",
            "DeleteRemovedRole(100)",
            "AddRole(4)",
            "DeleteRemovedRole(101)",
            "RemoveRole(9)",
        ]
    );
}

#[test]
fn dunce_then_lift_gives_back_exactly_the_roles() {
    let held = vec![3u64, 4, 5];
    let s = server_with_dunce(42, Some(9));
    let req = prepare_punishment(PunishmentType::Dunce, Some(42), Some(&s), &vec![user(7)], 0).unwrap();
    let mut roles: BTreeSet<u64> = held.iter().copied().collect();
    let mut rows: Vec<punishment_removed_role::Model> = Vec::new();
    for (i, r) in held.iter().enumerate() {
        rows.push(punishment_removed_role::Model { id: 10 + i as i64, punishment_id: 1, role_id: *r });
    }
    let apply = |roles: &mut BTreeSet<u64>, rows: &mut Vec<punishment_removed_role::Model>, steps: &[Step]| {
        for s in steps {
            match s {
                Step::AddRole(r) => {
                    roles.insert(*r);
                },
                Step::RemoveRole(r) => {
                    roles.remove(r);
                },
                Step::RemoveRoles(v) => {
                    for r in v {
                        roles.remove(r);
                    }
                },
                Step::DeleteRemovedRole(id) => rows.retain(|x| x.id != *id),
                _ => {},
            }
        }
    };
    apply(&mut roles, &mut rows, &enforce_punishment(&req, &held));
    assert_eq!(roles.iter().copied().collect::<Vec<_>>(), vec![9]);
    let recs = vec![PunishmentRecord { punishment: req.to_model(1), removed_roles: rows.clone() }];
    let lift = prepare_lift(PunishmentType::Dunce, Some(42), Some(&s), &vec![user(7)]).unwrap();
    let (outcome, steps) = plan_lift(&lift, &recs);
    assert_eq!(outcome, LiftOutcome::Lifted);
    apply(&mut roles, &mut rows, &steps);
    assert_eq!(roles.iter().copied().collect::<Vec<_>>(), held);
    assert!(rows.is_empty());
}

#[test]
fn ban_lift_deletes_rows_without_giving_roles_and_unbans_once() {
    let recs = vec![
        record(1, 7, 42, PunishmentType::Ban, None, &[3]),
        record(2, 7, 42, PunishmentType::Ban, None, &[4]),
    ];
    let req = LiftRequest { server_id: 42, user_id: 7, punishment_type: PunishmentType::Ban, dunce_role_id: None };
    let (outcome, steps) = plan_lift(&req, &recs);
    assert_eq!(outcome, LiftOutcome::Lifted);
    let shown: Vec<String> = steps.iter().map(|s| format!("{:?}", s)).collect();
    assert_eq!(
        shown,
        vec!["DeletePunishment(1)", "DeleteRemovedRole(100)", "DeletePunishment(2)", "DeleteRemovedRole(100)", "Unban"]
    );
}

#[test]
fn lift_checks_its_invocation() {
    let e = prepare_lift(PunishmentType::Ban, None, None, &vec![user(7)]).unwrap_err();
    assert_eq!(e.kind, ArgErrorKind::NotInServer);
    let e = prepare_lift(PunishmentType::Ban, Some(42), None, &vec![user(7), integer("days", 1)]).unwrap_err();
    assert_eq!((e.kind, e.param.as_str()), (ArgErrorKind::UnknownParam, "days"));
    let e = prepare_lift(PunishmentType::Dunce, Some(42), Some(&server_with_dunce(42, None)), &vec![user(7)]).unwrap_err();
    assert_eq!(e.kind, ArgErrorKind::NoDunceRole);
    let req = prepare_lift(PunishmentType::Ban, Some(42), None, &vec![user(7)]).unwrap();
    assert_eq!((req.server_id, req.user_id, req.dunce_role_id), (42, 7, None));
}
