use raincoat::commands::punishments::{enforce_punishment, plan_lift, prepare_punishment, LiftRequest};
use raincoat::commands::options::{CommandOption, OptionValue};
use raincoat::effects::Step;
use raincoat::emoji::Emoji;
use raincoat::events::{guild_member_addition, match_reaction, reaction_add, ReactionDecision};
use raincoat::model::punishment::{Model, PunishmentType};
use raincoat::model::punishment_removed_role;
use raincoat::model::server;
use raincoat::restore::PunishmentRecord;
use raincoat::scheduler::{expiry_sweep, update_server, verification_sweep, MemberInfo};

const HOUR: i64 = 3600;

fn verifying_server(timeout: Option<i64>) -> server::Model {
    server::Model {
        id: 42,
        mod_role_id: 1,
        verified_role_id: Some(50),
        verification_message_id: Some(777),
        verification_emoji: Some("✅".to_string()),
        verification_timeout: timeout,
        dunce_role_id: Some(9),
    }
}

fn member(user_id: u64, roles: Vec<u64>, bot: bool, joined_at: Option<i64>) -> MemberInfo {
    MemberInfo { user_id, roles, bot, joined_at }
}

fn punishment(id: i64, user_id: u64, kind: PunishmentType, expires: Option<i64>) -> PunishmentRecord {
    PunishmentRecord {
        punishment: Model { id, user_id, server_id: 42, punishment_type: kind, expires },
        removed_roles: vec![],
    }
}

#[test]
fn unverified_member_past_timeout_is_kicked() {
    let now = 1_000_000;
    let s = verifying_server(Some(24));
    let members = vec![member(7, vec![3], false, Some(now - 25 * HOUR))];
    assert_eq!(verification_sweep(&s, &members, &vec![], now), vec![7]);
}

#[test]
fn punished_member_past_timeout_is_not_kicked() {
    let now = 1_000_000;
    let s = verifying_server(Some(24));
    let members = vec![member(7, vec![9], false, Some(now - 25 * HOUR))];
    let recs = vec![punishment(1, 7, PunishmentType::Dunce, None)];
    assert!(verification_sweep(&s, &members, &recs, now).is_empty());
    // however far past the timeout
    let members = vec![member(7, vec![], false, Some(i64::MIN))];
    assert!(verification_sweep(&s, &members, &recs, now).is_empty());
}

#[test]
fn expiring_punishment_still_protects_during_its_tick() {
    let now = 1_000_000;
    let s = verifying_server(Some(24));
    let members = vec![member(7, vec![], false, Some(now - 25 * HOUR))];
    let recs = vec![punishment(1, 7, PunishmentType::Dunce, Some(now - 1))];
    let plan = update_server(&s, &members, &recs, now);
    assert!(plan.kicks.is_empty());
    assert_eq!(plan.expiries.len(), 1);
    assert_eq!(plan.expiries[0].user_id, 7);
}

#[test]
fn sweep_spares_verified_bots_recent_and_unconfigured() {
    let now = 1_000_000;
    let s = verifying_server(Some(24));
    let members = vec![
        member(1, vec![50], false, Some(now - 100 * HOUR)),
        member(2, vec![], true, Some(now - 100 * HOUR)),
        member(3, vec![], false, Some(now - 23 * HOUR)),
        member(4, vec![], false, None),
        member(5, vec![], false, Some(now - 24 * HOUR)),
        member(6, vec![], false, Some(now - 24 * HOUR - 1)),
    ];
    assert_eq!(verification_sweep(&s, &members, &vec![], now), vec![6]);
    let no_timeout = verifying_server(None);
    assert!(verification_sweep(&no_timeout, &members, &vec![], now).is_empty());
}

#[test]
fn day_ban_expires_after_a_day_and_unbans_once() {
    let created = 2_000_000;
    let opts = vec![
        CommandOption { name: "user".to_string(), value: Some(OptionValue::User(7)) },
        CommandOption { name: "days".to_string(), value: Some(OptionValue::Integer(1)) },
    ];
    let req = prepare_punishment(PunishmentType::Ban, Some(42), None, &opts, created).unwrap();
    assert!(matches!(enforce_punishment(&req, &vec![3, 4])[0], Step::Ban));
    let rows = vec![
        punishment_removed_role::Model { id: 11, punishment_id: 5, role_id: 3 },
        punishment_removed_role::Model { id: 12, punishment_id: 5, role_id: 4 },
    ];
    let recs = vec![PunishmentRecord { punishment: req.to_model(5), removed_roles: rows }];
    let s = verifying_server(None);
    // not yet expired
    assert!(expiry_sweep(&s, &recs, created + 86_400).is_empty());
    let plans = expiry_sweep(&s, &recs, created + 86_401);
    assert_eq!(plans.len(), 1);
    assert_eq!(plans[0].user_id, 7);
    let shown: Vec<String> = plans[0].steps.iter().map(|s| format!("{:?}", s)).collect();
    assert_eq!(shown, vec!["DeletePunishment(5)", "DeleteRemovedRole(11)", "DeleteRemovedRole(12)", "Unban"]);
    assert_eq!(plans[0].steps.iter().filter(|s| matches!(s, Step::Unban)).count(), 1);
}

#[test]
fn expired_dunce_gives_roles_back_and_removes_dunce_role() {
    let s = verifying_server(None);
    let recs = vec![
        PunishmentRecord {
            punishment: Model { id: 1, user_id: 7, server_id: 42, punishment_type: PunishmentType::Dunce, expires: Some(10) },
            removed_roles: vec![punishment_removed_role::Model { id: 2, punishment_id: 1, role_id: 3 }],
        },
        punishment(3, 8, PunishmentType::Dunce, None),
        punishment(4, 9, PunishmentType::Dunce, Some(1000)),
    ];
    let plans = expiry_sweep(&s, &recs, 500);
    assert_eq!(plans.len(), 1);
    let shown: Vec<String> = plans[0].steps.iter().map(|s| format!("{:?}", s)).collect();
    assert_eq!(shown, vec!["DeletePunishment(1)", "AddRole(3)", "DeleteRemovedRole(2)", "RemoveRole(9)"]);
}

#[test]
fn matching_reaction_grants_verified_role() {
    let s = verifying_server(Some(24));
    let d = reaction_add(Some(&s), Some(7), 777, &Emoji::Unicode("✅".to_string()));
    assert_eq!(d, ReactionDecision::Grant { user_id: 7, role_id: 50 });
}

#[test]
fn other_reactions_are_ignored() {
    let s = verifying_server(Some(24));
    assert_eq!(reaction_add(Some(&s), Some(7), 778, &Emoji::Unicode("✅".to_string())), ReactionDecision::Ignore);
    assert_eq!(reaction_add(Some(&s), Some(7), 777, &Emoji::Unicode("❌".to_string())), ReactionDecision::Ignore);
    assert_eq!(reaction_add(Some(&s), None, 777, &Emoji::Unicode("✅".to_string())), ReactionDecision::Ignore);
    assert_eq!(reaction_add(None, Some(7), 777, &Emoji::Unicode("✅".to_string())), ReactionDecision::Ignore);
    let mut off = verifying_server(None);
    off.verified_role_id = None;
    off.verification_message_id = None;
    off.verification_emoji = None;
    assert_eq!(reaction_add(Some(&off), Some(7), 777, &Emoji::Unicode("✅".to_string())), ReactionDecision::Ignore);
}

#[test]
fn custom_emoji_text_is_read_before_comparing() {
    let mut s = verifying_server(None);
    s.verification_emoji = Some("<:cat:600404340292059257>".to_string());
    let cat = Emoji::Custom { animated: false, id: 600404340292059257, name: Some("cat".to_string()) };
    assert_eq!(reaction_add(Some(&s), Some(7), 777, &cat), ReactionDecision::Grant { user_id: 7, role_id: 50 });
    let animated = Emoji::Custom { animated: true, id: 600404340292059257, name: Some("cat".to_string()) };
    assert_eq!(reaction_add(Some(&s), Some(7), 777, &animated), ReactionDecision::Ignore);
}

#[test]
fn unreadable_emoji_config_is_skipped() {
    let mut s = verifying_server(None);
    s.verification_emoji = Some("<:cat:notanumber>".to_string());
    let cat = Emoji::Custom { animated: false, id: 1, name: Some("cat".to_string()) };
    assert_eq!(reaction_add(Some(&s), Some(7), 777, &cat), ReactionDecision::BadEmoji);
    s.verification_emoji = Some(String::new());
    assert_eq!(reaction_add(Some(&s), Some(7), 777, &cat), ReactionDecision::BadEmoji);
}

#[test]
fn decision_compares_given_emoji() {
    let s = verifying_server(None);
    let e = Emoji::Unicode("x".to_string());
    assert_eq!(match_reaction(Some(&s), Some(7), Some(&e), 777, &e), ReactionDecision::Grant { user_id: 7, role_id: 50 });
    assert_eq!(match_reaction(Some(&s), Some(7), None, 777, &e), ReactionDecision::BadEmoji);
}

#[test]
fn rejoining_member_is_punished_again() {
    let ps = vec![
        Model { id: 1, user_id: 7, server_id: 42, punishment_type: PunishmentType::Dunce, expires: None },
        Model { id: 2, user_id: 7, server_id: 42, punishment_type: PunishmentType::Ban, expires: None },
        Model { id: 3, user_id: 8, server_id: 42, punishment_type: PunishmentType::Ban, expires: None },
    ];
    let steps = guild_member_addition(42, 7, Some(9), &ps);
    let shown: Vec<String> = steps.iter().map(|s| format!("{:?}", s)).collect();
    assert_eq!(shown, vec!["AddRole(9)", "Ban"]);
    let steps = guild_member_addition(42, 7, None, &ps);
    let shown: Vec<String> = steps.iter().map(|s| format!("{:?}", s)).collect();
    assert_eq!(shown, vec!["Ban"]);
    assert!(guild_member_addition(42, 99, Some(9), &ps).is_empty());
}

#[test]
fn expiry_takes_the_steps_of_a_manual_lift() {
    let s = verifying_server(None);
    let rec = PunishmentRecord {
        punishment: Model { id: 1, user_id: 7, server_id: 42, punishment_type: PunishmentType::Dunce, expires: Some(10) },
        removed_roles: vec![
            punishment_removed_role::Model { id: 2, punishment_id: 1, role_id: 3 },
            punishment_removed_role::Model { id: 3, punishment_id: 1, role_id: 4 },
        ],
    };
    let plans = expiry_sweep(&s, &vec![rec.clone()], 11);
    let req = LiftRequest { server_id: 42, user_id: 7, punishment_type: PunishmentType::Dunce, dunce_role_id: Some(9) };
    let (_, steps) = plan_lift(&req, &vec![rec]);
    let a: Vec<String> = plans[0].steps.iter().map(|s| format!("{:?}", s)).collect();
    let b: Vec<String> = steps.iter().map(|s| format!("{:?}", s)).collect();
    assert_eq!(a, b);
}
