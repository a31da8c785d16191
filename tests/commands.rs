use raincoat::commands::manage_roles::{optional_role_from, removed_optional_role};
use raincoat::commands::options::{ArgErrorKind, CommandOption, OptionValue};
use raincoat::commands::role::{role_changes, role_select_menu, MenuError};
use raincoat::commands::verification::{decimal_names, parse_message_id, verification_settings, Subcommand};
use raincoat::commands::{command_kind, component_kind, CommandKind, ComponentKind};
use raincoat::emoji::Emoji;
use raincoat::model::optional_role;

fn opt(name: &str, value: Option<OptionValue>) -> CommandOption {
    CommandOption { name: name.to_string(), value }
}

fn text(name: &str, t: &str) -> CommandOption {
    opt(name, Some(OptionValue::Text(t.to_string())))
}

fn catalog_role(role_id: u64, emoji: Option<&str>) -> optional_role::Model {
    optional_role::Model { role_id, server_id: 42, emoji: emoji.map(|e| e.to_string()), description: None }
}

#[test]
fn commands_are_routed_by_name() {
    assert_eq!(command_kind("dunce"), CommandKind::Dunce);
    assert_eq!(command_kind("unban"), CommandKind::Unban);
    assert_eq!(command_kind("role"), CommandKind::Role);
    assert_eq!(command_kind("dance"), CommandKind::Unknown);
    assert!(CommandKind::Verification.moderator_only());
    assert!(!CommandKind::Role.moderator_only());
    assert!(!CommandKind::Unknown.moderator_only());
    assert_eq!(component_kind("role_select"), ComponentKind::RoleSelect);
    assert_eq!(component_kind("other"), ComponentKind::Unknown);
}

#[test]
fn message_ids_are_decimal() {
    assert_eq!(parse_message_id("123"), Some(123));
    assert_eq!(parse_message_id("+123"), Some(123));
    assert_eq!(parse_message_id("18446744073709551615"), Some(u64::MAX));
    assert_eq!(parse_message_id("18446744073709551616"), None);
    assert_eq!(parse_message_id(""), None);
    assert_eq!(parse_message_id("+"), None);
    assert_eq!(parse_message_id("12a"), None);
    assert_eq!(parse_message_id("-1"), None);
    assert!(decimal_names("42", 42));
    assert!(!decimal_names("042", 42));
    assert!(!decimal_names("+42", 42));
    assert!(decimal_names("0", 0));
}

#[test]
fn enabling_verification_sets_all_fields() {
    let sub = Subcommand {
        name: "enable".to_string(),
        options: vec![
            opt("role", Some(OptionValue::Role(50))),
            text("message", "777"),
            text("emoji", "✅"),
            opt("timeout", Some(OptionValue::Integer(24))),
        ],
    };
    let v = verification_settings(Some(42), Some(&sub)).unwrap();
    assert_eq!(v.verified_role_id, Some(50));
    assert_eq!(v.verification_message_id, Some(777));
    assert_eq!(v.verification_emoji.as_deref(), Some("✅"));
    assert_eq!(v.verification_timeout, Some(24));
    let off = verification_settings(Some(42), Some(&Subcommand { name: "disable".to_string(), options: vec![] })).unwrap();
    assert_eq!(
        (off.verified_role_id, off.verification_message_id, off.verification_emoji, off.verification_timeout),
        (None, None, None, None)
    );
}

#[test]
fn verification_invocation_errors() {
    let e = verification_settings(None, None).unwrap_err();
    assert_eq!(e.kind, ArgErrorKind::NotInServer);
    let e = verification_settings(Some(42), None).unwrap_err();
    assert_eq!(e.to_error().cause, "Command target is required.");
    let e = verification_settings(Some(42), Some(&Subcommand { name: "pause".to_string(), options: vec![] })).unwrap_err();
    assert_eq!(e.to_error().cause, "Unknown subcommand: pause");
    let sub = Subcommand { name: "enable".to_string(), options: vec![text("message", "abc")] };
    let e = verification_settings(Some(42), Some(&sub)).unwrap_err();
    assert_eq!(e.to_error().cause, "Couldn't parse abc as message id");
    let sub = Subcommand { name: "enable".to_string(), options: vec![text("message", "1"), text("emoji", "x")] };
    let e = verification_settings(Some(42), Some(&sub)).unwrap_err();
    assert_eq!((e.kind, e.param.as_str()), (ArgErrorKind::Missing, "role"));
    let sub = Subcommand {
        name: "enable".to_string(),
        options: vec![opt("role", Some(OptionValue::Role(5))), text("message", "1"), text("emoji", "x"), opt("timeout", Some(OptionValue::Integer(-1)))],
    };
    let e = verification_settings(Some(42), Some(&sub)).unwrap_err();
    assert_eq!((e.kind, e.param.as_str()), (ArgErrorKind::Negative, "timeout"));
}

#[test]
fn addrole_builds_the_catalog_row() {
    let opts = vec![opt("role", Some(OptionValue::Role(5))), text("emoji", "🐱"), text("description", "cats")];
    let m = optional_role_from(Some(42), &opts).unwrap();
    assert_eq!((m.role_id, m.server_id), (5, 42));
    assert_eq!(m.emoji.as_deref(), Some("🐱"));
    assert_eq!(m.description.as_deref(), Some("cats"));
    assert_eq!(optional_role_from(None, &opts).unwrap_err().kind, ArgErrorKind::NotInServer);
    assert_eq!(optional_role_from(Some(42), &vec![text("emoji", "x")]).unwrap_err().kind, ArgErrorKind::Missing);
    let e = optional_role_from(Some(42), &vec![text("role", "x")]).unwrap_err();
    assert_eq!(e.kind, ArgErrorKind::WrongType);
}

#[test]
fn removerole_reads_the_role() {
    assert_eq!(removed_optional_role(&vec![opt("role", Some(OptionValue::Role(5)))]).unwrap(), 5);
    assert_eq!(removed_optional_role(&vec![]).unwrap_err().kind, ArgErrorKind::Missing);
    assert_eq!(removed_optional_role(&vec![text("colour", "red")]).unwrap_err().kind, ArgErrorKind::UnknownParam);
}

#[test]
fn role_selection_becomes_one_add_and_one_remove() {
    let catalog = vec![catalog_role(1, None), catalog_role(2, None), catalog_role(3, None), catalog_role(4, None)];
    let values = vec!["1".to_string(), "3".to_string()];
    // holds 3 and 4 and an unrelated 99
    let changes = role_changes(&catalog, &values, &vec![3, 4, 99]);
    assert_eq!(changes.added, vec![1]);
    assert_eq!(changes.removed, vec![4]);
    let none = role_changes(&catalog, &values, &vec![1, 3]);
    assert!(none.added.is_empty() && none.removed.is_empty());
}

#[test]
fn role_menu_marks_held_roles() {
    assert_eq!(role_select_menu(&vec![], &vec![]).unwrap_err(), MenuError::NoOptionalRoles);
    let catalog = vec![catalog_role(1, Some("🐱")), catalog_role(2, None)];
    let entries = role_select_menu(&catalog, &vec![2]).unwrap();
    assert_eq!(entries.len(), 2);
    assert_eq!((entries[0].role_id, entries[0].selected), (1, false));
    assert!(matches!(&entries[0].emoji, Some(Emoji::Unicode(u)) if u == "🐱"));
    assert_eq!((entries[1].role_id, entries[1].selected), (2, true));
    let bad = vec![catalog_role(1, None), catalog_role(2, Some("<:x:y>"))];
    assert_eq!(role_select_menu(&bad, &vec![]).unwrap_err(), MenuError::InvalidEmoji(2));
}
