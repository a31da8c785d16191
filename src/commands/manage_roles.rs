//! Adding roles to and removing them from a community's optional roles.

use vstd::prelude::*;
use crate::commands::options::{ArgError, ArgErrorKind, CommandOption, OptionValue, text_is};
use crate::model::optional_role;

verus! {

/// What an `addrole` invocation has given so far.
pub struct AddRoleFields {
    pub role: Option<u64>,
    pub emoji: Option<Seq<char>>,
    pub description: Option<Seq<char>>,
}

/// The fields of `addrole` after one more option.
pub open spec fn add_role_step(st: AddRoleFields, o: CommandOption) -> Result<
    AddRoleFields,
    (ArgErrorKind, Seq<char>),
> {
    let n = o.name@;
    if n == "role"@ {
        match o.value {
            None => Err((ArgErrorKind::Unresolved, n)),
            Some(OptionValue::Role(r)) => Ok(AddRoleFields { role: Some(r), ..st }),
            Some(_) => Err((ArgErrorKind::WrongType, n)),
        }
    } else if n == "emoji"@ || n == "description"@ {
        match o.value {
            None => Err((ArgErrorKind::Unresolved, n)),
            Some(OptionValue::Text(t)) => if n == "emoji"@ {
                Ok(AddRoleFields { emoji: Some(t@), ..st })
            } else {
                Ok(AddRoleFields { description: Some(t@), ..st })
            },
            Some(_) => Err((ArgErrorKind::WrongType, n)),
        }
    } else {
        Err((ArgErrorKind::UnknownParam, n))
    }
}

/// The options of `addrole` read in order, stopping at the first error.
pub open spec fn add_role_fold(opts: Seq<CommandOption>) -> Result<AddRoleFields, (ArgErrorKind, Seq<char>)>
    decreases opts.len(),
{
    if opts.len() == 0 {
        Ok(AddRoleFields { role: None, emoji: None, description: None })
    } else {
        match add_role_fold(opts.drop_last()) {
            Err(e) => Err(e),
            Ok(st) => add_role_step(st, opts.last()),
        }
    }
}

/// Once the options fail to read, reading more of them fails the same way.
proof fn lemma_add_role_fold_err_sticks(opts: Seq<CommandOption>, j: int, k: int)
    requires
        0 <= j <= k <= opts.len(),
        add_role_fold(opts.subrange(0, j)) is Err,
    ensures
        add_role_fold(opts.subrange(0, k)) == add_role_fold(opts.subrange(0, j)),
    decreases k - j,
{
    if k > j {
        lemma_add_role_fold_err_sticks(opts, j, k - 1);
        assert(opts.subrange(0, k).drop_last() =~= opts.subrange(0, k - 1));
    }
}

/// An optional text as plain values.
pub open spec fn opt_view(t: Option<String>) -> Option<Seq<char>> {
    match t {
        Some(x) => Some(x@),
        None => None,
    }
}

/// Decides the optional-role row that an `addrole` invocation in community
/// `server_id` (if any) creates or replaces.
pub fn optional_role_from(server_id: Option<u64>, options: &Vec<CommandOption>) -> (r: Result<
    optional_role::Model,
    ArgError,
>)
    ensures
        server_id is None ==> r is Err && r->Err_0@ == (ArgErrorKind::NotInServer, ""@),
        server_id is Some ==> match add_role_fold(options@) {
            Err(e) => r is Err && r->Err_0@ == e,
            Ok(f) => match f.role {
                None => r is Err && r->Err_0@ == (ArgErrorKind::Missing, "role"@),
                Some(role) => r is Ok && r->Ok_0.role_id == role && r->Ok_0.server_id
                    == server_id->Some_0 && opt_view(r->Ok_0.emoji) == f.emoji && opt_view(
                    r->Ok_0.description,
                ) == f.description,
            },
        },
{
    let sid = match server_id {
        None => {
            return Err(ArgError::new(ArgErrorKind::NotInServer, ""));
        },
        Some(s) => s,
    };
    let mut role: Option<u64> = None;
    let mut emoji: Option<String> = None;
    let mut description: Option<String> = None;
    let mut i: usize = 0;
    while i < options.len()
        invariant
            i <= options@.len(),
            server_id == Some(sid),
            add_role_fold(options@.subrange(0, i as int)) == Ok::<
                AddRoleFields,
                (ArgErrorKind, Seq<char>),
            >(AddRoleFields { role, emoji: opt_view(emoji), description: opt_view(description) }),
        decreases options@.len() - i,
    {
        let o = &options[i];
        proof {
            assert(options@.subrange(0, i + 1).drop_last() =~= options@.subrange(0, i as int));
        }
        let name = o.name.as_str();
        let is_emoji = text_is(name, "emoji");
        let step: Result<(), ArgError> = if text_is(name, "role") {
            match &o.value {
                None => Err(ArgError::new(ArgErrorKind::Unresolved, name)),
                Some(OptionValue::Role(r)) => {
                    role = Some(*r);
                    Ok(())
                },
                Some(_) => Err(ArgError::new(ArgErrorKind::WrongType, name)),
            }
        } else if is_emoji || text_is(name, "description") {
            match &o.value {
                None => Err(ArgError::new(ArgErrorKind::Unresolved, name)),
                Some(OptionValue::Text(t)) => {
                    if is_emoji {
                        emoji = Some(t.clone());
                    } else {
                        description = Some(t.clone());
                    }
                    Ok(())
                },
                Some(_) => Err(ArgError::new(ArgErrorKind::WrongType, name)),
            }
        } else {
            Err(ArgError::new(ArgErrorKind::UnknownParam, name))
        };
        match step {
            Err(e) => {
                proof {
                    lemma_add_role_fold_err_sticks(options@, i + 1, options@.len() as int);
                    assert(options@.subrange(0, options@.len() as int) =~= options@);
                }
                return Err(e);
            },
            Ok(()) => {},
        }
        i = i + 1;
    }
    assert(options@.subrange(0, options@.len() as int) =~= options@);
    match role {
        None => Err(ArgError::new(ArgErrorKind::Missing, "role")),
        Some(role_id) => Ok(optional_role::Model { role_id, server_id: sid, emoji, description }),
    }
}

/// The role gathered so far from the options of `removerole`, after one more.
pub open spec fn remove_role_step(st: Option<u64>, o: CommandOption) -> Result<
    Option<u64>,
    (ArgErrorKind, Seq<char>),
> {
    if o.name@ == "role"@ {
        match o.value {
            None => Err((ArgErrorKind::Unresolved, o.name@)),
            Some(OptionValue::Role(r)) => Ok(Some(r)),
            Some(_) => Err((ArgErrorKind::WrongType, o.name@)),
        }
    } else {
        Err((ArgErrorKind::UnknownParam, o.name@))
    }
}

/// The options of `removerole` read in order, stopping at the first error.
pub open spec fn remove_role_fold(opts: Seq<CommandOption>) -> Result<Option<u64>, (ArgErrorKind, Seq<char>)>
    decreases opts.len(),
{
    if opts.len() == 0 {
        Ok(None)
    } else {
        match remove_role_fold(opts.drop_last()) {
            Err(e) => Err(e),
            Ok(st) => remove_role_step(st, opts.last()),
        }
    }
}

/// Once the options fail to read, reading more of them fails the same way.
proof fn lemma_remove_role_fold_err_sticks(opts: Seq<CommandOption>, j: int, k: int)
    requires
        0 <= j <= k <= opts.len(),
        remove_role_fold(opts.subrange(0, j)) is Err,
    ensures
        remove_role_fold(opts.subrange(0, k)) == remove_role_fold(opts.subrange(0, j)),
    decreases k - j,
{
    if k > j {
        lemma_remove_role_fold_err_sticks(opts, j, k - 1);
        assert(opts.subrange(0, k).drop_last() =~= opts.subrange(0, k - 1));
    }
}

/// Decides which optional role a `removerole` invocation removes.
pub fn removed_optional_role(options: &Vec<CommandOption>) -> (r: Result<u64, ArgError>)
    ensures
        match remove_role_fold(options@) {
            Err(e) => r is Err && r->Err_0@ == e,
            Ok(None) => r is Err && r->Err_0@ == (ArgErrorKind::Missing, "role"@),
            Ok(Some(role)) => r == Ok::<u64, ArgError>(role),
        },
{
    let mut role: Option<u64> = None;
    let mut i: usize = 0;
    while i < options.len()
        invariant
            i <= options@.len(),
            remove_role_fold(options@.subrange(0, i as int)) == Ok::<
                Option<u64>,
                (ArgErrorKind, Seq<char>),
            >(role),
        decreases options@.len() - i,
    {
        let o = &options[i];
        proof {
            assert(options@.subrange(0, i + 1).drop_last() =~= options@.subrange(0, i as int));
        }
        let name = o.name.as_str();
        let step: Result<(), ArgError> = if text_is(name, "role") {
            match &o.value {
                None => Err(ArgError::new(ArgErrorKind::Unresolved, name)),
                Some(OptionValue::Role(r)) => {
                    role = Some(*r);
                    Ok(())
                },
                Some(_) => Err(ArgError::new(ArgErrorKind::WrongType, name)),
            }
        } else {
            Err(ArgError::new(ArgErrorKind::UnknownParam, name))
        };
        match step {
            Err(e) => {
                proof {
                    lemma_remove_role_fold_err_sticks(options@, i + 1, options@.len() as int);
                    assert(options@.subrange(0, options@.len() as int) =~= options@);
                }
                return Err(e);
            },
            Ok(()) => {},
        }
        i = i + 1;
    }
    assert(options@.subrange(0, options@.len() as int) =~= options@);
    match role {
        None => Err(ArgError::new(ArgErrorKind::Missing, "role")),
        Some(r) => Ok(r),
    }
}

} // verus!
