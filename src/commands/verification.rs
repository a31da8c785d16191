//! Configuring join-time verification for a community.

use vstd::prelude::*;
use crate::commands::options::{ArgError, ArgErrorKind, CommandOption, OptionValue, text_is};

verus! {

/// The value of a text of decimal digits.
pub open spec fn digits_value(s: Seq<char>) -> int
    decreases s.len(),
{
    if s.len() == 0 {
        0
    } else {
        digits_value(s.drop_last()) * 10 + (s.last() as int - '0' as int)
    }
}

/// Whether every character of `s` is a decimal digit.
pub open spec fn all_digits(s: Seq<char>) -> bool {
    forall|i: int| 0 <= i < s.len() ==> '0' <= #[trigger] s[i] <= '9'
}

/// The identifier written in `s`: an optional `+` and then one or more decimal
/// digits, with a value that fits in 64 bits.
pub open spec fn message_id_of(s: Seq<char>) -> Option<u64> {
    let d = if s.len() > 0 && s[0] == '+' {
        s.subrange(1, s.len() as int)
    } else {
        s
    };
    if d.len() > 0 && all_digits(d) && digits_value(d) <= u64::MAX {
        Some(digits_value(d) as u64)
    } else {
        None
    }
}

proof fn lemma_digits_value_nonneg(s: Seq<char>)
    requires
        all_digits(s),
    ensures
        digits_value(s) >= 0,
    decreases s.len(),
{
    if s.len() > 0 {
        assert(all_digits(s.drop_last())) by {
            assert forall|i: int| 0 <= i < s.drop_last().len() implies '0' <= #[trigger] s.drop_last()[i]
                <= '9' by {
                assert(s.drop_last()[i] == s[i]);
            }
        }
        lemma_digits_value_nonneg(s.drop_last());
        assert('0' <= s[s.len() - 1] <= '9');
    }
}

/// Reads a message identifier written in decimal.
pub fn parse_message_id(s: &str) -> (r: Option<u64>)
    ensures
        r == message_id_of(s@),
{
    let n = s.unicode_len();
    let start: usize = if n > 0 && s.get_char(0) == '+' {
        1
    } else {
        0
    };
    let ghost d = s@.subrange(start as int, n as int);
    assert(d == if s@.len() > 0 && s@[0] == '+' {
        s@.subrange(1, s@.len() as int)
    } else {
        s@
    }) by {
        if !(s@.len() > 0 && s@[0] == '+') {
            assert(s@.subrange(0, s@.len() as int) =~= s@);
        }
    }
    if start == n {
        return None;
    }
    let mut acc: u64 = 0;
    let mut over = false;
    let mut i: usize = start;
    while i < n
        invariant
            start <= i <= n,
            n == s@.len(),
            d == s@.subrange(start as int, n as int),
            d == if s@.len() > 0 && s@[0] == '+' {
                s@.subrange(1, s@.len() as int)
            } else {
                s@
            },
            all_digits(s@.subrange(start as int, i as int)),
            !over ==> acc as int == digits_value(s@.subrange(start as int, i as int)),
            over ==> digits_value(s@.subrange(start as int, i as int)) > u64::MAX,
        decreases n - i,
    {
        let c = s.get_char(i);
        let ghost prev = s@.subrange(start as int, i as int);
        let ghost next = s@.subrange(start as int, i + 1);
        assert(next.drop_last() =~= prev);
        if !('0' <= c && c <= '9') {
            assert(!all_digits(d)) by {
                assert(d[i - start] == c);
            }
            return None;
        }
        assert(all_digits(next)) by {
            assert forall|j: int| 0 <= j < next.len() implies '0' <= #[trigger] next[j] <= '9' by {
                if j < prev.len() {
                    assert(next[j] == prev[j]);
                }
            }
        }
        proof {
            lemma_digits_value_nonneg(prev);
        }
        let digit = (c as u32 - '0' as u32) as u64;
        if !over {
            if acc > (u64::MAX - digit) / 10 {
                over = true;
            } else {
                acc = acc * 10 + digit;
            }
        }
        i = i + 1;
    }
    assert(s@.subrange(start as int, i as int) == d);
    if over {
        None
    } else {
        Some(acc)
    }
}

/// The verification settings of a community. Role, message and emoji are
/// set together or cleared together; the timeout is in hours.
#[derive(Clone, Debug)]
pub struct VerificationSettings {
    pub verified_role_id: Option<u64>,
    pub verification_message_id: Option<u64>,
    pub verification_emoji: Option<String>,
    pub verification_timeout: Option<i64>,
}

/// Verification settings as plain values: those an invocation has given so
/// far, or those it sets.
pub struct EnableFields {
    pub role: Option<u64>,
    pub message: Option<u64>,
    pub emoji: Option<Seq<char>>,
    pub timeout: Option<i64>,
}

/// The fields of `verification enable` after one more option.
pub open spec fn enable_option_step(st: EnableFields, o: CommandOption) -> Result<
    EnableFields,
    (ArgErrorKind, Seq<char>),
> {
    let n = o.name@;
    if n == "role"@ {
        match o.value {
            None => Err((ArgErrorKind::Unresolved, n)),
            Some(OptionValue::Role(r)) => Ok(EnableFields { role: Some(r), ..st }),
            Some(_) => Err((ArgErrorKind::WrongType, n)),
        }
    } else if n == "message"@ {
        match o.value {
            None => Err((ArgErrorKind::Unresolved, n)),
            Some(OptionValue::Text(t)) => match message_id_of(t@) {
                Some(m) => Ok(EnableFields { message: Some(m), ..st }),
                None => Err((ArgErrorKind::BadMessageId, t@)),
            },
            Some(_) => Err((ArgErrorKind::WrongType, n)),
        }
    } else if n == "emoji"@ {
        match o.value {
            None => Err((ArgErrorKind::Unresolved, n)),
            Some(OptionValue::Text(t)) => Ok(EnableFields { emoji: Some(t@), ..st }),
            Some(_) => Err((ArgErrorKind::WrongType, n)),
        }
    } else if n == "timeout"@ {
        match o.value {
            None => Err((ArgErrorKind::Unresolved, n)),
            Some(OptionValue::Integer(t)) => if t < 0 {
                Err((ArgErrorKind::Negative, n))
            } else {
                Ok(EnableFields { timeout: Some(t), ..st })
            },
            Some(_) => Err((ArgErrorKind::WrongType, n)),
        }
    } else {
        Err((ArgErrorKind::UnknownParam, n))
    }
}

/// The options of `verification enable` read in order, stopping at the first
/// error.
pub open spec fn enable_options_fold(opts: Seq<CommandOption>) -> Result<
    EnableFields,
    (ArgErrorKind, Seq<char>),
>
    decreases opts.len(),
{
    if opts.len() == 0 {
        Ok(EnableFields { role: None, message: None, emoji: None, timeout: None })
    } else {
        match enable_options_fold(opts.drop_last()) {
            Err(e) => Err(e),
            Ok(st) => enable_option_step(st, opts.last()),
        }
    }
}

/// What the settings become, or why the invocation is refused.
pub open spec fn verification_spec(server_id: Option<u64>, sub: Option<(Seq<char>, Seq<CommandOption>)>) -> Result<
    EnableFields,
    (ArgErrorKind, Seq<char>),
> {
    match (server_id, sub) {
        (None, _) => Err((ArgErrorKind::NotInServer, ""@)),
        (Some(_), None) => Err((ArgErrorKind::MissingSubcommand, ""@)),
        (Some(_), Some((name, opts))) => if name == "enable"@ {
            match enable_options_fold(opts) {
                Err(e) => Err(e),
                Ok(f) => if f.role is None {
                    Err((ArgErrorKind::Missing, "role"@))
                } else if f.message is None {
                    Err((ArgErrorKind::Missing, "message"@))
                } else if f.emoji is None {
                    Err((ArgErrorKind::Missing, "emoji"@))
                } else {
                    Ok(f)
                },
            }
        } else if name == "disable"@ {
            Ok(EnableFields { role: None, message: None, emoji: None, timeout: None })
        } else {
            Err((ArgErrorKind::UnknownSubcommand, name))
        },
    }
}

/// The settings as plain values.
pub open spec fn settings_view(v: VerificationSettings) -> EnableFields {
    EnableFields {
        role: v.verified_role_id,
        message: v.verification_message_id,
        emoji: match v.verification_emoji {
            Some(e) => Some(e@),
            None => None,
        },
        timeout: v.verification_timeout,
    }
}

/// The first option of a command: a subcommand, with its own options.
#[derive(Clone, Debug)]
pub struct Subcommand {
    pub name: String,
    pub options: Vec<CommandOption>,
}

/// Once the options fail to read, reading more of them fails the same way.
proof fn lemma_enable_fold_err_sticks(opts: Seq<CommandOption>, j: int, k: int)
    requires
        0 <= j <= k <= opts.len(),
        enable_options_fold(opts.subrange(0, j)) is Err,
    ensures
        enable_options_fold(opts.subrange(0, k)) == enable_options_fold(opts.subrange(0, j)),
    decreases k - j,
{
    if k > j {
        lemma_enable_fold_err_sticks(opts, j, k - 1);
        assert(opts.subrange(0, k).drop_last() =~= opts.subrange(0, k - 1));
    }
}

/// An optional text as plain values.
pub open spec fn opt_text(t: Option<String>) -> Option<Seq<char>> {
    match t {
        Some(x) => Some(x@),
        None => None,
    }
}

/// Reads the options of `verification enable`.
fn read_enable_options(options: &Vec<CommandOption>) -> (r: Result<VerificationSettings, ArgError>)
    ensures
        match enable_options_fold(options@) {
            Ok(f) => r is Ok && settings_view(r->Ok_0) == f,
            Err(e) => r is Err && r->Err_0@ == e,
        },
{
    let mut role: Option<u64> = None;
    let mut message: Option<u64> = None;
    let mut emoji: Option<String> = None;
    let mut timeout: Option<i64> = None;
    let mut i: usize = 0;
    while i < options.len()
        invariant
            i <= options@.len(),
            enable_options_fold(options@.subrange(0, i as int)) == Ok::<
                EnableFields,
                (ArgErrorKind, Seq<char>),
            >(EnableFields { role, message, emoji: opt_text(emoji), timeout }),
        decreases options@.len() - i,
    {
        let o = &options[i];
        proof {
            assert(options@.subrange(0, i + 1).drop_last() =~= options@.subrange(0, i as int));
        }
        let name = o.name.as_str();
        let step: Result<(), ArgError> = if text_is(name, "role") {
            match &o.value {
                None => Err(ArgError::new(ArgErrorKind::Unresolved, name)),
                Some(OptionValue::Role(r)) => {
                    role = Some(*r);
                    Ok(())
                },
                Some(_) => Err(ArgError::new(ArgErrorKind::WrongType, name)),
            }
        } else if text_is(name, "message") {
            match &o.value {
                None => Err(ArgError::new(ArgErrorKind::Unresolved, name)),
                Some(OptionValue::Text(t)) => match parse_message_id(t.as_str()) {
                    Some(m) => {
                        message = Some(m);
                        Ok(())
                    },
                    None => Err(ArgError::new(ArgErrorKind::BadMessageId, t.as_str())),
                },
                Some(_) => Err(ArgError::new(ArgErrorKind::WrongType, name)),
            }
        } else if text_is(name, "emoji") {
            match &o.value {
                None => Err(ArgError::new(ArgErrorKind::Unresolved, name)),
                Some(OptionValue::Text(t)) => {
                    emoji = Some(t.clone());
                    Ok(())
                },
                Some(_) => Err(ArgError::new(ArgErrorKind::WrongType, name)),
            }
        } else if text_is(name, "timeout") {
            match &o.value {
                None => Err(ArgError::new(ArgErrorKind::Unresolved, name)),
                Some(OptionValue::Integer(t)) => {
                    if *t < 0 {
                        Err(ArgError::new(ArgErrorKind::Negative, name))
                    } else {
                        timeout = Some(*t);
                        Ok(())
                    }
                },
                Some(_) => Err(ArgError::new(ArgErrorKind::WrongType, name)),
            }
        } else {
            Err(ArgError::new(ArgErrorKind::UnknownParam, name))
        };
        match step {
            Err(e) => {
                proof {
                    lemma_enable_fold_err_sticks(options@, i + 1, options@.len() as int);
                    assert(options@.subrange(0, options@.len() as int) =~= options@);
                }
                return Err(e);
            },
            Ok(()) => {},
        }
        i = i + 1;
    }
    assert(options@.subrange(0, options@.len() as int) =~= options@);
    Ok(
        VerificationSettings {
            verified_role_id: role,
            verification_message_id: message,
            verification_emoji: emoji,
            verification_timeout: timeout,
        },
    )
}

/// The subcommand as plain values.
pub open spec fn subcommand_view(sub: Option<&Subcommand>) -> Option<(Seq<char>, Seq<CommandOption>)> {
    match sub {
        Some(s) => Some((s.name@, s.options@)),
        None => None,
    }
}

/// Decides what a `verification` invocation in community `server_id` (if
/// any) sets: `enable` sets role, message and emoji together (and the
/// timeout where one is given); `disable` clears all of them.
pub fn verification_settings(server_id: Option<u64>, subcommand: Option<&Subcommand>) -> (r: Result<
    VerificationSettings,
    ArgError,
>)
    ensures
        match verification_spec(server_id, subcommand_view(subcommand)) {
            Ok(f) => r is Ok && settings_view(r->Ok_0) == f,
            Err(e) => r is Err && r->Err_0@ == e,
        },
        r matches Ok(v) ==> (v.verified_role_id is Some == v.verification_message_id is Some)
            && (v.verified_role_id is Some == v.verification_emoji is Some) && (v.verified_role_id
            is None ==> v.verification_timeout is None),
{
    if server_id.is_none() {
        return Err(ArgError::new(ArgErrorKind::NotInServer, ""));
    }
    let sub = match subcommand {
        None => {
            return Err(ArgError::new(ArgErrorKind::MissingSubcommand, ""));
        },
        Some(s) => s,
    };
    if text_is(sub.name.as_str(), "enable") {
        let v = match read_enable_options(&sub.options) {
            Err(e) => {
                return Err(e);
            },
            Ok(v) => v,
        };
        if v.verified_role_id.is_none() {
            Err(ArgError::new(ArgErrorKind::Missing, "role"))
        } else if v.verification_message_id.is_none() {
            Err(ArgError::new(ArgErrorKind::Missing, "message"))
        } else if v.verification_emoji.is_none() {
            Err(ArgError::new(ArgErrorKind::Missing, "emoji"))
        } else {
            Ok(v)
        }
    } else if text_is(sub.name.as_str(), "disable") {
        Ok(
            VerificationSettings {
                verified_role_id: None,
                verification_message_id: None,
                verification_emoji: None,
                verification_timeout: None,
            },
        )
    } else {
        Err(ArgError::new(ArgErrorKind::UnknownSubcommand, sub.name.as_str()))
    }
}

/// Whether `s` is the decimal text of `n`: digits only, without leading zeros.
pub open spec fn is_decimal_of(s: Seq<char>, n: u64) -> bool {
    &&& s.len() > 0
    &&& all_digits(s)
    &&& (s.len() == 1 || s[0] != '0')
    &&& digits_value(s) == n
}

/// Whether `s` is the decimal text of `n`.
pub fn decimal_names(s: &str, n: u64) -> (r: bool)
    ensures
        r == is_decimal_of(s@, n),
{
    let len = s.unicode_len();
    if len == 0 {
        return false;
    }
    let first = s.get_char(0);
    if first == '+' {
        return false;
    }
    if len > 1 && first == '0' {
        return false;
    }
    let v = parse_message_id(s);
    assert(s@[0] != '+');
    assert(len > 1 ==> s@[0] != '0');
    match v {
        Some(x) => {
            assert(message_id_of(s@) == Some(x));
            proof {
                lemma_digits_value_nonneg(s@);
            }
            assert(all_digits(s@) && digits_value(s@) == x as int);
            x == n
        },
        None => {
            proof {
                if is_decimal_of(s@, n) {
                    assert(message_id_of(s@) == Some(n));
                }
            }
            false
        },
    }
}

} // verus!
