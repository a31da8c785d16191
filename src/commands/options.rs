use vstd::prelude::*;
use vstd::string::*;
use crate::error::RaincoatError;

verus! {

/// The value that the platform resolved for one command option.
#[derive(Clone, Debug)]
pub enum OptionValue {
    Integer(i64),
    User(u64),
    Role(u64),
    Text(String),
    /// Any other kind of value (a channel, a number with a fraction, ...).
    Other,
}

/// One named option of a command invocation; `value` is `None` where the
/// platform could not resolve it.
#[derive(Clone, Debug)]
pub struct CommandOption {
    pub name: String,
    pub value: Option<OptionValue>,
}

/// What went wrong with a command invocation.
#[derive(Clone, Copy, Debug, PartialEq, Eq, Structural)]
pub enum ArgErrorKind {
    /// The command was not run inside a managed community.
    NotInServer,
    /// The community has no dunce role configured.
    NoDunceRole,
    /// The named parameter could not be resolved.
    Unresolved,
    /// The named parameter resolved to a value of the wrong type.
    WrongType,
    /// A parameter of that name is not part of the command.
    UnknownParam,
    /// The named required parameter is absent.
    Missing,
    /// The named parameter is negative where only non-negative values make sense.
    Negative,
    /// The requested punishment length does not fit in a timestamp.
    DurationOverflow,
    /// The named text is not a message identifier.
    BadMessageId,
    /// A subcommand was required and none was given.
    MissingSubcommand,
    /// The named subcommand does not exist.
    UnknownSubcommand,
}

/// A rejected command invocation: the kind of failure and the parameter (or
/// subcommand) that it concerns, empty where none does.
#[derive(Clone, Debug)]
pub struct ArgError {
    pub kind: ArgErrorKind,
    pub param: String,
}

impl View for ArgError {
    type V = (ArgErrorKind, Seq<char>);

    open spec fn view(&self) -> (ArgErrorKind, Seq<char>) {
        (self.kind, self.param@)
    }
}

/// A result whose error is replaced by its view.
pub open spec fn result_view<T>(r: Result<T, ArgError>) -> Result<T, (ArgErrorKind, Seq<char>)> {
    match r {
        Ok(v) => Ok(v),
        Err(e) => Err(e@),
    }
}

impl ArgError {
    pub fn new(kind: ArgErrorKind, param: &str) -> (r: ArgError)
        ensures
            r@ == (kind, param@),
    {
        ArgError { kind, param: String::from_str(param) }
    }
}

/// The text shown to the user for an error of kind `kind` about `p`.
pub open spec fn cause_text(kind: ArgErrorKind, p: Seq<char>) -> Seq<char> {
    match kind {
        ArgErrorKind::NotInServer => "This command can only be run in servers."@,
        ArgErrorKind::NoDunceRole => "No dunce role has been configured for this server."@,
        ArgErrorKind::Unresolved => "Couldn't resolve '"@ + p + "' param"@,
        ArgErrorKind::WrongType => "Unexpected type for '"@ + p + "' param"@,
        ArgErrorKind::UnknownParam => "Unknown param: "@ + p,
        ArgErrorKind::Missing => "Requires '"@ + p + "' param"@,
        ArgErrorKind::Negative => "'"@ + p + "' must not be negative"@,
        ArgErrorKind::DurationOverflow => "The requested duration is too long."@,
        ArgErrorKind::BadMessageId => "Couldn't parse "@ + p + " as message id"@,
        ArgErrorKind::MissingSubcommand => "Command target is required."@,
        ArgErrorKind::UnknownSubcommand => "Unknown subcommand: "@ + p,
    }
}

impl ArgError {
    /// The error as reported to the user who ran the command.
    pub fn to_error(&self) -> (r: RaincoatError)
        ensures
            r.cause@ == cause_text(self.kind, self.param@),
    {
        let p = self.param.as_str();
        let cause = match self.kind {
            ArgErrorKind::NotInServer => String::from_str("This command can only be run in servers."),
            ArgErrorKind::NoDunceRole => String::from_str(
                "No dunce role has been configured for this server.",
            ),
            ArgErrorKind::Unresolved => String::from_str("Couldn't resolve '").concat(p).concat("' param"),
            ArgErrorKind::WrongType => String::from_str("Unexpected type for '").concat(p).concat(
                "' param",
            ),
            ArgErrorKind::UnknownParam => String::from_str("Unknown param: ").concat(p),
            ArgErrorKind::Missing => String::from_str("Requires '").concat(p).concat("' param"),
            ArgErrorKind::Negative => String::from_str("'").concat(p).concat("' must not be negative"),
            ArgErrorKind::DurationOverflow => String::from_str("The requested duration is too long."),
            ArgErrorKind::BadMessageId => String::from_str("Couldn't parse ").concat(p).concat(
                " as message id",
            ),
            ArgErrorKind::MissingSubcommand => String::from_str("Command target is required."),
            ArgErrorKind::UnknownSubcommand => String::from_str("Unknown subcommand: ").concat(p),
        };
        RaincoatError { cause }
    }
}

/// Whether `s` is exactly the text `lit`.
pub fn text_is(s: &str, lit: &str) -> (r: bool)
    ensures
        r == (s@ == lit@),
{
    let a = String::from_str(s);
    let b = String::from_str(lit);
    a.eq(&b)
}

/// The integer held by an option, or why there is none.
pub open spec fn integer_option_spec(name: Seq<char>, value: Option<OptionValue>) -> Result<
    i64,
    (ArgErrorKind, Seq<char>),
> {
    match value {
        None => Err((ArgErrorKind::Unresolved, name)),
        Some(OptionValue::Integer(v)) => Ok(v),
        Some(_) => Err((ArgErrorKind::WrongType, name)),
    }
}

/// Reads the integer of option `option`, reported under `name`.
pub fn parse_integer_option(name: &str, option: &CommandOption) -> (r: Result<i64, ArgError>)
    ensures
        result_view(r) == integer_option_spec(name@, option.value),
{
    match &option.value {
        None => Err(ArgError::new(ArgErrorKind::Unresolved, name)),
        Some(OptionValue::Integer(v)) => Ok(*v),
        Some(_) => Err(ArgError::new(ArgErrorKind::WrongType, name)),
    }
}

/// The user held by an option, or why there is none.
pub open spec fn user_option_spec(value: Option<OptionValue>) -> Result<u64, (ArgErrorKind, Seq<char>)> {
    match value {
        None => Err((ArgErrorKind::Unresolved, "user"@)),
        Some(OptionValue::User(u)) => Ok(u),
        Some(_) => Err((ArgErrorKind::WrongType, "user"@)),
    }
}

/// Reads the user identifier of the `user` option.
pub fn parse_user_option(option: &CommandOption) -> (r: Result<u64, ArgError>)
    ensures
        result_view(r) == user_option_spec(option.value),
{
    match &option.value {
        None => Err(ArgError::new(ArgErrorKind::Unresolved, "user")),
        Some(OptionValue::User(u)) => Ok(*u),
        Some(_) => Err(ArgError::new(ArgErrorKind::WrongType, "user")),
    }
}

} // verus!
