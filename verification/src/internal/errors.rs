//! The two families of errors, each with the one status that it implies.
use super::status::ReturnCode;
use super::text::{decimal, number_text};
use vstd::prelude::*;
use vstd::string::*;

verus! {

/// What every error of the shell can tell.
pub trait ElviError {
    /// The code of the status that the error implies.
    spec fn status(&self) -> u16;

    /// The status that the error implies.
    fn ret(&self) -> (r: ReturnCode)
        ensures
            r@ == self.status(),
    ;
}

/// Errors about commands.
#[derive(Debug)]
#[allow(inconsistent_fields)]
pub enum CommandError {
    /// No command of that name.
    NotFound { name: String },
    /// A builtin was asked for something it does not do.
    SubCommandNotFound { name: &'static str, cmd: String },
    /// The directory cannot be entered.
    CannotCd { name: String, path: String },
    /// The file may not be executed.
    PermissionDenied { path: String },
}

/// Errors about variables.
#[derive(Debug)]
pub enum VariableError {
    /// The variable may not be written; `lines` is where it was declared.
    Readonly { name: String, lines: (usize, usize) },
    /// The text is no number that `caller` accepts.
    IllegalNumber { name: String, caller: &'static str },
    /// `caller` was asked about a variable that does not exist.
    NoSuchVariable { name: String, caller: &'static str },
}

impl ElviError for CommandError {
    open spec fn status(&self) -> u16 {
        match self {
            CommandError::NotFound { .. } => 127,
            CommandError::PermissionDenied { .. } => 126,
            CommandError::CannotCd { .. } => 2,
            CommandError::SubCommandNotFound { .. } => 1,
        }
    }

    fn ret(&self) -> (r: ReturnCode) {
        match self {
            CommandError::NotFound { .. } => ReturnCode::ret(ReturnCode::COMMAND_NOT_FOUND),
            CommandError::PermissionDenied { .. } => ReturnCode::ret(ReturnCode::PERMISSION_DENIED),
            CommandError::CannotCd { .. } => ReturnCode::ret(ReturnCode::MISUSE),
            CommandError::SubCommandNotFound { .. } => ReturnCode::ret(ReturnCode::FAILURE),
        }
    }
}

impl ElviError for VariableError {
    open spec fn status(&self) -> u16 {
        match self {
            VariableError::NoSuchVariable { .. } => 1,
            VariableError::Readonly { .. } => 2,
            VariableError::IllegalNumber { .. } => 2,
        }
    }

    fn ret(&self) -> (r: ReturnCode) {
        match self {
            VariableError::NoSuchVariable { .. } => ReturnCode::ret(ReturnCode::FAILURE),
            VariableError::Readonly { .. } => ReturnCode::ret(ReturnCode::MISUSE),
            VariableError::IllegalNumber { .. } => ReturnCode::ret(ReturnCode::MISUSE),
        }
    }
}

/// The line that tells that there is no command of a name.
pub open spec fn not_found_message(name: Seq<char>) -> Seq<char> {
    "elvi: "@ + name + ": not found"@
}

/// The line that tells that a file may not be executed.
pub open spec fn denied_message(path: Seq<char>) -> Seq<char> {
    "elvi: "@ + path + ": Permission denied"@
}

impl CommandError {
    /// The line that reports the error.
    pub open spec fn message(&self) -> Seq<char> {
        match self {
            CommandError::NotFound { name } => not_found_message(name@),
            CommandError::SubCommandNotFound { name, cmd } => "elvi: "@ + name@ + ": "@ + cmd@
                + ": not found"@,
            CommandError::CannotCd { name, path } => "elvi: "@ + name@ + ": can't cd to "@
                + path@,
            CommandError::PermissionDenied { path } => denied_message(path@),
        }
    }

    /// Write the line that reports the error.
    pub fn to_string(&self) -> (r: String)
        ensures
            r@ == self.message(),
    {
        let mut out = String::from_str("elvi: ");
        match self {
            CommandError::NotFound { name } => {
                out.append(name.as_str());
                out.append(": not found");
            },
            CommandError::SubCommandNotFound { name, cmd } => {
                out.append(name);
                out.append(": ");
                out.append(cmd.as_str());
                out.append(": not found");
            },
            CommandError::CannotCd { name, path } => {
                out.append(name.as_str());
                out.append(": can't cd to ");
                out.append(path.as_str());
            },
            CommandError::PermissionDenied { path } => {
                out.append(path.as_str());
                out.append(": Permission denied");
            },
        }
        out
    }
}

/// The line that tells that a variable may not be written, and where it was
/// declared.
pub open spec fn readonly_message(name: Seq<char>, lines: (usize, usize)) -> Seq<char> {
    "elvi: "@ + name + ": readonly variable (set on line '"@ + decimal(lines.0 as nat)
        + "' column '"@ + decimal(lines.1 as nat) + "')"@
}

/// The line that tells that a text is no number that `caller` accepts.
pub open spec fn illegal_number_message(name: Seq<char>, caller: Seq<char>) -> Seq<char> {
    "elvi: "@ + caller + ": Illegal number: "@ + name + ")"@
}

/// The line that tells that `caller` was asked about a variable that does
/// not exist.
pub open spec fn no_such_variable_message(name: Seq<char>, caller: Seq<char>) -> Seq<char> {
    caller + ": no such variable: "@ + name
}

impl VariableError {
    /// The line that reports the error.
    pub open spec fn message(&self) -> Seq<char> {
        match self {
            VariableError::NoSuchVariable { name, caller } => no_such_variable_message(
                name@,
                caller@,
            ),
            VariableError::Readonly { name, lines } => readonly_message(name@, *lines),
            VariableError::IllegalNumber { name, caller } => illegal_number_message(
                name@,
                caller@,
            ),
        }
    }

    /// Write the line that reports the error.
    pub fn to_string(&self) -> (r: String)
        ensures
            r@ == self.message(),
    {
        let mut out = String::new();
        match self {
            VariableError::NoSuchVariable { name, caller } => {
                out.append(caller);
                out.append(": no such variable: ");
                out.append(name.as_str());
            },
            VariableError::Readonly { name, lines } => {
                out.append("elvi: ");
                out.append(name.as_str());
                out.append(": readonly variable (set on line '");
                out.append(number_text(lines.0 as u64).as_str());
                out.append("' column '");
                out.append(number_text(lines.1 as u64).as_str());
                out.append("')");
            },
            VariableError::IllegalNumber { name, caller } => {
                out.append("elvi: ");
                out.append(caller);
                out.append(": Illegal number: ");
                out.append(name.as_str());
                out.append(")");
            },
        }
        out
    }
}

} // verus!
