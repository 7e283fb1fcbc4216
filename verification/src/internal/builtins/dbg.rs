//! The `dbg` builtin, which shows variables.
use super::options::{
    expand_arguments, expands_to, getopts_parse, help_flags, help_only, list_of, options_view,
    parse_options, print_usage, Options, Parsed,
};
use crate::internal::env::{Env, EnvView};
use crate::internal::errors::{no_such_variable_message, ElviError, VariableError};
use crate::internal::status::ReturnCode;
use crate::internal::text::texts;
use crate::internal::variables::{ElviMutable, ElviType, Store, VariableView, Variables};
use vstd::prelude::*;
use vstd::string::*;

verus! {

/// The line that shows a variable: `name=value`, with `readonly ` in front
/// where the variable may not be written.
pub open spec fn dbg_line(name: Seq<char>, v: VariableView) -> Seq<char> {
    if v.writable() {
        name + "="@ + v.contents.text()
    } else {
        "readonly "@ + name + "="@ + v.contents.text()
    }
}

/// What showing the names from place `i` on leaves written, and the status:
/// each variable has its line, and the first name that stands for no
/// variable ends the run with a complaint and failure.
pub open spec fn dbg_from(names: Seq<Seq<char>>, i: int, store: Store, env: EnvView) -> (
    EnvView,
    u16,
)
    decreases names.len() - i,
{
    if i < 0 || i >= names.len() {
        (env, 0)
    } else {
        match store.get(names[i]) {
            Some(v) => dbg_from(names, i + 1, store, env.say(dbg_line(names[i], v))),
            None => (env.complain(no_such_variable_message(names[i], "dbg"@)), 1),
        }
    }
}

/// What `dbg` leaves written, and its status: refused options are misuse,
/// `-h` gives the usage text, no name at all gives the usage text and
/// failure.
pub open spec fn dbg_outcome(options: Options, store: Store, env: EnvView) -> (EnvView, u16) {
    match options {
        Options::Refused(reason) => (env.complain(reason), 2),
        Options::Read { present, free } => if present[0] {
            (env.usage(help_flags(), "Usage: dbg VARNAME"@), 0)
        } else if free.len() == 0 {
            (env.usage(help_flags(), "Usage: dbg VARNAME"@), 1)
        } else {
            dbg_from(free, 0, store, env)
        },
    }
}

/// `dbg`, once its options were read.
pub fn dbg_with(options: Result<Parsed, String>, variables: &Variables, env: &mut Env) -> (r:
    ReturnCode)
    requires
        options matches Ok(p) ==> p.present@.len() == 1,
    ensures
        (final(env)@, r@) == dbg_outcome(options_view(options), variables@, old(env)@),
{
    let ghost goal = dbg_outcome(options_view(options), variables@, old(env)@);
    match options {
        Err(reason) => {
            env.complain(reason.as_str());
            ReturnCode::ret(ReturnCode::MISUSE)
        },
        Ok(parsed) => {
            if parsed.present[0] {
                print_usage(&help_only(), "Usage: dbg VARNAME", env);
                return ReturnCode::ret(ReturnCode::SUCCESS);
            }
            if parsed.free.len() == 0 {
                print_usage(&help_only(), "Usage: dbg VARNAME", env);
                return ReturnCode::ret(ReturnCode::FAILURE);
            }
            let ghost names = texts(parsed.free@);
            let mut i: usize = 0;
            while i < parsed.free.len()
                invariant
                    i <= parsed.free.len(),
                    names == texts(parsed.free@),
                    dbg_from(names, i as int, variables@, env@) == goal,
                    goal == dbg_outcome(options_view(options), variables@, old(env)@),
                decreases parsed.free.len() - i,
            {
                let name = parsed.free[i].as_str();
                match variables.get_variable(name) {
                    None => {
                        let err = VariableError::NoSuchVariable {
                            name: parsed.free[i].clone(),
                            caller: "dbg",
                        };
                        env.complain(err.to_string().as_str());
                        return err.ret();
                    },
                    Some(var) => {
                        let mut line = String::new();
                        match var.modification_status {
                            ElviMutable::Normal => {},
                            _ => {
                                line.append("readonly ");
                            },
                        }
                        line.append(name);
                        line.append("=");
                        line.append(var.contents.to_string().as_str());
                        env.say(line.as_str());
                    },
                }
                i = i + 1;
            }
            ReturnCode::ret(ReturnCode::SUCCESS)
        },
    }
}

/// The `dbg` builtin: expand the arguments, read the options, and show each
/// variable that is named.
pub fn builtin_dbg(args: Option<&[ElviType]>, variables: &Variables, env: &mut Env) -> (r:
    ReturnCode)
    ensures
        exists|words: Seq<Seq<char>>|
            {
                &&& expands_to(list_of(args), variables@, words)
                &&& (final(env)@, r@) == dbg_outcome(
                    #[trigger] getopts_parse(help_flags(), words),
                    variables@,
                    old(env)@,
                )
            },
{
    let words = expand_arguments(args, variables);
    let options = parse_options(&help_only(), &words);
    let r = dbg_with(options, variables, env);
    r
}

} // verus!
