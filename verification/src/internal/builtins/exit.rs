//! The `exit` builtin.
use super::options::{
    expand_arguments, expands_to, getopts_parse, help_flags, help_only, list_of, options_view,
    parse_options, print_usage, Options, Parsed,
};
use crate::internal::env::{Env, EnvView};
use crate::internal::errors::{illegal_number_message, ElviError, VariableError};
use crate::internal::status::ReturnCode;
use crate::internal::text::parse_number;
use crate::internal::variables::{ElviType, Variables};
use vstd::prelude::*;
use vstd::string::*;

verus! {

/// The status that `exit` resolves to: misuse where the options were
/// refused or the first argument writes no status; success for `-h` and
/// where there is no argument; else the status that the first argument
/// writes.
pub open spec fn exit_status(options: Options) -> u16 {
    match options {
        Options::Refused(_) => 2,
        Options::Read { present, free } => if present[0] || free.len() == 0 {
            0
        } else {
            match parse_number(free[0], u16::MAX as nat) {
                Some(code) => code as u16,
                None => 2,
            }
        },
    }
}

/// What `exit` leaves written: the reason where the options were refused,
/// the usage text for `-h`, a complaint where the first argument writes no
/// status, else nothing.
pub open spec fn exit_env(options: Options, env: EnvView) -> EnvView {
    match options {
        Options::Refused(reason) => env.complain(reason),
        Options::Read { present, free } => if present[0] {
            env.usage(help_flags(), "Usage: exit [n]"@)
        } else if free.len() > 0 && parse_number(free[0], u16::MAX as nat) is None {
            env.complain(illegal_number_message(free[0], "exit"@))
        } else {
            env
        },
    }
}

/// `exit`, once its options were read.
pub fn exit_with(options: Result<Parsed, String>, env: &mut Env) -> (r: ReturnCode)
    requires
        options matches Ok(p) ==> p.present@.len() == 1,
    ensures
        r@ == exit_status(options_view(options)),
        final(env)@ == exit_env(options_view(options), old(env)@),
{
    match options {
        Err(reason) => {
            env.complain(reason.as_str());
            ReturnCode::ret(ReturnCode::MISUSE)
        },
        Ok(parsed) => {
            if parsed.present[0] {
                print_usage(&help_only(), "Usage: exit [n]", env);
                ReturnCode::ret(ReturnCode::SUCCESS)
            } else if parsed.free.len() == 0 {
                ReturnCode::ret(ReturnCode::SUCCESS)
            } else {
                match ReturnCode::parse(parsed.free[0].as_str()) {
                    Ok(code) => code,
                    Err(_) => {
                        let err = VariableError::IllegalNumber {
                            name: parsed.free[0].clone(),
                            caller: "exit",
                        };
                        env.complain(err.to_string().as_str());
                        err.ret()
                    },
                }
            }
        },
    }
}

/// The `exit` builtin: expand the arguments, read the options, and resolve
/// the status with which the shell is to leave. Leaving itself is the
/// evaluator's.
pub fn builtin_exit(args: Option<&[ElviType]>, variables: &Variables, env: &mut Env) -> (r: ReturnCode)
    ensures
        exists|words: Seq<Seq<char>>|
            {
                &&& expands_to(list_of(args), variables@, words)
                &&& r@ == exit_status(#[trigger] getopts_parse(help_flags(), words))
                &&& final(env)@ == exit_env(getopts_parse(help_flags(), words), old(env)@)
            },
{
    let words = expand_arguments(args, variables);
    let options = parse_options(&help_only(), &words);
    let r = exit_with(options, env);
    r
}

} // verus!
