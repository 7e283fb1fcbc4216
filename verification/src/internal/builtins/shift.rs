//! The `shift` builtin.
use super::options::{
    expand_arguments, expands_to, getopts_parse, help_flags, help_only, list_of, options_view,
    parse_options, print_usage, Options, Parsed,
};
use crate::internal::env::{Env, EnvView};
use crate::internal::errors::{illegal_number_message, ElviError, VariableError};
use crate::internal::status::{ReturnCode, Verdict};
use crate::internal::text::{parse_bounded, parse_number};
use crate::internal::variables::{ElviType, Store, Variables};
use vstd::prelude::*;
use vstd::string::*;

verus! {

/// What `shift` is asked to do.
pub enum ShiftRequest {
    /// The options were refused, with the reason.
    Refused(Seq<char>),
    /// The usage text is wanted.
    Help,
    /// The argument writes no number.
    NoNumber(Seq<char>),
    /// That many arguments are to be dropped.
    Drop(nat),
}

/// What `shift` is asked to do: without an argument it drops one argument,
/// with one it drops as many as the argument writes.
pub open spec fn shift_request(options: Options) -> ShiftRequest {
    match options {
        Options::Refused(reason) => ShiftRequest::Refused(reason),
        Options::Read { present, free } => if present[0] {
            ShiftRequest::Help
        } else if free.len() == 0 {
            ShiftRequest::Drop(1)
        } else {
            match parse_number(free[0], usize::MAX as nat) {
                Some(n) => ShiftRequest::Drop(n),
                None => ShiftRequest::NoNumber(free[0]),
            }
        },
    }
}

/// How `shift` ends: to drop more arguments than there are makes the shell
/// leave at once, by misuse; refused options and an argument that writes no
/// number are misuse too, but the script goes on.
pub open spec fn shift_verdict(options: Options, store: Store) -> Verdict {
    match shift_request(options) {
        ShiftRequest::Refused(_) => Verdict::Continue(ReturnCode { val: 2 }),
        ShiftRequest::Help => Verdict::Continue(ReturnCode { val: 0 }),
        ShiftRequest::NoNumber(_) => Verdict::Continue(ReturnCode { val: 2 }),
        ShiftRequest::Drop(n) => if n > store.argument_count() {
            Verdict::Terminate(ReturnCode { val: 2 })
        } else {
            Verdict::Continue(ReturnCode { val: 0 })
        },
    }
}

/// The store after `shift`: without its first arguments where so many can
/// be dropped, else as before.
pub open spec fn shift_store(options: Options, store: Store) -> Store {
    match shift_request(options) {
        ShiftRequest::Drop(n) => if n > store.argument_count() {
            store
        } else {
            store.shifted(n)
        },
        _ => store,
    }
}

/// What `shift` leaves written.
pub open spec fn shift_env(options: Options, store: Store, env: EnvView) -> EnvView {
    match shift_request(options) {
        ShiftRequest::Refused(reason) => env.complain(reason),
        ShiftRequest::Help => env.usage(help_flags(), "Usage: shift [n]"@),
        ShiftRequest::NoNumber(word) => env.complain(illegal_number_message(word, "shift"@)),
        ShiftRequest::Drop(n) => if n > store.argument_count() {
            env.complain("can't shift that many"@)
        } else {
            env
        },
    }
}

/// `shift`, once its options were read.
pub fn shift_with(options: Result<Parsed, String>, variables: &mut Variables, env: &mut Env) -> (r:
    Verdict)
    requires
        options matches Ok(p) ==> p.present@.len() == 1,
    ensures
        r == shift_verdict(options_view(options), old(variables)@),
        final(variables)@ == shift_store(options_view(options), old(variables)@),
        final(env)@ == shift_env(options_view(options), old(variables)@, old(env)@),
{
    match options {
        Err(reason) => {
            env.complain(reason.as_str());
            Verdict::Continue(ReturnCode::ret(ReturnCode::MISUSE))
        },
        Ok(parsed) => {
            if parsed.present[0] {
                print_usage(&help_only(), "Usage: shift [n]", env);
                return Verdict::Continue(ReturnCode::ret(ReturnCode::SUCCESS));
            }
            let number: u64 = if parsed.free.len() == 0 {
                1
            } else {
                match parse_bounded(parsed.free[0].as_str(), usize::MAX as u64) {
                    Some(n) => n,
                    None => {
                        let err = VariableError::IllegalNumber {
                            name: parsed.free[0].clone(),
                            caller: "shift",
                        };
                        env.complain(err.to_string().as_str());
                        return Verdict::Continue(err.ret());
                    },
                }
            };
            let count = variables.len_parameters();
            if count == 0 || number > (count - 1) as u64 {
                if number > 0 {
                    env.complain("can't shift that many");
                    return Verdict::Terminate(ReturnCode::ret(ReturnCode::MISUSE));
                }
            }
            variables.drop_arguments(number as usize);
            Verdict::Continue(ReturnCode::ret(ReturnCode::SUCCESS))
        },
    }
}

/// The `shift` builtin: expand the arguments, read the options, and drop
/// arguments from the front. To drop more than there are ends the shell.
pub fn builtin_shift(args: Option<&[ElviType]>, variables: &mut Variables, env: &mut Env) -> (r:
    Verdict)
    ensures
        exists|words: Seq<Seq<char>>|
            {
                &&& expands_to(list_of(args), old(variables)@, words)
                &&& r == shift_verdict(
                    #[trigger] getopts_parse(help_flags(), words),
                    old(variables)@,
                )
                &&& final(variables)@ == shift_store(
                    getopts_parse(help_flags(), words),
                    old(variables)@,
                )
                &&& final(env)@ == shift_env(
                    getopts_parse(help_flags(), words),
                    old(variables)@,
                    old(env)@,
                )
            },
{
    let words = expand_arguments(args, variables);
    let options = parse_options(&help_only(), &words);
    let r = shift_with(options, variables, env);
    r
}

/// To drop more arguments than there are makes the shell leave at once, by
/// misuse, and leaves the arguments as they were.
pub proof fn lemma_shift_too_far(options: Options, store: Store, n: nat)
    requires
        shift_request(options) == ShiftRequest::Drop(n),
        n > store.argument_count(),
    ensures
        shift_verdict(options, store) == Verdict::Terminate(ReturnCode { val: 2 }),
        shift_store(options, store) == store,
{
}

} // verus!
