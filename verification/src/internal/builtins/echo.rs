//! The `echo` builtin.
use super::options::{
    expand_arguments, expands_to, flag_views, getopts_parse, letter_flag, list_of, options_view,
    parse_options, Flag, Options, Parsed,
};
use crate::internal::commands::HowRun;
use crate::internal::env::{Env, EnvView, Std};
use crate::internal::status::ReturnCode;
use crate::internal::text::{join_texts, joined, texts};
use crate::internal::variables::{ElviType, Variables};
use vstd::prelude::*;
use vstd::string::*;

verus! {

/// The flags of `echo`: `-n`.
pub open spec fn echo_flags() -> Seq<(char, Seq<char>, Seq<char>)> {
    seq![('n', ""@, "do not append a newline"@)]
}

/// What `echo` writes for its free arguments: the arguments with one space
/// between each two, and a newline after them unless `-n` was given.
pub open spec fn echo_text(free: Seq<Seq<char>>, no_newline: bool) -> Seq<char> {
    if no_newline {
        joined(free, seq![' '])
    } else {
        joined(free, seq![' ']) + seq!['\n']
    }
}

/// The status of `echo`: failure by misuse where the options were refused,
/// else success.
pub open spec fn echo_status(options: Options) -> u16 {
    match options {
        Options::Read { .. } => 0,
        Options::Refused(_) => 2,
    }
}

/// What `echo` leaves written: the reason on standard error where the
/// options were refused, else its text on standard output.
pub open spec fn echo_env(options: Options, env: EnvView) -> EnvView {
    match options {
        Options::Read { present, free } => env.print(
            Std::Out,
            HowRun::RealTime,
            echo_text(free, present[0]),
        ),
        Options::Refused(reason) => env.complain(reason),
    }
}

/// `echo`, once its options were read.
pub fn echo_with(options: Result<Parsed, String>, env: &mut Env) -> (r: ReturnCode)
    requires
        options matches Ok(p) ==> p.present@.len() == 1,
    ensures
        r@ == echo_status(options_view(options)),
        final(env)@ == echo_env(options_view(options), old(env)@),
{
    match options {
        Ok(parsed) => {
            let mut text = join_texts(&parsed.free, " ");
            proof {
                reveal_strlit(" ");
                reveal_strlit("\n");
                assert(" "@ =~= seq![' ']);
            }
            if !parsed.present[0] {
                text.append("\n");
                assert(text@ =~= echo_text(texts(parsed.free@), false));
            }
            env.print(&Std::Out, &HowRun::RealTime, text.as_str());
            ReturnCode::ret(ReturnCode::SUCCESS)
        },
        Err(reason) => {
            env.complain(reason.as_str());
            ReturnCode::ret(ReturnCode::MISUSE)
        },
    }
}

/// The `echo` builtin: expand the arguments, read the options, and write the
/// free arguments with one space between each two, and a newline after them
/// unless `-n` was given.
pub fn builtin_echo(text: Option<&[ElviType]>, variables: &Variables, env: &mut Env) -> (r: ReturnCode)
    ensures
        exists|words: Seq<Seq<char>>|
            {
                &&& expands_to(list_of(text), variables@, words)
                &&& r@ == echo_status(#[trigger] getopts_parse(echo_flags(), words))
                &&& final(env)@ == echo_env(getopts_parse(echo_flags(), words), old(env)@)
            },
{
    let words = expand_arguments(text, variables);
    let mut flags: Vec<Flag> = Vec::new();
    flags.push(letter_flag('n', "do not append a newline"));
    assert(flag_views(flags@) =~= echo_flags());
    let options = parse_options(&flags, &words);
    let r = echo_with(options, env);
    r
}

} // verus!
