//! The `hash` builtin.
use super::options::{
    expand_arguments, expands_to, flag_views, getopts_parse, letter_flag, list_of, options_view,
    parse_options, Flag, FlagView, Options, Parsed,
};
use crate::internal::commands::Commands;
use crate::internal::env::{Env, EnvView};
use crate::internal::errors::{CommandError, ElviError};
use crate::internal::status::ReturnCode;
use crate::internal::table::Entries;
use crate::internal::text::texts;
use crate::internal::variables::{ElviType, Variables};
use vstd::prelude::*;
use vstd::string::*;

verus! {

/// The flags of `hash`: `-r`.
pub open spec fn hash_flags() -> Seq<FlagView> {
    seq![('r', ""@, "forget all remembered locations"@)]
}

/// How `hash` ends.
#[derive(Debug)]
pub enum Hashed {
    /// It is done, with this status.
    Done(ReturnCode),
    /// The programs are to be looked up anew in these directories.
    Rescan(Vec<String>),
}

/// What is written after the programs from place `i` on were listed, each
/// as `name=path`.
pub open spec fn listed_from(cmds: Entries<Seq<char>>, i: int, env: EnvView) -> EnvView
    decreases cmds.len() - i,
{
    if i < 0 || i >= cmds.len() {
        env
    } else {
        listed_from(cmds, i + 1, env.say(cmds[i].0 + "="@ + cmds[i].1))
    }
}

/// The line that tells that `hash` does not take an argument.
pub open spec fn hash_complaint(word: Seq<char>) -> Seq<char> {
    "elvi: "@ + "hash"@ + ": "@ + word + ": not found"@
}

/// What `hash` leaves written: the reason where the options were refused,
/// nothing for `-r`, the list of the programs where there is no argument,
/// and a complaint about any other argument.
pub open spec fn hash_env(options: Options, cmds: Entries<Seq<char>>, env: EnvView) -> EnvView {
    match options {
        Options::Refused(reason) => env.complain(reason),
        Options::Read { present, free } => if present[0] {
            env
        } else if free.len() == 0 {
            listed_from(cmds, 0, env)
        } else {
            env.complain(hash_complaint(free[0]))
        },
    }
}

/// The status of `hash`, or nothing where the programs are to be looked up
/// anew: refused options are misuse, an argument is a failure, the list is
/// a success.
pub open spec fn hash_status(options: Options) -> Option<u16> {
    match options {
        Options::Refused(_) => Some(2),
        Options::Read { present, free } => if present[0] {
            None
        } else if free.len() == 0 {
            Some(0)
        } else {
            Some(1)
        },
    }
}

/// `hash`, once its options were read.
pub fn hash_with(
    options: Result<Parsed, String>,
    commands: &Commands,
    variables: &Variables,
    env: &mut Env,
) -> (r: Hashed)
    requires
        options matches Ok(p) ==> p.present@.len() == 1,
    ensures
        final(env)@ == hash_env(options_view(options), commands.cmds.entries(), old(env)@),
        match r {
            Hashed::Done(code) => hash_status(options_view(options)) == Some(code@),
            Hashed::Rescan(dirs) => hash_status(options_view(options)) is None && texts(dirs@)
                == variables@.search_path(),
        },
{
    let ghost goal = hash_env(options_view(options), commands.cmds.entries(), old(env)@);
    match options {
        Err(reason) => {
            env.complain(reason.as_str());
            Hashed::Done(ReturnCode::ret(ReturnCode::MISUSE))
        },
        Ok(parsed) => {
            if parsed.present[0] {
                return Hashed::Rescan(Commands::search_path(variables));
            }
            if parsed.free.len() > 0 {
                let err = CommandError::SubCommandNotFound {
                    name: "hash",
                    cmd: parsed.free[0].clone(),
                };
                env.complain(err.to_string().as_str());
                return Hashed::Done(err.ret());
            }
            let n = commands.cmds.len();
            let mut i: usize = 0;
            while i < n
                invariant
                    i <= n,
                    n == commands.cmds.entries().len(),
                    listed_from(commands.cmds.entries(), i as int, env@) == goal,
                decreases n - i,
            {
                let mut line = commands.cmds.name_at(i).clone();
                line.append("=");
                line.append(commands.cmds.value_at(i).as_str());
                env.say(line.as_str());
                i = i + 1;
            }
            Hashed::Done(ReturnCode::ret(ReturnCode::SUCCESS))
        },
    }
}

/// The `hash` builtin: expand the arguments, read the options, and list the
/// programs that the shell remembers, or with `-r` ask for them to be
/// looked up anew.
pub fn builtin_hash(
    args: Option<&[ElviType]>,
    commands: &Commands,
    variables: &Variables,
    env: &mut Env,
) -> (r: Hashed)
    ensures
        exists|words: Seq<Seq<char>>|
            {
                &&& expands_to(list_of(args), variables@, words)
                &&& final(env)@ == hash_env(
                    #[trigger] getopts_parse(hash_flags(), words),
                    commands.cmds.entries(),
                    old(env)@,
                )
                &&& match r {
                    Hashed::Done(code) => hash_status(getopts_parse(hash_flags(), words)) == Some(
                        code@,
                    ),
                    Hashed::Rescan(dirs) => hash_status(getopts_parse(hash_flags(), words))
                        is None && texts(dirs@) == variables@.search_path(),
                }
            },
{
    let words = expand_arguments(args, variables);
    let mut flags: Vec<Flag> = Vec::new();
    flags.push(letter_flag('r', "forget all remembered locations"));
    assert(flag_views(flags@) =~= hash_flags());
    let options = parse_options(&flags, &words);
    let r = hash_with(options, commands, variables, env);
    r
}

} // verus!
