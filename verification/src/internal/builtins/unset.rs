//! The `unset` builtin.
use super::options::{
    expand_arguments, expands_to, flag_views, getopts_parse, help_flag, letter_flag, list_of,
    options_view, parse_options, print_usage, Flag, FlagView, Options, Parsed,
};
use crate::internal::commands::Commands;
use crate::internal::env::{Env, EnvView};
use crate::internal::errors::{readonly_message, VariableError};
use crate::internal::status::ReturnCode;
use crate::internal::table::{without, Entries};
use crate::internal::text::texts;
use crate::internal::tree::Function;
use crate::internal::variables::{ElviMutable, ElviType, Store, Variables};
use vstd::prelude::*;
use vstd::string::*;

verus! {

/// The flags of `unset`: `-h`, `-v` and `-f`.
pub open spec fn unset_flags() -> Seq<FlagView> {
    seq![
        ('h', "help"@, "print help menu"@),
        ('v', ""@, "treat each NAME as a shell variable"@),
        ('f', ""@, "treat each NAME as a shell function"@),
    ]
}

/// What `unset` leaves behind.
pub struct Unset {
    /// The store.
    pub store: Store,
    /// The functions.
    pub functions: Entries<Function>,
    /// What is written.
    pub env: EnvView,
    /// The status.
    pub status: u16,
}

/// The store, what is written and whether a name was refused, after the
/// variables named from place `i` on are removed: a name that stands for no
/// variable is passed over, one that may be written is removed, and one
/// that may not is left with a complaint.
pub open spec fn unset_variables_from(
    names: Seq<Seq<char>>,
    i: int,
    store: Store,
    env: EnvView,
    refused: bool,
) -> (Store, EnvView, bool)
    decreases names.len() - i,
{
    if i < 0 || i >= names.len() {
        (store, env, refused)
    } else {
        match store.get(names[i]) {
            None => unset_variables_from(names, i + 1, store, env, refused),
            Some(v) => if v.writable() {
                unset_variables_from(names, i + 1, store.unset(names[i]), env, refused)
            } else {
                unset_variables_from(
                    names,
                    i + 1,
                    store,
                    env.complain(readonly_message(names[i], v.line)),
                    true,
                )
            },
        }
    }
}

/// The functions after those named from place `i` on are forgotten.
pub open spec fn forget_from(names: Seq<Seq<char>>, i: int, functions: Entries<Function>) -> Entries<
    Function,
>
    decreases names.len() - i,
{
    if i < 0 || i >= names.len() {
        functions
    } else {
        forget_from(names, i + 1, without(functions, names[i]))
    }
}

/// What `unset` leaves behind. Refused options are misuse; `-h` gives the
/// usage text; no name at all gives the usage text and misuse; with `-f`
/// the names are functions that are forgotten; else they are variables, and
/// the status is misuse where one of them may not be written.
pub open spec fn unset_outcome(
    options: Options,
    store: Store,
    functions: Entries<Function>,
    env: EnvView,
) -> Unset {
    match options {
        Options::Refused(reason) => Unset { store, functions, env: env.complain(reason), status: 2 },
        Options::Read { present, free } => if present[0] {
            Unset {
                store,
                functions,
                env: env.usage(unset_flags(), "Usage: unset [-fv] [name ...]"@),
                status: 0,
            }
        } else if free.len() == 0 {
            Unset {
                store,
                functions,
                env: env.usage(unset_flags(), "Usage: unset [-fv] [name ...]"@),
                status: 2,
            }
        } else if present[2] {
            Unset { store, functions: forget_from(free, 0, functions), env, status: 0 }
        } else {
            let done = unset_variables_from(free, 0, store, env, false);
            Unset {
                store: done.0,
                functions,
                env: done.1,
                status: if done.2 {
                    2
                } else {
                    0
                },
            }
        },
    }
}

/// The flags of `unset`.
fn flags_of_unset() -> (r: Vec<Flag>)
    ensures
        flag_views(r@) == unset_flags(),
        super::options::flags_valid(r@),
        r@.len() == 3,
{
    let mut flags: Vec<Flag> = Vec::new();
    flags.push(help_flag());
    flags.push(letter_flag('v', "treat each NAME as a shell variable"));
    flags.push(letter_flag('f', "treat each NAME as a shell function"));
    flags
}

/// `unset`, once its options were read.
pub fn unset_with(
    options: Result<Parsed, String>,
    variables: &mut Variables,
    commands: &mut Commands,
    env: &mut Env,
) -> (r: ReturnCode)
    requires
        options matches Ok(p) ==> p.present@.len() == 3,
        old(variables)@.wf(),
    ensures
        unset_outcome(
            options_view(options),
            old(variables)@,
            old(commands).functions.entries(),
            old(env)@,
        ) == (Unset {
            store: final(variables)@,
            functions: final(commands).functions.entries(),
            env: final(env)@,
            status: r@,
        }),
        final(variables)@.wf(),
        final(commands).cmds == old(commands).cmds,
{
    match options {
        Err(reason) => {
            env.complain(reason.as_str());
            ReturnCode::ret(ReturnCode::MISUSE)
        },
        Ok(parsed) => {
            if parsed.present[0] {
                print_usage(&flags_of_unset(), "Usage: unset [-fv] [name ...]", env);
                return ReturnCode::ret(ReturnCode::SUCCESS);
            }
            if parsed.free.len() == 0 {
                print_usage(&flags_of_unset(), "Usage: unset [-fv] [name ...]", env);
                return ReturnCode::ret(ReturnCode::MISUSE);
            }
            let ghost names = texts(parsed.free@);
            if parsed.present[2] {
                let mut i: usize = 0;
                while i < parsed.free.len()
                    invariant
                        i <= parsed.free.len(),
                        names == texts(parsed.free@),
                        commands.cmds == old(commands).cmds,
                        forget_from(names, i as int, commands.functions.entries()) == forget_from(
                            names,
                            0,
                            old(commands).functions.entries(),
                        ),
                    decreases parsed.free.len() - i,
                {
                    commands.deregister_function(parsed.free[i].as_str());
                    i = i + 1;
                }
                return ReturnCode::ret(ReturnCode::SUCCESS);
            }
            let mut refused = false;
            let mut i: usize = 0;
            while i < parsed.free.len()
                invariant
                    i <= parsed.free.len(),
                    names == texts(parsed.free@),
                    variables@.wf(),
                    unset_variables_from(names, i as int, variables@, env@, refused)
                        == unset_variables_from(names, 0, old(variables)@, old(env)@, false),
                decreases parsed.free.len() - i,
            {
                let name = parsed.free[i].as_str();
                let found = match variables.get_variable(name) {
                    None => None,
                    Some(var) => Some((var.modification_status, var.line)),
                };
                match found {
                    None => {},
                    Some((ElviMutable::Normal, _)) => {
                        let _ = variables.unset(name);
                    },
                    Some((_, lines)) => {
                        let err = VariableError::Readonly { name: parsed.free[i].clone(), lines };
                        env.complain(err.to_string().as_str());
                        refused = true;
                    },
                }
                i = i + 1;
            }
            if refused {
                ReturnCode::ret(ReturnCode::MISUSE)
            } else {
                ReturnCode::ret(ReturnCode::SUCCESS)
            }
        },
    }
}

/// The `unset` builtin: expand the arguments, read the options, and remove
/// the variables, or with `-f` the functions, that are named.
pub fn builtin_unset(
    args: Option<&[ElviType]>,
    variables: &mut Variables,
    commands: &mut Commands,
    env: &mut Env,
) -> (r: ReturnCode)
    requires
        old(variables)@.wf(),
    ensures
        final(variables)@.wf(),
        final(commands).cmds == old(commands).cmds,
        exists|words: Seq<Seq<char>>|
            {
                &&& expands_to(list_of(args), old(variables)@, words)
                &&& #[trigger] unset_outcome(
                    getopts_parse(unset_flags(), words),
                    old(variables)@,
                    old(commands).functions.entries(),
                    old(env)@,
                ) == (Unset {
                    store: final(variables)@,
                    functions: final(commands).functions.entries(),
                    env: final(env)@,
                    status: r@,
                })
            },
{
    let words = expand_arguments(args, variables);
    let options = parse_options(&flags_of_unset(), &words);
    let r = unset_with(options, variables, commands, env);
    r
}

/// To remove a name that stands for no variable is a success that changes
/// nothing and writes nothing.
pub proof fn lemma_unset_missing_succeeds(
    name: Seq<char>,
    store: Store,
    functions: Entries<Function>,
    env: EnvView,
)
    requires
        store.get(name) is None,
    ensures
        unset_outcome(
            Options::Read { present: seq![false, false, false], free: seq![name] },
            store,
            functions,
            env,
        ) == (Unset { store, functions, env, status: 0 }),
{
    let names = seq![name];
    assert(unset_variables_from(names, 1, store, env, false) == (store, env, false));
}

} // verus!
