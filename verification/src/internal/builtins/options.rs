//! Reading the options of a builtin.
use crate::internal::commands::HowRun;
use crate::internal::env::{Env, EnvView, Std};
use crate::internal::text::texts;
use crate::internal::variables::{ElviType, Store, Value, Variables};
use vstd::prelude::*;
use vstd::string::*;

verus! {

/// A flag that a builtin takes.
#[derive(Debug, Clone, Copy)]
pub struct Flag {
    /// The letter of the flag, as in `-h`.
    pub short: char,
    /// The word of the flag, as in `--help`, or nothing.
    pub long: &'static str,
    /// What the flag does, for the usage text.
    pub desc: &'static str,
}

/// A flag as plain values: letter, word and description.
pub type FlagView = (char, Seq<char>, Seq<char>);

/// The flags as plain values.
pub open spec fn flag_views(flags: Seq<Flag>) -> Seq<FlagView> {
    flags.map_values(|f: Flag| (f.short, f.long@, f.desc@))
}

/// Whether the flags can be declared: each letter is an ASCII character and
/// no word is a single character.
pub open spec fn flags_valid(flags: Seq<Flag>) -> bool {
    forall|i: int|
        0 <= i < flags.len() ==> (#[trigger] flags[i]).short as u32 <= 127 && flags[i].long@.len()
            != 1
}

/// The arguments of a builtin after its options were read.
#[derive(Debug)]
pub struct Parsed {
    /// For each flag, in the order of the flags, whether it was given.
    pub present: Vec<bool>,
    /// The arguments that are no options, in order.
    pub free: Vec<String>,
}

/// What reading the options gave, as plain values.
pub enum Options {
    /// The options were read.
    Read {
        /// For each flag, whether it was given.
        present: Seq<bool>,
        /// The arguments that are no options.
        free: Seq<Seq<char>>,
    },
    /// The arguments were refused, with the reason.
    Refused(Seq<char>),
}

/// What reading the options gave, as plain values.
pub open spec fn options_view(r: Result<Parsed, String>) -> Options {
    match r {
        Ok(p) => Options::Read { present: p.present@, free: texts(p.free@) },
        Err(reason) => Options::Refused(reason@),
    }
}

/// What `getopts` makes of arguments, given the flags that are declared.
pub uninterp spec fn getopts_parse(flags: Seq<FlagView>, args: Seq<Seq<char>>) -> Options;

/// The usage text that `getopts` writes for the flags under a first line.
pub uninterp spec fn getopts_usage(flags: Seq<FlagView>, brief: Seq<char>) -> Seq<char>;

/// Reads the options with `getopts::Options::parse`, after each flag was
/// declared with `optflag`. The outcome depends on the flags and the
/// arguments alone: it has one truth value for each flag, got from
/// `opt_present`, and the free arguments, or the text of the failure.
#[verifier::external_body]
pub(crate) fn parse_options(flags: &Vec<Flag>, args: &Vec<String>) -> (r: Result<Parsed, String>)
    requires
        flags_valid(flags@),
    ensures
        options_view(r) == getopts_parse(flag_views(flags@), texts(args@)),
        r matches Ok(p) ==> p.present@.len() == flags@.len(),
{
    let mut opts = getopts::Options::new();
    for flag in flags.iter() {
        opts.optflag(&flag.short.to_string(), flag.long, flag.desc);
    }
    match opts.parse(args) {
        Ok(found) => Ok(
            Parsed {
                present: flags.iter().map(|flag| found.opt_present(&flag.short.to_string())).collect(),
                free: found.free,
            },
        ),
        Err(failure) => Err(failure.to_string()),
    }
}

/// Writes the usage text with `getopts::Options::usage`, after each flag
/// was declared with `optflag`. The text depends on the flags and the first
/// line alone.
#[verifier::external_body]
pub(crate) fn usage_text(flags: &Vec<Flag>, brief: &str) -> (r: String)
    requires
        flags_valid(flags@),
    ensures
        r@ == getopts_usage(flag_views(flags@), brief@),
{
    let mut opts = getopts::Options::new();
    for flag in flags.iter() {
        opts.optflag(&flag.short.to_string(), flag.long, flag.desc);
    }
    opts.usage(brief)
}

/// The flag `-h`, `--help`.
pub fn help_flag() -> (r: Flag)
    ensures
        r.short == 'h',
        r.long@ == "help"@,
        r.desc@ == "print help menu"@,
        r.short as u32 <= 127,
        r.long@.len() != 1,
{
    proof {
        reveal_strlit("help");
    }
    Flag { short: 'h', long: "help", desc: "print help menu" }
}

/// A flag that is only a letter.
pub fn letter_flag(short: char, desc: &'static str) -> (r: Flag)
    requires
        short as u32 <= 127,
    ensures
        r.short == short,
        r.long@ == ""@,
        r.desc@ == desc@,
        r.long@.len() != 1,
{
    proof {
        reveal_strlit("");
    }
    Flag { short, long: "", desc }
}

impl Value {
    /// The word that an argument of a builtin becomes: tilde, then escapes,
    /// then parameters, and the outcome written out.
    pub open spec fn argument_word(self, store: Store, user_home: Option<Seq<char>>) -> Seq<char> {
        self.tilde_expanded(store, user_home).unescaped().with_parameters(store).text()
    }

    /// The word that a word of a command becomes: tilde, then parameters,
    /// then escapes, and the outcome written out.
    pub open spec fn command_word(self, store: Store, user_home: Option<Seq<char>>) -> Seq<char> {
        self.tilde_expanded(store, user_home).with_parameters(store).unescaped().text()
    }
}

/// The words that the arguments of a builtin become, given for each the
/// home directory of the user that it names, if it names one.
pub open spec fn argument_words(
    args: Seq<ElviType>,
    store: Store,
    homes: Seq<Option<Seq<char>>>,
) -> Seq<Seq<char>> {
    Seq::new(args.len(), |i: int| args[i]@.argument_word(store, homes[i]))
}

/// The arguments as a list, if there are any.
pub open spec fn list_of(args: Option<&[ElviType]>) -> Option<Seq<ElviType>> {
    match args {
        Some(list) => Some(list@),
        None => None,
    }
}

/// Whether `words` are what the arguments of a builtin can become: each
/// argument expanded, with some home directory for the user that it names.
pub open spec fn expands_to(args: Option<Seq<ElviType>>, store: Store, words: Seq<Seq<char>>) -> bool {
    match args {
        Some(list) => arguments_expand_to(list, store, words),
        None => words.len() == 0,
    }
}

/// Whether `words` are what a list of arguments can become.
pub open spec fn arguments_expand_to(list: Seq<ElviType>, store: Store, words: Seq<Seq<char>>) -> bool {
    exists|homes: Seq<Option<Seq<char>>>|
        homes.len() == list.len() && words == #[trigger] argument_words(list, store, homes)
}

/// The words that the words of a command become, given for each the home
/// directory of the user that it names, if it names one.
pub open spec fn command_words(
    words: Seq<ElviType>,
    store: Store,
    homes: Seq<Option<Seq<char>>>,
) -> Seq<Seq<char>> {
    Seq::new(words.len(), |i: int| words[i]@.command_word(store, homes[i]))
}

/// Whether `out` is what the words of a command can become.
pub open spec fn command_expands_to(words: Seq<ElviType>, store: Store, out: Seq<Seq<char>>) -> bool {
    exists|homes: Seq<Option<Seq<char>>>|
        homes.len() == words.len() && out == #[trigger] command_words(words, store, homes)
}

/// Expand the words of a command.
pub fn expand_command(words: &Vec<ElviType>, variables: &Variables) -> (r: Vec<String>)
    ensures
        command_expands_to(words@, variables@, texts(r@)),
        r@.len() == words@.len(),
{
    let mut out: Vec<String> = Vec::new();
    let ghost mut homes: Seq<Option<Seq<char>>> = Seq::empty();
    let mut i: usize = 0;
    while i < words.len()
        invariant
            i <= words.len(),
            out@.len() == i,
            homes.len() == i,
            forall|j: int|
                0 <= j < i ==> (#[trigger] out@[j])@ == words@[j]@.command_word(variables@, homes[j]),
        decreases words.len() - i,
    {
        let tilde = words[i].tilde_expansion(variables);
        let ghost home = choose|user_home: Option<Seq<char>>|
            tilde@ == words@[i as int]@.tilde_expanded(variables@, user_home);
        let word = tilde.eval_variables(variables).eval_escapes().to_string();
        out.push(word);
        proof {
            homes = homes.push(home);
        }
        i = i + 1;
    }
    assert(texts(out@) =~= command_words(words@, variables@, homes));
    out
}

/// The arguments of a builtin as the statement holds them.
pub fn as_list(args: &Option<Vec<ElviType>>) -> (r: Option<&[ElviType]>)
    ensures
        list_of(r) == (match *args {
            Some(list) => Some(list@),
            None => None,
        }),
{
    match args {
        Some(list) => Some(list.as_slice()),
        None => None,
    }
}

/// Expand the arguments of a builtin.
pub fn expand_arguments(args: Option<&[ElviType]>, variables: &Variables) -> (r: Vec<String>)
    ensures
        expands_to(list_of(args), variables@, texts(r@)),
{
    let mut out: Vec<String> = Vec::new();
    match args {
        Some(list) => {
            let ghost mut homes: Seq<Option<Seq<char>>> = Seq::empty();
            let mut i: usize = 0;
            while i < list.len()
                invariant
                    i <= list.len(),
                    out@.len() == i,
                    homes.len() == i,
                    forall|j: int|
                        0 <= j < i ==> (#[trigger] out@[j])@ == list@[j]@.argument_word(
                            variables@,
                            homes[j],
                        ),
                decreases list.len() - i,
            {
                let tilde = list[i].tilde_expansion(variables);
                let ghost home = choose|user_home: Option<Seq<char>>|
                    tilde@ == list@[i as int]@.tilde_expanded(variables@, user_home);
                let word = tilde.eval_escapes().eval_variables(variables).to_string();
                out.push(word);
                proof {
                    homes = homes.push(home);
                }
                i = i + 1;
            }
            assert(texts(out@) =~= argument_words(list@, variables@, homes));
        },
        None => {
        },
    }
    out
}

/// The flags of the builtins that take only `-h`.
pub open spec fn help_flags() -> Seq<FlagView> {
    seq![('h', "help"@, "print help menu"@)]
}

/// The flags of the builtins that take only `-h`.
pub fn help_only() -> (r: Vec<Flag>)
    ensures
        flag_views(r@) == help_flags(),
        flags_valid(r@),
        r@.len() == 1,
{
    let mut flags: Vec<Flag> = Vec::new();
    flags.push(help_flag());
    flags
}

impl EnvView {
    /// The state after the usage text for the flags went to standard
    /// output.
    pub open spec fn usage(self, flags: Seq<FlagView>, brief: Seq<char>) -> EnvView {
        self.print(Std::Out, HowRun::RealTime, getopts_usage(flags, brief))
    }
}

/// Write the usage text for the flags to standard output.
pub fn print_usage(flags: &Vec<Flag>, brief: &str, env: &mut Env)
    requires
        flags_valid(flags@),
    ensures
        final(env)@ == old(env)@.usage(flag_views(flags@), brief@),
{
    let usage = usage_text(flags, brief);
    env.print(&Std::Out, &HowRun::RealTime, usage.as_str());
}

} // verus!
