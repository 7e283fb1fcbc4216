//! The commands that the shell knows: programs found on the search path and
//! functions that the script declared; and how a command is made ready to
//! run.
use super::errors::CommandError;
use super::status::ReturnCode;
use super::table::{lookup, put, without, Entries, Table};
use super::text::{has_prefix, starts_with, text_pairs, texts};
use super::tree::Function;
use super::variables::{Store, Variables};
use super::world::{FileFacts, FileKind, FoundFile};
use vstd::prelude::*;
use vstd::string::*;

verus! {

/// How the output of a command is handled.
#[derive(Debug, Clone, Copy, PartialEq, Eq, Structural)]
pub enum HowRun {
    /// Written at once, as for a command that stands alone.
    RealTime,
    /// Kept back for a command substitution.
    Substitution,
    /// Kept back for the next command of a pipe.
    Piped,
}

/// The commands that the shell knows.
#[derive(Debug)]
pub struct Commands {
    /// The programs found on the search path: name and path.
    pub cmds: Table<String>,
    /// The functions that the script declared.
    pub functions: Table<Function>,
}

/// A command made of words: what to run and with which arguments.
#[derive(Debug)]
pub struct ExternalCommand {
    /// The command: a name or a path.
    pub cmd: String,
    /// The arguments, if any.
    pub args: Option<Vec<String>>,
    /// How the output is handled.
    pub attributes: HowRun,
}

/// What a command left behind.
#[derive(Debug)]
pub struct CmdReturn {
    /// Its status.
    pub ret: ReturnCode,
    /// What it wrote to standard output.
    pub stdout: Vec<u8>,
    /// What it wrote to standard error.
    pub stderr: Vec<u8>,
}

impl Default for CmdReturn {
    /// Success, and nothing written.
    fn default() -> (r: Self)
        ensures
            r.ret@ == 0,
            r.stdout@.len() == 0,
            r.stderr@.len() == 0,
    {
        CmdReturn { ret: ReturnCode::ret(ReturnCode::SUCCESS), stdout: Vec::new(), stderr: Vec::new() }
    }
}

/// A program that is ready to be started.
#[derive(Debug)]
pub struct ProcessDescriptor {
    /// The path of the program.
    pub program: String,
    /// Its arguments.
    pub args: Vec<String>,
    /// Its whole environment: nothing else is inherited.
    pub env: Vec<(String, String)>,
    /// Its working directory, where the shell knows one.
    pub cwd: Option<String>,
}

/// The first place at or after `i` that holds `sep`, or the length of `s`.
pub open spec fn next_sep(s: Seq<char>, sep: char, i: int) -> int
    decreases s.len() - i,
{
    if i < 0 || i >= s.len() {
        s.len() as int
    } else if s[i] == sep {
        i
    } else {
        next_sep(s, sep, i + 1)
    }
}

/// The next separator lies between where the search starts and the end.
pub proof fn lemma_next_sep_bounds(s: Seq<char>, sep: char, i: int)
    requires
        0 <= i <= s.len(),
    ensures
        i <= next_sep(s, sep, i) <= s.len(),
    decreases s.len() - i,
{
    if i < s.len() {
        lemma_next_sep_bounds(s, sep, i + 1);
    }
}

/// The parts of `s` from place `i` on that `sep` parts from each other. A
/// text without `sep` is one part; two separators side by side part an empty
/// text.
pub open spec fn split_from(s: Seq<char>, sep: char, i: int) -> Seq<Seq<char>>
    decreases s.len() - i,
{
    if i < 0 || i > s.len() {
        Seq::empty()
    } else {
        let e = next_sep(s, sep, i);
        proof {
            lemma_next_sep_bounds(s, sep, i);
        }
        if e >= s.len() {
            seq![s.subrange(i, s.len() as int)]
        } else {
            seq![s.subrange(i, e)] + split_from(s, sep, e + 1)
        }
    }
}

/// The parts of a text that `sep` parts from each other.
pub open spec fn split(s: Seq<char>, sep: char) -> Seq<Seq<char>> {
    split_from(s, sep, 0)
}

/// A text has at least one part, and as many as it has separators and one.
pub proof fn lemma_split_nonempty(s: Seq<char>, sep: char)
    ensures
        split(s, sep).len() >= 1,
{
    lemma_next_sep_bounds(s, sep, 0);
}

/// Part a text at each `sep`.
pub fn split_text(s: &str, sep: char) -> (r: Vec<String>)
    ensures
        texts(r@) == split(s@, sep),
        r@.len() >= 1,
{
    let n = s.unicode_len();
    let mut out: Vec<String> = Vec::new();
    let mut start: usize = 0;
    let mut i: usize = 0;
    while i < n
        invariant
            start <= i <= n,
            n == s@.len(),
            next_sep(s@, sep, start as int) == next_sep(s@, sep, i as int),
            texts(out@) + split_from(s@, sep, start as int) == split(s@, sep),
        decreases n - i,
    {
        if s.get_char(i) == sep {
            let ghost before = texts(out@);
            out.push(String::from_str(s.substring_char(start, i)));
            start = i + 1;
        }
        i = i + 1;
    }
    let ghost before = texts(out@);
    out.push(String::from_str(s.substring_char(start, n)));
    out
}

/// What becomes of looking a command up.
pub enum Resolution {
    /// The path of the program to run.
    Found(Seq<char>),
    /// There is no such command.
    NotFound,
    /// The path is a directory, or a file without any execute bit.
    Denied,
}

/// Whether a command is given as a path: it begins with `/` or with `./`.
pub open spec fn is_path(cmd: Seq<char>) -> bool {
    has_prefix(cmd, seq!['/']) || has_prefix(cmd, seq!['.', '/'])
}

/// What becomes of looking a command up. A path must lead to a file that
/// is no directory and has an execute bit; a bare name must be among the
/// programs found on the search path.
pub open spec fn resolution(cmd: Seq<char>, cache: Entries<Seq<char>>, facts: FileFacts) -> Resolution {
    if is_path(cmd) {
        if !facts.exists {
            Resolution::NotFound
        } else if facts.kind == FileKind::Directory || !facts.executable() {
            Resolution::Denied
        } else {
            Resolution::Found(cmd)
        }
    } else {
        match lookup(cache, cmd) {
            Some(path) => Resolution::Found(path),
            None => Resolution::NotFound,
        }
    }
}

/// The programs that a scan of the search path gives: each regular file
/// under its name, a later one of the same name in place of an earlier one.
pub open spec fn indexed(found: Seq<FoundFile>) -> Entries<Seq<char>>
    decreases found.len(),
{
    if found.len() == 0 {
        Seq::empty()
    } else if found.last().regular {
        put(indexed(found.drop_last()), found.last().name@, found.last().path@)
    } else {
        indexed(found.drop_last())
    }
}

impl Store {
    /// The directories of the search path, in order: the parts of `PATH`
    /// between colons, and none where `PATH` is not set.
    pub open spec fn search_path(self) -> Seq<Seq<char>> {
        match self.get("PATH"@) {
            Some(v) => split(v.contents.text(), ':'),
            None => Seq::empty(),
        }
    }

    /// The working directory that `PWD` gives.
    pub open spec fn working_directory(self) -> Option<Seq<char>> {
        match self.get("PWD"@) {
            Some(v) => Some(v.contents.text()),
            None => None,
        }
    }
}

impl Commands {
    /// The directories that are to be scanned for programs.
    pub fn search_path(variables: &Variables) -> (r: Vec<String>)
        ensures
            texts(r@) == variables@.search_path(),
    {
        match variables.get_variable("PATH") {
            Some(v) => split_text(v.contents.to_string().as_str(), ':'),
            None => {
                let out: Vec<String> = Vec::new();
                out
            },
        }
    }

    /// The commands of a shell that has scanned its search path and found
    /// `found`, in that order: no functions yet, and each regular file under
    /// its name.
    pub fn generate(found: &Vec<FoundFile>) -> (r: Self)
        ensures
            r.cmds.entries() == indexed(found@),
            r.functions.entries().len() == 0,
    {
        let mut cmds: Table<String> = Table::new();
        let mut i: usize = 0;
        while i < found.len()
            invariant
                i <= found.len(),
                cmds.entries() == indexed(found@.subrange(0, i as int)),
            decreases found.len() - i,
        {
            let ghost next = found@.subrange(0, i + 1);
            assert(next.drop_last() =~= found@.subrange(0, i as int));
            if found[i].regular {
                cmds.insert(found[i].name.clone(), found[i].path.clone());
            }
            i = i + 1;
        }
        assert(found@.subrange(0, i as int) =~= found@);
        Commands { cmds, functions: Table::new() }
    }

    /// Look the programs up anew, and keep the functions.
    pub fn rehash(&mut self, found: &Vec<FoundFile>)
        ensures
            final(self).cmds.entries() == indexed(found@),
            final(self).functions == old(self).functions,
    {
        let fresh = Commands::generate(found);
        self.cmds = fresh.cmds;
    }

    /// Declare a function under its name; an earlier one of that name gives
    /// way.
    pub fn register_function(&mut self, func: Function)
        ensures
            final(self).functions.entries() == put(old(self).functions.entries(), func.name@, func),
            final(self).cmds == old(self).cmds,
    {
        self.functions.insert(func.name.clone(), func);
    }

    /// Forget a function; nothing happens where there is none of that name.
    pub fn deregister_function(&mut self, name: &str)
        ensures
            final(self).functions.entries() == without(old(self).functions.entries(), name@),
            final(self).cmds == old(self).cmds,
    {
        let _ = self.functions.remove(name);
    }

    /// The programs found on the search path, each as its name and its
    /// path, in the order in which the names were first found.
    pub fn list(&self) -> (r: Vec<(String, String)>)
        ensures
            text_pairs(r@) == self.cmds.entries(),
    {
        let mut out: Vec<(String, String)> = Vec::new();
        let n = self.cmds.len();
        let mut i: usize = 0;
        while i < n
            invariant
                i <= n,
                n == self.cmds.entries().len(),
                text_pairs(out@) == self.cmds.entries().subrange(0, i as int),
            decreases n - i,
        {
            let ghost before = text_pairs(out@);
            out.push((self.cmds.name_at(i).clone(), self.cmds.value_at(i).clone()));
            assert(text_pairs(out@) =~= before.push(self.cmds.entries()[i as int]));
            i = i + 1;
        }
        out
    }

    /// The path of a program found on the search path.
    pub fn get_path(&self, program: &str) -> (r: Option<String>)
        ensures
            match r {
                Some(p) => self.cmds.spec_get(program@) == Some(p@),
                None => self.cmds.spec_get(program@) is None,
            },
    {
        match self.cmds.get(program) {
            Some(p) => Some(p.clone()),
            None => None,
        }
    }

    /// Look a command up, given what is known of the file it names where it
    /// is given as a path.
    pub fn resolve(&self, command: &str, facts: &FileFacts) -> (r: Result<String, CommandError>)
        ensures
            match r {
                Ok(path) => resolution(command@, self.cmds.entries(), *facts) == Resolution::Found(
                    path@,
                ),
                Err(CommandError::NotFound { name }) => resolution(
                    command@,
                    self.cmds.entries(),
                    *facts,
                ) is NotFound && name@ == command@,
                Err(CommandError::PermissionDenied { path }) => resolution(
                    command@,
                    self.cmds.entries(),
                    *facts,
                ) is Denied && path@ == command@,
                Err(_) => false,
            },
    {
        if names_path(command) {
            if !facts.exists {
                Err(CommandError::NotFound { name: String::from_str(command) })
            } else if facts.kind == FileKind::Directory || facts.mode & 0o111 == 0 {
                Err(CommandError::PermissionDenied { path: String::from_str(command) })
            } else {
                Ok(String::from_str(command))
            }
        } else {
            match self.get_path(command) {
                Some(path) => Ok(path),
                None => Err(CommandError::NotFound { name: String::from_str(command) }),
            }
        }
    }
}

/// Whether a command is given as a path.
pub fn names_path(command: &str) -> (r: bool)
    ensures
        r == is_path(command@),
{
    proof {
        reveal_strlit("/");
        reveal_strlit("./");
        assert("/"@ =~= seq!['/']);
        assert("./"@ =~= seq!['.', '/']);
    }
    starts_with(command, "/") || starts_with(command, "./")
}

impl ExternalCommand {
    /// The command that words make: the first is the command, the others
    /// are its arguments. No words make no command.
    pub fn from_words(words: &Vec<String>) -> (r: Option<Self>)
        ensures
            words@.len() == 0 ==> r is None,
            words@.len() > 0 ==> (r matches Some(c) && c.cmd@ == words@[0]@ && c.attributes
                == HowRun::RealTime && match c.args {
                Some(args) => words@.len() > 1 && texts(args@) == texts(words@).subrange(
                    1,
                    words@.len() as int,
                ),
                None => words@.len() == 1,
            }),
    {
        if words.len() == 0 {
            return None;
        }
        let cmd = words[0].clone();
        if words.len() == 1 {
            Some(ExternalCommand { cmd, args: None, attributes: HowRun::RealTime })
        } else {
            let mut args: Vec<String> = Vec::new();
            let mut i: usize = 1;
            while i < words.len()
                invariant
                    1 <= i <= words.len(),
                    args@ == words@.subrange(1, i as int),
                decreases words.len() - i,
            {
                args.push(words[i].clone());
                i = i + 1;
            }
            Some(ExternalCommand { cmd, args: Some(args), attributes: HowRun::RealTime })
        }
    }

    /// The command that a line makes: its words are the parts between
    /// spaces.
    pub fn from_line(line: &str) -> (r: Self)
        ensures
            r.cmd@ == split(line@, ' ')[0],
            r.attributes == HowRun::RealTime,
            match r.args {
                Some(args) => split(line@, ' ').len() > 1 && texts(args@) == split(
                    line@,
                    ' ',
                ).subrange(1, split(line@, ' ').len() as int),
                None => split(line@, ' ').len() == 1,
            },
    {
        let words = split_text(line, ' ');
        match ExternalCommand::from_words(&words) {
            Some(c) => c,
            None => vstd::pervasive::unreached(),
        }
    }

    /// The arguments as a list, empty where there are none.
    pub open spec fn arguments(&self) -> Seq<Seq<char>> {
        match self.args {
            Some(args) => texts(args@),
            None => Seq::empty(),
        }
    }
}

/// Make a command ready to run, given what is known of the file it names
/// where it is given as a path. The program is the one that the command
/// resolves to, the arguments are the command's, the environment is made of
/// the exported variables and nothing else, and the working directory is
/// what `PWD` holds.
pub fn execute_external_command(
    cmd: ExternalCommand,
    variables: &Variables,
    commands: &Commands,
    facts: &FileFacts,
) -> (r: Result<ProcessDescriptor, CommandError>)
    ensures
        match r {
            Ok(d) => {
                &&& resolution(cmd.cmd@, commands.cmds.entries(), *facts) == Resolution::Found(
                    d.program@,
                )
                &&& texts(d.args@) == cmd.arguments()
                &&& text_pairs(d.env@) == variables@.environment()
                &&& match d.cwd {
                    Some(dir) => variables@.working_directory() == Some(dir@),
                    None => variables@.working_directory() is None,
                }
            },
            Err(CommandError::NotFound { name }) => resolution(
                cmd.cmd@,
                commands.cmds.entries(),
                *facts,
            ) is NotFound && name@ == cmd.cmd@,
            Err(CommandError::PermissionDenied { path }) => resolution(
                cmd.cmd@,
                commands.cmds.entries(),
                *facts,
            ) is Denied && path@ == cmd.cmd@,
            Err(_) => false,
        },
{
    let program = match commands.resolve(cmd.cmd.as_str(), facts) {
        Ok(path) => path,
        Err(e) => {
            return Err(e);
        },
    };
    let args = match cmd.args {
        Some(args) => args,
        None => {
            let none: Vec<String> = Vec::new();
            none
        },
    };
    let cwd = match variables.get_variable("PWD") {
        Some(v) => Some(v.contents.to_string()),
        None => None,
    };
    Ok(ProcessDescriptor { program, args, env: variables.get_environmentals(), cwd })
}

} // verus!
