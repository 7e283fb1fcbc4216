//! The evaluator: it walks the statements of a script one step at a time.
//!
//! The evaluator itself starts no program and looks at no file. A step
//! ends with a request: whoever drives the shell carries it out and hands
//! the reply to the next step.
use super::builtins::cd::{
    builtin_cd, cannot_cd, cd_env, cd_plan, cd_plan_env, cd_store, enter_directory, enterable,
    CdForm, CdPlan, CdPlanView,
};
use super::builtins::dbg::{builtin_dbg, dbg_outcome};
use super::builtins::echo::{builtin_echo, echo_env, echo_flags, echo_status};
use super::builtins::exit::{builtin_exit, exit_env, exit_status};
use super::builtins::hash::{builtin_hash, hash_env, hash_flags, hash_status, Hashed};
use super::builtins::options::{
    as_list, command_expands_to, expand_command, expands_to, getopts_parse, help_flags, Options,
};
use super::builtins::shift::{builtin_shift, shift_env, shift_store, shift_verdict};
use super::builtins::test::{
    execute, probe_descriptor, probe_paths, test_probe, test_status, TestFacts, TestProbe,
};
use super::builtins::unset::{builtin_unset, unset_flags, unset_outcome, Unset};
use super::commands::{
    execute_external_command, indexed, is_path, names_path, resolution, split, Commands,
    ExternalCommand, HowRun, ProcessDescriptor, Resolution,
};
use super::env::{assign, Env, EnvView, Std};
use super::errors::{denied_message, not_found_message, ElviError};
use super::expansion::values;
use super::status::{ReturnCode, Verdict};
use super::table::{has_name, lookup, put, Entries};
use super::text::{strip_final_newline, text_pairs, texts, without_final_newline};
use super::tree::{
    assigned_store, assigned_verdict, change_variable, share, Actions, Assigned, Block,
    Builtins, Conditional, Function, Loop, TestOptions,
};
use super::variables::{
    variable_views, ElviType, Store, Sweep, Value, Variable, Variables, VariableView,
};
use super::world::{FileFacts, FoundFile, ProcessFacts};
use std::rc::Rc;
use vstd::prelude::*;
use vstd::string::*;

verus! {

/// What a step asks of whoever drives the shell.
#[derive(Debug)]
pub enum Request {
    /// Nothing: take the next step.
    Continue,
    /// Nothing is left to run; this is the status of the last statement.
    Done(ReturnCode),
    /// Leave the process with this status.
    Exit(ReturnCode),
    /// Start the program and wait for it; reply with how it ended.
    Run(ProcessDescriptor),
    /// Start the program, wait for it and keep what it writes; reply with
    /// that.
    Capture(ProcessDescriptor),
    /// Look at the files and the descriptor; reply with the facts.
    Probe(TestProbe),
    /// Change the working directory of the process; there is no reply.
    ChangeDirectory(String),
    /// List the directories, in order; reply with what was found.
    Scan(Vec<String>),
}

/// What whoever drives the shell hands to a step.
#[derive(Debug)]
pub enum Reply {
    /// Nothing was asked for.
    Nothing,
    /// The program ran and ended with this exit code.
    Exited(i32),
    /// The program could not be started, for this reason.
    Failed(String),
    /// The program ran; this is what it wrote.
    Captured { stdout: String, stderr: String },
    /// What is known of the files and the descriptor.
    Facts(TestFacts),
    /// What was found in the directories.
    Found(Vec<FoundFile>),
}

/// A piece of work that has begun and is not finished.
#[derive(Debug)]
pub enum Frame {
    /// A block of statements, with the place of the next one.
    Block { code: Block, next: usize },
    /// An `if`: its condition is still to run, or has run.
    Branch { conditional: Rc<Conditional>, started: bool },
    /// A `for` loop: its variable, its values, the place of the next value,
    /// and its body.
    Loop { variable: String, values: Vec<ElviType>, next: usize, body: Block },
    /// A function that was called, with the positional parameters of its
    /// caller.
    Call { saved: Vec<Variable> },
    /// A subshell, with the store of the shell around it.
    Subshell { outer: Variables },
}

/// What the evaluator waits for.
#[derive(Debug)]
pub enum Waiting {
    /// Nothing.
    Nothing,
    /// A program that runs.
    Program,
    /// The output of a program, which a variable is to hold.
    Output { name: String, var: Variable },
    /// What is known of the file that a command names, before the command
    /// is started; the variable that is to hold its output, if any.
    Resolve { command: ExternalCommand, capture: Option<(String, Variable)> },
    /// What is known of the directory that `cd` wants to enter.
    Directory { path: String, form: CdForm },
    /// What is known of the files and the descriptor of a `test`.
    Condition { invert: bool, to_do: TestOptions },
    /// The programs found in the directories of the search path.
    Programs,
}

/// What is left to run.
#[derive(Debug)]
pub struct Task {
    /// The work that has begun, the innermost last.
    pub frames: Vec<Frame>,
    /// What the evaluator waits for.
    pub waiting: Waiting,
}

/// The whole state of a shell between two steps.
pub struct State {
    /// The work that has begun.
    pub frames: Seq<Frame>,
    /// What the evaluator waits for.
    pub waiting: Waiting,
    /// The variables.
    pub store: Store,
    /// The programs.
    pub cmds: Entries<Seq<char>>,
    /// The functions.
    pub functions: Entries<Function>,
    /// The rest.
    pub env: EnvView,
}

/// The state that the parts of a shell make.
pub open spec fn state_of(task: Task, variables: Variables, commands: Commands, env: Env) -> State {
    State {
        frames: task.frames@,
        waiting: task.waiting,
        store: variables@,
        cmds: commands.cmds.entries(),
        functions: commands.functions.entries(),
        env: env@,
    }
}

impl Task {
    /// The task of running one statement.
    pub fn new(action: Actions) -> (r: Self)
        ensures
            r.waiting is Nothing,
            r.frames@.len() == 1,
            r.frames@[0] matches Frame::Block { code, next } && code@ == seq![action] && next == 0,
            r.wf(),
    {
        let mut code: Vec<Actions> = Vec::new();
        code.push(action);
        let mut frames: Vec<Frame> = Vec::new();
        frames.push(Frame::Block { code: Rc::new(code), next: 0 });
        Task { frames, waiting: Waiting::Nothing }
    }

    /// Whether every store that is kept for a subshell is well formed.
    pub open spec fn wf(self) -> bool {
        forall|i: int|
            0 <= i < self.frames@.len() ==> (#[trigger] self.frames@[i] matches Frame::Subshell {
                outer,
            } ==> outer@.wf())
    }

    /// Whether every store that is kept for a subshell is well formed. A
    /// task that was made by `new` and changed by `eval` is.
    pub fn well_formed(&self) -> (r: bool)
        ensures
            r == self.wf(),
    {
        let mut i: usize = 0;
        while i < self.frames.len()
            invariant
                i <= self.frames.len(),
                forall|j: int|
                    0 <= j < i ==> (#[trigger] self.frames@[j] matches Frame::Subshell { outer }
                        ==> outer@.wf()),
            decreases self.frames.len() - i,
        {
            let fine = match &self.frames[i] {
                Frame::Subshell { outer } => outer.well_formed(),
                _ => true,
            };
            if !fine {
                return false;
            }
            i = i + 1;
        }
        true
    }

    /// Whether nothing is left to run.
    pub fn is_done(&self) -> (r: bool)
        ensures
            r == (self.frames@.len() == 0 && self.waiting is Nothing),
    {
        self.frames.len() == 0 && match self.waiting {
            Waiting::Nothing => true,
            _ => false,
        }
    }
}

/// The facts that stand for a reply that brings none: nothing exists.
pub open spec fn no_facts() -> TestFacts {
    TestFacts {
        first: FileFacts::blank(),
        second: FileFacts::blank(),
        tty: false,
        process: ProcessFacts { euid: 0, egid: 0 },
    }
}

/// The facts that a reply brings.
pub open spec fn facts_of(reply: Reply) -> TestFacts {
    match reply {
        Reply::Facts(facts) => facts,
        _ => no_facts(),
    }
}

/// The facts that a reply brings.
fn reply_facts(reply: &Reply) -> (r: TestFacts)
    ensures
        r == facts_of(*reply),
{
    match reply {
        Reply::Facts(facts) => *facts,
        _ => TestFacts {
            first: FileFacts::missing(),
            second: FileFacts::missing(),
            tty: false,
            process: ProcessFacts { euid: 0, egid: 0 },
        },
    }
}

/// The status that a program leaves: its exit code modulo 256, and failure
/// where the program could not be started.
pub open spec fn program_status(reply: Reply) -> u16 {
    match reply {
        Reply::Exited(code) => ((code as int) % 256) as u16,
        _ => 1,
    }
}

/// The state after a program has run: the last status is the program's,
/// and the reason is written where the program could not be started.
pub open spec fn after_program(a: State, reply: Reply) -> State {
    State {
        waiting: Waiting::Nothing,
        store: a.store.with_status(program_status(reply)),
        env: match reply {
            Reply::Failed(reason) => a.env.complain(reason@),
            _ => a.env,
        },
        ..a
    }
}

/// Take in how a program ended.
pub fn finish_program(reply: &Reply, variables: &mut Variables, env: &mut Env)
    requires
        old(variables)@.wf(),
    ensures
        final(variables)@.wf(),
        final(variables)@ == old(variables)@.with_status(program_status(*reply)),
        final(env)@ == (match *reply {
            Reply::Failed(reason) => old(env)@.complain(reason@),
            _ => old(env)@,
        }),
{
    match reply {
        Reply::Exited(code) => {
            variables.set_ret(ReturnCode::from_exit_code(*code));
        },
        Reply::Failed(reason) => {
            env.complain(reason.as_str());
            variables.set_ret(ReturnCode::ret(ReturnCode::FAILURE));
        },
        _ => {
            variables.set_ret(ReturnCode::ret(ReturnCode::FAILURE));
        },
    }
}

/// The store after the output of a program came in for a variable: the
/// variable holds the output without the newline that ends it; where the
/// program could not be started, the last status is failure.
pub open spec fn output_store(store: Store, name: Seq<char>, var: VariableView, reply: Reply) -> Store {
    match reply {
        Reply::Captured { stdout, stderr } => store.set(
            name,
            var.holding(Value::PlainString(without_final_newline(stdout@))),
        ),
        _ => store.with_status(1),
    }
}

/// What is written after the output of a program came in for a variable:
/// what the program wrote to standard error, and a complaint where the
/// variable may not be written; or the reason why the program could not be
/// started.
pub open spec fn output_env(env: EnvView, store: Store, name: Seq<char>, reply: Reply) -> EnvView {
    match reply {
        Reply::Captured { stdout, stderr } => (if stderr@.len() > 0 {
            env.print(Std::Error, HowRun::RealTime, stderr@)
        } else {
            env
        }).noted(store, name),
        Reply::Failed(reason) => env.complain(reason@),
        _ => env,
    }
}

/// Take in the output of a program for a variable.
pub fn finish_capture(
    reply: &Reply,
    name: &str,
    var: Variable,
    variables: &mut Variables,
    env: &mut Env,
)
    requires
        old(variables)@.wf(),
    ensures
        final(variables)@.wf(),
        final(variables)@ == output_store(old(variables)@, name@, var@, *reply),
        final(env)@ == output_env(old(env)@, old(variables)@, name@, *reply),
{
    match reply {
        Reply::Captured { stdout, stderr } => {
            if stderr.as_str().unicode_len() > 0 {
                env.print(&Std::Error, &HowRun::RealTime, stderr.as_str());
            }
            let target = Variable {
                contents: ElviType::String(strip_final_newline(stdout.as_str())),
                modification_status: var.modification_status,
                shell_lvl: var.shell_lvl,
                line: var.line,
            };
            let _ = assign(variables, env, name, target);
        },
        Reply::Failed(reason) => {
            env.complain(reason.as_str());
            variables.set_ret(ReturnCode::ret(ReturnCode::FAILURE));
        },
        _ => {
            variables.set_ret(ReturnCode::ret(ReturnCode::FAILURE));
        },
    }
}

/// Whether a program is made ready as a command asks: the path, the
/// arguments, the exported variables and the working directory.
pub open spec fn describes(
    d: ProcessDescriptor,
    path: Seq<char>,
    arguments: Seq<Seq<char>>,
    store: Store,
) -> bool {
    &&& d.program@ == path
    &&& texts(d.args@) == arguments
    &&& text_pairs(d.env@) == store.environment()
    &&& match d.cwd {
        Some(dir) => store.working_directory() == Some(dir@),
        None => store.working_directory() is None,
    }
}

/// The variable that is to hold the output of a command, as plain values.
pub open spec fn capture_view(capture: Option<(String, Variable)>) -> Option<(Seq<char>, VariableView)> {
    match capture {
        Some((name, var)) => Some((name@, var@)),
        None => None,
    }
}

/// Whether `b` and `r` are what starting a command leads to from `a`. A
/// command that resolves is to be run, or run and captured, and nothing
/// else changes. One that does not is reported, its status is the last
/// status, and the variable that was to hold its output holds nothing.
pub open spec fn launched(
    a: State,
    cmd: Seq<char>,
    arguments: Seq<Seq<char>>,
    capture: Option<(Seq<char>, VariableView)>,
    facts: FileFacts,
    b: State,
    r: Request,
) -> bool {
    &&& b.frames == a.frames
    &&& b.cmds == a.cmds
    &&& b.functions == a.functions
    &&& match resolution(cmd, a.cmds, facts) {
        Resolution::Found(path) => {
            &&& b.store == a.store
            &&& b.env == a.env
            &&& match capture {
                Some((name, var)) => {
                    &&& r matches Request::Capture(d)
                    &&& describes(d, path, arguments, a.store)
                    &&& b.waiting matches Waiting::Output { name: kept_name, var: kept_var }
                    &&& kept_name@ == name
                    &&& kept_var@ == var
                },
                None => {
                    &&& r matches Request::Run(d)
                    &&& describes(d, path, arguments, a.store)
                    &&& b.waiting is Program
                },
            }
        },
        other => {
            let base = match capture {
                Some((name, var)) => a.store.set(
                    name,
                    var.holding(Value::PlainString(Seq::empty())),
                ),
                None => a.store,
            };
            let noted = match capture {
                Some((name, var)) => a.env.noted(a.store, name),
                None => a.env,
            };
            &&& r is Continue
            &&& b.waiting is Nothing
            &&& b.store == base.with_status(
                if other is NotFound {
                    127
                } else {
                    126
                },
            )
            &&& b.env == noted.complain(
                if other is NotFound {
                    not_found_message(cmd)
                } else {
                    denied_message(cmd)
                },
            )
        },
    }
}

/// Start a command, given what is known of the file it names where it is
/// given as a path.
pub fn launch(
    command: ExternalCommand,
    capture: Option<(String, Variable)>,
    facts: &FileFacts,
    task: &mut Task,
    variables: &mut Variables,
    commands: &Commands,
    env: &mut Env,
) -> (r: Request)
    requires
        old(variables)@.wf(),
    ensures
        final(variables)@.wf(),
        launched(
            state_of(*old(task), *old(variables), *commands, *old(env)),
            command.cmd@,
            command.arguments(),
            capture_view(capture),
            *facts,
            state_of(*final(task), *final(variables), *commands, *final(env)),
            r,
        ),
{
    match execute_external_command(command, variables, commands, facts) {
        Ok(d) => {
            match capture {
                Some((name, var)) => {
                    task.waiting = Waiting::Output { name, var };
                    Request::Capture(d)
                },
                None => {
                    task.waiting = Waiting::Program;
                    Request::Run(d)
                },
            }
        },
        Err(e) => {
            match capture {
                Some((name, var)) => {
                    let empty = Variable {
                        contents: ElviType::String(String::new()),
                        modification_status: var.modification_status,
                        shell_lvl: var.shell_lvl,
                        line: var.line,
                    };
                    let _ = assign(variables, env, name.as_str(), empty);
                },
                None => {},
            }
            env.complain(e.to_string().as_str());
            variables.set_ret(e.ret());
            task.waiting = Waiting::Nothing;
            Request::Continue
        },
    }
}

/// The arguments of a builtin as a list, if there are any.
pub open spec fn opt_list(args: Option<Vec<ElviType>>) -> Option<Seq<ElviType>> {
    match args {
        Some(list) => Some(list@),
        None => None,
    }
}

/// The variable `SHLVL` for a nesting level.
pub open spec fn level_variable(level: u32) -> VariableView {
    VariableView::plain(Value::Number(level as usize))
}

/// Whether `b` is what `dbg` leads to from `a`: what it writes is written,
/// and its status is the last status.
pub open spec fn ran_dbg(args: Option<Seq<ElviType>>, a: State, b: State) -> bool {
    exists|words: Seq<Seq<char>>|
        {
            &&& expands_to(args, a.store, words)
            &&& b == (State {
                env: dbg_outcome(#[trigger] getopts_parse(help_flags(), words), a.store, a.env).0,
                store: a.store.with_status(
                    dbg_outcome(getopts_parse(help_flags(), words), a.store, a.env).1,
                ),
                ..a
            })
        }
}

/// Whether `b` is what `echo` leads to from `a`.
pub open spec fn ran_echo(args: Option<Seq<ElviType>>, a: State, b: State) -> bool {
    exists|words: Seq<Seq<char>>|
        {
            &&& expands_to(args, a.store, words)
            &&& b == (State {
                env: echo_env(#[trigger] getopts_parse(echo_flags(), words), a.env),
                store: a.store.with_status(echo_status(getopts_parse(echo_flags(), words))),
                ..a
            })
        }
}

/// Whether `b` is what `unset` leads to from `a`.
pub open spec fn ran_unset(args: Option<Seq<ElviType>>, a: State, b: State) -> bool {
    exists|words: Seq<Seq<char>>|
        {
            &&& expands_to(args, a.store, words)
            &&& b == (State {
                env: unset_outcome(
                    #[trigger] getopts_parse(unset_flags(), words),
                    a.store,
                    a.functions,
                    a.env,
                ).env,
                functions: unset_outcome(
                    getopts_parse(unset_flags(), words),
                    a.store,
                    a.functions,
                    a.env,
                ).functions,
                store: unset_outcome(
                    getopts_parse(unset_flags(), words),
                    a.store,
                    a.functions,
                    a.env,
                ).store.with_status(
                    unset_outcome(
                        getopts_parse(unset_flags(), words),
                        a.store,
                        a.functions,
                        a.env,
                    ).status,
                ),
                ..a
            })
        }
}

/// Whether `b` and `r` are what `exit` leads to from `a`, given how its
/// options were read. In a nested shell the level goes down by one and the
/// script goes on with the status; in the shell itself the process is to
/// leave with it.
pub open spec fn exited(options: Options, a: State, b: State, r: Request) -> bool {
    if a.env.level > 1 {
        &&& r is Continue
        &&& b == (State {
            env: EnvView { level: EnvView::moved(a.env.level, -1i8), ..exit_env(options, a.env) },
            store: a.store.set(
                "SHLVL"@,
                level_variable(EnvView::moved(a.env.level, -1i8)),
            ).with_status(exit_status(options)),
            ..a
        })
    } else {
        &&& r matches Request::Exit(code)
        &&& code@ == exit_status(options)
        &&& b == (State { env: exit_env(options, a.env), ..a })
    }
}

/// Whether `b` and `r` are what `exit` leads to from `a`.
pub open spec fn ran_exit(args: Option<Seq<ElviType>>, a: State, b: State, r: Request) -> bool {
    exists|words: Seq<Seq<char>>|
        expands_to(args, a.store, words) && exited(
            #[trigger] getopts_parse(help_flags(), words),
            a,
            b,
            r,
        )
}

/// Whether `b` and `r` are what `shift` leads to from `a`, given how its
/// options were read.
pub open spec fn shifted(options: Options, a: State, b: State, r: Request) -> bool {
    match shift_verdict(options, a.store) {
        Verdict::Continue(code) => {
            &&& r is Continue
            &&& b == (State {
                env: shift_env(options, a.store, a.env),
                store: shift_store(options, a.store).with_status(code@),
                ..a
            })
        },
        Verdict::Terminate(code) => {
            &&& r matches Request::Exit(with)
            &&& with == code
            &&& b == (State {
                env: shift_env(options, a.store, a.env),
                store: shift_store(options, a.store),
                ..a
            })
        },
    }
}

/// Whether `b` and `r` are what `shift` leads to from `a`.
pub open spec fn ran_shift(args: Option<Seq<ElviType>>, a: State, b: State, r: Request) -> bool {
    exists|words: Seq<Seq<char>>|
        expands_to(args, a.store, words) && shifted(
            #[trigger] getopts_parse(help_flags(), words),
            a,
            b,
            r,
        )
}

/// Whether `b` and `r` are what `hash` leads to from `a`, given how its
/// options were read: either it is done, or the directories of the search
/// path are to be listed.
pub open spec fn hashed(options: Options, a: State, b: State, r: Request) -> bool {
    match hash_status(options) {
        Some(code) => {
            &&& r is Continue
            &&& b == (State {
                env: hash_env(options, a.cmds, a.env),
                store: a.store.with_status(code),
                ..a
            })
        },
        None => {
            &&& r matches Request::Scan(dirs)
            &&& texts(dirs@) == a.store.search_path()
            &&& b == (State {
                env: hash_env(options, a.cmds, a.env),
                waiting: Waiting::Programs,
                ..a
            })
        },
    }
}

/// Whether `b` and `r` are what `hash` leads to from `a`.
pub open spec fn ran_hash(args: Option<Seq<ElviType>>, a: State, b: State, r: Request) -> bool {
    exists|words: Seq<Seq<char>>|
        expands_to(args, a.store, words) && hashed(
            #[trigger] getopts_parse(hash_flags(), words),
            a,
            b,
            r,
        )
}

/// Whether a request asks for what is known of one path.
pub open spec fn asks_for(r: Request, path: Seq<char>) -> bool {
    r matches Request::Probe(probe) && texts(probe.paths@) == seq![path] && probe.descriptor
        is None
}

/// Whether `b` and `r` are what `cd` leads to from `a`, given how its
/// options were read: either it is done, or it asks what is known of the
/// directory it wants to enter.
pub open spec fn changed_directory(options: Options, a: State, b: State, r: Request) -> bool {
    match cd_plan(options, a.store) {
        CdPlanView::Done(code) => {
            &&& r is Continue
            &&& b == (State {
                env: cd_plan_env(options, a.env),
                store: a.store.with_status(code),
                ..a
            })
        },
        CdPlanView::Enter { path, form } => {
            &&& asks_for(r, path)
            &&& b.waiting matches Waiting::Directory { path: kept_path, form: kept_form }
            &&& kept_path@ == path
            &&& kept_form == form
            &&& b == (State { env: cd_plan_env(options, a.env), waiting: b.waiting, ..a })
        },
    }
}

/// Whether `b` and `r` are what `cd` leads to from `a`.
pub open spec fn ran_cd(args: Option<Seq<ElviType>>, a: State, b: State, r: Request) -> bool {
    exists|words: Seq<Seq<char>>|
        expands_to(args, a.store, words) && changed_directory(
            #[trigger] getopts_parse(help_flags(), words),
            a,
            b,
            r,
        )
}

/// Whether `test` has to ask before it decides.
pub open spec fn test_asks(to_do: TestOptions, store: Store) -> bool {
    probe_paths(to_do, store).len() > 0 || probe_descriptor(to_do, store) is Some
}

/// Whether `b` and `r` are what `test` leads to from `a`: a condition on
/// texts or numbers is decided at once, any other asks first.
pub open spec fn ran_test(invert: bool, to_do: TestOptions, a: State, b: State, r: Request) -> bool {
    if test_asks(to_do, a.store) {
        &&& r matches Request::Probe(probe)
        &&& texts(probe.paths@) == probe_paths(to_do, a.store)
        &&& match probe.descriptor {
            Some(fd) => probe_descriptor(to_do, a.store) == Some(fd as nat),
            None => probe_descriptor(to_do, a.store) is None,
        }
        &&& b == (State { waiting: Waiting::Condition { invert, to_do }, ..a })
    } else {
        &&& r is Continue
        &&& b == (State {
            store: a.store.with_status(test_status(invert, to_do, a.store, no_facts())),
            ..a
        })
    }
}

/// Whether `b` and `r` are what a builtin leads to from `a`.
pub open spec fn ran_builtin(built: Builtins, a: State, b: State, r: Request) -> bool {
    match built {
        Builtins::Dbg(args) => r is Continue && ran_dbg(opt_list(args), a, b),
        Builtins::Unset(args) => r is Continue && ran_unset(opt_list(args), a, b),
        Builtins::Exit(args) => ran_exit(opt_list(args), a, b, r),
        Builtins::Hash(args) => ran_hash(opt_list(args), a, b, r),
        Builtins::Cd(args) => ran_cd(opt_list(args), a, b, r),
        Builtins::Test(invert, to_do) => ran_test(invert, to_do, a, b, r),
        Builtins::Echo(args) => r is Continue && ran_echo(opt_list(args), a, b),
        Builtins::Shift(args) => ran_shift(opt_list(args), a, b, r),
    }
}

/// Run a builtin.
pub fn run_builtin(
    built: &Builtins,
    task: &mut Task,
    variables: &mut Variables,
    commands: &mut Commands,
    env: &mut Env,
) -> (r: Request)
    requires
        old(variables)@.wf(),
    ensures
        final(variables)@.wf(),
        ran_builtin(
            *built,
            state_of(*old(task), *old(variables), *old(commands), *old(env)),
            state_of(*final(task), *final(variables), *final(commands), *final(env)),
            r,
        ),
{
    let ghost a = state_of(*task, *variables, *commands, *env);
    match built {
        Builtins::Dbg(args) => {
            let ret = builtin_dbg(as_list(args), variables, env);
            variables.set_ret(ret);
            Request::Continue
        },
        Builtins::Echo(args) => {
            let ret = builtin_echo(as_list(args), variables, env);
            variables.set_ret(ret);
            Request::Continue
        },
        Builtins::Unset(args) => {
            let ret = builtin_unset(as_list(args), variables, commands, env);
            variables.set_ret(ret);
            Request::Continue
        },
        Builtins::Exit(args) => {
            let ret = builtin_exit(as_list(args), variables, env);
            let r = if env.subshells_in > 1 {
                let _ = env.update_shlvl(-1, variables);
                variables.set_ret(ret);
                Request::Continue
            } else {
                Request::Exit(ret)
            };
            r
        },
        Builtins::Shift(args) => {
            let verdict = builtin_shift(as_list(args), variables, env);
            let r = match verdict {
                Verdict::Continue(code) => {
                    variables.set_ret(code);
                    Request::Continue
                },
                Verdict::Terminate(code) => Request::Exit(code),
            };
            r
        },
        Builtins::Hash(args) => {
            let r = match builtin_hash(as_list(args), commands, variables, env) {
                Hashed::Done(code) => {
                    variables.set_ret(code);
                    Request::Continue
                },
                Hashed::Rescan(dirs) => {
                    task.waiting = Waiting::Programs;
                    Request::Scan(dirs)
                },
            };
            r
        },
        Builtins::Cd(args) => {
            let r = match builtin_cd(as_list(args), variables, env) {
                CdPlan::Done(code) => {
                    variables.set_ret(code);
                    Request::Continue
                },
                CdPlan::Enter { path, form } => {
                    let mut paths: Vec<String> = Vec::new();
                    paths.push(path.clone());
                    assert(texts(paths@) =~= seq![path@]);
                    task.waiting = Waiting::Directory { path, form };
                    Request::Probe(TestProbe { paths, descriptor: None })
                },
            };
            r
        },
        Builtins::Test(invert, to_do) => {
            let probe = test_probe(to_do, variables);
            if probe.paths.len() > 0 || probe.descriptor.is_some() {
                task.waiting = Waiting::Condition { invert: *invert, to_do: to_do.clone() };
                Request::Probe(probe)
            } else {
                let blank = reply_facts(&Reply::Nothing);
                let ret = execute(*invert, to_do, variables, &blank);
                variables.set_ret(ret);
                Request::Continue
            }
        },
    }
}

/// Whether a frame is that of a function that was called from a shell
/// with the given store: it keeps the positional parameters of the caller.
pub open spec fn is_call_frame(frame: Frame, store: Store) -> bool {
    frame matches Frame::Call { saved } && variable_views(saved@) == store.params
}

/// Whether `b` is what calling a function leads to from `a`, where `w` are
/// the words of the call. The arguments take the place of the positional
/// parameters, the shell notes that a function runs, and the body of the
/// function is the next thing to run.
pub open spec fn called(f: Function, w: Seq<Seq<char>>, a: State, b: State) -> bool {
    &&& b.store == a.store.called(w[0], w.subrange(1, w.len() as int))
    &&& b.env == (EnvView { in_function: true, ..a.env })
    &&& b.waiting == a.waiting
    &&& b.cmds == a.cmds
    &&& b.functions == a.functions
    &&& b.frames.len() >= a.frames.len() + 1
    &&& b.frames.subrange(0, a.frames.len() as int) == a.frames
    &&& is_call_frame(b.frames[a.frames.len() as int], a.store)
    &&& match f.contents {
        Some(body) => b.frames.len() == a.frames.len() + 2 && b.frames[a.frames.len() as int + 1] == (
        Frame::Block { code: body, next: 0 }),
        None => b.frames.len() == a.frames.len() + 1,
    }
}

/// Whether `b` and `r` are what a command leads to from `a`, where `w` are
/// its words after expansion. No words do nothing. A first word that names
/// a function calls it. A first word that is a path asks what is known of
/// the file. Any other first word is looked up among the programs and
/// started.
pub open spec fn ran_words(w: Seq<Seq<char>>, a: State, b: State, r: Request) -> bool {
    if w.len() == 0 {
        r is Continue && b == a
    } else if has_name(a.functions, w[0]) {
        r is Continue && called(lookup(a.functions, w[0]).unwrap(), w, a, b)
    } else if is_path(w[0]) {
        &&& asks_for(r, w[0])
        &&& b.waiting matches Waiting::Resolve { command, capture }
        &&& command.cmd@ == w[0]
        &&& command.arguments() == w.subrange(1, w.len() as int)
        &&& capture is None
        &&& b == (State { waiting: b.waiting, ..a })
    } else {
        launched(a, w[0], w.subrange(1, w.len() as int), None, no_facts().first, b, r)
    }
}

/// Whether `b` and `r` are what a command leads to from `a`.
pub open spec fn ran_command(words: Seq<ElviType>, a: State, b: State, r: Request) -> bool {
    exists|w: Seq<Seq<char>>|
        command_expands_to(words, a.store, w) && #[trigger] ran_words(w, a, b, r)
}

/// Ask what is known of one path.
fn ask_for(path: &String) -> (r: Request)
    ensures
        asks_for(r, path@),
{
    let mut paths: Vec<String> = Vec::new();
    paths.push(path.clone());
    assert(texts(paths@) =~= seq![path@]);
    Request::Probe(TestProbe { paths, descriptor: None })
}

/// Run a command: a function of the script, or a program.
pub fn run_command(
    words: &Vec<ElviType>,
    task: &mut Task,
    variables: &mut Variables,
    commands: &Commands,
    env: &mut Env,
) -> (r: Request)
    requires
        old(variables)@.wf(),
        old(task).wf(),
    ensures
        final(variables)@.wf(),
        final(task).wf(),
        ran_command(
            words@,
            state_of(*old(task), *old(variables), *commands, *old(env)),
            state_of(*final(task), *final(variables), *commands, *final(env)),
            r,
        ),
{
    let ghost a = state_of(*task, *variables, *commands, *env);
    let expanded = expand_command(words, variables);
    let ghost w = texts(expanded@);
    if expanded.len() == 0 {
        assert(ran_words(w, a, a, Request::Continue));
        return Request::Continue;
    }
    let r = match commands.functions.get(expanded[0].as_str()) {
        Some(function) => {
            let command = ExternalCommand::from_words(&expanded);
            let arguments = match command {
                Some(ExternalCommand { args: Some(args), .. }) => args,
                _ => Vec::new(),
            };
            let saved = variables.call_arguments(expanded[0].as_str(), &arguments);
            env.set_function(true);
            task.frames.push(Frame::Call { saved });
            match &function.contents {
                Some(body) => {
                    task.frames.push(Frame::Block { code: share(body), next: 0 });
                },
                None => {},
            }
            assert(task.frames@.subrange(0, a.frames.len() as int) =~= a.frames);
            Request::Continue
        },
        None => {
            match ExternalCommand::from_words(&expanded) {
                Some(command) => {
                    assert(command.arguments() =~= w.subrange(1, w.len() as int));
                    if names_path(command.cmd.as_str()) {
                        let request = ask_for(&command.cmd);
                        task.waiting = Waiting::Resolve { command, capture: None };
                        request
                    } else {
                        let blank = reply_facts(&Reply::Nothing);
                        launch(command, None, &blank.first, task, variables, commands, env)
                    }
                },
                None => vstd::pervasive::unreached(),
            }
        },
    };
    assert(ran_words(w, a, state_of(*task, *variables, *commands, *env), r));
    r
}

/// Whether `b` and `r` are what an assignment leads to from `a`. A command
/// substitution starts its command, or asks first what is known of the
/// file where the command is a path; the variable is set when the output
/// comes in. Any other value is stored at once, and a protected name ends
/// the shell.
pub open spec fn ran_assignment(
    name: Seq<char>,
    var: VariableView,
    a: State,
    b: State,
    r: Request,
) -> bool {
    match var.contents {
        Value::CommandSubstitution(line) => {
            let cmd = split(line, ' ')[0];
            let arguments = split(line, ' ').subrange(1, split(line, ' ').len() as int);
            let capture = Some((name, var.stamped(a.env.level)));
            if is_path(cmd) {
                &&& asks_for(r, cmd)
                &&& b.waiting matches Waiting::Resolve { command, capture: kept }
                &&& command.cmd@ == cmd
                &&& command.arguments() == arguments
                &&& capture_view(kept) == capture
                &&& b == (State { waiting: b.waiting, ..a })
            } else {
                launched(a, cmd, arguments, capture, no_facts().first, b, r)
            }
        },
        _ => {
            &&& b == (State {
                store: assigned_store(a.store, a.env.level, name, var),
                env: a.env.noted(a.store, name),
                ..a
            })
            &&& match assigned_verdict(a.store, name) {
                Verdict::Continue(_) => r is Continue,
                Verdict::Terminate(code) => r matches Request::Exit(with) && with == code,
            }
        },
    }
}

/// Run an assignment.
pub fn run_assignment(
    name: &String,
    var: &Variable,
    task: &mut Task,
    variables: &mut Variables,
    commands: &Commands,
    env: &mut Env,
) -> (r: Request)
    requires
        old(variables)@.wf(),
    ensures
        final(variables)@.wf(),
        ran_assignment(
            name@,
            var@,
            state_of(*old(task), *old(variables), *commands, *old(env)),
            state_of(*final(task), *final(variables), *commands, *final(env)),
            r,
        ),
{
    let level = env.subshells_in;
    match change_variable(variables, env, level, name.as_str(), var) {
        Assigned::Done(Verdict::Continue(_)) => Request::Continue,
        Assigned::Done(Verdict::Terminate(code)) => Request::Exit(code),
        Assigned::Command { command, var: kept } => {
            if names_path(command.cmd.as_str()) {
                let request = ask_for(&command.cmd);
                task.waiting = Waiting::Resolve { command, capture: Some((name.clone(), kept)) };
                request
            } else {
                let blank = reply_facts(&Reply::Nothing);
                launch(
                    command,
                    Some((name.clone(), kept)),
                    &blank.first,
                    task,
                    variables,
                    commands,
                    env,
                )
            }
        },
    }
}

/// The values that one word of a loop gives: tilde, then parameters, then
/// pathnames, given the home directory of the user that the word names and
/// the paths that match it.
pub open spec fn loop_element(
    v: Value,
    store: Store,
    home: Option<Seq<char>>,
    found: Seq<Seq<char>>,
) -> Seq<Value> {
    v.tilde_expanded(store, home).with_parameters(store).globbed(found)
}

/// The values that the first `n` words of a loop give, one after another.
pub open spec fn loop_values_upto(
    elements: Seq<ElviType>,
    n: int,
    store: Store,
    homes: Seq<Option<Seq<char>>>,
    found: Seq<Seq<Seq<char>>>,
) -> Seq<Value>
    decreases n,
{
    if n <= 0 {
        Seq::empty()
    } else {
        loop_values_upto(elements, n - 1, store, homes, found) + loop_element(
            elements[n - 1]@,
            store,
            homes[n - 1],
            found[n - 1],
        )
    }
}

/// Whether `vals` are values that the words of a loop can give.
pub open spec fn are_loop_values(elements: Seq<ElviType>, store: Store, vals: Seq<Value>) -> bool {
    exists|homes: Seq<Option<Seq<char>>>, found: Seq<Seq<Seq<char>>>|
        homes.len() == elements.len() && found.len() == elements.len() && vals
            == #[trigger] loop_values_upto(elements, elements.len() as int, store, homes, found)
}

/// The values of the first words do not depend on what is said of the
/// later ones.
proof fn lemma_loop_values_prefix(
    elements: Seq<ElviType>,
    n: int,
    store: Store,
    homes: Seq<Option<Seq<char>>>,
    found: Seq<Seq<Seq<char>>>,
    more_homes: Seq<Option<Seq<char>>>,
    more_found: Seq<Seq<Seq<char>>>,
)
    requires
        0 <= n <= homes.len() <= more_homes.len(),
        n <= found.len() <= more_found.len(),
        forall|k: int| 0 <= k < n ==> homes[k] == more_homes[k] && found[k] == more_found[k],
    ensures
        loop_values_upto(elements, n, store, homes, found) == loop_values_upto(
            elements,
            n,
            store,
            more_homes,
            more_found,
        ),
    decreases n,
{
    if n > 0 {
        lemma_loop_values_prefix(elements, n - 1, store, homes, found, more_homes, more_found);
    }
}

/// Expand the words of a loop into its values.
pub fn expand_loop_values(elements: &Vec<ElviType>, variables: &Variables) -> (r: Vec<ElviType>)
    ensures
        are_loop_values(elements@, variables@, values(r@)),
{
    let mut out: Vec<ElviType> = Vec::new();
    let ghost mut homes: Seq<Option<Seq<char>>> = Seq::empty();
    let ghost mut found: Seq<Seq<Seq<char>>> = Seq::empty();
    let mut i: usize = 0;
    while i < elements.len()
        invariant
            i <= elements.len(),
            homes.len() == i,
            found.len() == i,
            values(out@) == loop_values_upto(elements@, i as int, variables@, homes, found),
        decreases elements.len() - i,
    {
        let tilde = elements[i].tilde_expansion(variables);
        let ghost home = choose|user_home: Option<Seq<char>>|
            tilde@ == elements@[i as int]@.tilde_expanded(variables@, user_home);
        let put_in = tilde.eval_variables(variables);
        let mut part = put_in.expand_globs();
        let ghost matches = choose|matches: Seq<Seq<char>>|
            values(part@) == put_in@.globbed(matches);
        out.append(&mut part);
        proof {
            let old_homes = homes;
            let old_found = found;
            homes = homes.push(home);
            found = found.push(matches);
            lemma_loop_values_prefix(
                elements@,
                i as int,
                variables@,
                old_homes,
                old_found,
                homes,
                found,
            );
        }
        i = i + 1;
    }
    out
}

/// Whether a frame is that of a loop that has just begun: its variable is
/// named as the loop says, its values are what the words of the loop give,
/// and its body is the loop's.
pub open spec fn is_loop_frame(frame: Frame, the: Loop, store: Store) -> bool {
    &&& frame matches Frame::Loop { variable, values: vals, next, body }
    &&& variable@ == the.variable@.text()
    &&& are_loop_values(the.elements@, store, values(vals@))
    &&& next == 0
    &&& body == the.do_block
}

/// Whether a frame is that of a subshell that keeps a copy of `store`.
pub open spec fn is_subshell_frame(frame: Frame, store: Store) -> bool {
    frame matches Frame::Subshell { outer } && outer@ == store
}

/// Whether `b` is what entering a subshell leads to from `a`: the nesting
/// level goes up by one and `SHLVL` follows, a copy of the store is kept
/// for the shell around, and the statements are the next thing to run.
pub open spec fn entered_subshell(block: Block, a: State, b: State) -> bool {
    let level = EnvView::moved(a.env.level, 1i8);
    let store = a.store.set("SHLVL"@, level_variable(level));
    &&& b.store == store
    &&& b.env == (EnvView { level, ..a.env })
    &&& b.waiting == a.waiting
    &&& b.cmds == a.cmds
    &&& b.functions == a.functions
    &&& b.frames.len() == a.frames.len() + 2
    &&& b.frames.subrange(0, a.frames.len() as int) == a.frames
    &&& is_subshell_frame(b.frames[a.frames.len() as int], store)
    &&& b.frames[a.frames.len() as int + 1] == (Frame::Block { code: block, next: 0 })
}

/// Whether `b` is what beginning a loop leads to from `a`.
pub open spec fn began_loop(the: Loop, a: State, b: State) -> bool {
    &&& b.frames.len() == a.frames.len() + 1
    &&& b.frames.subrange(0, a.frames.len() as int) == a.frames
    &&& is_loop_frame(b.frames[a.frames.len() as int], the, a.store)
    &&& b == (State { frames: b.frames, ..a })
}

/// Whether `b` and `r` are what a statement leads to from `a`.
pub open spec fn ran(stmt: Actions, a: State, b: State, r: Request) -> bool {
    match stmt {
        Actions::ChangeVariable((name, var)) => ran_assignment(name@, var@, a, b, r),
        Actions::Builtin(built) => ran_builtin(built, a, b, r),
        Actions::Command(words) => ran_command(words@, a, b, r),
        Actions::IfStatement(conditional) => r is Continue && b == (State {
            frames: a.frames.push(Frame::Branch { conditional, started: false }),
            ..a
        }),
        Actions::ForLoop(the) => r is Continue && began_loop(the, a, b),
        Actions::FunctionDeclaration(function) => r is Continue && b == (State {
            functions: put(a.functions, function.name@, function),
            ..a
        }),
        Actions::Subshell(block) => r is Continue && entered_subshell(block, a, b),
        Actions::CompoundBrackets(block) => r is Continue && b == (State {
            frames: a.frames.push(Frame::Block { code: block, next: 0 }),
            ..a
        }),
        Actions::Null => r is Continue && b == a,
    }
}

/// Run one statement.
pub fn run_statement(
    stmt: &Actions,
    task: &mut Task,
    variables: &mut Variables,
    commands: &mut Commands,
    env: &mut Env,
) -> (r: Request)
    requires
        old(variables)@.wf(),
        old(task).wf(),
    ensures
        final(variables)@.wf(),
        final(task).wf(),
        ran(
            *stmt,
            state_of(*old(task), *old(variables), *old(commands), *old(env)),
            state_of(*final(task), *final(variables), *final(commands), *final(env)),
            r,
        ),
{
    let ghost a = state_of(*task, *variables, *commands, *env);
    match stmt {
        Actions::ChangeVariable((name, var)) => run_assignment(
            name,
            var,
            task,
            variables,
            commands,
            env,
        ),
        Actions::Builtin(built) => run_builtin(built, task, variables, commands, env),
        Actions::Command(words) => run_command(words, task, variables, commands, env),
        Actions::IfStatement(conditional) => {
            task.frames.push(Frame::Branch { conditional: share(conditional), started: false });
            Request::Continue
        },
        Actions::ForLoop(the) => {
            let vals = expand_loop_values(&the.elements, variables);
            task.frames.push(
                Frame::Loop {
                    variable: the.variable.to_string(),
                    values: vals,
                    next: 0,
                    body: share(&the.do_block),
                },
            );
            assert(task.frames@.subrange(0, a.frames.len() as int) =~= a.frames);
            Request::Continue
        },
        Actions::FunctionDeclaration(function) => {
            commands.register_function(function.clone());
            Request::Continue
        },
        Actions::Subshell(block) => {
            let _ = env.update_shlvl(1, variables);
            let outer = variables.copy();
            task.frames.push(Frame::Subshell { outer });
            task.frames.push(Frame::Block { code: share(block), next: 0 });
            assert(task.frames@.subrange(0, a.frames.len() as int) =~= a.frames);
            Request::Continue
        },
        Actions::CompoundBrackets(block) => {
            task.frames.push(Frame::Block { code: share(block), next: 0 });
            Request::Continue
        },
        Actions::Null => Request::Continue,
    }
}

/// Whether `b` and `r` are what entering a directory leads to from `a`,
/// given what is known of it. A directory is entered: the variables follow
/// and whoever drives the shell is to change the working directory.
/// Anything else is a misuse that changes nothing.
pub open spec fn entered(
    path: Seq<char>,
    form: CdForm,
    facts: FileFacts,
    a: State,
    b: State,
    r: Request,
) -> bool {
    if enterable(facts) {
        &&& r matches Request::ChangeDirectory(to)
        &&& to@ == path
        &&& b == (State {
            waiting: Waiting::Nothing,
            store: cd_store(form, path, a.store).with_status(0),
            env: cd_env(form, path, a.store, a.env),
            ..a
        })
    } else {
        &&& r is Continue
        &&& b == (State {
            waiting: Waiting::Nothing,
            store: a.store.with_status(2),
            env: a.env.complain(cannot_cd(path)),
            ..a
        })
    }
}

/// The state after the programs of the search path were listed: they take
/// the place of the programs that were remembered. A reply that lists
/// nothing is a failure.
pub open spec fn after_scan(a: State, reply: Reply) -> State {
    match reply {
        Reply::Found(list) => State {
            waiting: Waiting::Nothing,
            cmds: indexed(list@),
            store: a.store.with_status(0),
            ..a
        },
        _ => State { waiting: Waiting::Nothing, store: a.store.with_status(1), ..a },
    }
}

/// The work that is left after the condition of an `if` has run: the block
/// for success where the last status is success, else the block for
/// failure if there is one.
pub open spec fn branch_frames(rest: Seq<Frame>, conditional: Conditional, status: u16) -> Seq<Frame> {
    if status == 0 {
        rest.push(Frame::Block { code: conditional.then_block, next: 0 })
    } else {
        match conditional.else_block {
            Some(block) => rest.push(Frame::Block { code: block, next: 0 }),
            None => rest,
        }
    }
}

/// Whether `b` and `r` are what a loop leads to from `a` when it is its
/// turn. A loop without a value left is over. Else the variable takes the
/// next value, as the variable that it was if there was one, and the body is
/// the next thing to run. A variable that may not be written ends the
/// shell.
pub open spec fn looped(
    variable: String,
    vals: Vec<ElviType>,
    next: usize,
    body: Block,
    rest: Seq<Frame>,
    a: State,
    b: State,
    r: Request,
) -> bool {
    if next >= vals@.len() {
        r is Continue && b == (State { frames: rest, ..a })
    } else if a.store.protects(variable@) {
        &&& r matches Request::Exit(code)
        &&& code@ == 2
        &&& b == (State { env: a.env.noted(a.store, variable@), ..a })
    } else {
        &&& r is Continue
        &&& b == (State {
            store: a.store.set(
                variable@,
                match a.store.get(variable@) {
                    Some(was) => was.holding(vals@[next as int]@),
                    None => VariableView::plain(vals@[next as int]@),
                },
            ),
            frames: rest.push(
                Frame::Loop { variable, values: vals, next: (next + 1) as usize, body },
            ).push(Frame::Block { code: body, next: 0 }),
            ..a
        })
    }
}

/// The store of a shell after a subshell has ended: the store that was
/// kept, with `SHLVL` at the level of the shell, without the variables of
/// deeper levels, and with the last status of the subshell.
pub open spec fn store_after_subshell(outer: Store, level: u32, status: u16) -> Store {
    outer.set("SHLVL"@, level_variable(level)).swept(Sweep::Above(level)).with_status(status)
}

/// The store of a shell after a function has returned: without the
/// variables of the function, and with the positional parameters of the
/// caller.
pub open spec fn store_after_call(store: Store, saved: Seq<VariableView>) -> Store {
    Store { params: saved, ..store.swept(Sweep::Locals) }
}

/// Whether `b` and `r` are what the next step leads to from `a` when the
/// evaluator waits for nothing. With no work left the task is done, and the
/// last status is its status. Else the innermost piece of work goes on: a
/// block runs its next statement or is over, an `if` runs its condition or
/// picks its block, a loop takes its next value, a function returns, a
/// subshell ends.
pub open spec fn advanced(a: State, b: State, r: Request) -> bool {
    if a.frames.len() == 0 {
        r matches Request::Done(code) && code@ == a.store.status() && b == a
    } else {
        let rest = a.frames.drop_last();
        match a.frames.last() {
            Frame::Block { code, next } => if next < code@.len() {
                ran(
                    code@[next as int],
                    State {
                        frames: rest.push(Frame::Block { code, next: (next + 1) as usize }),
                        ..a
                    },
                    b,
                    r,
                )
            } else {
                r is Continue && b == (State { frames: rest, ..a })
            },
            Frame::Branch { conditional, started } => if started {
                r is Continue && b == (State {
                    frames: branch_frames(rest, *conditional, a.store.status()),
                    ..a
                })
            } else {
                ran(
                    conditional.condition,
                    State { frames: rest.push(Frame::Branch { conditional, started: true }), ..a },
                    b,
                    r,
                )
            },
            Frame::Loop { variable, values: vals, next, body } => looped(
                variable,
                vals,
                next,
                body,
                rest,
                a,
                b,
                r,
            ),
            Frame::Call { saved } => r is Continue && b == (State {
                frames: rest,
                store: store_after_call(a.store, variable_views(saved@)),
                env: EnvView { in_function: false, ..a.env },
                ..a
            }),
            Frame::Subshell { outer } => r is Continue && b == (State {
                frames: rest,
                store: store_after_subshell(
                    outer@,
                    EnvView::moved(a.env.level, -1i8),
                    a.store.status(),
                ),
                env: EnvView { level: EnvView::moved(a.env.level, -1i8), ..a.env },
                ..a
            }),
        }
    }
}

/// Whether `b` and `r` are what one step leads to from `a`, given the reply
/// to the request of the step before. A reply that was waited for is taken
/// in; where nothing was waited for, the work goes on.
pub open spec fn step(a: State, reply: Reply, b: State, r: Request) -> bool {
    match a.waiting {
        Waiting::Nothing => advanced(a, b, r),
        Waiting::Program => r is Continue && b == after_program(a, reply),
        Waiting::Output { name, var } => r is Continue && b == (State {
            waiting: Waiting::Nothing,
            store: output_store(a.store, name@, var@, reply),
            env: output_env(a.env, a.store, name@, reply),
            ..a
        }),
        Waiting::Resolve { command, capture } => launched(
            State { waiting: Waiting::Nothing, ..a },
            command.cmd@,
            command.arguments(),
            capture_view(capture),
            facts_of(reply).first,
            b,
            r,
        ),
        Waiting::Directory { path, form } => entered(
            path@,
            form,
            facts_of(reply).first,
            a,
            b,
            r,
        ),
        Waiting::Condition { invert, to_do } => r is Continue && b == (State {
            waiting: Waiting::Nothing,
            store: a.store.with_status(test_status(invert, to_do, a.store, facts_of(reply))),
            ..a
        }),
        Waiting::Programs => r is Continue && b == after_scan(a, reply),
    }
}

/// Let the work go on when the evaluator waits for nothing.
pub fn advance(
    task: &mut Task,
    variables: &mut Variables,
    commands: &mut Commands,
    env: &mut Env,
) -> (r: Request)
    requires
        old(variables)@.wf(),
        old(task).wf(),
        old(task).waiting is Nothing,
    ensures
        final(variables)@.wf(),
        final(task).wf(),
        advanced(
            state_of(*old(task), *old(variables), *old(commands), *old(env)),
            state_of(*final(task), *final(variables), *final(commands), *final(env)),
            r,
        ),
{
    let ghost a = state_of(*task, *variables, *commands, *env);
    let top = match task.frames.pop() {
        Some(frame) => frame,
        None => {
            return Request::Done(variables.get_ret().convert_err_type());
        },
    };
    match top {
        Frame::Block { code, next } => {
            if next < code.len() {
                task.frames.push(Frame::Block { code: share(&code), next: next + 1 });
                run_statement(super::tree::statement_at(&code, next), task, variables, commands, env)
            } else {
                Request::Continue
            }
        },
        Frame::Branch { conditional, started } => {
            if started {
                let status = variables.get_ret().convert_err_type().get();
                if status == ReturnCode::SUCCESS {
                    task.frames.push(Frame::Block { code: share(&conditional.then_block), next: 0 });
                } else {
                    match &conditional.else_block {
                        Some(block) => {
                            task.frames.push(Frame::Block { code: share(block), next: 0 });
                        },
                        None => {},
                    }
                }
                Request::Continue
            } else {
                task.frames.push(Frame::Branch { conditional: share(&conditional), started: true });
                run_statement(&conditional.condition, task, variables, commands, env)
            }
        },
        Frame::Loop { variable, values: vals, next, body } => {
            if next >= vals.len() {
                return Request::Continue;
            }
            let target = match variables.get_variable(variable.as_str()) {
                Some(was) => Variable {
                    contents: vals[next].clone(),
                    modification_status: was.modification_status,
                    shell_lvl: was.shell_lvl,
                    line: was.line,
                },
                None => Variable::of(vals[next].clone()),
            };
            if assign(variables, env, variable.as_str(), target) {
                let again = share(&body);
                task.frames.push(Frame::Loop { variable, values: vals, next: next + 1, body });
                task.frames.push(Frame::Block { code: again, next: 0 });
                Request::Continue
            } else {
                task.frames.push(Frame::Loop { variable, values: vals, next, body });
                assert(task.frames@ =~= a.frames);
                Request::Exit(ReturnCode::ret(ReturnCode::MISUSE))
            }
        },
        Frame::Call { saved } => {
            variables.sweep(Sweep::Locals);
            env.set_function(false);
            variables.new_parameters(saved);
            Request::Continue
        },
        Frame::Subshell { outer } => {
            let status = variables.get_ret().convert_err_type();
            *variables = outer;
            let level = env.update_shlvl(-1, variables);
            variables.sweep(Sweep::Above(level));
            variables.set_ret(status);
            Request::Continue
        },
    }
}

/// One step of the evaluator. `reply` answers the request of the step
/// before; the request that comes back says what is to be done before the
/// next step. The task is over when the request is `Done`.
pub fn eval(
    task: &mut Task,
    variables: &mut Variables,
    commands: &mut Commands,
    global_env: &mut Env,
    reply: Reply,
) -> (r: Request)
    requires
        old(variables)@.wf(),
        old(task).wf(),
    ensures
        final(variables)@.wf(),
        final(task).wf(),
        step(
            state_of(*old(task), *old(variables), *old(commands), *old(global_env)),
            reply,
            state_of(*final(task), *final(variables), *final(commands), *final(global_env)),
            r,
        ),
{
    let mut waiting = Waiting::Nothing;
    core::mem::swap(&mut waiting, &mut task.waiting);
    match waiting {
        Waiting::Nothing => advance(task, variables, commands, global_env),
        Waiting::Program => {
            finish_program(&reply, variables, global_env);
            Request::Continue
        },
        Waiting::Output { name, var } => {
            finish_capture(&reply, name.as_str(), var, variables, global_env);
            Request::Continue
        },
        Waiting::Resolve { command, capture } => {
            let facts = reply_facts(&reply);
            launch(command, capture, &facts.first, task, variables, commands, global_env)
        },
        Waiting::Directory { path, form } => {
            let facts = reply_facts(&reply);
            let ret = enter_directory(path.as_str(), form, &facts.first, variables, global_env);
            let entered = ret.get() == ReturnCode::SUCCESS;
            variables.set_ret(ret);
            if entered {
                Request::ChangeDirectory(path)
            } else {
                Request::Continue
            }
        },
        Waiting::Condition { invert, to_do } => {
            let facts = reply_facts(&reply);
            let ret = execute(invert, &to_do, variables, &facts);
            variables.set_ret(ret);
            Request::Continue
        },
        Waiting::Programs => {
            match &reply {
                Reply::Found(list) => {
                    commands.rehash(list);
                    variables.set_ret(ReturnCode::ret(ReturnCode::SUCCESS));
                },
                _ => {
                    variables.set_ret(ReturnCode::ret(ReturnCode::FAILURE));
                },
            }
            Request::Continue
        },
    }
}

/// An assignment to a name that is protected ends the shell by misuse and
/// leaves the store as it was, whatever was to be assigned but the output
/// of a command.
pub proof fn lemma_protected_assignment_ends_the_shell(
    name: Seq<char>,
    var: VariableView,
    a: State,
    b: State,
    r: Request,
)
    requires
        a.store.protects(name),
        !(var.contents is CommandSubstitution),
        ran_assignment(name, var, a, b, r),
    ensures
        r matches Request::Exit(code) && code@ == 2,
        b.store == a.store,
        b.frames == a.frames,
{
}

/// To drop more arguments than there are ends the shell by misuse, and the
/// arguments stay as they were.
pub proof fn lemma_shift_too_far_ends_the_shell(options: Options, a: State, b: State, r: Request)
    requires
        shift_verdict(options, a.store) is Terminate,
        shifted(options, a, b, r),
    ensures
        r matches Request::Exit(code) && code@ == 2,
        b.store == a.store,
{
}

/// To enter what is no directory is a misuse that leaves every variable
/// but the last status as it was, and asks for no change of directory.
pub proof fn lemma_cd_to_no_directory(
    path: Seq<char>,
    form: CdForm,
    facts: FileFacts,
    a: State,
    b: State,
    r: Request,
    name: Seq<char>,
)
    requires
        a.store.wf(),
        !enterable(facts),
        entered(path, form, facts, a, b, r),
        name != super::variables::status_name(),
    ensures
        r is Continue,
        b.store.status() == 2,
        b.store.named(name) == a.store.named(name),
        b.store.params == a.store.params,
{
    super::table::lemma_put(
        a.store.vars,
        super::variables::status_name(),
        VariableView::of_status(2),
        name,
    );
}

/// When nothing is left to run and nothing is waited for, a step changes
/// nothing and hands back the last status.
pub proof fn lemma_done_is_the_last_status(a: State, reply: Reply, b: State, r: Request)
    requires
        a.frames.len() == 0,
        a.waiting is Nothing,
        step(a, reply, b, r),
    ensures
        r matches Request::Done(code) && code@ == a.store.status(),
        b == a,
{
}

} // verus!
