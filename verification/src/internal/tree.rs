//! The statements of a script as the evaluator takes them.
use super::commands::{split, ExternalCommand, HowRun};
use super::env::Env;

use super::status::{ReturnCode, Verdict};
use super::variables::{ElviGlobal, ElviType, Store, Value, Variable, VariableView, Variables};
use std::rc::Rc;
use vstd::prelude::*;

verus! {

/// A run of statements. It is shared, not copied, by everything that runs
/// it: a loop runs its body once for each value, a function once for each
/// call.
pub type Block = Rc<Vec<Actions>>;

/// What a statement can ask for.
#[derive(Debug)]
pub enum Actions {
    /// Set a variable: its name and what it is to be.
    ChangeVariable((String, Variable)),
    /// Run a builtin.
    Builtin(Builtins),
    /// Run a function or a program: its name and its arguments.
    Command(Vec<ElviType>),
    /// An `if` statement.
    IfStatement(Rc<Conditional>),
    /// A `for` loop.
    ForLoop(Loop),
    /// Declare a function.
    FunctionDeclaration(Function),
    /// Run statements in a subshell.
    Subshell(Block),
    /// Run statements grouped by braces, in the shell itself.
    CompoundBrackets(Block),
    /// Do nothing.
    Null,
}

/// A function of the script.
#[derive(Debug)]
pub struct Function {
    /// Its name.
    pub name: String,
    /// Its body.
    pub contents: Option<Block>,
}

/// The builtins with their arguments.
#[derive(Debug)]
pub enum Builtins {
    /// Show variables.
    Dbg(Option<Vec<ElviType>>),
    /// Remove variables or functions.
    Unset(Option<Vec<ElviType>>),
    /// Leave the shell, with status `0` or with the status given.
    Exit(Option<Vec<ElviType>>),
    /// Show the remembered commands, or with `-r` look them up anew.
    Hash(Option<Vec<ElviType>>),
    /// Change the working directory: to a path, home, or with `-` back.
    Cd(Option<Vec<ElviType>>),
    /// Test a condition; the flag inverts the outcome.
    Test(bool, TestOptions),
    /// Print the arguments.
    Echo(Option<Vec<ElviType>>),
    /// Drop positional parameters from the front.
    Shift(Option<Vec<ElviType>>),
}

/// An `if` statement.
#[derive(Debug)]
pub struct Conditional {
    /// The statement whose status decides.
    pub condition: Actions,
    /// What runs where the condition succeeds.
    pub then_block: Block,
    /// Further conditions with their blocks.
    pub elif_block: Option<Vec<Conditional>>,
    /// What runs where the condition fails.
    pub else_block: Option<Block>,
}

/// A `for` loop.
#[derive(Debug)]
pub struct Loop {
    /// The variable that takes each value in turn.
    pub variable: ElviType,
    /// The words that give the values.
    pub elements: Vec<ElviType>,
    /// What runs for each value.
    pub do_block: Block,
}

/// What `test` can decide.
#[derive(Debug)]
pub enum TestOptions {
    /// `-b file`
    BlockFileExists(ElviType),
    /// `-c file`
    CharacterFileExists(ElviType),
    /// `-d file`
    DirectoryExists(ElviType),
    /// `-e file`
    AnyFileExists(ElviType),
    /// `-f file`
    RegularFileExists(ElviType),
    /// `-g file`
    GroupIDFlagSetExists(ElviType),
    /// `-h file` and `-L file`
    SymbolicLinkExists(ElviType),
    /// `-k file`
    StickyBitSetExists(ElviType),
    /// `-n string`
    StringNonZero(ElviType),
    /// `-p file`
    NamedPipeExists(ElviType),
    /// `-r file`
    ReadableFileExists(ElviType),
    /// `-s file`
    FileExistsGreaterThanZero(ElviType),
    /// `-t file_descriptor`
    FDDescriptorNumberOpened(ElviType),
    /// `-u file`
    FileExistsUserIDSet(ElviType),
    /// `-w file`
    FileExistsWritable(ElviType),
    /// `-x file`
    FileExistsExecutable(ElviType),
    /// `-z string`
    StringZero(ElviType),
    /// `-O file`
    FileExistsOwnerEffectiveUserID(ElviType),
    /// `-G file`
    FileExistsOwnerEffectiveGroupID(ElviType),
    /// `-S file`
    FileExistsSocket(ElviType),
    /// `file1 -nt file2`
    File1NewerThanFile2((ElviType, ElviType)),
    /// `file1 -ot file2`
    File1OlderThanFile2((ElviType, ElviType)),
    /// `file1 -ef file2`
    File1SameAsFile2((ElviType, ElviType)),
    /// `string`
    StringNotNull(ElviType),
    /// `s1 = s2`
    String1IsString2((ElviType, ElviType)),
    /// `s1 != s2`
    String1IsNotString2((ElviType, ElviType)),
    /// `s1 < s2`
    String1BeforeString2ASCII((ElviType, ElviType)),
    /// `s1 > s2`
    String1AfterString2ASCII((ElviType, ElviType)),
    /// `n1 -eq n2`
    Int1EqualsInt2Algebraically((ElviType, ElviType)),
    /// `n1 -ne n2`
    Int1NotEqualsInt2Algebraically((ElviType, ElviType)),
    /// `n1 -gt n2`
    Int1GreaterThanInt2Algebraically((ElviType, ElviType)),
    /// `n1 -lt n2`
    Int1LessThanInt2Algebraically((ElviType, ElviType)),
    /// `n1 -ge n2`
    Int1GreaterEqualInt2Algebraically((ElviType, ElviType)),
    /// `n1 -le n2`
    Int1LessEqualInt2Algebraically((ElviType, ElviType)),
}

impl View for Function {
    type V = Function;

    open spec fn view(&self) -> Function {
        *self
    }
}

/// Hands out one more handle to shared statements, as `Rc::clone` does: the
/// new handle leads to the very same statements.
#[verifier::external_body]
pub(crate) fn share<T>(rc: &Rc<T>) -> (r: Rc<T>)
    ensures
        r == *rc,
{
    Rc::clone(rc)
}

impl Clone for Function {
    fn clone(&self) -> (r: Self)
        ensures
            r == *self,
    {
        Function {
            name: self.name.clone(),
            contents: match &self.contents {
                Some(body) => Some(share(body)),
                None => None,
            },
        }
    }
}

/// The statement at a place of a block.
pub fn statement_at(block: &Block, i: usize) -> (r: &Actions)
    requires
        i < block@.len(),
    ensures
        *r == block@[i as int],
{
    &block[i]
}

impl Clone for TestOptions {
    fn clone(&self) -> (r: Self)
        ensures
            r == *self,
    {
        match self {
            Self::BlockFileExists(a) => Self::BlockFileExists(a.clone()),
            Self::CharacterFileExists(a) => Self::CharacterFileExists(a.clone()),
            Self::DirectoryExists(a) => Self::DirectoryExists(a.clone()),
            Self::AnyFileExists(a) => Self::AnyFileExists(a.clone()),
            Self::RegularFileExists(a) => Self::RegularFileExists(a.clone()),
            Self::GroupIDFlagSetExists(a) => Self::GroupIDFlagSetExists(a.clone()),
            Self::SymbolicLinkExists(a) => Self::SymbolicLinkExists(a.clone()),
            Self::StickyBitSetExists(a) => Self::StickyBitSetExists(a.clone()),
            Self::StringNonZero(a) => Self::StringNonZero(a.clone()),
            Self::NamedPipeExists(a) => Self::NamedPipeExists(a.clone()),
            Self::ReadableFileExists(a) => Self::ReadableFileExists(a.clone()),
            Self::FileExistsGreaterThanZero(a) => Self::FileExistsGreaterThanZero(a.clone()),
            Self::FDDescriptorNumberOpened(a) => Self::FDDescriptorNumberOpened(a.clone()),
            Self::FileExistsUserIDSet(a) => Self::FileExistsUserIDSet(a.clone()),
            Self::FileExistsWritable(a) => Self::FileExistsWritable(a.clone()),
            Self::FileExistsExecutable(a) => Self::FileExistsExecutable(a.clone()),
            Self::StringZero(a) => Self::StringZero(a.clone()),
            Self::FileExistsOwnerEffectiveUserID(a) => Self::FileExistsOwnerEffectiveUserID(a.clone()),
            Self::FileExistsOwnerEffectiveGroupID(a) => Self::FileExistsOwnerEffectiveGroupID(a.clone()),
            Self::FileExistsSocket(a) => Self::FileExistsSocket(a.clone()),
            Self::File1NewerThanFile2((a, b)) => Self::File1NewerThanFile2((a.clone(), b.clone())),
            Self::File1OlderThanFile2((a, b)) => Self::File1OlderThanFile2((a.clone(), b.clone())),
            Self::File1SameAsFile2((a, b)) => Self::File1SameAsFile2((a.clone(), b.clone())),
            Self::StringNotNull(a) => Self::StringNotNull(a.clone()),
            Self::String1IsString2((a, b)) => Self::String1IsString2((a.clone(), b.clone())),
            Self::String1IsNotString2((a, b)) => Self::String1IsNotString2((a.clone(), b.clone())),
            Self::String1BeforeString2ASCII((a, b)) => Self::String1BeforeString2ASCII((a.clone(), b.clone())),
            Self::String1AfterString2ASCII((a, b)) => Self::String1AfterString2ASCII((a.clone(), b.clone())),
            Self::Int1EqualsInt2Algebraically((a, b)) => Self::Int1EqualsInt2Algebraically((a.clone(), b.clone())),
            Self::Int1NotEqualsInt2Algebraically((a, b)) => Self::Int1NotEqualsInt2Algebraically((a.clone(), b.clone())),
            Self::Int1GreaterThanInt2Algebraically((a, b)) => Self::Int1GreaterThanInt2Algebraically((a.clone(), b.clone())),
            Self::Int1LessThanInt2Algebraically((a, b)) => Self::Int1LessThanInt2Algebraically((a.clone(), b.clone())),
            Self::Int1GreaterEqualInt2Algebraically((a, b)) => Self::Int1GreaterEqualInt2Algebraically((a.clone(), b.clone())),
            Self::Int1LessEqualInt2Algebraically((a, b)) => Self::Int1LessEqualInt2Algebraically((a.clone(), b.clone())),
        }
    }
}

impl VariableView {
    /// The variable as it is stored at a nesting level: an exported one
    /// stays exported, any other belongs to the level.
    pub open spec fn stamped(self, level: u32) -> VariableView {
        if self.shell_lvl == ElviGlobal::Global {
            self
        } else {
            VariableView { shell_lvl: ElviGlobal::Normal(level), ..self }
        }
    }

    /// The variable with other contents.
    pub open spec fn holding(self, contents: Value) -> VariableView {
        VariableView { contents, ..self }
    }
}

impl Value {
    /// The value that an assignment stores: a text that awaits its
    /// parameters has its escapes decoded and its parameters put in, any
    /// other value is stored as it is.
    pub open spec fn assigned(self, store: Store) -> Value {
        self.unescaped().with_parameters(store)
    }
}

/// What becomes of an assignment.
#[derive(Debug)]
pub enum Assigned {
    /// It is done: the script goes on, or the shell leaves.
    Done(Verdict),
    /// The variable is to hold what a command writes: the command, and the
    /// variable as it is to be stored but for its contents.
    Command { command: ExternalCommand, var: Variable },
}

/// The store after an assignment that needs no command: unchanged where the
/// name is protected; else the name holds the value, stamped with the
/// nesting level, and the last status is success.
pub open spec fn assigned_store(store: Store, level: u32, name: Seq<char>, var: VariableView) -> Store {
    store.set(name, var.stamped(level).holding(var.contents.assigned(store)))
}

/// How an assignment that needs no command ends: a name that is protected
/// makes the shell leave at once, by misuse.
pub open spec fn assigned_verdict(store: Store, name: Seq<char>) -> Verdict {
    if store.protects(name) {
        Verdict::Terminate(ReturnCode { val: 2 })
    } else {
        Verdict::Continue(ReturnCode { val: 0 })
    }
}

/// Set a variable as a statement of the script asks. A command
/// substitution is handed back with the command to run, and nothing is
/// changed yet. Any other value is stored, a text that awaits its
/// parameters after they were put in; the variable belongs to the nesting
/// level `lvl` unless it is exported. A protected name is reported and ends
/// the shell.
pub fn change_variable(
    variables: &mut Variables,
    env: &mut Env,
    lvl: u32,
    name: &str,
    var: &Variable,
) -> (r: Assigned)
    requires
        old(variables)@.wf(),
    ensures
        final(variables)@.wf(),
        match var@.contents {
            Value::CommandSubstitution(line) => {
                &&& final(variables)@ == old(variables)@
                &&& final(env)@ == old(env)@
                &&& r matches Assigned::Command { command, var: kept }
                &&& kept@ == var@.stamped(lvl)
                &&& command.cmd@ == split(line, ' ')[0]
                &&& command.arguments() == split(line, ' ').subrange(
                    1,
                    split(line, ' ').len() as int,
                )
                &&& command.attributes == HowRun::RealTime
            },
            _ => {
                &&& final(variables)@ == assigned_store(old(variables)@, lvl, name@, var@)
                &&& final(env)@ == old(env)@.noted(old(variables)@, name@)
                &&& r matches Assigned::Done(verdict)
                &&& verdict == assigned_verdict(old(variables)@, name@)
            },
        },
{
    let shell_lvl = match var.shell_lvl {
        ElviGlobal::Global => ElviGlobal::Global,
        _ => ElviGlobal::Normal(lvl),
    };
    match &var.contents {
        ElviType::CommandSubstitution(line) => {
            let command = ExternalCommand::from_line(line.as_str());
            proof {
                super::commands::lemma_split_nonempty(line@, ' ');
            }
            Assigned::Command {
                command,
                var: Variable {
                    contents: var.contents.clone(),
                    modification_status: var.modification_status,
                    shell_lvl,
                    line: var.line,
                },
            }
        },
        _ => {
            let contents = var.contents.eval_escapes().eval_variables(variables);
            let target = Variable {
                contents,
                modification_status: var.modification_status,
                shell_lvl,
                line: var.line,
            };
            if super::env::assign(variables, env, name, target) {
                Assigned::Done(Verdict::Continue(ReturnCode::ret(ReturnCode::SUCCESS)))
            } else {
                Assigned::Done(Verdict::Terminate(ReturnCode::ret(ReturnCode::MISUSE)))
            }
        },
    }
}

} // verus!
