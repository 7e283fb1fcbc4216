//! The values of the shell, its variables, and the store that holds them.
use super::errors::VariableError;
use super::status::ReturnCode;
use super::table::{
    distinct_names, has_name, kept, lemma_kept, lemma_kept_names, lemma_put, lemma_without,
    lookup, put, without, Entries, Table,
};
use super::text::{decimal, number_text, parse_bounded, parse_number, text_pairs, texts};
use vstd::prelude::*;
use vstd::string::*;

verus! {

/// Whether a value is quoted: word splitting and pathname expansion leave a
/// quoted value alone.
pub trait QuotedNature {
    /// Whether the value is quoted.
    spec fn quoted(&self) -> bool;

    /// Whether the value is quoted.
    fn is_quoted(&self) -> (r: bool)
        ensures
            r == self.quoted(),
    ;
}

/// A value of the shell.
#[derive(Debug, PartialEq, Eq)]
pub enum ElviType {
    /// A text that is taken as it stands.
    String(String),
    /// A number.
    Number(usize),
    /// An exit status; no script can write one.
    ErrExitCode(u16),
    /// A truth value.
    Boolean(bool),
    /// A command whose output is to take the value's place; no script can
    /// write one.
    CommandSubstitution(String),
    /// A double-quoted text in which variables are still to be put in.
    VariableSubstitution(String),
    /// An unquoted word, which may still need expanding.
    BareString(String),
}

/// What a value is, with texts as sequences of characters.
pub enum Value {
    /// A text that is taken as it stands.
    PlainString(Seq<char>),
    /// A number.
    Number(usize),
    /// An exit status.
    ExitStatus(u16),
    /// A truth value.
    Boolean(bool),
    /// A command whose output is to take the value's place.
    CommandSubstitution(Seq<char>),
    /// A text in which variables are still to be put in.
    ParameterSubstitution(Seq<char>),
    /// An unquoted word.
    BareWord(Seq<char>),
}

impl Value {
    /// The value written out.
    pub open spec fn text(self) -> Seq<char> {
        match self {
            Value::PlainString(s) => s,
            Value::Number(n) => decimal(n as nat),
            Value::ExitStatus(n) => decimal(n as nat),
            Value::Boolean(b) => if b {
                "true"@
            } else {
                "false"@
            },
            Value::CommandSubstitution(s) => s,
            Value::ParameterSubstitution(s) => s,
            Value::BareWord(s) => s,
        }
    }

    /// Whether the value is quoted: every kind but the unquoted word.
    pub open spec fn quoted(self) -> bool {
        !(self is BareWord)
    }
}

impl View for ElviType {
    type V = Value;

    open spec fn view(&self) -> Value {
        match self {
            ElviType::String(s) => Value::PlainString(s@),
            ElviType::Number(n) => Value::Number(*n),
            ElviType::ErrExitCode(n) => Value::ExitStatus(*n),
            ElviType::Boolean(b) => Value::Boolean(*b),
            ElviType::CommandSubstitution(s) => Value::CommandSubstitution(s@),
            ElviType::VariableSubstitution(s) => Value::ParameterSubstitution(s@),
            ElviType::BareString(s) => Value::BareWord(s@),
        }
    }
}

impl QuotedNature for ElviType {
    open spec fn quoted(&self) -> bool {
        self@.quoted()
    }

    fn is_quoted(&self) -> (r: bool) {
        match self {
            ElviType::BareString(_) => false,
            _ => true,
        }
    }
}

impl Clone for ElviType {
    fn clone(&self) -> (r: Self)
        ensures
            r == *self,
    {
        match self {
            ElviType::String(s) => ElviType::String(s.clone()),
            ElviType::Number(n) => ElviType::Number(*n),
            ElviType::ErrExitCode(n) => ElviType::ErrExitCode(*n),
            ElviType::Boolean(b) => ElviType::Boolean(*b),
            ElviType::CommandSubstitution(s) => ElviType::CommandSubstitution(s.clone()),
            ElviType::VariableSubstitution(s) => ElviType::VariableSubstitution(s.clone()),
            ElviType::BareString(s) => ElviType::BareString(s.clone()),
        }
    }
}

impl ElviType {
    /// Write the value out.
    pub fn to_string(&self) -> (r: String)
        ensures
            r@ == self@.text(),
    {
        match self {
            ElviType::String(s) => s.clone(),
            ElviType::VariableSubstitution(s) => s.clone(),
            ElviType::CommandSubstitution(s) => s.clone(),
            ElviType::BareString(s) => s.clone(),
            ElviType::Number(n) => number_text(*n as u64),
            ElviType::ErrExitCode(n) => number_text(*n as u64),
            ElviType::Boolean(b) => if *b {
                String::from_str("true")
            } else {
                String::from_str("false")
            },
        }
    }

    /// Whether two values are of one kind and hold the same.
    pub fn same_value(&self, other: &ElviType) -> (r: bool)
        ensures
            r == (self@ == other@),
    {
        match (self, other) {
            (ElviType::String(a), ElviType::String(b)) => super::text::same_text(
                a.as_str(),
                b.as_str(),
            ),
            (ElviType::Number(a), ElviType::Number(b)) => *a == *b,
            (ElviType::ErrExitCode(a), ElviType::ErrExitCode(b)) => *a == *b,
            (ElviType::Boolean(a), ElviType::Boolean(b)) => *a == *b,
            (
                ElviType::CommandSubstitution(a),
                ElviType::CommandSubstitution(b),
            ) => super::text::same_text(a.as_str(), b.as_str()),
            (
                ElviType::VariableSubstitution(a),
                ElviType::VariableSubstitution(b),
            ) => super::text::same_text(a.as_str(), b.as_str()),
            (ElviType::BareString(a), ElviType::BareString(b)) => super::text::same_text(
                a.as_str(),
                b.as_str(),
            ),
            _ => false,
        }
    }

    /// The status that an exit-status value holds.
    pub fn convert_err_type(&self) -> (r: ReturnCode)
        requires
            self@ is ExitStatus,
        ensures
            self@ == Value::ExitStatus(r@),
    {
        match self {
            ElviType::ErrExitCode(val) => ReturnCode::ret(*val),
            _ => vstd::pervasive::unreached(),
        }
    }
}

/// Whether a variable may be written and removed.
#[derive(Debug, Clone, Copy, PartialEq, Eq, Structural)]
pub enum ElviMutable {
    /// It may be written and removed.
    Normal,
    /// It may be neither written nor removed by a script.
    Readonly,
    /// As `Readonly`; the store itself keeps such a variable, `$?`.
    ReadonlyUnsettable,
}

/// How far a variable reaches.
#[derive(Debug, Clone, Copy, PartialEq, Eq, Structural)]
pub enum ElviGlobal {
    /// It is exported to every command the shell starts.
    Global,
    /// It belongs to a nesting level of subshells, and is swept when the
    /// shell leaves that level.
    Normal(u32),
    /// It belongs to the function that is running.
    Local,
}

/// One variable.
#[derive(Debug, PartialEq, Eq)]
pub struct Variable {
    /// What it holds.
    pub contents: ElviType,
    /// Whether it may be written.
    pub modification_status: ElviMutable,
    /// How far it reaches.
    pub shell_lvl: ElviGlobal,
    /// Line and column at which it was declared.
    pub line: (usize, usize),
}

/// What a variable is, with texts as sequences of characters.
pub struct VariableView {
    /// What it holds.
    pub contents: Value,
    /// Whether it may be written.
    pub modification_status: ElviMutable,
    /// How far it reaches.
    pub shell_lvl: ElviGlobal,
    /// Line and column at which it was declared.
    pub line: (usize, usize),
}

impl View for Variable {
    type V = VariableView;

    open spec fn view(&self) -> VariableView {
        VariableView {
            contents: self.contents@,
            modification_status: self.modification_status,
            shell_lvl: self.shell_lvl,
            line: self.line,
        }
    }
}

impl VariableView {
    /// A writable, exported variable that holds `contents` and was declared
    /// nowhere.
    pub open spec fn plain(contents: Value) -> VariableView {
        VariableView {
            contents,
            modification_status: ElviMutable::Normal,
            shell_lvl: ElviGlobal::Global,
            line: (0, 0),
        }
    }

    /// The variable `$?` for a status.
    pub open spec fn of_status(code: u16) -> VariableView {
        VariableView {
            contents: Value::ExitStatus(code),
            modification_status: ElviMutable::ReadonlyUnsettable,
            shell_lvl: ElviGlobal::Global,
            line: (0, 0),
        }
    }

    /// Whether the variable may be written and removed.
    pub open spec fn writable(self) -> bool {
        self.modification_status == ElviMutable::Normal
    }
}

impl Clone for Variable {
    fn clone(&self) -> (r: Self)
        ensures
            r == *self,
    {
        Variable {
            contents: self.contents.clone(),
            modification_status: self.modification_status,
            shell_lvl: self.shell_lvl,
            line: self.line,
        }
    }
}

impl Default for Variable {
    /// The writable, exported variable that holds the empty text.
    fn default() -> (r: Self)
        ensures
            r@ == VariableView::plain(Value::PlainString(Seq::empty())),
    {
        Variable {
            contents: ElviType::String(String::new()),
            modification_status: ElviMutable::Normal,
            shell_lvl: ElviGlobal::Global,
            line: (0, 0),
        }
    }
}

impl Variable {
    /// The writable, exported variable that holds `contents`.
    pub fn of(contents: ElviType) -> (r: Self)
        ensures
            r@ == VariableView::plain(contents@),
            r.contents == contents,
    {
        Variable {
            contents,
            modification_status: ElviMutable::Normal,
            shell_lvl: ElviGlobal::Global,
            line: (0, 0),
        }
    }
}

impl From<String> for Variable {
    fn from(value: String) -> (r: Self) {
        Variable::of(ElviType::String(value))
    }
}

impl vstd::std_specs::convert::FromSpecImpl<String> for Variable {
    open spec fn obeys_from_spec() -> bool {
        true
    }

    open spec fn from_spec(value: String) -> Self {
        Variable {
            contents: ElviType::String(value),
            modification_status: ElviMutable::Normal,
            shell_lvl: ElviGlobal::Global,
            line: (0, 0),
        }
    }
}

impl From<ElviType> for Variable {
    fn from(value: ElviType) -> (r: Self) {
        Variable::of(value)
    }
}

impl vstd::std_specs::convert::FromSpecImpl<ElviType> for Variable {
    open spec fn obeys_from_spec() -> bool {
        true
    }

    open spec fn from_spec(value: ElviType) -> Self {
        Variable {
            contents: value,
            modification_status: ElviMutable::Normal,
            shell_lvl: ElviGlobal::Global,
            line: (0, 0),
        }
    }
}

/// The arguments that the shell was started with.
#[derive(Debug)]
pub struct Arguments {
    /// The arguments, the script's own name first.
    pub args: Vec<String>,
}

impl From<Vec<String>> for Arguments {
    fn from(value: Vec<String>) -> (r: Self) {
        Arguments { args: value }
    }
}

impl vstd::std_specs::convert::FromSpecImpl<Vec<String>> for Arguments {
    open spec fn obeys_from_spec() -> bool {
        true
    }

    open spec fn from_spec(value: Vec<String>) -> Self {
        Arguments { args: value }
    }
}

/// The name of the variable that holds the last status.
pub open spec fn status_name() -> Seq<char> {
    seq!['?']
}

/// The views of a list of variables.
pub open spec fn variable_views(v: Seq<Variable>) -> Seq<VariableView> {
    v.map_values(|x: Variable| x@)
}

/// The exported variables among `vars`, each as its name and its value
/// written out, in the order of `vars`.
pub open spec fn exported(vars: Entries<VariableView>) -> Seq<(Seq<char>, Seq<char>)>
    decreases vars.len(),
{
    if vars.len() == 0 {
        Seq::empty()
    } else if vars.last().1.shell_lvl == ElviGlobal::Global {
        exported(vars.drop_last()).push((vars.last().0, vars.last().1.contents.text()))
    } else {
        exported(vars.drop_last())
    }
}

/// Which variables a sweep removes.
#[derive(Debug, Clone, Copy, PartialEq, Eq, Structural)]
pub enum Sweep {
    /// Those that belong to a nesting level above the given one.
    Above(u32),
    /// Those that belong to a function.
    Locals,
}

impl Sweep {
    /// Whether the sweep leaves a variable in the store.
    pub open spec fn keeps(self, v: VariableView) -> bool {
        match self {
            Sweep::Above(level) => match v.shell_lvl {
                ElviGlobal::Normal(l) => l <= level,
                _ => true,
            },
            Sweep::Locals => v.shell_lvl != ElviGlobal::Local,
        }
    }
}

/// What a store holds.
pub struct Store {
    /// The named variables, one entry for each name.
    pub vars: Entries<VariableView>,
    /// The positional parameters; the first is the name of the script or of
    /// the function that runs.
    pub params: Seq<VariableView>,
    /// The process id of the shell, which `$$` gives.
    pub pid: u32,
}

impl Store {
    /// What every store keeps: one entry for each name, and a variable `?`
    /// that holds a status, is exported and can be neither written nor
    /// removed by a script.
    pub open spec fn wf(self) -> bool {
        &&& distinct_names(self.vars)
        &&& lookup(self.vars, status_name()) matches Some(v)
        &&& v.contents is ExitStatus
        &&& v.modification_status == ElviMutable::ReadonlyUnsettable
        &&& v.shell_lvl == ElviGlobal::Global
    }

    /// The named variable `name`.
    pub open spec fn named(self, name: Seq<char>) -> Option<VariableView> {
        lookup(self.vars, name)
    }

    /// The variable that `name` stands for: a name that writes a number is
    /// the positional parameter of that number, any other name is a named
    /// variable.
    pub open spec fn get(self, name: Seq<char>) -> Option<VariableView> {
        match parse_number(name, usize::MAX as nat) {
            Some(n) => if n < self.params.len() {
                Some(self.params[n as int])
            } else {
                None
            },
            None => lookup(self.vars, name),
        }
    }

    /// What the variable that `name` stands for holds, written out; nothing
    /// where there is no such variable.
    pub open spec fn text_of(self, name: Seq<char>) -> Seq<char> {
        match self.get(name) {
            Some(v) => v.contents.text(),
            None => Seq::empty(),
        }
    }

    /// The last status.
    pub open spec fn status(self) -> u16 {
        match lookup(self.vars, status_name()) {
            Some(v) => match v.contents {
                Value::ExitStatus(code) => code,
                _ => 0,
            },
            None => 0,
        }
    }

    /// The store with `code` as the last status.
    pub open spec fn with_status(self, code: u16) -> Store {
        Store { vars: put(self.vars, status_name(), VariableView::of_status(code)), ..self }
    }

    /// Whether a named variable `name` exists that may not be written.
    pub open spec fn protects(self, name: Seq<char>) -> bool {
        lookup(self.vars, name) matches Some(v) && !v.writable()
    }

    /// The store after `name` is set to `v`: unchanged where the name is
    /// protected; else the last status is success and `name` holds `v`.
    pub open spec fn set(self, name: Seq<char>, v: VariableView) -> Store {
        if self.protects(name) {
            self
        } else {
            Store { vars: put(self.with_status(0).vars, name, v), ..self }
        }
    }

    /// The store without the named variable `name`.
    pub open spec fn unset(self, name: Seq<char>) -> Store {
        Store { vars: without(self.vars, name), ..self }
    }

    /// The store without its first `n` arguments; the name in front stays.
    pub open spec fn shifted(self, n: nat) -> Store {
        if self.params.len() == 0 {
            self
        } else {
            Store {
                params: seq![self.params[0]] + self.params.subrange(
                    n as int + 1,
                    self.params.len() as int,
                ),
                ..self
            }
        }
    }

    /// The store after a sweep.
    pub open spec fn swept(self, which: Sweep) -> Store {
        Store { vars: kept(self.vars, |v: VariableView| which.keeps(v)), ..self }
    }

    /// The store as a function sees it that is called as `name` with
    /// `args`: the name in front stays, or is the function's name where
    /// there was none, and the arguments follow as plain texts.
    pub open spec fn called(self, name: Seq<char>, args: Seq<Seq<char>>) -> Store {
        Store {
            params: seq![
                if self.params.len() > 0 {
                    self.params[0]
                } else {
                    VariableView::plain(Value::PlainString(name))
                },
            ] + args.map_values(|a: Seq<char>| VariableView::plain(Value::PlainString(a))),
            ..self
        }
    }

    /// The variables that a command started by the shell inherits.
    pub open spec fn environment(self) -> Seq<(Seq<char>, Seq<char>)> {
        exported(self.vars)
    }

    /// The store as the shell starts with it.
    pub open spec fn seeded(pwd: Seq<char>, home: Seq<char>, version: Seq<char>, pid: u32) -> Store {
        let v0 = Seq::<(Seq<char>, VariableView)>::empty();
        let v1 = put(v0, "PS1"@, VariableView::plain(Value::PlainString("$ "@)));
        let v2 = put(v1, "IFS"@, VariableView::plain(Value::PlainString(" \\t\\n"@)));
        let v3 = put(
            v2,
            "PATH"@,
            VariableView::plain(Value::PlainString("/usr/sbin:/usr/bin:/sbin:/bin"@)),
        );
        let v4 = put(v3, "?"@, VariableView::of_status(0));
        let v5 = put(v4, "PWD"@, VariableView::plain(Value::PlainString(pwd)));
        let v6 = put(v5, "OLDPWD"@, VariableView::plain(Value::PlainString(pwd)));
        let v7 = put(v6, "HOME"@, VariableView::plain(Value::PlainString(home)));
        let v8 = put(v7, "ELVI_VERSION"@, VariableView::plain(Value::PlainString(version)));
        Store { vars: v8, params: Seq::empty(), pid }
    }
}

/// The store of the shell's variables.
#[derive(Debug)]
pub struct Variables {
    /// The named variables.
    vars: Table<Variable>,
    /// The positional parameters.
    params: Vec<Variable>,
    /// The process id of the shell.
    pid: u32,
}

impl View for Variables {
    type V = Store;

    closed spec fn view(&self) -> Store {
        Store { vars: self.vars.entries(), params: variable_views(self.params@), pid: self.pid }
    }
}

/// The variable `$?` for a status.
fn status_variable(code: u16) -> (r: Variable)
    ensures
        r@ == VariableView::of_status(code),
{
    Variable {
        contents: ElviType::ErrExitCode(code),
        modification_status: ElviMutable::ReadonlyUnsettable,
        shell_lvl: ElviGlobal::Global,
        line: (0, 0),
    }
}

/// A writable, exported variable that holds a copy of a text.
fn text_variable(text: &str) -> (r: Variable)
    ensures
        r@ == VariableView::plain(Value::PlainString(text@)),
{
    Variable::of(ElviType::String(String::from_str(text)))
}

impl Variables {
    /// The store as the shell starts with it: prompt, field separators,
    /// search path, last status, working directory (twice), home directory
    /// and version, and no positional parameters.
    pub fn new(pwd: &str, home: &str, version: &str, pid: u32) -> (r: Self)
        ensures
            r@ == Store::seeded(pwd@, home@, version@, pid),
            r@.wf(),
    {
        let mut vars: Table<Variable> = Table::new();
        vars.insert(String::from_str("PS1"), text_variable("$ "));
        vars.insert(String::from_str("IFS"), text_variable(" \\t\\n"));
        vars.insert(String::from_str("PATH"), text_variable("/usr/sbin:/usr/bin:/sbin:/bin"));
        let ghost v3 = vars.entries();
        vars.insert(String::from_str("?"), status_variable(0));
        let ghost v4 = vars.entries();
        vars.insert(String::from_str("PWD"), text_variable(pwd));
        let ghost v5 = vars.entries();
        vars.insert(String::from_str("OLDPWD"), text_variable(pwd));
        let ghost v6 = vars.entries();
        vars.insert(String::from_str("HOME"), text_variable(home));
        let ghost v7 = vars.entries();
        vars.insert(String::from_str("ELVI_VERSION"), text_variable(version));
        proof {
            reveal_strlit("?");
            reveal_strlit("PWD");
            reveal_strlit("OLDPWD");
            reveal_strlit("HOME");
            reveal_strlit("ELVI_VERSION");
            assert("?"@ =~= status_name());
            lemma_put(v3, "?"@, VariableView::of_status(0), "?"@);
            lemma_put(v4, "PWD"@, VariableView::plain(Value::PlainString(pwd@)), "?"@);
            lemma_put(v5, "OLDPWD"@, VariableView::plain(Value::PlainString(pwd@)), "?"@);
            lemma_put(v6, "HOME"@, VariableView::plain(Value::PlainString(home@)), "?"@);
            lemma_put(v7, "ELVI_VERSION"@, VariableView::plain(Value::PlainString(version@)), "?"@);
        }
        let params: Vec<Variable> = Vec::new();
        assert(variable_views(params@) =~= Seq::empty());
        Variables { vars, params, pid }
    }

    /// Whether the store keeps what every store is to keep. A store that
    /// was made by `new` and changed by the functions of this crate does.
    pub fn well_formed(&self) -> (r: bool)
        ensures
            r == self@.wf(),
    {
        proof {
            reveal_strlit("?");
            assert("?"@ =~= status_name());
        }
        match self.vars.get("?") {
            Some(v) => {
                let holds_status = match v.contents {
                    ElviType::ErrExitCode(_) => true,
                    _ => false,
                };
                let fixed = match v.modification_status {
                    ElviMutable::ReadonlyUnsettable => true,
                    _ => false,
                };
                let exported = match v.shell_lvl {
                    ElviGlobal::Global => true,
                    _ => false,
                };
                holds_status && fixed && exported
            },
            None => false,
        }
    }

    /// The variable that `var` stands for: a name that writes a number is
    /// the positional parameter of that number, any other name is a named
    /// variable.
    pub fn get_variable(&self, var: &str) -> (r: Option<&Variable>)
        ensures
            match r {
                Some(v) => self@.get(var@) == Some(v@),
                None => self@.get(var@) is None,
            },
    {
        match parse_bounded(var, usize::MAX as u64) {
            Some(pos) => {
                if pos < self.params.len() as u64 {
                    Some(&self.params[pos as usize])
                } else {
                    None
                }
            },
            None => self.vars.get(var),
        }
    }

    /// What the variable that `name` stands for holds, written out; nothing
    /// where there is no such variable.
    pub fn text_of(&self, name: &str) -> (r: String)
        ensures
            r@ == self@.text_of(name@),
    {
        match self.get_variable(name) {
            Some(v) => v.contents.to_string(),
            None => String::new(),
        }
    }

    /// The exported variables, each as its name and its value written out.
    pub fn get_environmentals(&self) -> (r: Vec<(String, String)>)
        ensures
            text_pairs(r@) == self@.environment(),
    {
        let mut out: Vec<(String, String)> = Vec::new();
        let n = self.vars.len();
        let mut i: usize = 0;
        while i < n
            invariant
                i <= n,
                n == self.vars.entries().len(),
                out@.len() == exported(self.vars.entries().subrange(0, i as int)).len(),
                forall|j: int|
                    0 <= j < out@.len() ==> (#[trigger] out@[j]).0@ == exported(
                        self.vars.entries().subrange(0, i as int),
                    )[j].0 && out@[j].1@ == exported(self.vars.entries().subrange(0, i as int))[j].1,
            decreases n - i,
        {
            let ghost next = self.vars.entries().subrange(0, i + 1);
            assert(next.drop_last() =~= self.vars.entries().subrange(0, i as int));
            let value = self.vars.value_at(i);
            if value.shell_lvl == ElviGlobal::Global {
                out.push((self.vars.name_at(i).clone(), value.contents.to_string()));
            }
            i = i + 1;
        }
        assert(self.vars.entries().subrange(0, i as int) =~= self.vars.entries());
        out
    }

    /// Remove a named variable, whatever it is; `Some` says that there was
    /// one. The variable `?` is not to be removed.
    pub fn unset(&mut self, var: &str) -> (r: Option<()>)
        requires
            old(self)@.wf(),
            var@ != status_name(),
        ensures
            final(self)@ == old(self)@.unset(var@),
            final(self)@.wf(),
            r is Some == old(self)@.named(var@) is Some,
    {
        proof {
            lemma_without(self.vars.entries(), var@, status_name());
        }
        match self.vars.remove(var) {
            Some(_) => Some(()),
            None => None,
        }
    }

    /// Write the last status.
    pub fn set_ret(&mut self, code: ReturnCode)
        requires
            old(self)@.wf(),
        ensures
            final(self)@ == old(self)@.with_status(code@),
            final(self)@.wf(),
            final(self)@.status() == code@,
    {
        proof {
            lemma_put(
                self.vars.entries(),
                status_name(),
                VariableView::of_status(code@),
                status_name(),
            );
            reveal_strlit("?");
            assert("?"@ =~= status_name());
        }
        self.vars.insert(String::from_str("?"), status_variable(code.get()));
    }

    /// Read the last status.
    pub fn get_ret(&self) -> (r: ElviType)
        requires
            self@.wf(),
        ensures
            r@ == Value::ExitStatus(self@.status()),
    {
        proof {
            reveal_strlit("?");
            assert("?"@ =~= status_name());
        }
        match self.vars.get("?") {
            Some(v) => v.contents.clone(),
            None => vstd::pervasive::unreached(),
        }
    }

    /// Set a named variable. A variable that exists and may not be written
    /// stays as it is, and the error tells where it was declared; else the
    /// last status becomes success and the name holds `var`.
    pub fn set_variable(&mut self, name: &str, var: Variable) -> (r: Result<(), VariableError>)
        requires
            old(self)@.wf(),
        ensures
            final(self)@ == old(self)@.set(name@, var@),
            final(self)@.wf(),
            match r {
                Ok(()) => !old(self)@.protects(name@),
                Err(e) => old(self)@.protects(name@) && (e matches VariableError::Readonly {
                    name: n,
                    lines,
                } && n@ == name@ && Some(lines) == match old(self)@.named(name@) {
                    Some(v) => Some(v.line),
                    None => None,
                }),
            },
    {
        let found = match self.vars.get(name) {
            Some(value) => match value.modification_status {
                ElviMutable::Normal => None,
                _ => Some(value.line),
            },
            None => None,
        };
        match found {
            Some(lines) => Err(VariableError::Readonly { name: String::from_str(name), lines }),
            None => {
                proof {
                    lemma_put(
                        self.vars.entries(),
                        status_name(),
                        VariableView::of_status(0),
                        name@,
                    );
                    lemma_put(self@.with_status(0).vars, name@, var@, status_name());
                }
                self.set_ret(ReturnCode::ret(ReturnCode::SUCCESS));
                self.vars.insert(String::from_str(name), var);
                Ok(())
            },
        }
    }

    /// Replace the positional parameters.
    pub fn new_parameters(&mut self, params: Vec<Variable>)
        ensures
            final(self)@ == (Store { params: variable_views(params@), ..old(self)@ }),
    {
        self.params = params;
    }

    /// A copy of the positional parameters.
    pub fn pull_parameters(&self) -> (r: Vec<Variable>)
        ensures
            variable_views(r@) == self@.params,
    {
        let mut out: Vec<Variable> = Vec::new();
        let mut i: usize = 0;
        while i < self.params.len()
            invariant
                i <= self.params.len(),
                out@ == self.params@.subrange(0, i as int),
            decreases self.params.len() - i,
        {
            out.push(self.params[i].clone());
            i = i + 1;
        }
        out
    }

    /// The number of positional parameters, the name in front counted.
    pub fn len_parameters(&self) -> (r: usize)
        ensures
            r == self@.params.len(),
    {
        self.params.len()
    }

    /// Drop the first `n` arguments; the name in front stays.
    pub fn drop_arguments(&mut self, n: usize)
        requires
            n < old(self)@.params.len() || n == 0,
        ensures
            final(self)@ == old(self)@.shifted(n as nat),
    {
        if n == 0 {
            proof {
                if old(self).params@.len() > 0 {
                    assert(variable_views(self.params@) =~= old(self)@.shifted(0).params);
                }
            }
            return ;
        }
        let mut k: usize = 0;
        while k < n
            invariant
                k <= n,
                n < old(self).params@.len(),
                self.vars == old(self).vars,
                self.pid == old(self).pid,
                self.params@.len() == old(self).params@.len() - k,
                self.params@ == seq![old(self).params@[0]] + old(self).params@.subrange(
                    k + 1,
                    old(self).params@.len() as int,
                ),
            decreases n - k,
        {
            let _ = self.params.remove(1);
            k = k + 1;
        }
        proof {
            if old(self).params@.len() > 0 {
                assert(variable_views(self.params@) =~= old(self)@.shifted(n as nat).params);
            } else {
            }
        }
    }

    /// A copy of the store.
    pub fn copy(&self) -> (r: Self)
        ensures
            r@ == self@,
    {
        let mut vars: Table<Variable> = Table::new();
        let n = self.vars.len();
        let mut i: usize = 0;
        while i < n
            invariant
                i <= n,
                n == self.vars.entries().len(),
                distinct_names(self.vars.entries()),
                vars.entries() == self.vars.entries().subrange(0, i as int),
            decreases n - i,
        {
            proof {
                if has_name(vars.entries(), self.vars.entries()[i as int].0) {
                    let j = super::table::slot_of(vars.entries(), self.vars.entries()[i as int].0);
                    assert(self.vars.entries()[j].0 == self.vars.entries()[i as int].0);
                }
            }
            vars.append_new(self.vars.name_at(i).clone(), self.vars.value_at(i).clone());
            i = i + 1;
        }
        assert(self.vars.entries().subrange(0, n as int) =~= self.vars.entries());
        let params = self.pull_parameters();
        Variables { vars, params, pid: self.pid }
    }

    /// Remove the variables that a sweep is after.
    pub fn sweep(&mut self, which: Sweep)
        requires
            old(self)@.wf(),
        ensures
            final(self)@ == old(self)@.swept(which),
            final(self)@.wf(),
    {
        let ghost keep = |v: VariableView| which.keeps(v);
        let ghost all = self.vars.entries();
        let mut vars: Table<Variable> = Table::new();
        let n = self.vars.len();
        let mut i: usize = 0;
        while i < n
            invariant
                i <= n,
                n == all.len(),
                all == self.vars.entries(),
                distinct_names(all),
                keep == (|v: VariableView| which.keeps(v)),
                vars.entries() == kept(all.subrange(0, i as int), keep),
            decreases n - i,
        {
            let ghost next = all.subrange(0, i + 1);
            assert(next.drop_last() =~= all.subrange(0, i as int));
            let value = self.vars.value_at(i);
            let stays = match which {
                Sweep::Above(level) => match value.shell_lvl {
                    ElviGlobal::Normal(l) => l <= level,
                    _ => true,
                },
                Sweep::Locals => match value.shell_lvl {
                    ElviGlobal::Local => false,
                    _ => true,
                },
            };
            if stays {
                proof {
                    if has_name(vars.entries(), all[i as int].0) {
                        lemma_kept_names(all.subrange(0, i as int), keep, all[i as int].0);
                        let j = super::table::slot_of(all.subrange(0, i as int), all[i as int].0);
                    }
                }
                vars.append_new(self.vars.name_at(i).clone(), value.clone());
            }
            i = i + 1;
        }
        proof {
            assert(all.subrange(0, n as int) =~= all);
            lemma_kept(all, keep, status_name());
        }
        self.vars = vars;
    }

    /// Let the arguments of a function that is called take the place of the
    /// positional parameters, and hand back the parameters as they were.
    pub fn call_arguments(&mut self, name: &str, args: &Vec<String>) -> (r: Vec<Variable>)
        ensures
            final(self)@ == old(self)@.called(name@, texts(args@)),
            variable_views(r@) == old(self)@.params,
    {
        let mut fresh: Vec<Variable> = Vec::new();
        if self.params.len() > 0 {
            fresh.push(self.params[0].clone());
        } else {
            fresh.push(text_variable(name));
        }
        let mut i: usize = 0;
        while i < args.len()
            invariant
                i <= args.len(),
                fresh@.len() == i + 1,
                variable_views(fresh@)[0] == old(self)@.called(name@, texts(args@)).params[0],
                forall|j: int|
                    0 <= j < i ==> (#[trigger] fresh@[j + 1])@ == VariableView::plain(
                        Value::PlainString(args@[j]@),
                    ),
            decreases args.len() - i,
        {
            fresh.push(text_variable(args[i].as_str()));
            i = i + 1;
        }
        proof {
            let want = old(self)@.called(name@, texts(args@)).params;
            assert forall|k: int| 0 <= k < fresh@.len() implies variable_views(fresh@)[k]
                == want[k] by {
                if k > 0 {
                    assert(fresh@[(k - 1) + 1]@ == VariableView::plain(
                        Value::PlainString(args@[k - 1]@),
                    ));
                }
            }
            assert(variable_views(fresh@) =~= want);
        }
        core::mem::swap(&mut fresh, &mut self.params);
        fresh
    }

    /// The process id of the shell.
    pub fn pid(&self) -> (r: u32)
        ensures
            r == self@.pid,
    {
        self.pid
    }
}

/// A variable that may not be written stays as it is: setting it changes
/// nothing in the store, whatever the new value.
pub proof fn lemma_readonly_is_kept(s: Store, name: Seq<char>, v: VariableView)
    requires
        s.wf(),
        s.named(name) matches Some(x) && x.modification_status == ElviMutable::Readonly,
    ensures
        s.protects(name),
        s.set(name, v) == s,
        s.set(name, v).named(name) == s.named(name),
{
}

/// Once a name has been set to a variable that may not be written, every
/// later setting of that name is refused and leaves the variable as it was
/// declared.
pub proof fn lemma_readonly_after_set(
    s: Store,
    name: Seq<char>,
    first: VariableView,
    later: VariableView,
)
    requires
        s.wf(),
        !s.protects(name),
        first.modification_status == ElviMutable::Readonly,
    ensures
        s.set(name, first).protects(name),
        s.set(name, first).named(name) == Some(first),
        s.set(name, first).set(name, later) == s.set(name, first),
{
    lemma_put(s.with_status(0).vars, name, first, name);
}

/// Removing a name that the store does not hold changes nothing.
pub proof fn lemma_unset_missing(s: Store, name: Seq<char>)
    requires
        s.wf(),
        s.named(name) is None,
    ensures
        s.unset(name) == s,
{
}

/// Setting a name that is not protected makes the last status success and
/// lets the name hold the new variable; every other name but `?` is as it
/// was.
pub proof fn lemma_set_reads(s: Store, name: Seq<char>, v: VariableView, other: Seq<char>)
    requires
        s.wf(),
        !s.protects(name),
    ensures
        s.set(name, v).named(name) == Some(v),
        s.set(name, v).wf(),
        s.set(name, v).status() == 0,
        other != name && other != status_name() ==> s.set(name, v).named(other) == s.named(other),
{
    lemma_put(s.vars, status_name(), VariableView::of_status(0), other);
    lemma_put(s.vars, status_name(), VariableView::of_status(0), name);
    lemma_put(s.with_status(0).vars, name, v, other);
    lemma_put(s.with_status(0).vars, name, v, status_name());
}

} // verus!
