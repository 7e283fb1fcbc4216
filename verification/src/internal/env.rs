//! The state of the shell besides its variables and commands: how deep it is
//! nested, whether a function runs, and what it has written.
use super::commands::HowRun;
use super::errors::readonly_message;
use super::variables::{ElviType, Store, Value, Variable, VariableView, Variables};
use vstd::prelude::*;
use vstd::string::*;

verus! {

/// One of the two streams that the shell writes to.
#[derive(Debug, Copy, Clone, PartialEq, Eq, Structural)]
pub enum Std {
    /// Standard output.
    Out,
    /// Standard error.
    Error,
}

/// A text that waits to be written to a stream.
#[derive(Debug)]
pub struct Written {
    /// The stream.
    pub to: Std,
    /// The text.
    pub text: String,
}

/// The state of the shell besides its variables and commands.
#[derive(Debug)]
pub struct Env {
    /// Whether a function runs.
    pub in_function: bool,
    /// How deep the shell is nested; the shell itself is level 1.
    pub subshells_in: u32,
    /// Standard output that was kept back for a substitution or a pipe.
    pub stdout: String,
    /// Standard error that was kept back for a substitution or a pipe.
    pub stderr: String,
    /// What is to be written at once, in order. Whoever drives the shell
    /// writes it out and empties the list.
    pub written: Vec<Written>,
}

/// What an `Env` holds, with texts as sequences of characters.
pub struct EnvView {
    /// Whether a function runs.
    pub in_function: bool,
    /// How deep the shell is nested.
    pub level: u32,
    /// Standard output that was kept back.
    pub stdout: Seq<char>,
    /// Standard error that was kept back.
    pub stderr: Seq<char>,
    /// What is to be written at once, in order.
    pub written: Seq<(Std, Seq<char>)>,
}

impl View for Env {
    type V = EnvView;

    open spec fn view(&self) -> EnvView {
        EnvView {
            in_function: self.in_function,
            level: self.subshells_in,
            stdout: self.stdout@,
            stderr: self.stderr@,
            written: self.written@.map_values(|w: Written| (w.to, w.text@)),
        }
    }
}

impl EnvView {
    /// The state after `text` went to a stream: written at once in real
    /// time, kept back otherwise.
    pub open spec fn print(self, whereto: Std, how: HowRun, text: Seq<char>) -> EnvView {
        match how {
            HowRun::RealTime => EnvView { written: self.written.push((whereto, text)), ..self },
            _ => match whereto {
                Std::Out => EnvView { stdout: self.stdout + text, ..self },
                Std::Error => EnvView { stderr: self.stderr + text, ..self },
            },
        }
    }

    /// The state after a line went to standard output at once.
    pub open spec fn say(self, line: Seq<char>) -> EnvView {
        self.print(Std::Out, HowRun::RealTime, line + seq!['\n'])
    }

    /// The state after a line went to standard error at once.
    pub open spec fn complain(self, line: Seq<char>) -> EnvView {
        self.print(Std::Error, HowRun::RealTime, line + seq!['\n'])
    }

    /// The nesting level moved by `by_count`, kept within the range of the
    /// level.
    pub open spec fn moved(level: u32, by_count: i8) -> u32 {
        if level + by_count < 0 {
            0
        } else if level + by_count > u32::MAX {
            u32::MAX
        } else {
            (level + by_count) as u32
        }
    }
}

impl Default for Env {
    /// The state of a shell that has just started: level 1, no function,
    /// nothing written.
    fn default() -> (r: Self)
        ensures
            r@ == (EnvView {
                in_function: false,
                level: 1,
                stdout: Seq::empty(),
                stderr: Seq::empty(),
                written: Seq::empty(),
            }),
    {
        let r = Env {
            in_function: false,
            subshells_in: 1,
            stdout: String::new(),
            stderr: String::new(),
            written: Vec::new(),
        };
        assert(r@.written =~= Seq::empty());
        r
    }
}

impl Env {
    /// Note whether a function runs.
    pub fn set_function(&mut self, in_function: bool)
        ensures
            final(self)@ == (EnvView { in_function, ..old(self)@ }),
    {
        self.in_function = in_function;
    }

    /// Move the nesting level by `by_count`, within the range of the level,
    /// and set `SHLVL` to the new level as far as it may be written.
    pub fn update_shlvl(&mut self, by_count: i8, vars: &mut Variables) -> (r: u32)
        requires
            old(vars)@.wf(),
        ensures
            r == EnvView::moved(old(self)@.level, by_count),
            final(self)@ == (EnvView { level: r, ..old(self)@ }),
            final(vars)@ == old(vars)@.set(
                "SHLVL"@,
                VariableView::plain(Value::Number(r as usize)),
            ),
            final(vars)@.wf(),
    {
        if by_count > 0 {
            self.subshells_in = self.subshells_in.saturating_add(by_count as u32);
        } else {
            let down: u32 = (-(by_count as i32)) as u32;
            self.subshells_in = self.subshells_in.saturating_sub(down);
        }
        let level = self.subshells_in;
        let _ = vars.set_variable("SHLVL", Variable::of(ElviType::Number(level as usize)));
        level
    }

    /// Whether a function runs.
    pub fn in_function(&self) -> (r: bool)
        ensures
            r == self@.in_function,
    {
        self.in_function
    }

    /// Send a text to a stream: in real time it is queued to be written at
    /// once, otherwise it is kept back.
    pub fn print(&mut self, whereto: &Std, how: &HowRun, text: &str)
        ensures
            final(self)@ == old(self)@.print(*whereto, *how, text@),
    {
        match how {
            HowRun::RealTime => {
                self.written.push(Written { to: *whereto, text: String::from_str(text) });
                assert(self@.written =~= old(self)@.written.push((*whereto, text@)));
            },
            _ => match whereto {
                Std::Out => {
                    self.stdout.append(text);
                },
                Std::Error => {
                    self.stderr.append(text);
                },
            },
        }
    }

    /// Write a line to standard output at once.
    pub fn say(&mut self, line: &str)
        ensures
            final(self)@ == old(self)@.say(line@),
    {
        let mut text = String::from_str(line);
        text.append("\n");
        proof {
            reveal_strlit("\n");
            assert(text@ =~= line@ + seq!['\n']);
        }
        self.print(&Std::Out, &HowRun::RealTime, text.as_str());
    }

    /// Write a line to standard error at once.
    pub fn complain(&mut self, line: &str)
        ensures
            final(self)@ == old(self)@.complain(line@),
    {
        let mut text = String::from_str(line);
        text.append("\n");
        proof {
            reveal_strlit("\n");
            assert(text@ =~= line@ + seq!['\n']);
        }
        self.print(&Std::Error, &HowRun::RealTime, text.as_str());
    }

    /// Hand over what is to be written at once, and empty the list.
    pub fn take_written(&mut self) -> (r: Vec<Written>)
        ensures
            r@.map_values(|w: Written| (w.to, w.text@)) == old(self)@.written,
            final(self)@ == (EnvView { written: Seq::empty(), ..old(self)@ }),
    {
        let mut out: Vec<Written> = Vec::new();
        core::mem::swap(&mut out, &mut self.written);
        assert(self@.written =~= Seq::empty());
        out
    }
}

impl EnvView {
    /// What is written after `name` was to be set in `store`: a complaint
    /// where the name is protected, nothing more otherwise.
    pub open spec fn noted(self, store: Store, name: Seq<char>) -> EnvView {
        match store.named(name) {
            Some(v) => if v.writable() {
                self
            } else {
                self.complain(readonly_message(name, v.line))
            },
            None => self,
        }
    }
}

/// Set a variable, and complain where it may not be written. The script
/// goes on either way.
pub fn assign(variables: &mut Variables, env: &mut Env, name: &str, var: Variable) -> (r: bool)
    requires
        old(variables)@.wf(),
    ensures
        final(variables)@ == old(variables)@.set(name@, var@),
        final(variables)@.wf(),
        final(env)@ == old(env)@.noted(old(variables)@, name@),
        r == !old(variables)@.protects(name@),
{
    match variables.set_variable(name, var) {
        Ok(()) => true,
        Err(e) => {
            env.complain(e.to_string().as_str());
            false
        },
    }
}

} // verus!
