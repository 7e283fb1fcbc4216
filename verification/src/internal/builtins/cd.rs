//! The `cd` builtin.
use super::options::{
    expand_arguments, expands_to, getopts_parse, help_flags, help_only, list_of, options_view,
    parse_options, print_usage, Options, Parsed,
};
use crate::internal::env::{assign, Env, EnvView};
use crate::internal::errors::{CommandError, ElviError};
use crate::internal::status::ReturnCode;
use crate::internal::text::same_text;
use crate::internal::variables::{ElviType, Store, Value, Variable, VariableView, Variables};
use crate::internal::world::{FileFacts, FileKind};
use vstd::prelude::*;
use vstd::string::*;

verus! {

/// Which of its three forms `cd` takes.
#[derive(Debug, Clone, Copy, PartialEq, Eq, Structural)]
pub enum CdForm {
    /// `cd`: to the home directory.
    Home,
    /// `cd -`: back to the directory before.
    Back,
    /// `cd path`: to the path.
    Path,
}

/// What `cd` has decided before anything is known of the directory.
#[derive(Debug)]
pub enum CdPlan {
    /// It is done, with this status.
    Done(ReturnCode),
    /// It wants to enter `path`; what is known of `path` decides.
    Enter { path: String, form: CdForm },
}

/// What `cd` has decided, as plain values.
pub enum CdPlanView {
    /// It is done, with this status.
    Done(u16),
    /// It wants to enter `path`.
    Enter { path: Seq<char>, form: CdForm },
}

impl View for CdPlan {
    type V = CdPlanView;

    open spec fn view(&self) -> CdPlanView {
        match self {
            CdPlan::Done(code) => CdPlanView::Done(code@),
            CdPlan::Enter { path, form } => CdPlanView::Enter { path: path@, form: *form },
        }
    }
}

/// What `cd` decides: refused options are misuse, `-h` gives the usage
/// text; without an argument it wants to enter what `HOME` holds, with `-`
/// what `OLDPWD` holds, and with any other argument that argument.
pub open spec fn cd_plan(options: Options, store: Store) -> CdPlanView {
    match options {
        Options::Refused(_) => CdPlanView::Done(2),
        Options::Read { present, free } => if present[0] {
            CdPlanView::Done(0)
        } else if free.len() == 0 {
            CdPlanView::Enter { path: store.text_of("HOME"@), form: CdForm::Home }
        } else if free[0] == seq!['-'] {
            CdPlanView::Enter { path: store.text_of("OLDPWD"@), form: CdForm::Back }
        } else {
            CdPlanView::Enter { path: free[0], form: CdForm::Path }
        },
    }
}

/// What `cd` leaves written while it decides.
pub open spec fn cd_plan_env(options: Options, env: EnvView) -> EnvView {
    match options {
        Options::Refused(reason) => env.complain(reason),
        Options::Read { present, free } => if present[0] {
            env.usage(help_flags(), "Usage: cd PATH"@)
        } else {
            env
        },
    }
}

/// `cd`, once its options were read: the plan.
pub fn cd_with(options: Result<Parsed, String>, variables: &Variables, env: &mut Env) -> (r: CdPlan)
    requires
        options matches Ok(p) ==> p.present@.len() == 1,
    ensures
        r@ == cd_plan(options_view(options), variables@),
        final(env)@ == cd_plan_env(options_view(options), old(env)@),
{
    match options {
        Err(reason) => {
            env.complain(reason.as_str());
            CdPlan::Done(ReturnCode::ret(ReturnCode::MISUSE))
        },
        Ok(parsed) => {
            if parsed.present[0] {
                print_usage(&help_only(), "Usage: cd PATH", env);
                return CdPlan::Done(ReturnCode::ret(ReturnCode::SUCCESS));
            }
            if parsed.free.len() == 0 {
                return CdPlan::Enter { path: variables.text_of("HOME"), form: CdForm::Home };
            }
            proof {
                reveal_strlit("-");
                assert("-"@ =~= seq!['-']);
            }
            if same_text(parsed.free[0].as_str(), "-") {
                CdPlan::Enter { path: variables.text_of("OLDPWD"), form: CdForm::Back }
            } else {
                CdPlan::Enter { path: parsed.free[0].clone(), form: CdForm::Path }
            }
        },
    }
}

/// The `cd` builtin, as far as it goes before anything is known of the
/// directory: expand the arguments, read the options, and decide which
/// directory is to be entered.
pub fn builtin_cd(args: Option<&[ElviType]>, variables: &Variables, env: &mut Env) -> (r: CdPlan)
    ensures
        exists|words: Seq<Seq<char>>|
            {
                &&& expands_to(list_of(args), variables@, words)
                &&& r@ == cd_plan(#[trigger] getopts_parse(help_flags(), words), variables@)
                &&& final(env)@ == cd_plan_env(getopts_parse(help_flags(), words), old(env)@)
            },
{
    let words = expand_arguments(args, variables);
    let options = parse_options(&help_only(), &words);
    let r = cd_with(options, variables, env);
    r
}

/// Whether a directory can be entered: it exists and is a directory.
pub open spec fn enterable(facts: FileFacts) -> bool {
    facts.exists && facts.kind == FileKind::Directory
}

/// The line that tells that a directory cannot be entered.
pub open spec fn cannot_cd(path: Seq<char>) -> Seq<char> {
    "elvi: "@ + "cd"@ + ": can't cd to "@ + path
}

/// The variable that `PWD` is to hold after `cd`: what `HOME` or `OLDPWD`
/// is for the forms that go there, and else, or where that variable is
/// missing, a plain variable that holds the path.
pub open spec fn cd_target(form: CdForm, path: Seq<char>, store: Store) -> VariableView {
    let source = match form {
        CdForm::Home => store.get("HOME"@),
        CdForm::Back => store.get("OLDPWD"@),
        CdForm::Path => None,
    };
    match source {
        Some(v) => v,
        None => VariableView::plain(Value::PlainString(path)),
    }
}

/// The store after a directory was entered. To go home or to a path lets
/// `OLDPWD` be what `PWD` was and then sets `PWD`; to go back sets `PWD`
/// first and then lets `OLDPWD` be what `PWD` was.
pub open spec fn cd_store(form: CdForm, path: Seq<char>, store: Store) -> Store {
    let target = cd_target(form, path, store);
    match store.get("PWD"@) {
        Some(was) => match form {
            CdForm::Back => store.set("PWD"@, target).set("OLDPWD"@, was),
            _ => store.set("OLDPWD"@, was).set("PWD"@, target),
        },
        None => store.set("PWD"@, target),
    }
}

/// What is written after a directory was entered: a complaint for each of
/// the two variables that may not be written, and for the form that goes
/// back the new working directory on a line.
pub open spec fn cd_env(form: CdForm, path: Seq<char>, store: Store, env: EnvView) -> EnvView {
    let target = cd_target(form, path, store);
    match store.get("PWD"@) {
        Some(was) => match form {
            CdForm::Back => {
                let first = store.set("PWD"@, target);
                env.noted(store, "PWD"@).say(first.text_of("PWD"@)).noted(first, "OLDPWD"@)
            },
            _ => env.noted(store, "OLDPWD"@).noted(store.set("OLDPWD"@, was), "PWD"@),
        },
        None => match form {
            CdForm::Back => env.noted(store, "PWD"@).say(store.set("PWD"@, target).text_of("PWD"@)),
            _ => env.noted(store, "PWD"@),
        },
    }
}

/// A copy of the variable that a name stands for.
fn copy_of(variables: &Variables, name: &str) -> (r: Option<Variable>)
    ensures
        match r {
            Some(v) => variables@.get(name@) == Some(v@),
            None => variables@.get(name@) is None,
        },
{
    match variables.get_variable(name) {
        Some(v) => Some(v.clone()),
        None => None,
    }
}

/// Enter the directory that `cd` decided on, given what is known of it.
/// A path that is no directory is a misuse that changes nothing; else the
/// two variables are set and the status is success, which tells whoever
/// drives the shell to change the working directory to `path`.
pub fn enter_directory(
    path: &str,
    form: CdForm,
    facts: &FileFacts,
    variables: &mut Variables,
    env: &mut Env,
) -> (r: ReturnCode)
    requires
        old(variables)@.wf(),
    ensures
        final(variables)@.wf(),
        !enterable(*facts) ==> r@ == 2 && final(variables)@ == old(variables)@ && final(env)@ == old(
            env,
        )@.complain(cannot_cd(path@)),
        enterable(*facts) ==> r@ == 0 && final(variables)@ == cd_store(
            form,
            path@,
            old(variables)@,
        ) && final(env)@ == cd_env(form, path@, old(variables)@, old(env)@),
{
    if !(facts.exists && facts.kind == FileKind::Directory) {
        let err = CommandError::CannotCd {
            name: String::from_str("cd"),
            path: String::from_str(path),
        };
        env.complain(err.to_string().as_str());
        return err.ret();
    }
    let source = match form {
        CdForm::Home => copy_of(variables, "HOME"),
        CdForm::Back => copy_of(variables, "OLDPWD"),
        CdForm::Path => None,
    };
    let target = match source {
        Some(v) => v,
        None => Variable::of(ElviType::String(String::from_str(path))),
    };
    let was = copy_of(variables, "PWD");
    match form {
        CdForm::Back => {
            let _ = assign(variables, env, "PWD", target);
            env.say(variables.text_of("PWD").as_str());
            match was {
                Some(v) => {
                    let _ = assign(variables, env, "OLDPWD", v);
                },
                None => {},
            }
        },
        _ => {
            match was {
                Some(v) => {
                    let _ = assign(variables, env, "OLDPWD", v);
                },
                None => {},
            }
            let _ = assign(variables, env, "PWD", target);
        },
    }
    ReturnCode::ret(ReturnCode::SUCCESS)
}

} // verus!
