use elvi::internal::builtins::cd::{builtin_cd, enter_directory, CdForm, CdPlan};
use elvi::internal::builtins::dbg::builtin_dbg;
use elvi::internal::builtins::echo::builtin_echo;
use elvi::internal::builtins::exit::builtin_exit;
use elvi::internal::builtins::hash::{builtin_hash, Hashed};
use elvi::internal::builtins::shift::builtin_shift;
use elvi::internal::builtins::unset::builtin_unset;
use elvi::internal::commands::{Commands, HowRun};
use elvi::internal::env::{Env, Std};
use elvi::internal::status::{ReturnCode, Verdict};
use elvi::internal::tree::Function;
use elvi::internal::variables::{ElviGlobal, ElviMutable, ElviType, Variable, Variables};
use elvi::internal::world::{FileFacts, FileKind, FoundFile};

fn store() -> Variables {
    let mut v = Variables::new("/work", "/home/me", "1.2.3", 4242);
    v.new_parameters(
        ["script", "one", "two", "three"].iter().map(|s| Variable::from(s.to_string())).collect(),
    );
    v
}

fn text(s: &str) -> ElviType {
    ElviType::String(s.to_string())
}

fn word(s: &str) -> ElviType {
    ElviType::BareString(s.to_string())
}

fn bare(list: &[&str]) -> Vec<ElviType> {
    list.iter().map(|s| word(s)).collect()
}

fn out(env: &Env) -> String {
    env.written.iter().filter(|w| w.to == Std::Out).map(|w| w.text.as_str()).collect()
}

fn err(env: &Env) -> String {
    env.written.iter().filter(|w| w.to == Std::Error).map(|w| w.text.as_str()).collect()
}

fn readonly(s: &str) -> Variable {
    Variable {
        contents: text(s),
        modification_status: ElviMutable::Readonly,
        shell_lvl: ElviGlobal::Global,
        line: (4, 2),
    }
}

fn directory() -> FileFacts {
    FileFacts { exists: true, kind: FileKind::Directory, mode: 0o755, ..FileFacts::missing() }
}

#[test]
fn echo_joins_with_single_spaces() {
    let v = store();
    let mut env = Env::default();
    let r = builtin_echo(Some(&bare(&["foo", "bar", "baz"])), &v, &mut env);
    assert_eq!(r.get(), 0);
    assert_eq!(out(&env), "foo bar baz\n");
}

#[test]
fn echo_n_then_echo() {
    let v = store();
    let mut env = Env::default();
    assert_eq!(builtin_echo(Some(&bare(&["-n", "foo"])), &v, &mut env).get(), 0);
    assert_eq!(out(&env), "foo");
    assert_eq!(builtin_echo(Some(&bare(&["bar"])), &v, &mut env).get(), 0);
    assert_eq!(out(&env), "foobar\n");
}

#[test]
fn echo_without_arguments_is_a_newline() {
    let v = store();
    let mut env = Env::default();
    assert_eq!(builtin_echo(None, &v, &mut env).get(), 0);
    assert_eq!(out(&env), "\n");
    let mut quiet = Env::default();
    assert_eq!(builtin_echo(Some(&bare(&["-n"])), &v, &mut quiet).get(), 0);
    assert_eq!(out(&quiet), "");
}

#[test]
fn echo_expands_its_arguments() {
    let mut v = store();
    assert!(v.set_variable("x", Variable::of(text("val"))).is_ok());
    let mut env = Env::default();
    let args = vec![
        ElviType::VariableSubstitution("a\\tb $x".into()),
        word("~/d"),
        text("$x"),
    ];
    assert_eq!(builtin_echo(Some(&args), &v, &mut env).get(), 0);
    assert_eq!(out(&env), "a\tb val /home/me/d $x\n");
}

#[test]
fn echo_refuses_an_unknown_option() {
    let v = store();
    let mut env = Env::default();
    assert_eq!(builtin_echo(Some(&bare(&["-z"])), &v, &mut env).get(), 2);
    assert_eq!(out(&env), "");
    assert_eq!(err(&env), "Unrecognized option: 'z'\n");
}

#[test]
fn kept_back_output_is_not_written() {
    let mut env = Env::default();
    env.print(&Std::Out, &HowRun::Substitution, "kept");
    env.print(&Std::Error, &HowRun::Piped, "back");
    env.print(&Std::Out, &HowRun::RealTime, "now");
    assert_eq!(env.stdout, "kept");
    assert_eq!(env.stderr, "back");
    assert_eq!(out(&env), "now");
    let written = env.take_written();
    assert_eq!(written.len(), 1);
    assert!(env.written.is_empty());
}

#[test]
fn exit_resolves_a_status() {
    let v = store();
    let mut env = Env::default();
    assert_eq!(builtin_exit(None, &v, &mut env).get(), 0);
    assert_eq!(builtin_exit(Some(&bare(&["3"])), &v, &mut env).get(), 3);
    assert_eq!(builtin_exit(Some(&bare(&["300", "4"])), &v, &mut env).get(), 300);
    assert_eq!(err(&env), "");
}

#[test]
fn exit_with_no_number_is_misuse() {
    let v = store();
    let mut env = Env::default();
    assert_eq!(builtin_exit(Some(&bare(&["abc"])), &v, &mut env).get(), 2);
    assert_eq!(err(&env), "elvi: exit: Illegal number: abc)\n");
    let mut big = Env::default();
    assert_eq!(builtin_exit(Some(&bare(&["70000"])), &v, &mut big).get(), 2);
}

#[test]
fn exit_h_shows_the_usage() {
    let v = store();
    let mut env = Env::default();
    assert_eq!(builtin_exit(Some(&bare(&["-h"])), &v, &mut env).get(), 0);
    assert!(out(&env).starts_with("Usage: exit [n]\n\nOptions:\n"));
    assert!(out(&env).contains("-h, --help"));
    assert!(out(&env).contains("print help menu"));
}

#[test]
fn shift_drops_arguments() {
    let mut v = store();
    let mut env = Env::default();
    let r = builtin_shift(None, &mut v, &mut env);
    assert_eq!(r, Verdict::Continue(ReturnCode::ret(0)));
    assert_eq!(v.len_parameters(), 3);
    assert_eq!(v.get_variable("0").unwrap().contents, text("script"));
    assert_eq!(v.get_variable("1").unwrap().contents, text("two"));
    let r = builtin_shift(Some(&bare(&["2"])), &mut v, &mut env);
    assert_eq!(r, Verdict::Continue(ReturnCode::ret(0)));
    assert_eq!(v.len_parameters(), 1);
    let r = builtin_shift(Some(&bare(&["0"])), &mut v, &mut env);
    assert_eq!(r, Verdict::Continue(ReturnCode::ret(0)));
    assert_eq!(v.len_parameters(), 1);
}

#[test]
fn shift_beyond_the_arguments_ends_the_shell() {
    let mut v = store();
    let mut env = Env::default();
    let r = builtin_shift(Some(&bare(&["4"])), &mut v, &mut env);
    assert_eq!(r, Verdict::Terminate(ReturnCode::ret(2)));
    assert_eq!(v.len_parameters(), 4);
    assert_eq!(err(&env), "can't shift that many\n");
    let r = builtin_shift(Some(&bare(&["3"])), &mut v, &mut env);
    assert_eq!(r, Verdict::Continue(ReturnCode::ret(0)));
    let r = builtin_shift(None, &mut v, &mut env);
    assert_eq!(r, Verdict::Terminate(ReturnCode::ret(2)));
}

#[test]
fn shift_with_no_number_is_misuse() {
    let mut v = store();
    let mut env = Env::default();
    let r = builtin_shift(Some(&bare(&["two"])), &mut v, &mut env);
    assert_eq!(r, Verdict::Continue(ReturnCode::ret(2)));
    assert_eq!(v.len_parameters(), 4);
    assert_eq!(err(&env), "elvi: shift: Illegal number: two)\n");
}

#[test]
#[should_panic]
fn did_unset() {
    let mut variables = store();
    let mut commands = Commands::generate(&vec![]);
    let mut env = Env::default();
    variables
        .set_variable(
            "foo",
            Variable {
                contents: ElviType::String("bar".to_string()),
                ..Default::default()
            },
        )
        .unwrap();
    builtin_unset(
        Some(&[ElviType::String("foo".to_string())]),
        &mut variables,
        &mut commands,
        &mut env,
    );
    variables.get_variable("foo").unwrap();
}

#[test]
fn cannot_unset_readonly() {
    let mut variables = store();
    let mut commands = Commands::generate(&vec![]);
    let mut env = Env::default();
    variables
        .set_variable(
            "foo",
            Variable {
                contents: ElviType::String("bar".to_string()),
                modification_status: ElviMutable::Readonly,
                ..Default::default()
            },
        )
        .unwrap();
    let out = builtin_unset(
        Some(&[ElviType::String("foo".to_string())]),
        &mut variables,
        &mut commands,
        &mut env,
    );
    assert_eq!(out, ReturnCode::MISUSE.into());
    assert_eq!(variables.get_variable("foo").unwrap().contents, text("bar"));
    assert_eq!(err(&env), "elvi: foo: readonly variable (set on line '0' column '0')\n");
}

#[test]
fn unset_of_a_missing_name_succeeds() {
    let mut v = store();
    let mut c = Commands::generate(&vec![]);
    let mut env = Env::default();
    assert_eq!(builtin_unset(Some(&bare(&["nothing"])), &mut v, &mut c, &mut env).get(), 0);
    assert_eq!(err(&env), "");
    assert_eq!(v.get_environmentals().len(), 8);
}

#[test]
fn unset_goes_through_all_names() {
    let mut v = store();
    let mut c = Commands::generate(&vec![]);
    let mut env = Env::default();
    assert!(v.set_variable("a", Variable::of(text("1"))).is_ok());
    assert!(v.set_variable("r", readonly("2")).is_ok());
    assert!(v.set_variable("b", Variable::of(text("3"))).is_ok());
    let r = builtin_unset(Some(&bare(&["a", "nothing", "r", "?", "b"])), &mut v, &mut c, &mut env);
    assert_eq!(r.get(), 2);
    assert!(v.get_variable("a").is_none());
    assert!(v.get_variable("b").is_none());
    assert!(v.get_variable("r").is_some());
    assert!(v.get_variable("?").is_some());
    assert_eq!(
        err(&env),
        "elvi: r: readonly variable (set on line '4' column '2')\n\
         elvi: ?: readonly variable (set on line '0' column '0')\n"
    );
}

#[test]
fn unset_f_forgets_functions() {
    let mut v = store();
    let mut c = Commands::generate(&vec![]);
    let mut env = Env::default();
    c.register_function(Function { name: "f".into(), contents: None });
    assert!(v.set_variable("f", Variable::of(text("1"))).is_ok());
    assert_eq!(builtin_unset(Some(&bare(&["-f", "f", "g"])), &mut v, &mut c, &mut env).get(), 0);
    assert_eq!(c.functions.len(), 0);
    assert!(v.get_variable("f").is_some());
}

#[test]
fn unset_without_a_name_is_misuse() {
    let mut v = store();
    let mut c = Commands::generate(&vec![]);
    let mut env = Env::default();
    assert_eq!(builtin_unset(None, &mut v, &mut c, &mut env).get(), 2);
    assert!(out(&env).starts_with("Usage: unset [-fv] [name ...]"));
    let mut help = Env::default();
    assert_eq!(builtin_unset(Some(&bare(&["-h"])), &mut v, &mut c, &mut help).get(), 0);
}

#[test]
fn dbg_shows_each_variable() {
    let mut v = store();
    let mut env = Env::default();
    assert!(v.set_variable("a", Variable::of(text("1"))).is_ok());
    assert!(v.set_variable("r", readonly("2")).is_ok());
    assert_eq!(builtin_dbg(Some(&bare(&["a", "r", "1"])), &v, &mut env).get(), 0);
    assert_eq!(out(&env), "a=1\nreadonly r=2\n1=one\n");
}

#[test]
fn dbg_of_a_missing_variable_fails() {
    let mut v = store();
    let mut env = Env::default();
    assert!(v.set_variable("a", Variable::of(text("1"))).is_ok());
    assert_eq!(builtin_dbg(Some(&bare(&["a", "nope", "a"])), &v, &mut env).get(), 1);
    assert_eq!(out(&env), "a=1\n");
    assert_eq!(err(&env), "dbg: no such variable: nope\n");
}

#[test]
fn dbg_without_a_name_fails() {
    let v = store();
    let mut env = Env::default();
    assert_eq!(builtin_dbg(None, &v, &mut env).get(), 1);
    assert!(out(&env).starts_with("Usage: dbg VARNAME"));
}

#[test]
fn hash_lists_one_line_for_each_name() {
    let v = store();
    let mut env = Env::default();
    let c = Commands::generate(&vec![
        FoundFile { name: "ls".into(), path: "/usr/bin/ls".into(), regular: true },
        FoundFile { name: "sh".into(), path: "/usr/bin/sh".into(), regular: true },
        FoundFile { name: "ls".into(), path: "/bin/ls".into(), regular: true },
    ]);
    match builtin_hash(None, &c, &v, &mut env) {
        Hashed::Done(code) => assert_eq!(code.get(), 0),
        other => panic!("expected the list, got {:?}", other),
    }
    assert_eq!(out(&env), "ls=/bin/ls\nsh=/usr/bin/sh\n");
}

#[test]
fn hash_r_asks_for_a_scan_of_the_search_path() {
    let mut v = store();
    let mut env = Env::default();
    let c = Commands::generate(&vec![]);
    assert!(v.set_variable("PATH", Variable::of(text("/usr/bin:/bin"))).is_ok());
    match builtin_hash(Some(&bare(&["-r"])), &c, &v, &mut env) {
        Hashed::Rescan(dirs) => assert_eq!(dirs, vec!["/usr/bin".to_string(), "/bin".to_string()]),
        other => panic!("expected a scan, got {:?}", other),
    }
    assert_eq!(out(&env), "");
}

#[test]
fn hash_with_an_argument_fails() {
    let v = store();
    let mut env = Env::default();
    let c = Commands::generate(&vec![]);
    match builtin_hash(Some(&bare(&["ls"])), &c, &v, &mut env) {
        Hashed::Done(code) => assert_eq!(code.get(), 1),
        other => panic!("expected a failure, got {:?}", other),
    }
    assert_eq!(err(&env), "elvi: hash: ls: not found\n");
}

#[test]
fn cd_plans_where_to_go() {
    let mut v = store();
    let mut env = Env::default();
    assert!(v.set_variable("OLDPWD", Variable::of(text("/before"))).is_ok());
    match builtin_cd(None, &v, &mut env) {
        CdPlan::Enter { path, form } => {
            assert_eq!(path, "/home/me");
            assert_eq!(form, CdForm::Home);
        }
        other => panic!("unexpected plan {:?}", other),
    }
    match builtin_cd(Some(&bare(&["-"])), &v, &mut env) {
        CdPlan::Enter { path, form } => {
            assert_eq!(path, "/before");
            assert_eq!(form, CdForm::Back);
        }
        other => panic!("unexpected plan {:?}", other),
    }
    match builtin_cd(Some(&bare(&["~/src"])), &v, &mut env) {
        CdPlan::Enter { path, form } => {
            assert_eq!(path, "/home/me/src");
            assert_eq!(form, CdForm::Path);
        }
        other => panic!("unexpected plan {:?}", other),
    }
    match builtin_cd(Some(&bare(&["-h"])), &v, &mut env) {
        CdPlan::Done(code) => assert_eq!(code.get(), 0),
        other => panic!("unexpected plan {:?}", other),
    }
    assert!(out(&env).starts_with("Usage: cd PATH"));
}

#[test]
fn cd_to_a_missing_directory_is_misuse_and_changes_nothing() {
    let mut v = store();
    let mut env = Env::default();
    let r = enter_directory("/does/not/exist", CdForm::Path, &FileFacts::missing(), &mut v, &mut env);
    assert_eq!(r.get(), 2);
    assert_eq!(v.get_variable("PWD").unwrap().contents, text("/work"));
    assert_eq!(v.get_variable("OLDPWD").unwrap().contents, text("/work"));
    assert_eq!(err(&env), "elvi: cd: can't cd to /does/not/exist\n");
    let regular = FileFacts { exists: true, kind: FileKind::Regular, ..FileFacts::missing() };
    assert_eq!(enter_directory("/etc/passwd", CdForm::Path, &regular, &mut v, &mut env).get(), 2);
}

#[test]
fn cd_to_a_path_moves_pwd_and_oldpwd() {
    let mut v = store();
    let mut env = Env::default();
    let r = enter_directory("/tmp", CdForm::Path, &directory(), &mut v, &mut env);
    assert_eq!(r.get(), 0);
    assert_eq!(v.get_variable("PWD").unwrap().contents, text("/tmp"));
    assert_eq!(v.get_variable("OLDPWD").unwrap().contents, text("/work"));
    assert_eq!(out(&env), "");
}

#[test]
fn cd_home_and_back() {
    let mut v = store();
    let mut env = Env::default();
    assert_eq!(enter_directory("/home/me", CdForm::Home, &directory(), &mut v, &mut env).get(), 0);
    assert_eq!(v.get_variable("PWD").unwrap().contents, text("/home/me"));
    assert_eq!(v.get_variable("OLDPWD").unwrap().contents, text("/work"));
    assert_eq!(enter_directory("/work", CdForm::Back, &directory(), &mut v, &mut env).get(), 0);
    assert_eq!(v.get_variable("PWD").unwrap().contents, text("/work"));
    assert_eq!(v.get_variable("OLDPWD").unwrap().contents, text("/home/me"));
    assert_eq!(out(&env), "/work\n");
}

#[test]
fn cd_complains_where_pwd_may_not_be_written() {
    let mut v = store();
    let mut env = Env::default();
    assert_eq!(v.unset("PWD"), Some(()));
    assert!(v.set_variable("PWD", readonly("/fixed")).is_ok());
    assert_eq!(enter_directory("/tmp", CdForm::Path, &directory(), &mut v, &mut env).get(), 0);
    assert_eq!(v.get_variable("PWD").unwrap().contents, text("/fixed"));
    assert_eq!(v.get_variable("OLDPWD").unwrap().contents, text("/fixed"));
    assert_eq!(err(&env), "elvi: PWD: readonly variable (set on line '4' column '2')\n");
}
