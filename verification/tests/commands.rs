use elvi::internal::commands::{
    execute_external_command, names_path, split_text, CmdReturn, Commands, ExternalCommand, HowRun,
};
use elvi::internal::errors::CommandError;
use elvi::internal::tree::Function;
use elvi::internal::variables::{ElviGlobal, ElviMutable, ElviType, Variable, Variables};
use elvi::internal::world::{FileFacts, FileKind, FoundFile};

fn store() -> Variables {
    Variables::new("/work", "/home/me", "1.2.3", 4242)
}

fn found(name: &str, path: &str, regular: bool) -> FoundFile {
    FoundFile { name: name.to_string(), path: path.to_string(), regular }
}

fn file(kind: FileKind, mode: u32) -> FileFacts {
    FileFacts { exists: true, kind, mode, ..FileFacts::missing() }
}

fn words(list: &[&str]) -> Vec<String> {
    list.iter().map(|s| s.to_string()).collect()
}

#[test]
fn split_text_parts_at_each_separator() {
    assert_eq!(split_text("/usr/bin:/bin", ':'), words(&["/usr/bin", "/bin"]));
    assert_eq!(split_text("one", ':'), words(&["one"]));
    assert_eq!(split_text("", ':'), words(&[""]));
    assert_eq!(split_text("a::b:", ':'), words(&["a", "", "b", ""]));
}

#[test]
fn the_search_path_is_what_path_holds() {
    let mut v = store();
    assert_eq!(Commands::search_path(&v), words(&["/usr/sbin", "/usr/bin", "/sbin", "/bin"]));
    assert!(v.set_variable("PATH", Variable::of(ElviType::String("/a:/b".into()))).is_ok());
    assert_eq!(Commands::search_path(&v), words(&["/a", "/b"]));
    assert_eq!(v.unset("PATH"), Some(()));
    assert_eq!(Commands::search_path(&v), Vec::<String>::new());
}

#[test]
fn generate_keeps_the_last_of_each_name() {
    let c = Commands::generate(&vec![
        found("ls", "/usr/bin/ls", true),
        found("sh", "/usr/bin/sh", true),
        found("dir", "/usr/bin/dir", false),
        found("ls", "/bin/ls", true),
    ]);
    assert_eq!(c.cmds.len(), 2);
    assert_eq!(c.get_path("ls"), Some("/bin/ls".to_string()));
    assert_eq!(c.get_path("sh"), Some("/usr/bin/sh".to_string()));
    assert_eq!(c.get_path("dir"), None);
    assert_eq!(c.functions.len(), 0);
    assert_eq!(
        c.list(),
        vec![
            ("ls".to_string(), "/bin/ls".to_string()),
            ("sh".to_string(), "/usr/bin/sh".to_string())
        ]
    );
}

#[test]
fn functions_are_registered_and_forgotten() {
    let mut c = Commands::generate(&vec![]);
    c.register_function(Function { name: "f".into(), contents: None });
    assert!(c.functions.contains("f"));
    c.register_function(Function { name: "f".into(), contents: None });
    assert_eq!(c.functions.len(), 1);
    c.deregister_function("g");
    assert_eq!(c.functions.len(), 1);
    c.deregister_function("f");
    assert_eq!(c.functions.len(), 0);
}

#[test]
fn a_command_is_its_first_word_and_its_arguments() {
    let c = ExternalCommand::from_words(&words(&["ls", "-l", "/"])).unwrap();
    assert_eq!(c.cmd, "ls");
    assert_eq!(c.args, Some(words(&["-l", "/"])));
    assert_eq!(c.attributes, HowRun::RealTime);
    let alone = ExternalCommand::from_words(&words(&["ls"])).unwrap();
    assert_eq!(alone.args, None);
    assert!(ExternalCommand::from_words(&vec![]).is_none());
    let line = ExternalCommand::from_line("echo a  b");
    assert_eq!(line.cmd, "echo");
    assert_eq!(line.args, Some(words(&["a", "", "b"])));
    assert_eq!(ExternalCommand::from_line("").cmd, "");
}

#[test]
fn a_path_begins_with_slash_or_dot_slash() {
    assert!(names_path("/bin/ls"));
    assert!(names_path("./run"));
    assert!(!names_path("ls"));
    assert!(!names_path("../run"));
    assert!(!names_path("."));
    assert!(!names_path(""));
}

#[test]
fn resolve_looks_a_bare_name_up() {
    let c = Commands::generate(&vec![found("ls", "/bin/ls", true)]);
    assert_eq!(c.resolve("ls", &FileFacts::missing()).unwrap(), "/bin/ls");
    assert!(matches!(
        c.resolve("nope", &file(FileKind::Regular, 0o755)),
        Err(CommandError::NotFound { name }) if name == "nope"
    ));
}

#[test]
fn resolve_checks_a_path() {
    let c = Commands::generate(&vec![found("run", "/bin/run", true)]);
    assert_eq!(c.resolve("./run", &file(FileKind::Regular, 0o700)).unwrap(), "./run");
    assert_eq!(c.resolve("/x/run", &file(FileKind::Regular, 0o001)).unwrap(), "/x/run");
    assert!(matches!(
        c.resolve("./run", &FileFacts::missing()),
        Err(CommandError::NotFound { name }) if name == "./run"
    ));
    assert!(matches!(
        c.resolve("/etc", &file(FileKind::Directory, 0o755)),
        Err(CommandError::PermissionDenied { path }) if path == "/etc"
    ));
    assert!(matches!(
        c.resolve("/etc/passwd", &file(FileKind::Regular, 0o644)),
        Err(CommandError::PermissionDenied { path }) if path == "/etc/passwd"
    ));
}

#[test]
fn a_program_gets_only_the_exported_variables_and_the_working_directory() {
    let mut v = store();
    let hidden = Variable {
        contents: ElviType::String("secret".into()),
        modification_status: ElviMutable::Normal,
        shell_lvl: ElviGlobal::Normal(1),
        line: (0, 0),
    };
    assert!(v.set_variable("hidden", hidden).is_ok());
    let c = Commands::generate(&vec![found("ls", "/bin/ls", true)]);
    let cmd = ExternalCommand::from_words(&words(&["ls", "-a"])).unwrap();
    let d = execute_external_command(cmd, &v, &c, &FileFacts::missing()).unwrap();
    assert_eq!(d.program, "/bin/ls");
    assert_eq!(d.args, words(&["-a"]));
    assert_eq!(d.cwd, Some("/work".to_string()));
    assert_eq!(d.env.len(), 8);
    assert!(d.env.contains(&("HOME".to_string(), "/home/me".to_string())));
    assert!(!d.env.iter().any(|(name, _)| name == "hidden"));
    let alone = ExternalCommand::from_words(&words(&["ls"])).unwrap();
    let d = execute_external_command(alone, &v, &c, &FileFacts::missing()).unwrap();
    assert_eq!(d.args, Vec::<String>::new());
}

#[test]
fn a_command_that_is_not_found_is_not_made_ready() {
    let v = store();
    let c = Commands::generate(&vec![]);
    let cmd = ExternalCommand::from_words(&words(&["nope"])).unwrap();
    assert!(matches!(
        execute_external_command(cmd, &v, &c, &FileFacts::missing()),
        Err(CommandError::NotFound { name }) if name == "nope"
    ));
}

#[test]
fn a_command_leaves_success_and_nothing_by_default() {
    let r = CmdReturn::default();
    assert_eq!(r.ret.get(), 0);
    assert!(r.stdout.is_empty());
    assert!(r.stderr.is_empty());
}
