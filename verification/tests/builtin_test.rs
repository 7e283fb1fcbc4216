use elvi::internal::builtins::test::{builtin_test, decide, execute, test_probe, TestFacts};
use elvi::internal::status::ReturnCode;
use elvi::internal::tree::TestOptions;
use elvi::internal::variables::{ElviType, Variable, Variables};
use elvi::internal::world::{FileFacts, FileKind, ProcessFacts};

fn store() -> Variables {
    Variables::new("/work", "/home/me", "1.2.3", 4242)
}

fn text(s: &str) -> ElviType {
    ElviType::String(s.to_string())
}

fn pair(a: &str, b: &str) -> (ElviType, ElviType) {
    (text(a), text(b))
}

fn facts_of(first: FileFacts, second: FileFacts) -> TestFacts {
    TestFacts { first, second, tty: false, process: ProcessFacts { euid: 1000, egid: 100 } }
}

fn one(first: FileFacts) -> TestFacts {
    facts_of(first, FileFacts::missing())
}

fn nothing() -> TestFacts {
    one(FileFacts::missing())
}

/// What whoever drives the shell would find of `/etc/passwd` as an
/// ordinary user: a regular file that may be read and not written.
fn passwd() -> FileFacts {
    FileFacts {
        exists: true,
        kind: FileKind::Regular,
        symlink: false,
        mode: 0o644,
        size: 1234,
        uid: 0,
        gid: 0,
        inode: 77,
        modified: 1_700_000_000,
        modified_nanos: 5,
        readable: true,
        writable: false,
    }
}

fn etc() -> FileFacts {
    FileFacts { kind: FileKind::Directory, mode: 0o755, inode: 2, ..passwd() }
}

fn of_kind(kind: FileKind) -> FileFacts {
    FileFacts { kind, ..passwd() }
}

fn with_mode(mode: u32) -> FileFacts {
    FileFacts { mode, ..passwd() }
}

fn holds(to_do: TestOptions, facts: TestFacts) -> bool {
    let v = store();
    let straight = execute(false, &to_do, &v, &facts);
    let inverted = execute(true, &to_do, &v, &facts);
    assert_eq!(inverted, !straight);
    assert_eq!(decide(&to_do, &v, &facts), straight.get() == 0);
    straight.get() == 0
}

#[test]
fn test_file() {
    let variables = store();
    assert_eq!(
        builtin_test(
            false,
            &TestOptions::RegularFileExists(ElviType::String("/etc/passwd".into())),
            &variables,
            &one(passwd())
        ),
        true.into()
    )
}

#[test]
fn writable_test() {
    let variables = store();
    assert_eq!(
        builtin_test(
            false,
            &TestOptions::FileExistsWritable(ElviType::String("/etc/passwd".into())),
            &variables,
            &one(passwd())
        ),
        false.into()
    )
}

#[test]
fn test_strings_equals() {
    let variables = store();
    assert_eq!(
        builtin_test(
            false,
            &TestOptions::String1IsString2((
                ElviType::String("foo".into()),
                ElviType::String("foo".into()),
            )),
            &variables,
            &nothing(),
        ),
        true.into()
    )
}

#[test]
fn test_test_file() {
    let variables = store();
    assert_eq!(
        execute(
            false,
            &TestOptions::RegularFileExists(ElviType::String("/etc/passwd".into())),
            &variables,
            &one(passwd())
        ),
        true.into()
    )
}

#[test]
fn test_writable_test() {
    let variables = store();
    assert_eq!(
        execute(
            false,
            &TestOptions::FileExistsWritable(ElviType::String("/etc/passwd".into())),
            &variables,
            &one(passwd())
        ),
        false.into()
    )
}

#[test]
fn test_test_strings_equals() {
    let variables = store();
    assert_eq!(
        execute(
            false,
            &TestOptions::String1IsString2((
                ElviType::String("foo".into()),
                ElviType::String("foo".into()),
            )),
            &variables,
            &nothing(),
        ),
        true.into()
    )
}

#[test]
fn directory_exists() {
    let variables = store();
    assert_eq!(
        builtin_test(
            false,
            &TestOptions::DirectoryExists(ElviType::String("/etc/".into())),
            &variables,
            &one(etc())
        ),
        true.into()
    )
}

#[test]
fn directory_not_exists() {
    let variables = store();
    assert_eq!(
        builtin_test(
            true,
            &TestOptions::DirectoryExists(ElviType::String("/not_exists/".into())),
            &variables,
            &nothing()
        ),
        true.into()
    )
}

#[test]
fn the_kinds_of_files() {
    let f = || text("f");
    assert!(holds(TestOptions::AnyFileExists(f()), one(passwd())));
    assert!(!holds(TestOptions::AnyFileExists(f()), nothing()));
    assert!(holds(TestOptions::RegularFileExists(f()), one(passwd())));
    assert!(!holds(TestOptions::RegularFileExists(f()), one(etc())));
    assert!(holds(TestOptions::DirectoryExists(f()), one(etc())));
    assert!(!holds(TestOptions::DirectoryExists(f()), one(passwd())));
    assert!(holds(TestOptions::BlockFileExists(f()), one(of_kind(FileKind::BlockDevice))));
    assert!(!holds(TestOptions::BlockFileExists(f()), one(of_kind(FileKind::CharDevice))));
    assert!(holds(TestOptions::CharacterFileExists(f()), one(of_kind(FileKind::CharDevice))));
    assert!(holds(TestOptions::NamedPipeExists(f()), one(of_kind(FileKind::Fifo))));
    assert!(holds(TestOptions::FileExistsSocket(f()), one(of_kind(FileKind::Socket))));
    assert!(!holds(TestOptions::FileExistsSocket(f()), one(of_kind(FileKind::Other))));
    let gone = FileFacts { exists: false, ..of_kind(FileKind::Socket) };
    assert!(!holds(TestOptions::FileExistsSocket(f()), one(gone)));
}

#[test]
fn a_symbolic_link_may_lead_nowhere() {
    let dangling = FileFacts { symlink: true, ..FileFacts::missing() };
    assert!(holds(TestOptions::SymbolicLinkExists(text("l")), one(dangling)));
    assert!(!holds(TestOptions::AnyFileExists(text("l")), one(dangling)));
    assert!(!holds(TestOptions::SymbolicLinkExists(text("l")), one(passwd())));
}

#[test]
fn the_mode_bits() {
    let f = || text("f");
    assert!(holds(TestOptions::FileExistsExecutable(f()), one(with_mode(0o744))));
    assert!(holds(TestOptions::FileExistsExecutable(f()), one(with_mode(0o001))));
    assert!(!holds(TestOptions::FileExistsExecutable(f()), one(with_mode(0o666))));
    assert!(holds(TestOptions::StickyBitSetExists(f()), one(with_mode(0o1777))));
    assert!(!holds(TestOptions::StickyBitSetExists(f()), one(with_mode(0o6777))));
    assert!(holds(TestOptions::GroupIDFlagSetExists(f()), one(with_mode(0o2755))));
    assert!(!holds(TestOptions::GroupIDFlagSetExists(f()), one(with_mode(0o5755))));
    assert!(holds(TestOptions::FileExistsUserIDSet(f()), one(with_mode(0o4755))));
    assert!(!holds(TestOptions::FileExistsUserIDSet(f()), one(with_mode(0o3755))));
    let gone = FileFacts { exists: false, ..with_mode(0o7777) };
    assert!(!holds(TestOptions::FileExistsUserIDSet(f()), one(gone)));
}

#[test]
fn what_the_shell_may_do_with_a_file() {
    let f = || text("f");
    assert!(holds(TestOptions::ReadableFileExists(f()), one(passwd())));
    assert!(!holds(TestOptions::FileExistsWritable(f()), one(passwd())));
    let open = FileFacts { writable: true, readable: false, ..passwd() };
    assert!(holds(TestOptions::FileExistsWritable(f()), one(open)));
    assert!(!holds(TestOptions::ReadableFileExists(f()), one(open)));
    assert!(holds(TestOptions::FileExistsGreaterThanZero(f()), one(passwd())));
    let empty = FileFacts { size: 0, ..passwd() };
    assert!(!holds(TestOptions::FileExistsGreaterThanZero(f()), one(empty)));
}

#[test]
fn who_owns_a_file() {
    let f = || text("f");
    let mine = FileFacts { uid: 1000, gid: 100, ..passwd() };
    assert!(holds(TestOptions::FileExistsOwnerEffectiveUserID(f()), one(mine)));
    assert!(holds(TestOptions::FileExistsOwnerEffectiveGroupID(f()), one(mine)));
    assert!(!holds(TestOptions::FileExistsOwnerEffectiveUserID(f()), one(passwd())));
    assert!(!holds(TestOptions::FileExistsOwnerEffectiveGroupID(f()), one(passwd())));
}

#[test]
fn a_descriptor_that_is_a_terminal() {
    let tty = TestFacts { tty: true, ..nothing() };
    assert!(holds(TestOptions::FDDescriptorNumberOpened(text("1")), tty));
    assert!(!holds(TestOptions::FDDescriptorNumberOpened(text("1")), nothing()));
    assert!(!holds(TestOptions::FDDescriptorNumberOpened(text("one")), tty));
}

#[test]
fn two_files_compared() {
    let p = || pair("a", "b");
    let later = FileFacts { modified: passwd().modified + 1, modified_nanos: 0, ..passwd() };
    let a_bit_later = FileFacts { modified_nanos: 6, ..passwd() };
    assert!(holds(TestOptions::File1NewerThanFile2(p()), facts_of(later, passwd())));
    assert!(holds(TestOptions::File1NewerThanFile2(p()), facts_of(a_bit_later, passwd())));
    assert!(!holds(TestOptions::File1NewerThanFile2(p()), facts_of(passwd(), later)));
    assert!(!holds(TestOptions::File1NewerThanFile2(p()), facts_of(passwd(), passwd())));
    assert!(!holds(TestOptions::File1NewerThanFile2(p()), facts_of(later, FileFacts::missing())));
    assert!(holds(TestOptions::File1OlderThanFile2(p()), facts_of(passwd(), later)));
    assert!(holds(TestOptions::File1OlderThanFile2(p()), facts_of(passwd(), passwd())));
    assert!(holds(TestOptions::File1OlderThanFile2(p()), facts_of(later, FileFacts::missing())));
    assert!(!holds(TestOptions::File1OlderThanFile2(p()), facts_of(later, passwd())));
    assert!(holds(TestOptions::File1SameAsFile2(p()), facts_of(passwd(), passwd())));
    assert!(!holds(TestOptions::File1SameAsFile2(p()), facts_of(passwd(), etc())));
    assert!(!holds(TestOptions::File1SameAsFile2(p()), facts_of(passwd(), FileFacts::missing())));
}

#[test]
fn texts_compared() {
    assert!(holds(TestOptions::String1IsString2(pair("foo", "foo")), nothing()));
    assert!(!holds(TestOptions::String1IsString2(pair("foo", "bar")), nothing()));
    assert!(holds(TestOptions::String1IsNotString2(pair("foo", "bar")), nothing()));
    assert!(!holds(TestOptions::String1IsNotString2(pair("foo", "foo")), nothing()));
    assert!(holds(TestOptions::String1BeforeString2ASCII(pair("abc", "abd")), nothing()));
    assert!(holds(TestOptions::String1BeforeString2ASCII(pair("ab", "abc")), nothing()));
    assert!(holds(TestOptions::String1BeforeString2ASCII(pair("B", "a")), nothing()));
    assert!(!holds(TestOptions::String1BeforeString2ASCII(pair("abc", "abc")), nothing()));
    assert!(!holds(TestOptions::String1BeforeString2ASCII(pair("b", "a")), nothing()));
    assert!(holds(TestOptions::String1AfterString2ASCII(pair("b", "a")), nothing()));
    assert!(holds(TestOptions::String1AfterString2ASCII(pair("a", "a")), nothing()));
    assert!(!holds(TestOptions::String1AfterString2ASCII(pair("a", "b")), nothing()));
}

#[test]
fn texts_that_are_empty_or_not() {
    assert!(holds(TestOptions::StringZero(text("")), nothing()));
    assert!(!holds(TestOptions::StringZero(text("x")), nothing()));
    assert!(holds(TestOptions::StringNonZero(text("x")), nothing()));
    assert!(!holds(TestOptions::StringNonZero(text("")), nothing()));
    assert!(holds(TestOptions::StringNotNull(text("x")), nothing()));
    assert!(!holds(TestOptions::StringNotNull(text("")), nothing()));
}

#[test]
fn numbers_compared() {
    let eq = |a, b| holds(TestOptions::Int1EqualsInt2Algebraically(pair(a, b)), nothing());
    let ne = |a, b| holds(TestOptions::Int1NotEqualsInt2Algebraically(pair(a, b)), nothing());
    let lt = |a, b| holds(TestOptions::Int1LessThanInt2Algebraically(pair(a, b)), nothing());
    let le = |a, b| holds(TestOptions::Int1LessEqualInt2Algebraically(pair(a, b)), nothing());
    let gt = |a, b| holds(TestOptions::Int1GreaterThanInt2Algebraically(pair(a, b)), nothing());
    let ge = |a, b| holds(TestOptions::Int1GreaterEqualInt2Algebraically(pair(a, b)), nothing());
    assert!(eq("5", "5") && eq("05", "5") && !eq("5", "6"));
    assert!(ne("5", "6") && !ne("5", "5"));
    assert!(lt("5", "6") && !lt("5", "5") && !lt("6", "5"));
    assert!(le("5", "6") && le("5", "5") && !le("6", "5"));
    assert!(gt("6", "5") && !gt("5", "5") && !gt("5", "6"));
    assert!(ge("6", "5") && ge("5", "5") && !ge("5", "6"));
    assert!(lt("9", "10"));
}

#[test]
fn operands_that_write_no_number() {
    let p = || pair("five", "5");
    assert!(!holds(TestOptions::Int1EqualsInt2Algebraically(p()), nothing()));
    assert!(!holds(TestOptions::Int1LessThanInt2Algebraically(p()), nothing()));
    assert!(!holds(TestOptions::Int1LessEqualInt2Algebraically(p()), nothing()));
    assert!(holds(TestOptions::Int1NotEqualsInt2Algebraically(p()), nothing()));
    assert!(holds(TestOptions::Int1GreaterThanInt2Algebraically(p()), nothing()));
    assert!(holds(TestOptions::Int1GreaterEqualInt2Algebraically(p()), nothing()));
}

#[test]
fn operands_are_expanded() {
    let mut v = store();
    assert!(v.set_variable("n", Variable::of(text("7"))).is_ok());
    let to_do = TestOptions::Int1EqualsInt2Algebraically((
        ElviType::VariableSubstitution("$n".into()),
        text("7"),
    ));
    assert_eq!(execute(false, &to_do, &v, &nothing()), ReturnCode::ret(0));
    let same = TestOptions::String1IsString2((
        ElviType::VariableSubstitution("a\\tb".into()),
        text("a\tb"),
    ));
    assert_eq!(execute(false, &same, &v, &nothing()), ReturnCode::ret(0));
}

#[test]
fn test_asks_for_what_it_needs() {
    let mut v = store();
    assert!(v.set_variable("d", Variable::of(text("/etc"))).is_ok());
    let probe = test_probe(
        &TestOptions::DirectoryExists(ElviType::VariableSubstitution("$d/passwd".into())),
        &v,
    );
    assert_eq!(probe.paths, vec!["".to_string()]);
    let probe = test_probe(
        &TestOptions::DirectoryExists(ElviType::VariableSubstitution("${d}/passwd".into())),
        &v,
    );
    assert_eq!(probe.paths, vec!["/etc/passwd".to_string()]);
    assert_eq!(probe.descriptor, None);
    let probe = test_probe(&TestOptions::File1SameAsFile2(pair("a", "b")), &v);
    assert_eq!(probe.paths, vec!["a".to_string(), "b".to_string()]);
    let probe = test_probe(&TestOptions::FDDescriptorNumberOpened(text("2")), &v);
    assert!(probe.paths.is_empty());
    assert_eq!(probe.descriptor, Some(2));
    let probe = test_probe(&TestOptions::String1IsString2(pair("a", "b")), &v);
    assert!(probe.paths.is_empty());
    assert_eq!(probe.descriptor, None);
}
