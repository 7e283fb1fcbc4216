//! The `test` builtin.
use crate::internal::status::ReturnCode;
use crate::internal::text::{is_before, parse_bounded, parse_number, same_text, text_before, texts};
use crate::internal::tree::TestOptions;
use crate::internal::variables::{ElviType, Store, Value, Variables};
use crate::internal::world::{FileFacts, FileKind, ProcessFacts};
use vstd::prelude::*;
use vstd::string::*;

verus! {

/// What `test` is told about the system before it decides.
#[derive(Debug, Clone, Copy, PartialEq, Eq, Structural)]
pub struct TestFacts {
    /// What is known of the file that the first operand names.
    pub first: FileFacts,
    /// What is known of the file that the second operand names.
    pub second: FileFacts,
    /// Whether the file descriptor that the operand writes is a terminal.
    pub tty: bool,
    /// What is known of the shell's own process.
    pub process: ProcessFacts,
}

/// What `test` wants to know before it decides.
#[derive(Debug)]
pub struct TestProbe {
    /// The files to look at: none, one or two.
    pub paths: Vec<String>,
    /// The file descriptor to look at, if any.
    pub descriptor: Option<u32>,
}

impl Value {
    /// The text that an operand of `test` becomes: escapes, then
    /// parameters, and the outcome written out.
    pub open spec fn operand(self, store: Store) -> Seq<char> {
        self.unescaped().with_parameters(store).text()
    }
}

/// The number that an operand writes, if it writes one.
pub open spec fn operand_number(text: Seq<char>) -> Option<nat> {
    parse_number(text, usize::MAX as nat)
}

/// Whether both operands write numbers that `relation` holds of.
pub open spec fn numbers_are(a: Seq<char>, b: Seq<char>, relation: spec_fn(nat, nat) -> bool) -> bool {
    match (operand_number(a), operand_number(b)) {
        (Some(x), Some(y)) => relation(x, y),
        _ => false,
    }
}

/// Whether a file exists and is of a kind.
pub open spec fn is_kind(facts: FileFacts, kind: FileKind) -> bool {
    facts.exists && facts.kind == kind
}

/// Whether a file exists and has one of the given mode bits set.
pub open spec fn has_bit(facts: FileFacts, bits: u32) -> bool {
    facts.exists && facts.mode & bits != 0
}

/// Whether an operand is the empty text.
pub open spec fn is_empty_text(s: Value, store: Store) -> bool {
    s.operand(store).len() == 0
}

/// Whether two operands are the same text.
pub open spec fn texts_equal(a: Value, b: Value, store: Store) -> bool {
    a.operand(store) == b.operand(store)
}

/// Whether the first operand comes before the second, character by
/// character.
pub open spec fn comes_before(a: Value, b: Value, store: Store) -> bool {
    text_before(a.operand(store), b.operand(store))
}

/// Whether both operands write the same number.
pub open spec fn numbers_equal(a: Value, b: Value, store: Store) -> bool {
    numbers_are(a.operand(store), b.operand(store), |x: nat, y: nat| x == y)
}

/// Whether both operands write numbers, the first less than the second.
pub open spec fn number_less(a: Value, b: Value, store: Store) -> bool {
    numbers_are(a.operand(store), b.operand(store), |x: nat, y: nat| x < y)
}

/// Whether both operands write numbers, the first at most the second.
pub open spec fn number_at_most(a: Value, b: Value, store: Store) -> bool {
    numbers_are(a.operand(store), b.operand(store), |x: nat, y: nat| x <= y)
}

/// Whether both files exist and the first was modified later.
pub open spec fn is_newer(facts: TestFacts) -> bool {
    facts.first.exists && facts.second.exists && facts.first.newer_than(facts.second)
}

/// Whether the condition holds, before any inversion. The negated
/// conditions are the negations of their counterparts: not-equal of equal,
/// after of before, older of newer, `-ne` of `-eq`, `-gt` of `-le`, `-ge`
/// of `-lt`, and non-empty of empty.
pub open spec fn holds(to_do: TestOptions, store: Store, facts: TestFacts) -> bool {
    match to_do {
        TestOptions::BlockFileExists(_) => is_kind(facts.first, FileKind::BlockDevice),
        TestOptions::CharacterFileExists(_) => is_kind(facts.first, FileKind::CharDevice),
        TestOptions::DirectoryExists(_) => is_kind(facts.first, FileKind::Directory),
        TestOptions::AnyFileExists(_) => facts.first.exists,
        TestOptions::RegularFileExists(_) => is_kind(facts.first, FileKind::Regular),
        TestOptions::GroupIDFlagSetExists(_) => has_bit(facts.first, 0o2000),
        TestOptions::SymbolicLinkExists(_) => facts.first.symlink,
        TestOptions::StickyBitSetExists(_) => has_bit(facts.first, 0o1000),
        TestOptions::StringNonZero(s) => !is_empty_text(s@, store),
        TestOptions::NamedPipeExists(_) => is_kind(facts.first, FileKind::Fifo),
        TestOptions::ReadableFileExists(_) => facts.first.exists && facts.first.readable,
        TestOptions::FileExistsGreaterThanZero(_) => facts.first.exists && facts.first.size > 0,
        TestOptions::FDDescriptorNumberOpened(n) => parse_number(
            n@.operand(store),
            i32::MAX as nat,
        ) is Some && facts.tty,
        TestOptions::FileExistsUserIDSet(_) => has_bit(facts.first, 0o4000),
        TestOptions::FileExistsWritable(_) => facts.first.exists && facts.first.writable,
        TestOptions::FileExistsExecutable(_) => has_bit(facts.first, 0o111),
        TestOptions::StringZero(s) => is_empty_text(s@, store),
        TestOptions::FileExistsOwnerEffectiveUserID(_) => facts.first.exists && facts.first.uid
            == facts.process.euid,
        TestOptions::FileExistsOwnerEffectiveGroupID(_) => facts.first.exists && facts.first.gid
            == facts.process.egid,
        TestOptions::FileExistsSocket(_) => is_kind(facts.first, FileKind::Socket),
        TestOptions::File1NewerThanFile2(_) => is_newer(facts),
        TestOptions::File1OlderThanFile2(_) => !is_newer(facts),
        TestOptions::File1SameAsFile2(_) => facts.first.exists && facts.second.exists
            && facts.first.inode == facts.second.inode,
        TestOptions::StringNotNull(s) => !is_empty_text(s@, store),
        TestOptions::String1IsString2((a, b)) => texts_equal(a@, b@, store),
        TestOptions::String1IsNotString2((a, b)) => !texts_equal(a@, b@, store),
        TestOptions::String1BeforeString2ASCII((a, b)) => comes_before(a@, b@, store),
        TestOptions::String1AfterString2ASCII((a, b)) => !comes_before(a@, b@, store),
        TestOptions::Int1EqualsInt2Algebraically((a, b)) => numbers_equal(a@, b@, store),
        TestOptions::Int1NotEqualsInt2Algebraically((a, b)) => !numbers_equal(a@, b@, store),
        TestOptions::Int1GreaterThanInt2Algebraically((a, b)) => !number_at_most(a@, b@, store),
        TestOptions::Int1LessThanInt2Algebraically((a, b)) => number_less(a@, b@, store),
        TestOptions::Int1GreaterEqualInt2Algebraically((a, b)) => !number_less(a@, b@, store),
        TestOptions::Int1LessEqualInt2Algebraically((a, b)) => number_at_most(a@, b@, store),
    }
}

/// The status of `test`: success where the condition holds, the other way
/// round where `invert` is set.
pub open spec fn test_status(invert: bool, to_do: TestOptions, store: Store, facts: TestFacts) -> u16 {
    if holds(to_do, store, facts) != invert {
        0
    } else {
        1
    }
}

/// The files that `test` wants to know of: one for a condition on a file,
/// two for a comparison of files, none otherwise.
pub open spec fn probe_paths(to_do: TestOptions, store: Store) -> Seq<Seq<char>> {
    match to_do {
        TestOptions::BlockFileExists(f)
        | TestOptions::CharacterFileExists(f)
        | TestOptions::DirectoryExists(f)
        | TestOptions::AnyFileExists(f)
        | TestOptions::RegularFileExists(f)
        | TestOptions::GroupIDFlagSetExists(f)
        | TestOptions::SymbolicLinkExists(f)
        | TestOptions::StickyBitSetExists(f)
        | TestOptions::NamedPipeExists(f)
        | TestOptions::ReadableFileExists(f)
        | TestOptions::FileExistsGreaterThanZero(f)
        | TestOptions::FileExistsUserIDSet(f)
        | TestOptions::FileExistsWritable(f)
        | TestOptions::FileExistsExecutable(f)
        | TestOptions::FileExistsOwnerEffectiveUserID(f)
        | TestOptions::FileExistsOwnerEffectiveGroupID(f)
        | TestOptions::FileExistsSocket(f) => seq![f@.operand(store)],
        TestOptions::File1NewerThanFile2((a, b))
        | TestOptions::File1OlderThanFile2((a, b))
        | TestOptions::File1SameAsFile2((a, b)) => seq![a@.operand(store), b@.operand(store)],
        _ => Seq::empty(),
    }
}

/// The file descriptor that `test` wants to know of.
pub open spec fn probe_descriptor(to_do: TestOptions, store: Store) -> Option<nat> {
    match to_do {
        TestOptions::FDDescriptorNumberOpened(n) => parse_number(n@.operand(store), i32::MAX as nat),
        _ => None,
    }
}

/// The text that an operand of `test` becomes.
pub fn operand_text(value: &ElviType, variables: &Variables) -> (r: String)
    ensures
        r@ == value@.operand(variables@),
{
    value.eval_escapes().eval_variables(variables).to_string()
}

/// The number that an operand writes.
fn operand_value(value: &ElviType, variables: &Variables) -> (r: Option<u64>)
    ensures
        match r {
            Some(n) => operand_number(value@.operand(variables@)) == Some(n as nat),
            None => operand_number(value@.operand(variables@)) is None,
        },
{
    parse_bounded(operand_text(value, variables).as_str(), usize::MAX as u64)
}

/// What `test` wants to know before it decides.
pub fn test_probe(to_do: &TestOptions, variables: &Variables) -> (r: TestProbe)
    ensures
        texts(r.paths@) == probe_paths(*to_do, variables@),
        match r.descriptor {
            Some(fd) => probe_descriptor(*to_do, variables@) == Some(fd as nat),
            None => probe_descriptor(*to_do, variables@) is None,
        },
{
    let mut paths: Vec<String> = Vec::new();
    let mut descriptor: Option<u32> = None;
    match to_do {
        TestOptions::BlockFileExists(f)
        | TestOptions::CharacterFileExists(f)
        | TestOptions::DirectoryExists(f)
        | TestOptions::AnyFileExists(f)
        | TestOptions::RegularFileExists(f)
        | TestOptions::GroupIDFlagSetExists(f)
        | TestOptions::SymbolicLinkExists(f)
        | TestOptions::StickyBitSetExists(f)
        | TestOptions::NamedPipeExists(f)
        | TestOptions::ReadableFileExists(f)
        | TestOptions::FileExistsGreaterThanZero(f)
        | TestOptions::FileExistsUserIDSet(f)
        | TestOptions::FileExistsWritable(f)
        | TestOptions::FileExistsExecutable(f)
        | TestOptions::FileExistsOwnerEffectiveUserID(f)
        | TestOptions::FileExistsOwnerEffectiveGroupID(f)
        | TestOptions::FileExistsSocket(f) => {
            paths.push(operand_text(f, variables));
        },
        TestOptions::File1NewerThanFile2((a, b))
        | TestOptions::File1OlderThanFile2((a, b))
        | TestOptions::File1SameAsFile2((a, b)) => {
            paths.push(operand_text(a, variables));
            paths.push(operand_text(b, variables));
        },
        TestOptions::FDDescriptorNumberOpened(n) => {
            descriptor = match parse_bounded(operand_text(n, variables).as_str(), i32::MAX as u64) {
                Some(fd) => Some(fd as u32),
                None => None,
            };
        },
        _ => {},
    }
    TestProbe { paths, descriptor }
}

/// Whether both operands write numbers, and which.
fn operand_numbers(a: &ElviType, b: &ElviType, variables: &Variables) -> (r: Option<(u64, u64)>)
    ensures
        match r {
            Some((x, y)) => operand_number(a@.operand(variables@)) == Some(x as nat)
                && operand_number(b@.operand(variables@)) == Some(y as nat),
            None => operand_number(a@.operand(variables@)) is None || operand_number(
                b@.operand(variables@),
            ) is None,
        },
{
    match (operand_value(a, variables), operand_value(b, variables)) {
        (Some(x), Some(y)) => Some((x, y)),
        _ => None,
    }
}

/// Decide whether a condition holds, before any inversion.
pub fn decide(to_do: &TestOptions, variables: &Variables, facts: &TestFacts) -> (r: bool)
    ensures
        r == holds(*to_do, variables@, *facts),
{
    let first = &facts.first;
    let second = &facts.second;
    match to_do {
        TestOptions::BlockFileExists(_) => first.exists && first.kind == FileKind::BlockDevice,
        TestOptions::CharacterFileExists(_) => first.exists && first.kind == FileKind::CharDevice,
        TestOptions::DirectoryExists(_) => first.exists && first.kind == FileKind::Directory,
        TestOptions::AnyFileExists(_) => first.exists,
        TestOptions::RegularFileExists(_) => first.exists && first.kind == FileKind::Regular,
        TestOptions::GroupIDFlagSetExists(_) => first.exists && first.mode & 0o2000 != 0,
        TestOptions::SymbolicLinkExists(_) => first.symlink,
        TestOptions::StickyBitSetExists(_) => first.exists && first.mode & 0o1000 != 0,
        TestOptions::NamedPipeExists(_) => first.exists && first.kind == FileKind::Fifo,
        TestOptions::ReadableFileExists(_) => first.exists && first.readable,
        TestOptions::FileExistsGreaterThanZero(_) => first.exists && first.size > 0,
        TestOptions::FDDescriptorNumberOpened(n) => parse_bounded(
            operand_text(n, variables).as_str(),
            i32::MAX as u64,
        ).is_some() && facts.tty,
        TestOptions::FileExistsUserIDSet(_) => first.exists && first.mode & 0o4000 != 0,
        TestOptions::FileExistsWritable(_) => first.exists && first.writable,
        TestOptions::FileExistsExecutable(_) => first.exists && first.mode & 0o111 != 0,
        TestOptions::StringZero(s) => operand_text(s, variables).as_str().unicode_len() == 0,
        TestOptions::StringNonZero(s) | TestOptions::StringNotNull(s) => !(operand_text(
            s,
            variables,
        ).as_str().unicode_len() == 0),
        TestOptions::FileExistsOwnerEffectiveUserID(_) => first.exists && first.uid
            == facts.process.euid,
        TestOptions::FileExistsOwnerEffectiveGroupID(_) => first.exists && first.gid
            == facts.process.egid,
        TestOptions::FileExistsSocket(_) => first.exists && first.kind == FileKind::Socket,
        TestOptions::File1NewerThanFile2(_) => first.exists && second.exists && (first.modified
            > second.modified || (first.modified == second.modified && first.modified_nanos
            > second.modified_nanos)),
        TestOptions::File1OlderThanFile2(_) => !(first.exists && second.exists && (first.modified
            > second.modified || (first.modified == second.modified && first.modified_nanos
            > second.modified_nanos))),
        TestOptions::File1SameAsFile2(_) => first.exists && second.exists && first.inode
            == second.inode,
        TestOptions::String1IsString2((a, b)) => same_text(
            operand_text(a, variables).as_str(),
            operand_text(b, variables).as_str(),
        ),
        TestOptions::String1IsNotString2((a, b)) => !same_text(
            operand_text(a, variables).as_str(),
            operand_text(b, variables).as_str(),
        ),
        TestOptions::String1BeforeString2ASCII((a, b)) => is_before(
            operand_text(a, variables).as_str(),
            operand_text(b, variables).as_str(),
        ),
        TestOptions::String1AfterString2ASCII((a, b)) => !is_before(
            operand_text(a, variables).as_str(),
            operand_text(b, variables).as_str(),
        ),
        TestOptions::Int1EqualsInt2Algebraically((a, b)) => match operand_numbers(a, b, variables) {
            Some((x, y)) => x == y,
            None => false,
        },
        TestOptions::Int1NotEqualsInt2Algebraically((a, b)) => match operand_numbers(
            a,
            b,
            variables,
        ) {
            Some((x, y)) => !(x == y),
            None => true,
        },
        TestOptions::Int1GreaterThanInt2Algebraically((a, b)) => match operand_numbers(
            a,
            b,
            variables,
        ) {
            Some((x, y)) => !(x <= y),
            None => true,
        },
        TestOptions::Int1LessThanInt2Algebraically((a, b)) => match operand_numbers(a, b, variables) {
            Some((x, y)) => x < y,
            None => false,
        },
        TestOptions::Int1GreaterEqualInt2Algebraically((a, b)) => match operand_numbers(
            a,
            b,
            variables,
        ) {
            Some((x, y)) => !(x < y),
            None => true,
        },
        TestOptions::Int1LessEqualInt2Algebraically((a, b)) => match operand_numbers(a, b, variables) {
            Some((x, y)) => x <= y,
            None => false,
        },
    }
}

/// Decide a condition, given what is known of the files and the descriptor
/// that it speaks of: success where the condition holds, and the other way
/// round where `invert` is set. The inversion is applied once, at the end.
pub fn execute(invert: bool, to_do: &TestOptions, variables: &Variables, facts: &TestFacts) -> (r:
    ReturnCode)
    ensures
        r@ == test_status(invert, *to_do, variables@, *facts),
{
    let ret = ReturnCode::from_bool(decide(to_do, variables, facts));
    if invert {
        ret.negate()
    } else {
        ret
    }
}

/// The `test` builtin.
pub fn builtin_test(invert: bool, to_do: &TestOptions, variables: &Variables, facts: &TestFacts) -> (r:
    ReturnCode)
    ensures
        r@ == test_status(invert, *to_do, variables@, *facts),
{
    execute(invert, to_do, variables, facts)
}

/// An inverted test succeeds exactly where the test itself fails.
pub proof fn lemma_test_inversion(to_do: TestOptions, store: Store, facts: TestFacts)
    ensures
        test_status(true, to_do, store, facts) == (ReturnCode {
            val: test_status(false, to_do, store, facts),
        }).spec_invert(true),
        test_status(true, to_do, store, facts) != test_status(false, to_do, store, facts),
{
}

/// Not-equal succeeds exactly where equal fails, whatever the two texts.
pub proof fn lemma_not_equal_negates_equal(a: ElviType, b: ElviType, store: Store, facts: TestFacts)
    ensures
        test_status(false, TestOptions::String1IsNotString2((a, b)), store, facts) == (ReturnCode {
            val: test_status(false, TestOptions::String1IsString2((a, b)), store, facts),
        }).spec_invert(true),
{
}

} // verus!
