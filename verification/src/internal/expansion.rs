//! The expansions of a value: escapes, tilde, parameters and pathnames.
use super::table::lookup;
use super::text::{decimal, joined, number_text, same_text, texts};
use super::variables::{ElviType, QuotedNature, Store, Value, Variables};
use vstd::prelude::*;
use vstd::string::*;

verus! {

/// Whether a backslash and this character make a one-character escape.
pub open spec fn is_simple_escape(c: char) -> bool {
    c == 'n' || c == 't' || c == 'r' || c == '\\' || c == '0'
}

/// The character that a one-character escape stands for.
pub open spec fn simple_escape(c: char) -> char {
    if c == 'n' {
        '\n'
    } else if c == 't' {
        '\t'
    } else if c == 'r' {
        '\r'
    } else if c == '0' {
        '\0'
    } else {
        c
    }
}

/// Whether the character is a hexadecimal digit.
pub open spec fn is_hex(c: char) -> bool {
    ('0' <= c && c <= '9') || ('a' <= c && c <= 'f') || ('A' <= c && c <= 'F')
}

/// The value of a hexadecimal digit.
pub open spec fn hex_value(c: char) -> nat
    recommends
        is_hex(c),
{
    if '0' <= c && c <= '9' {
        (c as int - '0' as int) as nat
    } else if 'a' <= c && c <= 'f' {
        (c as int - 'a' as int + 10) as nat
    } else {
        (c as int - 'A' as int + 10) as nat
    }
}

/// Whether the escapes of `s` from place `i` on can be decoded: each `\x` is
/// followed by two hexadecimal digits that give a character below 128.
pub open spec fn decodable_from(s: Seq<char>, i: int) -> bool
    decreases s.len() - i,
{
    if i < 0 || i + 1 >= s.len() {
        true
    } else if s[i] == '\\' && is_simple_escape(s[i + 1]) {
        decodable_from(s, i + 2)
    } else if s[i] == '\\' && s[i + 1] == 'x' {
        i + 3 < s.len() && is_hex(s[i + 2]) && is_hex(s[i + 3]) && hex_value(s[i + 2]) < 8
            && decodable_from(s, i + 4)
    } else {
        decodable_from(s, i + 1)
    }
}

/// The text of `s` from place `i` on with its escapes decoded: `\n`, `\t`,
/// `\r`, `\\` and `\0` give one character each, `\x` and two hexadecimal
/// digits give the character of that number, and everything else, a last
/// backslash too, stays.
pub open spec fn decoded_from(s: Seq<char>, i: int) -> Seq<char>
    decreases s.len() - i,
{
    if i < 0 || i >= s.len() {
        Seq::empty()
    } else if i + 1 >= s.len() {
        seq![s[i]]
    } else if s[i] == '\\' && is_simple_escape(s[i + 1]) {
        seq![simple_escape(s[i + 1])] + decoded_from(s, i + 2)
    } else if s[i] == '\\' && s[i + 1] == 'x' && i + 3 < s.len() {
        seq![((hex_value(s[i + 2]) * 16 + hex_value(s[i + 3])) as char)] + decoded_from(s, i + 4)
    } else {
        seq![s[i]] + decoded_from(s, i + 1)
    }
}

/// Whether the escapes of a text can be decoded.
pub open spec fn decodable(s: Seq<char>) -> bool {
    decodable_from(s, 0)
}

/// A text with its escapes decoded.
pub open spec fn decoded(s: Seq<char>) -> Seq<char> {
    decoded_from(s, 0)
}

/// Whether the escapes of a text can be decoded.
pub fn can_decode(s: &str) -> (r: bool)
    ensures
        r == decodable(s@),
{
    let n = s.unicode_len();
    let mut i: usize = 0;
    while i < n && n - i > 1
        invariant
            i <= n,
            n == s@.len(),
            decodable(s@) == decodable_from(s@, i as int),
        decreases n - i,
    {
        let c = s.get_char(i);
        let d = s.get_char(i + 1);
        if c == '\\' && (d == 'n' || d == 't' || d == 'r' || d == '\\' || d == '0') {
            i = i + 2;
        } else if c == '\\' && d == 'x' {
            if n - i <= 3 {
                return false;
            }
            let h = s.get_char(i + 2);
            let l = s.get_char(i + 3);
            let high_ok = '0' <= h && h <= '7';
            let low_ok = ('0' <= l && l <= '9') || ('a' <= l && l <= 'f') || ('A' <= l && l
                <= 'F');
            if !(high_ok && low_ok) {
                return false;
            }
            i = i + 4;
        } else {
            i = i + 1;
        }
    }
    true
}

/// Decodes the escapes of a text with `backslash::escape_ascii`. Left out are
/// the texts on which that function would stop the program or find no text to
/// give back; on the others it gives the text with each escape replaced by
/// its character.
#[verifier::external_body]
fn decode_escapes(text: &str) -> (r: Option<String>)
    requires
        decodable(text@),
    ensures
        r is Some,
        r.unwrap()@ == decoded(text@),
{
    backslash::escape_ascii(text).ok()
}

/// The home directory of a user as `homedir::home` finds it; `None` where
/// the system knows no such user or the lookup fails.
#[verifier::external_body]
fn home_of(user: &str) -> (r: Option<String>) {
    homedir::home(user).ok().flatten().map(|dir| dir.to_string_lossy().into_owned())
}

/// The paths that match a pattern as `glob::glob` yields them; none where the
/// pattern is not well formed.
#[verifier::external_body]
fn glob_paths(pattern: &str) -> (r: Vec<String>) {
    match glob::glob(pattern) {
        Ok(paths) => paths.filter_map(|found| found.ok()).map(
            |path| path.to_string_lossy().into_owned(),
        ).collect(),
        Err(_) => Vec::new(),
    }
}

/// The first place at or after `i` that holds `}`, or the length of `s`.
pub open spec fn brace_end(s: Seq<char>, i: int) -> int
    decreases s.len() - i,
{
    if i < 0 || i >= s.len() {
        s.len() as int
    } else if s[i] == '}' {
        i
    } else {
        brace_end(s, i + 1)
    }
}

/// Whether the character ends a name that follows a bare `$`.
pub open spec fn is_name_end(c: char) -> bool {
    c == ' ' || c == '\\' || c == ':' || c == '-'
}

/// The first place at or after `i` that ends a bare name, or the length of
/// `s`.
pub open spec fn bare_end(s: Seq<char>, i: int) -> int
    decreases s.len() - i,
{
    if i < 0 || i >= s.len() {
        s.len() as int
    } else if is_name_end(s[i]) {
        i
    } else {
        bare_end(s, i + 1)
    }
}

/// Where a name ends lies between where it starts and the end of the text.
pub proof fn lemma_ends_bounds(s: Seq<char>, i: int)
    requires
        0 <= i <= s.len(),
    ensures
        i <= brace_end(s, i) <= s.len(),
        i <= bare_end(s, i) <= s.len(),
    decreases s.len() - i,
{
    if i < s.len() {
        lemma_ends_bounds(s, i + 1);
    }
}

impl Store {
    /// What stands between positional parameters that are joined: the first
    /// character of `IFS`, or nothing where `IFS` is not set or is empty.
    pub open spec fn separator(self) -> Seq<char> {
        match self.get("IFS"@) {
            Some(v) => if v.contents.text().len() > 0 {
                seq![v.contents.text()[0]]
            } else {
                Seq::empty()
            },
            None => Seq::empty(),
        }
    }

    /// The positional parameters after the name in front, written out.
    pub open spec fn arguments(self) -> Seq<Seq<char>> {
        if self.params.len() == 0 {
            Seq::empty()
        } else {
            Seq::new((self.params.len() - 1) as nat, |i: int| self.params[i + 1].contents.text())
        }
    }

    /// The number of positional parameters after the name in front.
    pub open spec fn argument_count(self) -> nat {
        if self.params.len() == 0 {
            0
        } else {
            (self.params.len() - 1) as nat
        }
    }

    /// What the parameter `name` expands to, as a list of at most one text:
    /// `*` and `@` give the arguments joined by the separator, `$` the
    /// process id, `#` the number of arguments, any other name the variable
    /// it stands for, and nothing where there is no such variable.
    pub open spec fn parameter_parts(self, name: Seq<char>) -> Seq<Seq<char>> {
        if name == seq!['*'] || name == seq!['@'] {
            seq![joined(self.arguments(), self.separator())]
        } else if name == seq!['$'] {
            seq![decimal(self.pid as nat)]
        } else if name == seq!['#'] {
            seq![decimal(self.argument_count())]
        } else {
            match self.get(name) {
                Some(v) => seq![v.contents.text()],
                None => Seq::empty(),
            }
        }
    }

    /// The text that the parameter `name` expands to.
    pub open spec fn parameter(self, name: Seq<char>) -> Seq<char> {
        if self.parameter_parts(name).len() == 0 {
            Seq::empty()
        } else {
            self.parameter_parts(name)[0]
        }
    }

    /// The text of `s` from place `i` on with its parameters put in: `\$` is
    /// a dollar sign, `${name}` reads to the closing brace, `$name` reads up
    /// to a space, backslash, colon or hyphen, a `$` at the very end stays,
    /// and every other character is kept.
    pub open spec fn substituted_from(self, s: Seq<char>, i: int) -> Seq<char>
        decreases s.len() - i,
    {
        if i < 0 || i >= s.len() {
            Seq::empty()
        } else if s[i] == '\\' && i + 1 < s.len() && s[i + 1] == '$' {
            seq!['$'] + self.substituted_from(s, i + 2)
        } else if s[i] != '$' {
            seq![s[i]] + self.substituted_from(s, i + 1)
        } else if i + 1 >= s.len() {
            seq!['$']
        } else if s[i + 1] == '{' {
            let e = brace_end(s, i + 2);
            proof {
                lemma_ends_bounds(s, i + 2);
            }
            self.parameter(s.subrange(i + 2, e)) + self.substituted_from(
                s,
                if e < s.len() {
                    e + 1
                } else {
                    e
                },
            )
        } else {
            let e = bare_end(s, i + 1);
            proof {
                lemma_ends_bounds(s, i + 1);
            }
            self.parameter(s.subrange(i + 1, e)) + self.substituted_from(s, e)
        }
    }

    /// A text with its parameters put in.
    pub open spec fn substituted(self, s: Seq<char>) -> Seq<char> {
        self.substituted_from(s, 0)
    }
}

/// A text without a dollar sign is its own substitution.
pub proof fn lemma_substituted_without_dollar(store: Store, s: Seq<char>, i: int)
    requires
        0 <= i <= s.len(),
        forall|j: int| 0 <= j < s.len() ==> s[j] != '$',
    ensures
        store.substituted_from(s, i) == s.subrange(i, s.len() as int),
    decreases s.len() - i,
{
    if i < s.len() {
        lemma_substituted_without_dollar(store, s, i + 1);
    } else {
    }
}

/// The first place at or after `i` that holds `/`, or the length of `s`.
pub open spec fn slash_at(s: Seq<char>, i: int) -> int
    decreases s.len() - i,
{
    if i < 0 || i >= s.len() {
        s.len() as int
    } else if s[i] == '/' {
        i
    } else {
        slash_at(s, i + 1)
    }
}

/// The first slash lies between where the search starts and the end.
pub proof fn lemma_slash_bounds(s: Seq<char>, i: int)
    requires
        0 <= i <= s.len(),
    ensures
        i <= slash_at(s, i) <= s.len(),
    decreases s.len() - i,
{
    if i < s.len() {
        lemma_slash_bounds(s, i + 1);
    }
}

/// Whether a word names a user after its tilde, as `~bob` and `~bob/bin` do.
pub open spec fn names_user(s: Seq<char>) -> bool {
    s.len() > 1 && s[0] == '~' && s[1] != '/'
}

/// A word with its tilde replaced. `~` and `~/...` take `home`; `~user` and
/// `~user/...` take `user_home`; a word without a tilde in front, and one
/// whose directory is not known, stays as it is.
pub open spec fn tilde_text(
    s: Seq<char>,
    home: Option<Seq<char>>,
    user_home: Option<Seq<char>>,
) -> Seq<char> {
    if s.len() == 0 || s[0] != '~' {
        s
    } else if s.len() == 1 || s[1] == '/' {
        match home {
            Some(h) => h + s.subrange(1, s.len() as int),
            None => s,
        }
    } else {
        match user_home {
            Some(h) => h + s.subrange(slash_at(s, 1), s.len() as int),
            None => s,
        }
    }
}

impl Store {
    /// The home directory that `HOME` gives.
    pub open spec fn home(self) -> Option<Seq<char>> {
        match self.get("HOME"@) {
            Some(v) => Some(v.contents.text()),
            None => None,
        }
    }
}

impl Value {
    /// The value with its escapes decoded: only a text that still awaits its
    /// parameters is touched, and only where its escapes can be decoded.
    pub open spec fn unescaped(self) -> Value {
        match self {
            Value::ParameterSubstitution(s) => Value::ParameterSubstitution(
                if decodable(s) {
                    decoded(s)
                } else {
                    s
                },
            ),
            other => other,
        }
    }

    /// The value with its tilde replaced: only an unquoted word is touched.
    pub open spec fn tilde_expanded(self, store: Store, user_home: Option<Seq<char>>) -> Value {
        match self {
            Value::BareWord(s) => Value::BareWord(tilde_text(s, store.home(), user_home)),
            other => other,
        }
    }

    /// The value with its parameters put in: a text that awaits them becomes
    /// a plain text, every other value stays as it is.
    pub open spec fn with_parameters(self, store: Store) -> Value {
        match self {
            Value::ParameterSubstitution(s) => Value::PlainString(store.substituted(s)),
            other => other,
        }
    }

    /// The values that pathname expansion makes of this one, given the
    /// paths that match it: a quoted value stays alone, an unquoted word
    /// gives its matches, or itself as a plain text where nothing matches.
    pub open spec fn globbed(self, matches: Seq<Seq<char>>) -> Seq<Value> {
        if self.quoted() {
            seq![self]
        } else if matches.len() == 0 {
            seq![Value::PlainString(self.text())]
        } else {
            matches.map_values(|m: Seq<char>| Value::PlainString(m))
        }
    }
}

/// The views of a list of values.
pub open spec fn values(v: Seq<ElviType>) -> Seq<Value> {
    v.map_values(|x: ElviType| x@)
}

/// The texts of a list of values.
pub open spec fn value_texts(v: Seq<ElviType>) -> Seq<Seq<char>> {
    v.map_values(|x: ElviType| x@.text())
}

/// Find the closing brace of a name.
fn find_brace_end(s: &str, from: usize) -> (e: usize)
    requires
        from <= s@.len(),
    ensures
        e == brace_end(s@, from as int),
        from <= e <= s@.len(),
{
    let n = s.unicode_len();
    let mut i = from;
    while i < n
        invariant
            from <= i <= n,
            n == s@.len(),
            brace_end(s@, from as int) == brace_end(s@, i as int),
        decreases n - i,
    {
        if s.get_char(i) == '}' {
            return i;
        }
        i = i + 1;
    }
    i
}

/// Find the end of a bare name.
fn find_bare_end(s: &str, from: usize) -> (e: usize)
    requires
        from <= s@.len(),
    ensures
        e == bare_end(s@, from as int),
        from <= e <= s@.len(),
{
    let n = s.unicode_len();
    let mut i = from;
    while i < n
        invariant
            from <= i <= n,
            n == s@.len(),
            bare_end(s@, from as int) == bare_end(s@, i as int),
        decreases n - i,
    {
        let c = s.get_char(i);
        if c == ' ' || c == '\\' || c == ':' || c == '-' {
            return i;
        }
        i = i + 1;
    }
    i
}

/// Find the first slash.
fn find_slash(s: &str, from: usize) -> (e: usize)
    requires
        from <= s@.len(),
    ensures
        e == slash_at(s@, from as int),
        from <= e <= s@.len(),
{
    let n = s.unicode_len();
    let mut i = from;
    while i < n
        invariant
            from <= i <= n,
            n == s@.len(),
            slash_at(s@, from as int) == slash_at(s@, i as int),
        decreases n - i,
    {
        if s.get_char(i) == '/' {
            return i;
        }
        i = i + 1;
    }
    i
}

/// Replace the tilde of a word, given the two directories it may stand for.
pub fn tilde_text_with(text: &str, home: Option<&String>, user_home: Option<&String>) -> (r: String)
    ensures
        r@ == tilde_text(
            text@,
            match home {
                Some(h) => Some(h@),
                None => None,
            },
            match user_home {
                Some(h) => Some(h@),
                None => None,
            },
        ),
{
    let n = text.unicode_len();
    if n == 0 || text.get_char(0) != '~' {
        return String::from_str(text);
    }
    if n == 1 || text.get_char(1) == '/' {
        match home {
            Some(h) => {
                let mut out = h.clone();
                out.append(text.substring_char(1, n));
                out
            },
            None => String::from_str(text),
        }
    } else {
        match user_home {
            Some(h) => {
                let from = find_slash(text, 1);
                let mut out = h.clone();
                out.append(text.substring_char(from, n));
                out
            },
            None => String::from_str(text),
        }
    }
}

/// Join the texts of values, `sep` between each two.
fn join_values(parts: &[ElviType], sep: &str) -> (r: String)
    ensures
        r@ == joined(value_texts(parts@), sep@),
{
    let mut out = String::new();
    let mut i: usize = 0;
    while i < parts.len()
        invariant
            i <= parts.len(),
            out@ == joined(value_texts(parts@).subrange(0, i as int), sep@),
        decreases parts.len() - i,
    {
        let ghost before = value_texts(parts@).subrange(0, i as int);
        let ghost after = value_texts(parts@).subrange(0, i + 1);
        assert(after.drop_last() =~= before);
        if i > 0 {
            out.append(sep);
        }
        out.append(parts[i].to_string().as_str());
        i = i + 1;
    }
    assert(value_texts(parts@).subrange(0, i as int) =~= value_texts(parts@));
    out
}

/// The values written out and joined by the first character of `IFS`, or by
/// nothing where `IFS` is not set or is empty.
pub fn split_ifs(to_split: &[ElviType], vars: &Variables) -> (r: String)
    ensures
        r@ == joined(value_texts(to_split@), vars@.separator()),
{
    let sep = match vars.get_variable("IFS") {
        Some(v) => {
            let text = v.contents.to_string();
            if text.unicode_len() > 0 {
                String::from_str(text.as_str().substring_char(0, 1))
            } else {
                String::new()
            }
        },
        None => String::new(),
    };
    assert(sep@ =~= vars@.separator());
    join_values(to_split, sep.as_str())
}

impl ElviType {
    /// Decode the escapes of a text that still awaits its parameters; any
    /// other value, and a text whose escapes cannot be decoded, is handed
    /// back as it is.
    pub fn eval_escapes(&self) -> (r: Self)
        ensures
            r@ == self@.unescaped(),
    {
        match self {
            ElviType::VariableSubstitution(text) => {
                if can_decode(text.as_str()) {
                    match decode_escapes(text.as_str()) {
                        Some(t) => ElviType::VariableSubstitution(t),
                        None => self.clone(),
                    }
                } else {
                    self.clone()
                }
            },
            _ => self.clone(),
        }
    }

    /// Replace the tilde of an unquoted word, given the home directory of
    /// the user it names, if it names one.
    pub fn tilde_expansion_with(&self, vars: &Variables, user_home: Option<&String>) -> (r: Self)
        ensures
            r@ == self@.tilde_expanded(
                vars@,
                match user_home {
                    Some(h) => Some(h@),
                    None => None,
                },
            ),
    {
        match self {
            ElviType::BareString(text) => {
                let home = match vars.get_variable("HOME") {
                    Some(v) => Some(v.contents.to_string()),
                    None => None,
                };
                ElviType::BareString(tilde_text_with(text.as_str(), home.as_ref(), user_home))
            },
            _ => self.clone(),
        }
    }

    /// Replace the tilde of an unquoted word: `~` and `~/...` take `HOME`,
    /// `~user` and `~user/...` take the home directory that the system
    /// knows for `user`. A word whose directory is not known stays as it is.
    pub fn tilde_expansion(&self, vars: &Variables) -> (r: Self)
        ensures
            exists|user_home: Option<Seq<char>>| r@ == self@.tilde_expanded(vars@, user_home),
            !(self@ matches Value::BareWord(s) && names_user(s)) ==> r@ == self@.tilde_expanded(
                vars@,
                None,
            ),
    {
        let user_home = match self {
            ElviType::BareString(text) => {
                let n = text.as_str().unicode_len();
                if n > 1 && text.as_str().get_char(0) == '~' && text.as_str().get_char(1) != '/' {
                    let to = find_slash(text.as_str(), 1);
                    home_of(text.as_str().substring_char(1, to))
                } else {
                    None
                }
            },
            _ => None,
        };
        let r = self.tilde_expansion_with(vars, user_home.as_ref());
        r
    }

    /// What a parameter expands to, as a list of at most one text.
    pub fn expand_param(&self, var: &str, variables: &Variables) -> (r: Vec<String>)
        ensures
            texts(r@) == variables@.parameter_parts(var@),
    {
        proof {
            reveal_strlit("*");
            reveal_strlit("@");
            reveal_strlit("$");
            reveal_strlit("#");
            assert("*"@ =~= seq!['*'] && "@"@ =~= seq!['@'] && "$"@ =~= seq!['$'] && "#"@ =~= seq![
                '#',
            ]);
        }
        let mut out: Vec<String> = Vec::new();
        if same_text(var, "*") || same_text(var, "@") {
            let params = variables.pull_parameters();
            let mut rest: Vec<ElviType> = Vec::new();
            let mut i: usize = 1;
            while i < params.len()
                invariant
                    1 <= i,
                    i <= params@.len() || i == 1,
                    rest@.len() == if i <= params@.len() {
                        i - 1
                    } else {
                        0
                    },
                    forall|j: int| 0 <= j < rest@.len() ==> rest@[j] == params@[j + 1].contents,
                decreases params.len() - i,
            {
                rest.push(params[i].contents.clone());
                i = i + 1;
            }
            assert(value_texts(rest@) =~= variables@.arguments()) by {
                assert forall|j: int| 0 <= j < rest@.len() implies value_texts(rest@)[j]
                    == variables@.arguments()[j] by {
                }
            }
            out.push(split_ifs(rest.as_slice(), variables));
        } else if same_text(var, "$") {
            out.push(number_text(variables.pid() as u64));
        } else if same_text(var, "#") {
            let n = variables.len_parameters();
            out.push(number_text((if n == 0 { 0 } else { n - 1 }) as u64));
        } else {
            match variables.get_variable(var) {
                Some(v) => {
                    out.push(v.contents.to_string());
                },
                None => {},
            }
        }
        out
    }

    /// Put the parameters into a text that awaits them, which makes it a
    /// plain text; any other value is handed back as it is.
    pub fn eval_variables(&self, vars: &Variables) -> (r: Self)
        ensures
            r@ == self@.with_parameters(vars@),
    {
        match self {
            ElviType::VariableSubstitution(text) => {
                let s = text.as_str();
                let n = s.unicode_len();
                let mut out = String::new();
                let mut i: usize = 0;
                while i < n
                    invariant
                        i <= n,
                        n == s@.len(),
                        out@ + vars@.substituted_from(s@, i as int) == vars@.substituted(s@),
                    decreases n - i,
                {
                    proof {
                        reveal_strlit("$");
                    }
                    let ghost rest = vars@.substituted_from(s@, i as int);
                    let ghost before = out@;
                    let c = s.get_char(i);
                    if c == '\\' && n - i > 1 && s.get_char(i + 1) == '$' {
                        out.append("$");
                        assert(out@ + vars@.substituted_from(s@, i + 2) =~= before + rest);
                        i = i + 2;
                    } else if c != '$' {
                        out.append(s.substring_char(i, i + 1));
                        i = i + 1;
                    } else if n - i <= 1 {
                        out.append("$");
                        i = n;
                    } else if s.get_char(i + 1) == '{' {
                        let e = find_brace_end(s, i + 2);
                        let parts = self.expand_param(s.substring_char(i + 2, e), vars);
                        if parts.len() > 0 {
                            out.append(parts[0].as_str());
                        }
                        i = if e < n {
                            e + 1
                        } else {
                            e
                        };
                    } else {
                        let e = find_bare_end(s, i + 1);
                        let parts = self.expand_param(s.substring_char(i + 1, e), vars);
                        if parts.len() > 0 {
                            out.append(parts[0].as_str());
                        }
                        i = e;
                    }
                }
                ElviType::String(out)
            },
            _ => self.clone(),
        }
    }

    /// The values that pathname expansion makes of this one, given the paths
    /// that match it.
    pub fn globbed(&self, matches: Vec<String>) -> (r: Vec<ElviType>)
        ensures
            values(r@) == self@.globbed(texts(matches@)),
    {
        let mut out: Vec<ElviType> = Vec::new();
        if self.is_quoted() {
            out.push(self.clone());
        } else if matches.len() == 0 {
            out.push(ElviType::String(self.to_string()));
        } else {
            let mut i: usize = 0;
            while i < matches.len()
                invariant
                    i <= matches.len(),
                    out@.len() == i,
                    forall|j: int|
                        0 <= j < i ==> (#[trigger] out@[j])@ == Value::PlainString(
                            matches@[j]@,
                        ),
                decreases matches.len() - i,
            {
                out.push(ElviType::String(matches[i].clone()));
                i = i + 1;
            }
        }
        out
    }

    /// Pathname expansion: an unquoted word gives the paths that match it,
    /// or itself as a plain text where none does; a quoted value stays
    /// alone. The result is never empty.
    pub fn expand_globs(&self) -> (r: Vec<ElviType>)
        ensures
            exists|matches: Seq<Seq<char>>| values(r@) == self@.globbed(matches),
            r@.len() >= 1,
            self@.quoted() ==> values(r@) == seq![self@],
    {
        let matches = if self.is_quoted() {
            Vec::new()
        } else {
            glob_paths(self.to_string().as_str())
        };
        let r = self.globbed(matches);
        assert(values(r@).len() == r@.len());
        r
    }
}

/// A value that holds no dollar sign is not changed by putting parameters
/// in, but for a text that awaited them becoming a plain text of the same
/// characters.
pub proof fn lemma_expansion_is_idempotent(v: Value, store: Store)
    requires
        forall|j: int| 0 <= j < v.text().len() ==> v.text()[j] != '$',
    ensures
        v.with_parameters(store).text() == v.text(),
        v is PlainString ==> v.with_parameters(store) == v,
        v.with_parameters(store).with_parameters(store) == v.with_parameters(store),
{
    match v {
        Value::ParameterSubstitution(s) => {
            assert forall|j: int| 0 <= j < s.len() implies s[j] != '$' by {
                assert(v.text()[j] != '$');
            }
            lemma_substituted_without_dollar(store, s, 0);
        },
        _ => {},
    }
}

/// Pathname expansion never gives an empty list: a pattern that matches
/// nothing gives itself alone, as a plain text, and a quoted value gives
/// itself alone whatever matches.
pub proof fn lemma_glob_fallback(v: Value, matches: Seq<Seq<char>>)
    ensures
        v.globbed(matches).len() >= 1,
        v.quoted() ==> v.globbed(matches) == seq![v],
        !v.quoted() && matches.len() == 0 ==> v.globbed(matches) == seq![
            Value::PlainString(v.text()),
        ],
{
}

} // verus!
