//! The commit message convention: which subject lines are acceptable.

use vstd::prelude::*;
use crate::error::ConfigError;
use crate::text::{chars_of, has_text, same_text, text_at};

verus! {

/// A rule that commit subjects are held to.
#[derive(Debug, Clone, Copy, PartialEq, Eq, Structural)]
pub enum Convention {
    /// `type(scope): text`, with the type from a closed set.
    Conventional,
}

/// The convention that a configuration names, if it is a known one.
pub open spec fn known_convention(name: Seq<char>) -> Option<Convention> {
    if name == "conventional"@ {
        Some(Convention::Conventional)
    } else {
        None
    }
}

/// The commit types that the conventional form admits.
pub open spec fn is_commit_type(ty: Seq<char>) -> bool {
    ||| ty == "feat"@
    ||| ty == "fix"@
    ||| ty == "chore"@
    ||| ty == "docs"@
    ||| ty == "refactor"@
    ||| ty == "test"@
    ||| ty == "perf"@
    ||| ty == "ci"@
    ||| ty == "build"@
}

/// A character allowed inside a scope: a lower-case ASCII letter, a digit or
/// a hyphen.
pub open spec fn is_scope_char(c: char) -> bool {
    ('a' <= c && c <= 'z') || ('0' <= c && c <= '9') || c == '-'
}

/// A scope is one or more scope characters.
pub open spec fn is_scope(scope: Seq<char>) -> bool {
    scope.len() > 0 && forall|i: int| 0 <= i < scope.len() ==> is_scope_char(#[trigger] scope[i])
}

/// What stands between the type and the colon: nothing, or a scope in
/// parentheses.
pub open spec fn scope_part(scope: Option<Seq<char>>) -> Seq<char> {
    match scope {
        Some(sc) => seq!['('] + sc + seq![')'],
        None => Seq::empty(),
    }
}

/// `subject` is `ty`, then the optional scope in parentheses, then a colon and
/// a space, then `rest`.
pub open spec fn conventional_parts(
    subject: Seq<char>,
    ty: Seq<char>,
    scope: Option<Seq<char>>,
    rest: Seq<char>,
) -> bool {
    &&& is_commit_type(ty)
    &&& scope matches Some(sc) ==> is_scope(sc)
    &&& rest.len() > 0
    &&& subject == ty + scope_part(scope) + seq![':', ' '] + rest
}

/// A subject follows the conventional form when it splits into an admitted
/// type, an optional scope, `": "` and a non-empty remainder.
pub open spec fn is_conventional(subject: Seq<char>) -> bool {
    exists|ty: Seq<char>, scope: Option<Seq<char>>, rest: Seq<char>|
        conventional_parts(subject, ty, scope, rest)
}

/// Every admitted type is non-empty and holds neither `(` nor `:`.
pub proof fn lemma_commit_type_shape(ty: Seq<char>)
    requires
        is_commit_type(ty),
    ensures
        ty.len() > 0,
        forall|i: int| 0 <= i < ty.len() ==> #[trigger] ty[i] != '(' && ty[i] != ':',
{
    reveal_strlit("feat");
    reveal_strlit("fix");
    reveal_strlit("chore");
    reveal_strlit("docs");
    reveal_strlit("refactor");
    reveal_strlit("test");
    reveal_strlit("perf");
    reveal_strlit("ci");
    reveal_strlit("build");
}

fn scope_char(c: char) -> (ok: bool)
    ensures
        ok == is_scope_char(c),
{
    ('a' <= c && c <= 'z') || ('0' <= c && c <= '9') || c == '-'
}

/// Whether the first `n` characters of `s` spell `word`.
fn prefix_is(s: &Vec<char>, n: usize, word: &str) -> (same: bool)
    requires
        n <= s.len(),
    ensures
        same == (s@.take(n as int) == word@),
{
    let w = chars_of(word);
    if w.len() != n {
        return false;
    }
    let mut i: usize = 0;
    while i < n
        invariant
            i <= n,
            n <= s.len(),
            w.len() == n,
            w@ == word@,
            forall|j: int| 0 <= j < i ==> s@[j] == w@[j],
        decreases n - i,
    {
        if s[i] != w[i] {
            return false;
        }
        i += 1;
    }
    assert(s@.take(n as int) =~= w@);
    true
}

fn prefix_is_type(s: &Vec<char>, n: usize) -> (ok: bool)
    requires
        n <= s.len(),
    ensures
        ok == is_commit_type(s@.take(n as int)),
{
    prefix_is(s, n, "feat") || prefix_is(s, n, "fix") || prefix_is(s, n, "chore") || prefix_is(
        s,
        n,
        "docs",
    ) || prefix_is(s, n, "refactor") || prefix_is(s, n, "test") || prefix_is(s, n, "perf")
        || prefix_is(s, n, "ci") || prefix_is(s, n, "build")
}

/// `n` is where the first `(` or `:` of `s` stands, or the length of `s` if
/// it holds neither.
pub open spec fn is_type_end(s: Seq<char>, n: int) -> bool {
    &&& 0 <= n <= s.len()
    &&& forall|j: int| 0 <= j < n ==> #[trigger] s[j] != '(' && s[j] != ':'
    &&& n < s.len() ==> s[n] == '(' || s[n] == ':'
}

/// Where the parts of a conventional subject must stand, given where its
/// first `(` or `:` is.
pub proof fn lemma_parts_positions(
    s: Seq<char>,
    ty: Seq<char>,
    scope: Option<Seq<char>>,
    rest: Seq<char>,
    n: int,
)
    requires
        conventional_parts(s, ty, scope, rest),
        is_type_end(s, n),
    ensures
        ty.len() == n,
        n < s.len(),
        ty == s.take(n),
        scope is None ==> s[n] == ':' && n + 2 < s.len() && s[n + 1] == ' ',
        scope matches Some(sc) ==> {
            &&& s[n] == '('
            &&& n + 4 + sc.len() < s.len()
            &&& sc == s.subrange(n + 1, n + 1 + sc.len())
            &&& s[n + 1 + sc.len()] == ')'
            &&& s[n + 2 + sc.len()] == ':'
            &&& s[n + 3 + sc.len()] == ' '
        },
{
    lemma_commit_type_shape(ty);
    let mid = scope_part(scope);
    let t = ty.len() as int;
    if scope is Some {
        assert(mid[0] == '(');
    }
    if t < n {
        assert(s[t] != '(' && s[t] != ':');
    }
    if n < t {
        assert(ty[n] != '(' && ty[n] != ':');
    }
}

/// Whether `subject` follows the conventional form.
pub fn is_conventional_subject(subject: &str) -> (ok: bool)
    ensures
        ok == is_conventional(subject@),
{
    let s = chars_of(subject);
    let len = s.len();
    let mut n: usize = 0;
    while n < len && s[n] != '(' && s[n] != ':'
        invariant
            n <= len,
            len == s.len(),
            forall|j: int| 0 <= j < n ==> #[trigger] s@[j] != '(' && s@[j] != ':',
        decreases len - n,
    {
        n += 1;
    }
    if n >= len || !prefix_is_type(&s, n) {
        assert forall|ty: Seq<char>, scope: Option<Seq<char>>, rest: Seq<char>|
            !conventional_parts(s@, ty, scope, rest) by {
            if conventional_parts(s@, ty, scope, rest) {
                lemma_parts_positions(s@, ty, scope, rest, n as int);
            }
        }
        return false;
    }
    if s[n] == ':' {
        let ok = len - n > 2 && s[n + 1] == ' ';
        proof {
            if ok {
                let ty = s@.take(n as int);
                let rest = s@.subrange(n + 2, len as int);
                assert(s@ =~= ty + scope_part(None) + seq![':', ' '] + rest);
                assert(conventional_parts(s@, ty, None, rest));
            } else {
                assert forall|ty: Seq<char>, scope: Option<Seq<char>>, rest: Seq<char>|
                    !conventional_parts(s@, ty, scope, rest) by {
                    if conventional_parts(s@, ty, scope, rest) {
                        lemma_parts_positions(s@, ty, scope, rest, n as int);
                    }
                }
            }
        }
        return ok;
    }
    let mut m: usize = n + 1;
    while m < len && scope_char(s[m])
        invariant
            n < m <= len,
            len == s.len(),
            forall|j: int| n < j < m ==> is_scope_char(#[trigger] s@[j]),
        decreases len - m,
    {
        m += 1;
    }
    let ok = m > n + 1 && len - m > 3 && s[m] == ')' && s[m + 1] == ':' && s[m + 2] == ' ';
    proof {
        if ok {
            let ty = s@.take(n as int);
            let sc = s@.subrange(n + 1, m as int);
            let rest = s@.subrange(m + 3, len as int);
            assert(s@ =~= ty + scope_part(Some(sc)) + seq![':', ' '] + rest);
            assert(conventional_parts(s@, ty, Some(sc), rest));
        } else {
            assert forall|ty: Seq<char>, scope: Option<Seq<char>>, rest: Seq<char>|
                !conventional_parts(s@, ty, scope, rest) by {
                if conventional_parts(s@, ty, scope, rest) {
                    lemma_parts_positions(s@, ty, scope, rest, n as int);
                }
            }
        }
    }
    ok
}

/// Every subject made of an admitted type, an optional scope in parentheses,
/// a colon and a space, and a non-empty remainder is conventional.
pub proof fn lemma_conventional_form_is_valid(
    ty: Seq<char>,
    scope: Option<Seq<char>>,
    rest: Seq<char>,
)
    requires
        is_commit_type(ty),
        scope matches Some(sc) ==> is_scope(sc),
        rest.len() > 0,
    ensures
        is_conventional(ty + scope_part(scope) + seq![':', ' '] + rest),
{
    let subject = ty + scope_part(scope) + seq![':', ' '] + rest;
    assert(conventional_parts(subject, ty, scope, rest));
}

/// A subject that nowhere holds a colon followed by a space is not
/// conventional; the empty subject is one such.
pub proof fn lemma_without_colon_space_is_invalid(subject: Seq<char>)
    requires
        !has_text(subject, seq![':', ' ']),
    ensures
        !is_conventional(subject),
{
    if is_conventional(subject) {
        let (ty, scope, rest) = choose|ty: Seq<char>, scope: Option<Seq<char>>, rest: Seq<char>|
            conventional_parts(subject, ty, scope, rest);
        let at = (ty.len() + scope_part(scope).len()) as int;
        assert(subject.subrange(at, at + 2) =~= seq![':', ' ']);
        assert(text_at(subject, seq![':', ' '], at));
    }
}

/// A subject that does not begin with an admitted type is not conventional,
/// whatever follows.
pub proof fn lemma_without_type_is_invalid(subject: Seq<char>)
    requires
        forall|n: int| 0 <= n <= subject.len() ==> !is_commit_type(#[trigger] subject.take(n)),
    ensures
        !is_conventional(subject),
{
    if is_conventional(subject) {
        let (ty, scope, rest) = choose|ty: Seq<char>, scope: Option<Seq<char>>, rest: Seq<char>|
            conventional_parts(subject, ty, scope, rest);
        assert(subject.take(ty.len() as int) =~= ty);
    }
}

impl Convention {
    /// Whether the convention admits `subject`.
    pub open spec fn accepts(self, subject: Seq<char>) -> bool {
        match self {
            Convention::Conventional => is_conventional(subject),
        }
    }

    /// Whether the convention admits `subject`.
    pub fn is_match(&self, subject: &str) -> (ok: bool)
        ensures
            ok == self.accepts(subject@),
    {
        match self {
            Convention::Conventional => is_conventional_subject(subject),
        }
    }
}

/// Resolves the name of a convention. An unknown name is refused, with the
/// name in the error.
pub fn convention_for(name: &str) -> (found: Result<Convention, ConfigError>)
    ensures
        match found {
            Ok(c) => known_convention(name@) == Some(c),
            Err(e) => known_convention(name@) is None && (e matches ConfigError::UnsupportedConvention {
                name: refused,
            } && refused@ == name@),
        },
{
    if same_text(name, "conventional") {
        Ok(Convention::Conventional)
    } else {
        Err(ConfigError::UnsupportedConvention { name: name.to_owned() })
    }
}

} // verus!
