//! Detection of staged files whose path looks like a credential artifact.

use vstd::prelude::*;
use crate::text::texts;

verus! {

/// Whether the glob `pattern` matches `path`, as `glob_match::glob_match`
/// decides it: `*` stays within one path segment, `**` crosses segments.
pub uninterp spec fn glob_matches(pattern: Seq<char>, path: Seq<char>) -> bool;

/// Largest path, in bytes, that the glob matcher takes: it keeps positions
/// in the path as 32-bit numbers.
pub open spec fn glob_path_fits(path: Seq<char>) -> bool {
    vstd::utf8::encode_utf8(path).len() < u32::MAX
}

/// Calls `glob_match::glob_match`. Not proved: that the answer is the one
/// named `glob_matches` for this pattern and path. The matcher reads only its
/// two arguments.
#[verifier::external_body]
fn glob_match_path(pattern: &str, path: &str) -> (hit: bool)
    requires
        glob_path_fits(path@),
    ensures
        hit == glob_matches(pattern@, path@),
{
    glob_match::glob_match(pattern, path)
}

/// A path is sensitive when at least one of the patterns matches it.
pub open spec fn is_sensitive(path: Seq<char>, patterns: Seq<Seq<char>>) -> bool {
    exists|k: int| 0 <= k < patterns.len() && glob_matches(#[trigger] patterns[k], path)
}

/// The sensitive paths among `staged`, in their order; an entry appears once
/// for each time it is staged, however many patterns match it.
pub open spec fn sensitive_paths(staged: Seq<Seq<char>>, patterns: Seq<Seq<char>>) -> Seq<
    Seq<char>,
> {
    staged.filter(|p: Seq<char>| is_sensitive(p, patterns))
}

/// The sensitive paths are a selection of the staged ones: each is staged
/// and matched by a pattern, each staged path that a pattern matches is among
/// them, and there are no more of them than staged paths.
pub proof fn lemma_sensitive_paths_select(staged: Seq<Seq<char>>, patterns: Seq<Seq<char>>)
    ensures
        sensitive_paths(staged, patterns).len() <= staged.len(),
        forall|i: int|
            0 <= i < sensitive_paths(staged, patterns).len() ==> {
                &&& is_sensitive(#[trigger] sensitive_paths(staged, patterns)[i], patterns)
                &&& staged.contains(sensitive_paths(staged, patterns)[i])
            },
        forall|j: int|
            0 <= j < staged.len() && is_sensitive(#[trigger] staged[j], patterns)
                ==> sensitive_paths(staged, patterns).contains(staged[j]),
{
    let pred = |p: Seq<char>| is_sensitive(p, patterns);
    let found = staged.filter(pred);
    staged.lemma_filter_len(pred);
    assert forall|i: int| 0 <= i < found.len() implies is_sensitive(#[trigger] found[i], patterns)
        && staged.contains(found[i]) by {
        staged.lemma_filter_pred(pred, i);
        staged.lemma_filter_contains_rev(pred, found[i]);
    }
    assert forall|j: int| 0 <= j < staged.len() && is_sensitive(
        #[trigger] staged[j],
        patterns,
    ) implies found.contains(staged[j]) by {
        staged.lemma_filter_contains(pred, j);
    }
}

/// With no pattern, no path is sensitive.
pub proof fn lemma_no_pattern_no_secret(staged: Seq<Seq<char>>)
    ensures
        sensitive_paths(staged, Seq::empty()) == Seq::<Seq<char>>::empty(),
{
    lemma_sensitive_paths_select(staged, Seq::empty());
    let found = sensitive_paths(staged, Seq::empty());
    if found.len() > 0 {
        assert(is_sensitive(found[0], Seq::empty()));
    }
}

/// Whether any of `patterns` matches `path`.
pub fn matches_any(path: &str, patterns: &[String]) -> (hit: bool)
    requires
        glob_path_fits(path@),
    ensures
        hit == is_sensitive(path@, texts(patterns@)),
{
    let mut k: usize = 0;
    while k < patterns.len()
        invariant
            k <= patterns.len(),
            glob_path_fits(path@),
            forall|j: int| 0 <= j < k ==> !glob_matches(#[trigger] texts(patterns@)[j], path@),
        decreases patterns.len() - k,
    {
        assert(texts(patterns@)[k as int] == patterns[k as int]@);
        if glob_match_path(patterns[k].as_str(), path) {
            return true;
        }
        k += 1;
    }
    false
}

/// The patterns used when the configuration names none: environment files
/// and their variants, PEM and private-key files, SSH private keys,
/// credential documents, PKCS12 and PFX archives.
pub open spec fn default_pattern_texts() -> Seq<Seq<char>> {
    seq![
        ".env"@,
        ".env.*"@,
        "*.pem"@,
        "*.key"@,
        "**/id_rsa"@,
        "**/id_rsa.pub"@,
        "**/credentials.json"@,
        "**/*.p12"@,
        "**/*.pfx"@,
    ]
}

/// The default patterns, in their fixed order.
pub fn default_patterns() -> (patterns: Vec<String>)
    ensures
        texts(patterns@) == default_pattern_texts(),
{
    let mut patterns: Vec<String> = Vec::new();
    patterns.push(".env".to_owned());
    patterns.push(".env.*".to_owned());
    patterns.push("*.pem".to_owned());
    patterns.push("*.key".to_owned());
    patterns.push("**/id_rsa".to_owned());
    patterns.push("**/id_rsa.pub".to_owned());
    patterns.push("**/credentials.json".to_owned());
    patterns.push("**/*.p12".to_owned());
    patterns.push("**/*.pfx".to_owned());
    patterns
}

/// Every path of the list is short enough for the glob matcher.
pub open spec fn paths_fit(staged: Seq<String>) -> bool {
    forall|i: int| 0 <= i < staged.len() ==> glob_path_fits(#[trigger] staged[i]@)
}

/// Whether every path of the list is short enough for the glob matcher.
pub fn all_paths_fit(staged: &[String]) -> (fit: bool)
    ensures
        fit == paths_fit(staged@),
{
    let mut i: usize = 0;
    while i < staged.len()
        invariant
            i <= staged.len(),
            forall|j: int| 0 <= j < i ==> glob_path_fits(#[trigger] staged@[j]@),
        decreases staged.len() - i,
    {
        let bytes = staged[i].as_str().as_bytes();
        if bytes.len() >= 0xffff_ffff {
            return false;
        }
        i += 1;
    }
    true
}

/// The items whose answer is `true`, in their order. There is one answer
/// for each item.
pub open spec fn kept(items: Seq<Seq<char>>, hits: Seq<bool>) -> Seq<Seq<char>>
    decreases items.len(),
{
    if items.len() == 0 || hits.len() != items.len() {
        Seq::empty()
    } else if hits.last() {
        kept(items.drop_last(), hits.drop_last()).push(items.last())
    } else {
        kept(items.drop_last(), hits.drop_last())
    }
}

/// Keeping the items whose answer is `true` is selecting by a predicate,
/// where each answer is what the predicate says of its item.
pub proof fn lemma_kept_selects(
    items: Seq<Seq<char>>,
    hits: Seq<bool>,
    pred: spec_fn(Seq<char>) -> bool,
)
    requires
        hits.len() == items.len(),
        forall|i: int| 0 <= i < items.len() ==> hits[i] == pred(#[trigger] items[i]),
    ensures
        kept(items, hits) == items.filter(pred),
    decreases items.len(),
{
    reveal(Seq::filter);
    if items.len() > 0 {
        lemma_kept_selects(items.drop_last(), hits.drop_last(), pred);
    }
}

/// Keeps the staged paths whose answer is `true`, in the order in which they
/// were staged. `hits` holds one answer for each path.
pub fn keep_matched(staged: &[String], hits: &[bool]) -> (found: Vec<String>)
    requires
        hits@.len() == staged@.len(),
    ensures
        texts(found@) == kept(texts(staged@), hits@),
{
    let mut found: Vec<String> = Vec::new();
    let mut i: usize = 0;
    while i < staged.len()
        invariant
            i <= staged.len(),
            hits@.len() == staged@.len(),
            texts(found@) == kept(texts(staged@).take(i as int), hits@.take(i as int)),
        decreases staged.len() - i,
    {
        proof {
            let upto = texts(staged@).take(i + 1);
            assert(upto.drop_last() =~= texts(staged@).take(i as int));
            assert(hits@.take(i + 1).drop_last() =~= hits@.take(i as int));
        }
        if hits[i] {
            found.push(staged[i].clone());
        }
        i += 1;
    }
    assert(texts(staged@).take(staged.len() as int) =~= texts(staged@));
    assert(hits@.take(staged.len() as int) =~= hits@);
    found
}

/// Says of each staged path whether at least one pattern matches it.
pub fn match_each(staged: &[String], patterns: &[String]) -> (hits: Vec<bool>)
    requires
        paths_fit(staged@),
    ensures
        hits@.len() == staged@.len(),
        forall|i: int|
            0 <= i < staged@.len() ==> hits@[i] == is_sensitive(
                #[trigger] texts(staged@)[i],
                texts(patterns@),
            ),
{
    let mut hits: Vec<bool> = Vec::new();
    let mut i: usize = 0;
    while i < staged.len()
        invariant
            i <= staged.len(),
            hits@.len() == i,
            paths_fit(staged@),
            forall|j: int|
                0 <= j < i ==> hits@[j] == is_sensitive(
                    #[trigger] texts(staged@)[j],
                    texts(patterns@),
                ),
        decreases staged.len() - i,
    {
        let hit = matches_any(staged[i].as_str(), patterns);
        hits.push(hit);
        i += 1;
    }
    hits
}

/// Keeps the staged paths that at least one pattern matches, in the order in
/// which they were staged.
pub fn check_sensitive_files(staged: &[String], patterns: &[String]) -> (found: Vec<String>)
    requires
        paths_fit(staged@),
    ensures
        texts(found@) == sensitive_paths(texts(staged@), texts(patterns@)),
{
    let hits = match_each(staged, patterns);
    proof {
        lemma_kept_selects(
            texts(staged@),
            hits@,
            |p: Seq<char>| is_sensitive(p, texts(patterns@)),
        );
    }
    keep_matched(staged, hits.as_slice())
}

} // verus!
