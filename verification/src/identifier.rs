//! Canonical content identifiers: a reference without its scheme prefix.

use vstd::prelude::*;
use crate::text::{chars_of, string_of};

verus! {

/// The scheme that content references carry.
pub const IPFS_SCHEME: &'static str = "ipfs://";

/// Whether `text` begins with `pattern`.
pub open spec fn starts_with(text: Seq<char>, pattern: Seq<char>) -> bool {
    pattern.len() <= text.len() && text.subrange(0, pattern.len() as int) == pattern
}

/// `reference` without its scheme prefix: what follows `scheme` where the
/// reference begins with it, and the reference itself where it does not.
/// Nothing after the prefix is touched.
pub open spec fn without_scheme(reference: Seq<char>, scheme: Seq<char>) -> Seq<char> {
    if starts_with(reference, scheme) {
        reference.skip(scheme.len() as int)
    } else {
        reference
    }
}

/// A scheme followed by a rest is canonical as the rest, whatever the rest
/// holds.
pub proof fn lemma_leading_scheme_is_stripped(scheme: Seq<char>, rest: Seq<char>)
    ensures
        without_scheme(scheme + rest, scheme) == rest,
{
    let whole = scheme + rest;
    assert(whole.subrange(0, scheme.len() as int) =~= scheme);
    assert(whole.skip(scheme.len() as int) =~= rest);
}

/// Whether `pattern` stands in `text` at position `at`.
fn stands_at(text: &Vec<char>, at: usize, pattern: &Vec<char>) -> (found: bool)
    requires
        at <= text.len(),
    ensures
        found == starts_with(text@.skip(at as int), pattern@),
{
    if pattern.len() > text.len() - at {
        return false;
    }
    let mut k: usize = 0;
    while k < pattern.len()
        invariant
            at + pattern.len() <= text.len(),
            k <= pattern.len(),
            forall|j: int| 0 <= j < k ==> text@[at + j] == pattern@[j],
        decreases pattern.len() - k,
    {
        if text[at + k] != pattern[k] {
            proof {
                let head = text@.skip(at as int).subrange(0, pattern.len() as int);
                assert(head[k as int] == text@[at + k]);
            }
            return false;
        }
        k += 1;
    }
    assert(text@.skip(at as int).subrange(0, pattern.len() as int) =~= pattern@);
    true
}

/// The canonical identifier of `reference`: the reference without its
/// scheme prefix.
pub fn strip_scheme(reference: &str, scheme: &str) -> (identifier: String)
    ensures
        identifier@ == without_scheme(reference@, scheme@),
{
    let text = chars_of(reference);
    let pattern = chars_of(scheme);
    assert(text@.skip(0) =~= text@);
    if !stands_at(&text, 0, &pattern) {
        return string_of(&text);
    }
    let mut kept: Vec<char> = Vec::new();
    let mut at: usize = pattern.len();
    while at < text.len()
        invariant
            pattern.len() <= at <= text.len(),
            kept@ == text@.subrange(pattern.len() as int, at as int),
        decreases text.len() - at,
    {
        kept.push(text[at]);
        at += 1;
    }
    assert(kept@ =~= text@.skip(pattern.len() as int));
    string_of(&kept)
}

/// The canonical identifier of a content reference.
pub fn canonical_identifier(reference: &str) -> (identifier: String)
    ensures
        identifier@ == without_scheme(reference@, IPFS_SCHEME@),
{
    strip_scheme(reference, IPFS_SCHEME)
}

} // verus!
