//! How a pattern is handed to the glob engine.
//!
//! The engine is asked to keep the separator literal, so that neither `*`
//! nor `?` matches a `/`. A pattern that holds a `/` is tried against the whole
//! relative path and goes to the engine as it is. A pattern without one is
//! meant for the last component of the path, wherever that component lies,
//! and goes to the engine behind `**/`.

use crate::globs::portable;
use vstd::prelude::*;
use vstd::string::*;

verus! {

/// The text `**/`, which lets a pattern start at any component of a path.
pub open spec fn any_directory() -> Seq<char> {
    seq!['*', '*', '/']
}

/// The text that stands for `pattern` in the glob engine: the pattern itself
/// where it holds a `/`, and the pattern behind `**/` where it holds none.
pub open spec fn anchored(pattern: Seq<char>) -> Seq<char> {
    if pattern.contains('/') {
        pattern
    } else {
        any_directory() + pattern
    }
}

/// The engine texts of a list of patterns, in order.
pub open spec fn anchored_all(patterns: Seq<Seq<char>>) -> Seq<Seq<char>> {
    Seq::new(patterns.len(), |i: int| anchored(patterns[i]))
}

/// Anchoring brings no backslash in and takes none out.
pub proof fn lemma_anchored_keeps_portable(pattern: Seq<char>)
    ensures
        portable(anchored(pattern)) == portable(pattern),
{
    let text = anchored(pattern);
    if !pattern.contains('/') {
        if pattern.contains('\\') {
            let i = choose|i: int| 0 <= i < pattern.len() && pattern[i] == '\\';
            assert(text[i + 3] == '\\');
        }
        if text.contains('\\') {
            let i = choose|i: int| 0 <= i < text.len() && text[i] == '\\';
            assert(i >= 3);
            assert(pattern[i - 3] == '\\');
        }
    }
}

/// A pattern that holds a `/` is its own engine text, so anchoring twice is
/// anchoring once.
pub proof fn lemma_anchored_is_idempotent(pattern: Seq<char>)
    ensures
        anchored(pattern).contains('/'),
        anchored(anchored(pattern)) == anchored(pattern),
{
    if !pattern.contains('/') {
        assert(anchored(pattern)[2] == '/');
    }
}

/// Whether `text` holds a `/`.
fn has_separator(text: &str) -> (found: bool)
    ensures
        found == text@.contains('/'),
{
    let mut found = false;
    for c in it: text.chars()
        invariant
            it.seq() == text@,
            found == it.seq().take(it.index()).contains('/'),
    {
        proof {
            let seen = it.seq().take(it.index());
            let next = it.seq().take(it.index() + 1);
            assert(next =~= seen.push(c));
            if seen.contains('/') {
                let i = choose|i: int| 0 <= i < seen.len() && seen[i] == '/';
                assert(next[i] == '/');
            }
            if c == '/' {
                assert(next[it.index()] == '/');
            }
        }
        if c == '/' {
            found = true;
        }
    }
    assert(text@.take(text@.len() as int) =~= text@);
    found
}

/// The text that stands for `pattern` in the glob engine.
///
/// A pattern that holds a `/` is given back as it is. A pattern without one
/// is given back behind `**/`, so that it is tried against the last component
/// of a path.
pub fn anchored_pattern(pattern: &str) -> (text: String)
    ensures
        text@ == anchored(pattern@),
{
    if has_separator(pattern) {
        String::from_str(pattern)
    } else {
        let mut text = String::from_str("**/");
        proof {
            reveal_strlit("**/");
            assert("**/"@ =~= any_directory());
        }
        text.append(pattern);
        text
    }
}

} // verus!
