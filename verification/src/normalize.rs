//! Turning a file path and a project root into a root-relative path that
//! uses `/` as its only separator.

use vstd::prelude::*;

verus! {

/// `String::push` appends one character to the end of the string.
pub assume_specification[ String::push ](text: &mut String, c: char)
    ensures
        final(text)@ == old(text)@.push(c),
;

/// The two characters that separate path components.
pub open spec fn is_separator(c: char) -> bool {
    c == '/' || c == '\\'
}

/// A backslash becomes a forward slash; every other character stays.
pub open spec fn slash_of(c: char) -> char {
    if c == '\\' {
        '/'
    } else {
        c
    }
}

/// `s` with every backslash replaced by a forward slash.
pub open spec fn with_forward_slashes(s: Seq<char>) -> Seq<char> {
    Seq::new(s.len(), |i: int| slash_of(s[i]))
}

/// How many separators stand at the front of `s`.
pub open spec fn leading_separators(s: Seq<char>) -> nat
    decreases s.len(),
{
    if s.len() > 0 && is_separator(s[0]) {
        1 + leading_separators(s.drop_first())
    } else {
        0
    }
}

/// The root-relative form of `path`.
///
/// Where `path` begins with `root`, the root and the separators that follow
/// it are dropped; otherwise the whole path is kept. Either way every
/// backslash of what is left becomes a forward slash.
pub open spec fn normalized(path: Seq<char>, root: Seq<char>) -> Seq<char> {
    if root.is_prefix_of(path) {
        let rest = path.skip(root.len() as int);
        with_forward_slashes(rest.skip(leading_separators(rest) as int))
    } else {
        with_forward_slashes(path)
    }
}

/// A path in relative form: it holds no backslash and does not begin with `/`.
pub open spec fn is_relative(s: Seq<char>) -> bool {
    &&& !s.contains('\\')
    &&& s.len() > 0 ==> s[0] != '/'
}

/// `leading_separators` counts exactly the separators that stand before the
/// first character that is none.
pub proof fn lemma_leading_separators(s: Seq<char>)
    ensures
        leading_separators(s) <= s.len(),
        forall|i: int| 0 <= i < leading_separators(s) ==> is_separator(#[trigger] s[i]),
        leading_separators(s) < s.len() ==> !is_separator(s[leading_separators(s) as int]),
    decreases s.len(),
{
    if s.len() > 0 && is_separator(s[0]) {
        let tail = s.drop_first();
        lemma_leading_separators(tail);
        assert forall|i: int| 0 <= i < leading_separators(s) implies is_separator(
            #[trigger] s[i],
        ) by {
            if i > 0 {
                assert(s[i] == tail[i - 1]);
            }
        }
        if leading_separators(s) < s.len() {
            assert(s[leading_separators(s) as int] == tail[leading_separators(tail) as int]);
        }
    }
}

/// No normalized path holds a backslash, whatever the path and the root.
pub proof fn lemma_normalized_has_no_backslash(path: Seq<char>, root: Seq<char>)
    ensures
        !normalized(path, root).contains('\\'),
{
    let result = normalized(path, root);
    assert forall|i: int| 0 <= i < result.len() implies result[i] != '\\' by {}
}

/// A path that begins with the root normalizes to a relative path: the result
/// holds no backslash and does not begin with `/`.
pub proof fn lemma_normalized_is_relative(path: Seq<char>, root: Seq<char>)
    requires
        root.is_prefix_of(path),
    ensures
        is_relative(normalized(path, root)),
{
    lemma_normalized_has_no_backslash(path, root);
    let rest = path.skip(root.len() as int);
    lemma_leading_separators(rest);
}

/// Normalizing is idempotent: a path that is already relative comes back
/// unchanged when it is normalized against the empty root.
pub proof fn lemma_normalize_relative_is_identity(s: Seq<char>)
    requires
        is_relative(s),
    ensures
        normalized(s, Seq::empty()) == s,
{
    let root = Seq::<char>::empty();
    assert(root.is_prefix_of(s));
    let rest = s.skip(0);
    assert(rest =~= s);
    assert(leading_separators(s) == 0) by {
        if s.len() > 0 {
            assert(s.contains(s[0]));
        }
    }
    assert(s.skip(0) =~= s);
    assert forall|i: int| 0 <= i < s.len() implies slash_of(s[i]) == s[i] by {
        assert(s.contains(s[i]));
    }
    assert(with_forward_slashes(s) =~= s);
}

/// Normalizing twice gives what normalizing once gives: the result of
/// normalizing a path that begins with its root is a fixed point of
/// normalizing against the empty root.
pub proof fn lemma_normalize_idempotent(path: Seq<char>, root: Seq<char>)
    requires
        root.is_prefix_of(path),
    ensures
        normalized(normalized(path, root), Seq::empty()) == normalized(path, root),
{
    lemma_normalized_is_relative(path, root);
    lemma_normalize_relative_is_identity(normalized(path, root));
}

/// The characters of `text`, in order.
fn collect_chars(text: &str) -> (chars: Vec<char>)
    ensures
        chars@ == text@,
{
    let mut chars: Vec<char> = Vec::new();
    for c in it: text.chars()
        invariant
            chars@ == it.seq().take(it.index()),
            it.seq() == text@,
    {
        chars.push(c);
    }
    chars
}

/// Whether `text` begins with `prefix`.
fn has_prefix(text: &Vec<char>, prefix: &Vec<char>) -> (found: bool)
    ensures
        found == prefix@.is_prefix_of(text@),
{
    if prefix.len() > text.len() {
        return false;
    }
    let mut i: usize = 0;
    while i < prefix.len()
        invariant
            i <= prefix.len() <= text.len(),
            forall|j: int| 0 <= j < i ==> prefix@[j] == text@[j],
        decreases prefix.len() - i,
    {
        if prefix[i] != text[i] {
            return false;
        }
        i += 1;
    }
    assert(prefix@ =~= text@.subrange(0, prefix@.len() as int));
    true
}

/// The index of the first character at or after `from` that is no separator,
/// or the length of `text` where only separators follow.
fn skip_separators(text: &Vec<char>, from: usize) -> (next: usize)
    requires
        from <= text.len(),
    ensures
        next == from + leading_separators(text@.skip(from as int)),
        next <= text.len(),
{
    let mut next: usize = from;
    while next < text.len() && (text[next] == '/' || text[next] == '\\')
        invariant
            from <= next <= text.len(),
            next + leading_separators(text@.skip(next as int)) == from + leading_separators(
                text@.skip(from as int),
            ),
        decreases text.len() - next,
    {
        assert(text@.skip(next as int).drop_first() =~= text@.skip(next + 1));
        next += 1;
    }
    next
}

/// The characters of `text` from `from` on, as a string, with every
/// backslash turned into a forward slash.
fn slashed_from(text: &Vec<char>, from: usize) -> (out: String)
    requires
        from <= text.len(),
    ensures
        out@ == with_forward_slashes(text@.skip(from as int)),
{
    let mut out = String::new();
    let mut i: usize = from;
    while i < text.len()
        invariant
            from <= i <= text.len(),
            out@ == with_forward_slashes(text@.subrange(from as int, i as int)),
        decreases text.len() - i,
    {
        let c = text[i];
        if c == '\\' {
            out.push('/');
        } else {
            out.push(c);
        }
        i += 1;
    }
    assert(text@.subrange(from as int, text@.len() as int) =~= text@.skip(from as int));
    out
}

/// Makes `path` relative to `root`.
///
/// Where `path` begins with `root`, that prefix and every separator that follows
/// it are removed. Where it does not, the path is kept whole. In both cases each
/// backslash of the result is replaced by a forward slash. Nothing is looked up
/// on disk and no `.` or `..` component is resolved.
pub fn normalize_to_relative(path: &str, root: &str) -> (relative: String)
    ensures
        relative@ == normalized(path@, root@),
        !relative@.contains('\\'),
        root@.is_prefix_of(path@) ==> is_relative(relative@),
{
    let path_chars = collect_chars(path);
    let root_chars = collect_chars(root);
    let start = if has_prefix(&path_chars, &root_chars) {
        skip_separators(&path_chars, root_chars.len())
    } else {
        0
    };
    proof {
        assert(path@.skip(0) =~= path@);
        if root@.is_prefix_of(path@) {
            let rest = path@.skip(root@.len() as int);
            assert(rest.skip(leading_separators(rest) as int) =~= path@.skip(start as int));
            lemma_normalized_is_relative(path@, root@);
        }
        lemma_normalized_has_no_backslash(path@, root@);
    }
    slashed_from(&path_chars, start)
}

} // verus!
