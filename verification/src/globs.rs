//! The glob engine, `globset`, as the rest of the library sees it.
//!
//! Nothing in this file is proved. Each function below makes one call into
//! `globset`, and its contract records what that crate's source shows of the
//! call. What a glob pattern means is not written out here: whether a pattern
//! parses and whether it matches a path are decided by the engine alone, and
//! the contracts do no more than give those two decisions a name. Every glob
//! is parsed with the separator kept literal, so `*` and `?` never match a
//! `/`; that much of the meaning is fixed by how the engine is called.

use globset::{Glob, GlobBuilder, GlobSet, GlobSetBuilder};
use vstd::prelude::*;

verus! {

/// `globset::Glob`, one parsed pattern.
#[verifier::external_type_specification]
#[verifier::external_body]
pub struct ExGlob(globset::Glob);

/// `globset::GlobSetBuilder`, the patterns gathered for one matcher.
#[verifier::external_type_specification]
#[verifier::external_body]
pub struct ExGlobSetBuilder(globset::GlobSetBuilder);

/// `globset::GlobSet`, a matcher over several patterns.
#[verifier::external_type_specification]
#[verifier::external_body]
pub struct ExGlobSet(globset::GlobSet);

/// `globset::Error`, the reason a pattern or a matcher was refused.
#[verifier::external_type_specification]
#[verifier::external_body]
pub struct ExGlobError(globset::Error);

/// Whether `GlobBuilder::build` accepts `pattern`. Meant for portable
/// patterns only.
pub uninterp spec fn glob_parses(pattern: Seq<char>) -> bool;

/// Whether the glob written as `pattern`, parsed with the separator kept
/// literal, matches `path`, as `GlobSet::is_match` decides it for a glob of
/// the matcher. Meant for portable patterns and paths only.
pub uninterp spec fn glob_matches(pattern: Seq<char>, path: Seq<char>) -> bool;

/// The pattern text that a `Glob` holds: the text it was parsed from, which
/// `Glob::glob` hands out.
pub uninterp spec fn glob_text(glob: Glob) -> Seq<char>;

/// The pattern texts of the globs added to a builder, in the order added.
pub uninterp spec fn builder_texts(builder: GlobSetBuilder) -> Seq<Seq<char>>;

/// The pattern texts of the globs a matcher was built from, in order.
pub uninterp spec fn set_texts(set: GlobSet) -> Seq<Seq<char>>;

/// A text without a backslash.
///
/// `globset` asks the platform whether `\` separates paths. Where it does
/// not, a backslash in a pattern escapes the next character; where it does,
/// a backslash in a pattern stands for a separator and one in a path is
/// rewritten to `/`. A text without a backslash is read alike on every
/// platform, so only of such texts do the contracts below say what the
/// engine decides.
pub open spec fn portable(text: Seq<char>) -> bool {
    !text.contains('\\')
}

/// `GlobSetBuilder::new`: a builder that holds no glob yet.
#[verifier::external_body]
pub(crate) fn new_builder() -> (builder: GlobSetBuilder)
    ensures
        builder_texts(builder) == Seq::<Seq<char>>::empty(),
{
    GlobSetBuilder::new()
}

/// `GlobBuilder::new`, `GlobBuilder::literal_separator` and
/// `GlobBuilder::build`: parses `pattern` with the separator kept literal and
/// every other option as the engine sets it.
///
/// A glob that comes back remembers the text it was parsed from. Whether a
/// portable pattern is accepted depends on the pattern alone.
#[verifier::external_body]
pub(crate) fn parse_glob(pattern: &str) -> (parsed: Result<Glob, globset::Error>)
    ensures
        parsed matches Ok(glob) ==> glob_text(glob) == pattern@,
        portable(pattern@) ==> (parsed is Ok <==> glob_parses(pattern@)),
{
    GlobBuilder::new(pattern).literal_separator(true).build()
}

/// `GlobSetBuilder::add`: appends `glob` to the globs of the builder.
#[verifier::external_body]
pub(crate) fn builder_add(builder: &mut GlobSetBuilder, glob: Glob)
    ensures
        builder_texts(*final(builder)) == builder_texts(*old(builder)).push(glob_text(glob)),
{
    builder.add(glob);
}

/// `GlobSetBuilder::build`: a matcher over the globs added so far.
///
/// The builder with no glob always yields the empty matcher. For any other
/// the engine may refuse: it bounds the size of what it compiles, counted in
/// bytes as this machine lays them out, so nothing is said here of when.
#[verifier::external_body]
pub(crate) fn builder_build(builder: &GlobSetBuilder) -> (built: Result<GlobSet, globset::Error>)
    ensures
        built matches Ok(set) ==> set_texts(set) == builder_texts(*builder),
        builder_texts(*builder).len() == 0 ==> built is Ok,
{
    builder.build()
}

/// `GlobSet::is_match`: whether any glob of the matcher matches `path`.
///
/// A hit comes from one of the globs of the matcher, so where all of them are
/// portable one of them matches. A miss means that no portable glob of the
/// matcher matches. The matcher without globs never hits.
#[verifier::external_body]
pub(crate) fn set_is_match(set: &GlobSet, path: &str) -> (hit: bool)
    requires
        portable(path@),
    ensures
        hit ==> exists|i: int|
            0 <= i < set_texts(*set).len() && (portable(#[trigger] set_texts(*set)[i])
                ==> glob_matches(set_texts(*set)[i], path@)),
        !hit ==> forall|i: int|
            0 <= i < set_texts(*set).len() && portable(#[trigger] set_texts(*set)[i])
                ==> !glob_matches(set_texts(*set)[i], path@),
{
    set.is_match(path)
}

/// The text that a `globset::Error` displays. Nothing is claimed of its
/// wording.
#[verifier::external_body]
pub(crate) fn error_text(error: &globset::Error) -> (text: String) {
    error.to_string()
}

} // verus!
