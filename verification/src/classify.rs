//! The classification itself: compiling the patterns of a request and trying
//! the normalized path against them, ignore patterns first, element patterns
//! after, in the order given.
//!
//! Every pattern reaches the glob engine as its anchored text. The contracts
//! below speak of that text wherever they say what the engine decides, and of
//! the pattern as it was given wherever they say what an error names.

use crate::anchor::{anchored, anchored_all, anchored_pattern};
use crate::globs::{
    builder_add, builder_build, builder_texts, error_text, glob_matches, glob_parses, new_builder,
    parse_glob, portable, set_is_match, set_texts,
};
use crate::model::{
    element_models, texts, AnalyzeFileError, AnalyzeFileInput, AnalyzeFileResult,
    ElementDescriptor, ElementModel, ErrorModel, PatternOrigin, RequestModel, ResultModel,
};
use crate::normalize::{normalize_to_relative, normalized};
use globset::{GlobSet, GlobSetBuilder};
use vstd::prelude::*;
use vstd::string::*;

verus! {

/// Nothing known of the engine text `pattern` rules out that it parses: it
/// is not portable, or the engine accepts it.
pub open spec fn may_parse(pattern: Seq<char>) -> bool {
    portable(pattern) ==> glob_parses(pattern)
}

/// Nothing known of the engine text `pattern` rules out that it is refused:
/// it is not portable, or the engine does not accept it.
pub open spec fn may_be_refused(pattern: Seq<char>) -> bool {
    portable(pattern) ==> !glob_parses(pattern)
}

/// Nothing known of the engine text `pattern` rules out that it matches
/// `path`.
pub open spec fn may_match(pattern: Seq<char>, path: Seq<char>) -> bool {
    portable(pattern) ==> glob_matches(pattern, path)
}

/// Nothing known of the engine text `pattern` rules out that it does not
/// match `path`.
pub open spec fn may_miss(pattern: Seq<char>, path: Seq<char>) -> bool {
    portable(pattern) ==> !glob_matches(pattern, path)
}

/// Whether the engine accepts `pattern`, a pattern as it was given.
pub open spec fn pattern_parses(pattern: Seq<char>) -> bool {
    glob_parses(anchored(pattern))
}

/// Whether `pattern`, a pattern as it was given, matches `path`.
pub open spec fn pattern_matches(pattern: Seq<char>, path: Seq<char>) -> bool {
    glob_matches(anchored(pattern), path)
}

/// Each of the first `count` patterns may parse, once anchored.
pub open spec fn all_may_parse(patterns: Seq<Seq<char>>, count: int) -> bool {
    forall|j: int| 0 <= j < count ==> may_parse(anchored(#[trigger] patterns[j]))
}

/// Pattern `k` is where compiling `patterns` may stop: every pattern before
/// it may parse, and it may be refused.
pub open spec fn refused_at(patterns: Seq<Seq<char>>, k: int) -> bool {
    &&& 0 <= k < patterns.len()
    &&& all_may_parse(patterns, k)
    &&& may_be_refused(anchored(patterns[k]))
}

/// Whether compiling `patterns`, taken from the list `origin`, may end in `error`.
///
/// A pattern error names the first pattern that does not parse, as it was
/// given. A matcher error names all the patterns as they were given; it comes
/// only after every one of them parsed, and never for an empty list.
pub open spec fn may_refuse(
    patterns: Seq<Seq<char>>,
    origin: PatternOrigin,
    error: ErrorModel,
) -> bool {
    match error {
        ErrorModel::InvalidRequest { .. } => false,
        ErrorModel::PatternCompile { origin: from, pattern, .. } => {
            &&& from == origin
            &&& exists|k: int| #[trigger] refused_at(patterns, k) && pattern == patterns[k]
        },
        ErrorModel::MatcherBuild { origin: from, patterns: named, .. } => {
            &&& from == origin
            &&& named == patterns
            &&& patterns.len() > 0
            &&& all_may_parse(patterns, patterns.len() as int)
        },
    }
}

/// An ignore pattern of `request` matches `path`: there are ignore patterns,
/// all of them parse, and one of them may match.
pub open spec fn ignore_hits(request: RequestModel, path: Seq<char>) -> bool {
    &&& request.ignore.len() > 0
    &&& all_may_parse(request.ignore, request.ignore.len() as int)
    &&& exists|j: int|
        0 <= j < request.ignore.len() && may_match(anchored(#[trigger] request.ignore[j]), path)
}

/// The ignore patterns of `request` let `path` through: there are none, or
/// all of them parse and none of them has to match.
pub open spec fn ignore_passes(request: RequestModel, path: Seq<char>) -> bool {
    request.ignore.len() > 0 ==> {
        &&& all_may_parse(request.ignore, request.ignore.len() as int)
        &&& forall|j: int|
            0 <= j < request.ignore.len() ==> may_miss(
                anchored(#[trigger] request.ignore[j]),
                path,
            )
    }
}

/// The first `count` elements were tried in vain: the pattern of each parses
/// and none of them has to match `path`.
pub open spec fn elements_miss(elements: Seq<ElementModel>, path: Seq<char>, count: int) -> bool {
    forall|j: int|
        0 <= j < count ==> may_parse(anchored((#[trigger] elements[j]).pattern)) && may_miss(
            anchored(elements[j].pattern),
            path,
        )
}

/// Element `k` is the first whose pattern matches `path`.
pub open spec fn element_wins(elements: Seq<ElementModel>, path: Seq<char>, k: int) -> bool {
    &&& 0 <= k < elements.len()
    &&& elements_miss(elements, path, k)
    &&& may_parse(anchored(elements[k].pattern))
    &&& may_match(anchored(elements[k].pattern), path)
}

/// Compiling the pattern of element `k` fails with `error`, after the
/// elements before it were tried in vain.
pub open spec fn element_fails(
    elements: Seq<ElementModel>,
    path: Seq<char>,
    k: int,
    error: ErrorModel,
) -> bool {
    &&& 0 <= k < elements.len()
    &&& elements_miss(elements, path, k)
    &&& may_refuse(seq![elements[k].pattern], PatternOrigin::Element, error)
}

/// Whether classifying `request` may give `result`.
///
/// The path is normalized first. An ignore pattern that matches makes the
/// path known without an element type, whatever the elements are. Otherwise
/// the first element whose pattern matches gives its type, and where there is
/// none the path is unknown.
pub open spec fn allows_result(request: RequestModel, result: ResultModel) -> bool {
    let path = normalized(request.file_path, request.root_path);
    ||| ignore_hits(request, path) && result == ResultModel::ignored()
    ||| ignore_passes(request, path) && exists|k: int|
        #[trigger] element_wins(request.elements, path, k) && result == ResultModel::matched(
            request.elements[k].element_type,
        )
    ||| ignore_passes(request, path) && elements_miss(
        request.elements,
        path,
        request.elements.len() as int,
    ) && result == ResultModel::unknown()
}

/// Whether classifying `request` may fail with `error`.
///
/// The ignore patterns are compiled before anything is matched. The pattern
/// of an element is compiled only when no ignore pattern and no earlier
/// element matched.
pub open spec fn allows_error(request: RequestModel, error: ErrorModel) -> bool {
    let path = normalized(request.file_path, request.root_path);
    ||| may_refuse(request.ignore, PatternOrigin::Ignore, error)
    ||| ignore_passes(request, path) && exists|k: int|
        #[trigger] element_fails(request.elements, path, k, error)
}

/// Parses the anchored text of `pattern` and adds the glob to `builder`, or
/// says why the text does not parse. The error names the pattern as given.
fn add_pattern(
    builder: &mut GlobSetBuilder,
    pattern: &str,
    origin: PatternOrigin,
) -> (added: Result<(), AnalyzeFileError>)
    ensures
        match added {
            Ok(_) => {
                &&& may_parse(anchored(pattern@))
                &&& builder_texts(*final(builder)) == builder_texts(*old(builder)).push(
                    anchored(pattern@),
                )
            },
            Err(error) => {
                &&& may_be_refused(anchored(pattern@))
                &&& error@ matches ErrorModel::PatternCompile { origin: from, pattern: text, .. }
                &&& from == origin
                &&& text == pattern@
            },
        },
{
    let text = anchored_pattern(pattern);
    match parse_glob(text.as_str()) {
        Ok(glob) => {
            builder_add(builder, glob);
            Ok(())
        },
        Err(refusal) => Err(
            AnalyzeFileError::PatternCompile {
                origin,
                pattern: String::from_str(pattern),
                reason: error_text(&refusal),
            },
        ),
    }
}

/// Builds the matcher over the globs of `builder`, or gives the reason why
/// it could not be built.
fn finish_matcher(builder: &GlobSetBuilder) -> (finished: Result<GlobSet, String>)
    ensures
        finished matches Ok(set) ==> set_texts(set) == builder_texts(*builder),
        builder_texts(*builder).len() == 0 ==> finished is Ok,
{
    match builder_build(builder) {
        Ok(set) => Ok(set),
        Err(refusal) => Err(error_text(&refusal)),
    }
}

/// A copy of `patterns`.
fn copy_patterns(patterns: &[String]) -> (copy: Vec<String>)
    ensures
        texts(copy@) == texts(patterns@),
{
    let mut copy: Vec<String> = Vec::new();
    let mut i: usize = 0;
    while i < patterns.len()
        invariant
            i <= patterns@.len(),
            copy@.len() == i,
            forall|j: int| 0 <= j < i ==> copy@[j]@ == patterns@[j]@,
        decreases patterns@.len() - i,
    {
        copy.push(patterns[i].clone());
        i += 1;
    }
    assert(texts(copy@) =~= texts(patterns@));
    copy
}

/// Compiles `patterns`, taken from the list `origin`, into one matcher.
///
/// The patterns are anchored and parsed in order, and the first that does not
/// parse ends the call with a pattern error that names it as it was given. The
/// matcher that comes back holds the anchored text of every pattern, in order.
/// The empty list always compiles.
pub fn compile_globset(
    patterns: &[String],
    origin: PatternOrigin,
) -> (compiled: Result<GlobSet, AnalyzeFileError>)
    ensures
        match compiled {
            Ok(set) => {
                &&& set_texts(set) == anchored_all(texts(patterns@))
                &&& all_may_parse(texts(patterns@), patterns@.len() as int)
            },
            Err(error) => may_refuse(texts(patterns@), origin, error@),
        },
        patterns@.len() == 0 ==> compiled is Ok,
{
    let mut builder = new_builder();
    let mut i: usize = 0;
    while i < patterns.len()
        invariant
            i <= patterns@.len(),
            builder_texts(builder) == anchored_all(texts(patterns@)).take(i as int),
            all_may_parse(texts(patterns@), i as int),
        decreases patterns@.len() - i,
    {
        match add_pattern(&mut builder, patterns[i].as_str(), origin) {
            Ok(_) => {},
            Err(error) => {
                assert(refused_at(texts(patterns@), i as int));
                return Err(error);
            },
        }
        assert(anchored_all(texts(patterns@)).take(i + 1) =~= anchored_all(texts(patterns@)).take(
            i as int,
        ).push(anchored(patterns@[i as int]@)));
        i += 1;
    }
    assert(anchored_all(texts(patterns@)).take(i as int) =~= anchored_all(texts(patterns@)));
    match finish_matcher(&builder) {
        Ok(set) => Ok(set),
        Err(reason) => Err(
            AnalyzeFileError::MatcherBuild { origin, patterns: copy_patterns(patterns), reason },
        ),
    }
}

/// Compiles the single `pattern`, taken from the list `origin`, into a
/// matcher over its anchored text.
pub fn compile_pattern(
    pattern: &str,
    origin: PatternOrigin,
) -> (compiled: Result<GlobSet, AnalyzeFileError>)
    ensures
        match compiled {
            Ok(set) => set_texts(set) == seq![anchored(pattern@)] && may_parse(anchored(pattern@)),
            Err(error) => may_refuse(seq![pattern@], origin, error@),
        },
{
    let mut builder = new_builder();
    match add_pattern(&mut builder, pattern, origin) {
        Ok(_) => {},
        Err(error) => {
            assert(refused_at(seq![pattern@], 0));
            return Err(error);
        },
    }
    assert(Seq::<Seq<char>>::empty().push(anchored(pattern@)) =~= seq![anchored(pattern@)]);
    match finish_matcher(&builder) {
        Ok(set) => Ok(set),
        Err(reason) => {
            let mut patterns: Vec<String> = Vec::new();
            patterns.push(String::from_str(pattern));
            assert(texts(patterns@) =~= seq![pattern@]);
            Err(AnalyzeFileError::MatcherBuild { origin, patterns, reason })
        },
    }
}

/// Whether one of the `ignore` patterns matches `path`.
///
/// With no pattern nothing is compiled and the answer is no.
fn is_ignored(ignore: &[String], path: &str) -> (ignored: Result<bool, AnalyzeFileError>)
    requires
        portable(path@),
    ensures
        match ignored {
            Ok(hit) => {
                &&& ignore@.len() > 0 ==> all_may_parse(texts(ignore@), ignore@.len() as int)
                &&& hit ==> exists|j: int|
                    0 <= j < ignore@.len() && may_match(
                        anchored(#[trigger] texts(ignore@)[j]),
                        path@,
                    )
                &&& !hit ==> forall|j: int|
                    0 <= j < ignore@.len() ==> may_miss(
                        anchored(#[trigger] texts(ignore@)[j]),
                        path@,
                    )
            },
            Err(error) => may_refuse(texts(ignore@), PatternOrigin::Ignore, error@),
        },
{
    if ignore.len() == 0 {
        return Ok(false);
    }
    match compile_globset(ignore, PatternOrigin::Ignore) {
        Ok(set) => {
            let hit = set_is_match(&set, path);
            proof {
                let given = texts(ignore@);
                if hit {
                    let i = choose|i: int|
                        0 <= i < set_texts(set).len() && (portable(#[trigger] set_texts(set)[i])
                            ==> glob_matches(set_texts(set)[i], path@));
                    assert(may_match(anchored(given[i]), path@));
                } else {
                    assert forall|j: int| 0 <= j < ignore@.len() implies may_miss(
                        anchored(#[trigger] given[j]),
                        path@,
                    ) by {
                        assert(set_texts(set)[j] == anchored(given[j]));
                    }
                }
            }
            Ok(hit)
        },
        Err(error) => Err(error),
    }
}

/// The index of the first element whose pattern matches `path`, if there is one.
///
/// The elements are tried in order and each pattern is compiled only when its
/// turn comes, so a pattern behind the first match is never looked at.
fn first_match(
    elements: &[ElementDescriptor],
    path: &str,
) -> (found: Result<Option<usize>, AnalyzeFileError>)
    requires
        portable(path@),
    ensures
        match found {
            Ok(Some(k)) => element_wins(element_models(elements@), path@, k as int),
            Ok(None) => elements_miss(element_models(elements@), path@, elements@.len() as int),
            Err(error) => exists|k: int|
                #[trigger] element_fails(element_models(elements@), path@, k, error@),
        },
{
    let mut i: usize = 0;
    while i < elements.len()
        invariant
            i <= elements@.len(),
            portable(path@),
            elements_miss(element_models(elements@), path@, i as int),
        decreases elements@.len() - i,
    {
        let ghost pattern = anchored(element_models(elements@)[i as int].pattern);
        match compile_pattern(elements[i].pattern.as_str(), PatternOrigin::Element) {
            Ok(matcher) => {
                if set_is_match(&matcher, path) {
                    return Ok(Some(i));
                }
                assert(set_texts(matcher)[0] == pattern);
            },
            Err(error) => {
                assert(element_fails(element_models(elements@), path@, i as int, error@));
                return Err(error);
            },
        }
        i += 1;
    }
    Ok(None)
}

/// Classifies the file of `input` against its element types.
///
/// The file path is made relative to the root. If an ignore pattern matches
/// the relative path, the file is known and no element type is named. Otherwise
/// the element whose pattern matches first, in the order given, names the type.
/// A file that nothing matches is unknown. A pattern that is no valid glob ends
/// the call with an error that names it; the pattern of an element behind the
/// first match is never compiled and so never reported.
///
/// A pattern that holds a `/` is tried against the whole relative path, one
/// without against its last component; `*` and `?` never match a `/`.
pub fn analyze_file(
    input: &AnalyzeFileInput,
) -> (outcome: Result<AnalyzeFileResult, AnalyzeFileError>)
    ensures
        match outcome {
            Ok(result) => allows_result(input@, result@) && result@.is_consistent(),
            Err(error) => allows_error(input@, error@),
        },
        input.ignore@.len() == 0 && input.elements@.len() == 0 ==> (outcome matches Ok(result)
            && result@ == ResultModel::unknown()),
{
    let relative = normalize_to_relative(input.file_path.as_str(), input.root_path.as_str());
    let ghost path = relative@;
    let ignored = match is_ignored(input.ignore.as_slice(), relative.as_str()) {
        Ok(hit) => hit,
        Err(error) => {
            return Err(error);
        },
    };
    if ignored {
        return Ok(AnalyzeFileResult::resolve(true, None));
    }
    assert(ignore_passes(input@, path));
    match first_match(input.elements.as_slice(), relative.as_str()) {
        Ok(Some(k)) => {
            let result = AnalyzeFileResult::resolve(false, Some(&input.elements[k]));
            assert(element_wins(input@.elements, path, k as int));
            assert(result@ == ResultModel::matched(input@.elements[k as int].element_type));
            Ok(result)
        },
        Ok(None) => Ok(AnalyzeFileResult::resolve(false, None)),
        Err(error) => Err(error),
    }
}

} // verus!
