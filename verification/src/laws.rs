//! What the contract of a classification implies, stated and proved once for
//! every request.
//!
//! The laws speak of patterns as they were given. They hold of portable
//! patterns, the only ones of which the engine's decisions have a name, and
//! they hold of every outcome that the contract allows: a call may still end
//! in a matcher error, which the engine alone decides.

use crate::anchor::{anchored, lemma_anchored_keeps_portable};
use crate::classify::{
    allows_error, allows_result, element_fails, element_wins, elements_miss, ignore_hits,
    ignore_passes, may_match, may_miss, may_parse, may_refuse, pattern_matches, pattern_parses,
    refused_at,
};
use crate::globs::portable;
use crate::model::{ElementModel, ErrorModel, PatternOrigin, RequestModel, ResultModel};
use crate::normalize::normalized;
use vstd::prelude::*;

verus! {

/// The path that the patterns of `request` are tried against.
pub open spec fn relative_path(request: RequestModel) -> Seq<char> {
    normalized(request.file_path, request.root_path)
}

/// Every pattern of `request` is portable, so the engine decides alike on
/// every platform whether it parses and what it matches.
pub open spec fn request_is_portable(request: RequestModel) -> bool {
    &&& forall|j: int| 0 <= j < request.ignore.len() ==> portable(#[trigger] request.ignore[j])
    &&& forall|j: int|
        0 <= j < request.elements.len() ==> portable((#[trigger] request.elements[j]).pattern)
}

/// An ignore match wins over any element, whatever the winner is.
pub proof fn lemma_resolved_ignore_wins(winner: Option<ElementModel>)
    ensures
        ResultModel::resolved(true, winner) == ResultModel::ignored(),
{
}

/// A request without ignore patterns and without elements has one outcome:
/// the path is unknown. No error is possible.
pub proof fn lemma_empty_request_is_unknown(request: RequestModel)
    requires
        request.ignore.len() == 0,
        request.elements.len() == 0,
    ensures
        allows_result(request, ResultModel::unknown()),
        forall|result: ResultModel| allows_result(request, result) ==> result == ResultModel::unknown(),
        forall|error: ErrorModel| !allows_error(request, error),
{
    let path = relative_path(request);
    assert forall|result: ResultModel| allows_result(request, result) implies result
        == ResultModel::unknown() by {
        assert(forall|k: int| !element_wins(request.elements, path, k));
    }
    assert forall|error: ErrorModel| !allows_error(request, error) by {
        assert(forall|k: int| !element_fails(request.elements, path, k, error));
    }
}

/// A result names an element type only for a path that it reports as known,
/// and the type it names is that of an element of the request.
pub proof fn lemma_result_is_consistent(request: RequestModel, result: ResultModel)
    requires
        allows_result(request, result),
    ensures
        result.is_consistent(),
        result.matched_element_type matches Some(element_type) ==> exists|k: int|
            0 <= k < request.elements.len() && (#[trigger] request.elements[k]).element_type
                == element_type,
{
    let path = relative_path(request);
    if result.matched_element_type is Some {
        let k = choose|k: int|
            #[trigger] element_wins(request.elements, path, k) && result == ResultModel::matched(
                request.elements[k].element_type,
            );
        assert(request.elements[k].element_type == result.matched_element_type->Some_0);
    }
}

/// Ignore wins: where a portable ignore pattern matches the path, every
/// result reports the path as known and names no element type, whatever the
/// elements are and whichever of their patterns match the path too. No error
/// comes from an element either: the elements are never looked at.
pub proof fn lemma_ignore_wins(request: RequestModel, j: int)
    requires
        0 <= j < request.ignore.len(),
        portable(request.ignore[j]),
        pattern_matches(request.ignore[j], relative_path(request)),
    ensures
        forall|result: ResultModel| allows_result(request, result) ==> result == ResultModel::ignored(),
        forall|error: ErrorModel|
            allows_error(request, error) ==> may_refuse(request.ignore, PatternOrigin::Ignore, error),
{
    let path = relative_path(request);
    lemma_anchored_keeps_portable(request.ignore[j]);
    assert(!may_miss(anchored(request.ignore[j]), path));
    assert(!ignore_passes(request, path));
}

/// Ignore precedence in full: where an ignore pattern and the pattern of an
/// element both match the path and every ignore pattern is portable and
/// parses, the classification is the ignored one, or the engine refused to
/// build the matcher over the ignore patterns. Nothing else can come back.
pub proof fn lemma_ignore_wins_over_element(request: RequestModel, j: int, k: int)
    requires
        forall|i: int|
            0 <= i < request.ignore.len() ==> portable(#[trigger] request.ignore[i])
                && pattern_parses(request.ignore[i]),
        0 <= j < request.ignore.len(),
        pattern_matches(request.ignore[j], relative_path(request)),
        0 <= k < request.elements.len(),
        pattern_matches(request.elements[k].pattern, relative_path(request)),
    ensures
        forall|result: ResultModel| allows_result(request, result) ==> result == ResultModel::ignored(),
        forall|error: ErrorModel|
            allows_error(request, error) ==> (error matches ErrorModel::MatcherBuild {
                origin,
                patterns,
                ..
            } && origin == PatternOrigin::Ignore && patterns == request.ignore),
{
    lemma_ignore_wins(request, j);
    assert forall|error: ErrorModel| allows_error(request, error) implies (error matches ErrorModel::MatcherBuild {
        origin,
        patterns,
        ..
    } && origin == PatternOrigin::Ignore && patterns == request.ignore) by {
        if error is PatternCompile {
            let at = choose|at: int| #[trigger] refused_at(request.ignore, at);
            lemma_anchored_keeps_portable(request.ignore[at]);
            assert(portable(request.ignore[at]) && pattern_parses(request.ignore[at]));
        }
    }
}

/// First match wins: where no ignore pattern matches and element `k` is the
/// first whose pattern matches the path, every result names the type of
/// element `k`, whatever the elements behind it match.
pub proof fn lemma_first_match_wins(request: RequestModel, result: ResultModel, k: int)
    requires
        allows_result(request, result),
        forall|j: int|
            0 <= j < request.ignore.len() ==> portable(#[trigger] request.ignore[j])
                && !pattern_matches(request.ignore[j], relative_path(request)),
        0 <= k < request.elements.len(),
        forall|j: int|
            0 <= j < k ==> portable((#[trigger] request.elements[j]).pattern) && !pattern_matches(
                request.elements[j].pattern,
                relative_path(request),
            ),
        portable(request.elements[k].pattern),
        pattern_matches(request.elements[k].pattern, relative_path(request)),
    ensures
        result == ResultModel::matched(request.elements[k].element_type),
{
    let path = relative_path(request);
    if ignore_hits(request, path) {
        let j = choose|j: int|
            0 <= j < request.ignore.len() && may_match(anchored(#[trigger] request.ignore[j]), path);
        lemma_anchored_keeps_portable(request.ignore[j]);
        assert(portable(request.ignore[j]));
    }
    assert(!ignore_hits(request, path));
    lemma_anchored_keeps_portable(request.elements[k].pattern);
    assert(!may_miss(anchored(request.elements[k].pattern), path));
    assert(!elements_miss(request.elements, path, request.elements.len() as int));
    let w = choose|w: int|
        #[trigger] element_wins(request.elements, path, w) && result == ResultModel::matched(
            request.elements[w].element_type,
        );
    if w < k {
        lemma_anchored_keeps_portable(request.elements[w].pattern);
        assert(portable(request.elements[w].pattern));
    }
    if k < w {
        assert(may_miss(anchored(request.elements[k].pattern), path));
    }
}

/// Where no pattern of a portable request matches the path, every result
/// reports the path as unknown.
pub proof fn lemma_no_match_is_unknown(request: RequestModel, result: ResultModel)
    requires
        allows_result(request, result),
        request_is_portable(request),
        forall|j: int|
            0 <= j < request.ignore.len() ==> !pattern_matches(
                #[trigger] request.ignore[j],
                relative_path(request),
            ),
        forall|j: int|
            0 <= j < request.elements.len() ==> !pattern_matches(
                (#[trigger] request.elements[j]).pattern,
                relative_path(request),
            ),
    ensures
        result == ResultModel::unknown(),
{
    let path = relative_path(request);
    if ignore_hits(request, path) {
        let j = choose|j: int|
            0 <= j < request.ignore.len() && may_match(anchored(#[trigger] request.ignore[j]), path);
        lemma_anchored_keeps_portable(request.ignore[j]);
        assert(portable(request.ignore[j]));
    }
    assert forall|k: int| !element_wins(request.elements, path, k) by {
        if 0 <= k < request.elements.len() {
            lemma_anchored_keeps_portable(request.elements[k].pattern);
            assert(portable(request.elements[k].pattern));
        }
    }
}

/// A portable request has at most one result.
pub proof fn lemma_result_is_determined(request: RequestModel, a: ResultModel, b: ResultModel)
    requires
        request_is_portable(request),
        allows_result(request, a),
        allows_result(request, b),
    ensures
        a == b,
{
    let path = relative_path(request);
    if ignore_hits(request, path) {
        let j = choose|j: int|
            0 <= j < request.ignore.len() && may_match(anchored(#[trigger] request.ignore[j]), path);
        lemma_anchored_keeps_portable(request.ignore[j]);
        assert(portable(request.ignore[j]));
        lemma_ignore_wins(request, j);
    } else if exists|k: int| element_wins(request.elements, path, k) {
        let k = choose|k: int| element_wins(request.elements, path, k);
        assert forall|j: int| 0 <= j < request.ignore.len() implies portable(
            #[trigger] request.ignore[j],
        ) && !pattern_matches(request.ignore[j], path) by {
            lemma_anchored_keeps_portable(request.ignore[j]);
            assert(may_miss(anchored(request.ignore[j]), path));
        }
        assert forall|j: int| 0 <= j < k implies portable((#[trigger] request.elements[j]).pattern)
            && !pattern_matches(request.elements[j].pattern, path) by {
            lemma_anchored_keeps_portable(request.elements[j].pattern);
            assert(may_miss(anchored(request.elements[j].pattern), path));
        }
        lemma_anchored_keeps_portable(request.elements[k].pattern);
        assert(portable(request.elements[k].pattern));
        lemma_first_match_wins(request, a, k);
        lemma_first_match_wins(request, b, k);
    }
}

/// On a portable request a pattern error and a result exclude each other:
/// where a pattern error is possible, no result is.
pub proof fn lemma_pattern_error_excludes_result(
    request: RequestModel,
    error: ErrorModel,
    result: ResultModel,
)
    requires
        request_is_portable(request),
        allows_error(request, error),
        error is PatternCompile,
    ensures
        !allows_result(request, result),
{
    let path = relative_path(request);
    if may_refuse(request.ignore, PatternOrigin::Ignore, error) {
        let k = choose|k: int| #[trigger] refused_at(request.ignore, k);
        lemma_anchored_keeps_portable(request.ignore[k]);
        assert(portable(request.ignore[k]));
        assert(!may_parse(anchored(request.ignore[k])));
    } else {
        let k = choose|k: int| #[trigger] element_fails(request.elements, path, k, error);
        lemma_failing_element_is_refused(request, error, k);
        assert forall|w: int| !element_wins(request.elements, path, w) by {
            if element_wins(request.elements, path, w) && w < k {
                lemma_anchored_keeps_portable(request.elements[w].pattern);
                assert(portable(request.elements[w].pattern));
                assert(may_miss(anchored(request.elements[w].pattern), path));
            }
        }
    }
}

/// On a portable request the pattern error is the same whenever there is
/// one: it names the first pattern that the engine does not accept, and the
/// list that the pattern stands in.
pub proof fn lemma_pattern_error_is_determined(
    request: RequestModel,
    first: ErrorModel,
    second: ErrorModel,
)
    requires
        request_is_portable(request),
        allows_error(request, first),
        allows_error(request, second),
        first is PatternCompile,
        second is PatternCompile,
    ensures
        second->PatternCompile_origin == first->PatternCompile_origin,
        second->PatternCompile_pattern == first->PatternCompile_pattern,
{
    let path = relative_path(request);
    let in_ignore_first = may_refuse(request.ignore, PatternOrigin::Ignore, first);
    let in_ignore_second = may_refuse(request.ignore, PatternOrigin::Ignore, second);
    if in_ignore_first && in_ignore_second {
        let a = choose|k: int|
            #[trigger] refused_at(request.ignore, k) && first->PatternCompile_pattern
                == request.ignore[k];
        let b = choose|k: int|
            #[trigger] refused_at(request.ignore, k) && second->PatternCompile_pattern
                == request.ignore[k];
        lemma_anchored_keeps_portable(request.ignore[a]);
        lemma_anchored_keeps_portable(request.ignore[b]);
        assert(portable(request.ignore[a]) && portable(request.ignore[b]));
        assert(a == b) by {
            if a < b {
                assert(may_parse(anchored(request.ignore[a])));
            }
            if b < a {
                assert(may_parse(anchored(request.ignore[b])));
            }
        }
    } else if in_ignore_first || in_ignore_second {
        let k = choose|k: int| #[trigger] refused_at(request.ignore, k);
        lemma_anchored_keeps_portable(request.ignore[k]);
        assert(portable(request.ignore[k]));
        assert(!may_parse(anchored(request.ignore[k])));
        assert(!ignore_passes(request, path));
    } else {
        let a = choose|k: int| #[trigger] element_fails(request.elements, path, k, first);
        let b = choose|k: int| #[trigger] element_fails(request.elements, path, k, second);
        lemma_failing_element_is_refused(request, first, a);
        lemma_failing_element_is_refused(request, second, b);
        assert(a == b) by {
            if a < b {
                assert(may_parse(anchored(request.elements[a].pattern)));
            }
            if b < a {
                assert(may_parse(anchored(request.elements[b].pattern)));
            }
        }
    }
}

/// The pattern error of element `k` names the pattern of that element, and
/// on a portable request the engine does not accept that pattern.
proof fn lemma_failing_element_is_refused(request: RequestModel, error: ErrorModel, k: int)
    requires
        request_is_portable(request),
        element_fails(request.elements, relative_path(request), k, error),
        error is PatternCompile,
    ensures
        error->PatternCompile_origin == PatternOrigin::Element,
        error->PatternCompile_pattern == request.elements[k].pattern,
        !may_parse(anchored(request.elements[k].pattern)),
{
    let only = seq![request.elements[k].pattern];
    let at = choose|at: int|
        #[trigger] refused_at(only, at) && error->PatternCompile_pattern == only[at];
    assert(at == 0);
    assert(only[0] == request.elements[k].pattern);
    lemma_anchored_keeps_portable(request.elements[k].pattern);
    assert(portable(request.elements[k].pattern));
}

} // verus!
