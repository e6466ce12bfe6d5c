//! The records that go into and come out of a classification, and the
//! mathematical values that the contracts speak of.

use vstd::prelude::*;
use vstd::string::*;

verus! {

/// One element type of the taxonomy: a label chosen by the caller and the
/// glob pattern that selects the files of that type.
#[derive(Debug, Clone, PartialEq, Eq)]
pub struct ElementDescriptor {
    pub element_type: String,
    pub pattern: String,
}

/// What is asked: the file, the project root, the element types in order of
/// precedence, and the patterns of the files to ignore.
#[derive(Debug, Clone, PartialEq, Eq)]
pub struct AnalyzeFileInput {
    pub file_path: String,
    pub root_path: String,
    pub elements: Vec<ElementDescriptor>,
    pub ignore: Vec<String>,
}

/// What is answered: whether the path is known, and the element type that
/// matched where it is known through an element pattern.
#[derive(Debug, Clone, PartialEq, Eq)]
pub struct AnalyzeFileResult {
    pub known: bool,
    pub matched_element_type: Option<String>,
}

/// The list a pattern was taken from.
#[derive(Debug, Clone, Copy, PartialEq, Eq)]
pub enum PatternOrigin {
    Ignore,
    Element,
}

/// Why a classification could not be made.
#[derive(Debug, Clone, PartialEq, Eq)]
pub enum AnalyzeFileError {
    /// The request record was malformed or incomplete, so nothing was
    /// computed. This is for whoever decodes a request: a classification
    /// itself never ends in it.
    InvalidRequest { reason: String },
    /// One pattern is no valid glob: the list it stands in, the pattern as it
    /// was given, and the reason in the words of the glob engine.
    PatternCompile { origin: PatternOrigin, pattern: String, reason: String },
    /// Every pattern of a matcher is a valid glob, yet the glob engine could
    /// not build the matcher over them: the list the patterns stand in, the
    /// patterns of the matcher as they were given, and the reason in the
    /// words of the glob engine.
    MatcherBuild { origin: PatternOrigin, patterns: Vec<String>, reason: String },
}

/// An element descriptor as a mathematical value.
pub struct ElementModel {
    pub element_type: Seq<char>,
    pub pattern: Seq<char>,
}

/// A request as a mathematical value.
pub struct RequestModel {
    pub file_path: Seq<char>,
    pub root_path: Seq<char>,
    pub elements: Seq<ElementModel>,
    pub ignore: Seq<Seq<char>>,
}

/// A classification as a mathematical value.
pub struct ResultModel {
    pub known: bool,
    pub matched_element_type: Option<Seq<char>>,
}

/// An error as a mathematical value.
pub enum ErrorModel {
    InvalidRequest { reason: Seq<char> },
    PatternCompile { origin: PatternOrigin, pattern: Seq<char>, reason: Seq<char> },
    MatcherBuild { origin: PatternOrigin, patterns: Seq<Seq<char>>, reason: Seq<char> },
}

/// The character sequences of a list of strings.
pub open spec fn texts(strings: Seq<String>) -> Seq<Seq<char>> {
    Seq::new(strings.len(), |i: int| strings[i]@)
}

/// The models of a list of element descriptors.
pub open spec fn element_models(elements: Seq<ElementDescriptor>) -> Seq<ElementModel> {
    Seq::new(elements.len(), |i: int| elements[i]@)
}

impl View for ElementDescriptor {
    type V = ElementModel;

    open spec fn view(&self) -> ElementModel {
        ElementModel { element_type: self.element_type@, pattern: self.pattern@ }
    }
}

impl View for AnalyzeFileInput {
    type V = RequestModel;

    open spec fn view(&self) -> RequestModel {
        RequestModel {
            file_path: self.file_path@,
            root_path: self.root_path@,
            elements: element_models(self.elements@),
            ignore: texts(self.ignore@),
        }
    }
}

impl View for AnalyzeFileResult {
    type V = ResultModel;

    open spec fn view(&self) -> ResultModel {
        ResultModel {
            known: self.known,
            matched_element_type: match self.matched_element_type {
                Some(element_type) => Some(element_type@),
                None => None,
            },
        }
    }
}

impl View for AnalyzeFileError {
    type V = ErrorModel;

    open spec fn view(&self) -> ErrorModel {
        match self {
            AnalyzeFileError::InvalidRequest { reason } => ErrorModel::InvalidRequest {
                reason: reason@,
            },
            AnalyzeFileError::PatternCompile { origin, pattern, reason } => {
                ErrorModel::PatternCompile { origin: *origin, pattern: pattern@, reason: reason@ }
            },
            AnalyzeFileError::MatcherBuild { origin, patterns, reason } => {
                ErrorModel::MatcherBuild {
                    origin: *origin,
                    patterns: texts(patterns@),
                    reason: reason@,
                }
            },
        }
    }
}

impl ResultModel {
    /// The path is known because an ignore pattern matched it.
    pub open spec fn ignored() -> ResultModel {
        ResultModel { known: true, matched_element_type: None }
    }

    /// The path is known because the pattern of `element_type` matched it.
    pub open spec fn matched(element_type: Seq<char>) -> ResultModel {
        ResultModel { known: true, matched_element_type: Some(element_type) }
    }

    /// No pattern matched the path.
    pub open spec fn unknown() -> ResultModel {
        ResultModel { known: false, matched_element_type: None }
    }

    /// The classification that follows from what the patterns answered:
    /// whether an ignore pattern matched, and the first element whose pattern
    /// matched, if any. An ignore match wins over any element.
    pub open spec fn resolved(ignored: bool, winner: Option<ElementModel>) -> ResultModel {
        if ignored {
            ResultModel::ignored()
        } else {
            match winner {
                Some(element) => ResultModel::matched(element.element_type),
                None => ResultModel::unknown(),
            }
        }
    }

    /// An element type is named only for a path that is known.
    pub open spec fn is_consistent(self) -> bool {
        self.matched_element_type is Some ==> self.known
    }
}

impl ErrorModel {
    /// The text that describes the error to a caller.
    pub open spec fn message(self) -> Seq<char> {
        match self {
            ErrorModel::InvalidRequest { reason } => "Invalid input payload: "@ + reason,
            ErrorModel::PatternCompile { reason, .. } => reason,
            ErrorModel::MatcherBuild { reason, .. } => reason,
        }
    }
}

impl AnalyzeFileResult {
    /// The result for a path that an ignore pattern matched.
    pub fn ignored() -> (result: AnalyzeFileResult)
        ensures
            result@ == ResultModel::ignored(),
    {
        AnalyzeFileResult { known: true, matched_element_type: None }
    }

    /// The result for a path that the pattern of `element_type` matched.
    pub fn matched(element_type: String) -> (result: AnalyzeFileResult)
        ensures
            result@ == ResultModel::matched(element_type@),
    {
        AnalyzeFileResult { known: true, matched_element_type: Some(element_type) }
    }

    /// The result for a path that no pattern matched.
    pub fn unknown() -> (result: AnalyzeFileResult)
        ensures
            result@ == ResultModel::unknown(),
    {
        AnalyzeFileResult { known: false, matched_element_type: None }
    }

    /// The classification that follows from what the patterns answered.
    ///
    /// `ignored` says whether an ignore pattern matched the path, `winner` is
    /// the first element whose pattern matched it, if any. A path that an
    /// ignore pattern matched is known and carries no element type, even where
    /// an element matched too. Otherwise the winner gives the type, and without
    /// a winner the path is unknown.
    pub fn resolve(ignored: bool, winner: Option<&ElementDescriptor>) -> (result: AnalyzeFileResult)
        ensures
            result@ == ResultModel::resolved(
                ignored,
                match winner {
                    Some(element) => Some(element@),
                    None => None,
                },
            ),
    {
        if ignored {
            AnalyzeFileResult::ignored()
        } else {
            match winner {
                Some(element) => AnalyzeFileResult::matched(element.element_type.clone()),
                None => AnalyzeFileResult::unknown(),
            }
        }
    }
}

impl AnalyzeFileError {
    /// The text that describes this error to a caller: for a malformed
    /// request, the reason behind a fixed prefix; for a pattern or a matcher,
    /// the reason as the glob engine worded it.
    pub fn message(&self) -> (text: String)
        ensures
            text@ == self@.message(),
    {
        match self {
            AnalyzeFileError::InvalidRequest { reason } => {
                let mut text = String::from_str("Invalid input payload: ");
                text.append(reason.as_str());
                text
            },
            AnalyzeFileError::PatternCompile { reason, .. } => reason.clone(),
            AnalyzeFileError::MatcherBuild { reason, .. } => reason.clone(),
        }
    }
}

} // verus!
