use path_classifier::{AnalyzeFileError, AnalyzeFileResult, ElementDescriptor, PatternOrigin};

#[test]
fn ignored_result_is_known_without_type() {
    let result = AnalyzeFileResult::ignored();
    assert!(result.known);
    assert_eq!(result.matched_element_type, None);
}

#[test]
fn matched_result_is_known_with_type() {
    let result = AnalyzeFileResult::matched("component".to_string());
    assert!(result.known);
    assert_eq!(result.matched_element_type, Some("component".to_string()));
}

#[test]
fn unknown_result_is_not_known() {
    let result = AnalyzeFileResult::unknown();
    assert!(!result.known);
    assert_eq!(result.matched_element_type, None);
}

#[test]
fn resolve_lets_ignore_win() {
    let winner = ElementDescriptor { element_type: "A".to_string(), pattern: "*.ts".to_string() };
    assert_eq!(AnalyzeFileResult::resolve(true, Some(&winner)), AnalyzeFileResult::ignored());
    assert_eq!(AnalyzeFileResult::resolve(true, None), AnalyzeFileResult::ignored());
}

#[test]
fn resolve_names_the_winner() {
    let winner = ElementDescriptor { element_type: "A".to_string(), pattern: "*.ts".to_string() };
    assert_eq!(
        AnalyzeFileResult::resolve(false, Some(&winner)),
        AnalyzeFileResult { known: true, matched_element_type: Some("A".to_string()) }
    );
}

#[test]
fn resolve_without_winner_is_unknown() {
    assert_eq!(
        AnalyzeFileResult::resolve(false, None),
        AnalyzeFileResult { known: false, matched_element_type: None }
    );
}

#[test]
fn invalid_request_message_has_prefix() {
    let error = AnalyzeFileError::InvalidRequest { reason: "missing field `filePath`".to_string() };
    assert_eq!(error.message(), "Invalid input payload: missing field `filePath`");
    let error = AnalyzeFileError::InvalidRequest { reason: String::new() };
    assert_eq!(error.message(), "Invalid input payload: ");
}

#[test]
fn pattern_error_message_is_the_reason() {
    let error = AnalyzeFileError::PatternCompile {
        origin: PatternOrigin::Ignore,
        pattern: "[".to_string(),
        reason: "error parsing glob '[': unclosed character class; missing ']'".to_string(),
    };
    assert_eq!(error.message(), "error parsing glob '[': unclosed character class; missing ']'");
}

#[test]
fn matcher_error_message_is_the_reason() {
    let error = AnalyzeFileError::MatcherBuild {
        origin: PatternOrigin::Element,
        patterns: vec!["src/**".to_string()],
        reason: "too large".to_string(),
    };
    assert_eq!(error.message(), "too large");
}
