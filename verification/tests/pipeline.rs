use shader_playground::pipeline::{create_pipeline, first_attempt, FragmentProgram};

const RED: &str = "@fragment fn main() -> @location(0) vec4<f32> { return vec4(1.0, 0.0, 0.0, 1.0); }";

#[test]
fn first_attempt_takes_the_candidate() {
    assert_eq!(
        first_attempt(Some(RED.to_string())),
        FragmentProgram::Candidate(RED.to_string())
    );
    assert_eq!(first_attempt(None), FragmentProgram::Fallback);
}

#[test]
fn valid_candidate_is_linked() {
    let build = create_pipeline(Some(RED.to_string()), None);
    assert_eq!(build.program, FragmentProgram::Candidate(RED.to_string()));
    assert_eq!(build.error, None);
    assert_eq!(build.fallback_uses, 0);
}

#[test]
fn invalid_candidate_gives_the_fallback() {
    let build = create_pipeline(Some("fn (".to_string()), Some("expected identifier".to_string()));
    assert_eq!(build.program, FragmentProgram::Fallback);
    assert_eq!(build.error, Some("expected identifier".to_string()));
    assert_eq!(build.fallback_uses, 1);
}

#[test]
fn invalid_candidate_equals_build_from_fallback() {
    let from_invalid = create_pipeline(Some("garbage".to_string()), Some("parse error".to_string()));
    let from_fallback = create_pipeline(None, None);
    assert_eq!(from_invalid.program, from_fallback.program);
}

#[test]
fn missing_candidate_gives_the_fallback_with_one_warning() {
    let build = create_pipeline(None, None);
    assert_eq!(build.program, FragmentProgram::Fallback);
    assert_eq!(build.error, None);
    assert_eq!(build.fallback_uses, 1);
}

#[test]
fn error_without_candidate_links_the_fallback_again() {
    let build = create_pipeline(None, Some("device lost".to_string()));
    assert_eq!(build.program, FragmentProgram::Fallback);
    assert_eq!(build.error, Some("device lost".to_string()));
    assert_eq!(build.fallback_uses, 2);
}

#[test]
fn empty_candidate_is_still_a_candidate() {
    let build = create_pipeline(Some(String::new()), None);
    assert_eq!(build.program, FragmentProgram::Candidate(String::new()));
}

#[test]
fn only_a_captured_error_links_again() {
    assert!(!create_pipeline(Some(RED.to_string()), None).relinks());
    assert!(!create_pipeline(None, None).relinks());
    assert!(create_pipeline(Some(RED.to_string()), Some("e".to_string())).relinks());
    assert!(create_pipeline(None, Some("e".to_string())).relinks());
}
