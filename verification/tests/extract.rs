use flashquiz::error::ExtractError;
use flashquiz::extract::ContentExtractor;
use flashquiz::model::{Candidate, Content, GenerateContentResponse, Part};
use std::collections::HashMap;

fn candidate(parts: Vec<Part>) -> Candidate {
    Candidate {
        content: Content { role: "model".to_string(), parts },
        citation_metadata: None,
        safety_ratings: Vec::new(),
        finish_reason: None,
    }
}

fn response(candidates: Vec<Candidate>) -> GenerateContentResponse {
    GenerateContentResponse { candidates, usage_metadata: None }
}

#[test]
fn no_candidate_is_empty_candidates() {
    let r = response(Vec::new());
    assert_eq!(ContentExtractor::extract_text(&r), Err(ExtractError::EmptyCandidates));
}

#[test]
fn function_call_is_unexpected_part_kind() {
    let part = Part::FunctionCall { name: "lookup".to_string(), args: HashMap::new() };
    let r = response(vec![candidate(vec![part])]);
    assert_eq!(ContentExtractor::extract_text(&r), Err(ExtractError::UnexpectedPartKind));
}

#[test]
fn text_part_is_returned_exactly() {
    let r = response(vec![candidate(vec![Part::Text("x".to_string())])]);
    assert_eq!(ContentExtractor::extract_text(&r), Ok("x".to_string()));
}

#[test]
fn inline_and_file_data_are_unexpected() {
    let inline = Part::InlineData { mime_type: "image/png".to_string(), data: "AAAA".to_string() };
    let r = response(vec![candidate(vec![inline])]);
    assert_eq!(ContentExtractor::extract_text(&r), Err(ExtractError::UnexpectedPartKind));
    let file = Part::FileData { mime_type: "text/plain".to_string(), file_uri: "gs://b/o".to_string() };
    let r = response(vec![candidate(vec![file])]);
    assert_eq!(ContentExtractor::extract_text(&r), Err(ExtractError::UnexpectedPartKind));
}

#[test]
fn candidate_without_parts_is_unexpected() {
    let r = response(vec![candidate(Vec::new())]);
    assert_eq!(ContentExtractor::extract_text(&r), Err(ExtractError::UnexpectedPartKind));
}

#[test]
fn only_the_first_candidate_and_part_count() {
    let first = candidate(vec![Part::Text("one".to_string()), Part::Text("two".to_string())]);
    let second = candidate(vec![Part::Text("three".to_string())]);
    let r = response(vec![first, second]);
    assert_eq!(ContentExtractor::extract_text(&r), Ok("one".to_string()));
    let call = Part::FunctionCall { name: "f".to_string(), args: HashMap::new() };
    let r = response(vec![candidate(vec![call, Part::Text("late".to_string())])]);
    assert_eq!(ContentExtractor::extract_text(&r), Err(ExtractError::UnexpectedPartKind));
}

#[test]
fn text_is_not_parsed() {
    let raw = "not json at all {";
    let r = response(vec![candidate(vec![Part::Text(raw.to_string())])]);
    assert_eq!(ContentExtractor::extract_text(&r), Ok(raw.to_string()));
}

#[test]
fn extract_errors_have_messages() {
    assert_eq!(ExtractError::UnexpectedPartKind.message(), "not the same type");
    assert_eq!(ExtractError::EmptyCandidates.message(), "no candidate in the model response");
}
