//! The data that flows through the service: request forms, the generative
//! model's request and response shapes, the persisted owner records and the
//! response envelopes.
//!
//! These are bare values. Wire formats (form decoding, JSON, BSON) belong to
//! the caller, which keeps its own serialisable copies.

use std::collections::HashMap;
use vstd::prelude::*;

verus! {

/// The multipart form of a generation request.
///
/// `timestamp` is in milliseconds since the Unix epoch; `files` holds the
/// name of an uploaded file, if one came with the form.
#[derive(Debug, Clone, PartialEq, Eq)]
pub struct RequestAIQuery {
    pub id: Option<String>,
    pub timestamp: Option<i64>,
    pub content_type: String,
    pub request: String,
    pub content: String,
    pub count: i8,
    pub files: Option<String>,
}

/// The body sent to the generative model.
#[derive(Debug, Clone, PartialEq, Eq)]
pub struct GenerateContentRequest {
    pub contents: Vec<Content>,
    pub generation_config: Option<GenerationConfig>,
    pub tools: Option<Vec<Tools>>,
}

/// The uniform response envelope: a status flag and a message.
#[derive(Debug, Clone, PartialEq, Eq)]
pub struct GenericResponse {
    pub status: String,
    pub message: String,
}

/// The envelope that carries a whole model response.
#[derive(Debug, Clone, PartialEq, Eq)]
pub struct AIResponse {
    pub status: String,
    pub response: GenerateContentResponse,
}

/// What the generative model replies.
#[derive(Debug, Clone, PartialEq, Eq)]
pub struct GenerateContentResponse {
    pub candidates: Vec<Candidate>,
    pub usage_metadata: Option<UsageMetadata>,
}

/// A faculty member's record. Both arrays are present from creation on.
#[derive(Debug, Clone, PartialEq, Eq)]
pub struct Faculty {
    pub _id: String,
    pub username: String,
    pub password: String,
    pub quiz: Vec<Quiz>,
    pub flashes: Vec<Flashcard>,
}

/// A student's record. Both arrays are present from creation on.
#[derive(Debug, Clone, PartialEq, Eq)]
pub struct Student {
    pub _id: String,
    pub username: String,
    pub password: String,
    pub quiz: Vec<Quiz>,
    pub flashes: Vec<Flashcard>,
}

/// The credentials form.
#[derive(Debug, Clone, PartialEq, Eq)]
pub struct User {
    pub username: String,
    pub password: String,
}

/// The form that asks for a flashcard to be created and stored.
#[derive(Debug, Clone, PartialEq, Eq)]
pub struct CreateFlash {
    pub user_id: String,
    pub topic: String,
    pub count: i8,
}

/// The form that asks for a quiz to be created and stored.
#[derive(Debug, Clone, PartialEq, Eq)]
pub struct CreateQuiz {
    pub user_id: String,
    pub topic: String,
    pub count: i8,
}

#[derive(Debug, Clone, PartialEq, Eq)]
pub struct QuizMarks {
    pub quiz_id: String,
    pub ans: Vec<i8>,
    pub marks: i8,
}

#[derive(Debug, Clone, PartialEq, Eq)]
pub struct Admin {
    pub admin_id: String,
    pub name: String,
    pub password: String,
}

/// A stored set of key points: the model's text as it came, unparsed.
#[derive(Debug, Clone, PartialEq, Eq)]
pub struct Flashcard {
    pub _id: String,
    pub topic: String,
    pub content: String,
}

/// A scheduled quiz. The three instants are in milliseconds since the Unix
/// epoch.
#[derive(Debug, Clone, PartialEq, Eq)]
pub struct QuizTable {
    pub _id: String,
    pub faculty_id: String,
    pub questions: Vec<Vec<String>>,
    pub answers: Vec<i32>,
    pub student_id: Vec<String>,
    pub student_marks: HashMap<String, i32>,
    pub from: i64,
    pub to: i64,
    pub created_at: i64,
}

/// A stored quiz: the model's text as it came, unparsed.
#[derive(Debug, Clone, PartialEq, Eq)]
pub struct Quiz {
    pub _id: String,
    pub quizzes: String,
}

#[derive(Debug, Clone, PartialEq, Eq)]
pub struct CountTokensRequest {
    pub contents: Content,
}

#[derive(Debug, Clone, PartialEq, Eq)]
pub struct CountTokensResponse {
    pub total_tokens: i32,
}

#[derive(Debug, Clone, PartialEq, Eq)]
pub struct Tools {
    pub function_declarations: Option<Vec<FunctionDeclaration>>,
}

/// One turn of a conversation with the model.
#[derive(Debug, Clone, PartialEq, Eq)]
pub struct Content {
    pub role: String,
    pub parts: Vec<Part>,
}

/// Generation settings. The two sampling settings are fractions held in
/// thousandths, so that `400` stands for 0.4.
#[derive(Debug, Clone, PartialEq, Eq)]
pub struct GenerationConfig {
    pub max_output_tokens: Option<i32>,
    pub temperature: Option<u32>,
    pub top_p: Option<u32>,
    pub top_k: Option<i32>,
    pub stop_sequences: Option<Vec<String>>,
    pub candidate_count: Option<u32>,
}

impl Default for GenerationConfig {
    /// No setting is given.
    fn default() -> (config: GenerationConfig)
        ensures
            config.max_output_tokens is None,
            config.temperature is None,
            config.top_p is None,
            config.top_k is None,
            config.stop_sequences is None,
            config.candidate_count is None,
    {
        GenerationConfig {
            max_output_tokens: None,
            temperature: None,
            top_p: None,
            top_k: None,
            stop_sequences: None,
            candidate_count: None,
        }
    }
}

/// One typed fragment of model input or output.
#[derive(Debug, Clone, PartialEq, Eq)]
pub enum Part {
    Text(String),
    InlineData { mime_type: String, data: String },
    FileData { mime_type: String, file_uri: String },
    FunctionCall { name: String, args: HashMap<String, String> },
}

/// One of the alternative generations in a model response.
#[derive(Debug, Clone, PartialEq, Eq)]
pub struct Candidate {
    pub content: Content,
    pub citation_metadata: Option<CitationMetadata>,
    pub safety_ratings: Vec<SafetyRating>,
    pub finish_reason: Option<String>,
}

#[derive(Debug, Clone, PartialEq, Eq)]
pub struct SafetyRating {
    pub category: String,
    pub probability: String,
}

#[derive(Debug, Clone, PartialEq, Eq)]
pub struct Citation {
    pub start_index: i32,
    pub end_index: i32,
    pub uri: String,
}

#[derive(Debug, Clone, PartialEq, Eq)]
pub struct CitationMetadata {
    pub citations: Vec<Citation>,
}

#[derive(Debug, Clone, PartialEq, Eq)]
pub struct UsageMetadata {
    pub candidates_token_count: Option<i32>,
    pub prompt_token_count: i32,
    pub total_token_count: i32,
}

#[derive(Debug, Clone, PartialEq, Eq)]
pub struct FunctionDeclaration {
    pub name: String,
    pub description: String,
    pub parameters: FunctionParameters,
}

#[derive(Debug, Clone, PartialEq, Eq)]
pub struct FunctionParameters {
    pub kind: String,
    pub properties: HashMap<String, FunctionParametersProperty>,
    pub required: Vec<String>,
}

#[derive(Debug, Clone, PartialEq, Eq)]
pub struct FunctionParametersProperty {
    pub kind: String,
    pub description: String,
}

} // verus!
