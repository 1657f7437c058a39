//! The content extractor: from a model response to the one text that the
//! rest of the pipeline works on.
//!
//! Only the first part of the first candidate is consulted. The text is
//! handed on as it came: nothing here assumes that it parses as JSON.

use crate::error::ExtractError;
use crate::model::{GenerateContentResponse, Part};
use vstd::prelude::*;

verus! {

/// What a response yields: the text of the first part of its first
/// candidate; `EmptyCandidates` where there is no candidate;
/// `UnexpectedPartKind` where the first candidate has no part or its first
/// part is not a text.
pub open spec fn extracted_text(response: GenerateContentResponse) -> Result<
    Seq<char>,
    ExtractError,
> {
    if response.candidates@.len() == 0 {
        Err(ExtractError::EmptyCandidates)
    } else {
        let parts = response.candidates@[0].content.parts@;
        if parts.len() > 0 && parts[0] is Text {
            Ok(parts[0]->Text_0@)
        } else {
            Err(ExtractError::UnexpectedPartKind)
        }
    }
}

/// Whether an executable result holds what a specified one does.
pub open spec fn yields(got: Result<String, ExtractError>, want: Result<Seq<char>, ExtractError>) -> bool {
    match got {
        Ok(text) => want == Ok::<Seq<char>, ExtractError>(text@),
        Err(e) => want == Err::<Seq<char>, ExtractError>(e),
    }
}

/// Extracts the textual payload of a model response.
pub struct ContentExtractor {}

impl ContentExtractor {
    pub fn extract_text(response: &GenerateContentResponse) -> (text: Result<String, ExtractError>)
        ensures
            yields(text, extracted_text(*response)),
    {
        if response.candidates.len() == 0 {
            return Err(ExtractError::EmptyCandidates);
        }
        let parts = &response.candidates[0].content.parts;
        if parts.len() == 0 {
            return Err(ExtractError::UnexpectedPartKind);
        }
        match &parts[0] {
            Part::Text(t) => Ok(t.clone()),
            _ => Err(ExtractError::UnexpectedPartKind),
        }
    }
}

} // verus!
