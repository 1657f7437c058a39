//! The closed error types of the components, and the message each one shows
//! in a response envelope.

use vstd::prelude::*;
use vstd::string::*;

verus! {

/// Why a call to the generative model did not yield a response. Each variant
/// carries the text that the failing step reported.
#[derive(Debug, Clone, PartialEq, Eq)]
pub enum ModelError {
    /// A piece of deployment configuration is missing.
    Configuration(String),
    /// No bearer credential could be obtained.
    Credential(String),
    /// The model could not be reached.
    Transport(String),
    /// The model replied with a body that could not be decoded.
    ResponseDecode(String),
}

/// Why a model response did not yield the text this pipeline expects.
#[derive(Debug, Clone, Copy, PartialEq, Eq, Structural)]
pub enum ExtractError {
    /// The response holds no candidate.
    EmptyCandidates,
    /// The first part of the first candidate is not a text.
    UnexpectedPartKind,
}

/// Why an artifact was not attached to its owner.
#[derive(Debug, Clone, PartialEq, Eq)]
pub enum MergeError {
    /// The store reported a failure; the text is its report.
    Storage(String),
    /// The update matched no owner.
    OwnerNotFound,
}

/// Any failure of a request, by the component that failed.
#[derive(Debug, Clone, PartialEq, Eq)]
pub enum ServiceError {
    Model(ModelError),
    Extract(ExtractError),
    Merge(MergeError),
    /// Password hashing or the reading of a stored hash failed.
    Hashing(String),
}

pub const EMPTY_CANDIDATES_MESSAGE: &'static str = "no candidate in the model response";

pub const UNEXPECTED_PART_MESSAGE: &'static str = "not the same type";

pub const OWNER_NOT_FOUND_MESSAGE: &'static str = "Failed to update value";

impl ModelError {
    /// The text this error shows.
    pub open spec fn text(self) -> Seq<char> {
        match self {
            ModelError::Configuration(m) => m@,
            ModelError::Credential(m) => m@,
            ModelError::Transport(m) => m@,
            ModelError::ResponseDecode(m) => m@,
        }
    }

    pub fn message(&self) -> (m: String)
        ensures
            m@ == self.text(),
    {
        match self {
            ModelError::Configuration(m) => m.clone(),
            ModelError::Credential(m) => m.clone(),
            ModelError::Transport(m) => m.clone(),
            ModelError::ResponseDecode(m) => m.clone(),
        }
    }
}

impl ExtractError {
    /// The text this error shows.
    pub open spec fn text(self) -> Seq<char> {
        match self {
            ExtractError::EmptyCandidates => EMPTY_CANDIDATES_MESSAGE@,
            ExtractError::UnexpectedPartKind => UNEXPECTED_PART_MESSAGE@,
        }
    }

    pub fn message(&self) -> (m: String)
        ensures
            m@ == self.text(),
    {
        match self {
            ExtractError::EmptyCandidates => String::from_str(EMPTY_CANDIDATES_MESSAGE),
            ExtractError::UnexpectedPartKind => String::from_str(UNEXPECTED_PART_MESSAGE),
        }
    }
}

impl MergeError {
    /// The text this error shows.
    pub open spec fn text(self) -> Seq<char> {
        match self {
            MergeError::Storage(m) => m@,
            MergeError::OwnerNotFound => OWNER_NOT_FOUND_MESSAGE@,
        }
    }

    pub fn message(&self) -> (m: String)
        ensures
            m@ == self.text(),
    {
        match self {
            MergeError::Storage(m) => m.clone(),
            MergeError::OwnerNotFound => String::from_str(OWNER_NOT_FOUND_MESSAGE),
        }
    }
}

impl ServiceError {
    /// The text this error shows: that of the component's own error.
    pub open spec fn text(self) -> Seq<char> {
        match self {
            ServiceError::Model(e) => e.text(),
            ServiceError::Extract(e) => e.text(),
            ServiceError::Merge(e) => e.text(),
            ServiceError::Hashing(m) => m@,
        }
    }

    pub fn message(&self) -> (m: String)
        ensures
            m@ == self.text(),
    {
        match self {
            ServiceError::Model(e) => e.message(),
            ServiceError::Extract(e) => e.message(),
            ServiceError::Merge(e) => e.message(),
            ServiceError::Hashing(m) => m.clone(),
        }
    }
}

} // verus!
