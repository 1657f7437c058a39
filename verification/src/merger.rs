//! The document merger: attaching a fresh artifact to the record of its
//! owner.
//!
//! An attachment is one additive update, keyed by the owner's identifier: the
//! artifact is pushed onto the array it belongs to, without a prior read of
//! the record. The store answers with the number of records it modified, and
//! a count of zero means that no owner has that identifier.

use crate::error::MergeError;
use crate::model::{Flashcard, Quiz};
use uuid::Uuid;
use vstd::prelude::*;
use vstd::string::*;

verus! {

/// The collection that holds the owner records.
pub const OWNER_COLLECTION: &'static str = "users";

/// The field by which an owner is found.
pub const OWNER_KEY: &'static str = "_id";

/// The update operator of an attachment.
pub const PUSH_OPERATOR: &'static str = "$push";

pub const FLASHES_FIELD: &'static str = "flashes";

pub const QUIZ_FIELD: &'static str = "quiz";

/// The number of characters of a fresh identifier.
pub const IDENTIFIER_LENGTH: usize = 36;

/// The array of an owner record that an artifact is pushed onto.
#[derive(Debug, Clone, Copy, PartialEq, Eq, Structural)]
pub enum ArtifactField {
    Flashes,
    Quiz,
}

impl ArtifactField {
    /// The name of the array in the persisted record.
    pub open spec fn name_text(self) -> Seq<char> {
        match self {
            ArtifactField::Flashes => FLASHES_FIELD@,
            ArtifactField::Quiz => QUIZ_FIELD@,
        }
    }

    pub fn name(&self) -> (name: &'static str)
        ensures
            name@ == self.name_text(),
    {
        match self {
            ArtifactField::Flashes => FLASHES_FIELD,
            ArtifactField::Quiz => QUIZ_FIELD,
        }
    }
}

/// What the generation pipeline produces and stores.
#[derive(Debug, Clone, PartialEq, Eq)]
pub enum Artifact {
    Flashcard(Flashcard),
    Quiz(Quiz),
}

impl Artifact {
    /// The array this artifact belongs to.
    pub open spec fn field_of(self) -> ArtifactField {
        match self {
            Artifact::Flashcard(_) => ArtifactField::Flashes,
            Artifact::Quiz(_) => ArtifactField::Quiz,
        }
    }

    pub fn field(&self) -> (field: ArtifactField)
        ensures
            field == self.field_of(),
    {
        match self {
            Artifact::Flashcard(_) => ArtifactField::Flashes,
            Artifact::Quiz(_) => ArtifactField::Quiz,
        }
    }
}

/// One additive update: push `artifact` onto the array `field` of the owner
/// whose identifier is `owner_id`.
#[derive(Debug, Clone, PartialEq, Eq)]
pub struct AttachUpdate {
    pub owner_id: String,
    pub field: ArtifactField,
    pub artifact: Artifact,
}

/// What a count of modified records means: zero, that the owner was not
/// found; anything else, that the artifact is attached.
pub open spec fn settled_count(count: u64) -> Result<u64, MergeError> {
    if count == 0 {
        Err(MergeError::OwnerNotFound)
    } else {
        Ok(count)
    }
}

/// Generates an identifier with `Uuid::new_v4` and renders it with its
/// `Display`.
///
/// Trusted: the rendering is the hyphenated form, which has thirty-six
/// characters. The identifier is random, so nothing else is said of it.
#[verifier::external_body]
pub(crate) fn fresh_id() -> (id: String)
    ensures
        id@.len() == IDENTIFIER_LENGTH,
{
    Uuid::new_v4().to_string()
}

/// Plans attachments and reads what the store answered.
pub struct DocumentMerger {}

impl DocumentMerger {
    /// The update that attaches an artifact to an owner.
    pub fn attach(owner_id: String, artifact: Artifact) -> (update: AttachUpdate)
        ensures
            update.owner_id@ == owner_id@,
            update.field == artifact.field_of(),
            update.artifact == artifact,
    {
        let field = artifact.field();
        AttachUpdate { owner_id, field, artifact }
    }

    /// Reads the answer of the store to an attachment: the count of modified
    /// records, or the store's report of a failure.
    pub fn settle(outcome: Result<u64, String>) -> (settled: Result<u64, MergeError>)
        ensures
            match outcome {
                Ok(count) => settled == settled_count(count),
                Err(report) => {
                    &&& settled matches Err(e)
                    &&& e is Storage
                    &&& e.text() == report@
                },
            },
    {
        match outcome {
            Ok(count) => {
                if count == 0 {
                    Err(MergeError::OwnerNotFound)
                } else {
                    Ok(count)
                }
            },
            Err(report) => Err(MergeError::Storage(report)),
        }
    }
}

} // verus!
