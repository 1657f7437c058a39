//! Flashcard and quiz generation for a study platform: prompt construction,
//! the decisions around one call to a generative model, extraction of the
//! model's text, and the merge of the result into its owner's record.
//!
//! The logic of this crate is verified against its contracts. The few calls
//! into other crates (password hashing, identifiers, text escaping) stand
//! behind small functions whose contracts are trusted and say so. Work that
//! needs the network, the environment or a database is left to the caller:
//! each flow hands out the next thing to perform and takes its outcome back
//! as a plain value.

pub mod client;
pub mod error;
pub mod extract;
pub mod merger;
pub mod model;
pub mod orchestrator;
pub mod password;
pub mod prompt;
pub mod reply;
pub mod store;
pub mod text;
