//! The request orchestrator: what each operation of the service does with
//! the outcomes of the work it cannot do itself.
//!
//! Every operation is a straight line. A function named after the operation
//! takes the request and hands out the first thing to perform; the value it
//! returns takes the outcome and hands out the next, until a reply is due.
//! The first failure ends the request with its message; nothing is retried
//! and nothing is kept between requests.

use crate::client::{generate_ai_content, ModelCall};
use crate::error::{MergeError, ModelError, ServiceError, OWNER_NOT_FOUND_MESSAGE};
use crate::extract::{extracted_text, ContentExtractor};
use crate::merger::{
    fresh_id, Artifact, ArtifactField, AttachUpdate, DocumentMerger, IDENTIFIER_LENGTH,
};
use crate::model::{
    CreateFlash, CreateQuiz, Faculty, Flashcard, GenerateContentResponse, GenericResponse, Quiz,
    RequestAIQuery, Student, User,
};
use crate::password::{argon2_phc, hasher, verified, verify, Argon, Util};
use crate::prompt::{prompt_text, GenerationMode, PromptBuilder};
use crate::reply::{failed, relayed, served, HttpReply, ReplyBody, ReplyView, FAIL, HTTP_OK};
use crate::store::{
    artifacts, attached, distinct_ids, has_owner, lemma_attach_adds_one, modified_count,
    owner_index, OwnerDocument, OwnerView,
};
use crate::text::{debug_escaped, outcome_text};
use vstd::prelude::*;
use vstd::string::*;

verus! {

pub const HEALTH_MESSAGE: &'static str = "All Ok";

pub const USER_EXISTS_MESSAGE: &'static str = "user exists";

pub const USER_UNKNOWN_MESSAGE: &'static str = "user doesnot exists";

pub const PASSWORD_NOT_FOUND_MESSAGE: &'static str = "Password not found";

/// The outcome of a generation as the rest of a request sees it: the text
/// that was extracted from the model's response, or the message of the
/// component that failed first.
pub open spec fn content_of(outcome: Result<GenerateContentResponse, ModelError>) -> Result<
    Seq<char>,
    Seq<char>,
> {
    match outcome {
        Err(e) => Err(e.text()),
        Ok(response) => match extracted_text(response) {
            Ok(text) => Ok(text),
            Err(e) => Err(e.text()),
        },
    }
}

/// The uniform envelope of a failure: 500, `fail`, and the message of the
/// error, whichever component it came from.
pub fn failure_reply(error: ServiceError) -> (reply: HttpReply)
    ensures
        reply@ == failed(error.text()),
{
    HttpReply::failure(error.message())
}

/// A generation whose text is wanted: the call to make, and then `finish`.
#[derive(Debug, Clone, PartialEq, Eq)]
pub struct ContentJob {
    pub call: ModelCall,
}

/// Begins the generation of `count` items of a mode on a text.
pub fn make(mode: GenerationMode, topic: String, count: i8) -> (job: ContentJob)
    ensures
        job.call.prompt@ == prompt_text(mode, debug_escaped(topic@), count as int),
{
    let prompt = PromptBuilder::build(mode, topic.as_str(), count);
    ContentJob { call: generate_ai_content(prompt) }
}

/// Begins the generation of `count` key points on a text.
pub fn make_flashcards(topic: String, count: i8) -> (job: ContentJob)
    ensures
        job.call.prompt@ == prompt_text(
            GenerationMode::KeyPoints,
            debug_escaped(topic@),
            count as int,
        ),
{
    make(GenerationMode::KeyPoints, topic, count)
}

/// Begins the generation of `count` multiple-choice questions on a text.
pub fn make_quiz(topic: String, count: i8) -> (job: ContentJob)
    ensures
        job.call.prompt@ == prompt_text(
            GenerationMode::MultipleChoice,
            debug_escaped(topic@),
            count as int,
        ),
{
    make(GenerationMode::MultipleChoice, topic, count)
}

/// Whether a result is what the outcome of a call yields: the error of the
/// model client where the call failed; else the error of the extractor where
/// the response holds no text; else the text as it came.
pub open spec fn yields_content(
    content: Result<String, ServiceError>,
    outcome: Result<GenerateContentResponse, ModelError>,
) -> bool {
    match outcome {
        Err(e) => content == Err::<String, ServiceError>(ServiceError::Model(e)),
        Ok(response) => match extracted_text(response) {
            Ok(text) => content matches Ok(t) && t@ == text,
            Err(e) => content == Err::<String, ServiceError>(ServiceError::Extract(e)),
        },
    }
}

fn content(outcome: Result<GenerateContentResponse, ModelError>) -> (content: Result<
    String,
    ServiceError,
>)
    ensures
        yields_content(content, outcome),
{
    match outcome {
        Err(e) => Err(ServiceError::Model(e)),
        Ok(response) => match ContentExtractor::extract_text(&response) {
            Ok(text) => Ok(text),
            Err(e) => Err(ServiceError::Extract(e)),
        },
    }
}

impl ContentJob {
    /// Takes the outcome of the call and yields the generated text as it
    /// came, or the error of the component that failed first.
    pub fn finish(self, outcome: Result<GenerateContentResponse, ModelError>) -> (content: Result<
        String,
        ServiceError,
    >)
        ensures
            yields_content(content, outcome),
    {
        content(outcome)
    }
}

/// A request for generated content that is answered with the model's whole
/// response: the call to make, and then `respond`.
#[derive(Debug, Clone, PartialEq, Eq)]
pub struct GenerationFlow {
    pub call: ModelCall,
}

/// Begins a request for content of a mode on the content of a form.
pub fn generate(mode: GenerationMode, body: RequestAIQuery) -> (flow: GenerationFlow)
    ensures
        flow.call.prompt@ == prompt_text(mode, debug_escaped(body.content@), body.count as int),
{
    GenerationFlow { call: make(mode, body.content, body.count).call }
}

/// Begins a request for key points on the content of a form.
pub fn generate_flashcard(body: RequestAIQuery) -> (flow: GenerationFlow)
    ensures
        flow.call.prompt@ == prompt_text(
            GenerationMode::KeyPoints,
            debug_escaped(body.content@),
            body.count as int,
        ),
{
    generate(GenerationMode::KeyPoints, body)
}

/// Begins a request for multiple-choice questions on the content of a form.
pub fn generate_quiz(body: RequestAIQuery) -> (flow: GenerationFlow)
    ensures
        flow.call.prompt@ == prompt_text(
            GenerationMode::MultipleChoice,
            debug_escaped(body.content@),
            body.count as int,
        ),
{
    generate(GenerationMode::MultipleChoice, body)
}

impl GenerationFlow {
    /// Takes the outcome of the call and answers: 200 with the response, or
    /// 500 with the message of the model client's error.
    pub fn respond(self, outcome: Result<GenerateContentResponse, ModelError>) -> (reply: HttpReply)
        ensures
            match outcome {
                Ok(response) => reply@ == relayed(response),
                Err(e) => reply@ == failed(e.text()),
            },
    {
        match outcome {
            Ok(response) => HttpReply::relay(response),
            Err(e) => failure_reply(ServiceError::Model(e)),
        }
    }
}

/// A request that stores what it generates: the call to make, and then
/// `on_content`.
#[derive(Debug, Clone, PartialEq, Eq)]
pub struct CreationFlow {
    pub call: ModelCall,
    pub owner_id: String,
    pub topic: String,
    pub field: ArtifactField,
}

/// A request whose artifact is made: the update to run against the owner
/// collection, and then `respond`.
#[derive(Debug, Clone, PartialEq, Eq)]
pub struct PendingAttach {
    pub update: AttachUpdate,
    pub content: String,
}

/// The mode in which the artifacts of an array are generated: key points
/// for flashcards, multiple-choice questions for quizzes.
pub open spec fn mode_for(field: ArtifactField) -> GenerationMode {
    match field {
        ArtifactField::Flashes => GenerationMode::KeyPoints,
        ArtifactField::Quiz => GenerationMode::MultipleChoice,
    }
}

/// Begins a request for a stored artifact of a kind, for an owner.
pub fn create(
    field: ArtifactField,
    user_id: String,
    topic: String,
    count: i8,
) -> (flow: CreationFlow)
    ensures
        flow.call.prompt@ == prompt_text(mode_for(field), debug_escaped(topic@), count as int),
        flow.owner_id@ == user_id@,
        flow.topic@ == topic@,
        flow.field == field,
{
    let mode = match field {
        ArtifactField::Flashes => GenerationMode::KeyPoints,
        ArtifactField::Quiz => GenerationMode::MultipleChoice,
    };
    let job = make(mode, topic.clone(), count);
    CreationFlow { call: job.call, owner_id: user_id, topic, field }
}

/// Begins a request for a stored flashcard.
pub fn create_flash(form: CreateFlash) -> (flow: CreationFlow)
    ensures
        flow.call.prompt@ == prompt_text(
            GenerationMode::KeyPoints,
            debug_escaped(form.topic@),
            form.count as int,
        ),
        flow.owner_id@ == form.user_id@,
        flow.topic@ == form.topic@,
        flow.field == ArtifactField::Flashes,
{
    create(ArtifactField::Flashes, form.user_id, form.topic, form.count)
}

/// Begins a request for a stored quiz.
pub fn create_quiz(form: CreateQuiz) -> (flow: CreationFlow)
    ensures
        flow.call.prompt@ == prompt_text(
            GenerationMode::MultipleChoice,
            debug_escaped(form.topic@),
            form.count as int,
        ),
        flow.owner_id@ == form.user_id@,
        flow.topic@ == form.topic@,
        flow.field == ArtifactField::Quiz,
{
    create(ArtifactField::Quiz, form.user_id, form.topic, form.count)
}

/// The identifier of an artifact.
pub open spec fn artifact_id(artifact: Artifact) -> Seq<char> {
    match artifact {
        Artifact::Flashcard(f) => f._id@,
        Artifact::Quiz(q) => q._id@,
    }
}

/// The artifact of a kind that wraps a generated text: a flashcard holds the
/// topic and the text, a quiz the text alone.
pub open spec fn wraps(
    artifact: Artifact,
    field: ArtifactField,
    id: Seq<char>,
    topic: Seq<char>,
    content: Seq<char>,
) -> bool {
    match field {
        ArtifactField::Flashes => {
            &&& artifact matches Artifact::Flashcard(f)
            &&& f._id@ == id
            &&& f.topic@ == topic
            &&& f.content@ == content
        },
        ArtifactField::Quiz => {
            &&& artifact matches Artifact::Quiz(q)
            &&& q._id@ == id
            &&& q.quizzes@ == content
        },
    }
}

/// The attachment that a creation request plans for a generated text and an
/// identifier.
pub open spec fn plans(
    pending: PendingAttach,
    flow: CreationFlow,
    id: Seq<char>,
    content: Seq<char>,
) -> bool {
    &&& pending.content@ == content
    &&& pending.update.owner_id@ == flow.owner_id@
    &&& pending.update.field == flow.field
    &&& wraps(pending.update.artifact, flow.field, id, flow.topic@, content)
}

impl CreationFlow {
    fn plan(self, content: String, id: String) -> (pending: PendingAttach)
        ensures
            plans(pending, self, id@, content@),
    {
        let artifact = match self.field {
            ArtifactField::Flashes => Artifact::Flashcard(
                Flashcard { _id: id, topic: self.topic, content: content.clone() },
            ),
            ArtifactField::Quiz => Artifact::Quiz(Quiz { _id: id, quizzes: content.clone() }),
        };
        PendingAttach { update: DocumentMerger::attach(self.owner_id, artifact), content }
    }

    /// Takes the outcome of the call, and the identifier to give the
    /// artifact. A failed generation is answered at once with 500 and its
    /// message; a generated text is wrapped in an artifact under the
    /// identifier, to be attached to the owner.
    pub fn on_content_with_id(
        self,
        outcome: Result<GenerateContentResponse, ModelError>,
        id: String,
    ) -> (next: Result<PendingAttach, HttpReply>)
        ensures
            match content_of(outcome) {
                Ok(text) => next matches Ok(pending) && plans(pending, self, id@, text),
                Err(message) => next matches Err(reply) && reply@ == failed(message),
            },
    {
        match content(outcome) {
            Ok(content) => Ok(self.plan(content, id)),
            Err(e) => Err(failure_reply(e)),
        }
    }

    /// Takes the outcome of the call. A failed generation is answered at
    /// once with 500 and its message; a generated text is wrapped in an
    /// artifact under a fresh identifier, to be attached to the owner.
    pub fn on_content(self, outcome: Result<GenerateContentResponse, ModelError>) -> (next: Result<
        PendingAttach,
        HttpReply,
    >)
        ensures
            match content_of(outcome) {
                Ok(text) => {
                    &&& next matches Ok(pending)
                    &&& plans(pending, self, artifact_id(pending.update.artifact), text)
                    &&& artifact_id(pending.update.artifact).len() == IDENTIFIER_LENGTH
                },
                Err(message) => next matches Err(reply) && reply@ == failed(message),
            },
    {
        match content(outcome) {
            Ok(content) => {
                let id = fresh_id();
                Ok(self.plan(content, id))
            },
            Err(e) => Err(failure_reply(e)),
        }
    }
}

/// The reply to a creation, from the generated text and the answer of the
/// owner collection: 200 with the text when a record was modified; 500 when
/// the store failed, with its report, or when no record was modified, which
/// means that the owner does not exist.
pub open spec fn creation_reply(content: Seq<char>, stored: Result<u64, String>) -> ReplyView {
    match stored {
        Err(report) => failed(report@),
        Ok(count) => if count == 0 {
            failed(OWNER_NOT_FOUND_MESSAGE@)
        } else {
            served(content)
        },
    }
}

impl PendingAttach {
    /// Takes the answer of the owner collection and replies.
    pub fn respond(self, stored: Result<u64, String>) -> (reply: HttpReply)
        ensures
            reply@ == creation_reply(self.content@, stored),
    {
        match DocumentMerger::settle(stored) {
            Ok(_) => HttpReply::success(self.content),
            Err(e) => failure_reply(ServiceError::Merge(e)),
        }
    }
}

/// Generation and persistence succeed or fail apart: a creation for an owner
/// that is not in the collection is answered with a failure although its
/// text was generated, and the collection is left as it was.
pub proof fn lemma_creation_needs_its_owner(owners: Seq<OwnerView>, pending: PendingAttach)
    requires
        !has_owner(owners, pending.update.owner_id@),
    ensures
        creation_reply(
            pending.content@,
            Ok(modified_count(owners, pending.update.owner_id@)),
        ) == failed(OWNER_NOT_FOUND_MESSAGE@),
        attached(owners, pending.update.owner_id@, pending.update.artifact) == owners,
{
}

/// A creation for an owner that is in the collection is answered with the
/// generated text, and afterwards the owner holds what it held and the new
/// artifact.
pub proof fn lemma_creation_reaches_its_owner(owners: Seq<OwnerView>, pending: PendingAttach)
    requires
        distinct_ids(owners),
        has_owner(owners, pending.update.owner_id@),
    ensures
        creation_reply(
            pending.content@,
            Ok(modified_count(owners, pending.update.owner_id@)),
        ) == served(pending.content@),
        artifacts(
            attached(owners, pending.update.owner_id@, pending.update.artifact)[owner_index(
                owners,
                pending.update.owner_id@,
            )],
        ) == artifacts(owners[owner_index(owners, pending.update.owner_id@)]).insert(
            pending.update.artifact,
        ),
{
    lemma_attach_adds_one(owners, pending.update.owner_id@, pending.update.artifact);
}

/// A registration whose record is made: the record to insert into the owner
/// collection, and then `respond`.
#[derive(Debug, Clone, PartialEq, Eq)]
pub struct PendingInsert {
    pub owner: OwnerDocument,
}

/// The record of a new owner: no artifacts yet.
pub open spec fn new_owner(id: Seq<char>, username: Seq<char>, password_hash: Seq<char>) -> OwnerView {
    OwnerView {
        id,
        username,
        password: password_hash,
        quiz: Seq::<Quiz>::empty(),
        flashes: Seq::<Flashcard>::empty(),
    }
}

/// Whether a record is that of a new owner under an identifier, with the
/// user name of a form and the hash of its password; where the password
/// cannot be hashed, whether a reply is 500 with the hasher's report.
pub open spec fn registers(
    next: Result<PendingInsert, HttpReply>,
    form: User,
    util: Util,
    id: Seq<char>,
) -> bool {
    match argon2_phc(form.password@, util.Argon.salt@) {
        Ok(hash) => next matches Ok(pending) && pending.owner@ == new_owner(
            id,
            form.username@,
            hash,
        ),
        Err(report) => next matches Err(reply) && reply@ == failed(report),
    }
}

/// The identifier under which a registration stores its record, if it stores
/// one.
pub open spec fn registered_id(next: Result<PendingInsert, HttpReply>) -> Seq<char> {
    match next {
        Ok(pending) => pending.owner@.id,
        Err(_) => Seq::<char>::empty(),
    }
}

fn hash_of(form: &User, util: &Util) -> (hash: Result<String, HttpReply>)
    ensures
        match argon2_phc(form.password@, util.Argon.salt@) {
            Ok(text) => hash matches Ok(h) && h@ == text,
            Err(report) => hash matches Err(reply) && reply@ == failed(report),
        },
{
    match hasher(form.password.clone(), Argon { salt: util.Argon.salt.clone() }) {
        Ok(hash) => Ok(hash),
        Err(report) => Err(failure_reply(ServiceError::Hashing(report))),
    }
}

fn student_record(id: String, username: String, hash: String) -> (pending: PendingInsert)
    ensures
        pending.owner@ == new_owner(id@, username@, hash@),
{
    let user = Student {
        _id: id,
        username,
        password: hash,
        quiz: Vec::new(),
        flashes: Vec::new(),
    };
    PendingInsert { owner: user.into_owner() }
}

fn faculty_record(id: String, username: String, hash: String) -> (pending: PendingInsert)
    ensures
        pending.owner@ == new_owner(id@, username@, hash@),
{
    let user = Faculty {
        _id: id,
        username,
        password: hash,
        quiz: Vec::new(),
        flashes: Vec::new(),
    };
    PendingInsert { owner: user.into_owner() }
}

/// Begins the registration of a student under a given identifier.
pub fn add_student_with_id(form: User, util: &Util, id: String) -> (next: Result<
    PendingInsert,
    HttpReply,
>)
    ensures
        registers(next, form, *util, id@),
{
    match hash_of(&form, util) {
        Ok(hash) => Ok(student_record(id, form.username, hash)),
        Err(reply) => Err(reply),
    }
}

/// Begins the registration of a student under a fresh identifier.
pub fn add_student(form: User, util: &Util) -> (next: Result<PendingInsert, HttpReply>)
    ensures
        registers(next, form, *util, registered_id(next)),
        next is Ok ==> registered_id(next).len() == IDENTIFIER_LENGTH,
{
    match hash_of(&form, util) {
        Ok(hash) => Ok(student_record(fresh_id(), form.username, hash)),
        Err(reply) => Err(reply),
    }
}

/// Begins the registration of a member of the faculty under a given
/// identifier.
pub fn add_faculty_with_id(form: User, util: &Util, id: String) -> (next: Result<
    PendingInsert,
    HttpReply,
>)
    ensures
        registers(next, form, *util, id@),
{
    match hash_of(&form, util) {
        Ok(hash) => Ok(faculty_record(id, form.username, hash)),
        Err(reply) => Err(reply),
    }
}

/// Begins the registration of a member of the faculty under a fresh
/// identifier.
pub fn add_faculty(form: User, util: &Util) -> (next: Result<PendingInsert, HttpReply>)
    ensures
        registers(next, form, *util, registered_id(next)),
        next is Ok ==> registered_id(next).len() == IDENTIFIER_LENGTH,
{
    match hash_of(&form, util) {
        Ok(hash) => Ok(faculty_record(fresh_id(), form.username, hash)),
        Err(reply) => Err(reply),
    }
}

impl PendingInsert {
    /// Takes the answer of the owner collection to the insertion and
    /// replies: 200 with the identifier as the store rendered it, or 500 with
    /// the store's report.
    pub fn respond(self, inserted: Result<String, String>) -> (reply: HttpReply)
        ensures
            match inserted {
                Ok(id) => reply@ == served(id@),
                Err(report) => reply@ == failed(report@),
            },
    {
        match inserted {
            Ok(id) => HttpReply::success(id),
            Err(report) => failure_reply(ServiceError::Merge(MergeError::Storage(report))),
        }
    }
}

/// What the owner collection answered when asked for the stored password of
/// a user name.
#[derive(Debug, Clone, PartialEq, Eq)]
pub enum PasswordLookup {
    /// The query failed; the text is the store's report.
    Failed(String),
    /// No record has that user name.
    NoSuchUser,
    /// The record has no readable password; the text is the report.
    Unreadable(String),
    /// The stored password hash.
    Found(String),
}

/// The stored password that a lookup yields, or why there is none.
pub open spec fn looked_up(lookup: PasswordLookup) -> Result<Seq<char>, Seq<char>> {
    match lookup {
        PasswordLookup::Failed(report) => Err(report@),
        PasswordLookup::NoSuchUser => Err(PASSWORD_NOT_FOUND_MESSAGE@),
        PasswordLookup::Unreadable(report) => Err(report@),
        PasswordLookup::Found(hash) => Ok(hash@),
    }
}

/// Reads the answer of the owner collection to a password lookup.
pub fn get_user_pwd(lookup: PasswordLookup) -> (stored: Result<String, String>)
    ensures
        outcome_text(stored) == looked_up(lookup),
{
    match lookup {
        PasswordLookup::Failed(report) => Err(report),
        PasswordLookup::NoSuchUser => Err(String::from_str(PASSWORD_NOT_FOUND_MESSAGE)),
        PasswordLookup::Unreadable(report) => Err(report),
        PasswordLookup::Found(hash) => Ok(hash),
    }
}

/// A login: the user name to look up, and then `respond`.
#[derive(Debug, Clone, PartialEq, Eq)]
pub struct LoginFlow {
    pub username: String,
    pub password: String,
}

/// Begins a login.
pub fn login_user(form: User) -> (flow: LoginFlow)
    ensures
        flow.username@ == form.username@,
        flow.password@ == form.password@,
{
    LoginFlow { username: form.username, password: form.password }
}

/// The reply that reports a failed lookup: the status code stays 200, and
/// the envelope says `fail` with the report.
pub open spec fn reported(message: Seq<char>) -> ReplyView {
    ReplyView::Message { code: 200, status: FAIL@, message }
}

/// The reply to a login. The status code does not tell a known user from an
/// unknown one; the message does. Only a stored hash that cannot be read
/// gives 500.
pub open spec fn login_reply(password: Seq<char>, lookup: PasswordLookup) -> ReplyView {
    match looked_up(lookup) {
        Err(report) => reported(report),
        Ok(stored) => match verified(password, stored) {
            Ok(true) => served(USER_EXISTS_MESSAGE@),
            Ok(false) => served(USER_UNKNOWN_MESSAGE@),
            Err(report) => failed(report),
        },
    }
}

impl LoginFlow {
    /// Takes the answer of the owner collection and replies.
    pub fn respond(self, lookup: PasswordLookup, util: &Util) -> (reply: HttpReply)
        ensures
            reply@ == login_reply(self.password@, lookup),
    {
        match get_user_pwd(lookup) {
            Err(report) => HttpReply {
                code: HTTP_OK,
                body: ReplyBody::Message(
                    GenericResponse { status: String::from_str(FAIL), message: report },
                ),
            },
            Ok(stored) => {
                let argon = Argon { salt: util.Argon.salt.clone() };
                match verify(self.password, stored, argon) {
                    Ok(true) => HttpReply::success(String::from_str(USER_EXISTS_MESSAGE)),
                    Ok(false) => HttpReply::success(String::from_str(USER_UNKNOWN_MESSAGE)),
                    Err(report) => failure_reply(ServiceError::Hashing(report)),
                }
            },
        }
    }
}

/// The reply of the health check.
pub fn health_checker_handler() -> (reply: HttpReply)
    ensures
        reply@ == served(HEALTH_MESSAGE@),
{
    HttpReply::success(String::from_str(HEALTH_MESSAGE))
}

} // verus!
