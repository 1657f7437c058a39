//! The model client: the decisions around one call to the generative model.
//!
//! A call goes through four steps, each of which can end it with an error of
//! its own: the deployment configuration is resolved, a bearer credential is
//! acquired, the request is posted, and the reply is decoded. The network
//! belongs to the caller. Each step here takes the outcome of the caller's
//! work and hands out what to do next, so the steps can only be taken in
//! order. Nothing is cached and nothing is retried.

use crate::error::ModelError;
use crate::model::{
    Content, GenerateContentRequest, GenerateContentResponse, GenerationConfig, Part,
};
use vstd::prelude::*;
use vstd::string::*;

verus! {

/// The model every request is sent to.
pub const MODEL_NAME: &'static str = "gemini-pro";

/// The one scope a bearer credential is asked for.
pub const TOKEN_SCOPE: &'static str = "https://www.googleapis.com/auth/cloud-platform";

/// The role under which a prompt is sent.
pub const USER_ROLE: &'static str = "user";

pub const MAX_OUTPUT_TOKENS: i32 = 2048;

/// The sampling temperature, in thousandths.
pub const TEMPERATURE: u32 = 400;

/// The nucleus sampling bound, in thousandths.
pub const TOP_P: u32 = 1000;

pub const TOP_K: i32 = 32;

pub const URL_SCHEME: &'static str = "https://";

pub const URL_PROJECTS: &'static str = "/v1beta1/projects/";

pub const URL_LOCATIONS: &'static str = "/locations/";

pub const URL_MODELS: &'static str = "/publishers/google/models/";

pub const URL_METHOD: &'static str = ":generateContent";

/// The deployment configuration of the model endpoint. All three values are
/// required; none has a default.
#[derive(Debug, Clone, PartialEq, Eq)]
pub struct ModelConfig {
    pub api_endpoint: String,
    pub project_id: String,
    pub location_id: String,
}

/// The address of the generation method of the model, for a host, a project
/// and a location.
pub open spec fn endpoint_text(host: Seq<char>, project: Seq<char>, location: Seq<char>) -> Seq<
    char,
> {
    URL_SCHEME@ + host + URL_PROJECTS@ + project + URL_LOCATIONS@ + location + URL_MODELS@
        + MODEL_NAME@ + URL_METHOD@
}

/// The report of the first value that is missing, in the order host,
/// project, location; `None` when all three are there.
pub open spec fn first_missing(
    api_endpoint: Result<String, String>,
    project_id: Result<String, String>,
    location_id: Result<String, String>,
) -> Option<Seq<char>> {
    match (api_endpoint, project_id, location_id) {
        (Err(m), _, _) => Some(m@),
        (Ok(_), Err(m), _) => Some(m@),
        (Ok(_), Ok(_), Err(m)) => Some(m@),
        (Ok(_), Ok(_), Ok(_)) => None,
    }
}

impl ModelConfig {
    /// The configuration from the three values as they were read, each one
    /// either present or reported missing. The first missing value fails
    /// the resolution with its report.
    pub fn resolve(
        api_endpoint: Result<String, String>,
        project_id: Result<String, String>,
        location_id: Result<String, String>,
    ) -> (config: Result<ModelConfig, ModelError>)
        ensures
            match config {
                Ok(c) => {
                    &&& first_missing(api_endpoint, project_id, location_id) is None
                    &&& api_endpoint matches Ok(a) && c.api_endpoint@ == a@
                    &&& project_id matches Ok(p) && c.project_id@ == p@
                    &&& location_id matches Ok(l) && c.location_id@ == l@
                },
                Err(e) => e is Configuration && first_missing(
                    api_endpoint,
                    project_id,
                    location_id,
                ) == Some(e.text()),
            },
    {
        let api_endpoint = match api_endpoint {
            Ok(s) => s,
            Err(m) => return Err(ModelError::Configuration(m)),
        };
        let project_id = match project_id {
            Ok(s) => s,
            Err(m) => return Err(ModelError::Configuration(m)),
        };
        let location_id = match location_id {
            Ok(s) => s,
            Err(m) => return Err(ModelError::Configuration(m)),
        };
        Ok(ModelConfig { api_endpoint, project_id, location_id })
    }

    /// The address requests are posted to.
    pub fn endpoint_url(&self) -> (url: String)
        ensures
            url@ == endpoint_text(self.api_endpoint@, self.project_id@, self.location_id@),
    {
        let mut url = String::from_str(URL_SCHEME);
        url.append(self.api_endpoint.as_str());
        url.append(URL_PROJECTS);
        url.append(self.project_id.as_str());
        url.append(URL_LOCATIONS);
        url.append(self.location_id.as_str());
        url.append(URL_MODELS);
        url.append(MODEL_NAME);
        url.append(URL_METHOD);
        url
    }
}

/// The fixed generation settings.
pub open spec fn fixed_settings(config: GenerationConfig) -> bool {
    &&& config.max_output_tokens == Some(MAX_OUTPUT_TOKENS)
    &&& config.temperature == Some(TEMPERATURE)
    &&& config.top_p == Some(TOP_P)
    &&& config.top_k == Some(TOP_K)
    &&& config.stop_sequences is None
    &&& config.candidate_count is None
}

/// The request that carries a prompt: one content under the user role with
/// the prompt as its single text part, the fixed generation settings, and no
/// tools.
pub open spec fn carries_prompt(request: GenerateContentRequest, prompt: Seq<char>) -> bool {
    &&& request.contents@.len() == 1
    &&& request.contents@[0].role@ == USER_ROLE@
    &&& request.contents@[0].parts@.len() == 1
    &&& request.contents@[0].parts@[0] matches Part::Text(t) && t@ == prompt
    &&& request.generation_config matches Some(config) && fixed_settings(config)
    &&& request.tools is None
}

/// Builds the request that carries a prompt.
pub fn build_request(prompt: String) -> (request: GenerateContentRequest)
    ensures
        carries_prompt(request, prompt@),
{
    let mut parts: Vec<Part> = Vec::new();
    parts.push(Part::Text(prompt));
    let mut contents: Vec<Content> = Vec::new();
    contents.push(Content { role: String::from_str(USER_ROLE), parts });
    GenerateContentRequest {
        contents,
        generation_config: Some(
            GenerationConfig {
                max_output_tokens: Some(MAX_OUTPUT_TOKENS),
                temperature: Some(TEMPERATURE),
                top_p: Some(TOP_P),
                top_k: Some(TOP_K),
                stop_sequences: None,
                candidate_count: None,
            },
        ),
        tools: None,
    }
}

/// A call that has its prompt and nothing else yet. The caller reads the
/// three configuration values and hands them to `configure`.
#[derive(Debug, Clone, PartialEq, Eq)]
pub struct ModelCall {
    pub prompt: String,
}

/// A call that knows its endpoint. The caller acquires a bearer credential
/// for `scope` and hands the outcome to `authorize`.
#[derive(Debug, Clone, PartialEq, Eq)]
pub struct TokenRequest {
    pub url: String,
    pub scope: String,
    pub prompt: String,
}

/// A call that is ready to be sent: the caller posts `payload` to `url` once,
/// with `bearer` attached, and hands what came back to `conclude`.
#[derive(Debug, Clone, PartialEq, Eq)]
pub struct OutboundCall {
    pub url: String,
    pub bearer: String,
    pub payload: GenerateContentRequest,
}

/// What came back from the post.
#[derive(Debug, Clone, PartialEq, Eq)]
pub enum ModelReply {
    /// The request did not get through; the text is the transport's report.
    Unreachable(String),
    /// A body came back and could not be decoded; the text is the decoder's
    /// report.
    Garbled(String),
    /// The decoded response.
    Answer(GenerateContentResponse),
}

/// Begins a call to the model with a prompt.
pub fn generate_ai_content(input_str: String) -> (call: ModelCall)
    ensures
        call.prompt@ == input_str@,
{
    ModelCall { prompt: input_str }
}

impl ModelCall {
    /// Takes the three configuration values as they were read. A missing
    /// value ends the call with `Configuration`; otherwise the call knows
    /// its endpoint and asks for a credential.
    pub fn configure(
        self,
        api_endpoint: Result<String, String>,
        project_id: Result<String, String>,
        location_id: Result<String, String>,
    ) -> (next: Result<TokenRequest, ModelError>)
        ensures
            match next {
                Ok(request) => {
                    &&& api_endpoint matches Ok(a)
                    &&& project_id matches Ok(p)
                    &&& location_id matches Ok(l)
                    &&& request.url@ == endpoint_text(a@, p@, l@)
                    &&& request.scope@ == TOKEN_SCOPE@
                    &&& request.prompt@ == self.prompt@
                },
                Err(e) => e is Configuration && first_missing(
                    api_endpoint,
                    project_id,
                    location_id,
                ) == Some(e.text()),
            },
    {
        match ModelConfig::resolve(api_endpoint, project_id, location_id) {
            Ok(config) => Ok(
                TokenRequest {
                    url: config.endpoint_url(),
                    scope: String::from_str(TOKEN_SCOPE),
                    prompt: self.prompt,
                },
            ),
            Err(e) => Err(e),
        }
    }
}

impl TokenRequest {
    /// Takes the outcome of the credential request. A failure ends the call
    /// with `Credential`; a token makes the call ready to be sent.
    pub fn authorize(self, token: Result<String, String>) -> (next: Result<
        OutboundCall,
        ModelError,
    >)
        ensures
            match next {
                Ok(call) => {
                    &&& token matches Ok(t) && call.bearer@ == t@
                    &&& call.url@ == self.url@
                    &&& carries_prompt(call.payload, self.prompt@)
                },
                Err(e) => {
                    &&& token matches Err(m) && e.text() == m@
                    &&& e is Credential
                },
            },
    {
        match token {
            Ok(bearer) => Ok(
                OutboundCall { url: self.url, bearer, payload: build_request(self.prompt) },
            ),
            Err(m) => Err(ModelError::Credential(m)),
        }
    }
}

impl OutboundCall {
    /// Takes what came back from the post and ends the call: with the
    /// response, with `Transport` when the model was not reached, or with
    /// `ResponseDecode` when it replied with something else than a response.
    pub fn conclude(self, reply: ModelReply) -> (outcome: Result<
        GenerateContentResponse,
        ModelError,
    >)
        ensures
            match reply {
                ModelReply::Unreachable(m) => {
                    &&& outcome matches Err(e)
                    &&& e is Transport
                    &&& e.text() == m@
                },
                ModelReply::Garbled(m) => {
                    &&& outcome matches Err(e)
                    &&& e is ResponseDecode
                    &&& e.text() == m@
                },
                ModelReply::Answer(response) => outcome == Ok::<
                    GenerateContentResponse,
                    ModelError,
                >(response),
            },
    {
        match reply {
            ModelReply::Unreachable(m) => Err(ModelError::Transport(m)),
            ModelReply::Garbled(m) => Err(ModelError::ResponseDecode(m)),
            ModelReply::Answer(response) => Ok(response),
        }
    }
}

} // verus!
