//! The response envelopes and the HTTP status they travel with.

use crate::model::{AIResponse, GenerateContentResponse, GenericResponse};
use vstd::prelude::*;
use vstd::string::*;

verus! {

/// The status flag of a request that was served.
pub const SUCCESS: &'static str = "success";

/// The status flag of a request that failed.
pub const FAIL: &'static str = "fail";

pub const HTTP_OK: u16 = 200;

pub const HTTP_INTERNAL_SERVER_ERROR: u16 = 500;

/// The body of a reply: the uniform envelope, or the envelope that carries a
/// whole model response.
#[derive(Debug, Clone, PartialEq, Eq)]
pub enum ReplyBody {
    Message(GenericResponse),
    Model(AIResponse),
}

/// What a handler answers: an HTTP status code and a body.
#[derive(Debug, Clone, PartialEq, Eq)]
pub struct HttpReply {
    pub code: u16,
    pub body: ReplyBody,
}

/// A reply by what it holds.
pub enum ReplyView {
    Message { code: int, status: Seq<char>, message: Seq<char> },
    Model { code: int, status: Seq<char>, response: GenerateContentResponse },
}

impl View for HttpReply {
    type V = ReplyView;

    open spec fn view(&self) -> ReplyView {
        match self.body {
            ReplyBody::Message(envelope) => ReplyView::Message {
                code: self.code as int,
                status: envelope.status@,
                message: envelope.message@,
            },
            ReplyBody::Model(envelope) => ReplyView::Model {
                code: self.code as int,
                status: envelope.status@,
                response: envelope.response,
            },
        }
    }
}

/// The reply to a served request: 200 and the message under `success`.
pub open spec fn served(message: Seq<char>) -> ReplyView {
    ReplyView::Message { code: 200, status: SUCCESS@, message }
}

/// The reply to a failed request: 500 and the message under `fail`.
pub open spec fn failed(message: Seq<char>) -> ReplyView {
    ReplyView::Message { code: 500, status: FAIL@, message }
}

/// The reply that hands a model response on: 200 and the response under
/// `success`.
pub open spec fn relayed(response: GenerateContentResponse) -> ReplyView {
    ReplyView::Model { code: 200, status: SUCCESS@, response }
}

impl HttpReply {
    pub fn success(message: String) -> (reply: HttpReply)
        ensures
            reply@ == served(message@),
    {
        HttpReply {
            code: HTTP_OK,
            body: ReplyBody::Message(
                GenericResponse { status: String::from_str(SUCCESS), message },
            ),
        }
    }

    pub fn failure(message: String) -> (reply: HttpReply)
        ensures
            reply@ == failed(message@),
    {
        HttpReply {
            code: HTTP_INTERNAL_SERVER_ERROR,
            body: ReplyBody::Message(GenericResponse { status: String::from_str(FAIL), message }),
        }
    }

    pub fn relay(response: GenerateContentResponse) -> (reply: HttpReply)
        ensures
            reply@ == relayed(response),
    {
        HttpReply {
            code: HTTP_OK,
            body: ReplyBody::Model(AIResponse { status: String::from_str(SUCCESS), response }),
        }
    }
}

} // verus!
