//! The answer that goes back to the client for each outcome.

use crate::outcome::{RequestOutcome, RequestOutcomeView};
use vstd::prelude::*;
use vstd::string::StringExecFns;

verus! {

/// The status of a served request.
pub const STATUS_OK: u16 = 200;

/// The status of a request whose inference failed.
pub const STATUS_INTERNAL_SERVER_ERROR: u16 = 500;

/// The content type of every response.
pub const PLAIN_TEXT: &'static str = "text/plain";

/// What stands before the candidate in the body of an answered request.
pub const ANSWER_PREFIX: &'static str = "Answer: ";

/// The body that tells the client that the model found nothing.
pub const NO_ANSWER_BODY: &'static str = "No valid answer found.";

/// The one body of every failed request. It says nothing of the failure.
pub const FAILURE_BODY: &'static str = "There was a problem processing the request.";

/// The two statuses with which the service answers.
#[derive(Clone, Copy, Debug, PartialEq, Eq, Structural)]
pub enum Status {
    /// 200: the request was served, with an answer or without.
    Success,
    /// 500: the inference failed.
    ServerError,
}

impl View for Status {
    type V = u16;

    /// The number of the status.
    open spec fn view(&self) -> u16 {
        match self {
            Status::Success => STATUS_OK,
            Status::ServerError => STATUS_INTERNAL_SERVER_ERROR,
        }
    }
}

impl Status {
    /// The number of the status.
    pub fn code(&self) -> (code: u16)
        ensures
            code == self@,
    {
        match self {
            Status::Success => STATUS_OK,
            Status::ServerError => STATUS_INTERNAL_SERVER_ERROR,
        }
    }
}

/// What is sent back to the client.
#[derive(Clone, Debug, PartialEq, Eq)]
pub struct Response {
    pub status: Status,
    pub content_type: String,
    pub body: String,
}

/// The model of a [`Response`].
pub struct ResponseView {
    pub status: u16,
    pub content_type: Seq<char>,
    pub body: Seq<char>,
}

impl View for Response {
    type V = ResponseView;

    open spec fn view(&self) -> ResponseView {
        ResponseView { status: self.status@, content_type: self.content_type@, body: self.body@ }
    }
}

/// `actix_web::HttpResponse`, the response as the server sends it. It is
/// opaque here: the library builds it and hands it on.
#[verifier::external_type_specification]
#[verifier::external_body]
#[verifier::reject_recursive_types(B)]
pub struct ExHttpResponse<B>(actix_web::HttpResponse<B>);

/// `actix_web::body::BoxBody`, the body of such a response.
#[verifier::external_type_specification]
#[verifier::external_body]
pub struct ExBoxBody(actix_web::body::BoxBody);

/// The status of the response.
pub uninterp spec fn sent_status(sent: actix_web::HttpResponse) -> u16;

/// The text that the response carries as its content type.
pub uninterp spec fn sent_content_type(sent: actix_web::HttpResponse) -> Seq<char>;

/// The text that the response carries as its body.
pub uninterp spec fn sent_body(sent: actix_web::HttpResponse) -> Seq<char>;

/// Whether a text can stand as the value of a header: it holds no control
/// character but the tab.
pub open spec fn is_header_text(text: Seq<char>) -> bool {
    forall|i: int|
        0 <= i < text.len() ==> (#[trigger] text[i] >= ' ' && text[i] != '\x7f') || text[i]
            == '\t'
}

/// Calls `actix_web::HttpResponse::build` with the status, then
/// `content_type` and `body` on the builder. `StatusCode::from_u16` takes
/// the numbers from 100 to 999 and no other, hence the `requires`. Claimed:
/// where the content type can stand as the value of a header, the response
/// has the status, the content type and the body that were given. Nothing
/// is claimed of a content type that cannot: the builder then gives a
/// response that tells of the error.
#[verifier::external_body]
fn build_http_response(status: u16, content_type: &str, body: String) -> (built:
    actix_web::HttpResponse)
    requires
        100 <= status <= 999,
    ensures
        is_header_text(content_type@) ==> {
            &&& sent_status(built) == status
            &&& sent_content_type(built) == content_type@
            &&& sent_body(built) == body@
        },
{
    let code = actix_web::http::StatusCode::from_u16(status).unwrap();
    actix_web::HttpResponse::build(code).content_type(content_type).body(body)
}

/// The content type of every response of the service can stand as the value
/// of a header.
pub proof fn lemma_plain_text_is_header_text()
    ensures
        is_header_text(PLAIN_TEXT@),
{
    reveal_strlit("text/plain");
}

/// The response to each outcome: 200 with the candidate behind the prefix,
/// 200 with the no-answer body, or 500 with the failure body; plain text
/// each time.
pub open spec fn response_for(outcome: RequestOutcomeView) -> ResponseView {
    match outcome {
        RequestOutcomeView::Answered(candidate) => ResponseView {
            status: STATUS_OK,
            content_type: PLAIN_TEXT@,
            body: ANSWER_PREFIX@ + candidate,
        },
        RequestOutcomeView::NoAnswer => ResponseView {
            status: STATUS_OK,
            content_type: PLAIN_TEXT@,
            body: NO_ANSWER_BODY@,
        },
        RequestOutcomeView::InferenceFailed => ResponseView {
            status: STATUS_INTERNAL_SERVER_ERROR,
            content_type: PLAIN_TEXT@,
            body: FAILURE_BODY@,
        },
    }
}

impl Response {
    /// The response to the outcome.
    pub fn for_outcome(outcome: &RequestOutcome) -> (response: Response)
        ensures
            response@ == response_for(outcome@),
    {
        match outcome {
            RequestOutcome::Answered(candidate) => {
                let mut body = ANSWER_PREFIX.to_owned();
                body.append(candidate.rendering.as_str());
                Response { status: Status::Success, content_type: PLAIN_TEXT.to_owned(), body }
            },
            RequestOutcome::NoAnswer => Response {
                status: Status::Success,
                content_type: PLAIN_TEXT.to_owned(),
                body: NO_ANSWER_BODY.to_owned(),
            },
            RequestOutcome::InferenceFailed => Response {
                status: Status::ServerError,
                content_type: PLAIN_TEXT.to_owned(),
                body: FAILURE_BODY.to_owned(),
            },
        }
    }

    /// The response as the server sends it. Where the content type can
    /// stand as the value of a header, as that of every response of the
    /// service does, the response that is sent has the status, the content
    /// type and the body of this one.
    pub fn into_http(self) -> (sent: actix_web::HttpResponse)
        ensures
            is_header_text(self@.content_type) ==> {
                &&& sent_status(sent) == self@.status
                &&& sent_content_type(sent) == self@.content_type
                &&& sent_body(sent) == self@.body
            },
            self@.content_type == PLAIN_TEXT@ ==> {
                &&& sent_status(sent) == self@.status
                &&& sent_content_type(sent) == PLAIN_TEXT@
                &&& sent_body(sent) == self@.body
            },
    {
        proof {
            lemma_plain_text_is_header_text();
        }
        build_http_response(self.status.code(), self.content_type.as_str(), self.body)
    }
}

} // verus!
