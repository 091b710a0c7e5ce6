//! The core of a question-answering HTTP service: what is asked of the model
//! for an inquiry, what is answered to the client for each outcome of the
//! inference, and when the counter of answered inquiries moves.
//!
//! The library does no I/O and runs no model. A server makes a
//! [`RequestHandler`] for the inquiry that came in, runs the
//! [`PredictionRequest`] that the handler dispatches on a model wherever it
//! likes, and hands what came back to the handler, which gives the
//! [`Response`] and counts the request in an [`EndpointCounter`].
//! [`setup_prometheus_metrics`] makes that counter at start-up, with the
//! middleware that serves it.

pub mod handler;
pub mod inquiry;
pub mod laws;
pub mod lifecycle;
pub mod metrics;
pub mod outcome;
pub mod response;

pub use handler::{process_qa, respond};
pub use inquiry::{Inquiry, InquiryView, PredictionRequest, PredictionRequestView, Query, QueryView};
pub use lifecycle::{RequestEvent, RequestHandler, RequestHandlerView, RequestState};
pub use metrics::{setup_prometheus_metrics, EndpointCounter, SetupError};
pub use outcome::{
    prediction_from_pool, AnswerCandidate, InferenceFailure, Prediction, PredictionView,
    RequestOutcome, RequestOutcomeView,
};
pub use response::{Response, ResponseView, Status};
