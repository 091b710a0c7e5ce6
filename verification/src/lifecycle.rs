//! The life of one request, from the inquiry that came in to the response
//! that went out.
//!
//! A handler takes the request through its states. The server does what
//! lies between them: it runs the batch on the model when the handler has
//! dispatched it, and sends the response that the handler gave. An event
//! that is not due in the state of the request changes nothing, so that a
//! request is dispatched once, answered once and counted at most once
//! however the server calls.

use crate::handler::{children_after, respond};
use crate::inquiry::{request_for, Inquiry, InquiryView, PredictionRequest};
use crate::metrics::EndpointCounter;
use crate::outcome::{outcome_of, prediction_view, Prediction, RequestOutcome, RequestOutcomeView};
use crate::response::{response_for, Response};
use vstd::prelude::*;

verus! {

/// Where a request stands.
#[derive(Clone, Copy, Debug, PartialEq, Eq, Structural)]
pub enum RequestState {
    /// The inquiry came in; nothing was asked of the model yet.
    Received,
    /// The batch is with the model.
    Dispatched,
    /// The model answered; the response is not out yet.
    SucceededWithAnswer,
    /// The model had no answer; the response is not out yet.
    SucceededNoAnswer,
    /// The inference failed; the response is not out yet.
    Failed,
    /// The response was handed on to be sent. Nothing follows.
    ResponseSent,
}

/// What can happen to a request.
pub enum RequestEvent {
    /// The batch is handed out to be run.
    Dispatch,
    /// The inference came back, with this outcome.
    Complete(RequestOutcomeView),
    /// The response is handed on to be sent.
    Deliver,
}

/// The state in which a request with this outcome waits for its response
/// to go out.
pub open spec fn outcome_state(outcome: RequestOutcomeView) -> RequestState {
    match outcome {
        RequestOutcomeView::Answered(_) => RequestState::SucceededWithAnswer,
        RequestOutcomeView::NoAnswer => RequestState::SucceededNoAnswer,
        RequestOutcomeView::InferenceFailed => RequestState::Failed,
    }
}

impl RequestState {
    /// Whether the outcome is known and the response not out yet.
    pub open spec fn awaits_delivery(self) -> bool {
        self is SucceededWithAnswer || self is SucceededNoAnswer || self is Failed
    }

    /// How far the request has come.
    pub open spec fn progress(self) -> nat {
        match self {
            RequestState::Received => 0,
            RequestState::Dispatched => 1,
            RequestState::SucceededWithAnswer => 2,
            RequestState::SucceededNoAnswer => 2,
            RequestState::Failed => 2,
            RequestState::ResponseSent => 3,
        }
    }
}

/// Whether the event is due in the state. An event that is not due changes
/// nothing.
pub open spec fn is_due(state: RequestState, event: RequestEvent) -> bool {
    match event {
        RequestEvent::Dispatch => state is Received,
        RequestEvent::Complete(_) => state is Dispatched,
        RequestEvent::Deliver => state.awaits_delivery(),
    }
}

/// The state after an event.
pub open spec fn state_after(state: RequestState, event: RequestEvent) -> RequestState {
    if !is_due(state, event) {
        state
    } else {
        match event {
            RequestEvent::Dispatch => RequestState::Dispatched,
            RequestEvent::Complete(outcome) => outcome_state(outcome),
            RequestEvent::Deliver => RequestState::ResponseSent,
        }
    }
}

/// The children of the counter after an event: only a completion that is
/// due can move them, as [`children_after`] says of its outcome.
pub open spec fn children_after_event(
    state: RequestState,
    children: Map<u64, u64>,
    event: RequestEvent,
) -> Map<u64, u64> {
    match event {
        RequestEvent::Complete(outcome) if is_due(state, event) => children_after(children, outcome),
        _ => children,
    }
}

impl RequestOutcome {
    /// The state in which a request with this outcome waits for its
    /// response to go out.
    pub fn state(&self) -> (state: RequestState)
        ensures
            state == outcome_state(self@),
    {
        match self {
            RequestOutcome::Answered(_) => RequestState::SucceededWithAnswer,
            RequestOutcome::NoAnswer => RequestState::SucceededNoAnswer,
            RequestOutcome::InferenceFailed => RequestState::Failed,
        }
    }
}

/// The handler of one request: the inquiry and the state the request is in.
pub struct RequestHandler {
    state: RequestState,
    inquiry: Inquiry,
}

/// The model of a [`RequestHandler`].
pub struct RequestHandlerView {
    pub state: RequestState,
    pub inquiry: InquiryView,
}

impl View for RequestHandler {
    type V = RequestHandlerView;

    closed spec fn view(&self) -> RequestHandlerView {
        RequestHandlerView { state: self.state, inquiry: self.inquiry@ }
    }
}

impl RequestHandler {
    /// The handler of an inquiry that just came in.
    pub fn receive(inquiry: Inquiry) -> (handler: RequestHandler)
        ensures
            handler@ == (RequestHandlerView { state: RequestState::Received, inquiry: inquiry@ }),
    {
        RequestHandler { state: RequestState::Received, inquiry }
    }

    /// The state the request is in.
    pub fn state(&self) -> (state: RequestState)
        ensures
            state == self@.state,
    {
        self.state
    }

    /// Hands out the batch to run on the model. A request is dispatched
    /// once: the batch comes back for a request that was just received, and
    /// nothing for any other.
    pub fn dispatch(&mut self) -> (request: Option<PredictionRequest>)
        ensures
            final(self)@.inquiry == old(self)@.inquiry,
            final(self)@.state == state_after(old(self)@.state, RequestEvent::Dispatch),
            match request {
                Some(batch) => is_due(old(self)@.state, RequestEvent::Dispatch) && batch@
                    == request_for(old(self)@.inquiry),
                None => !is_due(old(self)@.state, RequestEvent::Dispatch),
            },
    {
        match self.state {
            RequestState::Received => {
                self.state = RequestState::Dispatched;
                Some(self.inquiry.prediction_request())
            },
            _ => None,
        }
    }

    /// Takes what the inference handed back. For a request that is with
    /// the model, the response comes back and the request is counted as
    /// [`respond`] counts its outcome. For any other request nothing comes
    /// back and the counter stays as it is: no request is answered or
    /// counted twice.
    pub fn complete(&mut self, counter: &mut EndpointCounter, prediction: Prediction) -> (response:
        Option<Response>)
        ensures
            final(self)@.inquiry == old(self)@.inquiry,
            final(self)@.state == state_after(
                old(self)@.state,
                RequestEvent::Complete(outcome_of(prediction_view(prediction))),
            ),
            final(counter)@ == children_after_event(
                old(self)@.state,
                old(counter)@,
                RequestEvent::Complete(outcome_of(prediction_view(prediction))),
            ),
            final(counter).description() == old(counter).description(),
            match response {
                Some(answer) => old(self)@.state is Dispatched && answer@ == response_for(
                    outcome_of(prediction_view(prediction)),
                ),
                None => !(old(self)@.state is Dispatched),
            },
    {
        match self.state {
            RequestState::Dispatched => {
                let outcome = RequestOutcome::of(prediction);
                self.state = outcome.state();
                Some(respond(counter, &outcome))
            },
            _ => None,
        }
    }

    /// Notes that the response is handed on to be sent, and says whether one
    /// was due. The request is then done.
    pub fn deliver(&mut self) -> (was_due: bool)
        ensures
            final(self)@.inquiry == old(self)@.inquiry,
            final(self)@.state == state_after(old(self)@.state, RequestEvent::Deliver),
            was_due == is_due(old(self)@.state, RequestEvent::Deliver),
    {
        match self.state {
            RequestState::SucceededWithAnswer | RequestState::SucceededNoAnswer | RequestState::Failed => {
                self.state = RequestState::ResponseSent;
                true
            },
            _ => false,
        }
    }
}

} // verus!
