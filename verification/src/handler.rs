//! The handling of one prediction: the response it gets and what it does to
//! the counter of served requests.

use crate::metrics::{label_key, next_count, EndpointCounter, QA_ENDPOINT};
use crate::outcome::{outcome_of, prediction_view, Prediction, RequestOutcome, RequestOutcomeView};
use crate::response::{
    response_for, Response, ANSWER_PREFIX, FAILURE_BODY, NO_ANSWER_BODY,
    STATUS_INTERNAL_SERVER_ERROR, STATUS_OK,
};
use vstd::prelude::*;

verus! {

/// The key of the child under which answered inquiries are counted.
pub open spec fn qa_key() -> u64 {
    label_key(QA_ENDPOINT@)
}

/// Whether a request with this outcome is counted: only an answered one is.
/// A request that the model had no answer for is served, and not counted.
pub open spec fn is_counted(outcome: RequestOutcomeView) -> bool {
    outcome is Answered
}

/// The count of answered inquiries after a request with this outcome.
pub open spec fn count_after(count: u64, outcome: RequestOutcomeView) -> u64 {
    if is_counted(outcome) {
        next_count(count)
    } else {
        count
    }
}

/// The children of the counter after a request with this outcome: the child
/// of the inquiries' label moves as [`count_after`] says, no other child
/// moves.
pub open spec fn children_after(children: Map<u64, u64>, outcome: RequestOutcomeView) -> Map<
    u64,
    u64,
> {
    if is_counted(outcome) {
        children.insert(qa_key(), count_after(children[qa_key()], outcome))
    } else {
        children
    }
}

/// Answers an outcome: gives its response, and counts it if it is an
/// answered one. The counter is known by what it was known by.
pub fn respond(counter: &mut EndpointCounter, outcome: &RequestOutcome) -> (response: Response)
    ensures
        response@ == response_for(outcome@),
        final(counter)@ == children_after(old(counter)@, outcome@),
        final(counter).description() == old(counter).description(),
{
    let response = Response::for_outcome(outcome);
    match outcome {
        RequestOutcome::Answered(_) => {
            counter.increment(QA_ENDPOINT);
        },
        _ => {},
    }
    response
}

/// Handles what the inference handed back for one inquiry.
///
/// With a first candidate the response is 200 and shows the candidate, and
/// the inquiry is counted once. With no candidate the response is 200 and
/// says so, with a failure it is 500 with the one failure body; neither is
/// counted.
pub fn process_qa(counter: &mut EndpointCounter, prediction: Prediction) -> (response: Response)
    ensures
        response@ == response_for(outcome_of(prediction_view(prediction))),
        final(counter)@ == children_after(old(counter)@, outcome_of(prediction_view(prediction))),
        final(counter).description() == old(counter).description(),
        match outcome_of(prediction_view(prediction)) {
            RequestOutcomeView::Answered(candidate) => {
                &&& response@.status == STATUS_OK
                &&& response.body@ == ANSWER_PREFIX@ + candidate
                &&& final(counter).count(QA_ENDPOINT@) == next_count(old(counter).count(QA_ENDPOINT@))
                &&& old(counter).count(QA_ENDPOINT@) < u64::MAX ==> final(counter).count(
                    QA_ENDPOINT@,
                ) == old(counter).count(QA_ENDPOINT@) + 1
            },
            RequestOutcomeView::NoAnswer => {
                &&& response@.status == STATUS_OK
                &&& response.body@ == NO_ANSWER_BODY@
                &&& final(counter)@ == old(counter)@
            },
            RequestOutcomeView::InferenceFailed => {
                &&& response@.status == STATUS_INTERNAL_SERVER_ERROR
                &&& response.body@ == FAILURE_BODY@
                &&& final(counter)@ == old(counter)@
            },
        },
{
    let outcome = RequestOutcome::of(prediction);
    respond(counter, &outcome)
}

} // verus!
