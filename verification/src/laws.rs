//! What holds of the service over many requests and over every course that
//! one request can take.

use crate::handler::{count_after, qa_key};
use crate::lifecycle::{children_after_event, is_due, state_after, RequestEvent, RequestState};
use crate::metrics::next_count;
use crate::outcome::RequestOutcomeView;
use vstd::prelude::*;

verus! {

/// The count of answered inquiries after requests with these outcomes were
/// handled one after the other.
pub open spec fn count_after_all(count: u64, outcomes: Seq<RequestOutcomeView>) -> u64
    decreases outcomes.len(),
{
    if outcomes.len() == 0 {
        count
    } else {
        count_after(count_after_all(count, outcomes.drop_last()), outcomes.last())
    }
}

/// The number of answered requests among these outcomes.
pub open spec fn answered_among(outcomes: Seq<RequestOutcomeView>) -> nat
    decreases outcomes.len(),
{
    if outcomes.len() == 0 {
        0
    } else {
        answered_among(outcomes.drop_last()) + if outcomes.last() is Answered {
            1nat
        } else {
            0nat
        }
    }
}

/// Requests handled one after the other, in whatever order, move the count
/// by the number of answered ones among them: none is lost and none is
/// counted twice, as long as the count fits a `u64`.
pub proof fn lemma_each_answered_request_counts_once(
    count: u64,
    outcomes: Seq<RequestOutcomeView>,
)
    requires
        count + answered_among(outcomes) <= u64::MAX,
    ensures
        count_after_all(count, outcomes) == count + answered_among(outcomes),
    decreases outcomes.len(),
{
    if outcomes.len() > 0 {
        lemma_each_answered_request_counts_once(count, outcomes.drop_last());
    }
}

/// Where every one of the requests is answered, the count moves by their
/// number.
pub proof fn lemma_answered_requests_count_their_number(
    count: u64,
    outcomes: Seq<RequestOutcomeView>,
)
    requires
        forall|i: int| 0 <= i < outcomes.len() ==> outcomes[i] is Answered,
        count + outcomes.len() <= u64::MAX,
    ensures
        count_after_all(count, outcomes) == count + outcomes.len(),
    decreases outcomes.len(),
{
    if outcomes.len() > 0 {
        lemma_answered_requests_count_their_number(count, outcomes.drop_last());
    }
}

/// An event that is due takes the request one step on; an event that is not
/// due leaves it where it is. No event is due once the response is sent, and
/// no inference is taken twice.
pub proof fn lemma_requests_only_advance(state: RequestState, event: RequestEvent)
    ensures
        is_due(state, event) ==> state_after(state, event).progress() == state.progress() + 1,
        !is_due(state, event) ==> state_after(state, event) == state,
        !is_due(RequestState::ResponseSent, event),
        event is Complete ==> !is_due(state_after(state, event), event),
{
}

/// The state of a request and the children of the counter after a course
/// of events.
pub open spec fn after_events(
    state: RequestState,
    children: Map<u64, u64>,
    events: Seq<RequestEvent>,
) -> (RequestState, Map<u64, u64>)
    decreases events.len(),
{
    if events.len() == 0 {
        (state, children)
    } else {
        let (before, counted) = after_events(state, children, events.drop_last());
        (state_after(before, events.last()), children_after_event(before, counted, events.last()))
    }
}

/// The children of the counter after one inquiry was counted.
pub open spec fn counted_once(children: Map<u64, u64>) -> Map<u64, u64> {
    children.insert(qa_key(), next_count(children[qa_key()]))
}

/// Whatever happens to a request and in whatever order, it is counted at
/// most once: once where it was answered, not at all where it got no answer
/// or failed, or where the inference never came back.
pub proof fn lemma_request_counts_at_most_once(children: Map<u64, u64>, events: Seq<RequestEvent>)
    ensures
        ({
            let (state, counted) = after_events(RequestState::Received, children, events);
            &&& counted == children || counted == counted_once(children)
            &&& state is SucceededWithAnswer ==> counted == counted_once(children)
            &&& state is Received || state is Dispatched || state is SucceededNoAnswer || state
                is Failed ==> counted == children
        }),
    decreases events.len(),
{
    if events.len() > 0 {
        lemma_request_counts_at_most_once(children, events.drop_last());
    }
}

} // verus!
