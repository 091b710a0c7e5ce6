//! The inquiry a client sends and the batch that is run on the model for it.

use vstd::prelude::*;

verus! {

/// The number of ranked candidates asked of the model for each query.
pub const TOP_K: i64 = 1;

/// The greatest answer length asked of the model.
pub const MAX_ANSWER_LENGTH: usize = 32;

/// A question and the text in which its answer is to be found.
///
/// Neither field is checked: an empty question or context is run like any
/// other.
#[derive(Clone, Debug, PartialEq, Eq)]
pub struct Inquiry {
    pub question: String,
    pub context: String,
}

/// The model of an [`Inquiry`]: its two texts.
pub struct InquiryView {
    pub question: Seq<char>,
    pub context: Seq<char>,
}

impl View for Inquiry {
    type V = InquiryView;

    open spec fn view(&self) -> InquiryView {
        InquiryView { question: self.question@, context: self.context@ }
    }
}

/// One entry of a batch: the question and context handed to the model.
#[derive(Clone, Debug, PartialEq, Eq)]
pub struct Query {
    pub question: String,
    pub context: String,
}

/// The model of a [`Query`].
pub struct QueryView {
    pub question: Seq<char>,
    pub context: Seq<char>,
}

impl View for Query {
    type V = QueryView;

    open spec fn view(&self) -> QueryView {
        QueryView { question: self.question@, context: self.context@ }
    }
}

impl DeepView for Query {
    type V = QueryView;

    open spec fn deep_view(&self) -> QueryView {
        self@
    }
}

/// A call of the model: the batch of queries and the two limits of the call.
#[derive(Clone, Debug, PartialEq, Eq)]
pub struct PredictionRequest {
    pub queries: Vec<Query>,
    pub top_k: i64,
    pub max_answer_length: usize,
}

/// The model of a [`PredictionRequest`].
pub struct PredictionRequestView {
    pub queries: Seq<QueryView>,
    pub top_k: int,
    pub max_answer_length: nat,
}

impl View for PredictionRequest {
    type V = PredictionRequestView;

    open spec fn view(&self) -> PredictionRequestView {
        PredictionRequestView {
            queries: self.queries.deep_view(),
            top_k: self.top_k as int,
            max_answer_length: self.max_answer_length as nat,
        }
    }
}

/// The call that serves an inquiry: a batch of exactly one query, which holds
/// the inquiry's question and context unchanged, for one candidate of at most
/// 32 in length.
pub open spec fn request_for(inquiry: InquiryView) -> PredictionRequestView {
    PredictionRequestView {
        queries: seq![QueryView { question: inquiry.question, context: inquiry.context }],
        top_k: 1,
        max_answer_length: 32,
    }
}

impl Inquiry {
    /// An inquiry of the two texts.
    pub fn new(question: String, context: String) -> (inquiry: Inquiry)
        ensures
            inquiry@ == (InquiryView { question: question@, context: context@ }),
    {
        Inquiry { question, context }
    }

    /// The call of the model that serves this inquiry.
    pub fn prediction_request(&self) -> (request: PredictionRequest)
        ensures
            request@ == request_for(self@),
    {
        let query = Query { question: self.question.clone(), context: self.context.clone() };
        let mut queries: Vec<Query> = Vec::new();
        queries.push(query);
        let request = PredictionRequest { queries, top_k: TOP_K, max_answer_length: MAX_ANSWER_LENGTH };
        assert(request@.queries =~= request_for(self@).queries);
        request
    }
}

} // verus!
