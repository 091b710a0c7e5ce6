//! What the inference hands back for a request, and the outcome it amounts to.

use vstd::prelude::*;

verus! {

/// One ranked answer of the model. The service does not look into it: all
/// it holds of a candidate is the text that shows it.
#[derive(Clone, Debug, PartialEq, Eq)]
pub struct AnswerCandidate {
    pub rendering: String,
}

impl View for AnswerCandidate {
    type V = Seq<char>;

    /// The text that shows the candidate.
    open spec fn view(&self) -> Seq<char> {
        self.rendering@
    }
}

impl DeepView for AnswerCandidate {
    type V = Seq<char>;

    open spec fn deep_view(&self) -> Seq<char> {
        self@
    }
}

impl AnswerCandidate {
    /// The candidate that the text shows.
    pub fn new(rendering: String) -> (candidate: AnswerCandidate)
        ensures
            candidate@ == rendering@,
    {
        AnswerCandidate { rendering }
    }
}

/// Why an inference came to nothing. The client is told none of it.
#[derive(Clone, Copy, Debug, PartialEq, Eq, Structural)]
pub enum InferenceFailure {
    /// The task that ran the model panicked.
    TaskPanicked,
    /// The pool of workers did not take the task.
    PoolRejected,
    /// The model could not be made, or failed on the batch.
    CapabilityError,
}

/// `actix_web::error::BlockingError`, with which the pool of blocking
/// workers reports a task that did not finish.
#[verifier::external_type_specification]
#[verifier::external_body]
pub struct ExBlockingError(actix_web::error::BlockingError);

/// What the inference hands back: for each query of the batch its ranked
/// candidates, or the failure.
pub type Prediction = Result<Vec<Vec<AnswerCandidate>>, InferenceFailure>;

/// The model of a [`Prediction`].
pub type PredictionView = Result<Seq<Seq<Seq<char>>>, InferenceFailure>;

/// The model of a prediction: each candidate by the text that shows it.
pub open spec fn prediction_view(prediction: Prediction) -> PredictionView {
    match prediction {
        Ok(answers) => Ok(answers.deep_view()),
        Err(failure) => Err(failure),
    }
}

/// The prediction that came back from the pool of blocking workers: the
/// answers of a task that finished, and a failure for one that did not. The
/// pool tells a task that panicked and a pool that is shut down alike; both
/// come out as [`InferenceFailure::TaskPanicked`].
pub fn prediction_from_pool(
    finished: Result<Vec<Vec<AnswerCandidate>>, actix_web::error::BlockingError>,
) -> (prediction: Prediction)
    ensures
        match finished {
            Ok(answers) => prediction == Ok::<Vec<Vec<AnswerCandidate>>, InferenceFailure>(answers),
            Err(_) => prediction == Err::<Vec<Vec<AnswerCandidate>>, InferenceFailure>(
                InferenceFailure::TaskPanicked,
            ),
        },
{
    match finished {
        Ok(answers) => Ok(answers),
        Err(_) => Err(InferenceFailure::TaskPanicked),
    }
}

/// How a request ended.
#[derive(Clone, Debug, PartialEq, Eq)]
pub enum RequestOutcome {
    /// The model found an answer: its first candidate.
    Answered(AnswerCandidate),
    /// The model ran and found nothing.
    NoAnswer,
    /// The inference failed.
    InferenceFailed,
}

/// The model of a [`RequestOutcome`].
pub enum RequestOutcomeView {
    Answered(Seq<char>),
    NoAnswer,
    InferenceFailed,
}

impl View for RequestOutcome {
    type V = RequestOutcomeView;

    open spec fn view(&self) -> RequestOutcomeView {
        match self {
            RequestOutcome::Answered(candidate) => RequestOutcomeView::Answered(candidate@),
            RequestOutcome::NoAnswer => RequestOutcomeView::NoAnswer,
            RequestOutcome::InferenceFailed => RequestOutcomeView::InferenceFailed,
        }
    }
}

/// The first candidate for the first query of the batch, where there is one.
pub open spec fn first_candidate(answers: Seq<Seq<Seq<char>>>) -> Option<Seq<char>> {
    if answers.len() > 0 && answers[0].len() > 0 {
        Some(answers[0][0])
    } else {
        None
    }
}

/// The outcome that a prediction amounts to: answered with the first
/// candidate where there is one, no answer where the model ran and gave
/// none, failed whatever the failure was.
pub open spec fn outcome_of(prediction: PredictionView) -> RequestOutcomeView {
    match prediction {
        Ok(answers) => match first_candidate(answers) {
            Some(candidate) => RequestOutcomeView::Answered(candidate),
            None => RequestOutcomeView::NoAnswer,
        },
        Err(_) => RequestOutcomeView::InferenceFailed,
    }
}

impl RequestOutcome {
    /// The outcome that the prediction amounts to.
    pub fn of(prediction: Prediction) -> (outcome: RequestOutcome)
        ensures
            outcome@ == outcome_of(prediction_view(prediction)),
    {
        match prediction {
            Ok(mut answers) => {
                if answers.len() == 0 {
                    return RequestOutcome::NoAnswer;
                }
                let mut first_query = answers.remove(0);
                if first_query.len() == 0 {
                    return RequestOutcome::NoAnswer;
                }
                let candidate = first_query.remove(0);
                RequestOutcome::Answered(candidate)
            },
            Err(_) => RequestOutcome::InferenceFailed,
        }
    }
}

} // verus!
