use std::sync::{Arc, Mutex};

use qa_service::{
    prediction_from_pool, process_qa, setup_prometheus_metrics, AnswerCandidate, EndpointCounter,
    InferenceFailure,
};

fn answer_one(shared: &Mutex<EndpointCounter>) -> u16 {
    let mut held = match shared.lock() {
        Ok(held) => held,
        Err(poisoned) => poisoned.into_inner(),
    };
    let candidate = AnswerCandidate::new(String::from("yes"));
    process_qa(&mut held, Ok(vec![vec![candidate]])).status.code()
}

#[test]
fn simultaneous_answered_requests_count_their_number() {
    let counter = match setup_prometheus_metrics() {
        Ok((_, counter)) => Arc::new(Mutex::new(counter)),
        Err(error) => panic!("{}", error.message()),
    };
    let shared = Arc::clone(&counter);
    let statuses = actix_web::rt::System::new().block_on(async move {
        let mut tasks = Vec::new();
        for _ in 0..64 {
            let shared = Arc::clone(&shared);
            tasks.push(actix_web::web::block(move || answer_one(&shared)));
        }
        let mut statuses = Vec::new();
        for task in tasks {
            match task.await {
                Ok(status) => statuses.push(status),
                Err(error) => panic!("{}", error),
            }
        }
        statuses
    });
    assert_eq!(statuses, vec![200u16; 64]);
    let held = match counter.lock() {
        Ok(held) => held,
        Err(poisoned) => poisoned.into_inner(),
    };
    assert_eq!(held.get("/qa"), 64);
}

fn broken_model() -> Vec<Vec<AnswerCandidate>> {
    panic!("Failed to create model")
}

fn working_model() -> Vec<Vec<AnswerCandidate>> {
    vec![vec![AnswerCandidate::new(String::from("blue"))]]
}

#[test]
fn panicked_task_is_a_failed_inference() {
    let finished =
        actix_web::rt::System::new().block_on(async { actix_web::web::block(broken_model).await });
    assert!(finished.is_err());
    let prediction = prediction_from_pool(finished);
    assert_eq!(prediction, Err(InferenceFailure::TaskPanicked));

    let mut counter = match setup_prometheus_metrics() {
        Ok((_, counter)) => counter,
        Err(error) => panic!("{}", error.message()),
    };
    let response = process_qa(&mut counter, prediction);
    assert_eq!(response.status.code(), 500);
    assert_eq!(response.body, "There was a problem processing the request.");
    assert_eq!(counter.get("/qa"), 0);
}

#[test]
fn finished_task_hands_its_answers_on() {
    let finished =
        actix_web::rt::System::new().block_on(async { actix_web::web::block(working_model).await });
    let prediction = prediction_from_pool(finished);
    assert_eq!(prediction, Ok(working_model()));

    let mut counter = match setup_prometheus_metrics() {
        Ok((_, counter)) => counter,
        Err(error) => panic!("{}", error.message()),
    };
    let response = process_qa(&mut counter, prediction);
    assert_eq!(response.status.code(), 200);
    assert_eq!(response.body, "Answer: blue");
    assert_eq!(counter.get("/qa"), 1);
}
