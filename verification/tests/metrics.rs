use prometheus::Encoder;
use qa_service::metrics::{
    metrics_middleware, step_result, COUNTER_HELP, COUNTER_LABEL, COUNTER_NAME, COUNTER_NAMESPACE,
    METRICS_ENDPOINT, METRICS_NAMESPACE, QA_ENDPOINT,
};
use qa_service::{process_qa, setup_prometheus_metrics, AnswerCandidate, EndpointCounter, SetupError};

fn exposition(metrics: &actix_web_prom::PrometheusMetrics) -> String {
    let mut buffer = Vec::new();
    let encoder = prometheus::TextEncoder::new();
    match encoder.encode(&metrics.registry.gather(), &mut buffer) {
        Ok(()) => {}
        Err(error) => panic!("{}", error),
    }
    match String::from_utf8(buffer) {
        Ok(text) => text,
        Err(error) => panic!("{}", error),
    }
}

#[test]
fn setup_gives_a_counter_that_counted_nothing() {
    match setup_prometheus_metrics() {
        Ok((_, counter)) => {
            assert_eq!(counter.get("/qa"), 0);
            assert_eq!(counter.get("/other"), 0);
        }
        Err(error) => panic!("{}", error.message()),
    }
}

#[test]
fn setup_can_be_run_again() {
    assert!(setup_prometheus_metrics().is_ok());
    assert!(setup_prometheus_metrics().is_ok());
}

#[test]
fn increment_moves_the_label_it_is_given() {
    let mut counter = match EndpointCounter::new("requests", "Requests.", "test", "endpoint") {
        Ok(counter) => counter,
        Err(error) => panic!("{}", error.message()),
    };
    assert_eq!(counter.get("/qa"), 0);
    counter.increment("/qa");
    assert_eq!(counter.get("/qa"), 1);
    assert_eq!(counter.get("/other"), 0);
    counter.increment("/other");
    counter.increment("/qa");
    assert_eq!(counter.get("/qa"), 2);
    assert_eq!(counter.get("/other"), 1);
    assert_eq!(counter.get(""), 0);
}

#[test]
fn counter_is_refused_without_help_or_with_a_bad_name() {
    assert!(matches!(
        EndpointCounter::new("requests", "", "test", "endpoint"),
        Err(SetupError::CreateCounter)
    ));
    assert!(matches!(
        EndpointCounter::new("not a name", "Requests.", "test", "endpoint"),
        Err(SetupError::CreateCounter)
    ));
    assert!(matches!(
        EndpointCounter::new("requests", "Requests.", "test", "not a label"),
        Err(SetupError::CreateCounter)
    ));
}

#[test]
fn middleware_is_refused_with_a_bad_namespace() {
    assert!(matches!(metrics_middleware("not a namespace", "/metrics"), Err(SetupError::BuildMetrics)));
    assert!(metrics_middleware("api", "/metrics").is_ok());
}

#[test]
fn counter_is_registered_once() {
    let (mut metrics, counter) = match setup_prometheus_metrics() {
        Ok(made) => made,
        Err(error) => panic!("{}", error.message()),
    };
    assert_eq!(counter.register(&mut metrics), Err(SetupError::RegisterCounter));
    let other = match EndpointCounter::new("other_requests", "Other requests.", "test", "endpoint") {
        Ok(counter) => counter,
        Err(error) => panic!("{}", error.message()),
    };
    assert_eq!(other.register(&mut metrics), Ok(()));
    assert_eq!(other.register(&mut metrics), Err(SetupError::RegisterCounter));
    assert!(exposition(&metrics).contains("test_other_requests") == false);
    let mut other = other;
    other.increment("/else");
    assert!(exposition(&metrics).contains("test_other_requests{endpoint=\"/else\"} 1"));
}

#[test]
fn refused_registration_leaves_the_registry_as_it_was() {
    let (mut metrics, mut counter) = match setup_prometheus_metrics() {
        Ok(made) => made,
        Err(error) => panic!("{}", error.message()),
    };
    counter.increment("/qa");
    let before = exposition(&metrics);
    assert_eq!(counter.register(&mut metrics), Err(SetupError::RegisterCounter));
    assert_eq!(exposition(&metrics), before);
}

#[test]
fn counter_is_made_of_prometheus_names_only() {
    assert!(EndpointCounter::new("requests", "Requests.", "test", "endpoint").is_ok());
    assert!(EndpointCounter::new("requests", "Requests.", "", "endpoint").is_ok());
    assert!(EndpointCounter::new("requests:total_2", "Requests.", "t9:x", "endpoint_2").is_ok());
    assert!(EndpointCounter::new("_requests", "Requests.", "_", "_").is_ok());
    assert!(EndpointCounter::new("9requests", "Requests.", "test", "endpoint").is_ok());
    assert!(EndpointCounter::new("Requests", " ", ":", "E").is_ok());

    let refused = [
        ("", "Requests.", "test", "endpoint"),
        ("", "Requests.", "", "endpoint"),
        ("9requests", "Requests.", "", "endpoint"),
        ("requests", "Requests.", "9test", "endpoint"),
        ("requests", "Requests.", "te st", "endpoint"),
        ("re-quests", "Requests.", "test", "endpoint"),
        ("requests", "Requests.", "test", ""),
        ("requests", "Requests.", "test", "9endpoint"),
        ("requests", "Requests.", "test", "end:point"),
        ("requests", "Requests.", "test", "end point"),
        ("requ\u{e9}sts", "Requests.", "test", "endpoint"),
        ("requests", "", "test", "endpoint"),
    ];
    for (name, help, namespace, label_name) in refused {
        assert_eq!(
            EndpointCounter::new(name, help, namespace, label_name).err(),
            Some(SetupError::CreateCounter)
        );
    }
}

#[test]
fn middleware_is_built_without_a_namespace() {
    assert!(metrics_middleware("", "/metrics").is_ok());
    assert!(metrics_middleware("api:v2", "/internal/metrics").is_ok());
    assert!(matches!(metrics_middleware("9api", "/metrics"), Err(SetupError::BuildMetrics)));
    assert!(matches!(metrics_middleware("a-pi", "/metrics"), Err(SetupError::BuildMetrics)));
}

#[test]
fn served_metrics_hold_the_count() {
    let (metrics, mut counter) = match setup_prometheus_metrics() {
        Ok(made) => made,
        Err(error) => panic!("{}", error.message()),
    };
    assert!(!exposition(&metrics).contains("my_api_correct_http_requests{"));
    for _ in 0..3 {
        let candidate = AnswerCandidate::new(String::from("yes"));
        process_qa(&mut counter, Ok(vec![vec![candidate]]));
    }
    let text = exposition(&metrics);
    assert!(text.contains("my_api_correct_http_requests{endpoint=\"/qa\"} 3"));
    assert!(text.contains("Total HTTP requests that were processed correctly."));
}

#[test]
fn setup_error_messages() {
    assert_eq!(SetupError::BuildMetrics.message(), "Failed to build Prometheus metrics");
    assert_eq!(SetupError::CreateCounter.message(), "Failed to create counter");
    assert_eq!(SetupError::RegisterCounter.message(), "Failed to register counter");
}

#[test]
fn step_result_keeps_the_value_and_names_the_step() {
    let made: Result<u8, &str> = Ok(7);
    assert_eq!(step_result(made, SetupError::BuildMetrics), Ok(7));
    let failed: Result<u8, &str> = Err("refused");
    assert_eq!(step_result(failed, SetupError::CreateCounter), Err(SetupError::CreateCounter));
    let failed: Result<u8, u8> = Err(3);
    assert_eq!(step_result(failed, SetupError::RegisterCounter), Err(SetupError::RegisterCounter));
}

#[test]
fn names_of_the_metrics() {
    assert_eq!(QA_ENDPOINT, "/qa");
    assert_eq!(COUNTER_NAME, "correct_http_requests");
    assert_eq!(COUNTER_HELP, "Total HTTP requests that were processed correctly.");
    assert_eq!(COUNTER_NAMESPACE, "my_api");
    assert_eq!(COUNTER_LABEL, "endpoint");
    assert_eq!(METRICS_NAMESPACE, "api");
    assert_eq!(METRICS_ENDPOINT, "/metrics");
}

#[test]
fn counter_is_served_under_the_names_it_was_made_with() {
    let mut metrics = match metrics_middleware("api", "/metrics") {
        Ok(metrics) => metrics,
        Err(error) => panic!("{}", error.message()),
    };
    let mut named = match EndpointCounter::new("requests", "Requests by route.", "test", "route") {
        Ok(counter) => counter,
        Err(error) => panic!("{}", error.message()),
    };
    let mut bare = match EndpointCounter::new("visits", "Visits by page.", "", "page") {
        Ok(counter) => counter,
        Err(error) => panic!("{}", error.message()),
    };
    assert_eq!(named.register(&mut metrics), Ok(()));
    assert_eq!(bare.register(&mut metrics), Ok(()));
    named.increment("/x");
    bare.increment("/y");
    bare.increment("/y");
    let text = exposition(&metrics);
    assert!(text.contains("# HELP test_requests Requests by route."));
    assert!(text.contains("test_requests{route=\"/x\"} 1"));
    assert!(text.contains("# HELP visits Visits by page."));
    assert!(text.contains("\nvisits{page=\"/y\"} 2"));
}

#[test]
fn request_counter_is_served_under_its_fixed_names() {
    let (metrics, mut counter) = match setup_prometheus_metrics() {
        Ok(made) => made,
        Err(error) => panic!("{}", error.message()),
    };
    counter.increment(QA_ENDPOINT);
    let text = exposition(&metrics);
    assert!(text.contains(
        "# HELP my_api_correct_http_requests Total HTTP requests that were processed correctly."
    ));
    assert!(text.contains("# TYPE my_api_correct_http_requests counter"));
    assert!(text.contains("my_api_correct_http_requests{endpoint=\"/qa\"} 1"));
}

#[test]
fn counter_named_like_a_metric_of_the_middleware_is_refused() {
    let mut metrics = match metrics_middleware("api", "/metrics") {
        Ok(metrics) => metrics,
        Err(error) => panic!("{}", error.message()),
    };
    for name in ["http_requests_total", "http_requests_duration_seconds"] {
        let counter = match EndpointCounter::new(name, "Mine.", "api", "endpoint") {
            Ok(counter) => counter,
            Err(error) => panic!("{}", error.message()),
        };
        assert_eq!(counter.register(&mut metrics), Err(SetupError::RegisterCounter));
    }
    let other = match EndpointCounter::new("http_requests_total", "Mine.", "other", "endpoint") {
        Ok(counter) => counter,
        Err(error) => panic!("{}", error.message()),
    };
    assert_eq!(other.register(&mut metrics), Ok(()));
}

#[test]
fn counter_is_taken_once_by_each_middleware() {
    let mut first = match metrics_middleware("api", "/metrics") {
        Ok(metrics) => metrics,
        Err(error) => panic!("{}", error.message()),
    };
    let mut second = match metrics_middleware("api", "/metrics") {
        Ok(metrics) => metrics,
        Err(error) => panic!("{}", error.message()),
    };
    let counter = match EndpointCounter::new("requests", "Requests.", "test", "route") {
        Ok(counter) => counter,
        Err(error) => panic!("{}", error.message()),
    };
    assert_eq!(counter.register(&mut first), Ok(()));
    assert_eq!(counter.register(&mut second), Ok(()));
    assert_eq!(counter.register(&mut first), Err(SetupError::RegisterCounter));
    assert_eq!(counter.register(&mut second), Err(SetupError::RegisterCounter));
}

#[test]
fn counter_of_a_registered_name_and_another_shape_is_refused() {
    let mut metrics = match metrics_middleware("api", "/metrics") {
        Ok(metrics) => metrics,
        Err(error) => panic!("{}", error.message()),
    };
    let counter = match EndpointCounter::new("requests", "Requests.", "test", "route") {
        Ok(counter) => counter,
        Err(error) => panic!("{}", error.message()),
    };
    let same_name = match EndpointCounter::new("requests", "Other help.", "test", "page") {
        Ok(counter) => counter,
        Err(error) => panic!("{}", error.message()),
    };
    assert_eq!(counter.register(&mut metrics), Ok(()));
    assert_eq!(same_name.register(&mut metrics), Err(SetupError::RegisterCounter));
}
