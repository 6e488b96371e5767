use aw_screenshot::clock::Timestamp;
use aw_screenshot::config::Config;
use aw_screenshot::delivery::{
    delivery_result, events_url, plan_delivery, screenshot_bucket, TransportOutcome,
};
use aw_screenshot::error::PipelineError;
use aw_screenshot::event::{build, TelemetryEvent};
use aw_screenshot::frame::EncodedFrame;

fn event(display: usize) -> TelemetryEvent {
    let at = Timestamp { secs: 1_700_000_000, nanos: 0 };
    build(EncodedFrame { blob: vec![1, 2, 3], display, captured_at: at }, display)
}

#[test]
fn the_bucket_is_fixed() {
    assert_eq!(screenshot_bucket(), "aw-watcher-screenshot_Razerator");
}

#[test]
fn events_url_names_host_port_and_bucket() {
    assert_eq!(
        events_url("localhost", 5666, "aw-watcher-screenshot_Razerator"),
        "http://localhost:5666/api/0/buckets/aw-watcher-screenshot_Razerator/events"
    );
    assert_eq!(events_url("10.0.0.7", 80, "b"), "http://10.0.0.7:80/api/0/buckets/b/events");
    assert_eq!(events_url("h", 0, ""), "http://h:0/api/0/buckets//events");
    assert_eq!(events_url("h", 65535, "x"), "http://h:65535/api/0/buckets/x/events");
}

#[test]
fn default_config_is_the_local_service_every_five_seconds() {
    let config = Config::default();
    assert_eq!(
        config,
        Config {
            verbose: false,
            server: "localhost".to_string(),
            port: 5666,
            auth_token: None,
            device_id: None,
            time_interval: 5,
        }
    );
}

#[test]
fn a_batch_is_planned_as_one_request() {
    let config = Config { auth_token: Some("SECRET-REDACTED".to_string()), ..Config::default() };
    let events = vec![event(0), event(1)];
    let request = plan_delivery(&config, events.clone()).unwrap();
    assert_eq!(
        request.url,
        "http://localhost:5666/api/0/buckets/aw-watcher-screenshot_Razerator/events"
    );
    assert_eq!(request.auth_token, Some("SECRET-REDACTED".to_string()));
    assert_eq!(request.events, events);
}

#[test]
fn a_batch_goes_to_the_configured_service() {
    let config = Config { server: "collector.example".to_string(), port: 8080, ..Config::default() };
    let request = plan_delivery(&config, vec![event(0)]).unwrap();
    assert_eq!(
        request.url,
        "http://collector.example:8080/api/0/buckets/aw-watcher-screenshot_Razerator/events"
    );
    assert_eq!(request.auth_token, None);
}

#[test]
fn an_empty_batch_is_not_delivered() {
    assert_eq!(plan_delivery(&Config::default(), vec![]), None);
}

#[test]
fn success_statuses_deliver_the_batch() {
    for status in [200u16, 201, 204, 299] {
        assert_eq!(delivery_result(TransportOutcome::Responded { status }), Ok(()));
    }
}

#[test]
fn other_statuses_are_remote_failures_that_keep_the_status() {
    for status in [0u16, 100, 199, 300, 301, 404, 500, 503, 999, u16::MAX] {
        assert_eq!(
            delivery_result(TransportOutcome::Responded { status }),
            Err(PipelineError::Remote { status })
        );
    }
}

#[test]
fn no_answer_is_a_transport_failure() {
    assert_eq!(
        delivery_result(TransportOutcome::Failed { detail: "connection refused".to_string() }),
        Err(PipelineError::Transport { detail: "connection refused".to_string() })
    );
}
