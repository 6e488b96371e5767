use aw_screenshot::error::PipelineError;

#[test]
fn enumeration_failures_read_as_failed_captures() {
    let error = PipelineError::Enumeration { detail: "no display server".to_string() };
    assert_eq!(error.message(), "Failed to get screenshots: no display server");
}

#[test]
fn capture_failures_name_the_display() {
    let error = PipelineError::Capture { display: 2, detail: "permission denied".to_string() };
    assert_eq!(error.message(), "Failed to get screenshots: display 2: permission denied");
}

#[test]
fn encoding_failures_name_the_display() {
    let error = PipelineError::Encoding { display: 0, detail: "bad buffer".to_string() };
    assert_eq!(
        error.message(),
        "Failed to convert screenshots to events: display 0: bad buffer"
    );
}

#[test]
fn storage_failures_name_the_display() {
    let error = PipelineError::Storage { display: 11, detail: "disk full".to_string() };
    assert_eq!(error.message(), "Failed to save screenshots: display 11: disk full");
}

#[test]
fn transport_failures_keep_their_detail() {
    let error = PipelineError::Transport { detail: "connection refused".to_string() };
    assert_eq!(error.message(), "Failed to send events to server: connection refused");
}

#[test]
fn remote_failures_keep_their_status() {
    let error = PipelineError::Remote { status: 503 };
    assert_eq!(error.message(), "Failed to send events to server: status 503");
}
