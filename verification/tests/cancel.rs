use bridge_shell::cancel::complete_cancellation;
use bridge_shell::failure::FailureKind;
use bridge_shell::registry::JobRegistry;
use bridge_shell::reply::{Reply, StatusPayload};
use bridge_shell::status::HttpStatus;
use bridge_shell::submit::complete_submission;

fn session_with(handles: &[&str]) -> JobRegistry {
    let mut registry = JobRegistry::new();
    for handle in handles {
        let payload = StatusPayload {
            job_id: handle.to_string(),
            status: "processing".to_string(),
            progress_bits: 0.5f32.to_bits(),
            message: Some("working".to_string()),
            result_url: None,
        };
        complete_submission(&mut registry, Reply::Decoded(payload)).unwrap();
    }
    registry
}

fn replied(code: u16) -> Result<HttpStatus, String> {
    Ok(HttpStatus::new(code).unwrap())
}

#[test]
fn cancel_removes_the_job_on_success() {
    let mut registry = session_with(&["a", "b", "c"]);
    let done = complete_cancellation(&mut registry, &"b".to_string(), replied(200));
    assert_eq!(done, Ok(true));
    assert_eq!(registry.handles(), &vec!["a".to_string(), "c".to_string()]);
}

#[test]
fn cancel_removes_one_entry_per_call() {
    let mut registry = session_with(&["a", "b", "a"]);
    let done = complete_cancellation(&mut registry, &"a".to_string(), replied(204));
    assert_eq!(done, Ok(true));
    assert_eq!(registry.handles(), &vec!["b".to_string(), "a".to_string()]);
    let done = complete_cancellation(&mut registry, &"a".to_string(), replied(204));
    assert_eq!(done, Ok(true));
    assert_eq!(registry.handles(), &vec!["b".to_string()]);
}

#[test]
fn cancel_of_a_job_not_held_is_still_true() {
    let mut registry = session_with(&["a"]);
    let done = complete_cancellation(&mut registry, &"elsewhere".to_string(), replied(200));
    assert_eq!(done, Ok(true));
    assert_eq!(registry.handles(), &vec!["a".to_string()]);
}

#[test]
fn cancel_on_an_empty_registry_is_still_true() {
    let mut registry = JobRegistry::new();
    let done = complete_cancellation(&mut registry, &"a".to_string(), replied(202));
    assert_eq!(done, Ok(true));
    assert_eq!(registry.len(), 0);
}

#[test]
fn refused_cancel_leaves_the_registry() {
    for code in [100, 301, 404, 409, 500] {
        let mut registry = session_with(&["a", "b"]);
        let failure =
            complete_cancellation(&mut registry, &"a".to_string(), replied(code)).unwrap_err();
        assert_eq!(failure.kind(), FailureKind::Remote, "{}", code);
        assert_eq!(failure.status(), Some(HttpStatus::new(code).unwrap()));
        assert!(failure.message().starts_with("Failed to cancel job: "));
        assert!(failure.message().contains(&code.to_string()));
        assert_eq!(registry.handles(), &vec!["a".to_string(), "b".to_string()]);
    }
}

#[test]
fn refused_cancel_reads_status_and_reason() {
    let mut registry = session_with(&["a"]);
    let failure = complete_cancellation(&mut registry, &"a".to_string(), replied(404)).unwrap_err();
    assert_eq!(failure.message(), "Failed to cancel job: 404 Not Found");
}

#[test]
fn unsent_cancel_leaves_the_registry() {
    let mut registry = session_with(&["a"]);
    let head = Err("connection refused".to_string());
    let failure = complete_cancellation(&mut registry, &"a".to_string(), head).unwrap_err();
    assert_eq!(failure.kind(), FailureKind::Transport);
    assert_eq!(failure.message(), "Failed to send request: connection refused");
    assert_eq!(registry.handles(), &vec!["a".to_string()]);
}
