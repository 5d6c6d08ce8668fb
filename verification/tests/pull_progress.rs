use smartcaja_desktop::pull::{
    engine_pull_url, interpret_pull_line, pull_percent, pull_record_outcome, pull_request_body,
    PullLine, PullLineOutcome, PullStep, PullTracker,
};

#[test]
fn request_body() {
    assert_eq!(pull_request_body("llama3.2:1b"), "{\"name\":\"llama3.2:1b\"}");
    assert_eq!(engine_pull_url(), "http://127.0.0.1:11434/api/pull");
}

#[test]
fn percentages() {
    assert_eq!(pull_percent(Some(200), Some(50)), 25);
    assert_eq!(pull_percent(Some(3), Some(1)), 33);
    assert_eq!(pull_percent(Some(100), Some(250)), 100);
    assert_eq!(pull_percent(Some(0), Some(0)), -1);
    assert_eq!(pull_percent(None, Some(5)), -1);
    assert_eq!(pull_percent(Some(5), None), -1);
    assert_eq!(pull_percent(Some(u64::MAX), Some(u64::MAX - 1)), 99);
}

fn report(o: PullLineOutcome) -> (String, i32, bool) {
    match o {
        PullLineOutcome::Report { message, percent, success } => (message, percent, success),
        PullLineOutcome::Skip => panic!("skip"),
        PullLineOutcome::Abort => panic!("abort"),
    }
}

#[test]
fn progress_lines() {
    let (m, p, s) = report(interpret_pull_line(
        "llama3.2:1b",
        "{\"status\":\"downloading\",\"total\":1000,\"completed\":250}",
    ));
    assert_eq!(m, "Descargando el modelo llama3.2:1b - 25%");
    assert_eq!(p, 25);
    assert!(!s);
    let (m, p, s) = report(interpret_pull_line("llama3.2:1b", "{\"status\":\"pulling manifest\"}"));
    assert_eq!(m, "Preparando el modelo llama3.2:1b (pulling manifest)...");
    assert_eq!(p, -1);
    assert!(!s);
    let (m, _, s) = report(interpret_pull_line("m", "{\"status\":\"success\"}"));
    assert_eq!(m, "Preparando el modelo m (success)...");
    assert!(s);
    let (m, _, s) = report(interpret_pull_line("m", "{}"));
    assert_eq!(m, "Preparando el modelo m ()...");
    assert!(!s);
}

#[test]
fn skipped_and_failing_lines() {
    assert!(matches!(interpret_pull_line("m", "   "), PullLineOutcome::Skip));
    assert!(matches!(interpret_pull_line("m", "not json"), PullLineOutcome::Skip));
    assert!(matches!(interpret_pull_line("m", "{\"error\":\"pull model manifest: file does not exist\"}"), PullLineOutcome::Abort));
    assert!(matches!(interpret_pull_line("m", "{\"error\":null}"), PullLineOutcome::Abort));
}

#[test]
fn record_outcomes() {
    let rec = Some(PullLine { error: false, status: Some("success".to_string()), total: None, completed: None });
    let (_, p, s) = report(pull_record_outcome("m", &rec));
    assert_eq!(p, -1);
    assert!(s);
    assert!(matches!(pull_record_outcome("m", &None), PullLineOutcome::Skip));
    let err = Some(PullLine { error: true, status: Some("success".to_string()), total: None, completed: None });
    assert!(matches!(pull_record_outcome("m", &err), PullLineOutcome::Abort));
}

#[test]
fn tracker_success() {
    let mut t = PullTracker::new();
    assert!(matches!(t.on_line("m", Some("{\"status\":\"pulling manifest\"}")), PullStep::Report { .. }));
    assert!(matches!(t.on_line("m", Some("")), PullStep::Skip));
    assert!(!t.succeeded());
    match t.on_line("m", Some("{\"status\":\"success\"}")) {
        PullStep::Report { message, percent } => {
            assert_eq!(message, "Preparando el modelo m (success)...");
            assert_eq!(percent, -1);
        }
        _ => panic!("expected a report"),
    }
    assert!(t.succeeded());
    assert!(matches!(t.on_line("m", None), PullStep::Stop));
    assert!(t.stopped());
    assert!(t.succeeded());
    assert!(matches!(t.on_line("m", Some("{\"status\":\"x\"}")), PullStep::Stop));
}

#[test]
fn tracker_error_after_success_fails() {
    let mut t = PullTracker::new();
    t.on_line("m", Some("{\"status\":\"success\"}"));
    assert!(t.succeeded());
    assert!(matches!(t.on_line("m", Some("{\"error\":\"boom\"}")), PullStep::Stop));
    assert!(!t.succeeded());
    assert!(t.stopped());
}

#[test]
fn tracker_without_success_fails() {
    let mut t = PullTracker::new();
    t.on_line("m", Some("{\"status\":\"downloading\",\"total\":10,\"completed\":10}"));
    t.on_line("m", None);
    assert!(!t.succeeded());
}
