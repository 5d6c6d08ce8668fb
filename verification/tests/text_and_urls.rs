use smartcaja_desktop::probe::{
    backend_app_url, backend_health_url, http_answer_ok, probe_backend_ready, retry_backend_reply,
    ProbeAction,
};
use smartcaja_desktop::text::{blank, decimal_string, same_text, starts_with, white_space};

#[test]
fn decimal_rendering() {
    assert_eq!(decimal_string(0), "0");
    assert_eq!(decimal_string(7), "7");
    assert_eq!(decimal_string(10), "10");
    assert_eq!(decimal_string(7860), "7860");
    assert_eq!(decimal_string(u64::MAX), "18446744073709551615");
}

#[test]
fn prefixes_and_equality() {
    assert!(starts_with("Descargando el modelo", "Descargando"));
    assert!(starts_with("abc", ""));
    assert!(!starts_with("Desc", "Descargando"));
    assert!(!starts_with("Componente", "Descargando"));
    assert!(same_text("success", "success"));
    assert!(!same_text("success", "succes"));
    assert!(!same_text("pulling manifest", "success"));
}

#[test]
fn blank_lines() {
    assert!(blank(""));
    assert!(blank("  \t\r\n"));
    assert!(blank("\u{a0}\u{3000}"));
    assert!(!blank(" x "));
    assert!(white_space('\u{2028}'));
    assert!(!white_space('a'));
}

#[test]
fn backend_addresses() {
    assert_eq!(backend_app_url(7860), "http://127.0.0.1:7860/");
    assert_eq!(backend_app_url(0), "http://127.0.0.1:0/");
    assert_eq!(backend_health_url(7861), "http://127.0.0.1:7861/api/health");
}

#[test]
fn accepted_statuses() {
    assert!(http_answer_ok(Some(200)));
    assert!(http_answer_ok(Some(304)));
    assert!(http_answer_ok(Some(307)));
    assert!(http_answer_ok(Some(308)));
    assert!(!http_answer_ok(Some(201)));
    assert!(!http_answer_ok(Some(404)));
    assert!(!http_answer_ok(None));
}

fn fetch_url(a: ProbeAction) -> String {
    match a {
        ProbeAction::Fetch(u) => u,
        ProbeAction::Decide(b) => panic!("expected a fetch, got a decision {}", b),
    }
}

fn decision(a: ProbeAction) -> bool {
    match a {
        ProbeAction::Decide(b) => b,
        ProbeAction::Fetch(u) => panic!("expected a decision, got a fetch of {}", u),
    }
}

#[test]
fn probe_asks_health_first() {
    let url = fetch_url(probe_backend_ready(7860, &vec![]));
    assert_eq!(url, "http://127.0.0.1:7860/api/health");
}

#[test]
fn probe_ready_on_healthy_answer() {
    assert!(decision(probe_backend_ready(7860, &vec![Some(200)])));
}

#[test]
fn probe_falls_back_to_root() {
    let url = fetch_url(probe_backend_ready(7862, &vec![Some(404)]));
    assert_eq!(url, "http://127.0.0.1:7862/");
    assert!(decision(probe_backend_ready(7862, &vec![Some(404), Some(307)])));
    assert!(!decision(probe_backend_ready(7862, &vec![None, None])));
    assert!(!decision(probe_backend_ready(7862, &vec![Some(500), Some(502)])));
}

#[test]
fn retry_reply() {
    assert_eq!(retry_backend_reply(7860, true), Ok("http://127.0.0.1:7860/".to_string()));
    assert_eq!(
        retry_backend_reply(7860, false),
        Err("El servidor aun no responde. Espere unos segundos o cierre la app por completo y vuelva a abrirla.".to_string())
    );
}
