use smartcaja_desktop::status::{Phase, Status, StatusChange};

#[test]
fn initial_status() {
    let s = Status::initial();
    assert_eq!(s.phase, Phase::Starting);
    assert_eq!(s.phase.name(), "starting");
    assert_eq!(s.message, "Iniciando servicios...");
    assert_eq!(s.percent, -1);
    assert_eq!(s.backend_url, None);
    assert!(!s.can_continue);
    assert!(!s.ollama_done);
    assert_eq!(s.backend_error, None);
    assert!(s.backend_pending());
}

#[test]
fn engine_messages() {
    let mut s = Status::initial();
    s.apply(&StatusChange::OllamaCheck);
    assert_eq!(s.phase.name(), "ollama");
    assert_eq!(s.message, "Verificando el motor de IA (Ollama)...");
    s.apply(&StatusChange::StartingService);
    assert_eq!(s.phase, Phase::Ollama);
    assert_eq!(s.message, "Iniciando el servicio de IA...");
    s.apply(&StatusChange::ModelDownload("llama3.2:1b".to_string()));
    assert_eq!(s.phase.name(), "downloading");
    assert_eq!(s.message, "Descargando el modelo llama3.2:1b (solo la primera vez)...");
    assert_eq!(s.percent, -1);
    s.apply(&StatusChange::PullProgress { message: "Descargando el modelo llama3.2:1b - 42%".to_string(), percent: 42 });
    assert_eq!(s.percent, 42);
    s.apply(&StatusChange::ModelReady("llama3.2:1b".to_string()));
    assert_eq!(s.message, "Modelo llama3.2:1b listo.");
    assert_eq!(s.percent, 100);
    s.apply(&StatusChange::ComponentDownload("nomic-embed-text".to_string()));
    assert_eq!(s.message, "Descargando componente de IA nomic-embed-text...");
    s.apply(&StatusChange::ComponentReady("nomic-embed-text".to_string()));
    assert_eq!(s.message, "Componente nomic-embed-text listo.");
}

#[test]
fn engine_missing() {
    let mut s = Status::initial();
    s.apply(&StatusChange::OllamaMissing);
    assert_eq!(s.phase, Phase::Warning);
    assert_eq!(s.message, "Ollama no esta instalado. La app abrira sin IA hasta que lo instale.");
    assert_eq!(s.percent, -1);
}

#[test]
fn backend_ready_replaces_download_message() {
    let mut s = Status::initial();
    s.apply(&StatusChange::ComponentReady("x".to_string()));
    s.apply(&StatusChange::BackendReady(7861));
    assert_eq!(s.phase, Phase::Ready);
    assert_eq!(s.phase.name(), "ready");
    assert!(s.can_continue);
    assert_eq!(s.backend_url, Some("http://127.0.0.1:7861/".to_string()));
    assert_eq!(s.backend_error, None);
    assert_eq!(s.message, "Servicios listos.");
}

#[test]
fn backend_ready_keeps_other_message() {
    let mut s = Status::initial();
    s.apply(&StatusChange::OllamaCheck);
    s.apply(&StatusChange::BackendReady(7860));
    assert_eq!(s.message, "Verificando el motor de IA (Ollama)...");
    assert!(!s.backend_pending());
}

#[test]
fn finish_when_backend_ready() {
    let mut s = Status::initial();
    s.can_continue = true;
    s.apply(&StatusChange::OllamaFinished(7862));
    assert!(s.ollama_done);
    assert_eq!(s.phase, Phase::Ready);
    assert_eq!(s.backend_url, Some("http://127.0.0.1:7862/".to_string()));
    let mut t = Status::initial();
    t.apply(&StatusChange::BackendReady(7860));
    t.apply(&StatusChange::OllamaFinished(7862));
    assert_eq!(t.backend_url, Some("http://127.0.0.1:7860/".to_string()));
}

#[test]
fn finish_when_backend_silent() {
    let mut s = Status::initial();
    s.apply(&StatusChange::OllamaFinished(7860));
    assert!(s.ollama_done);
    assert_eq!(s.phase.name(), "warning");
    assert_eq!(s.backend_url, None);
    assert_eq!(
        s.backend_error,
        Some("El servidor no respondio (revise SmartGastos/logs en AppData). Pulse Entrar para reintentar o cierre la app por completo y vuelva a abrirla.".to_string())
    );
}

#[test]
fn backend_start_failures() {
    let mut s = Status::initial();
    s.apply(&StatusChange::BackendSpawnFailed("permission denied".to_string()));
    assert_eq!(s.phase, Phase::Warning);
    assert_eq!(s.message, "No se pudo iniciar el servidor: permission denied");
    assert_eq!(s.backend_error, Some(s.message.clone()));
    let mut t = Status::initial();
    t.apply(&StatusChange::BackendMissing("no such file".to_string()));
    assert_eq!(t.message, "Backend no encontrado en el instalador: no such file");
    assert_eq!(t.backend_error, Some(t.message.clone()));
}

#[test]
fn readiness_is_never_taken_back() {
    let mut s = Status::initial();
    s.apply(&StatusChange::BackendReady(7860));
    let changes = vec![
        StatusChange::OllamaCheck,
        StatusChange::OllamaMissing,
        StatusChange::BackendSpawnFailed("e".to_string()),
        StatusChange::OllamaFinished(7860),
        StatusChange::ModelDownload("m".to_string()),
    ];
    for c in &changes {
        s.apply(c);
        assert!(s.can_continue);
        assert!(s.backend_url.is_some());
    }
    assert!(s.ollama_done);
}

#[test]
fn try_mark_backend_ready() {
    let mut s = Status::initial();
    assert!(!s.try_mark_backend_ready(7860, false));
    assert!(!s.can_continue);
    assert!(s.try_mark_backend_ready(7860, true));
    assert!(s.can_continue);
    let snap = s.snapshot();
    assert_eq!(snap.backend_url, s.backend_url);
    assert_eq!(snap.message, s.message);
}
