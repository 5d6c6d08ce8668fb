use smartcaja_desktop::bootstrap::{BootAction, BootEvent, Bootstrap, Stage};
use smartcaja_desktop::status::{Status, StatusChange};

/// A scripted world: answers for the checks, and what each probe finds.
struct World {
    installed: bool,
    service_up: bool,
    pulls_ok: Vec<bool>,
    probes: Vec<bool>,
}

/// Runs the preparation against a scripted world; returns the trace of
/// actions and the final status.
fn run(extras: Vec<&str>, mut world: World, status: &mut Status) -> Vec<String> {
    let mut boot = Bootstrap::new(
        "SmartGastos".to_string(),
        extras.iter().map(|e| e.to_string()).collect(),
        7860,
    );
    let mut trace = Vec::new();
    let mut event = BootEvent::Ack;
    for _ in 0..200 {
        let action = boot.step(event);
        event = match action {
            BootAction::Show(change) => {
                trace.push(format!("show {}", describe(&change)));
                status.apply(&change);
                BootEvent::Ack
            }
            BootAction::Log(line) => {
                trace.push(format!("log {}", line));
                BootEvent::Ack
            }
            BootAction::CheckInstalled => {
                trace.push("check-installed".to_string());
                BootEvent::Answer(world.installed)
            }
            BootAction::CheckService { port } => {
                trace.push(format!("check-service {}", port));
                BootEvent::Answer(world.service_up)
            }
            BootAction::StartService => {
                trace.push("start-service".to_string());
                BootEvent::Ack
            }
            BootAction::WaitForService { port, attempts } => {
                trace.push(format!("wait-service {} {}", port, attempts));
                BootEvent::Ack
            }
            BootAction::ChooseModel => {
                trace.push("choose-model".to_string());
                BootEvent::Model("llama3.2:1b".to_string())
            }
            BootAction::Pull(m) => {
                trace.push(format!("pull {}", m));
                BootEvent::Answer(if world.pulls_ok.is_empty() { false } else { world.pulls_ok.remove(0) })
            }
            BootAction::QueryCanContinue => {
                trace.push("query".to_string());
                BootEvent::Answer(status.can_continue)
            }
            BootAction::ProbeBackend => {
                trace.push("probe".to_string());
                BootEvent::Answer(if world.probes.is_empty() { false } else { world.probes.remove(0) })
            }
            BootAction::WaitForBackend { attempts } => {
                trace.push(format!("wait-backend {}", attempts));
                BootEvent::Ack
            }
            BootAction::Finished => {
                trace.push("finished".to_string());
                break;
            }
        };
    }
    assert_eq!(boot.stage(), Stage::Done);
    trace
}

fn describe(c: &StatusChange) -> String {
    match c {
        StatusChange::OllamaCheck => "ollama-check".to_string(),
        StatusChange::OllamaMissing => "ollama-missing".to_string(),
        StatusChange::StartingService => "starting-service".to_string(),
        StatusChange::ModelDownload(m) => format!("model-download {}", m),
        StatusChange::ModelReady(m) => format!("model-ready {}", m),
        StatusChange::ComponentDownload(m) => format!("component-download {}", m),
        StatusChange::ComponentReady(m) => format!("component-ready {}", m),
        StatusChange::PullProgress { message, percent } => format!("progress {} {}", message, percent),
        StatusChange::BackendReady(p) => format!("backend-ready {}", p),
        StatusChange::OllamaFinished(p) => format!("finished {}", p),
        StatusChange::BackendSpawnFailed(d) => format!("spawn-failed {}", d),
        StatusChange::BackendMissing(d) => format!("missing {}", d),
    }
}

#[test]
fn engine_not_installed() {
    let mut status = Status::initial();
    let trace = run(
        vec!["nomic-embed-text"],
        World { installed: false, service_up: false, pulls_ok: vec![], probes: vec![true] },
        &mut status,
    );
    assert_eq!(
        trace,
        vec![
            "show ollama-check",
            "log == SmartGastos: preparando Ollama ==",
            "check-installed",
            "log Ollama no instalado.",
            "show ollama-missing",
            "query",
            "probe",
            "show backend-ready 7860",
            "query",
            "show finished 7860",
            "finished",
        ]
    );
    assert!(status.ollama_done);
    assert!(status.can_continue);
    assert_eq!(status.phase.name(), "ready");
}

#[test]
fn full_preparation_with_service_start() {
    let mut status = Status::initial();
    let trace = run(
        vec!["a", "b"],
        World { installed: true, service_up: false, pulls_ok: vec![true, false, true], probes: vec![] },
        &mut status,
    );
    assert_eq!(
        trace,
        vec![
            "show ollama-check",
            "log == SmartGastos: preparando Ollama ==",
            "check-installed",
            "check-service 11434",
            "show starting-service",
            "start-service",
            "wait-service 11434 30",
            "choose-model",
            "show model-download llama3.2:1b",
            "pull llama3.2:1b",
            "show model-ready llama3.2:1b",
            "show component-download a",
            "pull a",
            "show component-download b",
            "pull b",
            "show component-ready b",
            "query",
            "probe",
            "query",
            "wait-backend 120",
            "probe",
            "show finished 7860",
            "finished",
        ]
    );
    assert!(status.ollama_done);
    assert!(!status.can_continue);
    assert_eq!(status.phase.name(), "warning");
    assert!(status.backend_error.is_some());
}

#[test]
fn service_running_and_backend_ready_early() {
    let mut status = Status::initial();
    status.apply(&StatusChange::BackendReady(7860));
    let trace = run(
        vec![],
        World { installed: true, service_up: true, pulls_ok: vec![false], probes: vec![] },
        &mut status,
    );
    assert_eq!(
        trace,
        vec![
            "show ollama-check",
            "log == SmartGastos: preparando Ollama ==",
            "check-installed",
            "check-service 11434",
            "choose-model",
            "show model-download llama3.2:1b",
            "pull llama3.2:1b",
            "query",
            "show finished 7860",
            "finished",
        ]
    );
    assert_eq!(status.phase.name(), "ready");
    assert_eq!(status.backend_url, Some("http://127.0.0.1:7860/".to_string()));
}

#[test]
fn backend_ready_after_long_wait() {
    let mut status = Status::initial();
    let trace = run(
        vec![],
        World { installed: false, service_up: false, pulls_ok: vec![], probes: vec![false, true] },
        &mut status,
    );
    assert_eq!(
        &trace[5..],
        &[
            "query",
            "probe",
            "query",
            "wait-backend 120",
            "probe",
            "show backend-ready 7860",
            "show finished 7860",
            "finished",
        ]
    );
    assert!(status.can_continue);
    assert_eq!(status.message, "Ollama no esta instalado. La app abrira sin IA hasta que lo instale.");
}
