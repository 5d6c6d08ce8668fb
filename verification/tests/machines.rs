use smartcaja_desktop::model::{model_for_ram, model_for_this_machine, Tier};
use smartcaja_desktop::paths::{
    chosen_port_line, data_dir_parts, home_dir_from, log_dir_parts, sidecar_missing_line,
    spawn_error_line, LogFile, Platform,
};
use smartcaja_desktop::poll::{Poll, PollAction};
use smartcaja_desktop::port::{PortAction, PortSearch};

const GIB: u64 = 1024 * 1024 * 1024;

fn readme_tiers() -> Vec<Tier> {
    vec![
        Tier { max_ram_bytes: 6 * GIB, model: "llama3.2:1b".to_string() },
        Tier { max_ram_bytes: 12 * GIB, model: "llama3.2:3b".to_string() },
        Tier { max_ram_bytes: 0, model: "llama3.1:8b".to_string() },
    ]
}

#[test]
fn model_by_memory() {
    let tiers = readme_tiers();
    assert_eq!(model_for_ram(4 * GIB, &tiers), "llama3.2:1b");
    assert_eq!(model_for_ram(6 * GIB - 1, &tiers), "llama3.2:1b");
    assert_eq!(model_for_ram(6 * GIB, &tiers), "llama3.2:3b");
    assert_eq!(model_for_ram(8 * GIB, &tiers), "llama3.2:3b");
    assert_eq!(model_for_ram(12 * GIB, &tiers), "llama3.1:8b");
    assert_eq!(model_for_ram(64 * GIB, &tiers), "llama3.1:8b");
}

#[test]
fn model_fallbacks() {
    assert_eq!(model_for_ram(GIB, &vec![]), "llama3.2:3b");
    let bounded = vec![Tier { max_ram_bytes: 2 * GIB, model: "tiny".to_string() }, Tier { max_ram_bytes: 4 * GIB, model: "small".to_string() }];
    assert_eq!(model_for_ram(8 * GIB, &bounded), "small");
}

#[test]
fn model_for_this_machine_is_a_configured_one() {
    let m = model_for_this_machine(&readme_tiers());
    assert!(m == "llama3.2:1b" || m == "llama3.2:3b" || m == "llama3.1:8b");
}

#[test]
fn port_search_first_free() {
    let mut s = PortSearch::new();
    assert_eq!(s.next_action(), PortAction::TryPort(7860));
    assert_eq!(s.on_bind(false), PortAction::TryPort(7861));
    assert_eq!(s.on_bind(false), PortAction::TryPort(7862));
    assert_eq!(s.on_bind(true), PortAction::Use(7862));
}

#[test]
fn port_search_falls_back() {
    let mut s = PortSearch::new();
    s.next_action();
    s.on_bind(false);
    s.on_bind(false);
    s.on_bind(false);
    assert_eq!(s.on_bind(false), PortAction::TryAnyPort);
    assert_eq!(s.on_any_port(Some(41234)), 41234);
    assert_eq!(s.on_any_port(None), 7860);
}

#[test]
fn poll_stops_on_answer() {
    let mut p = Poll::new(3);
    assert_eq!(p.next_action(), PollAction::Probe);
    assert_eq!(p.on_probe(false), PollAction::Pause);
    assert_eq!(p.next_action(), PollAction::Probe);
    assert_eq!(p.on_probe(true), PollAction::Finish(true));
}

#[test]
fn poll_gives_up() {
    let mut p = Poll::new(2);
    let mut probes = 0;
    let result = loop {
        match p.next_action() {
            PollAction::Probe => {
                probes += 1;
                assert_eq!(p.on_probe(false), PollAction::Pause);
            }
            PollAction::Finish(b) => break b,
            PollAction::Pause => unreachable!(),
        }
    };
    assert!(!result);
    assert_eq!(probes, 2);
    assert_eq!(Poll::new(0).next_action(), PollAction::Finish(false));
}

#[test]
fn data_directories() {
    assert_eq!(home_dir_from(None), ".");
    assert_eq!(home_dir_from(Some("/home/ana".to_string())), "/home/ana");
    assert_eq!(
        data_dir_parts(Platform::Unix, None, "/home/ana", "SmartGastos"),
        vec!["/home/ana", ".local", "share", "SmartGastos"]
    );
    assert_eq!(
        data_dir_parts(Platform::Unix, Some("/data".to_string()), "/home/ana", "SmartGastos"),
        vec!["/data", "SmartGastos"]
    );
    assert_eq!(
        data_dir_parts(Platform::MacOs, Some("/ignored".to_string()), "/Users/ana", "SmartGastos"),
        vec!["/Users/ana", "Library", "Application Support", "SmartGastos"]
    );
    assert_eq!(
        data_dir_parts(Platform::Windows, None, "C:\\Users\\ana", "SmartGastos"),
        vec!["C:\\Users\\ana", "AppData", "Roaming", "SmartGastos"]
    );
    assert_eq!(
        log_dir_parts(Platform::Windows, Some("C:\\Roaming".to_string()), "C:\\Users\\ana", "SmartGastos"),
        vec!["C:\\Roaming", "SmartGastos", "logs"]
    );
    assert_eq!(LogFile::Ollama.file_name(), "ollama.log");
    assert_eq!(LogFile::Backend.file_name(), "backend.log");
}

#[test]
fn log_lines() {
    assert_eq!(chosen_port_line(7861), "Puerto backend elegido: 7861");
    assert_eq!(spawn_error_line("boom"), "spawn error: boom");
    assert_eq!(sidecar_missing_line("gone"), "sidecar missing: gone");
}
