//! Where the application keeps its per-user data and its logs, as a list of
//! path components: the first is the base directory, each next one is a
//! name inside the previous.

use vstd::prelude::*;
use crate::text::{decimal, push_decimal};

verus! {

/// The family of operating system, which decides the data location.
#[derive(PartialEq, Eq, Structural, Clone, Copy, Debug)]
pub enum Platform {
    Windows,
    MacOs,
    /// Any other Unix.
    Unix,
}

/// The characters of each component.
pub open spec fn parts_view(parts: Seq<String>) -> Seq<Seq<char>> {
    parts.map_values(|s: String| s@)
}

/// The home directory: the value of the home variable (`USERPROFILE` on
/// Windows, `HOME` elsewhere), or the current directory when it is unset.
pub open spec fn home_of(home_var: Option<Seq<char>>) -> Seq<char> {
    match home_var {
        Some(h) => h,
        None => "."@,
    }
}

/// Picks the home directory from the value of the home variable.
pub fn home_dir_from(home_var: Option<String>) -> (home: String)
    ensures
        home@ == home_of(
            match home_var {
                Some(h) => Some(h@),
                None => None,
            },
        ),
{
    match home_var {
        Some(h) => h,
        None => String::from_str("."),
    }
}

/// The per-user data directory of application `app`. `base_var` is the
/// value of the platform's data variable (`APPDATA` on Windows,
/// `XDG_DATA_HOME` on other Unix systems; none on macOS).
pub open spec fn data_dir(
    platform: Platform,
    base_var: Option<Seq<char>>,
    home: Seq<char>,
    app: Seq<char>,
) -> Seq<Seq<char>> {
    match platform {
        Platform::Windows => match base_var {
            Some(b) => seq![b, app],
            None => seq![home, "AppData"@, "Roaming"@, app],
        },
        Platform::MacOs => seq![home, "Library"@, "Application Support"@, app],
        Platform::Unix => match base_var {
            Some(b) => seq![b, app],
            None => seq![home, ".local"@, "share"@, app],
        },
    }
}

/// The components of the per-user data directory of application `app`.
pub fn data_dir_parts(platform: Platform, base_var: Option<String>, home: &str, app: &str) -> (parts: Vec<String>)
    ensures
        parts_view(parts@) == data_dir(
            platform,
            match base_var {
                Some(b) => Some(b@),
                None => None,
            },
            home@,
            app@,
        ),
{
    let mut parts: Vec<String> = Vec::new();
    match platform {
        Platform::Windows => match base_var {
            Some(b) => {
                parts.push(b);
            },
            None => {
                parts.push(String::from_str(home));
                parts.push(String::from_str("AppData"));
                parts.push(String::from_str("Roaming"));
            },
        },
        Platform::MacOs => {
            parts.push(String::from_str(home));
            parts.push(String::from_str("Library"));
            parts.push(String::from_str("Application Support"));
        },
        Platform::Unix => match base_var {
            Some(b) => {
                parts.push(b);
            },
            None => {
                parts.push(String::from_str(home));
                parts.push(String::from_str(".local"));
                parts.push(String::from_str("share"));
            },
        },
    }
    parts.push(String::from_str(app));
    assert(parts_view(parts@) =~= data_dir(
        platform,
        match base_var {
            Some(b) => Some(b@),
            None => None,
        },
        home@,
        app@,
    ));
    parts
}

/// The components of the log directory: `logs` inside the data directory.
pub fn log_dir_parts(platform: Platform, base_var: Option<String>, home: &str, app: &str) -> (parts: Vec<String>)
    ensures
        parts_view(parts@) == data_dir(
            platform,
            match base_var {
                Some(b) => Some(b@),
                None => None,
            },
            home@,
            app@,
        ).push("logs"@),
{
    let mut parts = data_dir_parts(platform, base_var, home, app);
    let ghost before = parts@;
    parts.push(String::from_str("logs"));
    assert(parts_view(parts@) =~= parts_view(before).push("logs"@));
    parts
}

/// The log files.
#[derive(PartialEq, Eq, Structural, Clone, Copy, Debug)]
pub enum LogFile {
    /// What the AI engine's preparation reports.
    Ollama,
    /// What the backend prints, and how it was started.
    Backend,
}

/// The file name of a log.
pub open spec fn log_file_name(f: LogFile) -> Seq<char> {
    match f {
        LogFile::Ollama => "ollama.log"@,
        LogFile::Backend => "backend.log"@,
    }
}

impl LogFile {
    /// The file name of the log, inside the log directory.
    pub fn file_name(&self) -> (name: &'static str)
        ensures
            name@ == log_file_name(*self),
    {
        match self {
            LogFile::Ollama => "ollama.log",
            LogFile::Backend => "backend.log",
        }
    }
}

/// The backend log's line that records the chosen port.
pub open spec fn port_line(port: u16) -> Seq<char> {
    "Puerto backend elegido: "@ + decimal(port as nat)
}

/// The backend log's line that records the chosen port.
pub fn chosen_port_line(port: u16) -> (line: String)
    ensures
        line@ == port_line(port),
{
    let mut line = String::new();
    line.append("Puerto backend elegido: ");
    push_decimal(&mut line, port as u64);
    line
}

/// The backend log's line when the backend could not be started.
pub fn spawn_error_line(detail: &str) -> (line: String)
    ensures
        line@ == "spawn error: "@ + detail@,
{
    let mut line = String::new();
    line.append("spawn error: ");
    line.append(detail);
    line
}

/// The backend log's line when the backend is missing from the installation.
pub fn sidecar_missing_line(detail: &str) -> (line: String)
    ensures
        line@ == "sidecar missing: "@ + detail@,
{
    let mut line = String::new();
    line.append("sidecar missing: ");
    line.append(detail);
    line
}

} // verus!
