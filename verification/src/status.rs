//! The status shown on the splash screen while the services start, and the
//! changes that the start-up makes to it.

use vstd::prelude::*;
use crate::probe::{app_url, backend_app_url};
use crate::text::{decimal, has_prefix, starts_with};

verus! {

/// The stage of the start-up that the splash screen shows.
#[derive(PartialEq, Eq, Structural, Clone, Copy, Debug)]
pub enum Phase {
    Starting,
    Ollama,
    Downloading,
    Ready,
    Warning,
}

/// The name under which a phase is shown to the web view.
pub open spec fn phase_name(p: Phase) -> Seq<char> {
    match p {
        Phase::Starting => "starting"@,
        Phase::Ollama => "ollama"@,
        Phase::Downloading => "downloading"@,
        Phase::Ready => "ready"@,
        Phase::Warning => "warning"@,
    }
}

impl Phase {
    /// The name of the phase, as the web view expects it.
    pub fn name(&self) -> (s: &'static str)
        ensures
            s@ == phase_name(*self),
    {
        match self {
            Phase::Starting => "starting",
            Phase::Ollama => "ollama",
            Phase::Downloading => "downloading",
            Phase::Ready => "ready",
            Phase::Warning => "warning",
        }
    }
}

/// The start-up status.
pub struct Status {
    pub phase: Phase,
    pub message: String,
    /// Progress of the current download in percent, or -1 when unknown.
    pub percent: i32,
    /// Where the web application can be reached, once known.
    pub backend_url: Option<String>,
    /// Whether the user may enter the application.
    pub can_continue: bool,
    /// Whether the preparation of the AI engine is over.
    pub ollama_done: bool,
    pub backend_error: Option<String>,
}

/// The model of a [`Status`].
pub struct StatusView {
    pub phase: Phase,
    pub message: Seq<char>,
    pub percent: int,
    pub backend_url: Option<Seq<char>>,
    pub can_continue: bool,
    pub ollama_done: bool,
    pub backend_error: Option<Seq<char>>,
}

/// The characters of an optional string.
pub open spec fn opt_chars(o: Option<String>) -> Option<Seq<char>> {
    match o {
        Some(s) => Some(s@),
        None => None,
    }
}

impl View for Status {
    type V = StatusView;

    open spec fn view(&self) -> StatusView {
        StatusView {
            phase: self.phase,
            message: self.message@,
            percent: self.percent as int,
            backend_url: opt_chars(self.backend_url),
            can_continue: self.can_continue,
            ollama_done: self.ollama_done,
            backend_error: opt_chars(self.backend_error),
        }
    }
}

/// The message shown while nothing has started yet.
pub open spec fn starting_message() -> Seq<char> {
    "Iniciando servicios..."@
}

/// The status before anything has started.
pub open spec fn initial_status() -> StatusView {
    StatusView {
        phase: Phase::Starting,
        message: starting_message(),
        percent: -1,
        backend_url: None,
        can_continue: false,
        ollama_done: false,
        backend_error: None,
    }
}

/// A change that the start-up makes to the status.
pub enum StatusChange {
    /// The presence of the AI engine is being checked.
    OllamaCheck,
    /// The AI engine is not installed.
    OllamaMissing,
    /// The AI engine's service is being started.
    StartingService,
    /// The download of the chat model begins.
    ModelDownload(String),
    /// The chat model is ready.
    ModelReady(String),
    /// The download of an extra AI component begins.
    ComponentDownload(String),
    /// The extra AI component is ready.
    ComponentReady(String),
    /// A progress report of a running download.
    PullProgress { message: String, percent: i32 },
    /// The backend on this port answers.
    BackendReady(u16),
    /// The preparation of the AI engine is over; the backend listens on this port.
    OllamaFinished(u16),
    /// The backend could not be started, for this reason.
    BackendSpawnFailed(String),
    /// The backend is missing from the installation, for this reason.
    BackendMissing(String),
}

/// The model of a [`StatusChange`].
pub enum StatusChangeView {
    OllamaCheck,
    OllamaMissing,
    StartingService,
    ModelDownload(Seq<char>),
    ModelReady(Seq<char>),
    ComponentDownload(Seq<char>),
    ComponentReady(Seq<char>),
    PullProgress { message: Seq<char>, percent: int },
    BackendReady(u16),
    OllamaFinished(u16),
    BackendSpawnFailed(Seq<char>),
    BackendMissing(Seq<char>),
}

impl View for StatusChange {
    type V = StatusChangeView;

    open spec fn view(&self) -> StatusChangeView {
        match self {
            StatusChange::OllamaCheck => StatusChangeView::OllamaCheck,
            StatusChange::OllamaMissing => StatusChangeView::OllamaMissing,
            StatusChange::StartingService => StatusChangeView::StartingService,
            StatusChange::ModelDownload(m) => StatusChangeView::ModelDownload(m@),
            StatusChange::ModelReady(m) => StatusChangeView::ModelReady(m@),
            StatusChange::ComponentDownload(m) => StatusChangeView::ComponentDownload(m@),
            StatusChange::ComponentReady(m) => StatusChangeView::ComponentReady(m@),
            StatusChange::PullProgress { message, percent } => StatusChangeView::PullProgress {
                message: message@,
                percent: *percent as int,
            },
            StatusChange::BackendReady(p) => StatusChangeView::BackendReady(*p),
            StatusChange::OllamaFinished(p) => StatusChangeView::OllamaFinished(*p),
            StatusChange::BackendSpawnFailed(d) => StatusChangeView::BackendSpawnFailed(d@),
            StatusChange::BackendMissing(d) => StatusChangeView::BackendMissing(d@),
        }
    }
}

pub open spec fn checking_message() -> Seq<char> {
    "Verificando el motor de IA (Ollama)..."@
}

pub open spec fn missing_message() -> Seq<char> {
    "Ollama no esta instalado. La app abrira sin IA hasta que lo instale."@
}

pub open spec fn service_message() -> Seq<char> {
    "Iniciando el servicio de IA..."@
}

pub open spec fn model_download_message(model: Seq<char>) -> Seq<char> {
    "Descargando el modelo "@ + model + " (solo la primera vez)..."@
}

pub open spec fn model_ready_message(model: Seq<char>) -> Seq<char> {
    "Modelo "@ + model + " listo."@
}

pub open spec fn component_download_message(name: Seq<char>) -> Seq<char> {
    "Descargando componente de IA "@ + name + "..."@
}

pub open spec fn component_ready_message(name: Seq<char>) -> Seq<char> {
    "Componente "@ + name + " listo."@
}

pub open spec fn services_ready_message() -> Seq<char> {
    "Servicios listos."@
}

/// What the user is told when the backend still does not answer once the
/// AI engine is prepared.
pub open spec fn no_answer_error() -> Seq<char> {
    "El servidor no respondio (revise SmartGastos/logs en AppData). Pulse Entrar para reintentar o cierre la app por completo y vuelva a abrirla."@
}

pub open spec fn spawn_failed_message(detail: Seq<char>) -> Seq<char> {
    "No se pudo iniciar el servidor: "@ + detail
}

pub open spec fn backend_missing_message(detail: Seq<char>) -> Seq<char> {
    "Backend no encontrado en el instalador: "@ + detail
}

/// Whether a message reports a download, which readiness of the backend replaces.
pub open spec fn is_download_message(message: Seq<char>) -> bool {
    has_prefix(message, "Descargando"@) || has_prefix(message, "Componente"@)
}

/// The status after a change.
pub open spec fn changed(s: StatusView, c: StatusChangeView) -> StatusView {
    match c {
        StatusChangeView::OllamaCheck => StatusView {
            phase: Phase::Ollama,
            message: checking_message(),
            percent: -1,
            ..s
        },
        StatusChangeView::OllamaMissing => StatusView {
            phase: Phase::Warning,
            message: missing_message(),
            percent: -1,
            ..s
        },
        StatusChangeView::StartingService => StatusView {
            message: service_message(),
            percent: -1,
            ..s
        },
        StatusChangeView::ModelDownload(m) => StatusView {
            phase: Phase::Downloading,
            message: model_download_message(m),
            percent: -1,
            ..s
        },
        StatusChangeView::ModelReady(m) => StatusView {
            message: model_ready_message(m),
            percent: 100,
            ..s
        },
        StatusChangeView::ComponentDownload(m) => StatusView {
            phase: Phase::Downloading,
            message: component_download_message(m),
            percent: -1,
            ..s
        },
        StatusChangeView::ComponentReady(m) => StatusView {
            message: component_ready_message(m),
            percent: 100,
            ..s
        },
        StatusChangeView::PullProgress { message, percent } => StatusView {
            phase: Phase::Downloading,
            message: message,
            percent: percent,
            ..s
        },
        StatusChangeView::BackendReady(port) => StatusView {
            phase: Phase::Ready,
            message: if is_download_message(s.message) {
                services_ready_message()
            } else {
                s.message
            },
            backend_url: Some(app_url(port)),
            can_continue: true,
            backend_error: None,
            ..s
        },
        StatusChangeView::OllamaFinished(port) => if s.can_continue {
            StatusView {
                phase: Phase::Ready,
                backend_url: if s.backend_url is Some {
                    s.backend_url
                } else {
                    Some(app_url(port))
                },
                ollama_done: true,
                ..s
            }
        } else {
            StatusView {
                phase: Phase::Warning,
                backend_error: Some(no_answer_error()),
                ollama_done: true,
                ..s
            }
        },
        StatusChangeView::BackendSpawnFailed(d) => StatusView {
            phase: Phase::Warning,
            message: spawn_failed_message(d),
            backend_error: Some(spawn_failed_message(d)),
            ..s
        },
        StatusChangeView::BackendMissing(d) => StatusView {
            phase: Phase::Warning,
            message: backend_missing_message(d),
            backend_error: Some(backend_missing_message(d)),
            ..s
        },
    }
}

/// Once the user may enter, no change takes that back; once the preparation
/// of the AI engine is over, it stays over; and an address of the web
/// application, once known, stays known.
pub proof fn status_flags_are_monotone(s: StatusView, c: StatusChangeView)
    ensures
        s.can_continue ==> changed(s, c).can_continue,
        s.ollama_done ==> changed(s, c).ollama_done,
        s.backend_url is Some ==> changed(s, c).backend_url is Some,
{
}

/// When the backend answers, the user may enter the web application at its
/// address, no error is shown, and a download message gives way to the
/// message that the services are ready.
pub proof fn backend_ready_law(s: StatusView, port: u16)
    ensures
        changed(s, StatusChangeView::BackendReady(port)).can_continue,
        changed(s, StatusChangeView::BackendReady(port)).phase == Phase::Ready,
        changed(s, StatusChangeView::BackendReady(port)).backend_url == Some(app_url(port)),
        changed(s, StatusChangeView::BackendReady(port)).backend_url == Some(
            "http://127.0.0.1:"@ + decimal(port as nat) + "/"@,
        ),
        (has_prefix(s.message, "Descargando"@) || has_prefix(s.message, "Componente"@)) ==> changed(
            s,
            StatusChangeView::BackendReady(port),
        ).message == "Servicios listos."@,
        changed(s, StatusChangeView::BackendReady(port)).backend_error is None,
        is_download_message(s.message) ==> changed(
            s,
            StatusChangeView::BackendReady(port),
        ).message == services_ready_message(),
        !is_download_message(s.message) ==> changed(
            s,
            StatusChangeView::BackendReady(port),
        ).message == s.message,
{
}

/// When the preparation of the AI engine ends, it is marked over; the phase
/// is "ready" exactly when the user may enter, and then the address of the
/// web application is known; otherwise the phase is a warning and an error
/// tells the user what to do.
pub proof fn ollama_finished_law(s: StatusView, port: u16)
    ensures
        changed(s, StatusChangeView::OllamaFinished(port)).ollama_done,
        (changed(s, StatusChangeView::OllamaFinished(port)).phase == Phase::Ready)
            == s.can_continue,
        s.can_continue ==> changed(s, StatusChangeView::OllamaFinished(port)).backend_url is Some,
        !s.can_continue ==> changed(s, StatusChangeView::OllamaFinished(port)).phase
            == Phase::Warning,
        !s.can_continue ==> changed(s, StatusChangeView::OllamaFinished(port)).backend_error
            == Some(no_answer_error()),
{
}

/// The percentage shown stays -1 (unknown) or within 0 to 100, provided that
/// the progress reports do.
pub proof fn percent_stays_in_range(s: StatusView, c: StatusChangeView)
    requires
        -1 <= s.percent <= 100,
        c matches StatusChangeView::PullProgress { percent, .. } ==> -1 <= percent <= 100,
    ensures
        -1 <= changed(s, c).percent <= 100,
{
}

/// A progress report of a download replaces the message and the percentage
/// by the report's own, sets the phase to "downloading", and leaves all the
/// rest of the status as it was.
pub proof fn pull_progress_shows_the_report(s: StatusView, message: Seq<char>, percent: int)
    ensures
        changed(s, StatusChangeView::PullProgress { message, percent }) == (StatusView {
            phase: Phase::Downloading,
            message: message,
            percent: percent,
            backend_url: s.backend_url,
            can_continue: s.can_continue,
            ollama_done: s.ollama_done,
            backend_error: s.backend_error,
        }),
{
}

/// When the backend has answered before the preparation of the AI engine
/// ends, the end adds no error: the phase is "ready", the engine's
/// preparation is over, a known address is kept (else the address on the
/// port is set), and message, percentage and error stay as they were.
/// So after the backend's readiness and then the end of the preparation, no
/// error is shown and the address is that of the backend.
pub proof fn finish_after_answer_adds_no_error(s: StatusView, ready_port: u16, port: u16)
    ensures
        s.can_continue ==> changed(s, StatusChangeView::OllamaFinished(port)) == (StatusView {
            phase: Phase::Ready,
            message: s.message,
            percent: s.percent,
            backend_url: match s.backend_url {
                Some(u) => Some(u),
                None => Some("http://127.0.0.1:"@ + decimal(port as nat) + "/"@),
            },
            can_continue: true,
            ollama_done: true,
            backend_error: s.backend_error,
        }),
        changed(
            changed(s, StatusChangeView::BackendReady(ready_port)),
            StatusChangeView::OllamaFinished(port),
        ).backend_error is None,
        changed(
            changed(s, StatusChangeView::BackendReady(ready_port)),
            StatusChangeView::OllamaFinished(port),
        ).phase == Phase::Ready,
        changed(
            changed(s, StatusChangeView::BackendReady(ready_port)),
            StatusChangeView::OllamaFinished(port),
        ).backend_url == Some("http://127.0.0.1:"@ + decimal(ready_port as nat) + "/"@),
{
}

/// What each change shows, in the words the user reads; no change but the
/// backend's readiness and the end of the preparation touches the
/// address, the permission to enter or the end flag.
pub proof fn status_change_effects(s: StatusView, c: StatusChangeView)
    ensures
        c == StatusChangeView::OllamaCheck ==> changed(s, c) == (StatusView {
            phase: Phase::Ollama,
            message: "Verificando el motor de IA (Ollama)..."@,
            percent: -1,
            ..s
        }),
        c == StatusChangeView::OllamaMissing ==> changed(s, c) == (StatusView {
            phase: Phase::Warning,
            message: "Ollama no esta instalado. La app abrira sin IA hasta que lo instale."@,
            percent: -1,
            ..s
        }),
        c == StatusChangeView::StartingService ==> changed(s, c) == (StatusView {
            message: "Iniciando el servicio de IA..."@,
            percent: -1,
            ..s
        }),
        forall|m: Seq<char>|
            c == StatusChangeView::ModelDownload(m) ==> #[trigger] changed(s, c) == (StatusView {
                phase: Phase::Downloading,
                message: "Descargando el modelo "@ + m + " (solo la primera vez)..."@,
                percent: -1,
                ..s
            }),
        forall|m: Seq<char>|
            c == StatusChangeView::ModelReady(m) ==> #[trigger] changed(s, c) == (StatusView {
                message: "Modelo "@ + m + " listo."@,
                percent: 100,
                ..s
            }),
        forall|m: Seq<char>|
            c == StatusChangeView::ComponentDownload(m) ==> #[trigger] changed(s, c) == (
            StatusView {
                phase: Phase::Downloading,
                message: "Descargando componente de IA "@ + m + "..."@,
                percent: -1,
                ..s
            }),
        forall|m: Seq<char>|
            c == StatusChangeView::ComponentReady(m) ==> #[trigger] changed(s, c) == (StatusView {
                message: "Componente "@ + m + " listo."@,
                percent: 100,
                ..s
            }),
        forall|d: Seq<char>|
            c == StatusChangeView::BackendSpawnFailed(d) ==> #[trigger] changed(s, c) == (
            StatusView {
                phase: Phase::Warning,
                message: "No se pudo iniciar el servidor: "@ + d,
                backend_error: Some("No se pudo iniciar el servidor: "@ + d),
                ..s
            }),
        forall|d: Seq<char>|
            c == StatusChangeView::BackendMissing(d) ==> #[trigger] changed(s, c) == (StatusView {
                phase: Phase::Warning,
                message: "Backend no encontrado en el instalador: "@ + d,
                backend_error: Some("Backend no encontrado en el instalador: "@ + d),
                ..s
            }),
        !(c is BackendReady) && !(c is OllamaFinished) ==> changed(s, c).backend_url
            == s.backend_url && changed(s, c).can_continue == s.can_continue && changed(
            s,
            c,
        ).ollama_done == s.ollama_done,
        !s.can_continue ==> forall|port: u16|
            c == StatusChangeView::OllamaFinished(port) ==> #[trigger] changed(s, c) == (
            StatusView {
                phase: Phase::Warning,
                ollama_done: true,
                backend_error: Some(
                    "El servidor no respondio (revise SmartGastos/logs en AppData). Pulse Entrar para reintentar o cierre la app por completo y vuelva a abrirla."@,
                ),
                ..s
            }),
{
}

fn joined(head: &str, middle: &str, tail: &str) -> (s: String)
    ensures
        s@ == head@ + middle@ + tail@,
{
    let mut s = String::new();
    s.append(head);
    s.append(middle);
    s.append(tail);
    s
}

fn prefixed(head: &str, tail: &str) -> (s: String)
    ensures
        s@ == head@ + tail@,
{
    let mut s = String::new();
    s.append(head);
    s.append(tail);
    s
}

impl Status {
    /// The status before anything has started.
    pub fn initial() -> (s: Status)
        ensures
            s@ == initial_status(),
    {
        Status {
            phase: Phase::Starting,
            message: String::from_str("Iniciando servicios..."),
            percent: -1,
            backend_url: None,
            can_continue: false,
            ollama_done: false,
            backend_error: None,
        }
    }

    /// Applies a change to the status.
    pub fn apply(&mut self, change: &StatusChange)
        ensures
            final(self)@ == changed(old(self)@, change@),
    {
        match change {
            StatusChange::OllamaCheck => {
                self.phase = Phase::Ollama;
                self.message = String::from_str("Verificando el motor de IA (Ollama)...");
                self.percent = -1;
            },
            StatusChange::OllamaMissing => {
                self.phase = Phase::Warning;
                self.message = String::from_str(
                    "Ollama no esta instalado. La app abrira sin IA hasta que lo instale.",
                );
                self.percent = -1;
            },
            StatusChange::StartingService => {
                self.message = String::from_str("Iniciando el servicio de IA...");
                self.percent = -1;
            },
            StatusChange::ModelDownload(m) => {
                self.phase = Phase::Downloading;
                self.message = joined("Descargando el modelo ", m.as_str(), " (solo la primera vez)...");
                self.percent = -1;
            },
            StatusChange::ModelReady(m) => {
                self.message = joined("Modelo ", m.as_str(), " listo.");
                self.percent = 100;
            },
            StatusChange::ComponentDownload(m) => {
                self.phase = Phase::Downloading;
                self.message = joined("Descargando componente de IA ", m.as_str(), "...");
                self.percent = -1;
            },
            StatusChange::ComponentReady(m) => {
                self.message = joined("Componente ", m.as_str(), " listo.");
                self.percent = 100;
            },
            StatusChange::PullProgress { message, percent } => {
                self.phase = Phase::Downloading;
                self.message = message.clone();
                self.percent = *percent;
            },
            StatusChange::BackendReady(port) => {
                self.backend_url = Some(backend_app_url(*port));
                self.can_continue = true;
                self.backend_error = None;
                self.phase = Phase::Ready;
                if starts_with(self.message.as_str(), "Descargando") || starts_with(
                    self.message.as_str(),
                    "Componente",
                ) {
                    self.message = String::from_str("Servicios listos.");
                }
            },
            StatusChange::OllamaFinished(port) => {
                self.ollama_done = true;
                if self.can_continue {
                    self.phase = Phase::Ready;
                    if self.backend_url.is_none() {
                        self.backend_url = Some(backend_app_url(*port));
                    }
                } else {
                    self.phase = Phase::Warning;
                    self.backend_error = Some(
                        String::from_str(
                            "El servidor no respondio (revise SmartGastos/logs en AppData). Pulse Entrar para reintentar o cierre la app por completo y vuelva a abrirla.",
                        ),
                    );
                }
            },
            StatusChange::BackendSpawnFailed(d) => {
                self.phase = Phase::Warning;
                self.message = prefixed("No se pudo iniciar el servidor: ", d.as_str());
                self.backend_error = Some(self.message.clone());
            },
            StatusChange::BackendMissing(d) => {
                self.phase = Phase::Warning;
                self.message = prefixed("Backend no encontrado en el instalador: ", d.as_str());
                self.backend_error = Some(self.message.clone());
            },
        }
    }

    /// Whether the user may not enter yet: the backend has not been seen ready.
    pub fn backend_pending(&self) -> (b: bool)
        ensures
            b == !self@.can_continue,
    {
        !self.can_continue
    }

    /// Marks the backend on `port` ready when the probe found it so; tells
    /// whether it did.
    pub fn try_mark_backend_ready(&mut self, port: u16, probed_ready: bool) -> (marked: bool)
        ensures
            marked == probed_ready,
            final(self)@ == if probed_ready {
                changed(old(self)@, StatusChangeView::BackendReady(port))
            } else {
                old(self)@
            },
    {
        if probed_ready {
            self.apply(&StatusChange::BackendReady(port));
        }
        probed_ready
    }

    /// A copy of the status.
    pub fn snapshot(&self) -> (s: Status)
        ensures
            s@ == self@,
    {
        Status {
            phase: self.phase,
            message: self.message.clone(),
            percent: self.percent,
            backend_url: match &self.backend_url {
                Some(u) => Some(u.clone()),
                None => None,
            },
            can_continue: self.can_continue,
            ollama_done: self.ollama_done,
            backend_error: match &self.backend_error {
                Some(e) => Some(e.clone()),
                None => None,
            },
        }
    }
}

} // verus!
