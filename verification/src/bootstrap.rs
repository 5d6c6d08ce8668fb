//! The preparation of the local AI engine (Ollama), as a machine that
//! decides each next action from the answers to the previous ones: check
//! that the engine is installed, start its service when it is not running,
//! download the chat model and the extra components, then settle whether
//! the user may enter.

use vstd::prelude::*;
use crate::model::fallback_model;
use crate::status::{StatusChange, StatusChangeView};

verus! {

/// The port of the AI engine's service.
pub open spec fn engine_port() -> u16 {
    11434
}

/// How many probes the wait for the engine's service makes.
pub open spec fn engine_wait_attempts() -> u32 {
    30
}

/// How many probes the last wait for the backend makes.
pub open spec fn backend_wait_attempts() -> u32 {
    120
}

/// Where the preparation stands.
#[derive(PartialEq, Eq, Structural, Clone, Copy, Debug)]
pub enum Stage {
    Start,
    LogStart,
    CheckInstalled,
    AfterInstalled,
    Missing,
    AfterService,
    SpawnService,
    WaitService,
    ChooseModel,
    AfterModel,
    PullModel,
    AfterPull,
    /// Begin with the extra component of this index.
    NextExtra(usize),
    /// Download the extra component of this index.
    PullExtra(usize),
    /// The download of the extra component of this index has ended.
    AfterExtra(usize),
    BeginFinish,
    AfterQuery1,
    AfterProbe1,
    Query2,
    AfterQuery2,
    Probe2,
    AfterProbe2,
    LastStatus,
    Final,
    Done,
}

/// What the preparation asks the program to do next. Actions that have
/// something to tell are answered with [`BootEvent::Answer`] (or, for
/// `ChooseModel`, [`BootEvent::Model`]); the others with [`BootEvent::Ack`].
pub enum BootAction {
    /// Apply this change to the status and publish it.
    Show(StatusChange),
    /// Write this line to the engine's log.
    Log(String),
    /// Run `ollama --version`; answer whether it ran and succeeded.
    CheckInstalled,
    /// Connect to the engine's service on this port of the loopback address;
    /// answer whether it worked.
    CheckService { port: u16 },
    /// Start `ollama serve` in the background.
    StartService,
    /// Wait until this port accepts connections, with at most this many probes.
    WaitForService { port: u16, attempts: u32 },
    /// Pick the chat model for this machine and answer its name.
    ChooseModel,
    /// Download this model through the engine; answer whether it succeeded.
    Pull(String),
    /// Answer whether the status says that the user may enter.
    QueryCanContinue,
    /// Probe the backend once; answer whether it is ready.
    ProbeBackend,
    /// Wait until the backend is ready, with at most this many probes.
    WaitForBackend { attempts: u32 },
    /// The preparation is over.
    Finished,
}

/// The model of a [`BootAction`].
pub enum BootActionView {
    Show(StatusChangeView),
    Log(Seq<char>),
    CheckInstalled,
    CheckService { port: u16 },
    StartService,
    WaitForService { port: u16, attempts: u32 },
    ChooseModel,
    Pull(Seq<char>),
    QueryCanContinue,
    ProbeBackend,
    WaitForBackend { attempts: u32 },
    Finished,
}

impl View for BootAction {
    type V = BootActionView;

    open spec fn view(&self) -> BootActionView {
        match self {
            BootAction::Show(c) => BootActionView::Show(c@),
            BootAction::Log(l) => BootActionView::Log(l@),
            BootAction::CheckInstalled => BootActionView::CheckInstalled,
            BootAction::CheckService { port } => BootActionView::CheckService { port: *port },
            BootAction::StartService => BootActionView::StartService,
            BootAction::WaitForService { port, attempts } => BootActionView::WaitForService {
                port: *port,
                attempts: *attempts,
            },
            BootAction::ChooseModel => BootActionView::ChooseModel,
            BootAction::Pull(m) => BootActionView::Pull(m@),
            BootAction::QueryCanContinue => BootActionView::QueryCanContinue,
            BootAction::ProbeBackend => BootActionView::ProbeBackend,
            BootAction::WaitForBackend { attempts } => BootActionView::WaitForBackend {
                attempts: *attempts,
            },
            BootAction::Finished => BootActionView::Finished,
        }
    }
}

/// The answer to the last action.
pub enum BootEvent {
    /// The action was carried out (or the preparation starts).
    Ack,
    /// The yes-or-no answer that the action asked for.
    Answer(bool),
    /// The name of the chat model chosen.
    Model(String),
}

/// The model of a [`BootEvent`].
pub enum BootEventView {
    Ack,
    Answer(bool),
    Model(Seq<char>),
}

impl View for BootEvent {
    type V = BootEventView;

    open spec fn view(&self) -> BootEventView {
        match self {
            BootEvent::Ack => BootEventView::Ack,
            BootEvent::Answer(b) => BootEventView::Answer(*b),
            BootEvent::Model(m) => BootEventView::Model(m@),
        }
    }
}

/// The yes-or-no content of an answer; anything but a yes counts as no.
pub open spec fn answer_of(e: BootEventView) -> bool {
    e matches BootEventView::Answer(b) && b
}

/// The model named by an answer; anything but a name gives the fallback model.
pub open spec fn model_of(e: BootEventView) -> Seq<char> {
    match e {
        BootEventView::Model(m) => m,
        _ => fallback_model(),
    }
}

/// The line logged when the preparation starts.
pub open spec fn start_line(product: Seq<char>) -> Seq<char> {
    "== "@ + product + ": preparando Ollama =="@
}

/// The line logged when the engine is not installed.
pub open spec fn missing_line() -> Seq<char> {
    "Ollama no instalado."@
}

/// The preparation of the AI engine.
pub struct Bootstrap {
    stage: Stage,
    product: String,
    model: String,
    extras: Vec<String>,
    port: u16,
}

/// The model of a [`Bootstrap`].
pub struct BootView {
    pub stage: Stage,
    /// The product's name, for the log.
    pub product: Seq<char>,
    /// The chat model, once chosen.
    pub model: Seq<char>,
    /// The extra components to download after the chat model, in order.
    pub extras: Seq<Seq<char>>,
    /// The backend's port.
    pub port: u16,
}

impl View for Bootstrap {
    type V = BootView;

    closed spec fn view(&self) -> BootView {
        BootView {
            stage: self.stage,
            product: self.product@,
            model: self.model@,
            extras: self.extras@.map_values(|s: String| s@),
            port: self.port,
        }
    }
}

/// Where the preparation goes once the extra components before index `i` are done.
pub open spec fn enter_extra(s: BootView, i: int) -> (BootView, BootActionView) {
    if 0 <= i < s.extras.len() {
        (
            BootView { stage: Stage::PullExtra(i as usize), ..s },
            BootActionView::Show(StatusChangeView::ComponentDownload(s.extras[i])),
        )
    } else {
        enter_finish(s)
    }
}

/// The start of the final settling: ask whether the user may already enter.
pub open spec fn enter_finish(s: BootView) -> (BootView, BootActionView) {
    (BootView { stage: Stage::AfterQuery1, ..s }, BootActionView::QueryCanContinue)
}

/// One step of the preparation: the next state and the next action.
pub open spec fn boot_next(s: BootView, e: BootEventView) -> (BootView, BootActionView) {
    match s.stage {
        Stage::Start => (
            BootView { stage: Stage::LogStart, ..s },
            BootActionView::Show(StatusChangeView::OllamaCheck),
        ),
        Stage::LogStart => (
            BootView { stage: Stage::CheckInstalled, ..s },
            BootActionView::Log(start_line(s.product)),
        ),
        Stage::CheckInstalled => (
            BootView { stage: Stage::AfterInstalled, ..s },
            BootActionView::CheckInstalled,
        ),
        Stage::AfterInstalled => if answer_of(e) {
            (
                BootView { stage: Stage::AfterService, ..s },
                BootActionView::CheckService { port: engine_port() },
            )
        } else {
            (BootView { stage: Stage::Missing, ..s }, BootActionView::Log(missing_line()))
        },
        Stage::Missing => (
            BootView { stage: Stage::BeginFinish, ..s },
            BootActionView::Show(StatusChangeView::OllamaMissing),
        ),
        Stage::AfterService => if answer_of(e) {
            (BootView { stage: Stage::AfterModel, ..s }, BootActionView::ChooseModel)
        } else {
            (
                BootView { stage: Stage::SpawnService, ..s },
                BootActionView::Show(StatusChangeView::StartingService),
            )
        },
        Stage::SpawnService => (
            BootView { stage: Stage::WaitService, ..s },
            BootActionView::StartService,
        ),
        Stage::WaitService => (
            BootView { stage: Stage::ChooseModel, ..s },
            BootActionView::WaitForService {
                port: engine_port(),
                attempts: engine_wait_attempts(),
            },
        ),
        Stage::ChooseModel => (
            BootView { stage: Stage::AfterModel, ..s },
            BootActionView::ChooseModel,
        ),
        Stage::AfterModel => (
            BootView { stage: Stage::PullModel, model: model_of(e), ..s },
            BootActionView::Show(StatusChangeView::ModelDownload(model_of(e))),
        ),
        Stage::PullModel => (
            BootView { stage: Stage::AfterPull, ..s },
            BootActionView::Pull(s.model),
        ),
        Stage::AfterPull => if answer_of(e) {
            (
                BootView { stage: Stage::NextExtra(0), ..s },
                BootActionView::Show(StatusChangeView::ModelReady(s.model)),
            )
        } else {
            enter_extra(s, 0)
        },
        Stage::NextExtra(i) => enter_extra(s, i as int),
        Stage::PullExtra(i) => if (i as int) < s.extras.len() {
            (
                BootView { stage: Stage::AfterExtra(i), ..s },
                BootActionView::Pull(s.extras[i as int]),
            )
        } else {
            enter_finish(s)
        },
        Stage::AfterExtra(i) => if (i as int) < s.extras.len() {
            if answer_of(e) {
                (
                    BootView { stage: Stage::NextExtra((i + 1) as usize), ..s },
                    BootActionView::Show(StatusChangeView::ComponentReady(s.extras[i as int])),
                )
            } else {
                enter_extra(s, i + 1)
            }
        } else {
            enter_finish(s)
        },
        Stage::BeginFinish => enter_finish(s),
        Stage::AfterQuery1 => if answer_of(e) {
            (
                BootView { stage: Stage::Final, ..s },
                BootActionView::Show(StatusChangeView::OllamaFinished(s.port)),
            )
        } else {
            (BootView { stage: Stage::AfterProbe1, ..s }, BootActionView::ProbeBackend)
        },
        Stage::AfterProbe1 => if answer_of(e) {
            (
                BootView { stage: Stage::Query2, ..s },
                BootActionView::Show(StatusChangeView::BackendReady(s.port)),
            )
        } else {
            (BootView { stage: Stage::AfterQuery2, ..s }, BootActionView::QueryCanContinue)
        },
        Stage::Query2 => (
            BootView { stage: Stage::AfterQuery2, ..s },
            BootActionView::QueryCanContinue,
        ),
        Stage::AfterQuery2 => if answer_of(e) {
            (
                BootView { stage: Stage::Final, ..s },
                BootActionView::Show(StatusChangeView::OllamaFinished(s.port)),
            )
        } else {
            (
                BootView { stage: Stage::Probe2, ..s },
                BootActionView::WaitForBackend { attempts: backend_wait_attempts() },
            )
        },
        Stage::Probe2 => (
            BootView { stage: Stage::AfterProbe2, ..s },
            BootActionView::ProbeBackend,
        ),
        Stage::AfterProbe2 => if answer_of(e) {
            (
                BootView { stage: Stage::LastStatus, ..s },
                BootActionView::Show(StatusChangeView::BackendReady(s.port)),
            )
        } else {
            (
                BootView { stage: Stage::Final, ..s },
                BootActionView::Show(StatusChangeView::OllamaFinished(s.port)),
            )
        },
        Stage::LastStatus => (
            BootView { stage: Stage::Final, ..s },
            BootActionView::Show(StatusChangeView::OllamaFinished(s.port)),
        ),
        Stage::Final => (BootView { stage: Stage::Done, ..s }, BootActionView::Finished),
        Stage::Done => (s, BootActionView::Finished),
    }
}

/// A measure of the work left: every step before the end lowers it.
pub open spec fn boot_rank(s: BootView) -> nat {
    let l = s.extras.len() as int;
    let t = 10 + 3 * l;
    let r: int = match s.stage {
        Stage::Done => 0,
        Stage::Final => 1,
        Stage::LastStatus => 2,
        Stage::AfterProbe2 => 3,
        Stage::Probe2 => 4,
        Stage::AfterQuery2 => 5,
        Stage::Query2 => 6,
        Stage::AfterProbe1 => 7,
        Stage::AfterQuery1 => 8,
        Stage::BeginFinish => 9,
        Stage::NextExtra(i) => if (i as int) <= l {
            10 + 3 * (l - i)
        } else {
            10
        },
        Stage::PullExtra(i) => if (i as int) < l {
            9 + 3 * (l - i)
        } else {
            10
        },
        Stage::AfterExtra(i) => if (i as int) < l {
            8 + 3 * (l - i)
        } else {
            10
        },
        Stage::AfterPull => t + 1,
        Stage::PullModel => t + 2,
        Stage::AfterModel => t + 3,
        Stage::ChooseModel => t + 4,
        Stage::WaitService => t + 5,
        Stage::SpawnService => t + 6,
        Stage::AfterService => t + 7,
        Stage::Missing => t + 8,
        Stage::AfterInstalled => t + 9,
        Stage::CheckInstalled => t + 10,
        Stage::LogStart => t + 11,
        Stage::Start => t + 12,
    };
    r as nat
}

/// The preparation always comes to an end, whatever the answers: each step
/// before the end lowers the work left, and once over, it stays over.
pub proof fn bootstrap_terminates(s: BootView, e: BootEventView)
    requires
        s.extras.len() <= usize::MAX,
    ensures
        s.stage != Stage::Done ==> boot_rank(boot_next(s, e).0) < boot_rank(s),
        s.stage == Stage::Done ==> boot_next(s, e) == (s, BootActionView::Finished),
{
}

/// The preparation ends by marking itself over on the status: it finishes
/// only from its final stage, and it enters that stage only by publishing
/// the change that ends the preparation, for the backend's port.
pub proof fn bootstrap_ends_with_final_status(s: BootView, e: BootEventView)
    ensures
        boot_next(s, e).1 == BootActionView::Finished ==> s.stage == Stage::Final || s.stage
            == Stage::Done,
        boot_next(s, e).0.stage == Stage::Final && s.stage != Stage::Final ==> boot_next(s, e).1
            == BootActionView::Show(StatusChangeView::OllamaFinished(s.port)),
{
}

/// Whether the preparation is settling whether the user may enter, or has
/// found the engine missing.
pub open spec fn settling(stage: Stage) -> bool {
    match stage {
        Stage::Missing | Stage::BeginFinish | Stage::AfterQuery1 | Stage::AfterProbe1
        | Stage::Query2 | Stage::AfterQuery2 | Stage::Probe2 | Stage::AfterProbe2
        | Stage::LastStatus | Stage::Final | Stage::Done => true,
        _ => false,
    }
}

/// When the engine is not installed, the preparation goes straight to
/// settling; once settling, it never downloads a model, chooses one or
/// touches the engine's service again.
pub proof fn no_download_once_settling(s: BootView, e: BootEventView)
    ensures
        s.stage == Stage::AfterInstalled && !answer_of(e) ==> boot_next(s, e).0.stage
            == Stage::Missing,
        settling(s.stage) ==> settling(boot_next(s, e).0.stage),
        settling(s.stage) ==> !(boot_next(s, e).1 is Pull),
        settling(s.stage) ==> !(boot_next(s, e).1 is ChooseModel),
        settling(s.stage) ==> !(boot_next(s, e).1 is StartService),
{
}

/// Every download that the preparation asks for is of the chosen chat
/// model or of one of the extra components; the components are taken in
/// their order, each after the previous one's download has ended.
pub proof fn downloads_are_the_configured_ones(s: BootView, e: BootEventView)
    ensures
        boot_next(s, e).1 matches BootActionView::Pull(m) ==> (m == s.model || exists|i: int|
            0 <= i < s.extras.len() && s.extras[i] == m),
        forall|i: usize|
            s.stage == Stage::PullExtra(i) && (i as int) < s.extras.len() ==> #[trigger] boot_next(
                s,
                e,
            ).1 == BootActionView::Pull(s.extras[i as int]),
        forall|i: usize|
            s.stage == Stage::AfterExtra(i) && (i as int) + 1 < s.extras.len() ==> {
                let next = #[trigger] boot_next(s, e).0.stage;
                next == Stage::NextExtra((i + 1) as usize) || next == Stage::PullExtra(
                    (i + 1) as usize,
                )
            },
{
}

/// After the chat model's download, whether it succeeded or failed, every
/// extra component is taken in turn: a successful download is first
/// reported ready, then the first component's download is announced; a
/// failed one goes straight to announcing the first component. Each
/// announced component is then pulled, and after its pull, whatever the
/// answer, the next component follows.
pub proof fn every_extra_component_is_pulled(s: BootView, e: BootEventView)
    requires
        s.extras.len() <= usize::MAX,
    ensures
        s.stage == Stage::AfterPull && s.extras.len() > 0 && e == BootEventView::Answer(true)
            ==> boot_next(s, e) == (
            BootView { stage: Stage::NextExtra(0), ..s },
            BootActionView::Show(StatusChangeView::ModelReady(s.model)),
        ),
        s.stage == Stage::AfterPull && s.extras.len() > 0 && e != BootEventView::Answer(true)
            ==> boot_next(s, e) == (
            BootView { stage: Stage::PullExtra(0), ..s },
            BootActionView::Show(StatusChangeView::ComponentDownload(s.extras[0])),
        ),
        forall|i: usize|
            s.stage == Stage::NextExtra(i) && (i as int) < s.extras.len() ==> #[trigger] boot_next(
                s,
                e,
            ) == (
                BootView { stage: Stage::PullExtra(i), ..s },
                BootActionView::Show(StatusChangeView::ComponentDownload(s.extras[i as int])),
            ),
        forall|i: usize|
            s.stage == Stage::PullExtra(i) && (i as int) < s.extras.len() ==> #[trigger] boot_next(
                s,
                e,
            ) == (
                BootView { stage: Stage::AfterExtra(i), ..s },
                BootActionView::Pull(s.extras[i as int]),
            ),
        forall|i: usize|
            s.stage == Stage::AfterExtra(i) && (i as int) + 1 < s.extras.len() && e
                == BootEventView::Answer(true) ==> #[trigger] boot_next(s, e) == (
                BootView { stage: Stage::NextExtra((i + 1) as usize), ..s },
                BootActionView::Show(StatusChangeView::ComponentReady(s.extras[i as int])),
            ),
        forall|i: usize|
            s.stage == Stage::AfterExtra(i) && (i as int) + 1 < s.extras.len() && e
                != BootEventView::Answer(true) ==> #[trigger] boot_next(s, e) == (
                BootView { stage: Stage::PullExtra((i + 1) as usize), ..s },
                BootActionView::Show(StatusChangeView::ComponentDownload(s.extras[i + 1])),
            ),
{
}

/// The preparation begins by showing that the engine is being checked,
/// logging "== <product>: preparando Ollama ==" and running the engine's
/// version check. When the engine is there, it checks its service on port
/// 11434. When the engine is missing, it logs "Ollama no instalado.", shows
/// so, and goes to settling by asking whether the user may enter.
pub proof fn preparation_sequence(s: BootView, e: BootEventView)
    ensures
        s.stage == Stage::Start ==> boot_next(s, e) == (
            BootView { stage: Stage::LogStart, ..s },
            BootActionView::Show(StatusChangeView::OllamaCheck),
        ),
        s.stage == Stage::LogStart ==> boot_next(s, e) == (
            BootView { stage: Stage::CheckInstalled, ..s },
            BootActionView::Log("== "@ + s.product + ": preparando Ollama =="@),
        ),
        s.stage == Stage::CheckInstalled ==> boot_next(s, e).1 == BootActionView::CheckInstalled,
        s.stage == Stage::AfterInstalled && e == BootEventView::Answer(true) ==> boot_next(s, e).1
            == (BootActionView::CheckService { port: 11434 }),
        s.stage == Stage::AfterInstalled && e != BootEventView::Answer(true) ==> boot_next(s, e)
            == (
            BootView { stage: Stage::Missing, ..s },
            BootActionView::Log("Ollama no instalado."@),
        ),
        s.stage == Stage::Missing ==> boot_next(s, e) == (
            BootView { stage: Stage::BeginFinish, ..s },
            BootActionView::Show(StatusChangeView::OllamaMissing),
        ),
        s.stage == Stage::BeginFinish ==> boot_next(s, e).1 == BootActionView::QueryCanContinue,
{
}

/// When the engine is there, a running service lets the preparation choose
/// the model at once; else it shows that the service is starting, starts
/// it, and waits for port 11434 with 30 probes before choosing. The chosen
/// model is announced, then pulled.
pub proof fn service_and_model_sequence(s: BootView, e: BootEventView)
    ensures
        s.stage == Stage::AfterService && e == BootEventView::Answer(true) ==> boot_next(s, e)
            == (BootView { stage: Stage::AfterModel, ..s }, BootActionView::ChooseModel),
        s.stage == Stage::AfterService && e != BootEventView::Answer(true) ==> boot_next(s, e)
            == (
            BootView { stage: Stage::SpawnService, ..s },
            BootActionView::Show(StatusChangeView::StartingService),
        ),
        s.stage == Stage::SpawnService ==> boot_next(s, e) == (
            BootView { stage: Stage::WaitService, ..s },
            BootActionView::StartService,
        ),
        s.stage == Stage::WaitService ==> boot_next(s, e) == (
            BootView { stage: Stage::ChooseModel, ..s },
            BootActionView::WaitForService { port: 11434, attempts: 30 },
        ),
        s.stage == Stage::ChooseModel ==> boot_next(s, e) == (
            BootView { stage: Stage::AfterModel, ..s },
            BootActionView::ChooseModel,
        ),
        forall|m: Seq<char>|
            s.stage == Stage::AfterModel && e == BootEventView::Model(m) ==> #[trigger] boot_next(
                s,
                e,
            ) == (
                BootView { stage: Stage::PullModel, model: m, ..s },
                BootActionView::Show(StatusChangeView::ModelDownload(m)),
            ),
        s.stage == Stage::PullModel ==> boot_next(s, e) == (
            BootView { stage: Stage::AfterPull, ..s },
            BootActionView::Pull(s.model),
        ),
{
}

/// Settling whether the user may enter: if the status already allows it,
/// the preparation ends at once. Otherwise the backend is probed; a ready
/// backend is shown ready, and then the status is asked again; a silent one
/// leads to asking the status again at once.
pub proof fn settling_sequence(s: BootView, e: BootEventView)
    ensures
        s.stage == Stage::AfterQuery1 && e == BootEventView::Answer(true) ==> boot_next(s, e)
            == (
            BootView { stage: Stage::Final, ..s },
            BootActionView::Show(StatusChangeView::OllamaFinished(s.port)),
        ),
        s.stage == Stage::AfterQuery1 && e != BootEventView::Answer(true) ==> boot_next(s, e)
            == (BootView { stage: Stage::AfterProbe1, ..s }, BootActionView::ProbeBackend),
        s.stage == Stage::AfterProbe1 && e == BootEventView::Answer(true) ==> boot_next(s, e)
            == (
            BootView { stage: Stage::Query2, ..s },
            BootActionView::Show(StatusChangeView::BackendReady(s.port)),
        ),
        s.stage == Stage::AfterProbe1 && e != BootEventView::Answer(true) ==> boot_next(s, e)
            == (BootView { stage: Stage::AfterQuery2, ..s }, BootActionView::QueryCanContinue),
{
}

/// The second round of settling: ask again whether the user may enter; if
/// not, await the backend with 120 probes and probe it once more, showing
/// it ready if it answers; the last change is always the end of the
/// preparation for the backend's port.
pub proof fn settling_second_round(s: BootView, e: BootEventView)
    ensures
        s.stage == Stage::Query2 ==> boot_next(s, e) == (
            BootView { stage: Stage::AfterQuery2, ..s },
            BootActionView::QueryCanContinue,
        ),
        s.stage == Stage::AfterQuery2 && e == BootEventView::Answer(true) ==> boot_next(s, e)
            == (
            BootView { stage: Stage::Final, ..s },
            BootActionView::Show(StatusChangeView::OllamaFinished(s.port)),
        ),
        s.stage == Stage::AfterQuery2 && e != BootEventView::Answer(true) ==> boot_next(s, e)
            == (
            BootView { stage: Stage::Probe2, ..s },
            BootActionView::WaitForBackend { attempts: 120 },
        ),
        s.stage == Stage::Probe2 ==> boot_next(s, e) == (
            BootView { stage: Stage::AfterProbe2, ..s },
            BootActionView::ProbeBackend,
        ),
        s.stage == Stage::AfterProbe2 && e == BootEventView::Answer(true) ==> boot_next(s, e)
            == (
            BootView { stage: Stage::LastStatus, ..s },
            BootActionView::Show(StatusChangeView::BackendReady(s.port)),
        ),
        s.stage == Stage::AfterProbe2 && e != BootEventView::Answer(true) ==> boot_next(s, e)
            == (
            BootView { stage: Stage::Final, ..s },
            BootActionView::Show(StatusChangeView::OllamaFinished(s.port)),
        ),
        s.stage == Stage::LastStatus ==> boot_next(s, e) == (
            BootView { stage: Stage::Final, ..s },
            BootActionView::Show(StatusChangeView::OllamaFinished(s.port)),
        ),
{
}

impl Bootstrap {
    /// A preparation that has not begun, for the product named `product`,
    /// with these extra components and the backend on `port`.
    pub fn new(product: String, extras: Vec<String>, port: u16) -> (b: Bootstrap)
        ensures
            b@.extras.len() <= usize::MAX,
            b@ == (BootView {
                stage: Stage::Start,
                product: product@,
                model: Seq::empty(),
                extras: extras@.map_values(|s: String| s@),
                port,
            }),
    {
        let count: usize = extras.len();
        assert(extras@.map_values(|s: String| s@).len() == count);
        Bootstrap { stage: Stage::Start, product, model: String::new(), extras, port }
    }

    /// Where the preparation stands.
    pub fn stage(&self) -> (st: Stage)
        ensures
            st == self@.stage,
    {
        self.stage
    }

    fn enter_finish(&mut self) -> (a: BootAction)
        ensures
            (final(self)@, a@) == enter_finish(old(self)@),
    {
        self.stage = Stage::AfterQuery1;
        BootAction::QueryCanContinue
    }

    fn enter_extra(&mut self, i: usize) -> (a: BootAction)
        ensures
            (final(self)@, a@) == enter_extra(old(self)@, i as int),
    {
        if i < self.extras.len() {
            self.stage = Stage::PullExtra(i);
            BootAction::Show(StatusChange::ComponentDownload(self.extras[i].clone()))
        } else {
            self.enter_finish()
        }
    }

    /// Takes in the answer to the last action (`Ack` at the start) and
    /// gives the next action.
    pub fn step(&mut self, event: BootEvent) -> (a: BootAction)
        ensures
            final(self)@.extras.len() <= usize::MAX,
            (final(self)@, a@) == boot_next(old(self)@, event@),
    {
        let count: usize = self.extras.len();
        assert(self@.extras.len() == count);
        let yes: bool = match &event {
            BootEvent::Answer(b) => *b,
            _ => false,
        };
        match self.stage {
            Stage::Start => {
                self.stage = Stage::LogStart;
                BootAction::Show(StatusChange::OllamaCheck)
            },
            Stage::LogStart => {
                self.stage = Stage::CheckInstalled;
                let mut line = String::new();
                line.append("== ");
                line.append(self.product.as_str());
                line.append(": preparando Ollama ==");
                BootAction::Log(line)
            },
            Stage::CheckInstalled => {
                self.stage = Stage::AfterInstalled;
                BootAction::CheckInstalled
            },
            Stage::AfterInstalled => {
                if yes {
                    self.stage = Stage::AfterService;
                    BootAction::CheckService { port: 11434 }
                } else {
                    self.stage = Stage::Missing;
                    BootAction::Log(String::from_str("Ollama no instalado."))
                }
            },
            Stage::Missing => {
                self.stage = Stage::BeginFinish;
                BootAction::Show(StatusChange::OllamaMissing)
            },
            Stage::AfterService => {
                if yes {
                    self.stage = Stage::AfterModel;
                    BootAction::ChooseModel
                } else {
                    self.stage = Stage::SpawnService;
                    BootAction::Show(StatusChange::StartingService)
                }
            },
            Stage::SpawnService => {
                self.stage = Stage::WaitService;
                BootAction::StartService
            },
            Stage::WaitService => {
                self.stage = Stage::ChooseModel;
                BootAction::WaitForService { port: 11434, attempts: 30 }
            },
            Stage::ChooseModel => {
                self.stage = Stage::AfterModel;
                BootAction::ChooseModel
            },
            Stage::AfterModel => {
                let m: String = match event {
                    BootEvent::Model(m) => m,
                    _ => String::from_str("llama3.2:3b"),
                };
                self.stage = Stage::PullModel;
                self.model = m.clone();
                BootAction::Show(StatusChange::ModelDownload(m))
            },
            Stage::PullModel => {
                self.stage = Stage::AfterPull;
                BootAction::Pull(self.model.clone())
            },
            Stage::AfterPull => {
                if yes {
                    self.stage = Stage::NextExtra(0);
                    BootAction::Show(StatusChange::ModelReady(self.model.clone()))
                } else {
                    self.enter_extra(0)
                }
            },
            Stage::NextExtra(i) => self.enter_extra(i),
            Stage::PullExtra(i) => {
                if i < self.extras.len() {
                    self.stage = Stage::AfterExtra(i);
                    BootAction::Pull(self.extras[i].clone())
                } else {
                    self.enter_finish()
                }
            },
            Stage::AfterExtra(i) => {
                if i < self.extras.len() {
                    if yes {
                        self.stage = Stage::NextExtra(i + 1);
                        BootAction::Show(StatusChange::ComponentReady(self.extras[i].clone()))
                    } else {
                        self.enter_extra(i + 1)
                    }
                } else {
                    self.enter_finish()
                }
            },
            Stage::BeginFinish => self.enter_finish(),
            Stage::AfterQuery1 => {
                if yes {
                    self.stage = Stage::Final;
                    BootAction::Show(StatusChange::OllamaFinished(self.port))
                } else {
                    self.stage = Stage::AfterProbe1;
                    BootAction::ProbeBackend
                }
            },
            Stage::AfterProbe1 => {
                if yes {
                    self.stage = Stage::Query2;
                    BootAction::Show(StatusChange::BackendReady(self.port))
                } else {
                    self.stage = Stage::AfterQuery2;
                    BootAction::QueryCanContinue
                }
            },
            Stage::Query2 => {
                self.stage = Stage::AfterQuery2;
                BootAction::QueryCanContinue
            },
            Stage::AfterQuery2 => {
                if yes {
                    self.stage = Stage::Final;
                    BootAction::Show(StatusChange::OllamaFinished(self.port))
                } else {
                    self.stage = Stage::Probe2;
                    BootAction::WaitForBackend { attempts: 120 }
                }
            },
            Stage::Probe2 => {
                self.stage = Stage::AfterProbe2;
                BootAction::ProbeBackend
            },
            Stage::AfterProbe2 => {
                if yes {
                    self.stage = Stage::LastStatus;
                    BootAction::Show(StatusChange::BackendReady(self.port))
                } else {
                    self.stage = Stage::Final;
                    BootAction::Show(StatusChange::OllamaFinished(self.port))
                }
            },
            Stage::LastStatus => {
                self.stage = Stage::Final;
                BootAction::Show(StatusChange::OllamaFinished(self.port))
            },
            Stage::Final => {
                self.stage = Stage::Done;
                BootAction::Finished
            },
            Stage::Done => BootAction::Finished,
        }
    }
}

} // verus!
