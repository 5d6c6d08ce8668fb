//! Downloading a model through the AI engine: the request body, the reading
//! of each progress line that the engine streams back, and the verdict on
//! the whole download.

use vstd::prelude::*;
use crate::text::{blank, decimal, is_blank, push_decimal, same_text};

verus! {

/// The body of the pull request for `model`.
pub open spec fn pull_body(model: Seq<char>) -> Seq<char> {
    "{\"name\":\""@ + model + "\"}"@
}

/// The JSON body that asks the engine to pull `model`; the name goes in as it is.
pub fn pull_request_body(model: &str) -> (body: String)
    ensures
        body@ == pull_body(model@),
{
    let mut body = String::new();
    body.append("{\"name\":\"");
    body.append(model);
    body.append("\"}");
    body
}

/// The address to which pull requests go: the engine's service on its port.
pub open spec fn pull_url() -> Seq<char> {
    "http://127.0.0.1:11434/api/pull"@
}

/// The address of the engine's pull endpoint.
pub fn engine_pull_url() -> (url: &'static str)
    ensures
        url@ == pull_url(),
{
    "http://127.0.0.1:11434/api/pull"
}

/// What the download logic reads of one progress line of the engine.
pub struct PullLine {
    /// Whether the line holds an `error` member.
    pub error: bool,
    /// The `status` member, when it is a string.
    pub status: Option<String>,
    /// The `total` member, when it is an integer that fits in 64 bits.
    pub total: Option<u64>,
    /// The `completed` member, when it is an integer that fits in 64 bits.
    pub completed: Option<u64>,
}

/// The model of a [`PullLine`].
pub struct PullLineView {
    pub error: bool,
    pub status: Option<Seq<char>>,
    pub total: Option<u64>,
    pub completed: Option<u64>,
}

impl View for PullLine {
    type V = PullLineView;

    open spec fn view(&self) -> PullLineView {
        PullLineView {
            error: self.error,
            status: match self.status {
                Some(s) => Some(s@),
                None => None,
            },
            total: self.total,
            completed: self.completed,
        }
    }
}

/// What a line of text gives when read as a JSON value: `None` when it is
/// not JSON, else the members that the download logic reads.
pub uninterp spec fn pull_line_json(line: Seq<char>) -> Option<PullLineView>;

/// Reads one line of the engine's answer with `serde_json::from_str` into a
/// `serde_json::Value`, then takes its members with `Value::get`,
/// `Value::as_str` and `Value::as_u64`. The contract claims only that the
/// result is a function of the line's characters, named `pull_line_json`;
/// what JSON serde_json accepts is not stated.
#[verifier::external_body]
fn parse_pull_line(line: &str) -> (parsed: Option<PullLine>)
    ensures
        match parsed {
            Some(p) => pull_line_json(line@) == Some(p@),
            None => pull_line_json(line@) is None,
        },
{
    let v: serde_json::Value = match serde_json::from_str(line) {
        Ok(v) => v,
        Err(_) => return None,
    };
    Some(PullLine {
        error: v.get("error").is_some(),
        status: v.get("status").and_then(serde_json::Value::as_str).map(String::from),
        total: v.get("total").and_then(serde_json::Value::as_u64),
        completed: v.get("completed").and_then(serde_json::Value::as_u64),
    })
}

/// The progress in percent that a line reports: the completed part of the
/// total, capped at the total and rounded down; -1 when the line does not
/// give both numbers or the total is zero.
pub open spec fn percent_of(total: Option<u64>, completed: Option<u64>) -> int {
    match (total, completed) {
        (Some(t), Some(c)) => if t > 0 {
            (if c < t { c as int } else { t as int }) * 100 / (t as int)
        } else {
            -1
        },
        _ => -1,
    }
}

/// Computes the progress in percent that a line reports.
pub fn pull_percent(total: Option<u64>, completed: Option<u64>) -> (pct: i32)
    ensures
        pct as int == percent_of(total, completed),
        -1 <= pct <= 100,
{
    match (total, completed) {
        (Some(t), Some(c)) => {
            if t > 0 {
                let done: u64 = if c < t { c } else { t };
                let scaled: u128 = (done as u128) * 100;
                let q: u128 = scaled / (t as u128);
                assert(q <= 100) by (nonlinear_arith)
                    requires
                        q == scaled / (t as u128),
                        scaled == (done as u128) * 100,
                        done <= t,
                        t > 0,
                ;
                q as i32
            } else {
                -1
            }
        },
        _ => -1,
    }
}

/// The status text of a line: its `status` member, or nothing.
pub open spec fn status_text(status: Option<Seq<char>>) -> Seq<char> {
    match status {
        Some(s) => s,
        None => Seq::empty(),
    }
}

/// The message shown for a progress line of the download of `model`.
pub open spec fn progress_message(model: Seq<char>, pct: int, status: Seq<char>) -> Seq<char> {
    if pct >= 0 {
        "Descargando el modelo "@ + model + " - "@ + decimal(pct as nat) + "%"@
    } else {
        "Preparando el modelo "@ + model + " ("@ + status + ")..."@
    }
}

/// What one line of the engine's answer means for the download.
pub enum PullLineOutcome {
    /// Nothing: the line is blank or not JSON.
    Skip,
    /// The engine reported an error: the download has failed.
    Abort,
    /// A progress report; `success` when the engine says the download is complete.
    Report { message: String, percent: i32, success: bool },
}

/// The model of a [`PullLineOutcome`].
pub enum PullOutcome {
    Skip,
    Abort,
    Report { message: Seq<char>, percent: int, success: bool },
}

impl View for PullLineOutcome {
    type V = PullOutcome;

    open spec fn view(&self) -> PullOutcome {
        match self {
            PullLineOutcome::Skip => PullOutcome::Skip,
            PullLineOutcome::Abort => PullOutcome::Abort,
            PullLineOutcome::Report { message, percent, success } => PullOutcome::Report {
                message: message@,
                percent: *percent as int,
                success: *success,
            },
        }
    }
}

/// What a read line means, given what JSON made of it.
pub open spec fn record_outcome(model: Seq<char>, record: Option<PullLineView>) -> PullOutcome {
    match record {
        None => PullOutcome::Skip,
        Some(r) => if r.error {
            PullOutcome::Abort
        } else {
            PullOutcome::Report {
                message: progress_message(
                    model,
                    percent_of(r.total, r.completed),
                    status_text(r.status),
                ),
                percent: percent_of(r.total, r.completed),
                success: status_text(r.status) == "success"@,
            }
        },
    }
}

/// What a line of text means for the download of `model`.
pub open spec fn line_outcome(model: Seq<char>, line: Seq<char>) -> PullOutcome {
    if is_blank(line) {
        PullOutcome::Skip
    } else {
        record_outcome(model, pull_line_json(line))
    }
}

/// Decides what a line that was read as JSON means for the download of `model`.
pub fn pull_record_outcome(model: &str, record: &Option<PullLine>) -> (outcome: PullLineOutcome)
    ensures
        outcome@ == record_outcome(
            model@,
            match record {
                Some(r) => Some(r@),
                None => None,
            },
        ),
{
    match record {
        None => PullLineOutcome::Skip,
        Some(r) => {
            if r.error {
                PullLineOutcome::Abort
            } else {
                let pct: i32 = pull_percent(r.total, r.completed);
                let status: &str = match &r.status {
                    Some(s) => s.as_str(),
                    None => "",
                };
                proof {
                    reveal_strlit("");
                    assert(status@ =~= status_text(r@.status));
                }
                let mut message = String::new();
                if pct >= 0 {
                    message.append("Descargando el modelo ");
                    message.append(model);
                    message.append(" - ");
                    push_decimal(&mut message, pct as u64);
                    message.append("%");
                } else {
                    message.append("Preparando el modelo ");
                    message.append(model);
                    message.append(" (");
                    message.append(status);
                    message.append(")...");
                }
                let success: bool = same_text(status, "success");
                assert(message@ == progress_message(model@, pct as int, status@));
                PullLineOutcome::Report { message, percent: pct, success }
            }
        },
    }
}

/// Decides what a line of the engine's answer means for the download of `model`.
pub fn interpret_pull_line(model: &str, line: &str) -> (outcome: PullLineOutcome)
    ensures
        outcome@ == line_outcome(model@, line@),
{
    if blank(line) {
        PullLineOutcome::Skip
    } else {
        let record = parse_pull_line(line);
        pull_record_outcome(model, &record)
    }
}

/// The state of a download: whether the engine has said it is complete,
/// and whether the reading of its answer is over.
pub struct PullTracker {
    succeeded: bool,
    stopped: bool,
}

/// The model of a [`PullTracker`].
pub struct PullTrackerView {
    pub succeeded: bool,
    pub stopped: bool,
}

impl View for PullTracker {
    type V = PullTrackerView;

    closed spec fn view(&self) -> PullTrackerView {
        PullTrackerView { succeeded: self.succeeded, stopped: self.stopped }
    }
}

/// What to do after a line of the engine's answer.
pub enum PullStep {
    /// Stop reading the answer.
    Stop,
    /// Go on with the next line.
    Skip,
    /// Show (and log) this progress, then go on with the next line.
    Report { message: String, percent: i32 },
}

/// The model of a [`PullStep`].
pub enum PullStepView {
    Stop,
    Skip,
    Report { message: Seq<char>, percent: int },
}

impl View for PullStep {
    type V = PullStepView;

    open spec fn view(&self) -> PullStepView {
        match self {
            PullStep::Stop => PullStepView::Stop,
            PullStep::Skip => PullStepView::Skip,
            PullStep::Report { message, percent } => PullStepView::Report {
                message: message@,
                percent: *percent as int,
            },
        }
    }
}

/// One step of a download: `event` is the meaning of the line just read, or
/// `None` when the answer could not be read further.
pub open spec fn tracker_next(t: PullTrackerView, event: Option<PullOutcome>) -> (
    PullTrackerView,
    PullStepView,
) {
    if t.stopped {
        (t, PullStepView::Stop)
    } else {
        match event {
            None => (PullTrackerView { stopped: true, ..t }, PullStepView::Stop),
            Some(PullOutcome::Skip) => (t, PullStepView::Skip),
            Some(PullOutcome::Abort) => (
                PullTrackerView { succeeded: false, stopped: true },
                PullStepView::Stop,
            ),
            Some(PullOutcome::Report { message, percent, success }) => (
                PullTrackerView { succeeded: t.succeeded || success, ..t },
                PullStepView::Report { message, percent },
            ),
        }
    }
}

/// The meaning of a line, or `None` when it could not be read.
pub open spec fn line_event(model: Seq<char>, line: Option<Seq<char>>) -> Option<PullOutcome> {
    match line {
        Some(l) => Some(line_outcome(model, l)),
        None => None,
    }
}

impl PullTracker {
    /// A download whose answer has not been read yet.
    pub fn new() -> (t: PullTracker)
        ensures
            t@ == (PullTrackerView { succeeded: false, stopped: false }),
    {
        PullTracker { succeeded: false, stopped: false }
    }

    /// Takes in the next line of the answer to the download of `model`
    /// (`None` when it could not be read) and tells what to do.
    pub fn on_line(&mut self, model: &str, line: Option<&str>) -> (step: PullStep)
        ensures
            (final(self)@, step@) == tracker_next(
                old(self)@,
                line_event(
                    model@,
                    match line {
                        Some(l) => Some(l@),
                        None => None,
                    },
                ),
            ),
    {
        if self.stopped {
            return PullStep::Stop;
        }
        match line {
            None => {
                self.stopped = true;
                PullStep::Stop
            },
            Some(l) => match interpret_pull_line(model, l) {
                PullLineOutcome::Skip => PullStep::Skip,
                PullLineOutcome::Abort => {
                    self.succeeded = false;
                    self.stopped = true;
                    PullStep::Stop
                },
                PullLineOutcome::Report { message, percent, success } => {
                    self.succeeded = self.succeeded || success;
                    PullStep::Report { message, percent }
                },
            },
        }
    }

    /// Whether the download has succeeded.
    pub fn succeeded(&self) -> (b: bool)
        ensures
            b == self@.succeeded,
    {
        self.succeeded
    }

    /// Whether the reading of the answer is over.
    pub fn stopped(&self) -> (b: bool)
        ensures
            b == self@.stopped,
    {
        self.stopped
    }
}

/// Every line of the engine's answer that is JSON without an `error` member
/// is reported, whether or not it carries a percentage: the step shows the
/// message "Descargando el modelo M - P%" with percentage P when the line
/// gives a positive `total` and a `completed` (P is the completed part,
/// capped at the total, in whole percent), else "Preparando el modelo M
/// (S)..." with percentage -1, S being the line's `status` (or nothing). The
/// download counts as successful from the first line whose status is
/// "success" on, and the reading goes on.
pub proof fn progress_lines_are_reported(
    t: PullTrackerView,
    model: Seq<char>,
    line: Seq<char>,
    r: PullLineView,
)
    requires
        !t.stopped,
        !is_blank(line),
        pull_line_json(line) == Some(r),
        !r.error,
    ensures
        ({
            let pct: int = match (r.total, r.completed) {
                (Some(total), Some(done)) => if total > 0 {
                    (if done < total { done as int } else { total as int }) * 100 / (total as int)
                } else {
                    -1
                },
                _ => -1,
            };
            let status: Seq<char> = match r.status {
                Some(st) => st,
                None => Seq::empty(),
            };
            &&& tracker_next(t, line_event(model, Some(line))) == (
                PullTrackerView { succeeded: t.succeeded || status == "success"@, stopped: false },
                PullStepView::Report {
                    message: if pct >= 0 {
                        "Descargando el modelo "@ + model + " - "@ + decimal(pct as nat) + "%"@
                    } else {
                        "Preparando el modelo "@ + model + " ("@ + status + ")..."@
                    },
                    percent: pct,
                },
            )
            &&& -1 <= pct <= 100
        }),
{
    let pct: int = percent_of(r.total, r.completed);
    match (r.total, r.completed) {
        (Some(total), Some(done)) => if total > 0 {
            let m: int = if done < total { done as int } else { total as int };
            assert(m * 100 / (total as int) <= 100) by (nonlinear_arith)
                requires
                    0 <= m <= total,
                    total > 0,
            ;
            assert(m * 100 / (total as int) >= 0) by (nonlinear_arith)
                requires
                    0 <= m,
                    total > 0,
            ;
        },
        _ => {},
    }
}

/// A line on which the engine reports an error ends the reading and the
/// download fails, even after a success; a blank line, or one that is not
/// JSON, changes nothing and the reading goes on; a line that cannot be
/// read ends the reading and keeps the verdict so far.
pub proof fn other_lines(t: PullTrackerView, model: Seq<char>, line: Seq<char>)
    requires
        !t.stopped,
    ensures
        !is_blank(line) && (pull_line_json(line) matches Some(r) && r.error) ==> tracker_next(
            t,
            line_event(model, Some(line)),
        ) == (PullTrackerView { succeeded: false, stopped: true }, PullStepView::Stop),
        is_blank(line) || pull_line_json(line) is None ==> tracker_next(
            t,
            line_event(model, Some(line)),
        ) == (t, PullStepView::Skip),
        tracker_next(t, line_event(model, None)) == (
            PullTrackerView { succeeded: t.succeeded, stopped: true },
            PullStepView::Stop,
        ),
{
}

/// The state after a run of events.
pub open spec fn tracker_run(t: PullTrackerView, events: Seq<Option<PullOutcome>>) -> PullTrackerView
    decreases events.len(),
{
    if events.len() == 0 {
        t
    } else {
        tracker_run(tracker_next(t, events[0]).0, events.drop_first())
    }
}

/// Whether an event ends the reading of the answer.
pub open spec fn halts(e: Option<PullOutcome>) -> bool {
    e is None || e == Some(PullOutcome::Abort)
}

/// The position of the first event that ends the reading (the length of the
/// run when none does).
pub open spec fn stop_index(events: Seq<Option<PullOutcome>>) -> nat
    decreases events.len(),
{
    if events.len() == 0 || halts(events[0]) {
        0
    } else {
        1 + stop_index(events.drop_first())
    }
}

/// Whether the reading ends on an error reported by the engine.
pub open spec fn ends_in_error(events: Seq<Option<PullOutcome>>) -> bool {
    stop_index(events) < events.len() && events[stop_index(events) as int] == Some(
        PullOutcome::Abort,
    )
}

/// Whether an event reports that the download is complete.
pub open spec fn reports_success(e: Option<PullOutcome>) -> bool {
    e matches Some(PullOutcome::Report { success, .. }) && success
}

proof fn lemma_stop_index_bound(events: Seq<Option<PullOutcome>>)
    ensures
        stop_index(events) <= events.len(),
    decreases events.len(),
{
    if events.len() > 0 && !halts(events[0]) {
        lemma_stop_index_bound(events.drop_first());
    }
}

proof fn lemma_stopped_run(t: PullTrackerView, events: Seq<Option<PullOutcome>>)
    requires
        t.stopped,
    ensures
        tracker_run(t, events) == t,
    decreases events.len(),
{
    if events.len() > 0 {
        lemma_stopped_run(t, events.drop_first());
    }
}

proof fn lemma_run_verdict(t: PullTrackerView, events: Seq<Option<PullOutcome>>)
    requires
        !t.stopped,
    ensures
        tracker_run(t, events).succeeded == (!ends_in_error(events) && (t.succeeded || exists|i: int|
            0 <= i < stop_index(events) && reports_success(#[trigger] events[i]))),
    decreases events.len(),
{
    if events.len() == 0 {
    } else {
        let rest = events.drop_first();
        let (t1, _) = tracker_next(t, events[0]);
        if halts(events[0]) {
            lemma_stopped_run(t1, rest);
        } else {
            lemma_run_verdict(t1, rest);
            lemma_stop_index_bound(rest);
            assert(stop_index(events) == 1 + stop_index(rest));
            assert forall|i: int| 0 <= i < rest.len() implies #[trigger] rest[i] == events[i + 1] by {}
            if exists|i: int| 0 <= i < stop_index(rest) && reports_success(#[trigger] rest[i]) {
                let i = choose|i: int| 0 <= i < stop_index(rest) && reports_success(#[trigger] rest[i]);
                assert(reports_success(events[i + 1]));
            }
            if exists|i: int| 0 <= i < stop_index(events) && reports_success(#[trigger] events[i]) {
                let i = choose|i: int| 0 <= i < stop_index(events) && reports_success(#[trigger] events[i]);
                if i > 0 {
                    assert(reports_success(rest[i - 1]));
                }
            }
        }
    }
}

/// A download succeeds exactly when the engine's answer is not cut short by
/// an error that the engine reports, and some line before the reading ends
/// says that the download is complete.
pub proof fn pull_verdict_law(events: Seq<Option<PullOutcome>>)
    ensures
        tracker_run(PullTrackerView { succeeded: false, stopped: false }, events).succeeded == (
        !ends_in_error(events) && exists|i: int|
            0 <= i < stop_index(events) && reports_success(#[trigger] events[i])),
{
    lemma_run_verdict(PullTrackerView { succeeded: false, stopped: false }, events);
}

} // verus!
