//! Addresses of the local backend and the decision procedure of its
//! readiness probe.

use vstd::prelude::*;
use crate::text::{decimal, push_decimal};

verus! {

/// The address of the web application served by the backend on `port`.
pub open spec fn app_url(port: u16) -> Seq<char> {
    "http://127.0.0.1:"@ + decimal(port as nat) + "/"@
}

/// The address of the health endpoint of the backend on `port`.
pub open spec fn health_url(port: u16) -> Seq<char> {
    "http://127.0.0.1:"@ + decimal(port as nat) + "/api/health"@
}

/// The web application's address: the backend serves index and assets at `/`.
pub fn backend_app_url(port: u16) -> (url: String)
    ensures
        url@ == app_url(port),
{
    let mut url = String::new();
    url.append("http://127.0.0.1:");
    push_decimal(&mut url, port as u64);
    url.append("/");
    url
}

/// The address of the backend's health endpoint.
pub fn backend_health_url(port: u16) -> (url: String)
    ensures
        url@ == health_url(port),
{
    let mut url = String::new();
    url.append("http://127.0.0.1:");
    push_decimal(&mut url, port as u64);
    url.append("/api/health");
    url
}

/// How many probes the watch for the backend makes before it gives up (with
/// half a second between probes: half an hour).
pub const BACKEND_WATCH_ATTEMPTS: u32 = 3600;

/// What the user is told when a retry finds the backend still silent.
pub open spec fn retry_refusal() -> Seq<char> {
    "El servidor aun no responde. Espere unos segundos o cierre la app por completo y vuelva a abrirla."@
}

/// The reply to the user's request to enter again: the web application's
/// address when the backend was just found ready, else a refusal.
pub fn retry_backend_reply(port: u16, ready: bool) -> (reply: Result<String, String>)
    ensures
        ready ==> (reply matches Ok(url) && url@ == app_url(port)),
        !ready ==> (reply matches Err(msg) && msg@ == retry_refusal()),
{
    if ready {
        Ok(backend_app_url(port))
    } else {
        Err(
            String::from_str(
                "El servidor aun no responde. Espere unos segundos o cierre la app por completo y vuelva a abrirla.",
            ),
        )
    }
}

/// An HTTP status code that shows the backend is serving: a success, a
/// not-modified answer, or a permanent or temporary redirect.
pub open spec fn accepted_status(code: u16) -> bool {
    code == 200 || code == 304 || code == 307 || code == 308
}

/// The answer to a GET request: `None` when the request failed (no
/// connection, or an error status), else the status code received.
pub open spec fn answer_ok(answer: Option<u16>) -> bool {
    match answer {
        Some(code) => accepted_status(code),
        None => false,
    }
}

/// Whether the answer to one GET request shows a serving backend.
pub fn http_answer_ok(answer: Option<u16>) -> (ok: bool)
    ensures
        ok == answer_ok(answer),
{
    match answer {
        Some(code) => code == 200 || code == 304 || code == 307 || code == 308,
        None => false,
    }
}

/// What the readiness probe asks for next.
pub enum ProbeAction {
    /// Send a GET request to this address and report its answer.
    Fetch(String),
    /// The probe is over: whether the backend is ready.
    Decide(bool),
}

/// The model of a [`ProbeAction`].
pub enum ProbeStep {
    Fetch(Seq<char>),
    Decide(bool),
}

impl View for ProbeAction {
    type V = ProbeStep;

    open spec fn view(&self) -> ProbeStep {
        match self {
            ProbeAction::Fetch(url) => ProbeStep::Fetch(url@),
            ProbeAction::Decide(b) => ProbeStep::Decide(*b),
        }
    }
}

/// The readiness probe: first the health endpoint, and only when it does not
/// answer well, the application's root address. `answers` holds the answers
/// received so far, in the order in which they were asked for.
pub open spec fn probe_step(port: u16, answers: Seq<Option<u16>>) -> ProbeStep {
    if answers.len() == 0 {
        ProbeStep::Fetch(health_url(port))
    } else if answer_ok(answers[0]) {
        ProbeStep::Decide(true)
    } else if answers.len() == 1 {
        ProbeStep::Fetch(app_url(port))
    } else {
        ProbeStep::Decide(answer_ok(answers[1]))
    }
}

/// Decides the next move of the readiness probe of the backend on `port`,
/// given the answers to the requests made so far.
pub fn probe_backend_ready(port: u16, answers: &Vec<Option<u16>>) -> (action: ProbeAction)
    ensures
        action@ == probe_step(port, answers@),
{
    if answers.len() == 0 {
        ProbeAction::Fetch(backend_health_url(port))
    } else if http_answer_ok(answers[0]) {
        ProbeAction::Decide(true)
    } else if answers.len() == 1 {
        ProbeAction::Fetch(backend_app_url(port))
    } else {
        ProbeAction::Decide(http_answer_ok(answers[1]))
    }
}

/// The probe asks for the health endpoint first; the backend is ready at
/// once when it answers well, and the root address is then never asked for.
/// Otherwise the probe asks for the root address, and the backend is ready
/// exactly when that answers well: ready means that one of the two answered
/// with an accepted status.
pub proof fn probe_law(port: u16, health: Option<u16>, root: Option<u16>)
    ensures
        probe_step(port, seq![]) == ProbeStep::Fetch(
            "http://127.0.0.1:"@ + decimal(port as nat) + "/api/health"@,
        ),
        !answer_ok(health) ==> probe_step(port, seq![health]) == ProbeStep::Fetch(
            "http://127.0.0.1:"@ + decimal(port as nat) + "/"@,
        ),
        answer_ok(health) == (health == Some(200u16) || health == Some(304u16) || health == Some(
            307u16,
        ) || health == Some(308u16)),
        probe_step(port, seq![]) == ProbeStep::Fetch(health_url(port)),
        answer_ok(health) ==> probe_step(port, seq![health]) == ProbeStep::Decide(true),
        !answer_ok(health) ==> probe_step(port, seq![health]) == ProbeStep::Fetch(app_url(port)),
        !answer_ok(health) ==> probe_step(port, seq![health, root]) == ProbeStep::Decide(
            answer_ok(health) || answer_ok(root),
        ),
{
}

} // verus!
