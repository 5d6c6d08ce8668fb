//! Start-up logic of the SmartCaja desktop shell: the splash-screen status,
//! the choice of the backend port, the readiness probe of the backend, the
//! choice of the local AI model and the bootstrap of the Ollama engine.
//!
//! Every decision lives here as a verified function; the program around it
//! performs the I/O that each decision asks for.

pub mod text;
pub mod probe;
pub mod status;
pub mod pull;
pub mod model;
pub mod port;
pub mod poll;
pub mod paths;
pub mod bootstrap;
