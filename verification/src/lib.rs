//! Core of a modal chat client: a session transcript guarded by a
//! single-permit busy flag, a modal (Normal/Insert) interaction state
//! machine with a scrollable message log, and a FIFO request dispatcher
//! that decouples the render loop from slow network calls.
//!
//! Network transport, markdown rendering and configuration I/O are left
//! to the surrounding application; this crate holds the decision logic
//! and its proofs.

pub mod client;
pub mod config;
pub mod dispatcher;
pub mod events;
pub mod messages;
pub mod openai;
pub mod scroll;
pub mod session;
pub mod text;

pub use config::{default_models, get_completions_url, AppConfig};
pub use messages::{ChatMessage, Role};
pub use session::{BusyState, EditMode, OutboundRequest, Session};
