//! Voice and text assist pipeline for a home automation hub.
//!
//! An utterance goes through intent recognition, an optional language-model
//! agent (the *runner*) for what the recognizer does not match, and the
//! handler registered for the intent.  Everything that waits (recognizing,
//! talking to the agent process, acting on the home) happens outside this
//! crate; what the crate holds is every decision taken in between, each
//! written as a function from the event that has just happened to the action
//! that has to be taken next.
//!
//! - [`intent`]: intents and the responses to them
//! - [`recognizer`]: what a recognizer may fail with
//! - [`handler`]: the names by which handlers are found, the built-in handlers
//! - [`runner`]: the runner interface, its options and replies, `NoopRunner`
//! - [`subprocess`]: the runner that keeps an agent process
//! - [`pipeline`]: the pipeline itself
//! - [`pipeline_laws`], [`subprocess_laws`]: what holds of them, event by event
//! - [`json`]: request payloads as JSON text
//! - [`text`]: decimal numbers, whitespace trimming

pub mod handler;
pub mod intent;
pub mod json;
pub mod pipeline;
pub mod pipeline_laws;
pub mod recognizer;
pub mod runner;
pub mod subprocess;
pub mod subprocess_laws;
pub mod text;

pub use handler::{BuiltinHandler, Handler, HandlerError, IntentHandler};
pub use intent::{Card, Intent, IntentName, IntentResponse, Slot};
pub use pipeline::{
    default_pipeline, AssistPipeline, ProcessAction, ProcessEvent, RunnerFallback,
};
pub use recognizer::RecognizerError;
pub use runner::{AssistError, NoopRunner, RufloResponse, RufloRunner, RufloRunnerOpts};
pub use subprocess::SubprocessRufloRunner;
