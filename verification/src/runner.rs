//! The runner: a language-model agent that is asked about utterances which
//! the recognizer does not match.

use std::collections::HashMap;

use serde_json::Value;
use vstd::prelude::*;
use vstd::std_specs::convert::{FromSpec, FromSpecImpl};

use crate::handler::HandlerError;
use crate::intent::Intent;
use crate::recognizer::RecognizerError;
use crate::text::joined;

verus! {

/// What a runner or the pipeline may fail with.
#[derive(Debug)]
pub enum AssistError {
    /// A request was made of a runner that is not running.
    NotStarted,
    /// Talking to the agent failed.
    Io(String),
    /// A request or a reply is not the JSON that it should be.
    ParseError(String),
    /// The recognizer failed.
    Recognizer(RecognizerError),
    /// The handler failed.
    Handler(HandlerError),
    /// No handler is registered for the named intent.
    NoHandler(String),
}

impl AssistError {
    /// The error in words.
    pub open spec fn message_text(self) -> Seq<char> {
        match self {
            AssistError::NotStarted => "runner not started"@,
            AssistError::Io(m) => "runner IO error: "@ + m@,
            AssistError::ParseError(m) => "runner response parse error: "@ + m@,
            AssistError::Recognizer(e) => "recognizer error: "@ + e.message@,
            AssistError::Handler(e) => "handler error: "@ + e.message@,
            AssistError::NoHandler(name) => "no handler registered for intent: "@ + name@,
        }
    }

    /// The error in words.
    pub fn message(&self) -> (r: String)
        ensures
            r@ == self.message_text(),
    {
        match self {
            AssistError::NotStarted => "runner not started".to_owned(),
            AssistError::Io(m) => joined("runner IO error: ", m.as_str()),
            AssistError::ParseError(m) => joined("runner response parse error: ", m.as_str()),
            AssistError::Recognizer(e) => joined("recognizer error: ", e.message.as_str()),
            AssistError::Handler(e) => joined("handler error: ", e.message.as_str()),
            AssistError::NoHandler(name) => joined(
                "no handler registered for intent: ",
                name.as_str(),
            ),
        }
    }

    /// An IO error with the given text.
    pub open spec fn is_io(self, text: Seq<char>) -> bool {
        self matches AssistError::Io(m) && m@ == text
    }
}

impl From<RecognizerError> for AssistError {
    fn from(e: RecognizerError) -> (r: Self) {
        AssistError::Recognizer(e)
    }
}

impl FromSpecImpl<RecognizerError> for AssistError {
    open spec fn obeys_from_spec() -> bool {
        true
    }

    open spec fn from_spec(e: RecognizerError) -> Self {
        AssistError::Recognizer(e)
    }
}

impl From<HandlerError> for AssistError {
    fn from(e: HandlerError) -> (r: Self) {
        AssistError::Handler(e)
    }
}

impl FromSpecImpl<HandlerError> for AssistError {
    open spec fn obeys_from_spec() -> bool {
        true
    }

    open spec fn from_spec(e: HandlerError) -> Self {
        AssistError::Handler(e)
    }
}

/// How to launch the agent process.
#[derive(Clone, Debug)]
pub struct RufloRunnerOpts {
    /// Path of the agent's script.
    pub script_path: String,
    /// Environment variables for the process, besides those that it inherits.
    pub env: HashMap<String, String>,
    /// How long a request may take, in milliseconds.
    pub timeout_ms: u64,
}

impl Default for RufloRunnerOpts {
    fn default() -> (r: Self)
        ensures
            r.script_path@ == "ruflo-agent.js"@,
            r.env@ == Map::<String, String>::empty(),
            r.timeout_ms == 5000,
    {
        RufloRunnerOpts {
            script_path: "ruflo-agent.js".to_owned(),
            env: HashMap::new(),
            timeout_ms: 5000,
        }
    }
}

/// What an agent replies to a request.
#[derive(Clone, Debug)]
pub struct RufloResponse {
    /// The intent that the agent resolved, if it did.
    pub intent: Option<Intent>,
    /// What the agent would say, if anything.
    pub speech: Option<String>,
}

impl RufloResponse {
    /// A reply with neither an intent nor anything to say.
    pub open spec fn is_empty(self) -> bool {
        self.intent is None && self.speech is None
    }
}

/// An agent that can be asked about utterances.
pub trait RufloRunner: Sized {
    /// Whether the agent is there to be asked.
    spec fn running(&self) -> bool;

    /// Starts the agent, or finds it started.
    fn spawn(&mut self, opts: RufloRunnerOpts) -> (r: Result<(), AssistError>)
        ensures
            r is Ok ==> final(self).running(),
    ;

    /// Asks the agent.  The payload is a JSON object with at least the
    /// utterance and its language.
    fn send_request(&self, payload: Value) -> (r: Result<RufloResponse, AssistError>);

    /// Stops the agent.  Stopping one that is not running is no error.
    fn shutdown(&mut self) -> (r: Result<(), AssistError>)
        ensures
            !old(self).running() ==> r is Ok,
            r is Ok ==> !final(self).running(),
    ;
}

/// A runner without an agent: every request gets an empty reply, so that an
/// utterance which the recognizer does not match stays not understood.
pub struct NoopRunner {
    started: bool,
}

impl NoopRunner {
    /// A runner that is not running.
    pub fn new() -> (r: Self)
        ensures
            !r.running(),
    {
        NoopRunner { started: false }
    }
}

impl Default for NoopRunner {
    fn default() -> (r: Self)
        ensures
            !r.running(),
    {
        NoopRunner::new()
    }
}

impl RufloRunner for NoopRunner {
    closed spec fn running(&self) -> bool {
        self.started
    }

    fn spawn(&mut self, opts: RufloRunnerOpts) -> (r: Result<(), AssistError>)
        ensures
            r == Ok::<(), AssistError>(()),
            final(self).running(),
    {
        self.started = true;
        Ok(())
    }

    fn send_request(&self, payload: Value) -> (r: Result<RufloResponse, AssistError>)
        ensures
            r matches Ok(reply) && reply.is_empty(),
    {
        Ok(RufloResponse { intent: None, speech: None })
    }

    fn shutdown(&mut self) -> (r: Result<(), AssistError>)
        ensures
            r == Ok::<(), AssistError>(()),
            !final(self).running(),
    {
        self.started = false;
        Ok(())
    }
}

/// Every error says of which sort it is, and then its cause in full.
pub proof fn law_messages_give_the_whole_cause(
    text: String,
    recognizer: RecognizerError,
    handler: HandlerError,
)
    ensures
        AssistError::NotStarted.message_text() == "runner not started"@,
        AssistError::Io(text).message_text() == "runner IO error: "@ + text@,
        AssistError::ParseError(text).message_text() == "runner response parse error: "@ + text@,
        AssistError::Recognizer(recognizer).message_text() == "recognizer error: "@
            + recognizer.message@,
        AssistError::Handler(handler).message_text() == "handler error: "@ + handler.message@,
        AssistError::NoHandler(text).message_text() == "no handler registered for intent: "@
            + text@,
{
}

/// Two IO errors with one message have one cause.
pub proof fn law_io_messages_tell_causes_apart(a: String, b: String)
    requires
        AssistError::Io(a).message_text() == AssistError::Io(b).message_text(),
    ensures
        a@ == b@,
{
    let prefix = "runner IO error: "@;
    assert((prefix + a@).skip(prefix.len() as int) =~= a@);
    assert((prefix + b@).skip(prefix.len() as int) =~= b@);
}

/// The error of a recognizer or a handler is carried on as it is.
pub proof fn law_errors_are_carried_on(recognizer: RecognizerError, handler: HandlerError)
    ensures
        <AssistError as FromSpec<RecognizerError>>::obeys_from_spec(),
        <AssistError as FromSpec<RecognizerError>>::from_spec(recognizer)
            == AssistError::Recognizer(recognizer),
        <AssistError as FromSpec<HandlerError>>::obeys_from_spec(),
        <AssistError as FromSpec<HandlerError>>::from_spec(handler) == AssistError::Handler(
            handler,
        ),
{
}

/// An IO error is one of a text if it holds that text, whole.
pub proof fn law_io_error_holds_its_text(error: AssistError, text: Seq<char>)
    ensures
        error.is_io(text) <==> error is Io && error->Io_0@ == text,
{
}

/// An empty reply has no intent and nothing to say.
pub proof fn law_empty_reply_is_empty(reply: RufloResponse)
    ensures
        reply.is_empty() <==> reply.intent is None && reply.speech is None,
{
}

/// What `message` gives: of which sort the error is, and its cause in full.
pub proof fn law_message_step(error: &AssistError, message: String)
    requires
        call_ensures(AssistError::message, (error,), message),
    ensures
        match *error {
            AssistError::NotStarted => message@ == "runner not started"@,
            AssistError::Io(m) => message@ == "runner IO error: "@ + m@,
            AssistError::ParseError(m) => message@ == "runner response parse error: "@ + m@,
            AssistError::Recognizer(e) => message@ == "recognizer error: "@ + e.message@,
            AssistError::Handler(e) => message@ == "handler error: "@ + e.message@,
            AssistError::NoHandler(name) => message@ == "no handler registered for intent: "@
                + name@,
        },
{
}

/// A runner without an agent starts and stops without fail, and replies to
/// every payload with nothing.
pub proof fn law_noop_runner_has_nothing_to_say(
    runner: &mut NoopRunner,
    opts: RufloRunnerOpts,
    spawned: Result<(), AssistError>,
    asked: &NoopRunner,
    payload: Value,
    reply: Result<RufloResponse, AssistError>,
    stopping: &mut NoopRunner,
    stopped: Result<(), AssistError>,
)
    requires
        call_ensures(<NoopRunner as RufloRunner>::spawn, (runner, opts), spawned),
        call_ensures(<NoopRunner as RufloRunner>::send_request, (asked, payload), reply),
        call_ensures(<NoopRunner as RufloRunner>::shutdown, (stopping,), stopped),
    ensures
        spawned is Ok,
        final(runner).running(),
        reply is Ok,
        reply->Ok_0.intent is None,
        reply->Ok_0.speech is None,
        stopped is Ok,
        !final(stopping).running(),
{
}

/// By default the agent is `ruflo-agent.js`, with nothing added to its
/// environment and five seconds for a request.
pub proof fn law_default_options(opts: RufloRunnerOpts)
    requires
        call_ensures(<RufloRunnerOpts as Default>::default, (), opts),
    ensures
        opts.script_path@ == "ruflo-agent.js"@,
        opts.env@.dom() == Set::<String>::empty(),
        opts.timeout_ms == 5000,
{
}

} // verus!
