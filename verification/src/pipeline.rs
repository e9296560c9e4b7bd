//! The assist pipeline: recognizer, then runner, then handler, then response.
//!
//! 1. The recognizer is asked for the intent of the utterance.
//! 2. If it finds none and a runner is set, the runner is asked.
//! 3. If there is still no intent, the response is what the runner would say,
//!    or else that the utterance was not understood.
//! 4. The handler registered for the intent is given the intent, and what it
//!    gives is the response.
//!
//! Each of these waits for something, so [`AssistPipeline::process`] takes one
//! step at a time: it is told what has happened and says what to do next.

use serde_json::Value;
use vstd::hash_map::StringHashMap;
use vstd::prelude::*;

use crate::handler::{
    is_for, law_builtin_names_differ, BuiltinHandler, Handler, HandlerError, IntentHandler,
};
use crate::intent::{Intent, IntentResponse};
use crate::json::{json_members, request_members, request_payload};
use crate::recognizer::RecognizerError;
use crate::runner::{AssistError, RufloResponse};

verus! {

/// The pipeline: a recognizer, the handlers by the name of their intent, and
/// at most one runner.
#[verifier::reject_recursive_types(H)]
pub struct AssistPipeline<R, H, Run> {
    recognizer: R,
    handlers: StringHashMap<H>,
    runner: Option<Run>,
}

/// What a pipeline consists of.
#[verifier::reject_recursive_types(H)]
pub struct PipelineView<R, H, Run> {
    pub recognizer: R,
    pub handlers: Map<Seq<char>, H>,
    pub runner: Option<Run>,
}

impl<R, H, Run> View for AssistPipeline<R, H, Run> {
    type V = PipelineView<R, H, Run>;

    closed spec fn view(&self) -> PipelineView<R, H, Run> {
        PipelineView {
            recognizer: self.recognizer,
            handlers: self.handlers@,
            runner: self.runner,
        }
    }
}

/// What has happened to an utterance.
pub enum ProcessEvent {
    Begin,
    /// The recognizer found an intent, or none, or failed.
    Recognized(Result<Option<Intent>, RecognizerError>),
    /// The runner replied or failed.
    Replied(Result<RufloResponse, AssistError>),
    /// The handler responded or failed.
    Handled(Result<IntentResponse, HandlerError>),
}

/// What has to be done next with an utterance.
pub enum ProcessAction<'a, R, H, Run> {
    Recognize { recognizer: &'a R, utterance: &'a str, language: &'a str },
    AskRunner { runner: &'a Run, payload: Value },
    Handle { handler: &'a H, intent: Intent },
    Done(Result<IntentResponse, AssistError>),
}

/// What a runner's reply comes to.
pub enum RunnerFallback {
    /// The runner resolved an intent, to be handled like any other.
    Intent(Intent),
    /// The runner has something to say and no intent.
    Speech(String),
    /// The runner could not help.
    Nothing,
}

/// What a runner's reply comes to: its intent first, what it would say second.
/// A runner that failed could not help.
pub open spec fn fallback_of(reply: Result<RufloResponse, AssistError>) -> RunnerFallback {
    match reply {
        Ok(RufloResponse { intent: Some(intent), speech: _ }) => RunnerFallback::Intent(intent),
        Ok(RufloResponse { intent: None, speech: Some(s) }) => RunnerFallback::Speech(s),
        Ok(RufloResponse { intent: None, speech: None }) => RunnerFallback::Nothing,
        Err(_) => RunnerFallback::Nothing,
    }
}

impl<'a, R, H, Run> ProcessAction<'a, R, H, Run> {
    /// The utterance is done with, as one that was not understood.
    pub open spec fn is_not_understood(self) -> bool {
        self matches ProcessAction::Done(Ok(response)) && response.is_not_understood()
    }
}

impl<R, H, Run> PipelineView<R, H, Run> {
    /// The pipeline with a handler registered under a name.
    pub open spec fn with_handler(self, name: Seq<char>, handler: H) -> Self {
        PipelineView { handlers: self.handlers.insert(name, handler), ..self }
    }

    /// The action for an intent: its handler, or not understood without one.
    pub open spec fn dispatches(self, intent: Intent, action: ProcessAction<R, H, Run>) -> bool {
        if self.handlers.contains_key(intent.name.0@) {
            &&& action matches ProcessAction::Handle { handler, intent: handled }
            &&& *handler == self.handlers[intent.name.0@]
            &&& handled == intent
        } else {
            action.is_not_understood()
        }
    }

    /// The action for an utterance without an intent: the runner is asked, or
    /// not understood without one.
    pub open spec fn falls_back(
        self,
        utterance: Seq<char>,
        language: Seq<char>,
        action: ProcessAction<R, H, Run>,
    ) -> bool {
        match self.runner {
            Some(run) => {
                &&& action matches ProcessAction::AskRunner { runner, payload }
                &&& *runner == run
                &&& json_members(payload) == request_members(utterance, language)
            },
            None => action.is_not_understood(),
        }
    }

    /// The action that answers an event.
    pub open spec fn answers(
        self,
        utterance: Seq<char>,
        language: Seq<char>,
        event: ProcessEvent,
        action: ProcessAction<R, H, Run>,
    ) -> bool {
        match event {
            ProcessEvent::Begin => {
                &&& action matches ProcessAction::Recognize {
                    recognizer,
                    utterance: u,
                    language: l,
                }
                &&& *recognizer == self.recognizer
                &&& u@ == utterance
                &&& l@ == language
            },
            ProcessEvent::Recognized(Ok(Some(intent))) => self.dispatches(intent, action),
            ProcessEvent::Recognized(Ok(None)) => self.falls_back(utterance, language, action),
            ProcessEvent::Recognized(Err(e)) => action == ProcessAction::<R, H, Run>::Done(
                Err(AssistError::Recognizer(e)),
            ),
            ProcessEvent::Replied(reply) => match fallback_of(reply) {
                RunnerFallback::Intent(intent) => self.dispatches(intent, action),
                RunnerFallback::Speech(s) => action == ProcessAction::<R, H, Run>::Done(
                    Ok(IntentResponse { speech: s, card: None }),
                ),
                RunnerFallback::Nothing => action.is_not_understood(),
            },
            ProcessEvent::Handled(Ok(response)) => action == ProcessAction::<R, H, Run>::Done(
                Ok(response),
            ),
            ProcessEvent::Handled(Err(e)) => action == ProcessAction::<R, H, Run>::Done(
                Err(AssistError::Handler(e)),
            ),
        }
    }
}

impl<R, H, Run> AssistPipeline<R, H, Run> {
    /// Only finitely many handlers are registered.
    #[verifier::type_invariant]
    spec fn finitely_many_handlers(self) -> bool {
        self.handlers@.dom().finite()
    }
}

impl<R, H: IntentHandler, Run> AssistPipeline<R, H, Run> {
    /// A pipeline with the given recognizer, without handlers or a runner.
    pub fn new(recognizer: R) -> (r: Self)
        ensures
            r@.recognizer == recognizer,
            r@.handlers == Map::<Seq<char>, H>::empty(),
            r@.runner is None,
    {
        AssistPipeline { recognizer, handlers: StringHashMap::new(), runner: None }
    }

    /// Registers a handler, in place of the one that may have been registered
    /// for the same intent.
    pub fn register_handler(&mut self, handler: H)
        ensures
            exists|name: &str|
                {
                    &&& #[trigger] is_for(handler, name)
                    &&& final(self)@ == old(self)@.with_handler(name@, handler)
                },
    {
        proof {
            use_type_invariant(&*self);
        }
        let given = handler.intent_name();
        let name = given.to_owned();
        assert(is_for(handler, given));
        let mut handlers: StringHashMap<H> = StringHashMap::new();
        std::mem::swap(&mut handlers, &mut self.handlers);
        handlers.insert(name, handler);
        self.handlers = handlers;
    }

    /// Sets the runner, in place of the one that may have been set.
    pub fn set_runner(&mut self, runner: Run)
        ensures
            final(self)@.runner == Some(runner),
            final(self)@.recognizer == old(self)@.recognizer,
            final(self)@.handlers == old(self)@.handlers,
    {
        proof {
            use_type_invariant(&*self);
        }
        self.runner = Some(runner);
    }

    /// Takes an utterance one step further.
    pub fn process<'a>(
        &'a self,
        utterance: &'a str,
        language: &'a str,
        event: ProcessEvent,
    ) -> (r: ProcessAction<'a, R, H, Run>)
        ensures
            self@.answers(utterance@, language@, event, r),
    {
        match event {
            ProcessEvent::Begin => ProcessAction::Recognize {
                recognizer: &self.recognizer,
                utterance,
                language,
            },
            ProcessEvent::Recognized(Ok(Some(intent))) => self.dispatch(intent),
            ProcessEvent::Recognized(Ok(None)) => match &self.runner {
                Some(runner) => ProcessAction::AskRunner {
                    runner,
                    payload: request_payload(utterance, language),
                },
                None => ProcessAction::Done(Ok(IntentResponse::not_understood())),
            },
            ProcessEvent::Recognized(Err(e)) => ProcessAction::Done(
                Err(AssistError::Recognizer(e)),
            ),
            ProcessEvent::Replied(reply) => match Self::resolve_via_runner(reply) {
                RunnerFallback::Intent(intent) => self.dispatch(intent),
                RunnerFallback::Speech(s) => ProcessAction::Done(
                    Ok(IntentResponse::speech_only(s)),
                ),
                RunnerFallback::Nothing => ProcessAction::Done(Ok(IntentResponse::not_understood())),
            },
            ProcessEvent::Handled(Ok(response)) => ProcessAction::Done(Ok(response)),
            ProcessEvent::Handled(Err(e)) => ProcessAction::Done(Err(AssistError::Handler(e))),
        }
    }

    /// How many handlers are registered.
    pub fn handler_count(&self) -> (r: usize)
        ensures
            self@.handlers.dom().finite(),
            r == self@.handlers.len(),
    {
        proof {
            use_type_invariant(self);
        }
        self.handlers.len()
    }

    /// Whether a runner is set.
    pub fn has_runner(&self) -> (r: bool)
        ensures
            r == self@.runner is Some,
    {
        self.runner.is_some()
    }

    /// What a runner's reply comes to.
    pub fn resolve_via_runner(reply: Result<RufloResponse, AssistError>) -> (r: RunnerFallback)
        ensures
            r == fallback_of(reply),
    {
        match reply {
            Ok(response) => match (response.intent, response.speech) {
                (Some(intent), _) => RunnerFallback::Intent(intent),
                (None, Some(s)) => RunnerFallback::Speech(s),
                (None, None) => RunnerFallback::Nothing,
            },
            Err(_) => RunnerFallback::Nothing,
        }
    }

    /// Gives an intent to its handler.
    fn dispatch<'a>(&'a self, intent: Intent) -> (r: ProcessAction<'a, R, H, Run>)
        ensures
            self@.dispatches(intent, r),
    {
        match self.handlers.get(intent.name.as_str()) {
            Some(handler) => ProcessAction::Handle { handler, intent },
            None => ProcessAction::Done(Ok(IntentResponse::not_understood())),
        }
    }
}

/// The built-in handlers by the name of their intent.
pub open spec fn builtin_handlers<C: IntentHandler>() -> Map<Seq<char>, Handler<C>> {
    map![
        "HassTurnOn"@ => Handler::<C>::Builtin(BuiltinHandler::HassTurnOn),
        "HassTurnOff"@ => Handler::<C>::Builtin(BuiltinHandler::HassTurnOff),
        "HassLightSet"@ => Handler::<C>::Builtin(BuiltinHandler::HassLightSet),
        "HassNevermind"@ => Handler::<C>::Builtin(BuiltinHandler::HassNevermind),
        "HassCancelAll"@ => Handler::<C>::Builtin(BuiltinHandler::HassCancelAll),
    ]
}

/// A pipeline with the built-in handlers registered.
pub fn default_pipeline<R, C: IntentHandler, Run>(recognizer: R) -> (r: AssistPipeline<
    R,
    Handler<C>,
    Run,
>)
    ensures
        r@.recognizer == recognizer,
        r@.handlers == builtin_handlers::<C>(),
        r@.runner is None,
        r@.handlers.len() == 5,
{
    let mut pipeline: AssistPipeline<R, Handler<C>, Run> = AssistPipeline::new(recognizer);
    pipeline.register_handler(Handler::Builtin(BuiltinHandler::HassTurnOn));
    pipeline.register_handler(Handler::Builtin(BuiltinHandler::HassTurnOff));
    pipeline.register_handler(Handler::Builtin(BuiltinHandler::HassLightSet));
    pipeline.register_handler(Handler::Builtin(BuiltinHandler::HassNevermind));
    pipeline.register_handler(Handler::Builtin(BuiltinHandler::HassCancelAll));
    proof {
        law_five_builtin_handlers::<C>();
    }
    pipeline
}

/// There are five built-in handlers, each under the name of its intent.
pub proof fn law_five_builtin_handlers<C: IntentHandler>()
    ensures
        builtin_handlers::<C>().dom().finite(),
        builtin_handlers::<C>().len() == 5,
        forall|b: BuiltinHandler| #[trigger]
            builtin_handlers::<C>().contains_pair(b.handles(), Handler::<C>::Builtin(b)),
{
    assert forall|a: BuiltinHandler, b: BuiltinHandler| #[trigger]
        a.handles() == #[trigger] b.handles() <==> a == b by {
        law_builtin_names_differ(a, b);
    }
    assert(BuiltinHandler::HassTurnOn.handles() == "HassTurnOn"@);
    assert(BuiltinHandler::HassTurnOff.handles() == "HassTurnOff"@);
    assert(BuiltinHandler::HassLightSet.handles() == "HassLightSet"@);
    assert(BuiltinHandler::HassNevermind.handles() == "HassNevermind"@);
    assert(BuiltinHandler::HassCancelAll.handles() == "HassCancelAll"@);
    assert forall|b: BuiltinHandler| #[trigger]
        builtin_handlers::<C>().contains_pair(b.handles(), Handler::<C>::Builtin(b)) by {
        match b {
            BuiltinHandler::HassTurnOn => {},
            BuiltinHandler::HassTurnOff => {},
            BuiltinHandler::HassLightSet => {},
            BuiltinHandler::HassNevermind => {},
            BuiltinHandler::HassCancelAll => {},
        }
    }
}

/// A handler for an intent that had none counts one more; a handler for one
/// that had one takes its place.
pub proof fn law_handlers_are_counted_by_name<R, H, Run>(
    pipeline: PipelineView<R, H, Run>,
    name: Seq<char>,
    handler: H,
)
    requires
        pipeline.handlers.dom().finite(),
    ensures
        pipeline.with_handler(name, handler).handlers.dom().finite(),
        pipeline.with_handler(name, handler).handlers.len() == pipeline.handlers.len() + (
        if pipeline.handlers.contains_key(name) {
            0int
        } else {
            1
        }),
{
}

/// Of two handlers for one intent, the one registered last stays.
pub proof fn law_last_registration_wins<R, H, Run>(
    pipeline: PipelineView<R, H, Run>,
    name: Seq<char>,
    first: H,
    second: H,
)
    ensures
        pipeline.with_handler(name, first).with_handler(name, second) == pipeline.with_handler(
            name,
            second,
        ),
{
    assert(pipeline.handlers.insert(name, first).insert(name, second)
        =~= pipeline.handlers.insert(name, second));
}

/// In whatever order handlers for different intents are registered, the
/// pipeline is the same.
pub proof fn law_registration_order_is_free<R, H, Run>(
    pipeline: PipelineView<R, H, Run>,
    name: Seq<char>,
    handler: H,
    other_name: Seq<char>,
    other: H,
)
    requires
        name != other_name,
    ensures
        pipeline.with_handler(name, handler).with_handler(other_name, other)
            == pipeline.with_handler(other_name, other).with_handler(name, handler),
{
    assert(pipeline.handlers.insert(name, handler).insert(other_name, other)
        =~= pipeline.handlers.insert(other_name, other).insert(name, handler));
}

/// A handler once registered is given the intents of its name, whole, whether
/// the recognizer found them or the runner resolved them.
pub proof fn law_registered_handler_is_given_its_intents<R, H, Run>(
    pipeline: PipelineView<R, H, Run>,
    handler: H,
    utterance: Seq<char>,
    language: Seq<char>,
    intent: Intent,
    speech: Option<String>,
    event: ProcessEvent,
    action: ProcessAction<R, H, Run>,
)
    requires
        ({
            ||| event == ProcessEvent::Recognized(Ok(Some(intent)))
            ||| event == ProcessEvent::Replied(Ok(RufloResponse { intent: Some(intent), speech }))
        }),
        pipeline.with_handler(intent.name.0@, handler).answers(utterance, language, event, action),
    ensures
        action matches ProcessAction::Handle { handler: h, intent: i } && *h == handler && i
            == intent,
{
}

/// An intent that the runner resolved is treated like one that the recognizer
/// found, whatever else the runner would say.
pub proof fn law_runner_intent_is_like_any_other<R, H, Run>(
    pipeline: PipelineView<R, H, Run>,
    utterance: Seq<char>,
    language: Seq<char>,
    intent: Intent,
    speech: Option<String>,
    action: ProcessAction<R, H, Run>,
)
    ensures
        pipeline.answers(
            utterance,
            language,
            ProcessEvent::Replied(Ok(RufloResponse { intent: Some(intent), speech })),
            action,
        ) <==> pipeline.answers(
            utterance,
            language,
            ProcessEvent::Recognized(Ok(Some(intent))),
            action,
        ),
{
}

/// A runner that fails, and one that replies with nothing, leaves the
/// utterance not understood.
pub proof fn law_unhelpful_runner_is_no_error<R, H, Run>(
    pipeline: PipelineView<R, H, Run>,
    utterance: Seq<char>,
    language: Seq<char>,
    reply: Result<RufloResponse, AssistError>,
    action: ProcessAction<R, H, Run>,
)
    requires
        reply matches Ok(r) ==> r.is_empty(),
        pipeline.answers(utterance, language, ProcessEvent::Replied(reply), action),
    ensures
        action.is_not_understood(),
{
}

/// The event is one that the action can lead to.
pub open spec fn process_follows<R, H, Run>(
    action: ProcessAction<R, H, Run>,
    event: ProcessEvent,
) -> bool {
    match action {
        ProcessAction::Recognize { .. } => event is Recognized,
        ProcessAction::AskRunner { .. } => event is Replied,
        ProcessAction::Handle { .. } => event is Handled,
        ProcessAction::Done(_) => false,
    }
}

/// The way of an utterance through a pipeline, as far as it has come: events,
/// each with the action that answers it and that leads to the next event.
pub open spec fn is_process<R, H, Run>(
    pipeline: PipelineView<R, H, Run>,
    utterance: Seq<char>,
    language: Seq<char>,
    steps: Seq<(ProcessEvent, ProcessAction<R, H, Run>)>,
) -> bool {
    &&& steps.len() > 0
    &&& steps[0].0 is Begin
    &&& forall|i: int|
        0 <= i < steps.len() ==> pipeline.answers(
            utterance,
            language,
            (#[trigger] steps[i]).0,
            steps[i].1,
        )
    &&& forall|i: int|
        0 < i < steps.len() ==> process_follows(steps[i - 1].1, (#[trigger] steps[i]).0)
}

/// The way ends after three waits at most: for the recognizer always, then for
/// the runner, then for a handler.
pub proof fn law_process_ends<R, H, Run>(
    pipeline: PipelineView<R, H, Run>,
    utterance: Seq<char>,
    language: Seq<char>,
    steps: Seq<(ProcessEvent, ProcessAction<R, H, Run>)>,
)
    requires
        is_process(pipeline, utterance, language, steps),
    ensures
        steps.len() <= 4,
        steps[0].1 is Recognize,
        steps.len() > 1 ==> !(steps[1].1 is Recognize),
        steps.len() > 2 ==> steps[2].1 is Handle || steps[2].1 is Done,
        steps.len() > 3 ==> steps[3].1 is Done,
        forall|i: int| 0 <= i < steps.len() - 1 ==> !((#[trigger] steps[i]).1 is Done),
{
    assert forall|i: int| 0 <= i < steps.len() - 1 implies !((#[trigger] steps[i]).1 is Done) by {
        let next = steps[i + 1];
    }
}

/// The runner is asked only where one is set and the recognizer found no
/// intent, and it is asked once, about that utterance.
pub proof fn law_runner_is_asked_only_without_a_match<R, H, Run>(
    pipeline: PipelineView<R, H, Run>,
    utterance: Seq<char>,
    language: Seq<char>,
    steps: Seq<(ProcessEvent, ProcessAction<R, H, Run>)>,
    i: int,
)
    requires
        is_process(pipeline, utterance, language, steps),
        0 <= i < steps.len(),
        steps[i].1 is AskRunner,
    ensures
        i == 1,
        steps[1].0 == ProcessEvent::Recognized(Ok(None)),
        pipeline.runner == Some(*steps[1].1->runner),
        json_members(steps[1].1->payload) == request_members(utterance, language),
{
    law_process_ends(pipeline, utterance, language, steps);
}

/// The way ends in an error only where the recognizer or the handler failed,
/// and then in that failure.  An utterance that is not recognized, an intent
/// without a handler and a runner that fails are no errors.
pub proof fn law_errors_come_from_recognizer_or_handler<R, H, Run>(
    pipeline: PipelineView<R, H, Run>,
    utterance: Seq<char>,
    language: Seq<char>,
    steps: Seq<(ProcessEvent, ProcessAction<R, H, Run>)>,
    error: AssistError,
)
    requires
        is_process(pipeline, utterance, language, steps),
        steps.last().1 == ProcessAction::<R, H, Run>::Done(Err(error)),
    ensures
        match error {
            AssistError::Recognizer(e) => steps.last().0 == ProcessEvent::Recognized(Err(e)),
            AssistError::Handler(e) => steps.last().0 == ProcessEvent::Handled(Err(e)),
            _ => false,
        },
{
}

/// From its `at`-th step on the way is that of an intent: to the handler
/// registered for it and to what that handler gives, or else not understood.
pub open spec fn ends_with_intent<R, H, Run>(
    pipeline: PipelineView<R, H, Run>,
    steps: Seq<(ProcessEvent, ProcessAction<R, H, Run>)>,
    at: int,
    intent: Intent,
    result: Result<IntentResponse, AssistError>,
) -> bool {
    if pipeline.handlers.contains_key(intent.name.0@) {
        &&& steps.len() == at + 2
        &&& steps[at].1 matches ProcessAction::Handle { handler, intent: handled }
        &&& *handler == pipeline.handlers[intent.name.0@]
        &&& handled == intent
        &&& steps[at + 1].0 matches ProcessEvent::Handled(response)
        &&& result == match response {
            Ok(r) => Ok(r),
            Err(e) => Err(AssistError::Handler(e)),
        }
    } else {
        &&& steps.len() == at + 1
        &&& result matches Ok(r)
        &&& r.is_not_understood()
    }
}

/// What an utterance that has come through gives, from what the recognizer,
/// the runner and the handler gave.
pub proof fn law_result_of_process<R, H, Run>(
    pipeline: PipelineView<R, H, Run>,
    utterance: Seq<char>,
    language: Seq<char>,
    steps: Seq<(ProcessEvent, ProcessAction<R, H, Run>)>,
    result: Result<IntentResponse, AssistError>,
)
    requires
        is_process(pipeline, utterance, language, steps),
        steps.last().1 == ProcessAction::<R, H, Run>::Done(result),
    ensures
        steps.len() > 1,
        match steps[1].0 {
            ProcessEvent::Recognized(Err(e)) => result == Err::<IntentResponse, AssistError>(
                AssistError::Recognizer(e),
            ),
            ProcessEvent::Recognized(Ok(Some(intent))) => ends_with_intent(
                pipeline,
                steps,
                1,
                intent,
                result,
            ),
            ProcessEvent::Recognized(Ok(None)) => if pipeline.runner is None {
                steps.len() == 2 && result is Ok && result->Ok_0.is_not_understood()
            } else {
                &&& steps.len() > 2
                &&& steps[2].0 matches ProcessEvent::Replied(reply)
                &&& match fallback_of(reply) {
                    RunnerFallback::Intent(intent) => ends_with_intent(
                        pipeline,
                        steps,
                        2,
                        intent,
                        result,
                    ),
                    RunnerFallback::Speech(s) => steps.len() == 3 && result == Ok::<
                        IntentResponse,
                        AssistError,
                    >(IntentResponse { speech: s, card: None }),
                    RunnerFallback::Nothing => steps.len() == 3 && result is Ok
                        && result->Ok_0.is_not_understood(),
                }
            },
            _ => false,
        },
{
    law_process_ends(pipeline, utterance, language, steps);
}

} // verus!
