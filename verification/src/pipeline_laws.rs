//! What the pipeline is for, event by event: whom an utterance goes to, with
//! what, and what comes back.

use vstd::prelude::*;

use crate::handler::{
    is_for, law_builtin_names, BuiltinHandler, Handler, HandlerError, IntentHandler,
};
use crate::intent::{Intent, IntentResponse};
use crate::json::{
    json_members, law_different_requests_differ, law_request_holds_utterance_and_language,
};
use crate::pipeline::{
    builtin_handlers, default_pipeline, fallback_of, is_process, law_five_builtin_handlers,
    law_process_ends, AssistPipeline, PipelineView, ProcessAction, ProcessEvent, RunnerFallback,
};
use crate::recognizer::RecognizerError;
use crate::runner::{AssistError, RufloResponse};

verus! {

/// The action tells the caller, as an ordinary response, that the utterance
/// was not understood.
pub open spec fn apologizes<R, H, Run>(action: ProcessAction<R, H, Run>) -> bool {
    &&& action matches ProcessAction::Done(Ok(response))
    &&& response.speech@ == "I'm not sure how to help with that."@
    &&& response.card is None
}

/// An utterance goes first to the pipeline's recognizer, whole and in the
/// language that it came in.
pub proof fn law_recognizer_gets_utterance_and_language<R, H, Run>(
    pipeline: PipelineView<R, H, Run>,
    utterance: Seq<char>,
    language: Seq<char>,
    action: ProcessAction<R, H, Run>,
)
    requires
        pipeline.answers(utterance, language, ProcessEvent::Begin, action),
    ensures
        action is Recognize,
        *action->recognizer == pipeline.recognizer,
        action->utterance@ == utterance,
        action->language@ == language,
{
}

/// Every way through a pipeline begins at its recognizer, with the utterance
/// whole and in its language, and asks it only this once.
pub proof fn law_process_begins_at_the_recognizer<R, H, Run>(
    pipeline: PipelineView<R, H, Run>,
    utterance: Seq<char>,
    language: Seq<char>,
    steps: Seq<(ProcessEvent, ProcessAction<R, H, Run>)>,
)
    requires
        is_process(pipeline, utterance, language, steps),
    ensures
        steps[0].1 is Recognize,
        *steps[0].1->recognizer == pipeline.recognizer,
        steps[0].1->utterance@ == utterance,
        steps[0].1->language@ == language,
        forall|i: int| 0 < i < steps.len() ==> !((#[trigger] steps[i]).1 is Recognize),
{
    law_process_ends(pipeline, utterance, language, steps);
}

/// Two utterances that the recognizer is asked about in the same way are the
/// same utterance in the same language.
pub proof fn law_recognizer_tells_utterances_apart<R, H, Run>(
    pipeline: PipelineView<R, H, Run>,
    utterance: Seq<char>,
    language: Seq<char>,
    other_utterance: Seq<char>,
    other_language: Seq<char>,
    action: ProcessAction<R, H, Run>,
)
    requires
        pipeline.answers(utterance, language, ProcessEvent::Begin, action),
        pipeline.answers(other_utterance, other_language, ProcessEvent::Begin, action),
    ensures
        utterance == other_utterance,
        language == other_language,
{
}

/// An intent that was recognized goes to the handler of its name, unchanged,
/// whatever the utterance; without such a handler it is not understood.
pub proof fn law_recognized_intent_goes_to_its_handler<R, H, Run>(
    pipeline: PipelineView<R, H, Run>,
    utterance: Seq<char>,
    language: Seq<char>,
    intent: Intent,
    action: ProcessAction<R, H, Run>,
)
    requires
        pipeline.answers(
            utterance,
            language,
            ProcessEvent::Recognized(Ok(Some(intent))),
            action,
        ),
    ensures
        pipeline.handlers.contains_key(intent.name.0@) ==> {
            &&& action is Handle
            &&& *action->handler == pipeline.handlers[intent.name.0@]
            &&& action->intent == intent
        },
        !pipeline.handlers.contains_key(intent.name.0@) ==> apologizes(action),
{
}

/// An intent that a runner resolved goes to the handler of its name,
/// unchanged, whatever the runner would say besides; without such a handler
/// it is not understood.
pub proof fn law_resolved_intent_goes_to_its_handler<R, H, Run>(
    pipeline: PipelineView<R, H, Run>,
    utterance: Seq<char>,
    language: Seq<char>,
    reply: RufloResponse,
    action: ProcessAction<R, H, Run>,
)
    requires
        reply.intent is Some,
        pipeline.answers(utterance, language, ProcessEvent::Replied(Ok(reply)), action),
    ensures
        ({
            let intent = reply.intent->0;
            if pipeline.handlers.contains_key(intent.name.0@) {
                &&& action is Handle
                &&& *action->handler == pipeline.handlers[intent.name.0@]
                &&& action->intent == intent
            } else {
                apologizes(action)
            }
        }),
{
}

/// A failing recognizer ends the way with its own error.
pub proof fn law_recognizer_failure_is_given_back<R, H, Run>(
    pipeline: PipelineView<R, H, Run>,
    utterance: Seq<char>,
    language: Seq<char>,
    error: RecognizerError,
    action: ProcessAction<R, H, Run>,
)
    requires
        pipeline.answers(utterance, language, ProcessEvent::Recognized(Err(error)), action),
    ensures
        action is Done,
        action->Done_0 == Err::<IntentResponse, AssistError>(AssistError::Recognizer(error)),
{
}

/// An utterance without an intent goes to the runner that is set, with the
/// utterance and its language and nothing else in the payload.
pub proof fn law_unmatched_utterance_goes_to_the_runner<R, H, Run>(
    pipeline: PipelineView<R, H, Run>,
    utterance: Seq<char>,
    language: Seq<char>,
    action: ProcessAction<R, H, Run>,
)
    requires
        pipeline.runner is Some,
        pipeline.answers(utterance, language, ProcessEvent::Recognized(Ok(None)), action),
    ensures
        action is AskRunner,
        *action->runner == pipeline.runner->0,
        json_members(action->payload).contains_pair("utterance"@, Some(utterance)),
        json_members(action->payload).contains_pair("language"@, Some(language)),
        forall|key: Seq<char>| #[trigger]
            json_members(action->payload).contains_key(key) <==> key == "utterance"@ || key
                == "language"@,
{
    law_request_holds_utterance_and_language(action->payload, utterance, language);
}

/// Without a runner, an utterance without an intent is not understood.
pub proof fn law_unmatched_utterance_without_a_runner<R, H, Run>(
    pipeline: PipelineView<R, H, Run>,
    utterance: Seq<char>,
    language: Seq<char>,
    action: ProcessAction<R, H, Run>,
)
    requires
        pipeline.runner is None,
        pipeline.answers(utterance, language, ProcessEvent::Recognized(Ok(None)), action),
    ensures
        apologizes(action),
{
}

/// Two unmatched utterances that the runner is asked about in the same way are
/// the same utterance in the same language.
pub proof fn law_runner_tells_utterances_apart<R, H, Run>(
    pipeline: PipelineView<R, H, Run>,
    utterance: Seq<char>,
    language: Seq<char>,
    other_utterance: Seq<char>,
    other_language: Seq<char>,
    action: ProcessAction<R, H, Run>,
)
    requires
        pipeline.runner is Some,
        pipeline.answers(utterance, language, ProcessEvent::Recognized(Ok(None)), action),
        pipeline.answers(
            other_utterance,
            other_language,
            ProcessEvent::Recognized(Ok(None)),
            action,
        ),
    ensures
        utterance == other_utterance,
        language == other_language,
{
    law_different_requests_differ(
        action->payload,
        utterance,
        language,
        action->payload,
        other_utterance,
        other_language,
    );
}

/// What a runner would say, if it resolved no intent, is the response, word
/// for word and however long.
pub proof fn law_runner_speech_is_the_response<R, H, Run>(
    pipeline: PipelineView<R, H, Run>,
    utterance: Seq<char>,
    language: Seq<char>,
    reply: RufloResponse,
    speech: String,
    action: ProcessAction<R, H, Run>,
)
    requires
        reply.intent is None,
        reply.speech == Some(speech),
        pipeline.answers(utterance, language, ProcessEvent::Replied(Ok(reply)), action),
    ensures
        action is Done,
        action->Done_0 is Ok,
        action->Done_0->Ok_0.speech == speech,
        action->Done_0->Ok_0.card is None,
{
}

/// A way on which the runner had something to say and no intent ends there,
/// with that as the response.
pub proof fn law_process_ends_with_the_runner_speech<R, H, Run>(
    pipeline: PipelineView<R, H, Run>,
    utterance: Seq<char>,
    language: Seq<char>,
    steps: Seq<(ProcessEvent, ProcessAction<R, H, Run>)>,
    at: int,
    reply: RufloResponse,
    speech: String,
)
    requires
        is_process(pipeline, utterance, language, steps),
        0 <= at < steps.len(),
        steps[at].0 == ProcessEvent::Replied(Ok(reply)),
        reply.intent is None,
        reply.speech == Some(speech),
    ensures
        at == 2,
        steps.len() == 3,
        steps[2].1 is Done,
        steps[2].1->Done_0 is Ok,
        steps[2].1->Done_0->Ok_0.speech == speech,
        steps[2].1->Done_0->Ok_0.card is None,
{
    law_process_ends(pipeline, utterance, language, steps);
    law_runner_speech_is_the_response(pipeline, utterance, language, reply, speech, steps[at].1);
}

/// A runner that failed, and one that replied with neither an intent nor
/// speech, leaves the utterance not understood; never is it an error.
pub proof fn law_runner_without_help<R, H, Run>(
    pipeline: PipelineView<R, H, Run>,
    utterance: Seq<char>,
    language: Seq<char>,
    reply: Result<RufloResponse, AssistError>,
    action: ProcessAction<R, H, Run>,
)
    requires
        reply is Ok ==> reply->Ok_0.intent is None && reply->Ok_0.speech is None,
        pipeline.answers(utterance, language, ProcessEvent::Replied(reply), action),
    ensures
        apologizes(action),
{
}

/// A runner's reply leaves the utterance not understood only if the runner
/// failed, if the reply was empty, if its intent has no handler, or if it was
/// the runner itself that said so.
pub proof fn law_runner_help_is_used<R, H, Run>(
    pipeline: PipelineView<R, H, Run>,
    utterance: Seq<char>,
    language: Seq<char>,
    reply: Result<RufloResponse, AssistError>,
    action: ProcessAction<R, H, Run>,
)
    requires
        pipeline.answers(utterance, language, ProcessEvent::Replied(reply), action),
        apologizes(action),
    ensures
        ({
            ||| reply is Err
            ||| reply->Ok_0.intent is None && reply->Ok_0.speech is None
            ||| reply->Ok_0.intent is Some && !pipeline.handlers.contains_key(
                reply->Ok_0.intent->0.name.0@,
            )
            ||| reply->Ok_0.intent is None && reply->Ok_0.speech is Some
                && reply->Ok_0.speech->0@ == "I'm not sure how to help with that."@
        }),
{
}

/// What a reply comes to: its intent if it has one; else what it says if it
/// says anything; else, and for a failure, nothing.
pub proof fn law_fallback_order(reply: Result<RufloResponse, AssistError>)
    ensures
        fallback_of(reply) is Intent <==> reply is Ok && reply->Ok_0.intent is Some,
        fallback_of(reply) is Intent ==> Some(fallback_of(reply)->Intent_0)
            == reply->Ok_0.intent,
        fallback_of(reply) is Speech <==> reply is Ok && reply->Ok_0.intent is None
            && reply->Ok_0.speech is Some,
        fallback_of(reply) is Speech ==> Some(fallback_of(reply)->Speech_0)
            == reply->Ok_0.speech,
        fallback_of(reply) is Nothing <==> (reply is Err || reply->Ok_0.intent is None
            && reply->Ok_0.speech is None),
{
}

/// What a handler responds is the response, as it is, whoever it was and
/// whatever the utterance.
pub proof fn law_handler_response_is_the_response<R, H, Run>(
    pipeline: PipelineView<R, H, Run>,
    utterance: Seq<char>,
    language: Seq<char>,
    response: IntentResponse,
    action: ProcessAction<R, H, Run>,
)
    requires
        pipeline.answers(utterance, language, ProcessEvent::Handled(Ok(response)), action),
    ensures
        action is Done,
        action->Done_0 == Ok::<IntentResponse, AssistError>(response),
{
}

/// A failing handler ends the way with its own error.
pub proof fn law_handler_failure_is_given_back<R, H, Run>(
    pipeline: PipelineView<R, H, Run>,
    utterance: Seq<char>,
    language: Seq<char>,
    error: HandlerError,
    action: ProcessAction<R, H, Run>,
)
    requires
        pipeline.answers(utterance, language, ProcessEvent::Handled(Err(error)), action),
    ensures
        action is Done,
        action->Done_0 == Err::<IntentResponse, AssistError>(AssistError::Handler(error)),
{
}

/// From the recognizer to the response: a way on which the recognizer found an
/// intent with a handler asks that handler next, about that intent, and ends
/// with what it responds.
pub proof fn law_recognized_utterance_end_to_end<R, H, Run>(
    pipeline: PipelineView<R, H, Run>,
    utterance: Seq<char>,
    language: Seq<char>,
    steps: Seq<(ProcessEvent, ProcessAction<R, H, Run>)>,
    intent: Intent,
)
    requires
        is_process(pipeline, utterance, language, steps),
        steps.len() > 1,
        steps[1].0 == ProcessEvent::Recognized(Ok(Some(intent))),
        pipeline.handlers.contains_key(intent.name.0@),
    ensures
        steps[1].1 is Handle,
        *steps[1].1->handler == pipeline.handlers[intent.name.0@],
        steps[1].1->intent == intent,
        steps.len() <= 3,
        steps.len() == 3 ==> {
            &&& steps[2].0 is Handled
            &&& steps[2].1 is Done
            &&& steps[2].0->Handled_0 is Ok ==> steps[2].1->Done_0 == Ok::<
                IntentResponse,
                AssistError,
            >(steps[2].0->Handled_0->Ok_0)
            &&& steps[2].0->Handled_0 is Err ==> steps[2].1->Done_0 == Err::<
                IntentResponse,
                AssistError,
            >(AssistError::Handler(steps[2].0->Handled_0->Err_0))
        },
{
    law_process_ends(pipeline, utterance, language, steps);
}

/// The same when it was the runner that resolved the intent.
pub proof fn law_resolved_utterance_end_to_end<R, H, Run>(
    pipeline: PipelineView<R, H, Run>,
    utterance: Seq<char>,
    language: Seq<char>,
    steps: Seq<(ProcessEvent, ProcessAction<R, H, Run>)>,
    reply: RufloResponse,
    intent: Intent,
)
    requires
        is_process(pipeline, utterance, language, steps),
        steps.len() > 2,
        steps[2].0 == ProcessEvent::Replied(Ok(reply)),
        reply.intent == Some(intent),
        pipeline.handlers.contains_key(intent.name.0@),
    ensures
        steps[2].1 is Handle,
        *steps[2].1->handler == pipeline.handlers[intent.name.0@],
        steps[2].1->intent == intent,
        steps.len() <= 4,
        steps.len() == 4 ==> {
            &&& steps[3].0 is Handled
            &&& steps[3].1 is Done
            &&& steps[3].0->Handled_0 is Ok ==> steps[3].1->Done_0 == Ok::<
                IntentResponse,
                AssistError,
            >(steps[3].0->Handled_0->Ok_0)
            &&& steps[3].0->Handled_0 is Err ==> steps[3].1->Done_0 == Err::<
                IntentResponse,
                AssistError,
            >(AssistError::Handler(steps[3].0->Handled_0->Err_0))
        },
{
    law_process_ends(pipeline, utterance, language, steps);
}

/// Registering a handler puts it under its name and touches nothing else:
/// every other name keeps its handler or its lack of one, and the recognizer
/// and the runner stay.
pub proof fn law_registration_touches_one_name<R, H, Run>(
    pipeline: PipelineView<R, H, Run>,
    name: Seq<char>,
    handler: H,
)
    ensures
        ({
            let after = pipeline.with_handler(name, handler);
            &&& after.handlers.contains_pair(name, handler)
            &&& forall|other: Seq<char>|
                other != name ==> (#[trigger] after.handlers.contains_key(other)
                    <==> pipeline.handlers.contains_key(other))
            &&& forall|other: Seq<char>|
                other != name && pipeline.handlers.contains_key(other)
                    ==> #[trigger] after.handlers[other] == pipeline.handlers[other]
            &&& after.recognizer == pipeline.recognizer
            &&& after.runner == pipeline.runner
        }),
{
}

/// The default handlers are the five built-in ones, each under the name of its
/// intent, and no other.
pub proof fn law_default_handlers<C: IntentHandler>()
    ensures
        builtin_handlers::<C>().contains_pair(
            "HassTurnOn"@,
            Handler::Builtin(BuiltinHandler::HassTurnOn),
        ),
        builtin_handlers::<C>().contains_pair(
            "HassTurnOff"@,
            Handler::Builtin(BuiltinHandler::HassTurnOff),
        ),
        builtin_handlers::<C>().contains_pair(
            "HassLightSet"@,
            Handler::Builtin(BuiltinHandler::HassLightSet),
        ),
        builtin_handlers::<C>().contains_pair(
            "HassNevermind"@,
            Handler::Builtin(BuiltinHandler::HassNevermind),
        ),
        builtin_handlers::<C>().contains_pair(
            "HassCancelAll"@,
            Handler::Builtin(BuiltinHandler::HassCancelAll),
        ),
        forall|name: Seq<char>| #[trigger]
            builtin_handlers::<C>().contains_key(name) ==> {
                ||| name == "HassTurnOn"@
                ||| name == "HassTurnOff"@
                ||| name == "HassLightSet"@
                ||| name == "HassNevermind"@
                ||| name == "HassCancelAll"@
            },
{
    law_five_builtin_handlers::<C>();
    law_builtin_names();
    let b = builtin_handlers::<C>();
    assert(b.contains_pair(
        BuiltinHandler::HassTurnOn.handles(),
        Handler::<C>::Builtin(BuiltinHandler::HassTurnOn),
    ));
    assert(b.contains_pair(
        BuiltinHandler::HassTurnOff.handles(),
        Handler::<C>::Builtin(BuiltinHandler::HassTurnOff),
    ));
    assert(b.contains_pair(
        BuiltinHandler::HassLightSet.handles(),
        Handler::<C>::Builtin(BuiltinHandler::HassLightSet),
    ));
    assert(b.contains_pair(
        BuiltinHandler::HassNevermind.handles(),
        Handler::<C>::Builtin(BuiltinHandler::HassNevermind),
    ));
    assert(b.contains_pair(
        BuiltinHandler::HassCancelAll.handles(),
        Handler::<C>::Builtin(BuiltinHandler::HassCancelAll),
    ));
}

/// What `process` gives, whatever the pipeline, the utterance and the event.
/// The recognizer is asked about the utterance in its language; the runner
/// about what the recognizer did not match; a handler about an intent of its
/// name.  What a handler or, without an intent, the runner has to say is the
/// response, and the failures of recognizer and handler are the errors.
pub proof fn law_process_step<R, H: IntentHandler, Run>(
    pipeline: &AssistPipeline<R, H, Run>,
    utterance: &str,
    language: &str,
    event: ProcessEvent,
    action: ProcessAction<R, H, Run>,
)
    requires
        call_ensures(
            AssistPipeline::<R, H, Run>::process,
            (pipeline, utterance, language, event),
            action,
        ),
    ensures
        event is Begin ==> {
            &&& action is Recognize
            &&& *action->recognizer == pipeline@.recognizer
            &&& action->utterance@ == utterance@
            &&& action->language@ == language@
        },
        event is Recognized && event->Recognized_0 is Err ==> {
            &&& action is Done
            &&& action->Done_0 == Err::<IntentResponse, AssistError>(
                AssistError::Recognizer(event->Recognized_0->Err_0),
            )
        },
        event is Recognized && event->Recognized_0 is Ok && event->Recognized_0->Ok_0 is Some ==> {
            let intent = event->Recognized_0->Ok_0->0;
            if pipeline@.handlers.contains_key(intent.name.0@) {
                &&& action is Handle
                &&& *action->handler == pipeline@.handlers[intent.name.0@]
                &&& action->intent == intent
            } else {
                apologizes(action)
            }
        },
        event is Recognized && event->Recognized_0 is Ok && event->Recognized_0->Ok_0 is None ==> {
            if pipeline@.runner is Some {
                &&& action is AskRunner
                &&& *action->runner == pipeline@.runner->0
                &&& json_members(action->payload).contains_pair("utterance"@, Some(utterance@))
                &&& json_members(action->payload).contains_pair("language"@, Some(language@))
                &&& forall|key: Seq<char>| #[trigger]
                    json_members(action->payload).contains_key(key) ==> key == "utterance"@ || key
                        == "language"@
            } else {
                apologizes(action)
            }
        },
        event is Replied && event->Replied_0 is Err ==> apologizes(action),
        event is Replied && event->Replied_0 is Ok ==> {
            let reply = event->Replied_0->Ok_0;
            if reply.intent is Some {
                let intent = reply.intent->0;
                if pipeline@.handlers.contains_key(intent.name.0@) {
                    &&& action is Handle
                    &&& *action->handler == pipeline@.handlers[intent.name.0@]
                    &&& action->intent == intent
                } else {
                    apologizes(action)
                }
            } else if reply.speech is Some {
                &&& action is Done
                &&& action->Done_0 is Ok
                &&& action->Done_0->Ok_0.speech == reply.speech->0
                &&& action->Done_0->Ok_0.card is None
            } else {
                apologizes(action)
            }
        },
        event is Handled && event->Handled_0 is Ok ==> {
            &&& action is Done
            &&& action->Done_0 == Ok::<IntentResponse, AssistError>(event->Handled_0->Ok_0)
        },
        event is Handled && event->Handled_0 is Err ==> {
            &&& action is Done
            &&& action->Done_0 == Err::<IntentResponse, AssistError>(
                AssistError::Handler(event->Handled_0->Err_0),
            )
        },
{
    if action is AskRunner {
        if event is Recognized {
            law_request_holds_utterance_and_language(action->payload, utterance@, language@);
        }
    }
}

/// What `resolve_via_runner` gives: the intent of a reply that has one; else
/// what the reply says, word for word; else, and for a failure, nothing.
pub proof fn law_resolve_via_runner_step<R, H: IntentHandler, Run>(
    reply: Result<RufloResponse, AssistError>,
    fallback: RunnerFallback,
)
    requires
        call_ensures(AssistPipeline::<R, H, Run>::resolve_via_runner, (reply,), fallback),
    ensures
        reply is Err ==> fallback is Nothing,
        reply is Ok && reply->Ok_0.intent is Some ==> fallback == RunnerFallback::Intent(
            reply->Ok_0.intent->0,
        ),
        reply is Ok && reply->Ok_0.intent is None && reply->Ok_0.speech is Some ==> fallback
            == RunnerFallback::Speech(reply->Ok_0.speech->0),
        reply is Ok && reply->Ok_0.intent is None && reply->Ok_0.speech is None
            ==> fallback is Nothing,
{
}

/// What `register_handler` leaves: the handler under a name that it gives
/// itself, and everything else as it was.
pub proof fn law_register_handler_step<R, H: IntentHandler, Run>(
    pipeline: &mut AssistPipeline<R, H, Run>,
    handler: H,
)
    requires
        call_ensures(AssistPipeline::<R, H, Run>::register_handler, (pipeline, handler), ()),
    ensures
        final(pipeline)@.recognizer == old(pipeline)@.recognizer,
        final(pipeline)@.runner == old(pipeline)@.runner,
        exists|name: &str|
            {
                &&& #[trigger] call_ensures(H::intent_name, (&handler,), name)
                &&& final(pipeline)@.handlers.contains_pair(name@, handler)
                &&& forall|other: Seq<char>|
                    other != name@ ==> (#[trigger] final(pipeline)@.handlers.contains_key(other)
                        <==> old(pipeline)@.handlers.contains_key(other))
                &&& forall|other: Seq<char>|
                    other != name@ && old(pipeline)@.handlers.contains_key(other)
                        ==> #[trigger] final(pipeline)@.handlers[other] == old(
                        pipeline,
                    )@.handlers[other]
            },
{
    let name = choose|name: &str| #[trigger]
        is_for(handler, name) && final(pipeline)@ == old(pipeline)@.with_handler(name@, handler);
    assert(call_ensures(H::intent_name, (&handler,), name));
}

/// A pipeline counts one handler more after a registration if the handler is
/// for an intent that had none, and as many as before otherwise.
pub proof fn law_registration_is_counted<R, H: IntentHandler, Run>(
    pipeline: &mut AssistPipeline<R, H, Run>,
    handler: H,
    before: usize,
    after: usize,
)
    requires
        call_ensures(AssistPipeline::<R, H, Run>::handler_count, (&*old(pipeline),), before),
        call_ensures(AssistPipeline::<R, H, Run>::register_handler, (pipeline, handler), ()),
        call_ensures(AssistPipeline::<R, H, Run>::handler_count, (&*final(pipeline),), after),
    ensures
        exists|name: &str|
            {
                &&& #[trigger] call_ensures(H::intent_name, (&handler,), name)
                &&& old(pipeline)@.handlers.contains_key(name@) ==> after == before
                &&& !old(pipeline)@.handlers.contains_key(name@) ==> after == before + 1
            },
{
    let name = choose|name: &str| #[trigger]
        is_for(handler, name) && final(pipeline)@ == old(pipeline)@.with_handler(name@, handler);
    assert(call_ensures(H::intent_name, (&handler,), name));
}

/// A new pipeline asks the recognizer that it was made with, has no handlers
/// and no runner, and so understands nothing that it is not taught.
pub proof fn law_new_pipeline_is_bare<R, H: IntentHandler, Run>(
    recognizer: R,
    pipeline: AssistPipeline<R, H, Run>,
    count: usize,
    has_runner: bool,
    utterance: &str,
    language: &str,
    event: ProcessEvent,
    action: ProcessAction<R, H, Run>,
)
    requires
        call_ensures(AssistPipeline::<R, H, Run>::new, (recognizer,), pipeline),
        call_ensures(AssistPipeline::<R, H, Run>::handler_count, (&pipeline,), count),
        call_ensures(AssistPipeline::<R, H, Run>::has_runner, (&pipeline,), has_runner),
        call_ensures(
            AssistPipeline::<R, H, Run>::process,
            (&pipeline, utterance, language, event),
            action,
        ),
    ensures
        count == 0,
        !has_runner,
        event is Begin ==> action is Recognize && *action->recognizer == recognizer,
        event is Recognized && event->Recognized_0 is Ok ==> apologizes(action),
{
    law_process_step(&pipeline, utterance, language, event, action);
}

/// Once a runner is set it is the one that is asked, and nothing else of the
/// pipeline has changed.
pub proof fn law_runner_set_is_the_runner_asked<R, H: IntentHandler, Run>(
    pipeline: &mut AssistPipeline<R, H, Run>,
    runner: Run,
    has_runner: bool,
    utterance: &str,
    language: &str,
    action: ProcessAction<R, H, Run>,
)
    requires
        call_ensures(AssistPipeline::<R, H, Run>::set_runner, (pipeline, runner), ()),
        call_ensures(AssistPipeline::<R, H, Run>::has_runner, (&*final(pipeline),), has_runner),
        call_ensures(
            AssistPipeline::<R, H, Run>::process,
            (&*final(pipeline), utterance, language, ProcessEvent::Recognized(Ok(None))),
            action,
        ),
    ensures
        has_runner,
        action is AskRunner,
        *action->runner == runner,
        final(pipeline)@.recognizer == old(pipeline)@.recognizer,
        final(pipeline)@.handlers == old(pipeline)@.handlers,
{
}

/// The default pipeline has the recognizer that it was made with, five
/// handlers and no runner, and gives each built-in intent to its handler.
pub proof fn law_default_pipeline_handles_the_builtin_intents<R, C: IntentHandler, Run>(
    recognizer: R,
    pipeline: AssistPipeline<R, Handler<C>, Run>,
    count: usize,
    has_runner: bool,
    utterance: &str,
    language: &str,
    builtin: BuiltinHandler,
    name: &str,
    intent: Intent,
    action: ProcessAction<R, Handler<C>, Run>,
)
    requires
        call_ensures(default_pipeline::<R, C, Run>, (recognizer,), pipeline),
        call_ensures(AssistPipeline::<R, Handler<C>, Run>::handler_count, (&pipeline,), count),
        call_ensures(AssistPipeline::<R, Handler<C>, Run>::has_runner, (&pipeline,), has_runner),
        call_ensures(BuiltinHandler::intent_name, (&builtin,), name),
        intent.name.0@ == name@,
        call_ensures(
            AssistPipeline::<R, Handler<C>, Run>::process,
            (&pipeline, utterance, language, ProcessEvent::Recognized(Ok(Some(intent)))),
            action,
        ),
    ensures
        pipeline@.recognizer == recognizer,
        count == 5,
        !has_runner,
        action is Handle,
        *action->handler == Handler::<C>::Builtin(builtin),
        action->intent == intent,
{
    law_five_builtin_handlers::<C>();
    assert(builtin_handlers::<C>().contains_pair(
        builtin.handles(),
        Handler::<C>::Builtin(builtin),
    ));
}

} // verus!
