use homecore_assist::handler::{BuiltinHandler, Handler, HandlerError, IntentHandler};
use homecore_assist::intent::{Intent, IntentResponse};
use homecore_assist::pipeline::{
    default_pipeline, AssistPipeline, ProcessAction, ProcessEvent, RunnerFallback,
};
use homecore_assist::recognizer::RecognizerError;
use homecore_assist::runner::{AssistError, NoopRunner, RufloResponse, RufloRunner, RufloRunnerOpts};
use serde_json::Value;

/// Finds intents in fixed phrases.
enum PhraseRecognizer {
    Nothing,
    Switching,
    Prefix(&'static str, &'static str),
    Broken,
}

impl PhraseRecognizer {
    fn recognize(&self, utterance: &str, language: &str) -> Result<Option<Intent>, RecognizerError> {
        let found = |name: &str, rest: &str| {
            let entity = rest.strip_prefix("the ").unwrap_or(rest);
            Ok(Some(Intent::with_entity(name, entity, language)))
        };
        match self {
            PhraseRecognizer::Nothing => Ok(None),
            PhraseRecognizer::Broken => Err(RecognizerError { message: "broken".to_string() }),
            PhraseRecognizer::Prefix(name, prefix) => match utterance.strip_prefix(prefix) {
                Some(rest) => found(name, rest),
                None => Ok(None),
            },
            PhraseRecognizer::Switching => {
                if let Some(rest) = utterance.strip_prefix("turn on ") {
                    found("HassTurnOn", rest)
                } else if let Some(rest) = utterance.strip_prefix("turn off ") {
                    found("HassTurnOff", rest)
                } else if utterance == "never mind" || utterance == "cancel that" {
                    found("HassNevermind", "")
                } else {
                    Ok(None)
                }
            }
        }
    }
}

/// A handler of the home's own, with what it says.
struct Saying {
    intent: &'static str,
    says: Option<&'static str>,
}

impl IntentHandler for Saying {
    fn intent_name(&self) -> &str {
        self.intent
    }
}

/// What handlers do in a home where every service answers.
fn handle(handler: &Handler<Saying>, intent: Intent) -> Result<IntentResponse, HandlerError> {
    let entity = intent.entity_id().unwrap_or("").to_string();
    let speech = match handler {
        Handler::Builtin(BuiltinHandler::HassTurnOn) => format!("Turned on {entity}"),
        Handler::Builtin(BuiltinHandler::HassTurnOff) => format!("Turned off {entity}"),
        Handler::Builtin(BuiltinHandler::HassLightSet) => format!("Set {entity}"),
        Handler::Builtin(BuiltinHandler::HassNevermind) => "Okay".to_string(),
        Handler::Builtin(BuiltinHandler::HassCancelAll) => "Cancelled".to_string(),
        Handler::Custom(saying) => match saying.says {
            Some(text) => text.to_string(),
            None => return Err(HandlerError { message: "no such device".to_string() }),
        },
    };
    Ok(IntentResponse::speech_only(speech))
}

/// A runner with one reply.
struct MockRunner {
    response: RufloResponse,
    started: bool,
}

impl MockRunner {
    fn new(response: RufloResponse) -> Self {
        MockRunner { response, started: false }
    }
}

impl RufloRunner for MockRunner {
    fn running(&self) -> bool {
        self.started
    }

    fn spawn(&mut self, _opts: RufloRunnerOpts) -> Result<(), AssistError> {
        self.started = true;
        Ok(())
    }

    fn send_request(&self, _payload: Value) -> Result<RufloResponse, AssistError> {
        Ok(self.response.clone())
    }

    fn shutdown(&mut self) -> Result<(), AssistError> {
        self.started = false;
        Ok(())
    }
}

/// Takes an utterance through the pipeline to its end.
fn process<Run: RufloRunner>(
    pipeline: &AssistPipeline<PhraseRecognizer, Handler<Saying>, Run>,
    utterance: &str,
    language: &str,
) -> Result<IntentResponse, AssistError> {
    let mut event = ProcessEvent::Begin;
    loop {
        event = match pipeline.process(utterance, language, event) {
            ProcessAction::Recognize { recognizer, utterance, language } => {
                ProcessEvent::Recognized(recognizer.recognize(utterance, language))
            }
            ProcessAction::AskRunner { runner, payload } => {
                ProcessEvent::Replied(runner.send_request(payload))
            }
            ProcessAction::Handle { handler, intent } => {
                ProcessEvent::Handled(handle(handler, intent))
            }
            ProcessAction::Done(result) => return result,
        };
    }
}

fn build_test_pipeline<Run>() -> AssistPipeline<PhraseRecognizer, Handler<Saying>, Run> {
    let mut pipeline = AssistPipeline::new(PhraseRecognizer::Switching);
    pipeline.register_handler(Handler::Builtin(BuiltinHandler::HassTurnOn));
    pipeline.register_handler(Handler::Builtin(BuiltinHandler::HassTurnOff));
    pipeline.register_handler(Handler::Builtin(BuiltinHandler::HassNevermind));
    pipeline
}

fn bare<Run>() -> AssistPipeline<PhraseRecognizer, Handler<Saying>, Run> {
    AssistPipeline::new(PhraseRecognizer::Nothing)
}

#[test]
fn pipeline_turn_on_end_to_end() {
    let pipeline = build_test_pipeline::<NoopRunner>();
    let resp = process(&pipeline, "turn on light.kitchen", "en").unwrap();
    assert!(resp.speech.contains("light.kitchen"));
}

#[test]
fn pipeline_turn_off_end_to_end() {
    let pipeline = build_test_pipeline::<NoopRunner>();
    let resp = process(&pipeline, "turn off switch.fan", "en").unwrap();
    assert!(resp.speech.to_lowercase().contains("off") || resp.speech.contains("switch.fan"));
}

#[test]
fn pipeline_unknown_utterance_returns_not_understood() {
    let pipeline = build_test_pipeline::<NoopRunner>();
    let resp = process(&pipeline, "what is the weather like", "en").unwrap();
    assert!(resp.speech.contains("not sure") || resp.speech.contains("I'm not"));
}

#[test]
fn pipeline_recognized_but_no_handler_returns_not_understood() {
    let pipeline: AssistPipeline<_, Handler<Saying>, NoopRunner> =
        AssistPipeline::new(PhraseRecognizer::Prefix("HassGetState", "what is "));
    let resp = process(&pipeline, "what is light.kitchen", "en").unwrap();
    assert!(resp.speech.contains("not sure") || resp.speech.contains("I'm not"));
}

#[test]
fn default_pipeline_registers_five_handlers() {
    let pipeline: AssistPipeline<_, Handler<Saying>, NoopRunner> =
        default_pipeline(PhraseRecognizer::Nothing);
    assert_eq!(pipeline.handler_count(), 5);
    assert!(!pipeline.has_runner());
}

#[test]
fn default_pipeline_dispatches_each_builtin() {
    let pipeline: AssistPipeline<_, Handler<Saying>, NoopRunner> =
        default_pipeline(PhraseRecognizer::Nothing);
    for (name, builtin) in [
        ("HassTurnOn", BuiltinHandler::HassTurnOn),
        ("HassTurnOff", BuiltinHandler::HassTurnOff),
        ("HassLightSet", BuiltinHandler::HassLightSet),
        ("HassNevermind", BuiltinHandler::HassNevermind),
        ("HassCancelAll", BuiltinHandler::HassCancelAll),
    ] {
        let intent = Intent::with_entity(name, "light.hall", "en");
        match pipeline.process("u", "en", ProcessEvent::Recognized(Ok(Some(intent.clone())))) {
            ProcessAction::Handle { handler: Handler::Builtin(b), intent: handled } => {
                assert_eq!(*b, builtin);
                assert_eq!(handled, intent);
            }
            _ => panic!("no built-in handler for {name}"),
        }
    }
}

#[test]
fn pipeline_nevermind_response() {
    let pipeline = build_test_pipeline::<NoopRunner>();
    let resp = process(&pipeline, "never mind", "en").unwrap();
    assert!(
        resp.speech.to_lowercase().contains("okay")
            || resp.speech.to_lowercase().contains("never")
            || resp.speech.to_lowercase().contains("cancel")
    );
}

#[test]
fn pipeline_use_homecore_service_fn_handler() {
    let mut pipeline: AssistPipeline<_, Handler<Saying>, NoopRunner> =
        AssistPipeline::new(PhraseRecognizer::Prefix("HassTurnOn", "on "));
    pipeline.register_handler(Handler::Builtin(BuiltinHandler::HassTurnOn));
    let resp = process(&pipeline, "on light.bed", "en").unwrap();
    assert!(resp.speech.contains("light.bed"));
}

#[test]
fn pipeline_without_runner_has_runner_is_false() {
    let pipeline = bare::<NoopRunner>();
    assert!(!pipeline.has_runner());
}

#[test]
fn pipeline_falls_through_to_runner_for_unmatched_utterance() {
    let mut pipeline = bare();
    pipeline.register_handler(Handler::Builtin(BuiltinHandler::HassTurnOn));
    pipeline.set_runner(MockRunner::new(RufloResponse {
        intent: Some(Intent::with_entity("HassTurnOn", "light.office", "en")),
        speech: None,
    }));
    assert!(pipeline.has_runner());

    let resp = process(&pipeline, "please switch on the office light", "en").unwrap();
    assert!(resp.speech.contains("light.office"));
}

#[test]
fn pipeline_uses_runner_speech_when_no_intent_resolved() {
    let mut pipeline = bare();
    pipeline.set_runner(MockRunner::new(RufloResponse {
        intent: None,
        speech: Some("It's sunny and 21 degrees.".into()),
    }));
    let resp = process(&pipeline, "what's the weather like", "en").unwrap();
    assert_eq!(resp.speech, "It's sunny and 21 degrees.");
    assert_eq!(resp.card, None);
}

#[test]
fn pipeline_runner_returning_nothing_falls_back_to_not_understood() {
    let mut pipeline = bare();
    pipeline.set_runner(MockRunner::new(RufloResponse { intent: None, speech: None }));
    let resp = process(&pipeline, "asdkjfh nonsense utterance", "en").unwrap();
    assert!(resp.speech.contains("not sure"));
}

#[test]
fn pipeline_regex_match_skips_runner_entirely() {
    struct PanicIfCalledRunner {
        started: bool,
    }

    impl RufloRunner for PanicIfCalledRunner {
        fn running(&self) -> bool {
            self.started
        }

        fn spawn(&mut self, _opts: RufloRunnerOpts) -> Result<(), AssistError> {
            self.started = true;
            Ok(())
        }

        fn send_request(&self, _payload: Value) -> Result<RufloResponse, AssistError> {
            panic!("runner must not be called when the regex recognizer already matched");
        }

        fn shutdown(&mut self) -> Result<(), AssistError> {
            self.started = false;
            Ok(())
        }
    }

    let mut pipeline = build_test_pipeline();
    pipeline.set_runner(PanicIfCalledRunner { started: false });
    let resp = process(&pipeline, "turn on light.kitchen", "en").unwrap();
    assert!(resp.speech.contains("light.kitchen"));
}

#[test]
fn failing_runner_is_not_an_error() {
    struct FailingRunner;

    impl RufloRunner for FailingRunner {
        fn running(&self) -> bool {
            false
        }

        fn spawn(&mut self, _opts: RufloRunnerOpts) -> Result<(), AssistError> {
            Err(AssistError::Io("no agent".to_string()))
        }

        fn send_request(&self, _payload: Value) -> Result<RufloResponse, AssistError> {
            Err(AssistError::NotStarted)
        }

        fn shutdown(&mut self) -> Result<(), AssistError> {
            Ok(())
        }
    }

    let mut pipeline = bare();
    pipeline.set_runner(FailingRunner);
    let resp = process(&pipeline, "good evening", "en").unwrap();
    assert_eq!(resp, IntentResponse::not_understood());
}

#[test]
fn runner_intent_without_handler_is_not_understood() {
    let mut pipeline = bare();
    pipeline.set_runner(MockRunner::new(RufloResponse {
        intent: Some(Intent::with_entity("HassTurnOn", "light.office", "en")),
        speech: Some("unused".to_string()),
    }));
    let resp = process(&pipeline, "switch it on", "en").unwrap();
    assert_eq!(resp, IntentResponse::not_understood());
}

#[test]
fn runner_intent_goes_before_its_speech() {
    let reply = RufloResponse {
        intent: Some(Intent::with_entity("HassTurnOn", "light.office", "en")),
        speech: Some("On it.".to_string()),
    };
    type Pipeline = AssistPipeline<PhraseRecognizer, Handler<Saying>, NoopRunner>;
    match Pipeline::resolve_via_runner(Ok(reply)) {
        RunnerFallback::Intent(intent) => assert_eq!(intent.entity_id(), Some("light.office")),
        _ => panic!("the intent was lost"),
    }
}

#[test]
fn runner_is_asked_with_utterance_and_language() {
    let mut pipeline = bare();
    pipeline.set_runner(NoopRunner::new());
    match pipeline.process("wie \"spät\"\nist es", "de", ProcessEvent::Recognized(Ok(None))) {
        ProcessAction::AskRunner { payload, .. } => {
            let members = payload.as_object().unwrap();
            assert_eq!(members.len(), 2);
            assert_eq!(members["utterance"].as_str(), Some("wie \"spät\"\nist es"));
            assert_eq!(members["language"].as_str(), Some("de"));
        }
        _ => panic!("the runner was not asked"),
    }
}

#[test]
fn recognizer_failure_is_an_error() {
    let pipeline: AssistPipeline<_, Handler<Saying>, NoopRunner> =
        default_pipeline(PhraseRecognizer::Broken);
    let err = process(&pipeline, "turn on light.kitchen", "en").unwrap_err();
    assert!(matches!(&err, AssistError::Recognizer(e) if e.message == "broken"));
    assert_eq!(err.message(), "recognizer error: broken");
}

#[test]
fn handler_failure_is_an_error() {
    let mut pipeline: AssistPipeline<_, Handler<Saying>, NoopRunner> =
        AssistPipeline::new(PhraseRecognizer::Prefix("Fetch", "fetch "));
    pipeline.register_handler(Handler::Custom(Saying { intent: "Fetch", says: None }));
    let err = process(&pipeline, "fetch the ball", "en").unwrap_err();
    assert!(matches!(&err, AssistError::Handler(e) if e.message == "no such device"));
    assert_eq!(err.message(), "handler error: no such device");
}

#[test]
fn last_registered_handler_replaces_the_first() {
    let mut pipeline: AssistPipeline<_, Handler<Saying>, NoopRunner> =
        AssistPipeline::new(PhraseRecognizer::Prefix("Fetch", "fetch "));
    pipeline.register_handler(Handler::Custom(Saying { intent: "Fetch", says: Some("first") }));
    pipeline.register_handler(Handler::Custom(Saying { intent: "Other", says: Some("other") }));
    assert_eq!(pipeline.handler_count(), 2);
    pipeline.register_handler(Handler::Custom(Saying { intent: "Fetch", says: Some("second") }));
    assert_eq!(pipeline.handler_count(), 2);
    assert_eq!(process(&pipeline, "fetch the ball", "en").unwrap().speech, "second");
}

#[test]
fn last_set_runner_replaces_the_first() {
    let reply = |text: &str| {
        MockRunner::new(RufloResponse { intent: None, speech: Some(text.to_string()) })
    };
    let mut pipeline = bare();
    pipeline.set_runner(reply("first"));
    pipeline.set_runner(reply("second"));
    assert_eq!(process(&pipeline, "hello", "en").unwrap().speech, "second");
}

#[test]
fn first_entity_slot_counts() {
    let mut intent = Intent::with_entity("HassTurnOn", "light.one", "en");
    assert_eq!(intent.name.as_str(), "HassTurnOn");
    assert_eq!(intent.entity_id(), Some("light.one"));
    let second = Intent::with_entity("HassTurnOn", "light.two", "en").slots.remove(0);
    intent.slots.push(second);
    assert_eq!(intent.entity_id(), Some("light.one"));
    intent.slots[0].name = "area".to_string();
    assert_eq!(intent.entity_id(), Some("light.two"));
    intent.slots.clear();
    assert_eq!(intent.entity_id(), None);
}
