use homecore_assist::handler::HandlerError;
use homecore_assist::intent::Intent;
use homecore_assist::json::{request_line, request_payload};
use homecore_assist::recognizer::RecognizerError;
use homecore_assist::runner::{AssistError, NoopRunner, RufloResponse, RufloRunner, RufloRunnerOpts};
use homecore_assist::subprocess::{
    Closed, ExchangeAction, ExchangeEvent, Launched, ShutdownAction, ShutdownEvent, SpawnAction,
    SpawnEvent, Stream, SubprocessRufloRunner,
};
use homecore_assist::text::decimal_text;
use serde_json::Value;

fn payload(members: &[(&str, &str)]) -> Value {
    members.iter().map(|(k, v)| (k.to_string(), v.to_string())).collect()
}

#[test]
fn noop_runner_spawn_returns_ok() {
    let mut runner = NoopRunner::new();
    let result = runner.spawn(RufloRunnerOpts::default());
    assert!(result.is_ok());
}

#[test]
fn noop_runner_send_request_returns_empty_response() {
    let runner = NoopRunner::new();
    let resp = runner
        .send_request(payload(&[("utterance", "turn on the light"), ("language", "en")]))
        .unwrap();
    assert!(resp.intent.is_none());
    assert!(resp.speech.is_none());
}

#[test]
fn noop_runner_shutdown_is_idempotent() {
    let mut runner = NoopRunner::new();
    assert!(runner.shutdown().is_ok());
    runner.spawn(RufloRunnerOpts::default()).unwrap();
    assert!(runner.shutdown().is_ok());
    assert!(runner.shutdown().is_ok());
}

#[test]
fn default_options() {
    let opts = RufloRunnerOpts::default();
    assert_eq!(opts.script_path, "ruflo-agent.js");
    assert!(opts.env.is_empty());
    assert_eq!(opts.timeout_ms, 5000);
}

#[test]
fn error_messages() {
    let text = "why".to_string();
    assert_eq!(AssistError::NotStarted.message(), "runner not started");
    assert_eq!(AssistError::Io(text.clone()).message(), "runner IO error: why");
    assert_eq!(
        AssistError::ParseError(text.clone()).message(),
        "runner response parse error: why"
    );
    assert_eq!(
        AssistError::from(RecognizerError { message: text.clone() }).message(),
        "recognizer error: why"
    );
    assert_eq!(
        AssistError::from(HandlerError { message: text.clone() }).message(),
        "handler error: why"
    );
    assert_eq!(
        AssistError::NoHandler(text).message(),
        "no handler registered for intent: why"
    );
}

/// A numbered agent process that lives in the test.
type Runner = SubprocessRufloRunner<u32, &'static str, &'static str>;

fn subprocess_opts(timeout_ms: u64) -> RufloRunnerOpts {
    RufloRunnerOpts {
        script_path: "tests/fixtures/mock_ruflo_agent.js".to_string(),
        env: Default::default(),
        timeout_ms,
    }
}

/// Spawns with a launcher that always gives process `number`.
fn spawn(runner: &mut Runner, opts: &RufloRunnerOpts, number: u32) -> Result<(), AssistError> {
    let mut event = SpawnEvent::Begin;
    loop {
        event = match runner.spawn(opts, event) {
            SpawnAction::Launch(command) => {
                assert_eq!(command.program, "node");
                assert_eq!(command.script_path, &opts.script_path);
                SpawnEvent::Launched(Ok(Launched {
                    child: number,
                    stdin: Some("in"),
                    stdout: Some("out"),
                }))
            }
            SpawnAction::Done(result) => return result,
        };
    }
}

/// What the agent writes back for a line.
fn agent(line: &str) -> String {
    let request: Value = serde_json::from_str(line).unwrap();
    let utterance = request["utterance"].as_str().unwrap();
    if utterance.contains("dim") {
        "  {\"intent\":\"HassLightSet\",\"entity\":\"light.office\"}\r\n".to_string()
    } else {
        format!("{{\"speech\":\"you said: {utterance}\"}}\n")
    }
}

fn parse(text: &str) -> Result<RufloResponse, String> {
    assert_eq!(text, text.trim());
    let reply: Value = serde_json::from_str(text).map_err(|e| e.to_string())?;
    let entity = reply["entity"].as_str().unwrap_or("");
    Ok(RufloResponse {
        intent: reply["intent"].as_str().map(|name| Intent::with_entity(name, entity, "en")),
        speech: reply["speech"].as_str().map(|s| s.to_string()),
    })
}

/// Takes a request to its end.  An agent asked to sleep outlasts the request.
fn send_request(runner: &Runner, payload: Value) -> Result<RufloResponse, AssistError> {
    let mut event = ExchangeEvent::Begin;
    let mut sent = String::new();
    loop {
        event = match runner.send_request(&payload, event) {
            ExchangeAction::Write { line, timeout_ms } => {
                assert_eq!(Some(timeout_ms), runner.inner.as_ref().map(|s| s.timeout_ms));
                assert_eq!(line.matches('\n').count(), 1);
                assert!(line.ends_with('\n'));
                sent = line;
                ExchangeEvent::Written(Ok(()))
            }
            ExchangeAction::Flush => ExchangeEvent::Flushed(Ok(())),
            ExchangeAction::ReadLine => {
                if sent.contains("sleep") {
                    ExchangeEvent::TimedOut
                } else {
                    let line = agent(&sent);
                    ExchangeEvent::Read(Ok((line.len(), line)))
                }
            }
            ExchangeAction::Parse(text) => ExchangeEvent::Parsed(parse(&text)),
            ExchangeAction::Done(result) => return result,
        };
    }
}

/// Shuts down; every step of the teardown goes wrong.
fn shutdown(runner: &mut Runner) -> Result<(), AssistError> {
    let mut event = ShutdownEvent::Begin;
    let mut done: Vec<&str> = Vec::new();
    loop {
        event = match runner.shutdown(event) {
            ShutdownAction::CloseStdin(stdin, process) => {
                assert_eq!((stdin, process.stdout), ("in", "out"));
                done.push("close");
                ShutdownEvent::StdinClosed(process)
            }
            ShutdownAction::Kill(process) => {
                done.push("kill");
                ShutdownEvent::Killed(process, Err("gone".to_string()))
            }
            ShutdownAction::Wait(_) => {
                done.push("wait");
                ShutdownEvent::Waited(Err("gone".to_string()))
            }
            ShutdownAction::Done(result) => {
                assert!(done.is_empty() || done == ["close", "kill", "wait"]);
                return result;
            }
        };
    }
}

#[test]
fn subprocess_runner_send_before_spawn_errors() {
    let runner = Runner::new();
    let err = send_request(&runner, payload(&[("utterance", "hello")])).unwrap_err();
    assert!(matches!(err, AssistError::NotStarted));
}

#[test]
fn subprocess_runner_round_trip_speech() {
    let mut runner = Runner::new();
    spawn(&mut runner, &subprocess_opts(5000), 1).unwrap();
    assert!(runner.is_running());

    let resp =
        send_request(&runner, payload(&[("utterance", "hello there"), ("language", "en")])).unwrap();
    assert_eq!(resp.speech.as_deref(), Some("you said: hello there"));
    assert!(resp.intent.is_none());

    shutdown(&mut runner).unwrap();
    assert!(!runner.is_running());
}

#[test]
fn subprocess_runner_returns_resolved_intent() {
    let mut runner = Runner::new();
    spawn(&mut runner, &subprocess_opts(5000), 1).unwrap();

    let resp = send_request(
        &runner,
        payload(&[("utterance", "please dim the lights"), ("language", "en")]),
    )
    .unwrap();
    let intent = resp.intent.expect("agent should resolve an intent");
    assert_eq!(intent.name.as_str(), "HassLightSet");
    assert_eq!(intent.entity_id(), Some("light.office"));

    shutdown(&mut runner).unwrap();
}

#[test]
fn subprocess_runner_multiple_requests_reuse_process() {
    let mut runner = Runner::new();
    spawn(&mut runner, &subprocess_opts(5000), 1).unwrap();

    let first = send_request(&runner, payload(&[("utterance", "one")])).unwrap();
    let second = send_request(&runner, payload(&[("utterance", "two")])).unwrap();
    assert_eq!(first.speech.as_deref(), Some("you said: one"));
    assert_eq!(second.speech.as_deref(), Some("you said: two"));
    assert_eq!(runner.inner.as_ref().map(|s| s.child), Some(1));

    shutdown(&mut runner).unwrap();
}

#[test]
fn subprocess_runner_times_out_on_slow_agent() {
    let mut runner = Runner::new();
    spawn(&mut runner, &subprocess_opts(200), 1).unwrap();

    let result = send_request(&runner, payload(&[("utterance", "please sleep now")]));
    assert!(result.is_err());
    let err = result.unwrap_err();
    assert!(matches!(&err, AssistError::Io(_)));
    assert_eq!(err.message(), "runner IO error: ruflo agent request timed out after 200ms");

    shutdown(&mut runner).unwrap();
}

#[test]
fn subprocess_runner_spawn_is_idempotent() {
    let mut runner = Runner::new();
    spawn(&mut runner, &subprocess_opts(5000), 1).unwrap();
    spawn(&mut runner, &subprocess_opts(5000), 2).unwrap();
    assert!(runner.is_running());
    assert_eq!(runner.inner.as_ref().map(|s| s.child), Some(1));
    shutdown(&mut runner).unwrap();
}

#[test]
fn subprocess_runner_shutdown_is_idempotent() {
    let mut runner = Runner::new();
    assert!(shutdown(&mut runner).is_ok());
    spawn(&mut runner, &subprocess_opts(5000), 1).unwrap();
    assert!(shutdown(&mut runner).is_ok());
    assert!(shutdown(&mut runner).is_ok());
}

#[test]
fn spawn_asks_for_the_agent_command() {
    let mut opts = subprocess_opts(5000);
    opts.env.insert("MODE".to_string(), "test".to_string());
    let mut runner = Runner::default();
    match runner.spawn(&opts, SpawnEvent::Begin) {
        SpawnAction::Launch(command) => {
            assert_eq!(command.program, "node");
            assert_eq!(command.script_path, "tests/fixtures/mock_ruflo_agent.js");
            assert_eq!(command.env.get("MODE").map(|s| s.as_str()), Some("test"));
            assert_eq!(command.stdin, Stream::Piped);
            assert_eq!(command.stdout, Stream::Piped);
            assert_eq!(command.stderr, Stream::Null);
            assert!(command.kill_on_drop);
        }
        SpawnAction::Done(_) => panic!("nothing was launched"),
    }
    assert!(!runner.is_running());
}

#[test]
fn spawn_failures() {
    let opts = subprocess_opts(5000);
    let launches = [
        (
            Err("no such file".to_string()),
            "runner IO error: failed to spawn ruflo agent: no such file",
        ),
        (
            Ok(Launched { child: 1, stdin: None, stdout: None }),
            "runner IO error: ruflo agent subprocess has no stdin",
        ),
        (
            Ok(Launched { child: 1, stdin: Some("in"), stdout: None }),
            "runner IO error: ruflo agent subprocess has no stdout",
        ),
    ];
    for (launched, message) in launches {
        let mut runner = Runner::new();
        match runner.spawn(&opts, SpawnEvent::Launched(launched)) {
            SpawnAction::Done(Err(e)) => assert_eq!(e.message(), message),
            _ => panic!("the spawn did not fail"),
        }
        assert!(!runner.is_running());
    }
}

#[test]
fn request_failures() {
    let mut runner = Runner::new();
    spawn(&mut runner, &subprocess_opts(u64::MAX), 1).unwrap();
    let request = payload(&[("utterance", "hello")]);
    let e = || "broken pipe".to_string();
    let events = [
        (
            ExchangeEvent::Written(Err(e())),
            "runner IO error: write to ruflo agent failed: broken pipe",
        ),
        (
            ExchangeEvent::Flushed(Err(e())),
            "runner IO error: flush to ruflo agent failed: broken pipe",
        ),
        (
            ExchangeEvent::Read(Err(e())),
            "runner IO error: read from ruflo agent failed: broken pipe",
        ),
        (
            ExchangeEvent::Read(Ok((0, String::new()))),
            "runner IO error: ruflo agent subprocess closed stdout (EOF)",
        ),
        (
            ExchangeEvent::Parsed(Err("expected value".to_string())),
            "runner response parse error: expected value",
        ),
        (
            ExchangeEvent::TimedOut,
            "runner IO error: ruflo agent request timed out after 18446744073709551615ms",
        ),
    ];
    for (event, message) in events {
        match runner.send_request(&request, event) {
            ExchangeAction::Done(Err(e)) => assert_eq!(e.message(), message),
            _ => panic!("the request did not fail"),
        }
    }
}

#[test]
fn stopped_runner_refuses_requests() {
    let mut runner = Runner::new();
    spawn(&mut runner, &subprocess_opts(5000), 1).unwrap();
    match runner.shutdown(ShutdownEvent::Begin) {
        ShutdownAction::CloseStdin("in", Closed { child: 1, stdout: "out" }) => {}
        _ => panic!("the process was not handed over"),
    }
    let err = send_request(&runner, payload(&[("utterance", "hello")])).unwrap_err();
    assert!(matches!(err, AssistError::NotStarted));
}

#[test]
fn reply_is_trimmed_of_unicode_white_space() {
    let mut runner = Runner::new();
    spawn(&mut runner, &subprocess_opts(5000), 1).unwrap();
    let line = "\u{3000}\t {\"speech\": null}\u{85}\u{a0}\u{2028}\r\n".to_string();
    match runner.send_request(
        &payload(&[("utterance", "hello")]),
        ExchangeEvent::Read(Ok((line.len(), line))),
    ) {
        ExchangeAction::Parse(text) => assert_eq!(text, "{\"speech\": null}"),
        _ => panic!("the reply was not parsed"),
    }
    match runner.send_request(
        &payload(&[("utterance", "hello")]),
        ExchangeEvent::Read(Ok((1, "\n".to_string()))),
    ) {
        ExchangeAction::Parse(text) => assert_eq!(text, ""),
        _ => panic!("the reply was not parsed"),
    }
}

#[test]
fn line_ending_is_no_part_of_the_reply() {
    let mut runner = Runner::new();
    spawn(&mut runner, &subprocess_opts(5000), 1).unwrap();
    let request = payload(&[("utterance", "hello")]);
    let spoken = " two\nlines, \"quoted\"\r\n";
    let text = serde_json::to_string(&payload(&[("speech", spoken)])).unwrap();
    for end in ["\n", "\r\n"] {
        let line = format!("{text}{end}");
        match runner.send_request(&request, ExchangeEvent::Read(Ok((line.len(), line)))) {
            ExchangeAction::Parse(t) => {
                assert_eq!(t, text);
                match runner.send_request(&request, ExchangeEvent::Parsed(parse(&t))) {
                    ExchangeAction::Done(Ok(reply)) => {
                        assert!(reply.intent.is_none());
                        assert_eq!(reply.speech.as_deref(), Some(spoken));
                    }
                    _ => panic!("the request did not succeed"),
                }
            }
            _ => panic!("the reply was not parsed"),
        }
    }
}

#[test]
fn every_white_space_character_is_trimmed() {
    let mut runner = Runner::new();
    spawn(&mut runner, &subprocess_opts(5000), 1).unwrap();
    let listed = |n: u32| {
        (0x9..=0xd).contains(&n)
            || n == 0x20
            || n == 0x85
            || n == 0xa0
            || n == 0x1680
            || (0x2000..=0x200a).contains(&n)
            || (0x2028..=0x2029).contains(&n)
            || n == 0x202f
            || n == 0x205f
            || n == 0x3000
    };
    let request = payload(&[("utterance", "hello")]);
    for n in 0..0x11000u32 {
        if let Some(c) = char::from_u32(n) {
            let line = format!("{c}x{c}");
            match runner.send_request(&request, ExchangeEvent::Read(Ok((line.len(), line.clone())))) {
                ExchangeAction::Parse(text) => {
                    assert_eq!(text, if listed(n) { "x".to_string() } else { line });
                }
                _ => panic!("the reply was not parsed"),
            }
        }
    }
}

#[test]
fn request_line_is_one_line_of_json() {
    let request = request_payload("turn\non \"it\"\r\n\\", "en\u{2028}");
    let line = request_line(&request).unwrap();
    assert_eq!(
        line,
        "{\"language\":\"en\u{2028}\",\"utterance\":\"turn\\non \\\"it\\\"\\r\\n\\\\\"}\n"
    );
    let back: Value = serde_json::from_str(&line).unwrap();
    assert_eq!(back, request);
}

#[test]
fn request_line_of_any_value() {
    assert_eq!(request_line(&Value::Null).unwrap(), "null\n");
    assert_eq!(request_line(&Value::from(1.5)).unwrap(), "1.5\n");
    assert_eq!(request_line(&Value::from(vec![1, 2])).unwrap(), "[1,2]\n");
    assert_eq!(request_line(&payload(&[])).unwrap(), "{}\n");
}

#[test]
fn decimal_numbers() {
    assert_eq!(decimal_text(0), "0");
    assert_eq!(decimal_text(9), "9");
    assert_eq!(decimal_text(10), "10");
    assert_eq!(decimal_text(5000), "5000");
    assert_eq!(decimal_text(u64::MAX), "18446744073709551615");
}
