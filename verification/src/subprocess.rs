//! The runner that keeps an agent process.
//!
//! Requests and replies are lines of JSON on the process's standard input and
//! output: a request writes one line and reads one line back.  The process
//! itself is run by the caller, who hands over what became of each action as
//! an event; one request is to be taken to its end before the next one
//! begins.

use std::collections::HashMap;

use serde_json::Value;
use vstd::prelude::*;

use crate::json::{is_one_line, request_line, request_line_text};
use crate::runner::{AssistError, RufloResponse, RufloRunnerOpts};
use crate::text::{
    decimal, decimal_text, is_bare, is_line_ending, joined, law_line_ending_is_no_part, trimmed,
};

verus! {

/// A live agent process, the ends of its standard input and output, and how
/// long a request to it may take.
pub struct ChildState<C, I, O> {
    pub child: C,
    pub stdin: I,
    pub stdout: O,
    pub timeout_ms: u64,
}

/// The runner that keeps an agent process.
///
/// Stop the process with `shutdown`.  That it is killed when its handle is
/// dropped is a safety net only.
pub struct SubprocessRufloRunner<C, I, O> {
    pub inner: Option<ChildState<C, I, O>>,
}

/// Where a standard stream of the process goes.
#[derive(Clone, Copy, Debug, PartialEq, Eq, Structural)]
pub enum Stream {
    /// To and from the runner.
    Piped,
    /// Nowhere.
    Null,
}

/// The process to launch.
pub struct AgentCommand<'a> {
    pub program: &'a str,
    pub script_path: &'a String,
    pub env: &'a HashMap<String, String>,
    pub stdin: Stream,
    pub stdout: Stream,
    pub stderr: Stream,
    /// Kill the process should its handle be dropped.
    pub kill_on_drop: bool,
}

/// A process just launched, with the stream ends that it was given.
pub struct Launched<C, I, O> {
    pub child: C,
    pub stdin: Option<I>,
    pub stdout: Option<O>,
}

/// What has happened in a `spawn`.
pub enum SpawnEvent<C, I, O> {
    Begin,
    /// The command was launched, or launching it failed.
    Launched(Result<Launched<C, I, O>, String>),
}

/// What has to be done next in a `spawn`.
pub enum SpawnAction<'a> {
    Launch(AgentCommand<'a>),
    Done(Result<(), AssistError>),
}

/// What has happened in a request.
pub enum ExchangeEvent {
    Begin,
    /// The line was written.
    Written(Result<(), String>),
    /// What was written was flushed.
    Flushed(Result<(), String>),
    /// So many bytes were read up to the end of a line, with that line.
    Read(Result<(usize, String), String>),
    /// The text of the reply was parsed.
    Parsed(Result<RufloResponse, String>),
    /// The time for the request ran out first.
    TimedOut,
}

/// What has to be done next in a request.
pub enum ExchangeAction {
    /// Write the line.  The whole request, from here on, has the given time.
    Write { line: String, timeout_ms: u64 },
    Flush,
    ReadLine,
    /// Parse the text as a `RufloResponse`.
    Parse(String),
    Done(Result<RufloResponse, AssistError>),
}

/// A process whose standard input is closed.
pub struct Closed<C, O> {
    pub child: C,
    pub stdout: O,
}

/// What has happened in a `shutdown`.
pub enum ShutdownEvent<C, O> {
    Begin,
    /// The standard input of the process was closed.
    StdinClosed(Closed<C, O>),
    /// The process was told to die, or telling it failed.
    Killed(Closed<C, O>, Result<(), String>),
    /// The process was waited for, or waiting failed.
    Waited(Result<(), String>),
}

/// What has to be done next in a `shutdown`.
pub enum ShutdownAction<C, I, O> {
    /// Close the standard input, so that an agent that minds it can end by
    /// itself.
    CloseStdin(I, Closed<C, O>),
    Kill(Closed<C, O>),
    Wait(Closed<C, O>),
    Done(Result<(), AssistError>),
}

/// The command for the agent is the one that the options ask for.
pub open spec fn launches(command: AgentCommand, opts: RufloRunnerOpts) -> bool {
    &&& command.program@ == "node"@
    &&& *command.script_path == opts.script_path
    &&& *command.env == opts.env
    &&& command.stdin == Stream::Piped
    &&& command.stdout == Stream::Piped
    &&& command.stderr == Stream::Null
    &&& command.kill_on_drop
}

/// The next action of a request to a running agent.
pub open spec fn exchange_answers(
    payload: Value,
    timeout_ms: u64,
    event: ExchangeEvent,
    action: ExchangeAction,
) -> bool {
    match event {
        ExchangeEvent::Begin => {
            &&& action matches ExchangeAction::Write { line, timeout_ms: limit }
            &&& line@ == request_line_text(payload)
            &&& is_one_line(line@)
            &&& limit == timeout_ms
        },
        ExchangeEvent::Written(Ok(_)) => action == ExchangeAction::Flush,
        ExchangeEvent::Written(Err(e)) => fails_io(
            action,
            "write to ruflo agent failed: "@ + e@,
        ),
        ExchangeEvent::Flushed(Ok(_)) => action == ExchangeAction::ReadLine,
        ExchangeEvent::Flushed(Err(e)) => fails_io(
            action,
            "flush to ruflo agent failed: "@ + e@,
        ),
        ExchangeEvent::Read(Ok((n, line))) => if n == 0 {
            fails_io(action, "ruflo agent subprocess closed stdout (EOF)"@)
        } else {
            action matches ExchangeAction::Parse(text) && text@ == trimmed(line@)
        },
        ExchangeEvent::Read(Err(e)) => fails_io(action, "read from ruflo agent failed: "@ + e@),
        ExchangeEvent::Parsed(Ok(reply)) => action == ExchangeAction::Done(Ok(reply)),
        ExchangeEvent::Parsed(Err(e)) => action == ExchangeAction::Done(
            Err(AssistError::ParseError(e)),
        ),
        ExchangeEvent::TimedOut => fails_io(
            action,
            "ruflo agent request timed out after "@ + decimal(timeout_ms as nat) + "ms"@,
        ),
    }
}

/// The next action of a request: a runner without a process refuses it.
pub open spec fn request_answers<C, I, O>(
    runner: SubprocessRufloRunner<C, I, O>,
    payload: Value,
    event: ExchangeEvent,
    action: ExchangeAction,
) -> bool {
    match runner.inner {
        None => action == ExchangeAction::Done(Err(AssistError::NotStarted)),
        Some(state) => exchange_answers(payload, state.timeout_ms, event, action),
    }
}

/// The action ends the request with an IO error of the given text.
pub open spec fn fails_io(action: ExchangeAction, text: Seq<char>) -> bool {
    action matches ExchangeAction::Done(Err(e)) && e.is_io(text)
}

/// The end of a request with an IO error.
fn failed_io(what: &str, why: &str) -> (r: ExchangeAction)
    ensures
        fails_io(r, what@ + why@),
{
    ExchangeAction::Done(Err(AssistError::Io(joined(what, why))))
}

impl<C, I, O> SubprocessRufloRunner<C, I, O> {
    /// Whether there is an agent process.
    pub open spec fn running(self) -> bool {
        self.inner is Some
    }

    /// A runner without a process.
    pub fn new() -> (r: Self)
        ensures
            !r.running(),
    {
        SubprocessRufloRunner { inner: None }
    }

    /// Whether there is an agent process.
    pub fn is_running(&self) -> (r: bool)
        ensures
            r == self.running(),
    {
        self.inner.is_some()
    }

    /// Starts the agent process, unless there is one already.
    pub fn spawn<'a>(
        &mut self,
        opts: &'a RufloRunnerOpts,
        event: SpawnEvent<C, I, O>,
    ) -> (r: SpawnAction<'a>)
        ensures
            spawn_answers(*old(self), *opts, event, r, *final(self)),
    {
        if self.inner.is_some() {
            return SpawnAction::Done(Ok(()));
        }
        match event {
            SpawnEvent::Begin => SpawnAction::Launch(
                AgentCommand {
                    program: "node",
                    script_path: &opts.script_path,
                    env: &opts.env,
                    stdin: Stream::Piped,
                    stdout: Stream::Piped,
                    stderr: Stream::Null,
                    kill_on_drop: true,
                },
            ),
            SpawnEvent::Launched(Err(e)) => SpawnAction::Done(
                Err(AssistError::Io(joined("failed to spawn ruflo agent: ", e.as_str()))),
            ),
            SpawnEvent::Launched(Ok(launched)) => {
                let stdin = match launched.stdin {
                    Some(stdin) => stdin,
                    None => {
                        return SpawnAction::Done(
                            Err(AssistError::Io("ruflo agent subprocess has no stdin".to_owned())),
                        );
                    },
                };
                let stdout = match launched.stdout {
                    Some(stdout) => stdout,
                    None => {
                        return SpawnAction::Done(
                            Err(AssistError::Io("ruflo agent subprocess has no stdout".to_owned())),
                        );
                    },
                };
                self.inner = Some(
                    ChildState {
                        child: launched.child,
                        stdin,
                        stdout,
                        timeout_ms: opts.timeout_ms,
                    },
                );
                SpawnAction::Done(Ok(()))
            },
        }
    }

    /// Asks the agent.
    pub fn send_request(&self, payload: &Value, event: ExchangeEvent) -> (r: ExchangeAction)
        ensures
            request_answers(*self, *payload, event, r),
    {
        let timeout_ms: u64 = match &self.inner {
            Some(state) => state.timeout_ms,
            None => {
                return ExchangeAction::Done(Err(AssistError::NotStarted));
            },
        };
        match event {
            ExchangeEvent::Begin => match request_line(payload) {
                Ok(line) => ExchangeAction::Write { line, timeout_ms },
                Err(e) => ExchangeAction::Done(Err(AssistError::ParseError(e))),
            },
            ExchangeEvent::Written(Ok(_)) => ExchangeAction::Flush,
            ExchangeEvent::Written(Err(e)) => failed_io(
                "write to ruflo agent failed: ",
                e.as_str(),
            ),
            ExchangeEvent::Flushed(Ok(_)) => ExchangeAction::ReadLine,
            ExchangeEvent::Flushed(Err(e)) => failed_io(
                "flush to ruflo agent failed: ",
                e.as_str(),
            ),
            ExchangeEvent::Read(Ok((n, line))) => if n == 0 {
                ExchangeAction::Done(
                    Err(AssistError::Io("ruflo agent subprocess closed stdout (EOF)".to_owned())),
                )
            } else {
                ExchangeAction::Parse(line.as_str().trim().to_owned())
            },
            ExchangeEvent::Read(Err(e)) => failed_io("read from ruflo agent failed: ", e.as_str()),
            ExchangeEvent::Parsed(Ok(reply)) => ExchangeAction::Done(Ok(reply)),
            ExchangeEvent::Parsed(Err(e)) => ExchangeAction::Done(Err(AssistError::ParseError(e))),
            ExchangeEvent::TimedOut => {
                let text = joined(
                    "ruflo agent request timed out after ",
                    decimal_text(timeout_ms).as_str(),
                );
                failed_io(text.as_str(), "ms")
            },
        }
    }

    /// Stops the agent process, if there is one.
    pub fn shutdown(&mut self, event: ShutdownEvent<C, O>) -> (r: ShutdownAction<C, I, O>)
        ensures
            shutdown_answers(*old(self), event, r, *final(self)),
    {
        match event {
            ShutdownEvent::Begin => match self.inner.take() {
                Some(state) => ShutdownAction::CloseStdin(
                    state.stdin,
                    Closed { child: state.child, stdout: state.stdout },
                ),
                None => ShutdownAction::Done(Ok(())),
            },
            ShutdownEvent::StdinClosed(process) => ShutdownAction::Kill(process),
            ShutdownEvent::Killed(process, _) => ShutdownAction::Wait(process),
            ShutdownEvent::Waited(_) => ShutdownAction::Done(Ok(())),
        }
    }
}

impl<C, I, O> Default for SubprocessRufloRunner<C, I, O> {
    fn default() -> (r: Self)
        ensures
            !r.running(),
    {
        SubprocessRufloRunner::new()
    }
}

/// The next action of a `spawn`, and what becomes of the runner.
///
/// A runner with a process keeps it and the `spawn` is done.  A runner without
/// one gets the process once it was launched with both of its streams piped;
/// it stays without one in every other case.
pub open spec fn spawn_answers<C, I, O>(
    before: SubprocessRufloRunner<C, I, O>,
    opts: RufloRunnerOpts,
    event: SpawnEvent<C, I, O>,
    action: SpawnAction,
    after: SubprocessRufloRunner<C, I, O>,
) -> bool {
    if before.running() {
        action == SpawnAction::Done(Ok(())) && after == before
    } else {
        match event {
            SpawnEvent::Begin => {
                &&& action matches SpawnAction::Launch(command)
                &&& launches(command, opts)
                &&& !after.running()
            },
            SpawnEvent::Launched(Err(e)) => {
                &&& spawn_fails(action, "failed to spawn ruflo agent: "@ + e@)
                &&& !after.running()
            },
            SpawnEvent::Launched(Ok(launched)) => match (launched.stdin, launched.stdout) {
                (None, _) => {
                    &&& spawn_fails(action, "ruflo agent subprocess has no stdin"@)
                    &&& !after.running()
                },
                (Some(_), None) => {
                    &&& spawn_fails(action, "ruflo agent subprocess has no stdout"@)
                    &&& !after.running()
                },
                (Some(stdin), Some(stdout)) => {
                    &&& action == SpawnAction::Done(Ok(()))
                    &&& after.inner == Some(
                        ChildState {
                            child: launched.child,
                            stdin,
                            stdout,
                            timeout_ms: opts.timeout_ms,
                        },
                    )
                },
            },
        }
    }
}

/// The action ends the `spawn` with an IO error of the given text.
pub open spec fn spawn_fails(action: SpawnAction, text: Seq<char>) -> bool {
    action matches SpawnAction::Done(Err(e)) && e.is_io(text)
}

/// The next action of a `shutdown`, and what becomes of the runner.
///
/// The process leaves the runner at once.  Its standard input is closed, it is
/// killed and it is waited for, in this order, and how any of that goes is of
/// no account.
pub open spec fn shutdown_answers<C, I, O>(
    before: SubprocessRufloRunner<C, I, O>,
    event: ShutdownEvent<C, O>,
    action: ShutdownAction<C, I, O>,
    after: SubprocessRufloRunner<C, I, O>,
) -> bool {
    match event {
        ShutdownEvent::Begin => {
            &&& action == match before.inner {
                Some(state) => ShutdownAction::CloseStdin(
                    state.stdin,
                    Closed { child: state.child, stdout: state.stdout },
                ),
                None => ShutdownAction::Done(Ok(())),
            }
            &&& !after.running()
        },
        ShutdownEvent::StdinClosed(process) => {
            action == ShutdownAction::<C, I, O>::Kill(process) && after == before
        },
        ShutdownEvent::Killed(process, _) => {
            action == ShutdownAction::<C, I, O>::Wait(process) && after == before
        },
        ShutdownEvent::Waited(_) => {
            action == ShutdownAction::<C, I, O>::Done(Ok(())) && after == before
        },
    }
}

/// A `spawn` that succeeds leaves a process, and any later `spawn` succeeds at
/// once and keeps that process as it is.
pub proof fn law_spawn_is_idempotent<C, I, O>(
    before: SubprocessRufloRunner<C, I, O>,
    opts: RufloRunnerOpts,
    event: SpawnEvent<C, I, O>,
    action: SpawnAction,
    between: SubprocessRufloRunner<C, I, O>,
    later_opts: RufloRunnerOpts,
    later_event: SpawnEvent<C, I, O>,
    later_action: SpawnAction,
    after: SubprocessRufloRunner<C, I, O>,
)
    requires
        spawn_answers(before, opts, event, action, between),
        action == SpawnAction::Done(Ok(())),
        spawn_answers(between, later_opts, later_event, later_action, after),
    ensures
        between.running(),
        later_action == SpawnAction::Done(Ok(())),
        after == between,
{
}

/// A `spawn` that fails does so for a runner without a process, and leaves it
/// without one.
pub proof fn law_failed_spawn_leaves_no_process<C, I, O>(
    before: SubprocessRufloRunner<C, I, O>,
    opts: RufloRunnerOpts,
    event: SpawnEvent<C, I, O>,
    action: SpawnAction,
    after: SubprocessRufloRunner<C, I, O>,
)
    requires
        spawn_answers(before, opts, event, action, after),
        action matches SpawnAction::Done(Err(_)),
    ensures
        !before.running(),
        !after.running(),
        action->Done_0->Err_0 is Io,
{
}

/// A `spawn` launches at most once: once something was launched, or failed to
/// be, the `spawn` is done.
pub proof fn law_spawn_launches_once<C, I, O>(
    before: SubprocessRufloRunner<C, I, O>,
    opts: RufloRunnerOpts,
    launched: Result<Launched<C, I, O>, String>,
    action: SpawnAction,
    after: SubprocessRufloRunner<C, I, O>,
)
    requires
        spawn_answers(before, opts, SpawnEvent::Launched(launched), action, after),
    ensures
        action is Done,
{
}

/// No `shutdown` fails, and none leaves a process where there was none.
pub proof fn law_shutdown_never_fails<C, I, O>(
    before: SubprocessRufloRunner<C, I, O>,
    event: ShutdownEvent<C, O>,
    action: ShutdownAction<C, I, O>,
    after: SubprocessRufloRunner<C, I, O>,
)
    requires
        shutdown_answers(before, event, action, after),
    ensures
        action matches ShutdownAction::Done(r) ==> r == Ok::<(), AssistError>(()),
        !before.running() ==> !after.running(),
{
}

/// After a `shutdown` has begun there is no process, and a second `shutdown`
/// is done at once.
pub proof fn law_shutdown_is_idempotent<C, I, O>(
    before: SubprocessRufloRunner<C, I, O>,
    action: ShutdownAction<C, I, O>,
    between: SubprocessRufloRunner<C, I, O>,
    later_action: ShutdownAction<C, I, O>,
    after: SubprocessRufloRunner<C, I, O>,
)
    requires
        shutdown_answers(before, ShutdownEvent::Begin, action, between),
        shutdown_answers(between, ShutdownEvent::Begin, later_action, after),
    ensures
        !between.running(),
        later_action == ShutdownAction::<C, I, O>::Done(Ok(())),
        after == between,
{
}

/// The event is one that the action can lead to, for the same process.
pub open spec fn shutdown_follows<C, I, O>(
    action: ShutdownAction<C, I, O>,
    event: ShutdownEvent<C, O>,
) -> bool {
    match action {
        ShutdownAction::CloseStdin(_, process) => event == ShutdownEvent::StdinClosed(process),
        ShutdownAction::Kill(process) => event matches ShutdownEvent::Killed(p, _) && p == process,
        ShutdownAction::Wait(_) => event is Waited,
        ShutdownAction::Done(_) => false,
    }
}

/// A `shutdown`, as far as it has come: events, each with the action that
/// answers it and that leads to the next event, and the runner before the
/// first and after each of them.
pub open spec fn is_shutdown<C, I, O>(
    runners: Seq<SubprocessRufloRunner<C, I, O>>,
    steps: Seq<(ShutdownEvent<C, O>, ShutdownAction<C, I, O>)>,
) -> bool {
    &&& steps.len() > 0
    &&& runners.len() == steps.len() + 1
    &&& steps[0].0 is Begin
    &&& forall|i: int|
        0 <= i < steps.len() ==> shutdown_answers(
            runners[i],
            (#[trigger] steps[i]).0,
            steps[i].1,
            runners[i + 1],
        )
    &&& forall|i: int|
        0 < i < steps.len() ==> shutdown_follows(steps[i - 1].1, (#[trigger] steps[i]).0)
}

/// The process that a runner had is closed, killed and waited for, in this
/// order, and then the `shutdown` is done and has succeeded.  From the first
/// of these on the runner has no process.
pub proof fn law_shutdown_tears_down_in_order<C, I, O>(
    runners: Seq<SubprocessRufloRunner<C, I, O>>,
    steps: Seq<(ShutdownEvent<C, O>, ShutdownAction<C, I, O>)>,
)
    requires
        is_shutdown(runners, steps),
    ensures
        steps.len() <= 4,
        forall|i: int| 0 < i < runners.len() ==> !(#[trigger] runners[i]).running(),
        match runners[0].inner {
            None => steps.len() == 1 && steps[0].1 == ShutdownAction::<C, I, O>::Done(Ok(())),
            Some(state) => {
                let process = Closed { child: state.child, stdout: state.stdout };
                &&& steps[0].1 == ShutdownAction::CloseStdin(state.stdin, process)
                &&& steps.len() > 1 ==> steps[1].1 == ShutdownAction::<C, I, O>::Kill(process)
                &&& steps.len() > 2 ==> steps[2].1 == ShutdownAction::<C, I, O>::Wait(process)
                &&& steps.len() > 3 ==> steps[3].1 == ShutdownAction::<C, I, O>::Done(Ok(()))
            },
        },
{
    assert(steps.len() <= 4) by {
        if steps.len() > 4 {
            let beyond = (steps[1], steps[2], steps[3], steps[4]);
        }
    }
    assert forall|i: int| 0 < i < runners.len() implies !(#[trigger] runners[i]).running() by {
        let steps_before = (steps[0], steps[1], steps[2], steps[i - 1]);
    }
}

/// A runner that was just given a process takes a request, within the time
/// that the options gave.
pub proof fn law_spawned_runner_takes_requests<C, I, O>(
    before: SubprocessRufloRunner<C, I, O>,
    opts: RufloRunnerOpts,
    launched: Launched<C, I, O>,
    action: SpawnAction,
    after: SubprocessRufloRunner<C, I, O>,
    payload: Value,
    answer: ExchangeAction,
)
    requires
        !before.running(),
        spawn_answers(before, opts, SpawnEvent::Launched(Ok(launched)), action, after),
        action == SpawnAction::Done(Ok(())),
        request_answers(after, payload, ExchangeEvent::Begin, answer),
    ensures
        answer matches ExchangeAction::Write { line, timeout_ms } && line@ == request_line_text(
            payload,
        ) && timeout_ms == opts.timeout_ms,
{
}

/// A runner refuses every request once its `shutdown` has begun.
pub proof fn law_stopped_runner_refuses_requests<C, I, O>(
    before: SubprocessRufloRunner<C, I, O>,
    action: ShutdownAction<C, I, O>,
    after: SubprocessRufloRunner<C, I, O>,
    payload: Value,
    event: ExchangeEvent,
    answer: ExchangeAction,
)
    requires
        shutdown_answers(before, ShutdownEvent::Begin, action, after),
        request_answers(after, payload, event, answer),
    ensures
        answer == ExchangeAction::Done(Err(AssistError::NotStarted)),
{
}

/// The event is one that the action can lead to.
pub open spec fn exchange_follows(action: ExchangeAction, event: ExchangeEvent) -> bool {
    match action {
        ExchangeAction::Write { .. } => event is Written || event is TimedOut,
        ExchangeAction::Flush => event is Flushed || event is TimedOut,
        ExchangeAction::ReadLine => event is Read || event is TimedOut,
        ExchangeAction::Parse(_) => event is Parsed,
        ExchangeAction::Done(_) => false,
    }
}

/// A request to a running agent, as far as it has come: events, each with the
/// action that answers it and that leads to the next event.
pub open spec fn is_exchange(
    payload: Value,
    timeout_ms: u64,
    steps: Seq<(ExchangeEvent, ExchangeAction)>,
) -> bool {
    &&& steps.len() > 0
    &&& steps[0].0 is Begin
    &&& forall|i: int|
        0 <= i < steps.len() ==> exchange_answers(
            payload,
            timeout_ms,
            (#[trigger] steps[i]).0,
            steps[i].1,
        )
    &&& forall|i: int|
        0 < i < steps.len() ==> exchange_follows(steps[i - 1].1, (#[trigger] steps[i]).0)
}

/// A request writes one line, flushes it, reads one line and parses it, in
/// this order and each at most once, and then it is at its end.
pub proof fn law_one_line_out_one_line_in(
    payload: Value,
    timeout_ms: u64,
    steps: Seq<(ExchangeEvent, ExchangeAction)>,
)
    requires
        is_exchange(payload, timeout_ms, steps),
    ensures
        steps.len() <= 5,
        steps[0].1 is Write,
        steps.len() > 1 ==> steps[1].1 is Flush || steps[1].1 is Done,
        steps.len() > 2 ==> steps[2].1 is ReadLine || steps[2].1 is Done,
        steps.len() > 3 ==> steps[3].1 is Parse || steps[3].1 is Done,
        steps.len() > 4 ==> steps[4].1 is Done,
        forall|i: int| 0 <= i < steps.len() - 1 ==> !((#[trigger] steps[i]).1 is Done),
{
    assert forall|i: int| 0 <= i < steps.len() - 1 implies !((#[trigger] steps[i]).1 is Done) by {
        let next = steps[i + 1];
    }
}

/// A request succeeds only with what was parsed from the line that the agent
/// wrote, and it fails only with an IO error or, where the line does not
/// parse, a parse error.
pub proof fn law_request_result(
    payload: Value,
    timeout_ms: u64,
    steps: Seq<(ExchangeEvent, ExchangeAction)>,
)
    requires
        is_exchange(payload, timeout_ms, steps),
    ensures
        steps.last().1 matches ExchangeAction::Done(Ok(reply)) ==> {
            &&& steps.len() == 5
            &&& steps[3].0 matches ExchangeEvent::Read(Ok((n, line)))
            &&& n > 0
            &&& steps[3].1 matches ExchangeAction::Parse(text)
            &&& text@ == trimmed(line@)
            &&& steps[4].0 == ExchangeEvent::Parsed(Ok(reply))
        },
        steps.last().1 matches ExchangeAction::Done(Err(e)) ==> {
            ||| e is Io && !(steps.last().0 is Parsed)
            ||| e is ParseError && steps.last().0 == ExchangeEvent::Parsed(Err(e->ParseError_0))
        },
{
    law_one_line_out_one_line_in(payload, timeout_ms, steps);
}

/// The reply to a request is what parsing makes of the agent's line without
/// its line ending, whatever the parser: a text that parses to a reply, sent
/// as a line, is answered with that reply.
pub proof fn law_reply_is_what_the_line_parses_to(
    payload: Value,
    timeout_ms: u64,
    steps: Seq<(ExchangeEvent, ExchangeAction)>,
    parse: spec_fn(Seq<char>) -> Result<RufloResponse, String>,
    n: usize,
    line: String,
    text: Seq<char>,
    end: Seq<char>,
)
    requires
        is_exchange(payload, timeout_ms, steps),
        steps.len() == 5,
        steps[3].0 == ExchangeEvent::Read(Ok((n, line))),
        n > 0,
        line@ == text + end,
        is_bare(text),
        is_line_ending(end),
        steps[3].1 matches ExchangeAction::Parse(t) ==> steps[4].0 == ExchangeEvent::Parsed(
            parse(t@),
        ),
    ensures
        steps[3].1 matches ExchangeAction::Parse(t) && t@ == text,
        steps[4].1 == ExchangeAction::Done(
            match parse(text) {
                Ok(reply) => Ok(reply),
                Err(e) => Err(AssistError::ParseError(e)),
            },
        ),
{
    law_line_ending_is_no_part(text, end);
}

} // verus!
