//! What the agent-process runner is for, event by event: what is launched, what
//! goes over the wire, what a reply comes to, what stopping leaves.

use serde_json::Value;
use vstd::prelude::*;

use crate::json::{json_text, law_one_line_ends_at_its_line_feed};
use crate::runner::{AssistError, RufloResponse, RufloRunnerOpts};
use crate::subprocess::{
    is_exchange, request_answers, shutdown_answers, spawn_answers, AgentCommand, ChildState,
    Closed, ExchangeAction, ExchangeEvent, Launched, ShutdownAction, ShutdownEvent, SpawnAction,
    SpawnEvent, Stream, SubprocessRufloRunner,
};
use crate::text::{
    all_white_space, decimal, is_bare, law_trimming_finds_the_bare_text,
    law_trimming_takes_white_space_only, trimmed,
};

verus! {

/// The request ends with an IO error whose text is the given one.
pub open spec fn ends_with_io(action: ExchangeAction, text: Seq<char>) -> bool {
    action matches ExchangeAction::Done(Err(AssistError::Io(m))) && m@ == text
}

/// The `spawn` ends with an IO error whose text is the given one.
pub open spec fn spawn_ends_with_io(action: SpawnAction, text: Seq<char>) -> bool {
    action matches SpawnAction::Done(Err(AssistError::Io(m))) && m@ == text
}

/// A runner is running if and only if it holds a process.
pub proof fn law_running_is_holding_a_process<C, I, O>(runner: SubprocessRufloRunner<C, I, O>)
    ensures
        runner.running() <==> runner.inner is Some,
{
}

/// A runner without a process launches `node` on the script of the options, in
/// their environment, with both of the streams that the protocol needs piped,
/// whatever the options are.
pub proof fn law_spawn_launches_the_agent<C, I, O>(
    before: SubprocessRufloRunner<C, I, O>,
    opts: RufloRunnerOpts,
    action: SpawnAction,
    after: SubprocessRufloRunner<C, I, O>,
)
    requires
        before.inner is None,
        spawn_answers(before, opts, SpawnEvent::Begin, action, after),
    ensures
        action is Launch,
        action->Launch_0.program@ == "node"@,
        *action->Launch_0.script_path == opts.script_path,
        *action->Launch_0.env == opts.env,
        action->Launch_0.stdin == Stream::Piped,
        action->Launch_0.stdout == Stream::Piped,
        action->Launch_0.stderr == Stream::Null,
        action->Launch_0.kill_on_drop,
        after.inner is None,
{
}

/// A whole `spawn` succeeds: if launching gives the runner an end of exactly
/// the streams that the command has piped, the runner keeps the process with
/// those ends and the time of the options.
pub proof fn law_spawn_that_launches_succeeds<C, I, O>(
    before: SubprocessRufloRunner<C, I, O>,
    opts: RufloRunnerOpts,
    command: AgentCommand,
    between: SubprocessRufloRunner<C, I, O>,
    launched: Launched<C, I, O>,
    action: SpawnAction,
    after: SubprocessRufloRunner<C, I, O>,
)
    requires
        before.inner is None,
        spawn_answers(before, opts, SpawnEvent::Begin, SpawnAction::Launch(command), between),
        launched.stdin is Some <==> command.stdin == Stream::Piped,
        launched.stdout is Some <==> command.stdout == Stream::Piped,
        spawn_answers(between, opts, SpawnEvent::Launched(Ok(launched)), action, after),
    ensures
        action == SpawnAction::Done(Ok(())),
        after.inner is Some,
        after.inner->0.child == launched.child,
        Some(after.inner->0.stdin) == launched.stdin,
        Some(after.inner->0.stdout) == launched.stdout,
        after.inner->0.timeout_ms == opts.timeout_ms,
{
}

/// A launched process is kept, if and only if both of its stream ends are
/// there.
pub proof fn law_launched_process_is_kept_with_its_streams<C, I, O>(
    before: SubprocessRufloRunner<C, I, O>,
    opts: RufloRunnerOpts,
    launched: Launched<C, I, O>,
    action: SpawnAction,
    after: SubprocessRufloRunner<C, I, O>,
)
    requires
        before.inner is None,
        spawn_answers(before, opts, SpawnEvent::Launched(Ok(launched)), action, after),
    ensures
        launched.stdin is Some && launched.stdout is Some ==> {
            &&& action == SpawnAction::Done(Ok(()))
            &&& after.inner == Some(
                ChildState {
                    child: launched.child,
                    stdin: launched.stdin->0,
                    stdout: launched.stdout->0,
                    timeout_ms: opts.timeout_ms,
                },
            )
        },
        launched.stdin is None ==> {
            &&& spawn_ends_with_io(action, "ruflo agent subprocess has no stdin"@)
            &&& after.inner is None
        },
        launched.stdin is Some && launched.stdout is None ==> {
            &&& spawn_ends_with_io(action, "ruflo agent subprocess has no stdout"@)
            &&& after.inner is None
        },
{
}

/// A launch that fails ends the `spawn` with its cause in full.
pub proof fn law_launch_failure_is_given_back<C, I, O>(
    before: SubprocessRufloRunner<C, I, O>,
    opts: RufloRunnerOpts,
    error: String,
    action: SpawnAction,
    after: SubprocessRufloRunner<C, I, O>,
)
    requires
        before.inner is None,
        spawn_answers(before, opts, SpawnEvent::Launched(Err(error)), action, after),
    ensures
        spawn_ends_with_io(action, "failed to spawn ruflo agent: "@ + error@),
        after.inner is None,
{
}

/// A `spawn` of a runner with a process launches nothing, succeeds and leaves
/// the process, its streams and its time alone.
pub proof fn law_running_runner_is_left_alone<C, I, O>(
    before: SubprocessRufloRunner<C, I, O>,
    opts: RufloRunnerOpts,
    event: SpawnEvent<C, I, O>,
    action: SpawnAction,
    after: SubprocessRufloRunner<C, I, O>,
)
    requires
        before.inner is Some,
        spawn_answers(before, opts, event, action, after),
    ensures
        action == SpawnAction::Done(Ok(())),
        after.inner == before.inner,
{
}

/// A runner without a process refuses every request, whatever the payload, and
/// only such a runner does.
pub proof fn law_requests_need_a_process<C, I, O>(
    runner: SubprocessRufloRunner<C, I, O>,
    payload: Value,
    event: ExchangeEvent,
    action: ExchangeAction,
)
    requires
        request_answers(runner, payload, event, action),
    ensures
        action == ExchangeAction::Done(Err(AssistError::NotStarted)) <==> runner.inner is None,
{
}

/// A request to a running agent writes the payload's JSON text, whole, and one
/// line feed, and has the time that the process was spawned with.
pub proof fn law_request_writes_its_payload<C, I, O>(
    runner: SubprocessRufloRunner<C, I, O>,
    payload: Value,
    action: ExchangeAction,
)
    requires
        runner.inner is Some,
        request_answers(runner, payload, ExchangeEvent::Begin, action),
    ensures
        action is Write,
        action->line@ == json_text(payload) + seq!['\n'],
        !json_text(payload).contains('\n'),
        action->timeout_ms == runner.inner->0.timeout_ms,
{
    let line = action->line@;
    law_one_line_ends_at_its_line_feed(line);
    assert(line =~= json_text(payload) + seq!['\n']);
    assert(line.drop_last() =~= json_text(payload));
}

/// What was written is flushed, and then a line is read.
pub proof fn law_request_goes_on_after_writing<C, I, O>(
    runner: SubprocessRufloRunner<C, I, O>,
    payload: Value,
    after_write: ExchangeAction,
    after_flush: ExchangeAction,
)
    requires
        runner.inner is Some,
        request_answers(runner, payload, ExchangeEvent::Written(Ok(())), after_write),
        request_answers(runner, payload, ExchangeEvent::Flushed(Ok(())), after_flush),
    ensures
        after_write is Flush,
        after_flush is ReadLine,
{
}

/// A line that was read is parsed, however many bytes it has and whatever it
/// says: all of it but the white space around it.
pub proof fn law_line_read_is_parsed<C, I, O>(
    runner: SubprocessRufloRunner<C, I, O>,
    payload: Value,
    n: usize,
    line: String,
    action: ExchangeAction,
) -> (cut: (Seq<char>, Seq<char>))
    requires
        runner.inner is Some,
        n > 0,
        request_answers(runner, payload, ExchangeEvent::Read(Ok((n, line))), action),
    ensures
        action is Parse,
        action->Parse_0@ == trimmed(line@),
        line@ == cut.0 + action->Parse_0@ + cut.1,
        all_white_space(cut.0),
        all_white_space(cut.1),
        is_bare(action->Parse_0@),
{
    law_trimming_takes_white_space_only(line@)
}

/// The same, from the agent's side: a text that neither begins nor ends with
/// white space is what is parsed, whatever white space the agent writes around
/// it.
pub proof fn law_text_sent_is_the_text_parsed<C, I, O>(
    runner: SubprocessRufloRunner<C, I, O>,
    payload: Value,
    n: usize,
    line: String,
    start: Seq<char>,
    text: Seq<char>,
    end: Seq<char>,
    action: ExchangeAction,
)
    requires
        runner.inner is Some,
        n > 0,
        line@ == start + text + end,
        all_white_space(start),
        is_bare(text),
        all_white_space(end),
        request_answers(runner, payload, ExchangeEvent::Read(Ok((n, line))), action),
    ensures
        action is Parse,
        action->Parse_0@ == text,
{
    law_trimming_finds_the_bare_text(start, text, end);
}

/// A request goes on to the parse wherever in it a line was read.
pub proof fn law_exchange_parses_what_it_reads(
    payload: Value,
    timeout_ms: u64,
    steps: Seq<(ExchangeEvent, ExchangeAction)>,
    at: int,
    n: usize,
    line: String,
)
    requires
        is_exchange(payload, timeout_ms, steps),
        0 <= at < steps.len(),
        steps[at].0 == ExchangeEvent::Read(Ok((n, line))),
        n > 0,
    ensures
        steps[at].1 is Parse,
        steps[at].1->Parse_0@ == trimmed(line@),
{
}

/// Reading nothing is the end of the agent's output, and nothing else is.
pub proof fn law_end_of_output_is_reading_nothing<C, I, O>(
    runner: SubprocessRufloRunner<C, I, O>,
    payload: Value,
    event: ExchangeEvent,
    action: ExchangeAction,
)
    requires
        runner.inner is Some,
        request_answers(runner, payload, event, action),
    ensures
        ends_with_io(action, "ruflo agent subprocess closed stdout (EOF)"@) <==> (event is Read
            && event->Read_0 is Ok && event->Read_0->Ok_0.0 == 0),
{
    reveal_strlit("ruflo agent subprocess closed stdout (EOF)");
    reveal_strlit("write to ruflo agent failed: ");
    reveal_strlit("flush to ruflo agent failed: ");
    reveal_strlit("read from ruflo agent failed: ");
    reveal_strlit("ruflo agent request timed out after ");
    reveal_strlit("ms");
    let eof = "ruflo agent subprocess closed stdout (EOF)"@;
    if action is Done && action->Done_0 is Err && action->Done_0->Err_0 is Io {
        let text = action->Done_0->Err_0->Io_0@;
        match event {
            ExchangeEvent::Written(Err(_)) => {
                assert(text[0] == 'w' && eof[0] == 'r');
            },
            ExchangeEvent::Flushed(Err(_)) => {
                assert(text[0] == 'f' && eof[0] == 'r');
            },
            ExchangeEvent::Read(Err(_)) => {
                assert(text[1] == 'e' && eof[1] == 'u');
            },
            ExchangeEvent::TimedOut => {
                assert(text[12] == 'r' && eof[12] == 's');
            },
            _ => {},
        }
    }
}

/// What was parsed is the reply, as it is; what does not parse is a parse
/// error with its cause in full.
pub proof fn law_parsed_reply_is_the_reply<C, I, O>(
    runner: SubprocessRufloRunner<C, I, O>,
    payload: Value,
    parsed: Result<RufloResponse, String>,
    action: ExchangeAction,
)
    requires
        runner.inner is Some,
        request_answers(runner, payload, ExchangeEvent::Parsed(parsed), action),
    ensures
        action is Done,
        parsed is Ok ==> action->Done_0 == Ok::<RufloResponse, AssistError>(parsed->Ok_0),
        parsed is Err ==> action->Done_0 == Err::<RufloResponse, AssistError>(
            AssistError::ParseError(parsed->Err_0),
        ),
{
}

/// A request succeeds on nothing but a reply that was parsed, and reports a
/// parse error on nothing but a parse that failed.
pub proof fn law_replies_come_from_the_parse<C, I, O>(
    runner: SubprocessRufloRunner<C, I, O>,
    payload: Value,
    event: ExchangeEvent,
    action: ExchangeAction,
)
    requires
        request_answers(runner, payload, event, action),
        action is Done,
    ensures
        action->Done_0 is Ok ==> event == ExchangeEvent::Parsed(Ok(action->Done_0->Ok_0)),
        action->Done_0 is Err && action->Done_0->Err_0 is ParseError ==> event
            == ExchangeEvent::Parsed(Err(action->Done_0->Err_0->ParseError_0)),
{
}

/// Writing, flushing or reading that fails ends the request with its cause in
/// full.
pub proof fn law_stream_failures_are_given_back<C, I, O>(
    runner: SubprocessRufloRunner<C, I, O>,
    payload: Value,
    error: String,
    after_write: ExchangeAction,
    after_flush: ExchangeAction,
    after_read: ExchangeAction,
)
    requires
        runner.inner is Some,
        request_answers(runner, payload, ExchangeEvent::Written(Err(error)), after_write),
        request_answers(runner, payload, ExchangeEvent::Flushed(Err(error)), after_flush),
        request_answers(runner, payload, ExchangeEvent::Read(Err(error)), after_read),
    ensures
        ends_with_io(after_write, "write to ruflo agent failed: "@ + error@),
        ends_with_io(after_flush, "flush to ruflo agent failed: "@ + error@),
        ends_with_io(after_read, "read from ruflo agent failed: "@ + error@),
{
}

/// A request whose time ran out ends with an IO error that names that time.
pub proof fn law_time_that_ran_out_is_named<C, I, O>(
    runner: SubprocessRufloRunner<C, I, O>,
    payload: Value,
    action: ExchangeAction,
)
    requires
        runner.inner is Some,
        request_answers(runner, payload, ExchangeEvent::TimedOut, action),
    ensures
        ends_with_io(
            action,
            "ruflo agent request timed out after "@ + decimal(
                runner.inner->0.timeout_ms as nat,
            ) + "ms"@,
        ),
{
}

/// An IO error comes of nothing but a stream that failed or ended, or of time
/// that ran out: a request on which all went well does not fail.
pub proof fn law_io_errors_come_from_io<C, I, O>(
    runner: SubprocessRufloRunner<C, I, O>,
    payload: Value,
    event: ExchangeEvent,
    action: ExchangeAction,
)
    requires
        request_answers(runner, payload, event, action),
        action is Done,
        action->Done_0 is Err,
        action->Done_0->Err_0 is Io,
    ensures
        match event {
            ExchangeEvent::Begin => false,
            ExchangeEvent::Written(r) => r is Err,
            ExchangeEvent::Flushed(r) => r is Err,
            ExchangeEvent::Read(r) => r is Err || r->Ok_0.0 == 0,
            ExchangeEvent::Parsed(_) => false,
            ExchangeEvent::TimedOut => true,
        },
{
}

/// A whole request: if the line goes out, a line comes back and it parses,
/// then the reply is what it parsed to.
pub proof fn law_request_end_to_end<C, I, O>(
    runner: SubprocessRufloRunner<C, I, O>,
    payload: Value,
    first: ExchangeAction,
    written: ExchangeAction,
    flushed: ExchangeAction,
    n: usize,
    line: String,
    read: ExchangeAction,
    reply: RufloResponse,
    parsed: ExchangeAction,
)
    requires
        runner.inner is Some,
        n > 0,
        request_answers(runner, payload, ExchangeEvent::Begin, first),
        request_answers(runner, payload, ExchangeEvent::Written(Ok(())), written),
        request_answers(runner, payload, ExchangeEvent::Flushed(Ok(())), flushed),
        request_answers(runner, payload, ExchangeEvent::Read(Ok((n, line))), read),
        request_answers(runner, payload, ExchangeEvent::Parsed(Ok(reply)), parsed),
    ensures
        first is Write,
        first->line@ == json_text(payload) + seq!['\n'],
        written is Flush,
        flushed is ReadLine,
        read is Parse,
        read->Parse_0@ == trimmed(line@),
        parsed is Done,
        parsed->Done_0 == Ok::<RufloResponse, AssistError>(reply),
{
    law_request_writes_its_payload(runner, payload, first);
}

/// A `shutdown` hands over the process that the runner has, with its streams,
/// and leaves the runner without one; a runner without a process is done.
pub proof fn law_shutdown_hands_the_process_over<C, I, O>(
    before: SubprocessRufloRunner<C, I, O>,
    action: ShutdownAction<C, I, O>,
    after: SubprocessRufloRunner<C, I, O>,
)
    requires
        shutdown_answers(before, ShutdownEvent::Begin, action, after),
    ensures
        before.inner is Some ==> action == ShutdownAction::CloseStdin(
            before.inner->0.stdin,
            Closed { child: before.inner->0.child, stdout: before.inner->0.stdout },
        ),
        before.inner is None ==> action == ShutdownAction::<C, I, O>::Done(Ok(())),
        after.inner is None,
{
}

/// The process is killed once its input is closed, waited for once it was
/// killed, and then the `shutdown` has succeeded, however the killing and the
/// waiting went; the runner is not touched meanwhile.
pub proof fn law_shutdown_goes_on_whatever_happens<C, I, O>(
    before: SubprocessRufloRunner<C, I, O>,
    event: ShutdownEvent<C, O>,
    action: ShutdownAction<C, I, O>,
    after: SubprocessRufloRunner<C, I, O>,
)
    requires
        shutdown_answers(before, event, action, after),
        !(event is Begin),
    ensures
        after.inner == before.inner,
        event is StdinClosed ==> action == ShutdownAction::<C, I, O>::Kill(
            event->StdinClosed_0,
        ),
        event is Killed ==> action == ShutdownAction::<C, I, O>::Wait(event->Killed_0),
        event is Waited ==> action == ShutdownAction::<C, I, O>::Done(Ok(())),
{
}

/// What `spawn` gives, and what it leaves of the runner, whatever the options.
pub proof fn law_spawn_step<C, I, O>(
    runner: &mut SubprocessRufloRunner<C, I, O>,
    opts: &RufloRunnerOpts,
    event: SpawnEvent<C, I, O>,
    action: SpawnAction,
)
    requires
        call_ensures(SubprocessRufloRunner::<C, I, O>::spawn, (runner, opts, event), action),
    ensures
        old(runner).inner is Some ==> {
            &&& action == SpawnAction::Done(Ok(()))
            &&& final(runner).inner == old(runner).inner
        },
        old(runner).inner is None && event is Begin ==> {
            &&& action is Launch
            &&& action->Launch_0.program@ == "node"@
            &&& *action->Launch_0.script_path == opts.script_path
            &&& *action->Launch_0.env == opts.env
            &&& action->Launch_0.stdin == Stream::Piped
            &&& action->Launch_0.stdout == Stream::Piped
            &&& action->Launch_0.stderr == Stream::Null
            &&& action->Launch_0.kill_on_drop
            &&& final(runner).inner is None
        },
        old(runner).inner is None && event is Launched && event->Launched_0 is Err ==> {
            &&& spawn_ends_with_io(
                action,
                "failed to spawn ruflo agent: "@ + event->Launched_0->Err_0@,
            )
            &&& final(runner).inner is None
        },
        old(runner).inner is None && event is Launched && event->Launched_0 is Ok ==> {
            let launched = event->Launched_0->Ok_0;
            if launched.stdin is None {
                &&& spawn_ends_with_io(action, "ruflo agent subprocess has no stdin"@)
                &&& final(runner).inner is None
            } else if launched.stdout is None {
                &&& spawn_ends_with_io(action, "ruflo agent subprocess has no stdout"@)
                &&& final(runner).inner is None
            } else {
                &&& action == SpawnAction::Done(Ok(()))
                &&& final(runner).inner is Some
                &&& final(runner).inner->0.child == launched.child
                &&& final(runner).inner->0.stdin == launched.stdin->0
                &&& final(runner).inner->0.stdout == launched.stdout->0
                &&& final(runner).inner->0.timeout_ms == opts.timeout_ms
            }
        },
{
}

/// What `send_request` gives, whatever the runner, the payload and the event.
/// Every line that was read, of any length, is parsed but for the white space
/// around it; the end of the output is a read of no bytes.
pub proof fn law_send_request_step<C, I, O>(
    runner: &SubprocessRufloRunner<C, I, O>,
    payload: &Value,
    event: ExchangeEvent,
    action: ExchangeAction,
)
    requires
        call_ensures(
            SubprocessRufloRunner::<C, I, O>::send_request,
            (runner, payload, event),
            action,
        ),
    ensures
        runner.inner is None ==> action == ExchangeAction::Done(Err(AssistError::NotStarted)),
        runner.inner is Some ==> match event {
            ExchangeEvent::Begin => {
                &&& action is Write
                &&& action->line@ == json_text(*payload) + seq!['\n']
                &&& !json_text(*payload).contains('\n')
                &&& action->timeout_ms == runner.inner->0.timeout_ms
            },
            ExchangeEvent::Written(Ok(_)) => action is Flush,
            ExchangeEvent::Written(Err(e)) => ends_with_io(
                action,
                "write to ruflo agent failed: "@ + e@,
            ),
            ExchangeEvent::Flushed(Ok(_)) => action is ReadLine,
            ExchangeEvent::Flushed(Err(e)) => ends_with_io(
                action,
                "flush to ruflo agent failed: "@ + e@,
            ),
            ExchangeEvent::Read(Ok((n, line))) => {
                &&& n > 0 ==> action is Parse && action->Parse_0@ == trimmed(line@)
                &&& n == 0 ==> ends_with_io(action, "ruflo agent subprocess closed stdout (EOF)"@)
            },
            ExchangeEvent::Read(Err(e)) => ends_with_io(
                action,
                "read from ruflo agent failed: "@ + e@,
            ),
            ExchangeEvent::Parsed(Ok(reply)) => action == ExchangeAction::Done(Ok(reply)),
            ExchangeEvent::Parsed(Err(e)) => action == ExchangeAction::Done(
                Err(AssistError::ParseError(e)),
            ),
            ExchangeEvent::TimedOut => ends_with_io(
                action,
                "ruflo agent request timed out after "@ + decimal(
                    runner.inner->0.timeout_ms as nat,
                ) + "ms"@,
            ),
        },
{
    assert(request_answers(*runner, *payload, event, action));
    if runner.inner is Some && event is Begin {
        law_request_writes_its_payload(*runner, *payload, action);
    }
}

/// What `shutdown` gives, and what it leaves of the runner.
pub proof fn law_shutdown_step<C, I, O>(
    runner: &mut SubprocessRufloRunner<C, I, O>,
    event: ShutdownEvent<C, O>,
    action: ShutdownAction<C, I, O>,
)
    requires
        call_ensures(SubprocessRufloRunner::<C, I, O>::shutdown, (runner, event), action),
    ensures
        event is Begin ==> final(runner).inner is None,
        event is Begin && old(runner).inner is Some ==> action == ShutdownAction::CloseStdin(
            old(runner).inner->0.stdin,
            Closed { child: old(runner).inner->0.child, stdout: old(runner).inner->0.stdout },
        ),
        event is Begin && old(runner).inner is None ==> action
            == ShutdownAction::<C, I, O>::Done(Ok(())),
        !(event is Begin) ==> final(runner).inner == old(runner).inner,
        event is StdinClosed ==> action == ShutdownAction::<C, I, O>::Kill(
            event->StdinClosed_0,
        ),
        event is Killed ==> action == ShutdownAction::<C, I, O>::Wait(event->Killed_0),
        event is Waited ==> action == ShutdownAction::<C, I, O>::Done(Ok(())),
{
}

/// A new runner has no process, and says so: it refuses every request.
pub proof fn law_new_runner_has_no_process<C, I, O>(
    runner: SubprocessRufloRunner<C, I, O>,
    is_running: bool,
    payload: &Value,
    event: ExchangeEvent,
    action: ExchangeAction,
)
    requires
        call_ensures(SubprocessRufloRunner::<C, I, O>::new, (), runner),
        call_ensures(SubprocessRufloRunner::<C, I, O>::is_running, (&runner,), is_running),
        call_ensures(
            SubprocessRufloRunner::<C, I, O>::send_request,
            (&runner, payload, event),
            action,
        ),
    ensures
        !is_running,
        action == ExchangeAction::Done(Err(AssistError::NotStarted)),
{
}

/// Whether a runner is running is whether it has a process.
pub proof fn law_is_running_step<C, I, O>(
    runner: &SubprocessRufloRunner<C, I, O>,
    is_running: bool,
)
    requires
        call_ensures(SubprocessRufloRunner::<C, I, O>::is_running, (runner,), is_running),
    ensures
        is_running <==> runner.inner is Some,
{
}

} // verus!
