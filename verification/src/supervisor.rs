//! The process supervisor's side of the event contract: the exact log
//! lines and status transitions one supervised child process produces,
//! from spawn to exit, and the emitter that puts them on the shared
//! channel.
//!
//! The supervisor's blocking work (spawning the child, draining its two
//! output streams, waiting for the exit status) happens outside the
//! library; every outcome of that work is handed back in as a plain value
//! and every event is computed and ordered here.

use vstd::prelude::*;
use vstd::string::StringExecFns;
use crate::events::{running_status_event, terminal_status_event, Event, EventView};
use crate::models::ServiceStatus;

verus! {

/// The decimal digit `d` as a character, for `d < 10`.
pub open spec fn dec_digit(d: nat) -> char {
    if d == 0 {
        '0'
    } else if d == 1 {
        '1'
    } else if d == 2 {
        '2'
    } else if d == 3 {
        '3'
    } else if d == 4 {
        '4'
    } else if d == 5 {
        '5'
    } else if d == 6 {
        '6'
    } else if d == 7 {
        '7'
    } else if d == 8 {
        '8'
    } else {
        '9'
    }
}

/// Decimal text of a natural number, most significant digit first.
pub open spec fn dec_text(n: nat) -> Seq<char>
    decreases n,
{
    if n < 10 {
        seq![dec_digit(n)]
    } else {
        dec_text(n / 10).push(dec_digit(n % 10))
    }
}

/// Decimal text of an integer, with a leading minus sign when negative.
pub open spec fn int_text(n: int) -> Seq<char> {
    if n < 0 {
        seq!['-'] + dec_text((-n) as nat)
    } else {
        dec_text(n as nat)
    }
}

/// Append the digit `d` to `s`.
fn push_digit(s: &mut String, d: u64)
    requires
        d < 10,
    ensures
        final(s)@ == old(s)@ + seq![dec_digit(d as nat)],
{
    proof {
        reveal_strlit("0");
        reveal_strlit("1");
        reveal_strlit("2");
        reveal_strlit("3");
        reveal_strlit("4");
        reveal_strlit("5");
        reveal_strlit("6");
        reveal_strlit("7");
        reveal_strlit("8");
        reveal_strlit("9");
    }
    if d == 0 {
        s.append("0");
    } else if d == 1 {
        s.append("1");
    } else if d == 2 {
        s.append("2");
    } else if d == 3 {
        s.append("3");
    } else if d == 4 {
        s.append("4");
    } else if d == 5 {
        s.append("5");
    } else if d == 6 {
        s.append("6");
    } else if d == 7 {
        s.append("7");
    } else if d == 8 {
        s.append("8");
    } else {
        s.append("9");
    }
    proof {
        assert(final(s)@ =~= old(s)@ + seq![dec_digit(d as nat)]);
    }
}

/// Append the decimal text of `n` to `s`.
fn append_dec(s: &mut String, n: u64)
    ensures
        final(s)@ == old(s)@ + dec_text(n as nat),
    decreases n,
{
    if n < 10 {
        push_digit(s, n);
    } else {
        proof {
            assert(n / 10 < n) by (nonlinear_arith)
                requires
                    n >= 10,
            ;
        }
        append_dec(s, n / 10);
        push_digit(s, n % 10);
        proof {
            assert(old(s)@ + dec_text((n / 10) as nat) + seq![dec_digit((n % 10) as nat)] =~= old(
                s,
            )@ + dec_text(n as nat));
        }
    }
}

/// The decimal text of an unsigned number.
pub fn u64_to_dec(n: u64) -> (r: String)
    ensures
        r@ == dec_text(n as nat),
{
    let mut s = String::new();
    append_dec(&mut s, n);
    proof {
        assert(Seq::<char>::empty() + dec_text(n as nat) =~= dec_text(n as nat));
    }
    s
}

/// The decimal text of a signed number.
pub fn i32_to_dec(n: i32) -> (r: String)
    ensures
        r@ == int_text(n as int),
{
    if n >= 0 {
        u64_to_dec(n as u64)
    } else {
        proof {
            reveal_strlit("-");
        }
        let wide: i64 = n as i64;
        let mag: u64 = (-wide) as u64;
        let mut s = "-".to_owned();
        append_dec(&mut s, mag);
        proof {
            assert(s@ =~= int_text(n as int));
        }
        s
    }
}

/// How an exit code is written in a log line: the code if the process
/// reported one, the word `None` if it was ended by a signal.
pub open spec fn exit_code_text(code: Option<i32>) -> Seq<char> {
    match code {
        Some(c) => "Some("@ + int_text(c as int) + ")"@,
        None => "None"@,
    }
}

/// The text of an exit code.
pub fn exit_code_to_text(code: &Option<i32>) -> (r: String)
    ensures
        r@ == exit_code_text(*code),
{
    match code {
        Some(c) => {
            let mut s = "Some(".to_owned();
            let digits = i32_to_dec(*c);
            s.append(digits.as_str());
            s.append(")");
            proof {
                assert(s@ =~= exit_code_text(*code));
            }
            s
        },
        None => "None".to_owned(),
    }
}

/// The log line reporting that the OS could not spawn the child.
pub open spec fn spawn_failure_line(ts: Seq<char>, err: Seq<char>) -> Seq<char> {
    ts + " [ERROR] Failed to start: "@ + err
}

/// The log line reporting a successful start of the named service.
pub open spec fn started_line(ts: Seq<char>, name: Seq<char>) -> Seq<char> {
    ts + " [INFO] "@ + name + " started successfully."@
}

/// The log line carrying one line of the child's standard output.
pub open spec fn stdout_line(ts: Seq<char>, text: Seq<char>) -> Seq<char> {
    ts + " [EXEC] "@ + text
}

/// The log line carrying one line of the child's standard error.
pub open spec fn stderr_line(ts: Seq<char>, text: Seq<char>) -> Seq<char> {
    ts + " [ERROR] "@ + text
}

/// The summary line of a run that exited with code zero.
pub open spec fn completed_line(ts: Seq<char>) -> Seq<char> {
    ts + " [INFO] Process completed successfully."@
}

/// The summary line of a run that exited with a non-zero code.
pub open spec fn failed_exit_line(ts: Seq<char>, code: Option<i32>) -> Seq<char> {
    ts + " [ERROR] Process failed with exit code: "@ + exit_code_text(code)
}

/// The summary line of a run whose exit status could not be determined.
pub open spec fn wait_error_line(ts: Seq<char>, err: Seq<char>) -> Seq<char> {
    ts + " [ERROR] Process error: "@ + err
}

/// A line carries the error tag somewhere in its text.
pub open spec fn error_tagged(line: Seq<char>) -> bool {
    exists|i: int| 0 <= i && i + 7 <= line.len() && #[trigger] line.subrange(i, i + 7)
        == "[ERROR]"@
}

/// Build the spawn-failure log line.
pub fn spawn_failure_message(ts: &String, err: &String) -> (r: String)
    ensures
        r@ == spawn_failure_line(ts@, err@),
{
    let mut s = ts.clone();
    s.append(" [ERROR] Failed to start: ");
    s.append(err.as_str());
    s
}

/// Build the start-success log line.
pub fn started_message(ts: &String, name: &String) -> (r: String)
    ensures
        r@ == started_line(ts@, name@),
{
    let mut s = ts.clone();
    s.append(" [INFO] ");
    s.append(name.as_str());
    s.append(" started successfully.");
    s
}

/// Build the log line for one line of standard output.
pub fn stdout_message(ts: &String, text: &String) -> (r: String)
    ensures
        r@ == stdout_line(ts@, text@),
{
    let mut s = ts.clone();
    s.append(" [EXEC] ");
    s.append(text.as_str());
    s
}

/// Build the log line for one line of standard error.
pub fn stderr_message(ts: &String, text: &String) -> (r: String)
    ensures
        r@ == stderr_line(ts@, text@),
{
    let mut s = ts.clone();
    s.append(" [ERROR] ");
    s.append(text.as_str());
    s
}

/// Build the clean-exit summary line.
pub fn completed_message(ts: &String) -> (r: String)
    ensures
        r@ == completed_line(ts@),
{
    let mut s = ts.clone();
    s.append(" [INFO] Process completed successfully.");
    s
}

/// Build the failed-exit summary line.
pub fn failed_exit_message(ts: &String, code: &Option<i32>) -> (r: String)
    ensures
        r@ == failed_exit_line(ts@, *code),
{
    let mut s = ts.clone();
    s.append(" [ERROR] Process failed with exit code: ");
    let code_text = exit_code_to_text(code);
    s.append(code_text.as_str());
    s
}

/// Build the wait-error summary line.
pub fn wait_error_message(ts: &String, err: &String) -> (r: String)
    ensures
        r@ == wait_error_line(ts@, err@),
{
    let mut s = ts.clone();
    s.append(" [ERROR] Process error: ");
    s.append(err.as_str());
    s
}

/// Mathematical model of a [`StreamLine`].
pub struct StreamLineView {
    pub timestamp: Seq<char>,
    pub from_stderr: bool,
    pub text: Seq<char>,
}

/// One line read from the child's output, as the stream readers hand it
/// back: the wall-clock timestamp at which it was read, which of the two
/// streams it came from, and its text.
#[derive(Clone, Debug)]
pub struct StreamLine {
    pub timestamp: String,
    pub from_stderr: bool,
    pub text: String,
}

impl View for StreamLine {
    type V = StreamLineView;

    open spec fn view(&self) -> StreamLineView {
        StreamLineView {
            timestamp: self.timestamp@,
            from_stderr: self.from_stderr,
            text: self.text@,
        }
    }
}

impl DeepView for StreamLine {
    type V = StreamLineView;

    open spec fn deep_view(&self) -> StreamLineView {
        self@
    }
}

/// Mathematical model of a [`SpawnOutcome`].
pub enum SpawnOutcomeView {
    Started(Option<u32>),
    SpawnError(Seq<char>),
}

/// How the OS answered the spawn request: a child was created (its pid, if
/// the OS reported one) or the spawn failed with an error message.
#[derive(Clone, Debug)]
pub enum SpawnOutcome {
    Started(Option<u32>),
    SpawnError(String),
}

impl View for SpawnOutcome {
    type V = SpawnOutcomeView;

    open spec fn view(&self) -> SpawnOutcomeView {
        match *self {
            SpawnOutcome::Started(pid) => SpawnOutcomeView::Started(pid),
            SpawnOutcome::SpawnError(ref err) => SpawnOutcomeView::SpawnError(err@),
        }
    }
}

/// Mathematical model of an [`ExitOutcome`].
pub enum ExitOutcomeView {
    Success,
    Failure(Option<i32>),
    WaitError(Seq<char>),
}

/// How the wait for the child ended: a clean exit, an exit with a non-zero
/// code (or a signal, when no code is reported), or a wait error.
#[derive(Clone, Debug)]
pub enum ExitOutcome {
    Success,
    Failure(Option<i32>),
    WaitError(String),
}

impl View for ExitOutcome {
    type V = ExitOutcomeView;

    open spec fn view(&self) -> ExitOutcomeView {
        match *self {
            ExitOutcome::Success => ExitOutcomeView::Success,
            ExitOutcome::Failure(code) => ExitOutcomeView::Failure(code),
            ExitOutcome::WaitError(ref err) => ExitOutcomeView::WaitError(err@),
        }
    }
}

/// The events announcing a successful spawn: the real pid supersedes the
/// provisional start signal, then an informational log line follows. When
/// the OS reported no pid, nothing is announced.
pub open spec fn start_events(name: Seq<char>, ts: Seq<char>, pid: Option<u32>) -> Seq<EventView> {
    match pid {
        Some(id) => seq![
            EventView::ServiceStatus(name, ServiceStatus::Running(id)),
            EventView::ServiceLog(name, started_line(ts, name)),
        ],
        None => Seq::<EventView>::empty(),
    }
}

/// The log event for one line of child output, tagged by its stream.
pub open spec fn line_event(name: Seq<char>, l: StreamLineView) -> EventView {
    if l.from_stderr {
        EventView::ServiceLog(name, stderr_line(l.timestamp, l.text))
    } else {
        EventView::ServiceLog(name, stdout_line(l.timestamp, l.text))
    }
}

/// The two final events of a supervised run: a summary log line, then the
/// terminal status. The status is `Completed` exactly on a clean exit.
pub open spec fn exit_events(name: Seq<char>, ts: Seq<char>, exit: ExitOutcomeView) -> Seq<
    EventView,
> {
    match exit {
        ExitOutcomeView::Success => seq![
            EventView::ServiceLog(name, completed_line(ts)),
            EventView::ServiceStatus(name, ServiceStatus::Completed),
        ],
        ExitOutcomeView::Failure(code) => seq![
            EventView::ServiceLog(name, failed_exit_line(ts, code)),
            EventView::ServiceStatus(name, ServiceStatus::Failed),
        ],
        ExitOutcomeView::WaitError(err) => seq![
            EventView::ServiceLog(name, wait_error_line(ts, err)),
            EventView::ServiceStatus(name, ServiceStatus::Failed),
        ],
    }
}

/// The ordered event sequence one supervised invocation produces after the
/// provisional start signal: on a spawn failure one error log line and one
/// `Failed` status; otherwise the start announcement, one log event per
/// output line in the order the readers handed them back, and the two
/// final events. Log lines always precede the terminal status.
pub open spec fn supervision_transcript(
    name: Seq<char>,
    start_ts: Seq<char>,
    spawn: SpawnOutcomeView,
    lines: Seq<StreamLineView>,
    exit_ts: Seq<char>,
    exit: ExitOutcomeView,
) -> Seq<EventView> {
    match spawn {
        SpawnOutcomeView::SpawnError(err) => seq![
            EventView::ServiceLog(name, spawn_failure_line(start_ts, err)),
            EventView::ServiceStatus(name, ServiceStatus::Failed),
        ],
        SpawnOutcomeView::Started(pid) => start_events(name, start_ts, pid) + lines.map_values(
            |l: StreamLineView| line_event(name, l),
        ) + exit_events(name, exit_ts, exit),
    }
}

/// The full event sequence of one supervised invocation, given how the
/// spawn went, the output lines the two stream readers collected (in any
/// interleaving that respects each stream's own order), and how the wait
/// ended.
pub fn supervisor_events(
    name: &String,
    start_ts: &String,
    spawn: &SpawnOutcome,
    lines: &Vec<StreamLine>,
    exit_ts: &String,
    exit: &ExitOutcome,
) -> (evs: Vec<Event>)
    ensures
        evs.deep_view() == supervision_transcript(
            name@,
            start_ts@,
            spawn@,
            lines.deep_view(),
            exit_ts@,
            exit@,
        ),
{
    let mut evs: Vec<Event> = Vec::new();
    match spawn {
        SpawnOutcome::SpawnError(err) => {
            let msg = spawn_failure_message(start_ts, err);
            evs.push(Event::ServiceLog(name.clone(), msg));
            evs.push(Event::ServiceStatus(name.clone(), ServiceStatus::Failed));
            proof {
                assert(evs.deep_view() =~= supervision_transcript(
                    name@,
                    start_ts@,
                    spawn@,
                    lines.deep_view(),
                    exit_ts@,
                    exit@,
                ));
            }
        },
        SpawnOutcome::Started(pid) => {
            let ghost head = start_events(name@, start_ts@, *pid);
            let ghost mapped = lines.deep_view().map_values(
                |l: StreamLineView| line_event(name@, l),
            );
            match pid {
                Some(id) => {
                    evs.push(Event::ServiceStatus(name.clone(), ServiceStatus::Running(*id)));
                    let msg = started_message(start_ts, name);
                    evs.push(Event::ServiceLog(name.clone(), msg));
                },
                None => {},
            }
            proof {
                assert(evs.deep_view() =~= head + mapped.take(0));
            }
            let mut i: usize = 0;
            while i < lines.len()
                invariant
                    i <= lines.len(),
                    mapped == lines.deep_view().map_values(
                        |l: StreamLineView| line_event(name@, l),
                    ),
                    evs.deep_view() =~= head + mapped.take(i as int),
                decreases lines.len() - i,
            {
                let msg = if lines[i].from_stderr {
                    stderr_message(&lines[i].timestamp, &lines[i].text)
                } else {
                    stdout_message(&lines[i].timestamp, &lines[i].text)
                };
                let ghost prev = evs.deep_view();
                evs.push(Event::ServiceLog(name.clone(), msg));
                i = i + 1;
                proof {
                    assert(evs.deep_view() =~= prev.push(EventView::ServiceLog(name@, msg@)));
                    assert(lines.deep_view()[i - 1] == lines@[i - 1]@);
                    assert(mapped[i - 1] == line_event(name@, lines.deep_view()[i - 1]));
                    assert(EventView::ServiceLog(name@, msg@) == mapped[i - 1]);
                    assert(head + mapped.take(i as int) =~= prev.push(mapped[i - 1]));
                    assert(evs.deep_view() =~= head + mapped.take(i as int));
                }
            }
            proof {
                assert(mapped.take(lines.len() as int) =~= mapped);
            }
            match exit {
                ExitOutcome::Success => {
                    let msg = completed_message(exit_ts);
                    evs.push(Event::ServiceLog(name.clone(), msg));
                    evs.push(Event::ServiceStatus(name.clone(), ServiceStatus::Completed));
                },
                ExitOutcome::Failure(code) => {
                    let msg = failed_exit_message(exit_ts, code);
                    evs.push(Event::ServiceLog(name.clone(), msg));
                    evs.push(Event::ServiceStatus(name.clone(), ServiceStatus::Failed));
                },
                ExitOutcome::WaitError(err) => {
                    let msg = wait_error_message(exit_ts, err);
                    evs.push(Event::ServiceLog(name.clone(), msg));
                    evs.push(Event::ServiceStatus(name.clone(), ServiceStatus::Failed));
                },
            }
            proof {
                assert(evs.deep_view() =~= supervision_transcript(
                    name@,
                    start_ts@,
                    spawn@,
                    lines.deep_view(),
                    exit_ts@,
                    exit@,
                ));
            }
        },
    }
    evs
}

/// Shape of the transcript of a run that spawned and exited cleanly: it
/// ends with the `Completed` status for this service, and no earlier event
/// is a terminal status — every log line of the run precedes the status
/// event that closes it.
pub open spec fn completed_run_shape(t: Seq<EventView>, name: Seq<char>) -> bool {
    &&& t.len() >= 2
    &&& t.last() == EventView::ServiceStatus(name, ServiceStatus::Completed)
    &&& forall|i: int| 0 <= i < t.len() - 1 ==> !terminal_status_event(#[trigger] t[i])
}

/// For every successfully spawned process that exits with code zero, the
/// supervision transcript ends with a `Completed` status and all its log
/// events come before that terminal status, whatever the output lines
/// were.
pub proof fn lemma_completed_run_events(
    name: Seq<char>,
    start_ts: Seq<char>,
    pid: Option<u32>,
    lines: Seq<StreamLineView>,
    exit_ts: Seq<char>,
)
    ensures
        completed_run_shape(
            supervision_transcript(
                name,
                start_ts,
                SpawnOutcomeView::Started(pid),
                lines,
                exit_ts,
                ExitOutcomeView::Success,
            ),
            name,
        ),
{
    let head = start_events(name, start_ts, pid);
    let mapped = lines.map_values(|l: StreamLineView| line_event(name, l));
    let tail = exit_events(name, exit_ts, ExitOutcomeView::Success);
    let t = supervision_transcript(
        name,
        start_ts,
        SpawnOutcomeView::Started(pid),
        lines,
        exit_ts,
        ExitOutcomeView::Success,
    );
    assert(t == head + mapped + tail);
    assert(t.last() == tail[1]);
    assert forall|i: int| 0 <= i < t.len() - 1 implies !terminal_status_event(#[trigger] t[i]) by {
        if i < head.len() {
            assert(t[i] == head[i]);
        } else if i < head.len() + mapped.len() {
            assert(t[i] == mapped[i - head.len()]);
            assert(mapped[i - head.len()] == line_event(name, lines[i - head.len()]));
        } else {
            assert(t[i] == tail[i - head.len() - mapped.len()]);
        }
    }
}

/// Shape of the transcript of an invocation whose spawn failed: exactly
/// two events — one error-tagged log line for this service, then exactly
/// one `Failed` status — and no `Running` status anywhere.
pub open spec fn spawn_failure_shape(t: Seq<EventView>, name: Seq<char>) -> bool {
    &&& t.len() == 2
    &&& t[0] matches EventView::ServiceLog(n, line) && n == name && error_tagged(line)
    &&& t[1] == EventView::ServiceStatus(name, ServiceStatus::Failed)
    &&& forall|i: int| 0 <= i < t.len() ==> !running_status_event(#[trigger] t[i])
    &&& forall|i: int| 0 <= i < t.len() && terminal_status_event(#[trigger] t[i]) ==> i == 1
}

/// For every process that fails to spawn, the supervision transcript holds
/// exactly one `Failed` status event, at least one error-tagged log line,
/// and no `Running` status at all.
pub proof fn lemma_spawn_failure_events(
    name: Seq<char>,
    start_ts: Seq<char>,
    err: Seq<char>,
    lines: Seq<StreamLineView>,
    exit_ts: Seq<char>,
    exit: ExitOutcomeView,
)
    ensures
        spawn_failure_shape(
            supervision_transcript(
                name,
                start_ts,
                SpawnOutcomeView::SpawnError(err),
                lines,
                exit_ts,
                exit,
            ),
            name,
        ),
{
    let line = spawn_failure_line(start_ts, err);
    lemma_spawn_failure_line_error_tagged(start_ts, err);
    assert(error_tagged(line));
}

/// The spawn-failure log line carries the error tag.
proof fn lemma_spawn_failure_line_error_tagged(start_ts: Seq<char>, err: Seq<char>)
    ensures
        error_tagged(spawn_failure_line(start_ts, err)),
{
    reveal_strlit(" [ERROR] Failed to start: ");
    reveal_strlit("[ERROR]");
    let line = spawn_failure_line(start_ts, err);
    let w = start_ts.len() as int + 1;
    assert forall|k: int| 0 <= k < 7 implies line.subrange(w, w + 7)[k] == "[ERROR]"@[k] by {
        assert(line[w + k] == (start_ts + " [ERROR] Failed to start: "@)[w + k]);
        assert((start_ts + " [ERROR] Failed to start: "@)[w + k] == " [ERROR] Failed to start: "@[k
            + 1]);
    }
    assert(line.subrange(w, w + 7) =~= "[ERROR]"@);
}

/// Declares `tokio::sync::mpsc::UnboundedSender`, the producing half of
/// the shared event channel; the library holds it and sends through the
/// trusted wrapper below.
#[verifier::external_type_specification]
#[verifier::external_body]
#[verifier::reject_recursive_types(T)]
pub struct ExUnboundedSender<T>(tokio::sync::mpsc::UnboundedSender<T>);

/// Relies on tokio's `UnboundedSender::send`: enqueueing on an unbounded
/// channel never blocks and fails exactly when the receiving half is gone,
/// which the dashboard treats as shutdown in progress, so nothing more is
/// stated of the shared channel.
#[verifier::external_body]
fn send_event(tx: &tokio::sync::mpsc::UnboundedSender<Event>, event: Event) -> (delivered: bool) {
    tx.send(event).is_ok()
}

/// Relies on chrono's `Local::now` and `DateTime::format` with `"%H:%M:%S"`:
/// hours, minutes and seconds, each zero-padded to two digits, separated by
/// colons. The result depends on the wall clock, so only its length is
/// stated.
#[verifier::external_body]
fn now_timestamp() -> (r: String)
    ensures
        r@.len() == 8,
{
    chrono::Local::now().format("%H:%M:%S").to_string()
}

/// The producing half of one supervised invocation: it owns a handle to
/// the shared event channel and emits the supervision events in their
/// contractual order. Whether each event is still delivered depends on the
/// consumer being alive, which only the channel knows; the events' values
/// and order are fixed by the builders and the transcript above.
pub struct ProcessManager {
    event_tx: tokio::sync::mpsc::UnboundedSender<Event>,
}

impl ProcessManager {
    /// A manager emitting into the given channel.
    pub fn new(event_tx: tokio::sync::mpsc::UnboundedSender<Event>) -> ProcessManager {
        ProcessManager { event_tx }
    }

    /// The provisional start signal: `Running` with placeholder pid 0, sent
    /// before the OS is asked to spawn, so the view reflects an in-flight
    /// start at once.
    pub fn notify_start_requested(&self, name: &String) {
        let _ = send_event(&self.event_tx, Event::ServiceStatus(name.clone(), ServiceStatus::Running(0)));
    }

    /// The two spawn-failure events: one error-tagged log line, then the
    /// `Failed` status.
    pub fn notify_spawn_failure(&self, name: &String, err: &String) {
        let ts = now_timestamp();
        let msg = spawn_failure_message(&ts, err);
        let _ = send_event(&self.event_tx, Event::ServiceLog(name.clone(), msg));
        let _ = send_event(&self.event_tx, Event::ServiceStatus(name.clone(), ServiceStatus::Failed));
    }

    /// The two start-success events: the real pid supersedes the
    /// provisional status, then an informational log line follows.
    pub fn notify_started(&self, name: &String, pid: u32) {
        let ts = now_timestamp();
        let _ = send_event(&self.event_tx, Event::ServiceStatus(name.clone(), ServiceStatus::Running(pid)));
        let msg = started_message(&ts, name);
        let _ = send_event(&self.event_tx, Event::ServiceLog(name.clone(), msg));
    }

    /// One log event for one line of child output, tagged by its stream.
    pub fn notify_output_line(&self, name: &String, from_stderr: bool, text: &String) {
        let ts = now_timestamp();
        let msg = if from_stderr {
            stderr_message(&ts, text)
        } else {
            stdout_message(&ts, text)
        };
        let _ = send_event(&self.event_tx, Event::ServiceLog(name.clone(), msg));
    }

    /// The two final events of a run: the summary log line, then the
    /// terminal status — `Completed` exactly on a clean exit.
    pub fn notify_exit(&self, name: &String, exit: &ExitOutcome) {
        let ts = now_timestamp();
        match exit {
            ExitOutcome::Success => {
                let msg = completed_message(&ts);
                let _ = send_event(&self.event_tx, Event::ServiceLog(name.clone(), msg));
                let _ = send_event(
                    &self.event_tx,
                    Event::ServiceStatus(name.clone(), ServiceStatus::Completed),
                );
            },
            ExitOutcome::Failure(code) => {
                let msg = failed_exit_message(&ts, code);
                let _ = send_event(&self.event_tx, Event::ServiceLog(name.clone(), msg));
                let _ = send_event(
                    &self.event_tx,
                    Event::ServiceStatus(name.clone(), ServiceStatus::Failed),
                );
            },
            ExitOutcome::WaitError(err) => {
                let msg = wait_error_message(&ts, err);
                let _ = send_event(&self.event_tx, Event::ServiceLog(name.clone(), msg));
                let _ = send_event(
                    &self.event_tx,
                    Event::ServiceStatus(name.clone(), ServiceStatus::Failed),
                );
            },
        }
    }
}

} // verus!
