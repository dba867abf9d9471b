//! One run of the worker process, as a state machine: each event that the
//! surrounding program reports is answered with the actions to perform next.

use crate::controller::{after_finish, AppStateView, RunPlan, RunPlanView};
use crate::notify::{exit_line, render_exit_line, DonePayload, Notification, NotificationView};
use crate::resolver::{
    augment_search_path, augmented_search_path, resolve_ollama_path, resolved_path,
};
use crate::sanitize::{strip_ansi, stripped};
use crate::signal::read_signal;
use crate::text::{
    decimal, decode_lossy, is_blank, is_blank_text, push_decimal, trim, trimmed, utf8_lossy,
};
use tokio::sync::watch::Receiver;
use vstd::prelude::*;
use vstd::utf8::{decode_utf8, encode_utf8, valid_utf8};

verus! {

/// How far a session has come.
#[derive(Clone, Copy, Debug, PartialEq, Eq, Structural)]
pub enum Phase {
    /// The worker process is being started.
    Spawning,
    /// The prompt is being written to the worker's input.
    WritingPrompt,
    /// The worker's input is being closed.
    ClosingInput,
    /// Output is read, and the cancellation signal is watched.
    Running,
    /// The worker's exit is awaited.
    AwaitingExit,
    /// The worker exited as the report says; the diagnostic text is awaited.
    AwaitingDiagnostics(DonePayload),
    /// The session has ended.
    Terminated,
}

/// How the worker process is started: `program run model`, in a plain
/// terminal without colours, with `search_path` as its search path.
#[derive(Clone, Debug, PartialEq, Eq)]
pub struct Launch {
    pub program: String,
    pub model: String,
    pub search_path: String,
}

/// A launch as a plain value.
pub struct LaunchView {
    pub program: Seq<char>,
    pub model: Seq<char>,
    pub search_path: Seq<char>,
}

impl View for Launch {
    type V = LaunchView;

    open spec fn view(&self) -> LaunchView {
        LaunchView {
            program: self.program@,
            model: self.model@,
            search_path: self.search_path@,
        }
    }
}

/// What the surrounding program reports to a session.
#[derive(Clone, Debug, PartialEq, Eq)]
pub enum Event {
    /// The worker process was started, with these pipes to it.
    Spawned { pid: Option<u32>, stdin: bool, stdout: bool, stderr: bool },
    /// The worker process could not be started.
    SpawnFailed { reason: String },
    /// The prompt was written.
    PromptWritten,
    /// Writing the prompt failed.
    PromptWriteFailed { reason: String },
    /// The worker's input was closed.
    InputClosed,
    /// Closing the worker's input failed.
    InputCloseFailed { reason: String },
    /// A read of the primary output returned these bytes; none at its end.
    Output { bytes: Vec<u8> },
    /// A read of the primary output failed.
    OutputFailed { reason: String },
    /// The wait for a change of the cancellation signal returned: `open`
    /// says whether the signal's writer still exists, `raised` what the
    /// signal holds.
    SignalChanged { open: bool, raised: bool },
    /// The worker process exited.
    Exited { success: bool, code: Option<i32> },
    /// Waiting for the worker process failed.
    WaitFailed { reason: String },
    /// The diagnostic reader has ended and collected this text.
    Diagnostics { text: String },
}

/// An event as a plain value.
pub enum EventView {
    Spawned { pid: Option<u32>, stdin: bool, stdout: bool, stderr: bool },
    SpawnFailed { reason: Seq<char> },
    PromptWritten,
    PromptWriteFailed { reason: Seq<char> },
    InputClosed,
    InputCloseFailed { reason: Seq<char> },
    Output { bytes: Seq<u8> },
    OutputFailed { reason: Seq<char> },
    SignalChanged { open: bool, raised: bool },
    Exited { success: bool, code: Option<i32> },
    WaitFailed { reason: Seq<char> },
    Diagnostics { text: Seq<char> },
}

impl View for Event {
    type V = EventView;

    open spec fn view(&self) -> EventView {
        match self {
            Event::Spawned { pid, stdin, stdout, stderr } => EventView::Spawned {
                pid: *pid,
                stdin: *stdin,
                stdout: *stdout,
                stderr: *stderr,
            },
            Event::SpawnFailed { reason } => EventView::SpawnFailed { reason: reason@ },
            Event::PromptWritten => EventView::PromptWritten,
            Event::PromptWriteFailed { reason } => EventView::PromptWriteFailed {
                reason: reason@,
            },
            Event::InputClosed => EventView::InputClosed,
            Event::InputCloseFailed { reason } => EventView::InputCloseFailed { reason: reason@ },
            Event::Output { bytes } => EventView::Output { bytes: bytes@ },
            Event::OutputFailed { reason } => EventView::OutputFailed { reason: reason@ },
            Event::SignalChanged { open, raised } => EventView::SignalChanged {
                open: *open,
                raised: *raised,
            },
            Event::Exited { success, code } => EventView::Exited {
                success: *success,
                code: *code,
            },
            Event::WaitFailed { reason } => EventView::WaitFailed { reason: reason@ },
            Event::Diagnostics { text } => EventView::Diagnostics { text: text@ },
        }
    }
}

/// What a session asks the surrounding program to do.
#[derive(Clone, Debug, PartialEq, Eq)]
pub enum Action {
    /// Deliver a notification to the consumer.
    Emit(Notification),
    /// Start the worker process; answered by `Spawned` or `SpawnFailed`.
    Spawn(Launch),
    /// Write this text to the worker's input; answered by `PromptWritten`
    /// or `PromptWriteFailed`.
    WritePrompt(String),
    /// Close the worker's input; answered by `InputClosed` or
    /// `InputCloseFailed`.
    CloseInput,
    /// Start reading the diagnostic stream, beside everything else.
    ReadDiagnostics,
    /// Wait for primary output or a change of the cancellation signal,
    /// whichever comes first; answered by `Output`, `OutputFailed` or
    /// `SignalChanged`.
    AwaitOutput,
    /// Terminate the worker process by force.
    Kill,
    /// Wait for the worker process to exit; answered by `Exited` or
    /// `WaitFailed`.
    AwaitExit,
    /// Wait for the diagnostic reader to end; answered by `Diagnostics`.
    AwaitDiagnostics,
    /// Free the run slot: the session is over.
    Release,
}

/// An action as a plain value.
pub enum ActionView {
    Emit(NotificationView),
    Spawn(LaunchView),
    WritePrompt(Seq<char>),
    CloseInput,
    ReadDiagnostics,
    AwaitOutput,
    Kill,
    AwaitExit,
    AwaitDiagnostics,
    Release,
}

impl View for Action {
    type V = ActionView;

    open spec fn view(&self) -> ActionView {
        match self {
            Action::Emit(n) => ActionView::Emit(n@),
            Action::Spawn(launch) => ActionView::Spawn(launch@),
            Action::WritePrompt(text) => ActionView::WritePrompt(text@),
            Action::CloseInput => ActionView::CloseInput,
            Action::ReadDiagnostics => ActionView::ReadDiagnostics,
            Action::AwaitOutput => ActionView::AwaitOutput,
            Action::Kill => ActionView::Kill,
            Action::AwaitExit => ActionView::AwaitExit,
            Action::AwaitDiagnostics => ActionView::AwaitDiagnostics,
            Action::Release => ActionView::Release,
        }
    }
}

/// A list of actions as plain values.
pub open spec fn action_views(actions: Seq<Action>) -> Seq<ActionView> {
    Seq::new(actions.len(), |i: int| actions[i]@)
}

/// A session as a plain value.
pub struct SessionView {
    pub phase: Phase,
    /// The prompt for the worker.
    pub prompt: Seq<char>,
    /// Whether the worker's primary output was captured.
    pub stdout: bool,
    /// Whether the worker's diagnostic stream was captured.
    pub stderr: bool,
    /// Whether any primary output has arrived.
    pub received_any: bool,
}

/// The log line that opens a run.
pub open spec fn start_line(program: Seq<char>, plan: RunPlanView) -> Seq<char> {
    "start: cmd="@ + program + " model="@ + plan.model + " target_language="@
        + plan.target_language + " prompt_bytes="@ + decimal(encode_utf8(plan.prompt).len())
}

/// The log line that reports the worker's process id.
pub open spec fn spawned_line(pid: u32) -> Seq<char> {
    "spawned: pid="@ + decimal(pid as nat)
}

/// The log line for a piece of diagnostic output: what is left of it once
/// control sequences and surrounding whitespace are removed, if anything.
pub open spec fn diagnostic_line(chunk: Seq<u8>) -> Option<Seq<char>> {
    diagnostic_line_of(utf8_lossy(chunk))
}

/// The log line for a piece of diagnostic output that reads `text`.
pub open spec fn diagnostic_line_of(text: Seq<char>) -> Option<Seq<char>> {
    let cleaned = trimmed(stripped(text));
    if cleaned.len() == 0 {
        None
    } else {
        Some("stderr: "@ + cleaned)
    }
}

/// The log notification that holds `line`, if there is a line.
pub open spec fn log_of(line: Option<Seq<char>>) -> Option<NotificationView> {
    match line {
        Some(line) => Some(NotificationView::Log(line)),
        None => None,
    }
}

/// What a piece of primary output that reads `text` is answered with: the
/// text is delivered as it is, and the next piece is awaited.
pub open spec fn chunk_actions(text: Seq<char>) -> Seq<ActionView> {
    seq![ActionView::Emit(NotificationView::Chunk(text)), ActionView::AwaitOutput]
}

/// A session that has just been opened, and its first actions: the opening
/// log line, then the start of the worker process.
pub open spec fn begin_model(plan: RunPlanView, installed: Seq<bool>, path_env: Seq<char>) -> (
    SessionView,
    Seq<ActionView>,
) {
    let program = resolved_path(installed);
    (
        SessionView {
            phase: Phase::Spawning,
            prompt: plan.prompt,
            stdout: false,
            stderr: false,
            received_any: false,
        },
        seq![
            ActionView::Emit(NotificationView::Log(start_line(program, plan))),
            ActionView::Spawn(
                LaunchView {
                    program,
                    model: plan.model,
                    search_path: augmented_search_path(path_env),
                },
            ),
        ],
    )
}

/// The session ends on a failure before the worker's exit status is known:
/// the error is reported, and no closing report follows.
pub open spec fn abandon(s: SessionView, message: Seq<char>) -> (SessionView, Seq<ActionView>) {
    (
        SessionView { phase: Phase::Terminated, ..s },
        seq![ActionView::Emit(NotificationView::Error(message)), ActionView::Release],
    )
}

/// The worker has its prompt. With both output streams captured the
/// session starts reading them; without one of them it ends.
pub open spec fn start_reading(s: SessionView) -> (SessionView, Seq<ActionView>) {
    if !s.stdout {
        abandon(s, "failed to capture stdout"@)
    } else if !s.stderr {
        abandon(s, "failed to capture stderr"@)
    } else {
        (
            SessionView { phase: Phase::Running, ..s },
            seq![ActionView::ReadDiagnostics, ActionView::AwaitOutput],
        )
    }
}

/// The notifications that close a run whose worker exited: the exit line;
/// an error where the worker failed or gave no output; the closing report.
pub open spec fn closing_notifications(
    exit: DonePayload,
    diagnostics: Seq<char>,
    received_any: bool,
) -> Seq<NotificationView> {
    let report = seq![NotificationView::Done(exit)];
    let line = seq![NotificationView::Log(exit_line(exit.ok, exit.code))];
    if !exit.ok {
        line + seq![
            NotificationView::Error(
                if is_blank(diagnostics) {
                    "ollama exited with an error"@
                } else {
                    diagnostics
                },
            ),
        ] + report
    } else if !received_any {
        line + seq![NotificationView::Error("ollama returned no output"@)] + report
    } else {
        line + report
    }
}

/// The actions that deliver `notifications`, one by one.
pub open spec fn emit_all(notifications: Seq<NotificationView>) -> Seq<ActionView> {
    Seq::new(notifications.len(), |i: int| ActionView::Emit(notifications[i]))
}

/// What a session in state `s` does on event `e`: its next state, and the
/// actions to perform, in order. An event that the phase does not await
/// changes nothing and asks for nothing.
pub open spec fn step_model(s: SessionView, e: EventView) -> (SessionView, Seq<ActionView>) {
    match (s.phase, e) {
        (Phase::Spawning, EventView::SpawnFailed { reason }) => abandon(
            s,
            "failed to start ollama: "@ + reason,
        ),
        (Phase::Spawning, EventView::Spawned { pid, stdin, stdout, stderr }) => {
            let captured = SessionView { stdout, stderr, ..s };
            let greeting = match pid {
                Some(pid) => seq![ActionView::Emit(NotificationView::Log(spawned_line(pid)))],
                None => Seq::empty(),
            };
            if stdin {
                (
                    SessionView { phase: Phase::WritingPrompt, ..captured },
                    greeting + seq![ActionView::WritePrompt(s.prompt)],
                )
            } else {
                (start_reading(captured).0, greeting + start_reading(captured).1)
            }
        },
        (Phase::WritingPrompt, EventView::PromptWritten) => (
            SessionView { phase: Phase::ClosingInput, ..s },
            seq![ActionView::CloseInput],
        ),
        (Phase::WritingPrompt, EventView::PromptWriteFailed { reason }) => abandon(
            s,
            "failed to write prompt: "@ + reason,
        ),
        (Phase::ClosingInput, EventView::InputClosed) => start_reading(s),
        (Phase::ClosingInput, EventView::InputCloseFailed { reason }) => abandon(
            s,
            "failed to close stdin: "@ + reason,
        ),
        (Phase::Running, EventView::Output { bytes }) => if bytes.len() == 0 {
            (
                SessionView { phase: Phase::AwaitingExit, ..s },
                seq![
                    ActionView::Emit(NotificationView::Log("stdout closed"@)),
                    ActionView::AwaitExit,
                ],
            )
        } else {
            (SessionView { received_any: true, ..s }, chunk_actions(utf8_lossy(bytes)))
        },
        (Phase::Running, EventView::OutputFailed { reason }) => abandon(
            s,
            "failed to read stdout: "@ + reason,
        ),
        (Phase::Running, EventView::SignalChanged { open, raised }) => if open && raised {
            (
                SessionView { phase: Phase::AwaitingExit, ..s },
                seq![
                    ActionView::Emit(NotificationView::Log("cancel signal received"@)),
                    ActionView::Kill,
                    ActionView::AwaitExit,
                ],
            )
        } else {
            (s, seq![ActionView::AwaitOutput])
        },
        (Phase::AwaitingExit, EventView::Exited { success, code }) => (
            SessionView {
                phase: Phase::AwaitingDiagnostics(DonePayload { ok: success, code }),
                ..s
            },
            seq![ActionView::AwaitDiagnostics],
        ),
        (Phase::AwaitingExit, EventView::WaitFailed { reason }) => abandon(
            s,
            "failed to wait for process: "@ + reason,
        ),
        (Phase::AwaitingDiagnostics(exit), EventView::Diagnostics { text }) => (
            SessionView { phase: Phase::Terminated, ..s },
            emit_all(closing_notifications(exit, text, s.received_any)).push(ActionView::Release),
        ),
        _ => (s, Seq::empty()),
    }
}

/// One run of the worker process.
pub struct Session {
    phase: Phase,
    prompt: String,
    stdout: bool,
    stderr: bool,
    received_any: bool,
}

impl View for Session {
    type V = SessionView;

    closed spec fn view(&self) -> SessionView {
        SessionView {
            phase: self.phase,
            prompt: self.prompt@,
            stdout: self.stdout,
            stderr: self.stderr,
            received_any: self.received_any,
        }
    }
}

fn push_action(actions: &mut Vec<Action>, action: Action)
    ensures
        action_views(final(actions)@) == action_views(old(actions)@).push(action@),
{
    actions.push(action);
    assert(action_views(actions@) =~= action_views(old(actions)@).push(action@));
}

fn no_actions() -> (actions: Vec<Action>)
    ensures
        action_views(actions@) == Seq::<ActionView>::empty(),
{
    let actions: Vec<Action> = Vec::new();
    assert(action_views(actions@) =~= Seq::<ActionView>::empty());
    actions
}

fn render_start_line(program: &str, plan: &RunPlan) -> (line: String)
    ensures
        line@ == start_line(program@, plan@),
{
    let mut line = String::new();
    line.append("start: cmd=");
    line.append(program);
    line.append(" model=");
    line.append(plan.model.as_str());
    line.append(" target_language=");
    line.append(plan.target_language.as_str());
    line.append(" prompt_bytes=");
    push_decimal(&mut line, plan.prompt.as_str().as_bytes().len() as u64);
    assert(line@ =~= start_line(program@, plan@));
    line
}

fn closing_actions(exit: DonePayload, diagnostics: String, received_any: bool) -> (actions: Vec<
    Action,
>)
    ensures
        action_views(actions@) == emit_all(
            closing_notifications(exit, diagnostics@, received_any),
        ).push(ActionView::Release),
{
    let mut actions = no_actions();
    push_action(&mut actions, Action::Emit(Notification::Log(render_exit_line(exit.ok, exit.code))));
    if !exit.ok {
        let message = if is_blank_text(diagnostics.as_str()) {
            "ollama exited with an error".to_owned()
        } else {
            diagnostics
        };
        push_action(&mut actions, Action::Emit(Notification::error(message)));
    } else if !received_any {
        push_action(
            &mut actions,
            Action::Emit(Notification::error("ollama returned no output".to_owned())),
        );
    }
    push_action(&mut actions, Action::Emit(Notification::Done(exit)));
    push_action(&mut actions, Action::Release);
    assert(action_views(actions@) =~= emit_all(
        closing_notifications(exit, diagnostics@, received_any),
    ).push(ActionView::Release));
    actions
}

impl Session {
    /// Opens the session of an accepted request. `installed` says for each
    /// known install location, in order, whether the worker executable
    /// exists there; `path_env` is the inherited search path.
    pub fn begin(plan: RunPlan, installed: &Vec<bool>, path_env: &str) -> (opened: (
        Session,
        Vec<Action>,
    ))
        ensures
            (opened.0@, action_views(opened.1@)) == begin_model(plan@, installed@, path_env@),
    {
        let program = resolve_ollama_path(installed);
        let line = render_start_line(program.as_str(), &plan);
        let search_path = augment_search_path(path_env);
        let mut actions = no_actions();
        push_action(&mut actions, Action::Emit(Notification::Log(line)));
        push_action(
            &mut actions,
            Action::Spawn(Launch { program, model: plan.model, search_path }),
        );
        let session = Session {
            phase: Phase::Spawning,
            prompt: plan.prompt,
            stdout: false,
            stderr: false,
            received_any: false,
        };
        assert(action_views(actions@) =~= begin_model(plan@, installed@, path_env@).1);
        (session, actions)
    }

    /// How far the session has come.
    pub fn phase(&self) -> (phase: Phase)
        ensures
            phase == self@.phase,
    {
        self.phase
    }

    /// Whether the session has ended.
    pub fn is_terminated(&self) -> (ended: bool)
        ensures
            ended == (self@.phase == Phase::Terminated),
    {
        match self.phase {
            Phase::Terminated => true,
            _ => false,
        }
    }

    fn abandon(&mut self, what: &str, reason: &str) -> (actions: Vec<Action>)
        ensures
            (final(self)@, action_views(actions@)) == abandon(old(self)@, what@ + reason@),
    {
        let mut message = String::new();
        message.append(what);
        message.append(reason);
        assert(message@ =~= what@ + reason@);
        self.phase = Phase::Terminated;
        let mut actions = no_actions();
        push_action(&mut actions, Action::Emit(Notification::error(message)));
        push_action(&mut actions, Action::Release);
        assert(action_views(actions@) =~= abandon(old(self)@, what@ + reason@).1);
        actions
    }

    fn start_reading(&mut self, actions: &mut Vec<Action>)
        ensures
            final(self)@ == start_reading(old(self)@).0,
            action_views(final(actions)@) == action_views(old(actions)@) + start_reading(
                old(self)@,
            ).1,
    {
        let ghost before = action_views(actions@);
        if !self.stdout || !self.stderr {
            let what = if !self.stdout {
                "failed to capture stdout"
            } else {
                "failed to capture stderr"
            };
            self.phase = Phase::Terminated;
            push_action(actions, Action::Emit(Notification::error(what.to_owned())));
            push_action(actions, Action::Release);
        } else {
            self.phase = Phase::Running;
            push_action(actions, Action::ReadDiagnostics);
            push_action(actions, Action::AwaitOutput);
        }
        assert(action_views(actions@) =~= before + start_reading(old(self)@).1);
    }

    /// Takes in one event and says what to do next. Primary output that is
    /// valid UTF-8 is delivered as the text it encodes.
    pub fn step(&mut self, event: Event) -> (actions: Vec<Action>)
        ensures
            (final(self)@, action_views(actions@)) == step_model(old(self)@, event@),
            old(self)@.phase == Phase::Running && event@ is Output && event@->bytes.len() > 0
                && valid_utf8(event@->bytes) ==> action_views(actions@) == chunk_actions(
                decode_utf8(event@->bytes),
            ),
    {
        match self.phase {
            Phase::Spawning => match event {
                Event::SpawnFailed { reason } => self.abandon(
                    "failed to start ollama: ",
                    reason.as_str(),
                ),
                Event::Spawned { pid, stdin, stdout, stderr } => {
                    self.stdout = stdout;
                    self.stderr = stderr;
                    let mut actions = no_actions();
                    match pid {
                        Some(pid) => {
                            let mut line = String::new();
                            line.append("spawned: pid=");
                            push_decimal(&mut line, pid as u64);
                            push_action(&mut actions, Action::Emit(Notification::Log(line)));
                        },
                        None => {},
                    }
                    let ghost greeting = action_views(actions@);
                    if stdin {
                        self.phase = Phase::WritingPrompt;
                        push_action(&mut actions, Action::WritePrompt(self.prompt.clone()));
                        assert(action_views(actions@) =~= greeting + seq![
                            ActionView::WritePrompt(self.prompt@),
                        ]);
                    } else {
                        self.start_reading(&mut actions);
                    }
                    actions
                },
                _ => no_actions(),
            },
            Phase::WritingPrompt => match event {
                Event::PromptWritten => {
                    self.phase = Phase::ClosingInput;
                    let mut actions = no_actions();
                    push_action(&mut actions, Action::CloseInput);
                    assert(action_views(actions@) =~= seq![ActionView::CloseInput]);
                    actions
                },
                Event::PromptWriteFailed { reason } => self.abandon(
                    "failed to write prompt: ",
                    reason.as_str(),
                ),
                _ => no_actions(),
            },
            Phase::ClosingInput => match event {
                Event::InputClosed => {
                    let mut actions = no_actions();
                    self.start_reading(&mut actions);
                    assert(action_views(actions@) =~= start_reading(old(self)@).1);
                    actions
                },
                Event::InputCloseFailed { reason } => self.abandon(
                    "failed to close stdin: ",
                    reason.as_str(),
                ),
                _ => no_actions(),
            },
            Phase::Running => match event {
                Event::Output { bytes } => {
                    let mut actions = no_actions();
                    if bytes.len() == 0 {
                        self.phase = Phase::AwaitingExit;
                        push_action(&mut actions, Action::Emit(Notification::log("stdout closed")));
                        push_action(&mut actions, Action::AwaitExit);
                        assert(action_views(actions@) =~= seq![
                            ActionView::Emit(NotificationView::Log("stdout closed"@)),
                            ActionView::AwaitExit,
                        ]);
                    } else {
                        self.received_any = true;
                        let chunk = decode_lossy(bytes.as_slice());
                        push_action(&mut actions, Action::Emit(Notification::Chunk(chunk)));
                        push_action(&mut actions, Action::AwaitOutput);
                        assert(action_views(actions@) =~= seq![
                            ActionView::Emit(NotificationView::Chunk(utf8_lossy(bytes@))),
                            ActionView::AwaitOutput,
                        ]);
                    }
                    actions
                },
                Event::OutputFailed { reason } => self.abandon(
                    "failed to read stdout: ",
                    reason.as_str(),
                ),
                Event::SignalChanged { open, raised } => {
                    let mut actions = no_actions();
                    if open && raised {
                        self.phase = Phase::AwaitingExit;
                        push_action(
                            &mut actions,
                            Action::Emit(Notification::log("cancel signal received")),
                        );
                        push_action(&mut actions, Action::Kill);
                        push_action(&mut actions, Action::AwaitExit);
                        assert(action_views(actions@) =~= seq![
                            ActionView::Emit(NotificationView::Log("cancel signal received"@)),
                            ActionView::Kill,
                            ActionView::AwaitExit,
                        ]);
                    } else {
                        push_action(&mut actions, Action::AwaitOutput);
                        assert(action_views(actions@) =~= seq![ActionView::AwaitOutput]);
                    }
                    actions
                },
                _ => no_actions(),
            },
            Phase::AwaitingExit => match event {
                Event::Exited { success, code } => {
                    self.phase = Phase::AwaitingDiagnostics(DonePayload { ok: success, code });
                    let mut actions = no_actions();
                    push_action(&mut actions, Action::AwaitDiagnostics);
                    assert(action_views(actions@) =~= seq![ActionView::AwaitDiagnostics]);
                    actions
                },
                Event::WaitFailed { reason } => self.abandon(
                    "failed to wait for process: ",
                    reason.as_str(),
                ),
                _ => no_actions(),
            },
            Phase::AwaitingDiagnostics(exit) => match event {
                Event::Diagnostics { text } => {
                    self.phase = Phase::Terminated;
                    closing_actions(exit, text, self.received_any)
                },
                _ => no_actions(),
            },
            Phase::Terminated => no_actions(),
        }
    }

    /// Takes in the return of a wait for the cancellation signal: reads what
    /// the signal holds and steps on `SignalChanged`. `open` says whether
    /// the signal's writer still exists.
    pub fn observe_signal(&mut self, open: bool, observer: &Receiver<bool>) -> (actions: Vec<
        Action,
    >)
        ensures
            exists|raised: bool|
                (final(self)@, action_views(actions@)) == step_model(
                    old(self)@,
                    EventView::SignalChanged { open, raised },
                ),
    {
        let raised = read_signal(observer);
        let actions = self.step(Event::SignalChanged { open, raised });
        assert((self@, action_views(actions@)) == step_model(
            old(self)@,
            EventView::SignalChanged { open, raised },
        ));
        actions
    }
}

/// What the worker process is started with, besides its program.
impl Launch {
    /// The arguments: `run`, then the model.
    pub fn args(&self) -> (args: Vec<String>)
        ensures
            args@.len() == 2,
            args@[0]@ == "run"@,
            args@[1]@ == self@.model,
    {
        let mut args: Vec<String> = Vec::new();
        args.push("run".to_owned());
        args.push(self.model.clone());
        args
    }

    /// The environment variables set for the worker: a plain terminal, no
    /// colours, and the search path.
    pub fn env(&self) -> (env: Vec<(String, String)>)
        ensures
            env@.len() == 3,
            env@[0].0@ == "TERM"@ && env@[0].1@ == "dumb"@,
            env@[1].0@ == "OLLAMA_NO_COLOR"@ && env@[1].1@ == "1"@,
            env@[2].0@ == "PATH"@ && env@[2].1@ == self@.search_path,
    {
        let mut env: Vec<(String, String)> = Vec::new();
        env.push(("TERM".to_owned(), "dumb".to_owned()));
        env.push(("OLLAMA_NO_COLOR".to_owned(), "1".to_owned()));
        env.push(("PATH".to_owned(), self.search_path.clone()));
        env
    }
}

/// What a read of the diagnostic stream does to the text collected so far:
/// the bytes collected afterwards, whether to read on, and the line to log.
/// A read without bytes is the end of the stream.
pub open spec fn absorb_model(collected: Seq<u8>, chunk: Seq<u8>) -> (
    Seq<u8>,
    bool,
    Option<NotificationView>,
) {
    if chunk.len() == 0 {
        (collected, false, None)
    } else {
        (collected + chunk, true, log_of(diagnostic_line(chunk)))
    }
}

/// A notification, if there is one, as a plain value.
pub open spec fn notification_of(n: Option<Notification>) -> Option<NotificationView> {
    match n {
        Some(n) => Some(n@),
        None => None,
    }
}

/// Collects the worker's diagnostic stream and turns it into log lines.
pub struct DiagnosticReader {
    collected: Vec<u8>,
}

impl View for DiagnosticReader {
    type V = Seq<u8>;

    closed spec fn view(&self) -> Seq<u8> {
        self.collected@
    }
}

impl DiagnosticReader {
    /// A reader that has collected nothing yet.
    pub fn new() -> (reader: DiagnosticReader)
        ensures
            reader@ == Seq::<u8>::empty(),
    {
        DiagnosticReader { collected: Vec::new() }
    }

    /// Takes in what one read of the diagnostic stream returned. Says
    /// whether to read on, and gives the line to log, if any. Bytes that are
    /// valid UTF-8 are logged as the text they encode.
    pub fn absorb(&mut self, chunk: &[u8]) -> (step: (bool, Option<Notification>))
        ensures
            (final(self)@, step.0, notification_of(step.1)) == absorb_model(old(self)@, chunk@),
            chunk@.len() > 0 && valid_utf8(chunk@) ==> notification_of(step.1) == log_of(
                diagnostic_line_of(decode_utf8(chunk@)),
            ),
    {
        if chunk.len() == 0 {
            return (false, None);
        }
        self.collected.extend_from_slice(chunk);
        let text = decode_lossy(chunk);
        let cleaned = strip_ansi(text.as_str());
        let cleaned = trim(cleaned.as_str());
        if cleaned.as_str().is_empty() {
            (true, None)
        } else {
            let mut line = String::new();
            line.append("stderr: ");
            line.append(cleaned.as_str());
            assert(line@ =~= "stderr: "@ + cleaned@);
            (true, Some(Notification::Log(line)))
        }
    }

    /// The diagnostic text collected, decoded as a whole. Bytes that are
    /// valid UTF-8 give the text they encode.
    pub fn finish(self) -> (text: String)
        ensures
            text@ == utf8_lossy(self@),
            valid_utf8(self@) ==> text@ == decode_utf8(self@),
    {
        decode_lossy(self.collected.as_slice())
    }
}

/// Whether an action is the delivery of a closing report.
pub open spec fn is_closing_report(a: ActionView) -> bool {
    a matches ActionView::Emit(NotificationView::Done(_))
}

/// Whether an action is answered by an event.
pub open spec fn awaits_event(a: ActionView) -> bool {
    a is Spawn || a is WritePrompt || a is CloseInput || a is AwaitOutput || a is AwaitExit
        || a is AwaitDiagnostics
}

/// A session that has ended stays as it is: whatever is reported to it, it
/// asks for nothing more, so nothing more is delivered for its run.
pub proof fn lemma_terminated_is_final(s: SessionView, e: EventView)
    requires
        s.phase == Phase::Terminated,
    ensures
        step_model(s, e) == (s, Seq::<ActionView>::empty()),
{
}

/// The slot is released exactly by the step on which a session ends, and
/// as the last thing that step asks for.
pub proof fn lemma_release_ends_session(s: SessionView, e: EventView, i: int)
    requires
        0 <= i < step_model(s, e).1.len(),
    ensures
        step_model(s, e).1[i] == ActionView::Release ==> i == step_model(s, e).1.len() - 1,
        step_model(s, e).1.last() == ActionView::Release <==> step_model(s, e).0.phase
            == Phase::Terminated,
{
}

/// The closing report is the last notification of a run: in the step that
/// delivers it, only the release of the slot follows, and the session has
/// ended.
pub proof fn lemma_done_is_last_notification(s: SessionView, e: EventView, i: int)
    requires
        0 <= i < step_model(s, e).1.len(),
        is_closing_report(step_model(s, e).1[i]),
    ensures
        i == step_model(s, e).1.len() - 2,
        step_model(s, e).1.last() == ActionView::Release,
        step_model(s, e).0.phase == Phase::Terminated,
{
}

/// As long as a session has not ended, each step with actions ends by
/// asking for exactly one thing that an event answers.
pub proof fn lemma_one_event_awaited(s: SessionView, e: EventView, i: int)
    requires
        0 <= i < step_model(s, e).1.len(),
        step_model(s, e).0.phase != Phase::Terminated,
    ensures
        awaits_event(step_model(s, e).1[i]) <==> i == step_model(s, e).1.len() - 1,
{
}

/// A run whose worker exited closes in one of two shapes: the closing
/// report alone, where the worker succeeded and gave output; else one
/// error, then the closing report. The report says how the worker exited.
pub proof fn lemma_closing_shapes(exit: DonePayload, diagnostics: Seq<char>, received_any: bool)
    ensures
        closing_notifications(exit, diagnostics, received_any).last() == NotificationView::Done(
            exit,
        ),
        closing_notifications(exit, diagnostics, received_any)[0] is Log,
        exit.ok && received_any ==> closing_notifications(exit, diagnostics, received_any).len()
            == 2,
        !(exit.ok && received_any) ==> {
            &&& closing_notifications(exit, diagnostics, received_any).len() == 3
            &&& closing_notifications(exit, diagnostics, received_any)[1] is Error
        },
{
}

/// Once the closing report of a run has been delivered, a cancel request
/// has no effect. The step that delivered the report ended the session and
/// released the slot, so the controller holds no signal to raise; and
/// whatever is reported to the session afterwards, a raised signal too,
/// changes nothing and delivers nothing.
pub proof fn lemma_cancel_after_done_has_no_effect(
    c: AppStateView,
    s: SessionView,
    e: EventView,
    i: int,
    later: EventView,
)
    requires
        0 <= i < step_model(s, e).1.len(),
        is_closing_report(step_model(s, e).1[i]),
    ensures
        step_model(s, e).1.last() == ActionView::Release,
        !after_finish(c).running,
        after_finish(c).pending_input == c.pending_input,
        step_model(step_model(s, e).0, later) == (
            step_model(s, e).0,
            Seq::<ActionView>::empty(),
        ),
{
    lemma_done_is_last_notification(s, e, i);
}

} // verus!
