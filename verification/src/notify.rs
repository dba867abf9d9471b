//! What a run tells its consumer: log lines, output chunks, errors, and the
//! closing report.

use crate::text::{push_signed_decimal, signed_decimal};
use vstd::prelude::*;

verus! {

/// The closing report of a run whose worker process reached an exit status.
#[derive(Clone, Copy, Debug, PartialEq, Eq, Structural)]
pub struct DonePayload {
    /// Whether the worker process exited successfully.
    pub ok: bool,
    /// The numeric exit code, where the process reported one.
    pub code: Option<i32>,
}

/// An error reported to the consumer.
#[derive(Clone, Debug, PartialEq, Eq)]
pub struct ErrorPayload {
    pub message: String,
}

impl View for ErrorPayload {
    type V = Seq<char>;

    open spec fn view(&self) -> Seq<char> {
        self.message@
    }
}

/// One notification of a run.
#[derive(Clone, Debug, PartialEq, Eq)]
pub enum Notification {
    /// A human-readable line about the progress of the run.
    Log(String),
    /// A piece of the worker's primary output, as it arrived.
    Chunk(String),
    /// A failure of the run.
    Error(ErrorPayload),
    /// The worker process ended with a known status; nothing follows.
    Done(DonePayload),
}

/// A notification as a plain value.
pub enum NotificationView {
    Log(Seq<char>),
    Chunk(Seq<char>),
    Error(Seq<char>),
    Done(DonePayload),
}

impl View for Notification {
    type V = NotificationView;

    open spec fn view(&self) -> NotificationView {
        match self {
            Notification::Log(line) => NotificationView::Log(line@),
            Notification::Chunk(text) => NotificationView::Chunk(text@),
            Notification::Error(payload) => NotificationView::Error(payload@),
            Notification::Done(payload) => NotificationView::Done(*payload),
        }
    }
}

/// The name of the event on which a notification is delivered.
pub open spec fn event_name_of(n: NotificationView) -> Seq<char> {
    match n {
        NotificationView::Log(_) => "ollama://log"@,
        NotificationView::Chunk(_) => "ollama://chunk"@,
        NotificationView::Error(_) => "ollama://error"@,
        NotificationView::Done(_) => "ollama://done"@,
    }
}

/// The name of the event on which forwarded input is delivered.
pub fn input_event() -> (name: &'static str)
    ensures
        name@ == "ollama://input"@,
{
    "ollama://input"
}

impl Notification {
    /// The name of the event on which this notification is delivered.
    pub fn event_name(&self) -> (name: &'static str)
        ensures
            name@ == event_name_of(self@),
    {
        match self {
            Notification::Log(_) => "ollama://log",
            Notification::Chunk(_) => "ollama://chunk",
            Notification::Error(_) => "ollama://error",
            Notification::Done(_) => "ollama://done",
        }
    }

    /// An error notification with the given message.
    pub fn error(message: String) -> (n: Notification)
        ensures
            n@ == NotificationView::Error(message@),
    {
        Notification::Error(ErrorPayload { message })
    }

    /// A log notification that holds `line`.
    pub fn log(line: &str) -> (n: Notification)
        ensures
            n@ == NotificationView::Log(line@),
    {
        Notification::Log(line.to_owned())
    }
}

/// An exit code the way a log line shows it: `None`, or the number inside
/// `Some(..)`.
pub open spec fn exit_code_text(code: Option<i32>) -> Seq<char> {
    match code {
        Some(c) => "Some("@ + signed_decimal(c as int) + ")"@,
        None => "None"@,
    }
}

/// The log line that reports how the worker process exited.
pub open spec fn exit_line(success: bool, code: Option<i32>) -> Seq<char> {
    "exit: success="@ + (if success {
        "true"@
    } else {
        "false"@
    }) + " code="@ + exit_code_text(code)
}

/// Renders the log line that reports how the worker process exited.
pub fn render_exit_line(success: bool, code: Option<i32>) -> (line: String)
    ensures
        line@ == exit_line(success, code),
{
    let mut line = String::new();
    line.append("exit: success=");
    if success {
        line.append("true");
    } else {
        line.append("false");
    }
    line.append(" code=");
    match code {
        Some(c) => {
            line.append("Some(");
            push_signed_decimal(&mut line, c);
            line.append(")");
        },
        None => {
            line.append("None");
        },
    }
    assert(line@ =~= exit_line(success, code));
    line
}

} // verus!
