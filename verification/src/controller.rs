//! The run slot and the pending input: when a run may start, how it is
//! cancelled, and how deferred input is handed over.

use crate::prompt::{build_prompt, prompt_text};
use crate::signal::{open_signal, send_signal};
use crate::text::{is_blank, is_blank_text, trim, trimmed};
use tokio::sync::watch::{Receiver, Sender};
use vstd::prelude::*;

verus! {

/// Why a start request was turned down.
#[derive(Clone, Copy, Debug, PartialEq, Eq, Structural)]
pub enum StartError {
    /// The source text is empty or holds whitespace only.
    EmptyInput,
    /// Another run holds the slot.
    AlreadyRunning,
}

/// The message a start error is reported with.
pub open spec fn start_error_text(e: StartError) -> Seq<char> {
    match e {
        StartError::EmptyInput => "source text is empty"@,
        StartError::AlreadyRunning => "translation already running"@,
    }
}

impl StartError {
    /// The message this error is reported with.
    pub fn message(&self) -> (text: String)
        ensures
            text@ == start_error_text(*self),
    {
        match self {
            StartError::EmptyInput => "source text is empty".to_owned(),
            StartError::AlreadyRunning => "translation already running".to_owned(),
        }
    }
}

/// The model used where a request names none.
pub open spec fn default_model() -> Seq<char> {
    "translategemma:4b"@
}

/// The target language used where a request names none, or a blank one.
pub open spec fn default_target_language() -> Seq<char> {
    "Japanese"@
}

/// The model a request runs with.
pub open spec fn chosen_model(model: Option<Seq<char>>) -> Seq<char> {
    match model {
        Some(name) => name,
        None => default_model(),
    }
}

/// The target language a request runs with: the one it names, trimmed,
/// unless nothing is left of it.
pub open spec fn chosen_language(target_language: Option<Seq<char>>) -> Seq<char> {
    match target_language {
        Some(name) => if trimmed(name).len() > 0 {
            trimmed(name)
        } else {
            default_target_language()
        },
        None => default_target_language(),
    }
}

/// The text of an optional string.
pub open spec fn text_of(s: Option<String>) -> Option<Seq<char>> {
    match s {
        Some(s) => Some(s@),
        None => None,
    }
}

/// What an accepted request hands to its process session.
#[derive(Clone, Debug, PartialEq, Eq)]
pub struct RunPlan {
    /// The instruction written to the worker's input.
    pub prompt: String,
    /// The model the worker is started with.
    pub model: String,
    /// The language the text is translated into.
    pub target_language: String,
}

/// A run plan as a plain value.
pub struct RunPlanView {
    pub prompt: Seq<char>,
    pub model: Seq<char>,
    pub target_language: Seq<char>,
}

impl View for RunPlan {
    type V = RunPlanView;

    open spec fn view(&self) -> RunPlanView {
        RunPlanView {
            prompt: self.prompt@,
            model: self.model@,
            target_language: self.target_language@,
        }
    }
}

/// The plan of the run that a request asks for.
pub open spec fn plan_for(
    text: Seq<char>,
    model: Option<Seq<char>>,
    target_language: Option<Seq<char>>,
) -> RunPlanView {
    RunPlanView {
        prompt: prompt_text(text, chosen_language(target_language)),
        model: chosen_model(model),
        target_language: chosen_language(target_language),
    }
}

/// The controller's state as a plain value.
pub struct AppStateView {
    /// Whether a run holds the slot.
    pub running: bool,
    /// The input that waits to be taken, if any.
    pub pending_input: Option<Seq<char>>,
}

/// Why a start request for `text` is turned down in state `s`, if it is.
pub open spec fn start_refusal(s: AppStateView, text: Seq<char>) -> Option<StartError> {
    if is_blank(text) {
        Some(StartError::EmptyInput)
    } else if s.running {
        Some(StartError::AlreadyRunning)
    } else {
        None
    }
}

/// The state after a start request for `text`: an accepted request takes
/// the slot, a refused one changes nothing.
pub open spec fn after_start(s: AppStateView, text: Seq<char>) -> AppStateView {
    if start_refusal(s, text) is None {
        AppStateView { running: true, ..s }
    } else {
        s
    }
}

/// The state after a run's session has ended: the slot is free.
pub open spec fn after_finish(s: AppStateView) -> AppStateView {
    AppStateView { running: false, ..s }
}

/// The state after `input` was set as pending input.
pub open spec fn after_set_input(s: AppStateView, input: Seq<char>) -> AppStateView {
    AppStateView { pending_input: Some(input), ..s }
}

/// The state after the pending input was taken.
pub open spec fn after_take_input(s: AppStateView) -> AppStateView {
    AppStateView { pending_input: None, ..s }
}

/// The arguments `args[1..upto]`, joined by single spaces.
pub open spec fn joined_args(args: Seq<String>, upto: int) -> Seq<char>
    decreases upto,
{
    if upto <= 1 {
        Seq::empty()
    } else if upto == 2 {
        args[1]@
    } else {
        joined_args(args, upto - 1) + seq![' '] + args[upto - 1]@
    }
}

/// The input that a command line carries: its arguments after the program
/// name, joined by single spaces.
pub open spec fn forwarded_text(args: Seq<String>) -> Seq<char> {
    joined_args(args, args.len() as int)
}

/// The state after a command line was forwarded: its input becomes the
/// pending input unless it is blank.
pub open spec fn after_forward(s: AppStateView, args: Seq<String>) -> AppStateView {
    if is_blank(forwarded_text(args)) {
        s
    } else {
        after_set_input(s, forwarded_text(args))
    }
}

/// Joins the arguments after the program name by single spaces.
pub fn forwarded_input(args: &Vec<String>) -> (input: String)
    ensures
        input@ == forwarded_text(args@),
{
    let mut input = String::new();
    let mut i: usize = 1;
    while i < args.len()
        invariant
            1 <= i,
            i == 1 || i <= args@.len(),
            input@ == joined_args(args@, i as int),
        decreases args.len() - i,
    {
        if i > 1 {
            input.push(' ');
        }
        input.append(args[i].as_str());
        assert(input@ =~= joined_args(args@, i + 1));
        i += 1;
    }
    proof {
        if args@.len() <= 1 {
            assert(joined_args(args@, 1) == Seq::<char>::empty());
            assert(forwarded_text(args@) == Seq::<char>::empty());
        }
    }
    input
}

/// The run slot and the pending input buffer.
pub struct AppState {
    cancel_tx: Option<Sender<bool>>,
    pending_input: Option<String>,
}

impl View for AppState {
    type V = AppStateView;

    closed spec fn view(&self) -> AppStateView {
        AppStateView {
            running: self.cancel_tx is Some,
            pending_input: text_of(self.pending_input),
        }
    }
}

impl AppState {
    /// The writer of the cancellation signal that the run slot holds, if a
    /// run holds the slot.
    pub closed spec fn writer(&self) -> Option<Sender<bool>> {
        self.cancel_tx
    }

    /// A controller with a free slot and no pending input.
    pub fn new() -> (state: AppState)
        ensures
            state@ == (AppStateView { running: false, pending_input: None }),
            state.writer() is None,
    {
        AppState { cancel_tx: None, pending_input: None }
    }

    /// Installs the writer of a run's cancellation signal: the slot is
    /// taken, and holds the writer given.
    pub fn set_cancel(&mut self, tx: Sender<bool>)
        ensures
            final(self)@ == (AppStateView { running: true, ..old(self)@ }),
            final(self).writer() == Some(tx),
    {
        self.cancel_tx = Some(tx);
    }

    /// Whether a run holds the slot, which is to say, whether the slot holds
    /// a writer.
    pub fn is_running(&self) -> (running: bool)
        ensures
            running == self@.running,
            running == (self.writer() is Some),
    {
        self.cancel_tx.is_some()
    }

    /// Frees the slot. Called when a run's session has ended, however it
    /// ended.
    pub fn clear_cancel(&mut self)
        ensures
            final(self)@ == after_finish(old(self)@),
            final(self).writer() is None,
    {
        self.cancel_tx = None;
    }

    /// Raises the cancellation signal of the run that holds the slot, by way
    /// of the writer in the slot, and says whether the signal took it. With
    /// a free slot nothing is raised.
    pub fn cancel(&self) -> (raised: bool)
        ensures
            raised ==> self@.running,
            raised ==> self.writer() is Some,
    {
        match &self.cancel_tx {
            Some(tx) => send_signal(tx, true),
            None => false,
        }
    }

    /// Sets the pending input, in place of any that waited. The run slot is
    /// left as it is.
    pub fn set_input(&mut self, input: String)
        ensures
            final(self)@ == after_set_input(old(self)@, input@),
            final(self).writer() == old(self).writer(),
    {
        self.pending_input = Some(input);
    }

    /// Takes the pending input: it is handed out once, and the buffer is
    /// empty afterwards.
    pub fn take_input(&mut self) -> (input: Option<String>)
        ensures
            text_of(input) == old(self)@.pending_input,
            final(self)@ == after_take_input(old(self)@),
            final(self).writer() == old(self).writer(),
    {
        self.pending_input.take()
    }

    /// Handles a start request.
    ///
    /// A blank text is refused as `EmptyInput`, and a request that arrives
    /// while a run holds the slot as `AlreadyRunning`; neither changes
    /// anything: the slot holds the writer it held. Any other request is
    /// accepted: the slot is taken with the writer of a fresh cancellation
    /// signal, and the caller gets the plan of the run together with the
    /// signal's observer.
    pub fn translate_stream(
        &mut self,
        text: &str,
        model: Option<String>,
        target_language: Option<String>,
    ) -> (started: Result<(RunPlan, Receiver<bool>), StartError>)
        ensures
            final(self)@ == after_start(old(self)@, text@),
            match started {
                Ok((plan, _)) => {
                    &&& start_refusal(old(self)@, text@) is None
                    &&& plan@ == plan_for(text@, text_of(model), text_of(target_language))
                    &&& final(self).writer() is Some
                },
                Err(e) => {
                    &&& start_refusal(old(self)@, text@) == Some(e)
                    &&& final(self).writer() == old(self).writer()
                },
            },
    {
        if is_blank_text(text) {
            return Err(StartError::EmptyInput);
        }
        if self.is_running() {
            return Err(StartError::AlreadyRunning);
        }
        let model = match model {
            Some(name) => name,
            None => "translategemma:4b".to_owned(),
        };
        let target_language = match target_language {
            Some(name) => {
                let name = trim(name.as_str());
                if name.as_str().is_empty() {
                    "Japanese".to_owned()
                } else {
                    name
                }
            },
            None => "Japanese".to_owned(),
        };
        let prompt = build_prompt(text, target_language.as_str());
        let (tx, rx) = open_signal(false);
        self.set_cancel(tx);
        Ok((RunPlan { prompt, model, target_language }, rx))
    }

    /// Handles a cancel request: raises the signal of the run that holds the
    /// slot, if there is one. The request is accepted either way.
    pub fn cancel_translation(&self) -> (accepted: Result<(), String>)
        ensures
            accepted is Ok,
    {
        let _ = self.cancel();
        Ok(())
    }

    /// Hands out the input that arrived before the consumer was ready.
    pub fn take_initial_input(&mut self) -> (input: Option<String>)
        ensures
            text_of(input) == old(self)@.pending_input,
            final(self)@ == after_take_input(old(self)@),
            final(self).writer() == old(self).writer(),
    {
        self.take_input()
    }

    /// Takes in a forwarded command line. Its input, unless blank, becomes
    /// the pending input and is returned, to be shown at once where a
    /// consumer is attached.
    pub fn forward_args(&mut self, args: &Vec<String>) -> (input: Option<String>)
        ensures
            final(self)@ == after_forward(old(self)@, args@),
            final(self).writer() == old(self).writer(),
            text_of(input) == if is_blank(forwarded_text(args@)) {
                None
            } else {
                Some(forwarded_text(args@))
            },
    {
        let input = forwarded_input(args);
        if is_blank_text(input.as_str()) {
            return None;
        }
        self.set_input(input.clone());
        Some(input)
    }
}

/// While a run holds the slot, every further start request is refused: a
/// blank one as `EmptyInput`, any other as `AlreadyRunning`. Once the run's
/// session has ended, a request with text is accepted again.
pub proof fn lemma_single_flight(s: AppStateView, first: Seq<char>, second: Seq<char>)
    requires
        start_refusal(s, first) is None,
        !is_blank(second),
    ensures
        after_start(s, first).running,
        start_refusal(after_start(s, first), second) == Some(StartError::AlreadyRunning),
        after_start(after_start(s, first), second) == after_start(s, first),
        start_refusal(after_finish(after_start(s, first)), second) is None,
{
}

/// A blank text is refused whatever the state, and the state stays as it is.
pub proof fn lemma_blank_text_is_refused(s: AppStateView, text: Seq<char>)
    requires
        is_blank(text),
    ensures
        start_refusal(s, text) == Some(StartError::EmptyInput),
        after_start(s, text) == s,
{
}

/// The pending input is handed out once: after it was set, taking gives the
/// value set last, and taking again gives nothing until a value is set
/// anew.
pub proof fn lemma_pending_input_is_taken_once(
    s: AppStateView,
    earlier: Seq<char>,
    last: Seq<char>,
)
    ensures
        after_set_input(after_set_input(s, earlier), last).pending_input == Some(last),
        after_take_input(after_set_input(s, last)).pending_input is None,
        after_take_input(after_take_input(after_set_input(s, last))).pending_input is None,
        after_set_input(after_take_input(s), last).pending_input == Some(last),
        after_take_input(s).running == s.running,
        after_set_input(s, last).running == s.running,
{
}

} // verus!
