use ollama_translator::controller::{forwarded_input, AppState, RunPlan, StartError};
use ollama_translator::prompt::build_prompt;

fn accepted(state: &mut AppState, text: &str) -> RunPlan {
    match state.translate_stream(text, None, None) {
        Ok((plan, _observer)) => plan,
        Err(e) => panic!("refused: {:?}", e),
    }
}

fn refusal(state: &mut AppState, text: &str) -> StartError {
    match state.translate_stream(text, None, None) {
        Ok(_) => panic!("accepted"),
        Err(e) => e,
    }
}

#[test]
fn new_controller_is_idle_and_has_no_input() {
    let mut state = AppState::new();
    assert!(!state.is_running());
    assert_eq!(state.take_input(), None);
}

#[test]
fn blank_text_is_refused_and_takes_no_slot() {
    for text in ["", " ", "\n\t  ", "\u{3000}\u{a0}"] {
        let mut state = AppState::new();
        assert_eq!(refusal(&mut state, text), StartError::EmptyInput);
        assert!(!state.is_running());
    }
}

#[test]
fn blank_text_is_refused_as_empty_while_a_run_is_active() {
    let mut state = AppState::new();
    let _plan = accepted(&mut state, "Hello");
    assert_eq!(refusal(&mut state, "   "), StartError::EmptyInput);
    assert!(state.is_running());
}

#[test]
fn second_start_is_refused_until_the_first_run_ends() {
    let mut state = AppState::new();
    let _first = accepted(&mut state, "Hello");
    assert!(state.is_running());
    assert_eq!(refusal(&mut state, "World"), StartError::AlreadyRunning);
    assert_eq!(refusal(&mut state, "Again"), StartError::AlreadyRunning);
    assert!(state.is_running());
    state.clear_cancel();
    assert!(!state.is_running());
    let second = accepted(&mut state, "World");
    assert!(second.prompt.ends_with("---\nWorld\n"));
    assert!(state.is_running());
}

#[test]
fn defaults_fill_in_model_and_language() {
    let mut state = AppState::new();
    let plan = accepted(&mut state, "Hello");
    assert_eq!(plan.model, "translategemma:4b");
    assert_eq!(plan.target_language, "Japanese");
    assert_eq!(plan.prompt, build_prompt("Hello", "Japanese"));
}

#[test]
fn named_model_and_language_are_used() {
    let mut state = AppState::new();
    let started = state.translate_stream(
        "  Hello  ",
        Some("llama3:8b".to_string()),
        Some("  French \n".to_string()),
    );
    let (plan, _observer) = started.unwrap();
    assert_eq!(
        plan,
        RunPlan {
            prompt: build_prompt("  Hello  ", "French"),
            model: "llama3:8b".to_string(),
            target_language: "French".to_string(),
        }
    );
}

#[test]
fn blank_language_falls_back_and_model_is_taken_as_it_is() {
    let mut state = AppState::new();
    let started =
        state.translate_stream("Hello", Some(" ".to_string()), Some(" \t".to_string()));
    let (plan, _observer) = started.unwrap();
    assert_eq!(plan.model, " ");
    assert_eq!(plan.target_language, "Japanese");
}

#[test]
fn fresh_signal_is_not_raised() {
    let mut state = AppState::new();
    let (_plan, observer) = state.translate_stream("Hello", None, None).unwrap();
    assert!(!*observer.borrow());
    assert!(!observer.has_changed().unwrap());
}

#[test]
fn cancel_raises_the_signal_of_the_active_run() {
    let mut state = AppState::new();
    let (_plan, observer) = state.translate_stream("Hello", None, None).unwrap();
    assert!(state.cancel());
    assert!(*observer.borrow());
    assert!(observer.has_changed().unwrap());
    assert!(state.is_running());
}

#[test]
fn cancel_without_a_run_does_nothing_and_is_accepted() {
    let state = AppState::new();
    assert!(!state.cancel());
    assert_eq!(state.cancel_translation(), Ok(()));
    assert!(!state.is_running());
}

#[test]
fn cancel_after_the_run_has_ended_does_not_reach_its_signal() {
    let mut state = AppState::new();
    let (_plan, observer) = state.translate_stream("Hello", None, None).unwrap();
    state.clear_cancel();
    assert!(!state.cancel());
    assert_eq!(state.cancel_translation(), Ok(()));
    assert!(!*observer.borrow());
    assert!(!state.is_running());
}

#[test]
fn cancel_is_not_taken_once_the_observer_is_gone() {
    let mut state = AppState::new();
    let (_plan, observer) = state.translate_stream("Hello", None, None).unwrap();
    drop(observer);
    assert!(!state.cancel());
    assert_eq!(state.cancel_translation(), Ok(()));
    assert!(state.is_running());
}

#[test]
fn each_run_has_a_signal_of_its_own() {
    let mut state = AppState::new();
    let (_plan, first) = state.translate_stream("one", None, None).unwrap();
    assert!(state.cancel());
    state.clear_cancel();
    let (_plan, second) = state.translate_stream("two", None, None).unwrap();
    assert!(*first.borrow());
    assert!(!*second.borrow());
    assert!(!first.same_channel(&second));
}

#[test]
fn pending_input_is_taken_exactly_once() {
    let mut state = AppState::new();
    state.set_input("first".to_string());
    state.set_input("second".to_string());
    assert_eq!(state.take_input(), Some("second".to_string()));
    assert_eq!(state.take_input(), None);
    assert_eq!(state.take_initial_input(), None);
    state.set_input("third".to_string());
    assert_eq!(state.take_initial_input(), Some("third".to_string()));
    assert_eq!(state.take_initial_input(), None);
}

#[test]
fn pending_input_and_run_slot_do_not_touch_each_other() {
    let mut state = AppState::new();
    state.set_input("kept".to_string());
    let _plan = accepted(&mut state, "Hello");
    state.clear_cancel();
    assert_eq!(state.take_input(), Some("kept".to_string()));
    let _plan = accepted(&mut state, "Hello");
    state.set_input("later".to_string());
    assert!(state.is_running());
    assert_eq!(state.take_input(), Some("later".to_string()));
    assert!(state.is_running());
}

fn command_line(args: &[&str]) -> Vec<String> {
    args.iter().map(|a| a.to_string()).collect()
}

#[test]
fn forwarded_input_joins_the_arguments_after_the_program() {
    assert_eq!(forwarded_input(&command_line(&["app", "hello", "world"])), "hello world");
    assert_eq!(forwarded_input(&command_line(&["app", "one"])), "one");
    assert_eq!(forwarded_input(&command_line(&["app", "a", "", "b"])), "a  b");
    assert_eq!(forwarded_input(&command_line(&["app"])), "");
    assert_eq!(forwarded_input(&command_line(&[])), "");
}

#[test]
fn forwarded_command_line_becomes_pending_input() {
    let mut state = AppState::new();
    let shown = state.forward_args(&command_line(&["app", "guten", "Tag"]));
    assert_eq!(shown, Some("guten Tag".to_string()));
    assert_eq!(state.take_initial_input(), Some("guten Tag".to_string()));
    assert_eq!(state.take_initial_input(), None);
}

#[test]
fn blank_forwarded_command_line_is_dropped() {
    let mut state = AppState::new();
    state.set_input("waiting".to_string());
    assert_eq!(state.forward_args(&command_line(&["app"])), None);
    assert_eq!(state.forward_args(&command_line(&["app", " ", "\t"])), None);
    assert_eq!(state.forward_args(&command_line(&[])), None);
    assert_eq!(state.take_input(), Some("waiting".to_string()));
}

#[test]
fn start_errors_have_their_messages() {
    assert_eq!(StartError::EmptyInput.message(), "source text is empty");
    assert_eq!(StartError::AlreadyRunning.message(), "translation already running");
}

#[test]
fn set_cancel_installs_the_writer_given() {
    let (tx, observer) = tokio::sync::watch::channel(false);
    let mut state = AppState::new();
    state.set_cancel(tx);
    assert!(state.is_running());
    assert!(!*observer.borrow());
    assert!(state.cancel());
    assert!(*observer.borrow());
}

#[test]
fn refused_start_leaves_the_first_run_cancellable() {
    let mut state = AppState::new();
    let (_plan, observer) = state.translate_stream("Hello", None, None).unwrap();
    assert_eq!(refusal(&mut state, "World"), StartError::AlreadyRunning);
    assert_eq!(refusal(&mut state, "  "), StartError::EmptyInput);
    assert!(!*observer.borrow());
    assert!(state.cancel());
    assert!(*observer.borrow());
}

#[test]
fn input_calls_leave_the_run_and_its_signal_alone() {
    let mut state = AppState::new();
    let (_plan, observer) = state.translate_stream("Hello", None, None).unwrap();
    state.set_input("one".to_string());
    assert_eq!(state.take_input(), Some("one".to_string()));
    assert_eq!(state.take_initial_input(), None);
    assert_eq!(state.forward_args(&command_line(&["app", "two"])), Some("two".to_string()));
    assert!(state.is_running());
    assert!(!*observer.borrow());
    assert!(state.cancel());
    assert!(*observer.borrow());
}
