use codex_wrapper::events::{channel_name, OutputEvent, StreamKind};
use codex_wrapper::session::finish_stream;
use codex_wrapper::supervisor::{AppState, ProcessHandle, SessionError};

#[test]
fn terminate_with_no_active_process_fails_and_slot_stays_empty() {
    let mut state = AppState::new();
    let result = state.terminate();
    assert_eq!(result, Err(SessionError::NoActiveProcess));
    assert_eq!(state.active_process, None);
    assert_eq!(
        SessionError::NoActiveProcess.message(),
        "No active process to stop"
    );
}

#[test]
fn terminate_takes_the_active_handle_and_empties_the_slot() {
    let mut state = AppState::new();
    state.install(ProcessHandle { pid: 4242 });
    let result = state.terminate();
    assert_eq!(result, Ok(ProcessHandle { pid: 4242 }));
    assert_eq!(state.active_process, None);
}

#[test]
fn install_replaces_the_previous_handle() {
    let mut state = AppState::new();
    state.install(ProcessHandle { pid: 1 });
    state.install(ProcessHandle { pid: 2 });
    assert_eq!(state.active_process, Some(ProcessHandle { pid: 2 }));
}

#[test]
fn stop_before_any_output_yields_no_events() {
    // A send followed at once by a stop: the handle is installed, then
    // taken and killed before any line arrived. The killed child's pipes
    // end in an ordinary end of stream; with no observation buffered there
    // is no line event, and the end-of-stream decision for a stopped
    // session withholds the terminal event on both streams.
    let mut state = AppState::new();
    let handle = ProcessHandle { pid: 77 };
    state.install(handle);
    assert_eq!(state.terminate(), Ok(handle));
    assert_eq!(state.active_process, None);
    assert_eq!(finish_stream(&mut state, handle, StreamKind::Stdout), None);
    assert_eq!(finish_stream(&mut state, handle, StreamKind::Stderr), None);
    assert_eq!(state.active_process, None);
}

#[test]
fn natural_completion_emits_complete_and_ends_the_session() {
    let mut state = AppState::new();
    let handle = ProcessHandle { pid: 5 };
    state.install(handle);
    assert_eq!(
        finish_stream(&mut state, handle, StreamKind::Stderr),
        None
    );
    assert_eq!(state.active_process, Some(handle));
    assert_eq!(
        finish_stream(&mut state, handle, StreamKind::Stdout),
        Some(OutputEvent::Complete)
    );
    assert_eq!(state.active_process, None);
}

#[test]
fn replaced_invocation_gets_no_terminal_event() {
    let mut state = AppState::new();
    let first = ProcessHandle { pid: 1 };
    let second = ProcessHandle { pid: 2 };
    state.install(first);
    state.install(second);
    assert_eq!(finish_stream(&mut state, first, StreamKind::Stdout), None);
    assert_eq!(state.active_process, Some(second));
}

#[test]
fn kill_failure_is_rendered_but_cannot_refill_the_slot() {
    let mut state = AppState::new();
    state.install(ProcessHandle { pid: 9 });
    let handle = state.terminate().unwrap();
    assert_eq!(handle, ProcessHandle { pid: 9 });
    // Kill-signal delivery failed in the shell: the error is rendered for
    // the caller while the slot stays empty.
    let error = SessionError::KillError("os error 3".to_string());
    assert_eq!(error.message(), "Failed to kill process: os error 3");
    assert_eq!(state.active_process, None);
}

#[test]
fn spawn_failure_message_carries_the_cause() {
    let error = SessionError::SpawnError("No such file or directory".to_string());
    assert_eq!(
        error.message(),
        "Failed to spawn codex: No such file or directory"
    );
}

#[test]
fn events_travel_on_their_channels() {
    let stdout_line = OutputEvent::Line("hi".to_string(), StreamKind::Stdout);
    let stderr_line = OutputEvent::Line("oops".to_string(), StreamKind::Stderr);
    assert_eq!(channel_name(&stdout_line), "codex-output");
    assert_eq!(channel_name(&stderr_line), "codex-error");
    assert_eq!(channel_name(&OutputEvent::Complete), "codex-complete");
}
