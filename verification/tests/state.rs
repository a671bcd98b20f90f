use limux_ime::state::{ImeCommitOutcome, ImeKeyEventPhase, TerminalImeState};
use limux_ime::ImeFilterOutcome;

#[test]
fn ime_state_consumes_composing_key_events() {
    let mut state = TerminalImeState::default();
    state.preedit_started();
    state.begin_key_event();

    assert_eq!(state.filter_outcome(true), ImeFilterOutcome::ConsumeForIme);

    state.finish_key_event();
    assert_eq!(state.key_event_phase, ImeKeyEventPhase::Idle);
}

#[test]
fn ime_state_treats_preedit_changed_as_composing() {
    let mut state = TerminalImeState::default();
    state.preedit_changed();

    assert!(state.composing);
}

#[test]
fn ime_state_buffers_plain_commit_for_key_event_text() {
    let mut state = TerminalImeState::default();
    state.begin_key_event();

    assert_eq!(state.commit_text("a"), ImeCommitOutcome::BufferForKeyEvent);
    assert_eq!(
        state.filter_outcome(true),
        ImeFilterOutcome::ForwardToGhostty
    );

    let text = state.take_event_text(None);
    assert_eq!(text.as_deref(), Some("a"));
}

#[test]
fn ime_state_commits_composed_text_outside_key_event() {
    let mut state = TerminalImeState::default();
    state.preedit_changed();

    assert_eq!(
        state.commit_text("á"),
        ImeCommitOutcome::CommitDirectly("á".to_string())
    );
    assert!(!state.composing);
}

/// Dead-key press path: the simple-compose fallback claims the event
/// without ever emitting a preedit-changed signal, and no commit fires on
/// this keystroke. The event must still be consumed so the raw dead-key
/// glyph never reaches the terminal.
#[test]
fn ime_state_consumes_dead_key_press_without_preedit() {
    let mut state = TerminalImeState::default();
    state.begin_key_event();

    assert_eq!(state.filter_outcome(true), ImeFilterOutcome::ConsumeForIme);
}

/// Dead-key follow-up path: on the second keystroke of a compose sequence
/// the fallback emits the commit signal with the composed glyph before
/// filtering returns. The text is buffered, the key event is forwarded, and
/// the buffered glyph replaces the key's own text.
#[test]
fn ime_state_buffers_compose_commit_synchronously() {
    let mut state = TerminalImeState::default();
    state.begin_key_event();

    assert_eq!(state.commit_text("ê"), ImeCommitOutcome::BufferForKeyEvent);
    assert_eq!(
        state.filter_outcome(true),
        ImeFilterOutcome::ForwardToGhostty
    );

    let text = state.take_event_text(None);
    assert_eq!(text.as_deref(), Some("ê"));
}

/// Full trace for `^` then `e` → `ê`, driven through the state machine the
/// way the keypress handler drives it when the fallback handles both
/// keystrokes.
#[test]
fn state_machine_compose_trace_caret_e_to_e_circumflex() {
    let mut state = TerminalImeState::default();

    // Keystroke 1: dead circumflex. Not composing yet.
    state.begin_key_event();
    assert_eq!(state.key_event_phase, ImeKeyEventPhase::NotComposing);
    // The fallback claims it and no commit fires: consume.
    assert_eq!(state.filter_outcome(true), ImeFilterOutcome::ConsumeForIme);
    state.finish_key_event();

    // Keystroke 2: `e`. Still not composing (no preedit was emitted).
    state.begin_key_event();
    assert_eq!(state.key_event_phase, ImeKeyEventPhase::NotComposing);
    // The compose completes synchronously: the commit is buffered.
    assert_eq!(state.commit_text("ê"), ImeCommitOutcome::BufferForKeyEvent);
    // The key event is forwarded carrying the composed glyph.
    assert_eq!(
        state.filter_outcome(true),
        ImeFilterOutcome::ForwardToGhostty
    );
    let composed = state.take_event_text(None);
    assert_eq!(composed.as_deref(), Some("ê"));
    state.finish_key_event();
}

#[test]
fn ime_state_default_is_idle_and_empty() {
    let state = TerminalImeState::default();
    assert!(!state.composing);
    assert_eq!(state.key_event_phase, ImeKeyEventPhase::Idle);
    assert_eq!(state.pending_key_text, None);
    assert_eq!(ImeKeyEventPhase::default(), ImeKeyEventPhase::Idle);
}

#[test]
fn ime_state_begin_records_composing_phase() {
    let mut state = TerminalImeState::default();
    state.preedit_started();
    state.begin_key_event();
    assert_eq!(state.key_event_phase, ImeKeyEventPhase::Composing);
    assert!(state.composing);
    assert_eq!(state.pending_key_text, None);
}

#[test]
fn ime_state_preedit_ended_clears_composing() {
    let mut state = TerminalImeState::default();
    state.preedit_started();
    state.preedit_ended();
    assert!(!state.composing);
    state.preedit_ended();
    assert!(!state.composing);
}

#[test]
fn ime_state_unclaimed_key_is_forwarded() {
    let mut state = TerminalImeState::default();
    state.preedit_started();
    state.begin_key_event();
    assert_eq!(
        state.filter_outcome(false),
        ImeFilterOutcome::ForwardToGhostty
    );
    let mut idle = TerminalImeState::default();
    assert_eq!(idle.filter_outcome(false), ImeFilterOutcome::ForwardToGhostty);
    idle.begin_key_event();
    assert_eq!(idle.filter_outcome(false), ImeFilterOutcome::ForwardToGhostty);
}

#[test]
fn ime_state_commit_while_idle_goes_direct_and_keeps_buffer_empty() {
    let mut state = TerminalImeState::default();
    assert_eq!(
        state.commit_text("x"),
        ImeCommitOutcome::CommitDirectly("x".to_string())
    );
    assert_eq!(state.pending_key_text, None);
    assert_eq!(state.key_event_phase, ImeKeyEventPhase::Idle);
}

#[test]
fn ime_state_commit_during_composing_key_event_goes_direct() {
    let mut state = TerminalImeState::default();
    state.preedit_changed();
    state.begin_key_event();
    assert_eq!(
        state.commit_text("日本"),
        ImeCommitOutcome::CommitDirectly("日本".to_string())
    );
    assert!(!state.composing);
    assert_eq!(state.pending_key_text, None);
    // Phase stays Composing for the rest of the event, so it is consumed.
    assert_eq!(state.filter_outcome(true), ImeFilterOutcome::ConsumeForIme);
}

#[test]
fn ime_state_preedit_started_mid_event_consumes_even_with_buffer() {
    let mut state = TerminalImeState::default();
    state.begin_key_event();
    assert_eq!(state.commit_text("a"), ImeCommitOutcome::BufferForKeyEvent);
    state.preedit_started();
    assert_eq!(state.filter_outcome(true), ImeFilterOutcome::ConsumeForIme);
}

#[test]
fn ime_state_take_event_text_uses_fallback_without_commit() {
    let mut state = TerminalImeState::default();
    state.begin_key_event();
    let text = state.take_event_text(Some("k".to_string()));
    assert_eq!(text.as_deref(), Some("k"));
    let none = state.take_event_text(None);
    assert_eq!(none, None);
}

#[test]
fn ime_state_take_event_text_is_taken_once() {
    let mut state = TerminalImeState::default();
    state.begin_key_event();
    state.commit_text("q");
    assert_eq!(
        state.take_event_text(Some("fallback".to_string())).as_deref(),
        Some("q")
    );
    assert_eq!(state.pending_key_text, None);
    assert_eq!(
        state.take_event_text(Some("fallback".to_string())).as_deref(),
        Some("fallback")
    );
}

#[test]
fn ime_state_take_event_text_drops_text_with_nul() {
    let mut state = TerminalImeState::default();
    state.begin_key_event();
    state.commit_text("a\0b");
    // Held-back text that cannot become a C string yields no text at all,
    // not the fallback.
    assert_eq!(state.take_event_text(Some("k".to_string())), None);
    assert_eq!(state.pending_key_text, None);
}

#[test]
fn ime_state_finish_clears_buffer_and_keeps_composing() {
    let mut state = TerminalImeState::default();
    state.begin_key_event();
    state.commit_text("z");
    state.preedit_started();
    state.finish_key_event();
    assert_eq!(state.key_event_phase, ImeKeyEventPhase::Idle);
    assert_eq!(state.pending_key_text, None);
    assert!(state.composing);
}
