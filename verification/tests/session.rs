use exploration_core::dialog::{DialogAsset, DialogEvent};
use exploration_core::state::{handle_pause, GameEvent, GameState};

fn asset(lines: &[&str]) -> DialogAsset {
    DialogAsset { lines: lines.iter().map(|l| l.to_string()).collect() }
}

fn payload_lines(state: &GameState) -> Option<Vec<String>> {
    state.current_dialog().map(|a| a.lines.clone())
}

#[test]
fn new_state_is_running_and_idle() {
    let state = GameState::new();
    assert!(!state.paused());
    assert!(!state.in_dialog());
    assert_eq!(state.current_dialog_line(), 0);
    assert!(state.current_dialog().is_none());
    assert!(state.current_line().is_none());
}

#[test]
fn toggle_pause_flips_and_flips_back() {
    let mut state = GameState::new();
    state.toggle_pause();
    assert!(state.paused());
    state.toggle_pause();
    assert!(!state.paused());
}

#[test]
fn pause_key_raises_toggle_only_when_freshly_pressed() {
    assert_eq!(handle_pause(true), Some(GameEvent::TogglePause));
    assert_eq!(handle_pause(false), None);
}

#[test]
fn game_events_toggle_once_each() {
    let mut state = GameState::new();
    state.handle_game_events(&vec![]);
    assert!(!state.paused());
    state.handle_game_events(&vec![GameEvent::TogglePause]);
    assert!(state.paused());
    state.handle_game_events(&vec![GameEvent::TogglePause, GameEvent::TogglePause]);
    assert!(state.paused());
    state.handle_game_events(&vec![
        GameEvent::TogglePause,
        GameEvent::TogglePause,
        GameEvent::TogglePause,
    ]);
    assert!(!state.paused());
}

#[test]
fn pausing_leaves_the_session_alone() {
    let mut state = GameState::new();
    state.start_dialog(&asset(&["a", "b"]));
    state.advance_dialog();
    state.toggle_pause();
    assert!(state.paused());
    assert!(state.in_dialog());
    assert_eq!(state.current_dialog_line(), 1);
    assert_eq!(payload_lines(&state), Some(vec!["a".to_string(), "b".to_string()]));
}

#[test]
fn three_lines_three_edges() {
    let mut state = GameState::new();
    state.start_dialog(&asset(&["one", "two", "three"]));
    let mut seen = Vec::new();
    assert!(state.in_dialog());
    seen.push(state.current_dialog_line());
    state.advance_dialog();
    assert!(state.in_dialog());
    seen.push(state.current_dialog_line());
    state.advance_dialog();
    assert!(state.in_dialog());
    seen.push(state.current_dialog_line());
    state.advance_dialog();
    assert_eq!(seen, vec![0, 1, 2]);
    assert!(!state.in_dialog());
    assert_eq!(state.current_dialog_line(), 0);
    assert!(state.current_dialog().is_none());
}

#[test]
fn start_shows_first_line() {
    let mut state = GameState::new();
    state.start_dialog(&asset(&["hello", "world"]));
    assert!(state.in_dialog());
    assert_eq!(state.current_dialog_line(), 0);
    assert_eq!(state.current_line().map(|s| s.as_str()), Some("hello"));
    assert_eq!(payload_lines(&state), Some(vec!["hello".to_string(), "world".to_string()]));
}

#[test]
fn advance_moves_exactly_one_line() {
    let mut state = GameState::new();
    state.start_dialog(&asset(&["a", "b", "c", "d"]));
    for expected in 1..4usize {
        let before = state.current_dialog_line();
        state.advance_dialog();
        assert_eq!(state.current_dialog_line(), before + 1);
        assert_eq!(state.current_dialog_line(), expected);
        assert!(state.in_dialog());
    }
    assert_eq!(state.current_line().map(|s| s.as_str()), Some("d"));
    state.advance_dialog();
    assert!(!state.in_dialog());
}

#[test]
fn single_line_dialog_ends_on_first_edge() {
    let mut state = GameState::new();
    state.start_dialog(&asset(&["only"]));
    assert_eq!(state.current_line().map(|s| s.as_str()), Some("only"));
    state.advance_dialog();
    assert!(!state.in_dialog());
    assert!(state.current_dialog().is_none());
    assert_eq!(state.current_dialog_line(), 0);
}

#[test]
fn advance_without_session_changes_nothing() {
    let mut state = GameState::new();
    state.toggle_pause();
    state.advance_dialog();
    state.advance_dialog();
    assert!(state.paused());
    assert!(!state.in_dialog());
    assert_eq!(state.current_dialog_line(), 0);
    assert!(state.current_dialog().is_none());
}

#[test]
fn paused_game_still_advances_dialog() {
    let mut state = GameState::new();
    state.start_dialog(&asset(&["a", "b"]));
    state.toggle_pause();
    state.advance_dialog();
    assert_eq!(state.current_dialog_line(), 1);
    assert!(state.paused());
    state.advance_dialog();
    assert!(!state.in_dialog());
    assert!(state.paused());
}

#[test]
fn retrigger_restarts_at_line_zero_with_new_payload() {
    let mut state = GameState::new();
    state.start_dialog(&asset(&["a", "b", "c"]));
    state.advance_dialog();
    state.advance_dialog();
    assert_eq!(state.current_dialog_line(), 2);
    state.start_dialog(&asset(&["x", "y"]));
    assert!(state.in_dialog());
    assert_eq!(state.current_dialog_line(), 0);
    assert_eq!(payload_lines(&state), Some(vec!["x".to_string(), "y".to_string()]));
    assert_eq!(state.current_line().map(|s| s.as_str()), Some("x"));
    state.advance_dialog();
    assert_eq!(state.current_dialog_line(), 1);
    state.advance_dialog();
    assert!(!state.in_dialog());
}

#[test]
fn retrigger_with_same_payload_restarts() {
    let text = asset(&["a", "b"]);
    let mut state = GameState::new();
    state.start_dialog(&text);
    state.advance_dialog();
    state.start_dialog(&text);
    assert_eq!(state.current_dialog_line(), 0);
    assert_eq!(payload_lines(&state), Some(vec!["a".to_string(), "b".to_string()]));
}

#[test]
fn session_never_alters_the_asset() {
    let canonical = asset(&["first", "second", "third"]);
    let mut state = GameState::new();
    state.start_dialog(&canonical);
    state.advance_dialog();
    assert_eq!(
        payload_lines(&state),
        Some(vec!["first".to_string(), "second".to_string(), "third".to_string()])
    );
    state.advance_dialog();
    state.advance_dialog();
    assert!(!state.in_dialog());
    assert_eq!(
        canonical.lines,
        vec!["first".to_string(), "second".to_string(), "third".to_string()]
    );
}

#[test]
fn session_survives_dropping_the_asset() {
    let mut state = GameState::new();
    {
        let short_lived = asset(&["kept", "too"]);
        state.start_dialog(&short_lived);
    }
    state.advance_dialog();
    assert_eq!(state.current_line().map(|s| s.as_str()), Some("too"));
}

#[test]
fn clone_of_asset_has_same_lines() {
    let a = asset(&["p", "q"]);
    let b = a.clone();
    assert_eq!(a.lines, b.lines);
}

#[test]
fn update_without_events_or_session_shows_nothing() {
    let mut state = GameState::new();
    assert_eq!(state.update_dialog(&vec![], false), None);
    assert_eq!(state.update_dialog(&vec![], true), None);
    assert!(!state.in_dialog());
}

#[test]
fn update_starts_session_and_shows_first_line() {
    let mut state = GameState::new();
    let shown = state.update_dialog(&vec![DialogEvent::DialogData(asset(&["a", "b"]))], false);
    assert_eq!(shown, Some("a".to_string()));
    assert!(state.in_dialog());
    assert_eq!(state.current_dialog_line(), 0);
}

#[test]
fn update_shows_line_before_advancing() {
    let mut state = GameState::new();
    let shown = state.update_dialog(&vec![DialogEvent::DialogData(asset(&["a", "b"]))], true);
    assert_eq!(shown, Some("a".to_string()));
    assert_eq!(state.current_dialog_line(), 1);
    let shown = state.update_dialog(&vec![], true);
    assert_eq!(shown, Some("b".to_string()));
    assert!(!state.in_dialog());
    assert_eq!(state.update_dialog(&vec![], true), None);
}

#[test]
fn update_takes_last_of_several_payloads() {
    let mut state = GameState::new();
    let events = vec![
        DialogEvent::DialogData(asset(&["first"])),
        DialogEvent::DialogData(asset(&["second", "more"])),
    ];
    let shown = state.update_dialog(&events, false);
    assert_eq!(shown, Some("second".to_string()));
    assert_eq!(payload_lines(&state), Some(vec!["second".to_string(), "more".to_string()]));
}

#[test]
fn update_restarts_running_session() {
    let mut state = GameState::new();
    state.start_dialog(&asset(&["a", "b", "c"]));
    state.advance_dialog();
    let shown = state.update_dialog(&vec![DialogEvent::DialogData(asset(&["x", "y"]))], true);
    assert_eq!(shown, Some("x".to_string()));
    assert_eq!(state.current_dialog_line(), 1);
    assert_eq!(state.current_line().map(|s| s.as_str()), Some("y"));
}

#[test]
fn update_keeps_pause_flag() {
    let mut state = GameState::new();
    state.toggle_pause();
    state.update_dialog(&vec![DialogEvent::DialogData(asset(&["a"]))], true);
    assert!(state.paused());
    assert!(!state.in_dialog());
}
