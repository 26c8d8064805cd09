use dictation::error::PipelineError;
use dictation::hotkey::{
    after_start, after_stop, announce, on_key_event, plan_rebind, HotkeyCommand, HotkeyMode,
    HotkeyModeState, KeyEvent, RebindStep, ShellAction, DEFAULT_HOTKEY,
};

#[test]
fn new_state_is_push_to_talk() {
    let state = HotkeyModeState::new();
    assert_eq!(state.mode, "push-to-talk");
    assert_eq!(state.mode(), HotkeyMode::PushToTalk);
}

#[test]
fn set_mode_is_read_back_on_the_next_event() {
    let mut state = HotkeyModeState::new();
    state.set_mode("toggle");
    assert_eq!(state.mode(), HotkeyMode::Toggle);
    state.set_mode("push-to-talk");
    assert_eq!(state.mode(), HotkeyMode::PushToTalk);
    state.set_mode("Toggle");
    assert_eq!(state.mode(), HotkeyMode::PushToTalk);
    state.set_mode("");
    assert_eq!(state.mode(), HotkeyMode::PushToTalk);
}

#[test]
fn select_stores_the_name_of_the_mode() {
    let mut state = HotkeyModeState::new();
    state.select(HotkeyMode::Toggle);
    assert_eq!(state.mode, "toggle");
    assert_eq!(state.mode(), HotkeyMode::Toggle);
    state.select(HotkeyMode::PushToTalk);
    assert_eq!(state.mode, "push-to-talk");
}

#[test]
fn push_to_talk_starts_on_press_and_stops_on_release() {
    let mode = HotkeyMode::PushToTalk;
    assert_eq!(on_key_event(mode, false, KeyEvent::Pressed), HotkeyCommand::Start);
    assert_eq!(on_key_event(mode, true, KeyEvent::Released), HotkeyCommand::Stop);
}

#[test]
fn push_to_talk_release_while_idle_is_ignored() {
    assert_eq!(
        on_key_event(HotkeyMode::PushToTalk, false, KeyEvent::Released),
        HotkeyCommand::Ignore
    );
}

#[test]
fn push_to_talk_press_while_recording_asks_for_a_start() {
    assert_eq!(
        on_key_event(HotkeyMode::PushToTalk, true, KeyEvent::Pressed),
        HotkeyCommand::Start
    );
}

#[test]
fn toggle_ignores_releases() {
    assert_eq!(on_key_event(HotkeyMode::Toggle, false, KeyEvent::Released), HotkeyCommand::Ignore);
    assert_eq!(on_key_event(HotkeyMode::Toggle, true, KeyEvent::Released), HotkeyCommand::Ignore);
}

#[test]
fn toggle_two_presses_give_one_start_then_one_stop() {
    let mode = HotkeyMode::Toggle;
    let mut recording = false;
    let first = on_key_event(mode, recording, KeyEvent::Pressed);
    assert_eq!(first, HotkeyCommand::Start);
    recording = true;
    let second = on_key_event(mode, recording, KeyEvent::Pressed);
    assert_eq!(second, HotkeyCommand::Stop);
    recording = false;
    let third = on_key_event(mode, recording, KeyEvent::Pressed);
    assert_eq!(third, HotkeyCommand::Start);
}

#[test]
fn announce_tells_the_shell_before_the_command() {
    assert_eq!(
        announce(HotkeyCommand::Start),
        vec![ShellAction::EmitHotkeyPressed, ShellAction::EmitRecordingWillStart]
    );
    assert_eq!(announce(HotkeyCommand::Stop), vec![ShellAction::EmitHotkeyReleased]);
    assert_eq!(announce(HotkeyCommand::Ignore), vec![]);
}

#[test]
fn successful_start_shows_the_bar() {
    assert_eq!(after_start(HotkeyMode::Toggle, Ok(())), vec![ShellAction::ShowRecordingBar]);
    assert_eq!(after_start(HotkeyMode::PushToTalk, Ok(())), vec![ShellAction::ShowRecordingBar]);
}

#[test]
fn failed_start_reports_the_error() {
    let error = PipelineError::DeviceUnavailable { detail: "no device".to_string() };
    assert_eq!(
        after_start(HotkeyMode::PushToTalk, Err(error.clone())),
        vec![ShellAction::EmitRecordingError(error.clone())]
    );
    assert_eq!(
        after_start(HotkeyMode::Toggle, Err(error.clone())),
        vec![ShellAction::EmitRecordingError(error), ShellAction::EmitRecordingReset]
    );
}

#[test]
fn failed_stop_hides_the_bar_and_resets_listeners() {
    assert_eq!(after_stop(true), vec![]);
    assert_eq!(
        after_stop(false),
        vec![ShellAction::HideRecordingBar, ShellAction::EmitRecordingReset]
    );
}

#[test]
fn rebind_with_a_valid_binding_replaces_the_old_one() {
    assert_eq!(
        plan_rebind("Ctrl+Shift+R", None),
        Ok(vec![RebindStep::UnregisterAll, RebindStep::Register])
    );
}

#[test]
fn rebind_with_an_invalid_binding_touches_nothing() {
    assert_eq!(
        plan_rebind("Ctrl+", Some("empty key".to_string())),
        Err(PipelineError::InvalidHotkeySpec {
            spec: "Ctrl+".to_string(),
            detail: "empty key".to_string()
        })
    );
}

#[test]
fn default_hotkey_is_alt_space() {
    assert_eq!(DEFAULT_HOTKEY, "Alt+Space");
}
