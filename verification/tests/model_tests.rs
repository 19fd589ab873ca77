use cosmic_pomodoro::config::Config;
use cosmic_pomodoro::model::{AppState, Effect, Message, PopupId, PopupView, SettingsMessage};

fn fresh() -> AppState {
    AppState::new(Config::default())
}

#[test]
fn initial_state_is_main_page_without_popup() {
    let s = fresh();
    assert_eq!(s.config, Config::default());
    assert_eq!(s.current_view, PopupView::Main);
    assert!(!s.settings_changed);
    assert_eq!(s.popup, None);
    assert_eq!(PopupView::default(), PopupView::Main);
}

#[test]
fn timer_messages_keep_state() {
    let cases = [
        (Message::PomodoroTick, Effect::RefreshPomodoro),
        (Message::StartPomodoro, Effect::StartPomodoro),
        (Message::PausePomodoro, Effect::PausePomodoro),
        (Message::ForwardPomodoro, Effect::ForwardPomodoro),
    ];
    for (msg, effect) in cases {
        let mut s = fresh();
        s.settings_changed = true;
        let before = s;
        assert_eq!(s.update(msg), effect);
        assert_eq!(s, before);
    }
}

#[test]
fn setting_a_new_value_persists_and_marks_pending() {
    let mut s = fresh();
    let e = s.update(Message::Settings(SettingsMessage::SetWorkTime(30)));
    assert_eq!(s.config.work_time, 30);
    assert!(s.settings_changed);
    assert_eq!(e, Effect::PersistConfig(s.config));
    assert_eq!(s.config, Config { work_time: 30, ..Config::default() });
}

#[test]
fn each_setting_changes_only_its_field() {
    let base = Config::default();
    let cases = [
        (SettingsMessage::SetLongBreakInterval(6), Config { long_break_interval: 6, ..base }),
        (SettingsMessage::SetWorkTime(45), Config { work_time: 45, ..base }),
        (SettingsMessage::SetShortBreakTime(10), Config { short_break_time: 10, ..base }),
        (SettingsMessage::SetLongBreakTime(30), Config { long_break_time: 30, ..base }),
        (SettingsMessage::SetAutoStartWork(false), Config { auto_start_work: false, ..base }),
        (SettingsMessage::SetAutoStartBreak(true), Config { auto_start_break: true, ..base }),
    ];
    for (m, expected) in cases {
        let mut s = fresh();
        let e = s.update(Message::Settings(m));
        assert_eq!(s.config, expected);
        assert_eq!(e, Effect::PersistConfig(expected));
        assert!(s.settings_changed);
    }
}

#[test]
fn setting_current_value_is_noop() {
    let cases = [
        SettingsMessage::SetLongBreakInterval(4),
        SettingsMessage::SetWorkTime(25),
        SettingsMessage::SetShortBreakTime(5),
        SettingsMessage::SetLongBreakTime(15),
        SettingsMessage::SetAutoStartWork(true),
        SettingsMessage::SetAutoStartBreak(false),
    ];
    for m in cases {
        let mut s = fresh();
        let before = s;
        assert_eq!(s.update(Message::Settings(m)), Effect::Nothing);
        assert_eq!(s, before);
    }
}

#[test]
fn apply_settings_message_reports_change() {
    let mut s = fresh();
    assert!(!s.apply_settings_message(SettingsMessage::SetWorkTime(25)));
    assert!(!s.settings_changed);
    assert!(s.apply_settings_message(SettingsMessage::SetWorkTime(26)));
    assert!(s.settings_changed);
    assert_eq!(s.config.work_time, 26);
}

#[test]
fn reset_restores_defaults_even_when_unchanged() {
    let mut s = fresh();
    let e = s.update(Message::Settings(SettingsMessage::ResetToDefault));
    assert_eq!(e, Effect::PersistConfig(Config::default()));
    assert!(s.settings_changed);

    let mut t = AppState::new(Config { work_time: 60, auto_start_break: true, ..Config::default() });
    let e = t.update(Message::Settings(SettingsMessage::ResetToDefault));
    assert_eq!(t.config, Config::default());
    assert_eq!(e, Effect::PersistConfig(Config::default()));
}

#[test]
fn settings_take_effect_on_return_to_main() {
    let mut s = fresh();
    assert_eq!(s.update(Message::OpenSettingsView), Effect::Nothing);
    assert_eq!(s.current_view, PopupView::Settings);
    s.update(Message::Settings(SettingsMessage::SetShortBreakTime(7)));
    s.update(Message::Settings(SettingsMessage::SetAutoStartWork(false)));
    let e = s.update(Message::BackToMainView);
    let expected = Config { short_break_time: 7, auto_start_work: false, ..Config::default() };
    assert_eq!(e, Effect::RebuildPomodoro(expected));
    assert_eq!(s.current_view, PopupView::Main);
    assert!(!s.settings_changed);
    // A second return rebuilds nothing.
    assert_eq!(s.update(Message::BackToMainView), Effect::Nothing);
}

#[test]
fn return_without_changes_keeps_timer() {
    let mut s = fresh();
    s.update(Message::OpenSettingsView);
    assert_eq!(s.update(Message::BackToMainView), Effect::Nothing);
    assert_eq!(s.current_view, PopupView::Main);
}

#[test]
fn restart_rebuilds_from_current_config() {
    let mut s = fresh();
    s.update(Message::Settings(SettingsMessage::SetLongBreakTime(20)));
    let e = s.update(Message::RestartPomodoro);
    assert_eq!(e, Effect::RebuildPomodoro(Config { long_break_time: 20, ..Config::default() }));
    assert!(!s.settings_changed);
    assert_eq!(s.update(Message::BackToMainView), Effect::Nothing);
}

#[test]
fn config_from_store_is_taken_without_marking_pending() {
    let mut s = fresh();
    let stored = Config { work_time: 40, ..Config::default() };
    assert_eq!(s.update(Message::UpdateConfig(stored)), Effect::Nothing);
    assert_eq!(s.config, stored);
    assert!(!s.settings_changed);
    assert_eq!(s.update(Message::RestartPomodoro), Effect::RebuildPomodoro(stored));
}

#[test]
fn pending_change_stays_until_rebuild() {
    let mut s = fresh();
    s.update(Message::Settings(SettingsMessage::SetWorkTime(10)));
    for msg in [
        Message::PomodoroTick,
        Message::StartPomodoro,
        Message::TogglePopup,
        Message::OpenSettingsView,
        Message::UpdateConfig(Config::default()),
        Message::PopupClosed(PopupId(3)),
    ] {
        s.update(msg);
        assert!(s.settings_changed);
    }
}

#[test]
fn toggle_popup_round_trip() {
    let mut s = fresh();
    let before = s;
    assert_eq!(s.update(Message::TogglePopup), Effect::OpenPopup);
    assert_eq!(s, before);
    s.popup_opened(PopupId(42));
    assert_eq!(s.popup, Some(PopupId(42)));
    assert_eq!(s.update(Message::TogglePopup), Effect::DestroyPopup(PopupId(42)));
    assert_eq!(s, before);
}

#[test]
fn popup_closed_forgets_only_own_popup() {
    let mut s = fresh();
    s.popup_opened(PopupId(5));
    assert_eq!(s.update(Message::PopupClosed(PopupId(6))), Effect::Nothing);
    assert_eq!(s.popup, Some(PopupId(5)));
    assert_eq!(s.update(Message::PopupClosed(PopupId(5))), Effect::Nothing);
    assert_eq!(s.popup, None);
    assert_eq!(s.update(Message::PopupClosed(PopupId(5))), Effect::Nothing);
    assert_eq!(s.popup, None);
}
