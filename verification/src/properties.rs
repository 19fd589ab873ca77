use vstd::prelude::*;

use crate::config::{default_config, durations_fit, settings_of, Config};
use crate::tick::{started_in, tick_of, PomodoroTickState};
use crate::model::{
    apply_setting, initial_state, setting_takes_effect, transition, with_popup, AppState, Effect,
    Message, PopupId, PopupView, SettingsMessage,
};

verus! {

/// Setting a value to what it already is changes nothing: the state stays
/// as it was and nothing is written or rebuilt.
pub proof fn lemma_setting_current_value_is_noop(s: AppState, m: SettingsMessage)
    requires
        !(m is ResetToDefault),
        apply_setting(s.config, m) == s.config,
    ensures
        transition(s, Message::Settings(m)) == (s, Effect::Nothing),
{
}

/// A settings change that takes effect is written to the store at once and
/// reaches the timer when the user returns to the main page: the timer is
/// then rebuilt from exactly the changed settings, and no change is pending.
pub proof fn lemma_settings_take_effect_on_return(s: AppState, m: SettingsMessage)
    requires
        setting_takes_effect(s.config, m),
    ensures
        ({
            let (s1, e1) = transition(s, Message::Settings(m));
            let (s2, e2) = transition(s1, Message::BackToMainView);
            &&& s1.config == apply_setting(s.config, m)
            &&& e1 == Effect::PersistConfig(s1.config)
            &&& s1.settings_changed
            &&& e2 == Effect::RebuildPomodoro(apply_setting(s.config, m))
            &&& s2 == AppState {
                current_view: PopupView::Main,
                settings_changed: false,
                ..s1
            }
        }),
{
}

/// Returning to the main page with no pending change leaves the timer alone.
pub proof fn lemma_return_without_changes_keeps_timer(s: AppState)
    requires
        !s.settings_changed,
    ensures
        transition(s, Message::BackToMainView) == (
            AppState { current_view: PopupView::Main, ..s },
            Effect::Nothing,
        ),
{
}

/// Clicking the panel icon twice opens a popup and closes that same popup,
/// which brings the applet back to the state it was in.
pub proof fn lemma_toggle_popup_round_trip(s: AppState, id: PopupId)
    requires
        s.popup is None,
    ensures
        transition(s, Message::TogglePopup) == (s, Effect::OpenPopup),
        transition(with_popup(s, id), Message::TogglePopup) == (s, Effect::DestroyPopup(id)),
{
}

/// Closing a popup forgets it only when it is the applet's open popup;
/// nothing else changes and nothing is done.
pub proof fn lemma_popup_closed_forgets_only_own_popup(s: AppState, id: PopupId)
    ensures
        ({
            let (s1, e) = transition(s, Message::PopupClosed(id));
            &&& e == Effect::Nothing
            &&& s1.popup == (if s.popup == Some(id) { None } else { s.popup })
            &&& s1 == AppState { popup: s1.popup, ..s }
        }),
{
}

/// Only settings messages and settings read back from the store change the
/// settings.
pub proof fn lemma_config_changes_only_through_settings(s: AppState, msg: Message)
    requires
        !(msg is Settings),
        !(msg is UpdateConfig),
    ensures
        transition(s, msg).0.config == s.config,
{
}

/// Ticks and the timer buttons leave the applet state as it is.
pub proof fn lemma_timer_messages_keep_state(s: AppState, msg: Message)
    requires
        msg is PomodoroTick || msg is StartPomodoro || msg is PausePomodoro || msg is ForwardPomodoro,
    ensures
        transition(s, msg).0 == s,
{
}

/// Restarting builds a fresh timer from the current settings and leaves no
/// change pending.
pub proof fn lemma_restart_rebuilds_from_current_config(s: AppState)
    ensures
        transition(s, Message::RestartPomodoro) == (
            AppState { settings_changed: false, ..s },
            Effect::RebuildPomodoro(s.config),
        ),
{
}

/// A pending settings change stays pending until the timer is rebuilt,
/// which only a return to the main page or a restart does.
pub proof fn lemma_pending_change_stays_until_rebuild(s: AppState, msg: Message)
    requires
        s.settings_changed,
        !(msg is BackToMainView),
        !(msg is RestartPomodoro),
    ensures
        transition(s, msg).0.settings_changed,
{
}

/// Resetting restores the default settings, writes them, and marks them
/// pending for the timer.
pub proof fn lemma_reset_restores_defaults(s: AppState)
    ensures
        transition(s, Message::Settings(SettingsMessage::ResetToDefault)) == (
            AppState { config: default_config(), settings_changed: true, ..s },
            Effect::PersistConfig(default_config()),
        ),
{
}

/// Whatever is rebuilt or written is the settings of the state that follows.
pub proof fn lemma_effects_carry_next_config(s: AppState, msg: Message)
    ensures
        ({
            let (s1, e) = transition(s, msg);
            &&& e matches Effect::RebuildPomodoro(c) ==> c == s1.config
            &&& e matches Effect::PersistConfig(c) ==> c == s1.config
        }),
{
}

/// Only the popup messages open or close popups, and only page messages
/// switch the page.
pub proof fn lemma_popup_and_page_change_only_by_their_messages(s: AppState, msg: Message)
    ensures
        !(msg is TogglePopup) && !(msg is PopupClosed) ==> transition(s, msg).0.popup == s.popup,
        !(msg is OpenSettingsView) && !(msg is BackToMainView) ==> transition(
            s,
            msg,
        ).0.current_view == s.current_view,
{
}

/// The applet starts on the main page with no popup and no pending change,
/// and the default settings give a 25-minute work session, 5- and
/// 15-minute breaks, and a long break after every fourth session.
pub proof fn lemma_initial_state_and_default_durations(c: Config)
    ensures
        initial_state(c).current_view == PopupView::Main,
        initial_state(c).popup is None,
        !initial_state(c).settings_changed,
        durations_fit(default_config()),
        settings_of(default_config()).work_secs == 1500,
        settings_of(default_config()).short_break_secs == 300,
        settings_of(default_config()).long_break_secs == 900,
        settings_of(default_config()).long_break_interval == 4,
{
}

} // verus!

verus! {

/// The applet starts with exactly the settings it was given, on the main
/// page, with no popup and no pending change.
pub proof fn lemma_initial_state_keeps_given_settings(c: Config)
    ensures
        initial_state(c).config == c,
        initial_state(c).config.work_time == c.work_time,
        initial_state(c).config.short_break_time == c.short_break_time,
        initial_state(c).config.long_break_time == c.long_break_time,
        initial_state(c).config.long_break_interval == c.long_break_interval,
        initial_state(c).config.auto_start_work == c.auto_start_work,
        initial_state(c).config.auto_start_break == c.auto_start_break,
        initial_state(c).current_view == PopupView::Main,
        initial_state(c).popup is None,
        !initial_state(c).settings_changed,
{
}

/// The timer buttons and the tick always reach the timer, whatever the
/// popup, page, settings or pending flag, and leave the applet state alone.
pub proof fn lemma_timer_buttons_always_act(s: AppState)
    ensures
        transition(s, Message::StartPomodoro).1 == Effect::StartPomodoro,
        transition(s, Message::PausePomodoro).1 == Effect::PausePomodoro,
        transition(s, Message::ForwardPomodoro).1 == Effect::ForwardPomodoro,
        transition(s, Message::PomodoroTick).1 == Effect::RefreshPomodoro,
        transition(s, Message::StartPomodoro).0 == s,
        transition(s, Message::PausePomodoro).0 == s,
        transition(s, Message::ForwardPomodoro).0 == s,
        transition(s, Message::PomodoroTick).0 == s,
{
}

/// Opening the settings page always shows it and changes nothing else.
pub proof fn lemma_open_settings_shows_settings_page(s: AppState)
    ensures
        transition(s, Message::OpenSettingsView).0.current_view == PopupView::Settings,
        transition(s, Message::OpenSettingsView).0.config == s.config,
        transition(s, Message::OpenSettingsView).0.popup == s.popup,
        transition(s, Message::OpenSettingsView).0.settings_changed == s.settings_changed,
        transition(s, Message::OpenSettingsView).1 == Effect::Nothing,
{
}

/// Returning to the main page always shows it, and keeps settings and popup.
pub proof fn lemma_back_shows_main_page(s: AppState)
    ensures
        transition(s, Message::BackToMainView).0.current_view == PopupView::Main,
        transition(s, Message::BackToMainView).0.config == s.config,
        transition(s, Message::BackToMainView).0.popup == s.popup,
        !transition(s, Message::BackToMainView).0.settings_changed,
        s.settings_changed ==> transition(s, Message::BackToMainView).1
            == Effect::RebuildPomodoro(s.config),
{
}

/// Each single-setting message sets exactly its own field to the given
/// value and leaves every other field as it was.
pub proof fn lemma_single_setting_sets_its_field(c: Config, n: u64, b: bool)
    ensures
        ({
            let r = apply_setting(c, SettingsMessage::SetLongBreakInterval(n));
            &&& r.long_break_interval == n
            &&& r.work_time == c.work_time
            &&& r.short_break_time == c.short_break_time
            &&& r.long_break_time == c.long_break_time
            &&& r.auto_start_work == c.auto_start_work
            &&& r.auto_start_break == c.auto_start_break
        }),
        ({
            let r = apply_setting(c, SettingsMessage::SetWorkTime(n));
            &&& r.long_break_interval == c.long_break_interval
            &&& r.work_time == n
            &&& r.short_break_time == c.short_break_time
            &&& r.long_break_time == c.long_break_time
            &&& r.auto_start_work == c.auto_start_work
            &&& r.auto_start_break == c.auto_start_break
        }),
        ({
            let r = apply_setting(c, SettingsMessage::SetShortBreakTime(n));
            &&& r.long_break_interval == c.long_break_interval
            &&& r.work_time == c.work_time
            &&& r.short_break_time == n
            &&& r.long_break_time == c.long_break_time
            &&& r.auto_start_work == c.auto_start_work
            &&& r.auto_start_break == c.auto_start_break
        }),
        ({
            let r = apply_setting(c, SettingsMessage::SetLongBreakTime(n));
            &&& r.long_break_interval == c.long_break_interval
            &&& r.work_time == c.work_time
            &&& r.short_break_time == c.short_break_time
            &&& r.long_break_time == n
            &&& r.auto_start_work == c.auto_start_work
            &&& r.auto_start_break == c.auto_start_break
        }),
        ({
            let r = apply_setting(c, SettingsMessage::SetAutoStartWork(b));
            &&& r.long_break_interval == c.long_break_interval
            &&& r.work_time == c.work_time
            &&& r.short_break_time == c.short_break_time
            &&& r.long_break_time == c.long_break_time
            &&& r.auto_start_work == b
            &&& r.auto_start_break == c.auto_start_break
        }),
        ({
            let r = apply_setting(c, SettingsMessage::SetAutoStartBreak(b));
            &&& r.long_break_interval == c.long_break_interval
            &&& r.work_time == c.work_time
            &&& r.short_break_time == c.short_break_time
            &&& r.long_break_time == c.long_break_time
            &&& r.auto_start_work == c.auto_start_work
            &&& r.auto_start_break == b
        }),
{
}

/// A single setting takes effect exactly when it differs from the current
/// value, and then the new settings are written.
pub proof fn lemma_setting_takes_effect_iff_different(s: AppState, n: u64, b: bool)
    ensures
        setting_takes_effect(s.config, SettingsMessage::SetWorkTime(n)) <==> n != s.config.work_time,
        setting_takes_effect(s.config, SettingsMessage::SetShortBreakTime(n)) <==> n
            != s.config.short_break_time,
        setting_takes_effect(s.config, SettingsMessage::SetLongBreakTime(n)) <==> n
            != s.config.long_break_time,
        setting_takes_effect(s.config, SettingsMessage::SetLongBreakInterval(n)) <==> n
            != s.config.long_break_interval,
        setting_takes_effect(s.config, SettingsMessage::SetAutoStartWork(b)) <==> b
            != s.config.auto_start_work,
        setting_takes_effect(s.config, SettingsMessage::SetAutoStartBreak(b)) <==> b
            != s.config.auto_start_break,
        setting_takes_effect(s.config, SettingsMessage::ResetToDefault),
        n != s.config.work_time ==> transition(
            s,
            Message::Settings(SettingsMessage::SetWorkTime(n)),
        ).1 == Effect::PersistConfig(Config { work_time: n, ..s.config }),
{
    if n != s.config.work_time {
        assert(apply_setting(s.config, SettingsMessage::SetWorkTime(n)).work_time != s.config.work_time);
    }
    if n != s.config.short_break_time {
        assert(apply_setting(s.config, SettingsMessage::SetShortBreakTime(n)).short_break_time
            != s.config.short_break_time);
    }
    if n != s.config.long_break_time {
        assert(apply_setting(s.config, SettingsMessage::SetLongBreakTime(n)).long_break_time
            != s.config.long_break_time);
    }
    if b != s.config.auto_start_work {
        assert(apply_setting(s.config, SettingsMessage::SetAutoStartWork(b)).auto_start_work
            != s.config.auto_start_work);
    }
    if b != s.config.auto_start_break {
        assert(apply_setting(s.config, SettingsMessage::SetAutoStartBreak(b)).auto_start_break
            != s.config.auto_start_break);
    }
    if n != s.config.long_break_interval {
        assert(apply_setting(s.config, SettingsMessage::SetLongBreakInterval(n)).long_break_interval
            != s.config.long_break_interval);
    }
}

/// Settings read back from the store replace the current ones as they are.
pub proof fn lemma_stored_settings_replace_current(s: AppState, c: Config)
    ensures
        transition(s, Message::UpdateConfig(c)).0.config == c,
        transition(s, Message::UpdateConfig(c)).0.current_view == s.current_view,
        transition(s, Message::UpdateConfig(c)).0.popup == s.popup,
        transition(s, Message::UpdateConfig(c)).1 == Effect::Nothing,
{
}

/// The timer is built with the long-break interval and auto-start switches
/// unchanged, and with each duration in seconds exactly sixty times its
/// minutes.
pub proof fn lemma_timer_settings_from_minutes(c: Config)
    ensures
        settings_of(c).long_break_interval == c.long_break_interval,
        settings_of(c).auto_start_work == c.auto_start_work,
        settings_of(c).auto_start_break == c.auto_start_break,
        durations_fit(c) ==> settings_of(c).work_secs == c.work_time * 60,
        durations_fit(c) ==> settings_of(c).short_break_secs == c.short_break_time * 60,
        durations_fit(c) ==> settings_of(c).long_break_secs == c.long_break_time * 60,
        durations_fit(c) <==> (c.work_time * 60 <= u64::MAX && c.short_break_time * 60 <= u64::MAX
            && c.long_break_time * 60 <= u64::MAX),
{
}

/// The default settings: a 25-minute work session, 5- and 15-minute breaks,
/// a long break after every fourth session, work starting by itself and
/// breaks not.
pub proof fn lemma_default_settings_values()
    ensures
        default_config().work_time == 25,
        default_config().short_break_time == 5,
        default_config().long_break_time == 15,
        default_config().long_break_interval == 4,
        default_config().auto_start_work,
        !default_config().auto_start_break,
{
}

/// Recording an opened popup sets it as the open popup and changes nothing
/// else; toggling while a popup is open closes exactly that popup.
pub proof fn lemma_opened_popup_is_the_one_toggled_shut(s: AppState, id: PopupId)
    ensures
        with_popup(s, id).popup == Some(id),
        with_popup(s, id).config == s.config,
        with_popup(s, id).current_view == s.current_view,
        with_popup(s, id).settings_changed == s.settings_changed,
        transition(with_popup(s, id), Message::TogglePopup).1 == Effect::DestroyPopup(id),
        transition(with_popup(s, id), Message::TogglePopup).0.popup is None,
{
}

} // verus!

verus! {

/// A report names the parts of the timer's tuple in order, and a session
/// counts as started exactly when the last report says so; with no report
/// it does not.
pub proof fn lemma_tick_report_parts<S, T>(v: (u64, S, T, bool), t: PomodoroTickState<S, T>)
    ensures
        tick_of(v).remaining == v.0,
        tick_of(v).timer_state == v.1,
        tick_of(v).timer_type == v.2,
        tick_of(v).started == v.3,
        !started_in(None::<PomodoroTickState<S, T>>),
        started_in(Some(t)) == t.started,
{
}

} // verus!
