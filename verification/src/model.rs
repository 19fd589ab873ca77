use vstd::prelude::*;

use crate::config::{default_config, Config};

verus! {

/// The two pages the popup can show.
#[derive(Clone, Copy, Debug, PartialEq, Eq, Structural)]
pub enum PopupView {
    Main,
    Settings,
}

impl Default for PopupView {
    fn default() -> (v: Self)
        ensures
            v == PopupView::Main,
    {
        PopupView::Main
    }
}

/// A change asked for on the settings page.
#[derive(Clone, Copy, Debug, PartialEq, Eq, Structural)]
pub enum SettingsMessage {
    ResetToDefault,
    SetLongBreakInterval(u64),
    SetWorkTime(u64),
    SetShortBreakTime(u64),
    SetLongBreakTime(u64),
    SetAutoStartWork(bool),
    SetAutoStartBreak(bool),
}

/// Identifies a popup window; the desktop hands these out.
#[derive(Clone, Copy, Debug, PartialEq, Eq, Structural)]
pub struct PopupId(pub u64);

/// Everything the applet reacts to: panel clicks, popup events, the
/// periodic timer tick, buttons of the main page, settings read back from
/// the store, page switches and settings changes.
#[derive(Clone, Copy, Debug, PartialEq, Eq, Structural)]
pub enum Message {
    TogglePopup,
    PopupClosed(PopupId),
    PomodoroTick,
    StartPomodoro,
    PausePomodoro,
    ForwardPomodoro,
    RestartPomodoro,
    UpdateConfig(Config),
    OpenSettingsView,
    BackToMainView,
    Settings(SettingsMessage),
}

/// The one piece of outside work that follows a message.
///
/// Each effect on the timer is followed by reading the timer's state anew.
#[derive(Clone, Copy, Debug, PartialEq, Eq, Structural)]
pub enum Effect {
    /// Nothing to do.
    Nothing,
    /// Read the timer's state.
    RefreshPomodoro,
    /// Start the timer, then read its state.
    StartPomodoro,
    /// Pause the timer, then read its state.
    PausePomodoro,
    /// Skip to the next session, then read the timer's state.
    ForwardPomodoro,
    /// Replace the timer by a fresh one built from these settings, then read its state.
    RebuildPomodoro(Config),
    /// Write these settings to the settings store.
    PersistConfig(Config),
    /// Open a new popup and report its id with `AppState::popup_opened`.
    OpenPopup,
    /// Close this popup.
    DestroyPopup(PopupId),
}

/// What the applet decides by: the current settings, the page the popup
/// shows, whether settings changed since the timer was last built, and the
/// open popup, if any.
#[derive(Clone, Copy, Debug, PartialEq, Eq, Structural)]
pub struct AppState {
    pub config: Config,
    pub current_view: PopupView,
    pub settings_changed: bool,
    pub popup: Option<PopupId>,
}

/// The settings after `msg` is applied to `config`.
pub open spec fn apply_setting(config: Config, msg: SettingsMessage) -> Config {
    match msg {
        SettingsMessage::ResetToDefault => default_config(),
        SettingsMessage::SetLongBreakInterval(v) => Config { long_break_interval: v, ..config },
        SettingsMessage::SetWorkTime(v) => Config { work_time: v, ..config },
        SettingsMessage::SetShortBreakTime(v) => Config { short_break_time: v, ..config },
        SettingsMessage::SetLongBreakTime(v) => Config { long_break_time: v, ..config },
        SettingsMessage::SetAutoStartWork(v) => Config { auto_start_work: v, ..config },
        SettingsMessage::SetAutoStartBreak(v) => Config { auto_start_break: v, ..config },
    }
}

/// Whether `msg` counts as a change of `config`: a reset always does, a
/// single setting only when it sets a value other than the current one.
pub open spec fn setting_takes_effect(config: Config, msg: SettingsMessage) -> bool {
    msg is ResetToDefault || apply_setting(config, msg) != config
}

/// The applet state right after start-up with the settings `config`.
pub open spec fn initial_state(config: Config) -> AppState {
    AppState { config, current_view: PopupView::Main, settings_changed: false, popup: None }
}

/// `s` once the popup `id` has been opened.
pub open spec fn with_popup(s: AppState, id: PopupId) -> AppState {
    AppState { popup: Some(id), ..s }
}

/// The next state and the effect to perform when `msg` arrives in state `s`.
pub open spec fn transition(s: AppState, msg: Message) -> (AppState, Effect) {
    match msg {
        Message::PomodoroTick => (s, Effect::RefreshPomodoro),
        Message::StartPomodoro => (s, Effect::StartPomodoro),
        Message::PausePomodoro => (s, Effect::PausePomodoro),
        Message::ForwardPomodoro => (s, Effect::ForwardPomodoro),
        Message::RestartPomodoro => (
            AppState { settings_changed: false, ..s },
            Effect::RebuildPomodoro(s.config),
        ),
        Message::UpdateConfig(c) => (AppState { config: c, ..s }, Effect::Nothing),
        Message::OpenSettingsView => (
            AppState { current_view: PopupView::Settings, ..s },
            Effect::Nothing,
        ),
        Message::BackToMainView => if s.settings_changed {
            (
                AppState { current_view: PopupView::Main, settings_changed: false, ..s },
                Effect::RebuildPomodoro(s.config),
            )
        } else {
            (AppState { current_view: PopupView::Main, ..s }, Effect::Nothing)
        },
        Message::TogglePopup => match s.popup {
            Some(p) => (AppState { popup: None, ..s }, Effect::DestroyPopup(p)),
            None => (s, Effect::OpenPopup),
        },
        Message::PopupClosed(id) => if s.popup == Some(id) {
            (AppState { popup: None, ..s }, Effect::Nothing)
        } else {
            (s, Effect::Nothing)
        },
        Message::Settings(m) => if setting_takes_effect(s.config, m) {
            let c = apply_setting(s.config, m);
            (AppState { config: c, settings_changed: true, ..s }, Effect::PersistConfig(c))
        } else {
            (s, Effect::Nothing)
        },
    }
}

impl AppState {
    /// The state the applet starts in, with the settings read from the store.
    pub fn new(config: Config) -> (s: AppState)
        ensures
            s == initial_state(config),
            s.config == config,
            s.current_view == PopupView::Main,
            s.popup is None,
            !s.settings_changed,
    {
        AppState { config, current_view: PopupView::Main, settings_changed: false, popup: None }
    }

    /// Applies one settings change to the settings and says whether it took
    /// effect, in which case the settings must be written to the store and
    /// the timer rebuilt on return to the main page.
    pub fn apply_settings_message(&mut self, msg: SettingsMessage) -> (changed: bool)
        ensures
            changed == setting_takes_effect(old(self).config, msg),
            final(self).config == apply_setting(old(self).config, msg),
            final(self).current_view == old(self).current_view,
            final(self).popup == old(self).popup,
            final(self).settings_changed == (old(self).settings_changed || changed),
    {
        let changed = match msg {
            SettingsMessage::ResetToDefault => {
                self.config = Config::default();
                true
            },
            SettingsMessage::SetLongBreakInterval(v) => {
                if self.config.long_break_interval != v {
                    self.config.long_break_interval = v;
                    true
                } else {
                    false
                }
            },
            SettingsMessage::SetWorkTime(v) => {
                if self.config.work_time != v {
                    self.config.work_time = v;
                    true
                } else {
                    false
                }
            },
            SettingsMessage::SetShortBreakTime(v) => {
                if self.config.short_break_time != v {
                    self.config.short_break_time = v;
                    true
                } else {
                    false
                }
            },
            SettingsMessage::SetLongBreakTime(v) => {
                if self.config.long_break_time != v {
                    self.config.long_break_time = v;
                    true
                } else {
                    false
                }
            },
            SettingsMessage::SetAutoStartWork(v) => {
                if self.config.auto_start_work != v {
                    self.config.auto_start_work = v;
                    true
                } else {
                    false
                }
            },
            SettingsMessage::SetAutoStartBreak(v) => {
                if self.config.auto_start_break != v {
                    self.config.auto_start_break = v;
                    true
                } else {
                    false
                }
            },
        };
        if changed {
            self.settings_changed = true;
        }
        changed
    }

    /// Handles `msg`: moves to the next state and returns the effect that
    /// the caller performs.
    pub fn update(&mut self, msg: Message) -> (e: Effect)
        ensures
            (*final(self), e) == transition(*old(self), msg),
    {
        match msg {
            Message::PomodoroTick => Effect::RefreshPomodoro,
            Message::StartPomodoro => Effect::StartPomodoro,
            Message::PausePomodoro => Effect::PausePomodoro,
            Message::ForwardPomodoro => Effect::ForwardPomodoro,
            Message::RestartPomodoro => {
                self.settings_changed = false;
                Effect::RebuildPomodoro(self.config)
            },
            Message::UpdateConfig(c) => {
                self.config = c;
                Effect::Nothing
            },
            Message::OpenSettingsView => {
                self.current_view = PopupView::Settings;
                Effect::Nothing
            },
            Message::BackToMainView => {
                let e = if self.settings_changed {
                    self.settings_changed = false;
                    Effect::RebuildPomodoro(self.config)
                } else {
                    Effect::Nothing
                };
                self.current_view = PopupView::Main;
                e
            },
            Message::TogglePopup => match self.popup {
                Some(p) => {
                    self.popup = None;
                    Effect::DestroyPopup(p)
                },
                None => Effect::OpenPopup,
            },
            Message::PopupClosed(id) => {
                match self.popup {
                    Some(p) => {
                        if p.0 == id.0 {
                            self.popup = None;
                        }
                    },
                    None => {},
                }
                Effect::Nothing
            },
            Message::Settings(m) => {
                if self.apply_settings_message(m) {
                    Effect::PersistConfig(self.config)
                } else {
                    Effect::Nothing
                }
            },
        }
    }

    /// Records that the popup `id` has been opened.
    pub fn popup_opened(&mut self, id: PopupId)
        ensures
            *final(self) == with_popup(*old(self), id),
            final(self).popup == Some(id),
            final(self).config == old(self).config,
            final(self).current_view == old(self).current_view,
            final(self).settings_changed == old(self).settings_changed,
    {
        self.popup = Some(id);
    }
}

} // verus!
