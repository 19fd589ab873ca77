# cosmic_pomodoro

Decision logic of a pomodoro applet for the COSMIC panel, verified with Verus.

- `src/config.rs`: the settings (`Config`, its defaults and schema version) and
  the timer settings derived from them (`PomodoroSettings::from_config`, minutes
  turned into seconds, `None` on overflow).
- `src/model.rs`: the applet state machine. `AppState::update` takes a
  `Message` and yields the next state and one `Effect` (timer work, writing the
  settings, opening or closing the popup), exactly as `transition` states.
- `src/tick.rs`: the timer's last report and whether a session has started.
- `src/properties.rs`: laws of the state machine, proved.
- `app/`: the COSMIC applet around it: widgets, the settings store, the popup
  windows and the timer itself, performing the effects that the library asks for.
