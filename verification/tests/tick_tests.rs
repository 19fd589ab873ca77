use cosmic_pomodoro::tick::PomodoroTickState;

#[derive(Debug, Clone, Copy, PartialEq, Eq)]
enum State {
    Created,
    Running,
}

#[derive(Debug, Clone, Copy, PartialEq, Eq)]
enum Kind {
    Work,
    ShortBreak,
}

#[test]
fn from_tuple_names_the_parts() {
    let t = PomodoroTickState::from_tuple((1499u64, State::Running, Kind::Work, true));
    assert_eq!(t.remaining, 1499);
    assert_eq!(t.timer_state, State::Running);
    assert_eq!(t.timer_type, Kind::Work);
    assert!(t.started);
}

#[test]
fn from_reading_keeps_absence() {
    let none: Option<(u64, State, Kind, bool)> = None;
    assert!(PomodoroTickState::from_reading(none).is_none());
    let some = PomodoroTickState::from_reading(Some((300u64, State::Created, Kind::ShortBreak, false))).unwrap();
    assert_eq!(some.remaining, 300);
    assert_eq!(some.timer_state, State::Created);
    assert_eq!(some.timer_type, Kind::ShortBreak);
    assert!(!some.started);
}

#[test]
fn is_started_follows_last_report() {
    let none: Option<PomodoroTickState<State, Kind>> = None;
    assert!(!PomodoroTickState::is_started(&none));
    let not_started = Some(PomodoroTickState::from_tuple((1500u64, State::Created, Kind::Work, false)));
    assert!(!PomodoroTickState::is_started(&not_started));
    let started = Some(PomodoroTickState::from_tuple((1200u64, State::Running, Kind::Work, true)));
    assert!(PomodoroTickState::is_started(&started));
}
