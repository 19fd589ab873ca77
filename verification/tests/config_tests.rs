use cosmic_pomodoro::config::{Config, PomodoroSettings};

#[test]
fn default_config_values() {
    let c = Config::default();
    assert_eq!(c.long_break_interval, 4);
    assert_eq!(c.work_time, 25);
    assert_eq!(c.short_break_time, 5);
    assert_eq!(c.long_break_time, 15);
    assert!(c.auto_start_work);
    assert!(!c.auto_start_break);
    assert_eq!(Config::VERSION, 1);
}

#[test]
fn default_config_gives_default_timer() {
    let s = PomodoroSettings::from_config(&Config::default()).unwrap();
    assert_eq!(s.long_break_interval, 4);
    assert_eq!(s.work_secs, 1500);
    assert_eq!(s.short_break_secs, 300);
    assert_eq!(s.long_break_secs, 900);
    assert!(s.auto_start_work);
    assert!(!s.auto_start_break);
}

#[test]
fn minutes_become_seconds() {
    let c = Config {
        long_break_interval: 7,
        work_time: 50,
        short_break_time: 1,
        long_break_time: 180,
        auto_start_work: false,
        auto_start_break: true,
    };
    let s = PomodoroSettings::from_config(&c).unwrap();
    assert_eq!(
        s,
        PomodoroSettings {
            long_break_interval: 7,
            work_secs: 3000,
            short_break_secs: 60,
            long_break_secs: 10800,
            auto_start_work: false,
            auto_start_break: true,
        }
    );
}

#[test]
fn zero_minutes_is_zero_seconds() {
    let c = Config { work_time: 0, short_break_time: 0, long_break_time: 0, ..Config::default() };
    let s = PomodoroSettings::from_config(&c).unwrap();
    assert_eq!((s.work_secs, s.short_break_secs, s.long_break_secs), (0, 0, 0));
}

#[test]
fn largest_fitting_duration() {
    let max_minutes = u64::MAX / 60;
    let c = Config { work_time: max_minutes, ..Config::default() };
    let s = PomodoroSettings::from_config(&c).unwrap();
    assert_eq!(s.work_secs, max_minutes * 60);
}

#[test]
fn overflowing_durations_are_refused() {
    let too_long = u64::MAX / 60 + 1;
    let work = Config { work_time: too_long, ..Config::default() };
    let short = Config { short_break_time: too_long, ..Config::default() };
    let long = Config { long_break_time: u64::MAX, ..Config::default() };
    assert_eq!(PomodoroSettings::from_config(&work), None);
    assert_eq!(PomodoroSettings::from_config(&short), None);
    assert_eq!(PomodoroSettings::from_config(&long), None);
}
