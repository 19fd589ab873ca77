use vstd::prelude::*;

verus! {

/// The applet's persisted settings: durations in minutes, the number of
/// work sessions before a long break, and whether the next session starts
/// by itself when the previous one ends.
#[derive(Clone, Copy, Debug, PartialEq, Eq, Structural)]
pub struct Config {
    pub long_break_interval: u64,
    pub work_time: u64,
    pub short_break_time: u64,
    pub long_break_time: u64,
    pub auto_start_work: bool,
    pub auto_start_break: bool,
}

/// The settings a fresh installation starts with.
pub open spec fn default_config() -> Config {
    Config {
        long_break_interval: 4,
        work_time: 25,
        short_break_time: 5,
        long_break_time: 15,
        auto_start_work: true,
        auto_start_break: false,
    }
}

impl Default for Config {
    fn default() -> (c: Self)
        ensures
            c == default_config(),
            c.long_break_interval == 4,
            c.work_time == 25,
            c.short_break_time == 5,
            c.long_break_time == 15,
            c.auto_start_work,
            !c.auto_start_break,
    {
        Config {
            long_break_interval: 4,
            work_time: 25,
            short_break_time: 5,
            long_break_time: 15,
            auto_start_work: true,
            auto_start_break: false,
        }
    }
}

impl Config {
    /// Schema version under which the settings are stored.
    pub const VERSION: u64 = 1;
}

/// Number of seconds in a minute.
pub const SECONDS_PER_MINUTE: u64 = 60;

/// Whether a duration of `minutes` minutes can be expressed in seconds as a `u64`.
pub open spec fn minutes_fit(minutes: u64) -> bool {
    minutes * 60 <= u64::MAX
}

/// Whether every duration of `config` can be expressed in seconds as a `u64`.
pub open spec fn durations_fit(config: Config) -> bool {
    &&& minutes_fit(config.work_time)
    &&& minutes_fit(config.short_break_time)
    &&& minutes_fit(config.long_break_time)
}

/// What a pomodoro timer is built from: the long-break interval, the three
/// durations in seconds, and the two auto-start switches.
#[derive(Clone, Copy, Debug, PartialEq, Eq, Structural)]
pub struct PomodoroSettings {
    pub long_break_interval: u64,
    pub work_secs: u64,
    pub short_break_secs: u64,
    pub long_break_secs: u64,
    pub auto_start_work: bool,
    pub auto_start_break: bool,
}

/// The timer settings that `config` stands for: its minutes turned into seconds.
pub open spec fn settings_of(config: Config) -> PomodoroSettings {
    PomodoroSettings {
        long_break_interval: config.long_break_interval,
        work_secs: (config.work_time * 60) as u64,
        short_break_secs: (config.short_break_time * 60) as u64,
        long_break_secs: (config.long_break_time * 60) as u64,
        auto_start_work: config.auto_start_work,
        auto_start_break: config.auto_start_break,
    }
}

fn minutes_to_secs(minutes: u64) -> (r: Option<u64>)
    ensures
        minutes_fit(minutes) ==> r == Some((minutes * 60) as u64),
        !minutes_fit(minutes) ==> r is None,
{
    minutes.checked_mul(SECONDS_PER_MINUTE)
}

impl PomodoroSettings {
    /// The settings of the timer that `config` describes, with each duration
    /// turned from minutes into seconds; `None` where a duration in seconds
    /// does not fit in a `u64`.
    pub fn from_config(config: &Config) -> (r: Option<PomodoroSettings>)
        ensures
            durations_fit(*config) ==> r == Some(settings_of(*config)),
            !durations_fit(*config) ==> r is None,
            r is Some <==> (config.work_time * 60 <= u64::MAX && config.short_break_time * 60
                <= u64::MAX && config.long_break_time * 60 <= u64::MAX),
            r matches Some(t) ==> {
                &&& t.long_break_interval == config.long_break_interval
                &&& t.work_secs == config.work_time * 60
                &&& t.short_break_secs == config.short_break_time * 60
                &&& t.long_break_secs == config.long_break_time * 60
                &&& t.auto_start_work == config.auto_start_work
                &&& t.auto_start_break == config.auto_start_break
            },
    {
        let work_secs = match minutes_to_secs(config.work_time) {
            Some(s) => s,
            None => return None,
        };
        let short_break_secs = match minutes_to_secs(config.short_break_time) {
            Some(s) => s,
            None => return None,
        };
        let long_break_secs = match minutes_to_secs(config.long_break_time) {
            Some(s) => s,
            None => return None,
        };
        Some(
            PomodoroSettings {
                long_break_interval: config.long_break_interval,
                work_secs,
                short_break_secs,
                long_break_secs,
                auto_start_work: config.auto_start_work,
                auto_start_break: config.auto_start_break,
            },
        )
    }
}

} // verus!
