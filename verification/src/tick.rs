use vstd::prelude::*;

verus! {

/// What the timer last reported: seconds left in the session, the timer's
/// state and session type (of the timer's own types `S` and `T`), and
/// whether a session has been started.
#[derive(Clone, Debug)]
pub struct PomodoroTickState<S, T> {
    pub remaining: u64,
    pub timer_state: S,
    pub timer_type: T,
    pub started: bool,
}

/// The report that the timer's tuple `(remaining, state, type, started)` stands for.
pub open spec fn tick_of<S, T>(value: (u64, S, T, bool)) -> PomodoroTickState<S, T> {
    PomodoroTickState {
        remaining: value.0,
        timer_state: value.1,
        timer_type: value.2,
        started: value.3,
    }
}

/// Whether the last report, if there is one, says a session has been started.
pub open spec fn started_in<S, T>(last: Option<PomodoroTickState<S, T>>) -> bool {
    match last {
        Some(t) => t.started,
        None => false,
    }
}

impl<S, T> PomodoroTickState<S, T> {
    /// Names the parts of the timer's tuple `(remaining, state, type, started)`.
    pub fn from_tuple(value: (u64, S, T, bool)) -> (r: Self)
        ensures
            r == tick_of(value),
    {
        let (remaining, timer_state, timer_type, started) = value;
        PomodoroTickState { remaining, timer_state, timer_type, started }
    }

    /// The report kept after the timer was read: none where the timer gave none.
    pub fn from_reading(reading: Option<(u64, S, T, bool)>) -> (r: Option<Self>)
        ensures
            r == (match reading {
                Some(v) => Some(tick_of(v)),
                None => None,
            }),
    {
        match reading {
            Some(v) => Some(Self::from_tuple(v)),
            None => None,
        }
    }

    /// Whether a session has been started, as far as the last report tells;
    /// `false` where there is no report.
    pub fn is_started(last: &Option<Self>) -> (r: bool)
        ensures
            r == started_in(*last),
    {
        match last {
            Some(t) => t.started,
            None => false,
        }
    }
}

} // verus!
