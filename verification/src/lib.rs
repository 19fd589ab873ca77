//! Decision logic of a pomodoro panel applet: its settings, the timer
//! settings derived from them, and the state machine that turns each user
//! or timer message into the next applet state and one effect to perform.

pub mod config;
pub mod model;
pub mod properties;
pub mod tick;
