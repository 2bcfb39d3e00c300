//! A focus timer that tracks elapsed active work time across
//! start / pause / resume / stop cycles.
//!
//! The timer core lives in [`pomodoro`]: it owns no clock of its own, takes
//! the current instant as an argument on every call, and reports the elapsed
//! working time with paused intervals excluded. Small pieces of front-end
//! state that a caller drives (input mode, grid selection) live in [`app`].

pub mod app;
pub mod pomodoro;
