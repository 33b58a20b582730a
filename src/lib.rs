//! A Pomodoro work/rest timer: the cycle of work and break segments, driven by
//! elapsed time and by explicit acknowledgment of overtime.

mod display;
mod laws;
mod pomodoro;
mod segment;

pub use display::{centered_start, time_left, TimeLeft};
pub use laws::{
    acknowledge_overtime, advance_before_overtime, cycle_of_eight, cycle_returns,
    tick_before_time_is_up, tick_enters_overtime_once, ticks_keep_overtime,
};
pub use pomodoro::{config_error, elapsed, Args, ConfigError, Pomodoro, PomodoroView, MAX_MINUTES};
pub use segment::{describe_text, digit_text, label_text, notice_text, State};
