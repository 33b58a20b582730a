use vstd::prelude::*;

use crate::segment::{describe_text, notice_text, State};

verus! {

/// The longest segment, in minutes, whose length in seconds fits in an `i64`
/// (`i64::MAX / 60`).
pub const MAX_MINUTES: i64 = 153722867280912930;

/// The timer's configuration: segment lengths in minutes and two switches.
#[derive(Debug, Clone, Copy, PartialEq, Eq)]
pub struct Args {
    /// Length of a work segment, in minutes.
    pub work: i64,
    /// Length of a short break, in minutes.
    pub small_rest: i64,
    /// Length of the long break, in minutes.
    pub large_rest: i64,
    /// Whether the end of a segment should be announced on the desktop.
    pub notifications: bool,
    /// Whether a segment may be ended before its time has run out.
    pub allow_continue: bool,
}

/// Why a configuration was refused.
#[derive(Debug, Clone, Copy, PartialEq, Eq)]
pub enum ConfigError {
    /// A segment length was zero or negative.
    NonPositiveDuration,
    /// A segment length was too long to count in seconds.
    DurationTooLong,
}

/// The error, if any, that a configuration is refused with. Lengths that are
/// not positive are reported before lengths that are too long.
pub open spec fn config_error(args: Args) -> Option<ConfigError> {
    if args.work <= 0 || args.small_rest <= 0 || args.large_rest <= 0 {
        Some(ConfigError::NonPositiveDuration)
    } else if args.work > MAX_MINUTES || args.small_rest > MAX_MINUTES || args.large_rest
        > MAX_MINUTES {
        Some(ConfigError::DurationTooLong)
    } else {
        None
    }
}

/// Seconds from `start` to `now` on the caller's clock; none if the clock
/// reads earlier than `start`.
pub open spec fn elapsed(start: u64, now: u64) -> int {
    if now >= start {
        now - start
    } else {
        0
    }
}

/// What a timer holds, as mathematical values.
pub struct PomodoroView {
    pub work_time: int,
    pub small_rest_time: int,
    pub large_rest_time: int,
    pub state: State,
    pub start_time: u64,
    pub send_notifications: bool,
    pub allow_continue: bool,
}

impl PomodoroView {
    /// Segment lengths positive and countable, the segment well formed.
    pub open spec fn wf(self) -> bool {
        &&& 0 < self.work_time <= MAX_MINUTES * 60
        &&& 0 < self.small_rest_time <= MAX_MINUTES * 60
        &&& 0 < self.large_rest_time <= MAX_MINUTES * 60
        &&& self.state.wf()
    }

    /// The configured length, in seconds, of a segment's kind (overtime taken off).
    pub open spec fn duration_of(self, s: State) -> int {
        match s.base() {
            State::Work(_) => self.work_time,
            State::SmallBreak(_) => self.small_rest_time,
            _ => self.large_rest_time,
        }
    }

    /// Seconds since the current segment began.
    pub open spec fn elapsed(self, now: u64) -> int {
        elapsed(self.start_time, now)
    }

    /// The signed number of seconds left in the current segment.
    pub open spec fn remaining(self, now: u64) -> int {
        self.duration_of(self.state) - self.elapsed(now)
    }

    /// Whether a tick at `now` finds the current segment run out.
    pub open spec fn runs_out(self, now: u64) -> bool {
        &&& self.state.is_steady()
        &&& self.elapsed(now) > self.duration_of(self.state)
    }

    /// The timer after a tick at `now`: a steady segment whose time is over
    /// goes into overtime, keeping its start; anything else stays.
    pub open spec fn ticked(self, now: u64) -> PomodoroView {
        if self.runs_out(now) {
            PomodoroView { state: State::Overtime(Box::new(self.state)), ..self }
        } else {
            self
        }
    }

    /// Whether an acknowledgment moves the timer on: always from overtime,
    /// and from a running segment only in lenient mode.
    pub open spec fn may_advance(self) -> bool {
        self.state is Overtime || self.allow_continue
    }

    /// The timer after an acknowledgment at `now`.
    pub open spec fn advanced(self, now: u64) -> PomodoroView {
        if self.may_advance() {
            PomodoroView { state: self.state.base().successor(), start_time: now, ..self }
        } else {
            self
        }
    }
}

/// A Pomodoro timer: the configured lengths, the current segment, and the
/// instant, in seconds on the caller's clock, at which that segment began.
#[derive(Debug)]
pub struct Pomodoro {
    work_time: i64,
    small_rest_time: i64,
    large_rest_time: i64,
    state: State,
    start_time: u64,
    send_notifications: bool,
    allow_continue: bool,
}

impl View for Pomodoro {
    type V = PomodoroView;

    closed spec fn view(&self) -> PomodoroView {
        PomodoroView {
            work_time: self.work_time as int,
            small_rest_time: self.small_rest_time as int,
            large_rest_time: self.large_rest_time as int,
            state: self.state,
            start_time: self.start_time,
            send_notifications: self.send_notifications,
            allow_continue: self.allow_continue,
        }
    }
}

impl Pomodoro {
    /// Whether the timer is in a valid state.
    pub open spec fn wf(&self) -> bool {
        self@.wf()
    }

    /// A timer at the start of the first work segment, begun at `now`; the
    /// configuration is refused if a length is not positive or too long.
    pub fn new(args: Args, now: u64) -> (r: Result<Pomodoro, ConfigError>)
        ensures
            r is Ok <==> config_error(args) is None,
            r matches Err(e) ==> Some(e) == config_error(args),
            r matches Ok(p) ==> {
                &&& p.wf()
                &&& p@.work_time == args.work * 60
                &&& p@.small_rest_time == args.small_rest * 60
                &&& p@.large_rest_time == args.large_rest * 60
                &&& p@.state == State::Work(1)
                &&& p@.start_time == now
                &&& p@.elapsed(now) == 0
                &&& p@.send_notifications == args.notifications
                &&& p@.allow_continue == args.allow_continue
            },
    {
        if args.work <= 0 || args.small_rest <= 0 || args.large_rest <= 0 {
            return Err(ConfigError::NonPositiveDuration);
        }
        if args.work > MAX_MINUTES || args.small_rest > MAX_MINUTES || args.large_rest
            > MAX_MINUTES {
            return Err(ConfigError::DurationTooLong);
        }
        Ok(
            Pomodoro {
                work_time: args.work * 60,
                small_rest_time: args.small_rest * 60,
                large_rest_time: args.large_rest * 60,
                state: State::Work(1),
                start_time: now,
                send_notifications: args.notifications,
                allow_continue: args.allow_continue,
            },
        )
    }

    /// The configured length, in seconds, of the current segment's kind.
    fn current_duration(&self) -> (r: i64)
        requires
            self.wf(),
        ensures
            r == self@.duration_of(self@.state),
    {
        let s: &State = match &self.state {
            State::Overtime(inner) => inner,
            other => other,
        };
        match s {
            State::Work(_) => self.work_time,
            State::SmallBreak(_) => self.small_rest_time,
            _ => self.large_rest_time,
        }
    }

    /// Seconds since the current segment began, as read at `now`.
    pub fn seconds_passed(&self, now: u64) -> (r: u64)
        ensures
            r == self@.elapsed(now),
    {
        if now >= self.start_time {
            now - self.start_time
        } else {
            0
        }
    }

    /// Checks the clock: a steady segment whose length has been exceeded at
    /// `now` goes into overtime, and the message announcing its end is
    /// returned. The segment's start is kept, so the time left goes negative.
    pub fn tick(&mut self, now: u64) -> (r: Option<String>)
        requires
            old(self).wf(),
        ensures
            final(self).wf(),
            final(self)@ == old(self)@.ticked(now),
            r is Some <==> old(self)@.runs_out(now),
            r matches Some(m) ==> m@ == notice_text(old(self)@.state),
    {
        if self.state.is_overtime() {
            return None;
        }
        if self.seconds_passed(now) as i128 > self.current_duration() as i128 {
            let message = self.state.notice();
            let s = self.state.clone();
            self.state = State::Overtime(Box::new(s));
            Some(message)
        } else {
            None
        }
    }

    /// Acknowledges the current segment: from overtime, or from any segment in
    /// lenient mode, the timer moves to the next segment of the cycle, begun at
    /// `now`; otherwise nothing changes.
    pub fn next(&mut self, now: u64)
        requires
            old(self).wf(),
        ensures
            final(self).wf(),
            final(self)@ == old(self)@.advanced(now),
    {
        if !self.state.is_overtime() && !self.allow_continue {
            return;
        }
        self.state = self.state.following();
        self.start_time = now;
    }

    /// The signed number of seconds left in the current segment at `now`;
    /// negative once the segment has overrun.
    pub fn seconds_remaining(&self, now: u64) -> (r: i64)
        requires
            self.wf(),
            self@.remaining(now) >= i64::MIN,
        ensures
            r == self@.remaining(now),
    {
        let passed = self.seconds_passed(now);
        let left = self.current_duration() as i128 - passed as i128;
        left as i64
    }

    /// The label of the current segment, such as "Overtime: Work Nr. 2".
    pub fn print_state(&self) -> (r: String)
        requires
            self.wf(),
        ensures
            r@ == describe_text(self@.state),
    {
        self.state.describe()
    }

    /// The current segment.
    pub fn state(&self) -> (r: State)
        ensures
            r == self@.state,
    {
        self.state.clone()
    }

    /// Whether the current segment is waiting in overtime.
    pub fn is_overtime(&self) -> (r: bool)
        ensures
            r == (self@.state is Overtime),
    {
        self.state.is_overtime()
    }

    /// Whether the end of a segment should be announced on the desktop.
    pub fn notifications_enabled(&self) -> (r: bool)
        ensures
            r == self@.send_notifications,
    {
        self.send_notifications
    }
}

} // verus!
