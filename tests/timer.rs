use pomodoro::{centered_start, time_left, Args, ConfigError, Pomodoro, State, TimeLeft, MAX_MINUTES};

fn args(work: i64, small_rest: i64, large_rest: i64, allow_continue: bool) -> Args {
    Args { work, small_rest, large_rest, notifications: false, allow_continue }
}

fn timer(work: i64, small_rest: i64, large_rest: i64, allow_continue: bool, now: u64) -> Pomodoro {
    Pomodoro::new(args(work, small_rest, large_rest, allow_continue), now).unwrap()
}

fn overtime(s: State) -> State {
    State::Overtime(Box::new(s))
}

#[test]
fn starts_at_first_work_segment() {
    let p = timer(25, 5, 35, false, 1000);
    assert_eq!(p.state(), State::Work(1));
    assert_eq!(p.seconds_passed(1000), 0);
    assert_eq!(p.seconds_remaining(1000), 25 * 60);
    assert!(!p.is_overtime());
    assert!(!p.notifications_enabled());
}

#[test]
fn notifications_switch_is_kept() {
    let a = Args { work: 1, small_rest: 1, large_rest: 1, notifications: true, allow_continue: false };
    let p = Pomodoro::new(a, 0).unwrap();
    assert!(p.notifications_enabled());
}

#[test]
fn non_positive_durations_are_refused() {
    assert_eq!(Pomodoro::new(args(0, 5, 35, false), 0).err(), Some(ConfigError::NonPositiveDuration));
    assert_eq!(Pomodoro::new(args(25, -1, 35, false), 0).err(), Some(ConfigError::NonPositiveDuration));
    assert_eq!(Pomodoro::new(args(25, 5, 0, false), 0).err(), Some(ConfigError::NonPositiveDuration));
    assert_eq!(
        Pomodoro::new(args(0, 5, MAX_MINUTES + 1, false), 0).err(),
        Some(ConfigError::NonPositiveDuration)
    );
}

#[test]
fn too_long_durations_are_refused() {
    assert_eq!(Pomodoro::new(args(MAX_MINUTES + 1, 5, 35, false), 0).err(), Some(ConfigError::DurationTooLong));
    assert_eq!(Pomodoro::new(args(25, 5, i64::MAX, false), 0).err(), Some(ConfigError::DurationTooLong));
    let p = timer(MAX_MINUTES, MAX_MINUTES, MAX_MINUTES, false, 0);
    assert_eq!(p.seconds_remaining(0), MAX_MINUTES * 60);
}

#[test]
fn tick_before_time_is_up_keeps_segment() {
    let mut p = timer(25, 5, 35, false, 0);
    for t in [0u64, 1, 100, 1499] {
        assert_eq!(p.tick(t), None);
        assert_eq!(p.state(), State::Work(1));
        assert_eq!(p.seconds_remaining(t), 1500 - t as i64);
    }
}

#[test]
fn tick_at_exact_length_keeps_segment() {
    let mut p = timer(1, 1, 1, false, 0);
    assert_eq!(p.tick(60), None);
    assert_eq!(p.state(), State::Work(1));
    assert_eq!(p.seconds_remaining(60), 0);
}

#[test]
fn tick_after_length_enters_overtime_once() {
    let mut p = timer(1, 1, 1, false, 10);
    let message = p.tick(71);
    assert_eq!(message, Some(String::from("Work 1 is done, take a short break.")));
    assert_eq!(p.state(), overtime(State::Work(1)));
    assert!(p.is_overtime());
    assert_eq!(p.seconds_remaining(71), -1);
    assert_eq!(p.tick(80), None);
    assert_eq!(p.tick(500), None);
    assert_eq!(p.state(), overtime(State::Work(1)));
    assert_eq!(p.seconds_remaining(500), 60 - 490);
}

#[test]
fn clock_before_start_counts_as_no_time() {
    let mut p = timer(1, 1, 1, false, 100);
    assert_eq!(p.seconds_passed(50), 0);
    assert_eq!(p.tick(50), None);
    assert_eq!(p.seconds_remaining(50), 60);
}

#[test]
fn next_is_refused_before_overtime_when_strict() {
    let mut p = timer(1, 1, 1, false, 0);
    p.next(30);
    assert_eq!(p.state(), State::Work(1));
    assert_eq!(p.seconds_remaining(30), 30);
}

#[test]
fn next_in_lenient_mode_skips_at_once() {
    let mut p = timer(1, 1, 1, true, 0);
    p.next(20);
    assert_eq!(p.state(), State::SmallBreak(1));
    assert_eq!(p.seconds_remaining(20), 60);
}

#[test]
fn full_cycle_returns_after_eight_acknowledgments() {
    let expected = [
        State::SmallBreak(1),
        State::Work(2),
        State::SmallBreak(2),
        State::Work(3),
        State::SmallBreak(3),
        State::Work(4),
        State::LargeBreak,
        State::Work(1),
    ];
    let mut p = timer(1, 2, 3, false, 0);
    let mut now: u64 = 0;
    for (i, want) in expected.iter().enumerate() {
        now += 200;
        assert!(p.tick(now).is_some());
        p.next(now);
        assert_eq!(&p.state(), want);
        if i < 7 {
            assert_ne!(p.state(), State::Work(1));
        }
    }
}

#[test]
fn lenient_cycle_returns_after_eight_advances() {
    let mut p = timer(25, 5, 35, true, 0);
    for k in 1..=8u64 {
        p.next(k);
        if k < 8 {
            assert_ne!(p.state(), State::Work(1));
        }
    }
    assert_eq!(p.state(), State::Work(1));
}

#[test]
fn durations_follow_segment_kind() {
    let mut p = timer(1, 2, 3, true, 0);
    assert_eq!(p.seconds_remaining(0), 60);
    p.next(0);
    assert_eq!(p.seconds_remaining(0), 120);
    for _ in 0..6 {
        p.next(0);
    }
    assert_eq!(p.state(), State::LargeBreak);
    assert_eq!(p.seconds_remaining(0), 180);
    assert_eq!(p.tick(181), Some(String::from("Large break is over \u{1f622}. Lets do this again! \u{1f4aa}")));
    assert_eq!(p.seconds_remaining(181), -1);
}

#[test]
fn notices_for_each_kind() {
    let mut p = timer(1, 1, 1, true, 0);
    for _ in 0..6 {
        p.next(0);
    }
    assert_eq!(p.state(), State::Work(4));
    assert_eq!(
        p.tick(61),
        Some(String::from("A whole work cycle is done \u{1f4aa}, time for a well deserved large break! \u{1f389}"))
    );
    let mut q = timer(1, 1, 1, true, 0);
    q.next(0);
    q.next(0);
    q.next(0);
    assert_eq!(q.state(), State::SmallBreak(2));
    assert_eq!(q.tick(100), Some(String::from("Small break 2 is done, lets get back to working.")));
}

#[test]
fn reads_do_not_change_the_timer() {
    let mut p = timer(1, 1, 1, false, 0);
    p.tick(90);
    for _ in 0..3 {
        assert_eq!(p.state(), overtime(State::Work(1)));
        assert_eq!(p.seconds_remaining(95), -35);
        assert_eq!(p.print_state(), "Overtime: Work Nr. 1");
    }
}

#[test]
fn one_minute_scenario() {
    let a = Args { work: 1, small_rest: 1, large_rest: 1, notifications: false, allow_continue: false };
    let mut p = Pomodoro::new(a, 0).unwrap();
    assert_eq!(p.state(), State::Work(1));
    assert_eq!(p.seconds_remaining(0), 60);
    p.tick(61);
    assert_eq!(p.state(), overtime(State::Work(1)));
    p.next(61);
    assert_eq!(p.state(), State::SmallBreak(1));
    assert_eq!(p.seconds_remaining(61), 60);
}

#[test]
fn lenient_skip_scenario() {
    let mut p = timer(1, 1, 1, true, 0);
    p.next(0);
    p.next(0);
    assert_eq!(p.state(), State::Work(2));
    assert_eq!(p.seconds_remaining(10), 50);
    p.next(10);
    assert_eq!(p.state(), State::SmallBreak(2));
    assert_eq!(p.seconds_remaining(10), 60);
}

#[test]
fn labels() {
    let mut p = timer(1, 1, 1, true, 0);
    assert_eq!(p.print_state(), "Work Nr. 1");
    p.next(0);
    assert_eq!(p.print_state(), "Small Break Nr. 1");
    for _ in 0..6 {
        p.next(0);
    }
    assert_eq!(p.print_state(), "Large Break");
    p.tick(100);
    assert_eq!(p.print_state(), "Overtime: Large Break");
    assert_eq!(State::SmallBreak(3).describe(), "Small Break Nr. 3");
    assert_eq!(overtime(State::Work(4)).describe(), "Overtime: Work Nr. 4");
}

#[test]
fn segment_helpers() {
    assert_eq!(State::Work(4).following(), State::LargeBreak);
    assert_eq!(State::Work(3).following(), State::SmallBreak(3));
    assert_eq!(State::SmallBreak(3).following(), State::Work(4));
    assert_eq!(State::LargeBreak.following(), State::Work(1));
    assert_eq!(overtime(State::SmallBreak(1)).following(), State::Work(2));
    assert!(overtime(State::LargeBreak).is_overtime());
    assert!(!State::LargeBreak.is_overtime());
    assert_eq!(overtime(State::Work(2)).clone(), overtime(State::Work(2)));
    assert_eq!(State::Work(3).notice(), "Work 3 is done, take a short break.");
}

#[test]
fn time_left_units() {
    assert_eq!(time_left(59), TimeLeft::Seconds(59));
    assert_eq!(time_left(0), TimeLeft::Seconds(0));
    assert_eq!(time_left(-130), TimeLeft::Seconds(-130));
    assert_eq!(time_left(60), TimeLeft::Minutes(1));
    assert_eq!(time_left(1499), TimeLeft::Minutes(24));
}

#[test]
fn centering() {
    assert_eq!(centered_start(80, 10), 35);
    assert_eq!(centered_start(81, 11), 35);
    assert_eq!(centered_start(10, 30), 1);
    assert_eq!(centered_start(10, 10), 1);
}

#[test]
fn longest_length_fits_in_seconds() {
    assert_eq!(MAX_MINUTES, i64::MAX / 60);
    assert!(MAX_MINUTES.checked_mul(60).is_some());
    assert!((MAX_MINUTES + 1).checked_mul(60).is_none());
}
