use vstd::prelude::*;

use crate::pomodoro::PomodoroView;
use crate::segment::State;

verus! {

impl State {
    /// The segment reached from this one after `k` acknowledgments.
    pub open spec fn advanced_times(self, k: nat) -> State
        decreases k,
    {
        if k == 0 {
            self
        } else {
            self.successor().advanced_times((k - 1) as nat)
        }
    }
}

impl PomodoroView {
    /// The timer after one tick at each of `times`, in order.
    pub open spec fn ticked_at_all(self, times: Seq<u64>) -> PomodoroView
        decreases times.len(),
    {
        if times.len() == 0 {
            self
        } else {
            self.ticked(times[0]).ticked_at_all(times.drop_first())
        }
    }
}

/// Until a segment's length has passed, a tick leaves the timer as it is, and
/// the time left is the segment's length less the time elapsed.
pub proof fn tick_before_time_is_up(p: PomodoroView, now: u64)
    requires
        p.wf(),
        p.state.is_steady(),
        p.elapsed(now) < p.duration_of(p.state),
    ensures
        p.ticked(now) == p,
        p.ticked(now).remaining(now) == p.duration_of(p.state) - p.elapsed(now),
{
}

/// Once a segment's length has been exceeded, one tick puts that segment into
/// overtime, keeping its start; no later tick changes the timer again.
pub proof fn tick_enters_overtime_once(p: PomodoroView, now: u64, later: Seq<u64>)
    requires
        p.wf(),
        p.state.is_steady(),
        p.elapsed(now) > p.duration_of(p.state),
    ensures
        p.ticked(now).state.is_overtime_of(p.state),
        p.ticked(now).start_time == p.start_time,
        p.ticked(now).wf(),
        p.ticked(now).ticked_at_all(later) == p.ticked(now),
{
    ticks_keep_overtime(p.ticked(now), later);
}

/// Ticks leave a timer in overtime unchanged, however many and whenever.
pub proof fn ticks_keep_overtime(p: PomodoroView, times: Seq<u64>)
    requires
        p.state is Overtime,
    ensures
        p.ticked_at_all(times) == p,
    decreases times.len(),
{
    if times.len() > 0 {
        ticks_keep_overtime(p.ticked(times[0]), times.drop_first());
    }
}

/// The cycle runs Work 1, Small Break 1, Work 2, Small Break 2, Work 3,
/// Small Break 3, Work 4, Large Break and then Work 1 again: eight
/// acknowledgments lead from Work 1 back to it, and no fewer do.
pub proof fn cycle_of_eight()
    ensures
        State::Work(1).advanced_times(1) == State::SmallBreak(1),
        State::Work(1).advanced_times(2) == State::Work(2),
        State::Work(1).advanced_times(3) == State::SmallBreak(2),
        State::Work(1).advanced_times(4) == State::Work(3),
        State::Work(1).advanced_times(5) == State::SmallBreak(3),
        State::Work(1).advanced_times(6) == State::Work(4),
        State::Work(1).advanced_times(7) == State::LargeBreak,
        State::Work(1).advanced_times(8) == State::Work(1),
        forall|k: nat| 0 < k < 8 ==> #[trigger] State::Work(1).advanced_times(k) != State::Work(1),
{
    reveal_with_fuel(State::advanced_times, 9);
}

/// Every steady segment comes back after eight acknowledgments.
pub proof fn cycle_returns(s: State)
    requires
        s.is_steady(),
    ensures
        s.advanced_times(8) == s,
{
    reveal_with_fuel(State::advanced_times, 9);
}

/// Acknowledging a segment that is not in overtime changes nothing unless the
/// timer is lenient; a lenient timer moves at once to the next segment, which
/// begins at that moment.
pub proof fn advance_before_overtime(p: PomodoroView, now: u64)
    requires
        p.wf(),
        p.state.is_steady(),
    ensures
        !p.allow_continue ==> p.advanced(now) == p,
        p.allow_continue ==> {
            &&& p.advanced(now).state == p.state.successor()
            &&& p.advanced(now).start_time == now
            &&& p.advanced(now).elapsed(now) == 0
            &&& p.advanced(now).wf()
        },
{
}

/// Acknowledging overtime moves to the next segment of the cycle, begun at
/// that moment, with the full length of that segment left.
pub proof fn acknowledge_overtime(p: PomodoroView, now: u64)
    requires
        p.wf(),
        p.state is Overtime,
    ensures
        p.advanced(now).state == p.state.base().successor(),
        p.advanced(now).wf(),
        p.advanced(now).remaining(now) == p.duration_of(p.state.base().successor()),
{
}

} // verus!
