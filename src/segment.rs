use vstd::prelude::*;
use vstd::string::*;

verus! {

/// One block of time in the cycle.
///
/// `Work(n)` is the n-th work block (1 to 4), `SmallBreak(n)` the short break
/// after work block n (1 to 3), `LargeBreak` the long break after work block 4.
/// `Overtime(s)` holds the plain segment `s` once its time has run out, until
/// the user acknowledges it; it never wraps another `Overtime`.
#[derive(Debug, PartialEq, Eq)]
pub enum State {
    Work(u8),
    SmallBreak(u8),
    LargeBreak,
    Overtime(Box<State>),
}

impl State {
    /// A segment of the cycle that is not in overtime, with its number in range.
    pub open spec fn is_steady(self) -> bool {
        match self {
            State::Work(n) => 1 <= n <= 4,
            State::SmallBreak(n) => 1 <= n <= 3,
            State::LargeBreak => true,
            State::Overtime(_) => false,
        }
    }

    /// Either a steady segment or exactly one level of overtime around one.
    pub open spec fn wf(self) -> bool {
        match self {
            State::Overtime(inner) => inner.is_steady(),
            _ => self.is_steady(),
        }
    }

    /// The segment with one level of overtime taken off.
    pub open spec fn base(self) -> State {
        match self {
            State::Overtime(inner) => *inner,
            _ => self,
        }
    }

    /// The steady segment that follows a steady segment in the cycle.
    pub open spec fn successor(self) -> State {
        match self {
            State::Work(n) => if n == 4 {
                State::LargeBreak
            } else {
                State::SmallBreak(n)
            },
            State::SmallBreak(n) => State::Work((n + 1) as u8),
            _ => State::Work(1),
        }
    }

    /// This segment is `s` wrapped in one level of overtime.
    pub open spec fn is_overtime_of(self, s: State) -> bool {
        self matches State::Overtime(inner) && *inner == s
    }

    /// Whether the segment is waiting in overtime.
    pub fn is_overtime(&self) -> (r: bool)
        ensures
            r == (*self is Overtime),
    {
        match self {
            State::Overtime(_) => true,
            _ => false,
        }
    }

    /// The steady segment that comes after this one (taking off overtime first).
    pub fn following(&self) -> (r: State)
        requires
            self.wf(),
        ensures
            r == self.base().successor(),
            r.is_steady(),
    {
        let s: &State = match self {
            State::Overtime(inner) => inner,
            _ => self,
        };
        match s {
            State::Work(n) => if *n == 4 {
                State::LargeBreak
            } else {
                State::SmallBreak(*n)
            },
            State::SmallBreak(n) => State::Work(*n + 1),
            _ => State::Work(1),
        }
    }
}

impl Clone for State {
    fn clone(&self) -> (r: State)
        ensures
            r == *self,
        decreases self,
    {
        match self {
            State::Work(n) => State::Work(*n),
            State::SmallBreak(n) => State::SmallBreak(*n),
            State::LargeBreak => State::LargeBreak,
            State::Overtime(inner) => State::Overtime(Box::new((**inner).clone())),
        }
    }
}

/// The decimal text of a segment number.
pub open spec fn digit_text(n: u8) -> Seq<char> {
    if n == 1 {
        "1"@
    } else if n == 2 {
        "2"@
    } else if n == 3 {
        "3"@
    } else {
        "4"@
    }
}

/// The label of a steady segment.
pub open spec fn label_text(s: State) -> Seq<char> {
    match s {
        State::Work(n) => "Work Nr. "@ + digit_text(n),
        State::SmallBreak(n) => "Small Break Nr. "@ + digit_text(n),
        _ => "Large Break"@,
    }
}

/// The label of a well-formed segment, marked when it is in overtime.
pub open spec fn describe_text(s: State) -> Seq<char> {
    match s {
        State::Overtime(inner) => "Overtime: "@ + label_text(*inner),
        _ => label_text(s),
    }
}

/// The message announcing that a steady segment has run out.
pub open spec fn notice_text(s: State) -> Seq<char> {
    match s {
        State::Work(n) => if n == 4 {
            "A whole work cycle is done \u{1f4aa}, time for a well deserved large break! \u{1f389}"@
        } else {
            "Work "@ + digit_text(n) + " is done, take a short break."@
        },
        State::SmallBreak(n) => "Small break "@ + digit_text(n) + " is done, lets get back to working."@,
        _ => "Large break is over \u{1f622}. Lets do this again! \u{1f4aa}"@,
    }
}

fn digit(n: u8) -> (r: &'static str)
    requires
        1 <= n <= 4,
    ensures
        r@ == digit_text(n),
{
    if n == 1 {
        "1"
    } else if n == 2 {
        "2"
    } else if n == 3 {
        "3"
    } else {
        "4"
    }
}

fn label(s: &State) -> (r: String)
    requires
        s.is_steady(),
    ensures
        r@ == label_text(*s),
{
    match s {
        State::Work(n) => String::from_str("Work Nr. ").concat(digit(*n)),
        State::SmallBreak(n) => String::from_str("Small Break Nr. ").concat(digit(*n)),
        _ => String::from_str("Large Break"),
    }
}

impl State {
    /// The human label of the segment: "Work Nr. n", "Small Break Nr. n" or
    /// "Large Break", after "Overtime: " while the segment is in overtime.
    pub fn describe(&self) -> (r: String)
        requires
            self.wf(),
        ensures
            r@ == describe_text(*self),
    {
        match self {
            State::Overtime(inner) => String::from_str("Overtime: ").concat(label(inner).as_str()),
            _ => label(self),
        }
    }

    /// The message that announces the end of this steady segment.
    pub fn notice(&self) -> (r: String)
        requires
            self.is_steady(),
        ensures
            r@ == notice_text(*self),
    {
        match self {
            State::Work(n) => if *n == 4 {
                String::from_str(
                    "A whole work cycle is done \u{1f4aa}, time for a well deserved large break! \u{1f389}",
                )
            } else {
                String::from_str("Work ").concat(digit(*n)).concat(" is done, take a short break.")
            },
            State::SmallBreak(n) => String::from_str("Small break ").concat(digit(*n)).concat(
                " is done, lets get back to working.",
            ),
            _ => String::from_str("Large break is over \u{1f622}. Lets do this again! \u{1f4aa}"),
        }
    }
}

} // verus!
