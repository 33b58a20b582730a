use vstd::prelude::*;

verus! {

/// How the time left in a segment is shown: under a minute in seconds
/// (negative once the segment has overrun), otherwise in whole minutes.
#[derive(Debug, Clone, Copy, PartialEq, Eq)]
pub enum TimeLeft {
    Seconds(i64),
    Minutes(i64),
}

/// The unit and amount in which `seconds` left are shown.
pub fn time_left(seconds: i64) -> (r: TimeLeft)
    ensures
        seconds < 60 ==> r == TimeLeft::Seconds(seconds),
        seconds >= 60 ==> r == TimeLeft::Minutes((seconds / 60) as i64),
{
    if seconds < 60 {
        TimeLeft::Seconds(seconds)
    } else {
        TimeLeft::Minutes(seconds / 60)
    }
}

/// The one-based column (or row) at which text of `text_len` characters
/// starts when centred on a line of `extent` cells: half the extent less half
/// the text, and the first cell when the text is wider than that.
pub fn centered_start(extent: u16, text_len: usize) -> (r: u16)
    ensures
        extent / 2 > text_len / 2 ==> r == extent / 2 - text_len / 2,
        extent / 2 <= text_len / 2 ==> r == 1,
{
    let half_text = text_len / 2;
    let half_extent = (extent / 2) as usize;
    if half_extent > half_text {
        (half_extent - half_text) as u16
    } else {
        1
    }
}

} // verus!
