//! Wall-clock times of chat messages.

use chrono::Timelike;
use vstd::prelude::*;

verus! {

/// A local time of day.
#[derive(Debug, Clone, Copy, PartialEq, Eq, Structural)]
pub struct ClockTime {
    pub hour: u32,
    pub minute: u32,
    pub second: u32,
}

/// The two decimal digits of `n` (below 100), zero-padded.
pub open spec fn two_digits(n: u32) -> Seq<char> {
    seq![(48u8 + (n / 10) as u8) as char, (48u8 + (n % 10) as u8) as char]
}

impl ClockTime {
    /// The time lies within one day.
    pub open spec fn wf(self) -> bool {
        self.hour < 24 && self.minute < 60 && self.second < 60
    }

    /// The time written `HH:MM:SS`.
    pub open spec fn label(self) -> Seq<char> {
        two_digits(self.hour) + seq![':'] + two_digits(self.minute) + seq![':'] + two_digits(
            self.second,
        )
    }

    /// The time written `HH:MM:SS`.
    pub fn format_hms(&self) -> (r: String)
        requires
            self.wf(),
        ensures
            r@ == self.label(),
    {
        let mut v: Vec<char> = Vec::new();
        push_two_digits(&mut v, self.hour);
        v.push(':');
        push_two_digits(&mut v, self.minute);
        v.push(':');
        push_two_digits(&mut v, self.second);
        assert(v@ =~= self.label());
        crate::shared::text::string_of(&v)
    }
}

/// Appends the two decimal digits of `n` to `v`.
fn push_two_digits(v: &mut Vec<char>, n: u32)
    requires
        n < 100,
    ensures
        final(v)@ == old(v)@ + two_digits(n),
{
    let tens = (n / 10) as u8;
    let ones = (n % 10) as u8;
    v.push((48u8 + tens) as char);
    v.push((48u8 + ones) as char);
    assert(final(v)@ =~= old(v)@ + two_digits(n));
}

/// Wraps `chrono::Local::now`, read through `Timelike::hour`, `minute` and
/// `second`, whose documentation gives the ranges 0 to 23, 0 to 59 and 0 to 59.
/// Which time it returns depends on the clock, and nothing more is stated.
#[verifier::external_body]
pub(crate) fn local_time_now() -> (r: ClockTime)
    ensures
        r.wf(),
{
    let now = chrono::Local::now();
    ClockTime { hour: now.hour(), minute: now.minute(), second: now.second() }
}

} // verus!
