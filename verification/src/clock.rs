//! The wall clock, and the time stamp that goes with a telemetry request.
use vstd::prelude::*;
use vstd::string::*;
use chrono::{Datelike, Timelike};
use crate::text::{decimal, decimal_text, signed_decimal, signed_decimal_text};

verus! {

/// A moment of local time, to the second.
#[derive(Clone, Copy, Debug, PartialEq, Eq, Structural)]
pub struct Moment {
    pub year: i32,
    pub month: u32,
    pub day: u32,
    pub hour: u32,
    pub minute: u32,
    pub second: u32,
}

impl Moment {
    /// Whether the fields are in the ranges of a calendar and a clock.
    pub open spec fn in_range(self) -> bool {
        &&& 1 <= self.month <= 12
        &&& 1 <= self.day <= 31
        &&& self.hour <= 23
        &&& self.minute <= 59
        &&& self.second <= 59
    }

    /// The moment as the portal takes it: year, month and day with hyphens,
    /// a space, then hour, minute and second with colons, nothing padded.
    pub open spec fn stamp(self) -> Seq<char> {
        signed_decimal(self.year as int) + seq!['-'] + decimal(self.month as nat) + seq!['-']
            + decimal(self.day as nat) + seq![' '] + decimal(self.hour as nat) + seq![':']
            + decimal(self.minute as nat) + seq![':'] + decimal(self.second as nat)
    }

    /// `chrono::Local::now`, read through `Datelike` and `Timelike`: the
    /// current local time. Of the result only the ranges are claimed that
    /// chrono documents for each getter; which moment it is depends on the
    /// clock and the time zone of the machine.
    #[verifier::external_body]
    pub(crate) fn local_now() -> (r: Moment)
        ensures
            r.in_range(),
    {
        let now = chrono::Local::now();
        Moment {
            year: now.year(),
            month: now.month(),
            day: now.day(),
            hour: now.hour(),
            minute: now.minute(),
            second: now.second(),
        }
    }

    /// Writes the moment as the portal takes it.
    pub fn to_stamp(&self) -> (r: String)
        ensures
            r@ == self.stamp(),
    {
        proof {
            reveal_strlit("-");
            reveal_strlit(" ");
            reveal_strlit(":");
        }
        let mut s = signed_decimal_text(self.year as i64);
        s.append("-");
        s.append(decimal_text(self.month as u64).as_str());
        s.append("-");
        s.append(decimal_text(self.day as u64).as_str());
        s.append(" ");
        s.append(decimal_text(self.hour as u64).as_str());
        s.append(":");
        s.append(decimal_text(self.minute as u64).as_str());
        s.append(":");
        s.append(decimal_text(self.second as u64).as_str());
        assert(s@ =~= self.stamp());
        s
    }
}

} // verus!
