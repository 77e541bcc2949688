//! A time of day, to the nanosecond.

use crate::text::{decimal, digit_char};
use vstd::prelude::*;

verus! {

/// The last `width` decimal digits of `n`, with zeros in front where `n`
/// has fewer.
pub open spec fn padded(n: nat, width: nat) -> Seq<char>
    decreases width,
{
    if width == 0 {
        Seq::<char>::empty()
    } else {
        padded(n / 10, (width - 1) as nat).push(digit_char((n % 10) as int))
    }
}

/// A fraction of `width` digits without the zeros at its end; one digit
/// always stays.
pub open spec fn fraction(n: nat, width: nat) -> Seq<char>
    decreases width,
{
    if width > 1 && n % 10 == 0 {
        fraction(n / 10, (width - 1) as nat)
    } else {
        padded(n, width)
    }
}

/// How a time of day is written: the hour as it is, minute and second
/// with two digits each, and the nanoseconds as a fraction of the second,
/// as in `8:00:00.0` and `23:05:09.12`.
pub open spec fn time_text(hour: u8, minute: u8, second: u8, nanosecond: u32) -> Seq<char> {
    decimal(hour as nat) + ":"@ + padded(minute as nat, 2) + ":"@ + padded(second as nat, 2)
        + "."@ + fraction(nanosecond as nat, 9)
}

/// A clock time within one day. The components are always in range:
/// hours below 24, minutes and seconds below 60, nanoseconds below 10^9.
#[derive(Clone, Copy, Debug, PartialEq, Eq, Hash, Structural)]
pub struct TimeOfDay {
    hour: u8,
    minute: u8,
    second: u8,
    nanosecond: u32,
}

/// Whether the four numbers are a time of day.
pub open spec fn components_in_range(hour: u8, minute: u8, second: u8, nanosecond: u32) -> bool {
    hour < 24 && minute < 60 && second < 60 && nanosecond < 1_000_000_000
}

impl View for TimeOfDay {
    type V = (u8, u8, u8, u32);

    /// Hour, minute, second and nanosecond.
    closed spec fn view(&self) -> (u8, u8, u8, u32) {
        (self.hour, self.minute, self.second, self.nanosecond)
    }
}

impl TimeOfDay {
    #[verifier::type_invariant]
    spec fn in_range(self) -> bool {
        components_in_range(self.hour, self.minute, self.second, self.nanosecond)
    }

    /// The time of day with the given components.
    pub closed spec fn of(hour: u8, minute: u8, second: u8, nanosecond: u32) -> TimeOfDay {
        TimeOfDay { hour, minute, second, nanosecond }
    }

    /// `of` builds the time whose view is its arguments.
    pub broadcast proof fn lemma_of_view(hour: u8, minute: u8, second: u8, nanosecond: u32)
        ensures
            (#[trigger] TimeOfDay::of(hour, minute, second, nanosecond))@ == (
                hour,
                minute,
                second,
                nanosecond,
            ),
    {
    }

    /// A time of day is determined by its components.
    pub proof fn lemma_view_injective(a: TimeOfDay, b: TimeOfDay)
        requires
            a@ == b@,
        ensures
            a == b,
    {
    }

    /// The time at a full second, or `None` if a component is out of range.
    pub fn from_hms(hour: u8, minute: u8, second: u8) -> (time: Option<TimeOfDay>)
        ensures
            components_in_range(hour, minute, second, 0) ==> time == Some(
                TimeOfDay::of(hour, minute, second, 0),
            ),
            !components_in_range(hour, minute, second, 0) ==> time is None,
    {
        TimeOfDay::from_hms_nano(hour, minute, second, 0)
    }

    /// The time with the given components, or `None` if one is out of range.
    pub fn from_hms_nano(hour: u8, minute: u8, second: u8, nanosecond: u32) -> (time: Option<
        TimeOfDay,
    >)
        ensures
            components_in_range(hour, minute, second, nanosecond) ==> time == Some(
                TimeOfDay::of(hour, minute, second, nanosecond),
            ),
            !components_in_range(hour, minute, second, nanosecond) ==> time is None,
    {
        if hour < 24 && minute < 60 && second < 60 && nanosecond < 1_000_000_000 {
            Some(TimeOfDay { hour, minute, second, nanosecond })
        } else {
            None
        }
    }

    /// The clock hour, 0 to 23.
    pub fn hour(&self) -> (hour: u8)
        ensures
            hour == self@.0,
            hour < 24,
    {
        proof {
            use_type_invariant(self);
        }
        self.hour
    }

    /// The minute within the hour, 0 to 59.
    pub fn minute(&self) -> (minute: u8)
        ensures
            minute == self@.1,
            minute < 60,
    {
        proof {
            use_type_invariant(self);
        }
        self.minute
    }

    /// The second within the minute, 0 to 59.
    pub fn second(&self) -> (second: u8)
        ensures
            second == self@.2,
            second < 60,
    {
        proof {
            use_type_invariant(self);
        }
        self.second
    }

    /// The nanosecond within the second.
    pub fn nanosecond(&self) -> (nanosecond: u32)
        ensures
            nanosecond == self@.3,
            nanosecond < 1_000_000_000,
    {
        proof {
            use_type_invariant(self);
        }
        self.nanosecond
    }

    /// The time as text, written by the `time` crate.
    pub fn to_text(&self) -> (text: String)
        ensures
            text@ == time_text(self@.0, self@.1, self@.2, self@.3),
    {
        proof {
            use_type_invariant(self);
        }
        print_time(self.hour, self.minute, self.second, self.nanosecond)
    }
}

/// Builds a `time::Time` with `Time::from_hms_nano` and prints it through its
/// `Display` impl. That impl writes the hour without padding, a colon, the
/// minute with two digits, a colon, the second with two digits, a full
/// stop, and the nine digits of the nanoseconds without the zeros at their
/// end, of which the first always stays. The components are required to be
/// in range, so `from_hms_nano` does not fail.
#[verifier::external_body]
fn print_time(hour: u8, minute: u8, second: u8, nanosecond: u32) -> (text: String)
    requires
        components_in_range(hour, minute, second, nanosecond),
    ensures
        text@ == time_text(hour, minute, second, nanosecond),
{
    match time::Time::from_hms_nano(hour, minute, second, nanosecond) {
        Ok(time) => time.to_string(),
        Err(_) => String::new(),
    }
}

} // verus!
