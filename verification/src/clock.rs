//! The time of day that the bar shows.

use crate::text::{digit_char, digit_value, is_digit};
use chrono::NaiveTime;
use vstd::prelude::*;

verus! {

/// Whether `text` reads as a time of day: two digits for an hour below 24, a
/// colon, two digits for a minute below 60.
pub open spec fn is_clock_text(text: Seq<char>) -> bool {
    &&& text.len() == 5
    &&& is_digit(text[0])
    &&& is_digit(text[1])
    &&& text[2] == ':'
    &&& is_digit(text[3])
    &&& is_digit(text[4])
    &&& 10 * digit_value(text[0]) + digit_value(text[1]) < 24
    &&& 10 * digit_value(text[3]) + digit_value(text[4]) < 60
}

/// How a time of day is written: the hour and the minute with two digits
/// each, a colon between them.
pub open spec fn clock_text_of(hour: nat, minute: nat) -> Seq<char> {
    seq![
        digit_char(hour / 10),
        digit_char(hour % 10),
        ':',
        digit_char(minute / 10),
        digit_char(minute % 10),
    ]
}

/// What is written for a time of day reads as that time of day.
pub proof fn lemma_clock_text_reads_back(hour: nat, minute: nat)
    requires
        hour < 24,
        minute < 60,
    ensures
        is_clock_text(clock_text_of(hour, minute)),
        10 * digit_value(clock_text_of(hour, minute)[0]) + digit_value(
            clock_text_of(hour, minute)[1],
        ) == hour,
        10 * digit_value(clock_text_of(hour, minute)[3]) + digit_value(
            clock_text_of(hour, minute)[4],
        ) == minute,
{
}

/// Trusted: `chrono::NaiveTime::from_hms_opt` with no seconds, and, where it
/// gives a time, `chrono::NaiveTime::format` with `%H:%M`. chrono gives a
/// time exactly where the hour is below 24 and the minute below 60, and
/// writes the hour and the minute of that time with two digits each, a zero
/// in front where one is needed, and the colon between them as it stands in
/// the format.
#[verifier::external_body]
fn clock_text(hour: u32, minute: u32) -> (text: Option<String>)
    ensures
        (text is Some) == (hour < 24 && minute < 60),
        text matches Some(written) ==> written@ == clock_text_of(hour as nat, minute as nat),
{
    NaiveTime::from_hms_opt(hour, minute, 0).map(|time| time.format("%H:%M").to_string())
}

/// A time of day, to the minute.
#[derive(Debug, Clone, Copy)]
pub struct TimeOfDay {
    hour: u32,
    minute: u32,
}

impl TimeOfDay {
    #[verifier::type_invariant]
    spec fn in_range(self) -> bool {
        self.hour < 24 && self.minute < 60
    }

    /// The hour, from 0 to 23.
    pub closed spec fn spec_hour(&self) -> u32 {
        self.hour
    }

    /// The minute, from 0 to 59.
    pub closed spec fn spec_minute(&self) -> u32 {
        self.minute
    }

    /// The time `hour:minute`, or `None` where there is no such time of day.
    pub fn new(hour: u32, minute: u32) -> (time: Option<TimeOfDay>)
        ensures
            (time is Some) == (hour < 24 && minute < 60),
            time matches Some(found) ==> found.hour() == hour && found.minute() == minute,
    {
        if hour < 24 && minute < 60 {
            Some(TimeOfDay { hour, minute })
        } else {
            None
        }
    }

    /// The hour, from 0 to 23.
    #[verifier::when_used_as_spec(spec_hour)]
    pub fn hour(&self) -> (hour: u32)
        ensures
            hour == self.hour(),
            hour < 24,
    {
        proof {
            use_type_invariant(self);
        }
        self.hour
    }

    /// The minute, from 0 to 59.
    #[verifier::when_used_as_spec(spec_minute)]
    pub fn minute(&self) -> (minute: u32)
        ensures
            minute == self.minute(),
            minute < 60,
    {
        proof {
            use_type_invariant(self);
        }
        self.minute
    }

    /// The time as the bar shows it.
    pub fn text(&self) -> (text: String)
        ensures
            text@ == clock_text_of(self.hour() as nat, self.minute() as nat),
    {
        proof {
            use_type_invariant(self);
        }
        match clock_text(self.hour, self.minute) {
            Some(written) => written,
            None => vstd::pervasive::unreached(),
        }
    }
}

} // verus!
