use vstd::prelude::*;

use crate::text::{concat_str, decimal, decimal_text, digit, digit_char, push_char};

verus! {

broadcast use vstd::string::group_string_axioms;

/// The simulation's clock: one tick is one hour.
#[derive(Debug, Clone, Copy, PartialEq, Eq, Structural)]
pub struct GameTime {
    pub tick: u64,
    pub day: u32,
    pub hour: u8,
    pub week: u32,
    pub month: u32,
    pub is_day: bool,
}

impl Default for GameTime {
    fn default() -> (t: GameTime)
        ensures
            t == (GameTime { tick: 0, day: 1, hour: 8, week: 1, month: 1, is_day: true }),
    {
        let hour: u8 = 8;
        GameTime { tick: 0, day: 1, hour, week: 1, month: 1, is_day: hour >= 6 && hour < 18 }
    }
}

/// The clock an hour later: past midnight a new day starts, a new week on days divisible
/// by seven and a new month on days divisible by twenty-eight; it is day from six to
/// eighteen.
pub open spec fn next_hour(t: GameTime) -> GameTime {
    let hour = t.hour + 1;
    if hour >= 24 {
        let day = t.day + 1;
        GameTime {
            tick: (t.tick + 1) as u64,
            day: day as u32,
            hour: 0,
            week: (if day % 7 == 0 { t.week + 1 } else { t.week as int }) as u32,
            month: (if day % 28 == 0 { t.month + 1 } else { t.month as int }) as u32,
            is_day: false,
        }
    } else {
        GameTime {
            tick: (t.tick + 1) as u64,
            hour: hour as u8,
            is_day: 6 <= hour < 18,
            ..t
        }
    }
}

/// At least two digits: a leading zero below ten.
pub open spec fn two_digits(v: int) -> Seq<char> {
    if v < 10 {
        seq!['0'] + decimal(v)
    } else {
        decimal(v)
    }
}

/// The clock as `Day 3, Week 1, Month 1, 08:00 (Day)`.
pub open spec fn time_text(t: GameTime) -> Seq<char> {
    "Day "@ + decimal(t.day as int) + ", Week "@ + decimal(t.week as int) + ", Month "@ + decimal(t.month as int)
        + ", "@ + two_digits(t.hour as int) + ":00 ("@ + (if t.is_day { "Day"@ } else { "Night"@ }) + ")"@
}

impl GameTime {
    /// The clock as text.
    pub fn to_string(&self) -> (s: String)
        ensures
            s@ == time_text(*self),
    {
        let mut s = concat_str("Day ", decimal_text(self.day as u64).as_str());
        s.append(", Week ");
        s.append(decimal_text(self.week as u64).as_str());
        s.append(", Month ");
        s.append(decimal_text(self.month as u64).as_str());
        s.append(", ");
        if self.hour < 10 {
            push_char(&mut s, '0');
        }
        s.append(decimal_text(self.hour as u64).as_str());
        s.append(":00 (");
        s.append(if self.is_day { "Day" } else { "Night" });
        s.append(")");
        s
    }

    /// Moves the clock on by an hour.
    pub fn advance(&mut self)
        requires
            old(self).tick < u64::MAX,
            old(self).hour < u8::MAX,
            old(self).day < u32::MAX,
            old(self).week < u32::MAX,
            old(self).month < u32::MAX,
        ensures
            *final(self) == next_hour(*old(self)),
    {
        self.tick = self.tick + 1;
        self.hour = self.hour + 1;
        if self.hour >= 24 {
            self.hour = 0;
            self.day = self.day + 1;
            if self.day % 7 == 0 {
                self.week = self.week + 1;
            }
            if self.day % 28 == 0 {
                self.month = self.month + 1;
            }
        }
        self.is_day = self.hour >= 6 && self.hour < 18;
    }
}

/// An hour passes: the tick counts up by one, the hour stays within a day, and the day
/// moves on by one exactly when the hour wraps to midnight.
pub proof fn law_clock_moves_one_hour(t: GameTime)
    requires
        t.hour < 24,
        t.tick < u64::MAX,
        t.day < u32::MAX,
        t.week < u32::MAX,
        t.month < u32::MAX,
    ensures
        next_hour(t).tick == t.tick + 1,
        next_hour(t).hour < 24,
        next_hour(t).hour == (t.hour + 1) % 24,
        next_hour(t).day == if t.hour == 23 { t.day + 1 } else { t.day as int },
        next_hour(t).is_day == (6 <= next_hour(t).hour < 18),
{
}

} // verus!
