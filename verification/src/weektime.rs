//! Points in a repeating seven-day week and the arithmetic between them.

use crate::clock::local_day_and_seconds;
use vstd::arithmetic::div_mod::lemma_add_mod_noop_right;
use vstd::prelude::*;

verus! {

/// Seconds in one day.
pub const SECONDS_PER_DAY: u32 = 86_400;

/// Seconds in one week: the period after which every [`WeekTime`] recurs.
pub const SECONDS_PER_WEEK: u32 = 604_800;

/// A day of the week, counted from Monday.
#[derive(Clone, Copy, Debug, PartialEq, Eq, Structural)]
pub enum Weekday {
    Monday,
    Tuesday,
    Wednesday,
    Thursday,
    Friday,
    Saturday,
    Sunday,
}

impl Weekday {
    /// The number of days from Monday to this day: Monday is 0, Sunday is 6.
    pub open spec fn index(self) -> int {
        match self {
            Weekday::Monday => 0,
            Weekday::Tuesday => 1,
            Weekday::Wednesday => 2,
            Weekday::Thursday => 3,
            Weekday::Friday => 4,
            Weekday::Saturday => 5,
            Weekday::Sunday => 6,
        }
    }

    /// The day that lies `n` days after Monday, if `n` is at most 6.
    pub open spec fn spec_from_u32(n: u32) -> Option<Weekday> {
        if n == 0 {
            Some(Weekday::Monday)
        } else if n == 1 {
            Some(Weekday::Tuesday)
        } else if n == 2 {
            Some(Weekday::Wednesday)
        } else if n == 3 {
            Some(Weekday::Thursday)
        } else if n == 4 {
            Some(Weekday::Friday)
        } else if n == 5 {
            Some(Weekday::Saturday)
        } else if n == 6 {
            Some(Weekday::Sunday)
        } else {
            None
        }
    }

    /// The day that lies `n` days after Monday, if `n` is at most 6.
    #[verifier::when_used_as_spec(spec_from_u32)]
    pub fn from_u32(n: u32) -> (day: Option<Weekday>)
        ensures
            day == Weekday::spec_from_u32(n),
            n < 7 ==> day is Some && day->0.index() == n,
            n >= 7 ==> day is None,
    {
        match n {
            0 => Some(Weekday::Monday),
            1 => Some(Weekday::Tuesday),
            2 => Some(Weekday::Wednesday),
            3 => Some(Weekday::Thursday),
            4 => Some(Weekday::Friday),
            5 => Some(Weekday::Saturday),
            6 => Some(Weekday::Sunday),
            _ => None,
        }
    }

    /// The number of days from Monday to this day.
    pub fn to_u32(self) -> (n: u32)
        ensures
            n == self.index(),
            n < 7,
    {
        match self {
            Weekday::Monday => 0,
            Weekday::Tuesday => 1,
            Weekday::Wednesday => 2,
            Weekday::Thursday => 3,
            Weekday::Friday => 4,
            Weekday::Saturday => 5,
            Weekday::Sunday => 6,
        }
    }
}

/// A time of day to the second: what a wall clock shows between 00:00:00 and
/// 23:59:59.
#[derive(Clone, Copy, Debug, PartialEq, Eq, Structural)]
pub struct TimeOfDay {
    secs: u32,
}

impl View for TimeOfDay {
    type V = int;

    /// The number of seconds since midnight.
    closed spec fn view(&self) -> int {
        self.secs as int
    }
}

impl TimeOfDay {
    /// Every time of day lies before the end of its day.
    #[verifier::type_invariant]
    pub closed spec fn wf(self) -> bool {
        self.secs < SECONDS_PER_DAY
    }

    /// The time `hour:min:sec`, if it names a second of the day.
    pub fn from_hms(hour: u32, min: u32, sec: u32) -> (time: Option<TimeOfDay>)
        ensures
            hour < 24 && min < 60 && sec < 60 ==> time is Some && time->0.wf() && time->0@ == hour
                * 3600 + min * 60 + sec,
            !(hour < 24 && min < 60 && sec < 60) ==> time is None,
    {
        if hour < 24 && min < 60 && sec < 60 {
            Some(TimeOfDay { secs: hour * 3600 + min * 60 + sec })
        } else {
            None
        }
    }

    /// The time that lies `secs` seconds after midnight, if that is still the
    /// same day.
    pub fn from_num_seconds_from_midnight(secs: u32) -> (time: Option<TimeOfDay>)
        ensures
            secs < SECONDS_PER_DAY ==> time is Some && time->0.wf() && time->0@ == secs,
            secs >= SECONDS_PER_DAY ==> time is None,
    {
        if secs < SECONDS_PER_DAY {
            Some(TimeOfDay { secs })
        } else {
            None
        }
    }

    /// The number of seconds since midnight.
    pub fn num_seconds_from_midnight(&self) -> (secs: u32)
        ensures
            secs == self@,
            secs < SECONDS_PER_DAY,
    {
        proof {
            use_type_invariant(self);
        }
        self.secs
    }

    /// A valid time of day lies in `[0, 86400)`.
    pub proof fn lemma_wf_range(self)
        requires
            self.wf(),
        ensures
            0 <= self@ < SECONDS_PER_DAY,
    {
    }
}

/// The forward-only distance in seconds from second `from` of the week to
/// second `to`, wrapping at the end of the week.  Equal instants are a full
/// week apart, never zero seconds.
pub open spec fn forward_interval(from: int, to: int) -> int {
    let wrapped = (to - from) % (SECONDS_PER_WEEK as int);
    if wrapped == 0 {
        SECONDS_PER_WEEK as int
    } else {
        wrapped
    }
}

/// The second at which a wait ends that starts at second `start` and lasts
/// until second `target` of the week comes next.  Both `start` and the
/// result count from the same Monday 00:00:00.
pub open spec fn wait_end(start: int, target: int) -> int {
    start + forward_interval(start % (SECONDS_PER_WEEK as int), target)
}

/// A wait ends after its start, at most a week later, and exactly on its
/// target.
pub proof fn lemma_wait_ends_on_target(start: int, target: int)
    requires
        0 <= target < SECONDS_PER_WEEK,
    ensures
        start < wait_end(start, target) <= start + SECONDS_PER_WEEK,
        wait_end(start, target) % (SECONDS_PER_WEEK as int) == target,
{
}

/// Of two waits for the same target, the second starting no earlier than
/// the first ended, the second ends at least a week after the first: a
/// wait that is started again when it has ended, or any time later, does
/// not end twice within one week.
pub proof fn lemma_next_wait_ends_a_week_later(first: int, second: int, target: int)
    requires
        0 <= target < SECONDS_PER_WEEK,
        wait_end(first, target) <= second,
    ensures
        wait_end(first, target) + SECONDS_PER_WEEK <= wait_end(second, target),
{
    lemma_wait_ends_on_target(first, target);
    lemma_wait_ends_on_target(second, target);
}

/// A recurring instant within the week: a day and a time of that day.
#[derive(Clone, Copy, Debug, PartialEq, Eq, Structural)]
pub struct WeekTime {
    day: Weekday,
    time: TimeOfDay,
}

impl View for WeekTime {
    type V = int;

    /// The number of seconds since Monday 00:00:00.
    open spec fn view(&self) -> int {
        self.spec_day().index() * SECONDS_PER_DAY + self.spec_time()@
    }
}

impl WeekTime {
    /// The day of the week.
    pub closed spec fn spec_day(&self) -> Weekday {
        self.day
    }

    /// The time of the day.
    pub closed spec fn spec_time(&self) -> TimeOfDay {
        self.time
    }

    /// A week time is valid when its time of day is.
    #[verifier::type_invariant]
    pub open spec fn wf(self) -> bool {
        self.spec_time().wf()
    }

    /// The instant `time` on `day`.
    pub fn new(day: Weekday, time: TimeOfDay) -> (t: WeekTime)
        ensures
            t.spec_day() == day,
            t.spec_time() == time,
            t.wf(),
    {
        proof {
            use_type_invariant(time);
        }
        WeekTime { day, time }
    }

    /// The day of the week.
    #[verifier::when_used_as_spec(spec_day)]
    pub fn day(&self) -> (day: Weekday)
        ensures
            day == self.spec_day(),
    {
        self.day
    }

    /// The time of the day.
    #[verifier::when_used_as_spec(spec_time)]
    pub fn time(&self) -> (time: TimeOfDay)
        ensures
            time == self.spec_time(),
            time.wf(),
    {
        proof {
            use_type_invariant(self);
        }
        self.time
    }

    /// The number of seconds since Monday 00:00:00.
    pub open spec fn spec_to_seconds(&self) -> u32 {
        self@ as u32
    }

    /// The number of seconds since Monday 00:00:00, in `[0, 604800)`.
    #[verifier::when_used_as_spec(spec_to_seconds)]
    pub fn to_seconds(&self) -> (seconds: u32)
        ensures
            seconds == self@,
            seconds == self.spec_to_seconds(),
            seconds < SECONDS_PER_WEEK,
    {
        proof {
            use_type_invariant(self);
            self.lemma_wf_range();
        }
        self.day.to_u32() * SECONDS_PER_DAY + self.time.num_seconds_from_midnight()
    }

    /// The week time that lies `seconds` seconds after some Monday 00:00:00:
    /// the day and the time of day into which `seconds`, reduced modulo one
    /// week, decomposes.
    pub closed spec fn spec_from_seconds(seconds: u32) -> WeekTime {
        let wrapped = seconds % SECONDS_PER_WEEK;
        WeekTime {
            day: Weekday::spec_from_u32(wrapped / SECONDS_PER_DAY).unwrap(),
            time: TimeOfDay { secs: wrapped % SECONDS_PER_DAY },
        }
    }

    /// The week time that lies `seconds` seconds after some Monday 00:00:00.
    /// Any number of seconds is accepted: whole weeks are dropped.
    #[verifier::when_used_as_spec(spec_from_seconds)]
    pub fn from_seconds(seconds: u32) -> (t: WeekTime)
        ensures
            t == WeekTime::spec_from_seconds(seconds),
            t@ == seconds % SECONDS_PER_WEEK,
            t.wf(),
    {
        let seconds = seconds % SECONDS_PER_WEEK;
        let days = seconds / SECONDS_PER_DAY;
        let seconds = seconds - days * SECONDS_PER_DAY;
        WeekTime {
            day: Weekday::from_u32(days).unwrap(),
            time: TimeOfDay::from_num_seconds_from_midnight(seconds).unwrap(),
        }
    }

    /// The forward-only distance in seconds from this instant to `other`.
    pub open spec fn spec_interval_to(&self, other: &WeekTime) -> u64 {
        forward_interval(self@, other@) as u64
    }

    /// The time in seconds that passes from this instant until `other` comes
    /// next.  It never runs backwards, and from an instant to itself it is a
    /// full week.
    #[verifier::when_used_as_spec(spec_interval_to)]
    pub fn interval_to(&self, other: &WeekTime) -> (seconds: u64)
        ensures
            seconds == forward_interval(self@, other@),
            seconds == self.spec_interval_to(other),
            0 < seconds <= SECONDS_PER_WEEK,
    {
        let this = self.to_seconds();
        let other = other.to_seconds();
        let wait = if other > this {
            other - this
        } else {
            SECONDS_PER_WEEK - (this - other)
        };
        wait as u64
    }

    /// The local wall-clock day and time of day at the moment of the call.
    pub fn now() -> (t: WeekTime)
        ensures
            t.wf(),
    {
        let (days, seconds) = local_day_and_seconds();
        WeekTime {
            day: Weekday::from_u32(days).unwrap(),
            time: TimeOfDay::from_num_seconds_from_midnight(seconds).unwrap(),
        }
    }

    /// The time in seconds that a caller must wait, from the moment of the
    /// call, until this instant comes next: `now().interval_to(self)`.
    pub fn interval_from_now(&self) -> (seconds: u64)
        ensures
            exists|now: WeekTime| now.wf() && seconds == now.interval_to(self),
            0 < seconds <= SECONDS_PER_WEEK,
    {
        WeekTime::now().interval_to(self)
    }

    /// The same day and time one week later.  A week time already stands for
    /// every week, so this is the same value.
    pub fn plus_week(&self) -> (t: WeekTime)
        ensures
            t == *self,
            t@ == (self@ + SECONDS_PER_WEEK) % (SECONDS_PER_WEEK as int),
    {
        proof {
            use_type_invariant(self);
            self.lemma_wf_range();
        }
        *self
    }

    /// The week time that lies `delta` seconds after this one.
    pub open spec fn spec_add_duration(&self, delta: u64) -> WeekTime {
        WeekTime::spec_from_seconds(((self@ + delta) % (SECONDS_PER_WEEK as int)) as u32)
    }

    /// The week time that lies `delta` seconds after this one, wrapping at
    /// the end of the week.
    #[verifier::when_used_as_spec(spec_add_duration)]
    pub fn add_duration(&self, delta: u64) -> (t: WeekTime)
        ensures
            t == self.spec_add_duration(delta),
            t@ == (self@ + delta) % (SECONDS_PER_WEEK as int),
            t.wf(),
    {
        let reduced = (delta % (SECONDS_PER_WEEK as u64)) as u32;
        proof {
            lemma_add_mod_noop_right(self@, delta as int, SECONDS_PER_WEEK as int);
        }
        WeekTime::from_seconds(self.to_seconds() + reduced)
    }

    /// A valid week time lies in `[0, 604800)`.
    pub proof fn lemma_wf_range(self)
        requires
            self.wf(),
        ensures
            0 <= self@ < SECONDS_PER_WEEK,
    {
        self.spec_time().lemma_wf_range();
    }

    /// Two valid week times that lie the same number of seconds into the
    /// week are the same week time.
    pub proof fn lemma_seconds_determine(a: WeekTime, b: WeekTime)
        requires
            a.wf(),
            b.wf(),
            a@ == b@,
        ensures
            a == b,
    {
        a.spec_time().lemma_wf_range();
        b.spec_time().lemma_wf_range();
    }

    /// Building a week time from a number of seconds and reading its seconds
    /// back gives that number reduced modulo one week.
    pub proof fn lemma_from_seconds_to_seconds(seconds: u32)
        ensures
            WeekTime::from_seconds(seconds).wf(),
            WeekTime::from_seconds(seconds).to_seconds() == seconds % SECONDS_PER_WEEK,
    {
    }

    /// From an instant to itself it is a full week, never zero seconds.
    pub proof fn lemma_interval_to_self(a: WeekTime)
        ensures
            a.interval_to(&a) == SECONDS_PER_WEEK,
    {
    }

    /// The way there and the way back between two different instants add up
    /// to one week; between an instant and itself they are two full weeks.
    pub proof fn lemma_interval_there_and_back(a: WeekTime, b: WeekTime)
        requires
            a.wf(),
            b.wf(),
        ensures
            a != b ==> a.interval_to(&b) + b.interval_to(&a) == SECONDS_PER_WEEK,
            a == b ==> a.interval_to(&b) + b.interval_to(&a) == 2 * SECONDS_PER_WEEK,
    {
        a.lemma_wf_range();
        b.lemma_wf_range();
        if a != b {
            if a@ == b@ {
                WeekTime::lemma_seconds_determine(a, b);
            }
        }
    }

    /// An interval is never zero and never longer than a week, and between
    /// two different instants it is shorter than a week.
    pub proof fn lemma_interval_range(a: WeekTime, b: WeekTime)
        requires
            a.wf(),
            b.wf(),
        ensures
            0 < a.interval_to(&b) <= SECONDS_PER_WEEK,
            a != b ==> a.interval_to(&b) < SECONDS_PER_WEEK,
    {
        a.lemma_wf_range();
        b.lemma_wf_range();
        if a != b {
            if a@ == b@ {
                WeekTime::lemma_seconds_determine(a, b);
            }
        }
    }

    /// An instant that lies `delta` seconds ahead, at most a week, is
    /// `delta` seconds away.
    pub proof fn lemma_interval_to_later(a: WeekTime, delta: u64)
        requires
            a.wf(),
            0 < delta <= SECONDS_PER_WEEK,
        ensures
            a.interval_to(&a.add_duration(delta)) == delta,
    {
        a.lemma_wf_range();
    }

    /// Waiting out the interval from one instant to another ends exactly on
    /// the other instant.
    pub proof fn lemma_interval_reaches_target(a: WeekTime, b: WeekTime)
        requires
            a.wf(),
            b.wf(),
        ensures
            a.add_duration(a.interval_to(&b)) == b,
    {
        a.lemma_wf_range();
        b.lemma_wf_range();
        let reached = a.add_duration(a.interval_to(&b));
        assert(reached@ == b@);
        WeekTime::lemma_seconds_determine(reached, b);
    }
}

} // verus!
