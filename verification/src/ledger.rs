//! The timing ledger: readings of the wall clock, the time between two of them,
//! and how that time is shown.

use vstd::prelude::*;
use vstd::string::*;
use crate::text::{append_digits, decimal, digits_of};

verus! {

/// The earliest second that a reading can name, counted from the start of
/// 1970: midnight on the first day of the year -262143, the first day of the
/// calendar that the clock uses.
pub const MIN_SECONDS: i64 = -8_334_601_228_800;

/// The latest second that a reading can name, counted from the start of 1970:
/// the last second of the year 262142, the last day of the calendar that the
/// clock uses.
pub const MAX_SECONDS: i64 = 8_210_266_876_799;

/// Nanoseconds in a second.
pub const NANOS_PER_SECOND: u32 = 1_000_000_000;

/// Nanoseconds in a millisecond.
pub const NANOS_PER_MILLI: u32 = 1_000_000;

/// A reading of the wall clock: whole seconds since the start of 1970 in
/// universal time, leap seconds not counted, and nanoseconds since the start of
/// that second. A reading does not start over at midnight.
#[derive(Clone, Copy, Debug, PartialEq, Eq, Structural)]
pub struct Timestamp {
    pub secs: i64,
    pub nanos: u32,
}

/// The time between two readings of the clock. `seconds` and `milliseconds`
/// each hold the whole of it, in that unit and rounded towards zero: 2.5
/// seconds are 2 seconds and 2500 milliseconds.
#[derive(Clone, Copy, Debug, PartialEq, Eq, Structural)]
pub struct Elapsed {
    pub seconds: i64,
    pub milliseconds: i64,
}

/// The number of whole units in an amount, rounded towards zero.
pub open spec fn whole_units(amount: int, unit: int) -> int {
    if amount >= 0 {
        amount / unit
    } else {
        -((-amount) / unit)
    }
}

impl Timestamp {
    /// A reading is valid when its second lies between `MIN_SECONDS` and
    /// `MAX_SECONDS` and its nanoseconds within the second.
    pub open spec fn is_valid(self) -> bool {
        MIN_SECONDS <= self.secs <= MAX_SECONDS && self.nanos < NANOS_PER_SECOND
    }

    /// Nanoseconds since the start of 1970.
    pub open spec fn total_nanos(self) -> int {
        self.secs * NANOS_PER_SECOND + self.nanos
    }

    /// Tells whether the reading is valid.
    pub fn validate(&self) -> (ok: bool)
        ensures
            ok == self.is_valid(),
    {
        MIN_SECONDS <= self.secs && self.secs <= MAX_SECONDS && self.nanos < NANOS_PER_SECOND
    }

    /// Makes a reading, if the parts are valid.
    pub fn new(secs: i64, nanos: u32) -> (made: Option<Timestamp>)
        ensures
            made == if (Timestamp { secs, nanos }).is_valid() {
                Some(Timestamp { secs, nanos })
            } else {
                None::<Timestamp>
            },
    {
        if MIN_SECONDS <= secs && secs <= MAX_SECONDS && nanos < NANOS_PER_SECOND {
            Some(Timestamp { secs, nanos })
        } else {
            None
        }
    }
}

impl Elapsed {
    /// The two fields agree when the seconds are the whole seconds of the
    /// milliseconds.
    pub open spec fn is_consistent(self) -> bool {
        self.seconds == whole_units(self.milliseconds as int, 1000)
    }

    /// Tells whether the two fields agree.
    pub fn validate(&self) -> (ok: bool)
        ensures
            ok == self.is_consistent(),
    {
        self.seconds == self.milliseconds / 1000
    }
}

/// The time from `start` to `end`: negative where `end` is the earlier one.
pub open spec fn elapsed_of(start: Timestamp, end: Timestamp) -> Elapsed {
    let span = end.total_nanos() - start.total_nanos();
    Elapsed {
        seconds: whole_units(span, NANOS_PER_SECOND as int) as i64,
        milliseconds: whole_units(span, NANOS_PER_MILLI as int) as i64,
    }
}

/// The text of a time that is not negative, given as its whole seconds and
/// its whole milliseconds: the seconds, a dot, and the milliseconds that are
/// left after the whole seconds. What is left is written as the number it is,
/// without zeros in front: two and a half seconds are `2.500`, two seconds and
/// fifty milliseconds are `2.50`.
pub open spec fn span_text(seconds: int, milliseconds: int) -> Seq<char> {
    decimal(seconds) + seq!['.'] + decimal(milliseconds - 1000 * seconds)
}

/// The line that shows a time. A time that is negative by a millisecond or
/// more, as comes of a clock that was set back, is shown as a minus sign
/// before the text of the same time forwards.
pub open spec fn timer_text_of(elapsed: Elapsed) -> Seq<char> {
    if elapsed.milliseconds < 0 {
        seq!['-'] + span_text(-elapsed.seconds, -elapsed.milliseconds)
    } else {
        span_text(elapsed.seconds as int, elapsed.milliseconds as int)
    }
}

/// Reads the wall clock with `chrono::Utc::now`, and takes from the reading
/// its seconds since the start of 1970 with `DateTime::timestamp` and its
/// nanoseconds with `DateTime::timestamp_subsec_nanos`. The claim is that the
/// reading is valid. `Utc::now` builds it with `DateTime::from_timestamp` from
/// a duration whose nanoseconds are below one second, so it never stands for a
/// leap second. `from_timestamp` makes no date before that of
/// `DateTime::MIN_UTC`, whose second is `MIN_SECONDS`, and none after that of
/// `DateTime::MAX_UTC`, whose last second is `MAX_SECONDS`; and the two
/// methods give back the seconds and nanoseconds that it took.
#[verifier::external_body]
fn clock_now() -> (now: Timestamp)
    ensures
        now.is_valid(),
{
    let now = chrono::Utc::now();
    Timestamp { secs: now.timestamp(), nanos: now.timestamp_subsec_nanos() }
}

/// Subtracts two readings as `chrono::DateTime<Utc>` values (built with
/// `DateTime::from_timestamp`, which accepts every valid reading) and reads
/// the difference with `TimeDelta::num_seconds` and
/// `TimeDelta::num_milliseconds`. The claim is that the difference is the exact
/// span between the two, the days between the dates and the time between the
/// times of day together, and that each of the two is its whole number of
/// units, rounded towards zero.
#[verifier::external_body]
fn elapsed_between(start: Timestamp, end: Timestamp) -> (elapsed: Elapsed)
    requires
        start.is_valid(),
        end.is_valid(),
    ensures
        elapsed == elapsed_of(start, end),
{
    let from = chrono::DateTime::from_timestamp(start.secs, start.nanos).unwrap();
    let to = chrono::DateTime::from_timestamp(end.secs, end.nanos).unwrap();
    let span = to - from;
    Elapsed { seconds: span.num_seconds(), milliseconds: span.num_milliseconds() }
}

/// The whole seconds of a span are the whole seconds of its whole
/// milliseconds.
proof fn lemma_whole_units_nest(span: int)
    ensures
        whole_units(span, NANOS_PER_SECOND as int) == whole_units(
            whole_units(span, NANOS_PER_MILLI as int),
            1000,
        ),
{
    let magnitude = if span >= 0 {
        span
    } else {
        -span
    };
    assert(magnitude / 1_000_000_000 == (magnitude / 1_000_000) / 1000) by (nonlinear_arith)
        requires
            magnitude >= 0,
    ;
    assert(magnitude / 1_000_000 >= 0);
}

/// The time between two valid readings has fields that agree. It is not
/// negative when `end` is not before `start`, and not positive when `end` is
/// not after it.
pub proof fn lemma_elapsed_is_consistent(start: Timestamp, end: Timestamp)
    requires
        start.is_valid(),
        end.is_valid(),
    ensures
        elapsed_of(start, end).is_consistent(),
        elapsed_of(start, end).seconds == whole_units(
            end.total_nanos() - start.total_nanos(),
            NANOS_PER_SECOND as int,
        ),
        elapsed_of(start, end).milliseconds == whole_units(
            end.total_nanos() - start.total_nanos(),
            NANOS_PER_MILLI as int,
        ),
        end.total_nanos() >= start.total_nanos() ==> elapsed_of(start, end).seconds >= 0
            && elapsed_of(start, end).milliseconds >= 0,
        end.total_nanos() <= start.total_nanos() ==> elapsed_of(start, end).seconds <= 0
            && elapsed_of(start, end).milliseconds <= 0,
{
    lemma_whole_units_nest(end.total_nanos() - start.total_nanos());
}

/// Reads the wall clock.
pub fn current_time() -> (now: Timestamp)
    ensures
        now.is_valid(),
{
    clock_now()
}

/// The time from `start` to `end`.
pub fn time_between(start: Timestamp, end: Timestamp) -> (elapsed: Elapsed)
    requires
        start.is_valid(),
        end.is_valid(),
    ensures
        elapsed == elapsed_of(start, end),
        elapsed.is_consistent(),
{
    proof {
        lemma_elapsed_is_consistent(start, end);
    }
    elapsed_between(start, end)
}

/// Appends the line that shows a time to the text.
pub fn append_timer_text(text: &mut String, elapsed: Elapsed)
    requires
        elapsed.is_consistent(),
    ensures
        final(text)@ == old(text)@ + timer_text_of(elapsed),
{
    let total: u64 = if elapsed.milliseconds < 0 {
        proof {
            reveal_strlit("-");
        }
        text.append("-");
        (-(elapsed.milliseconds + 1)) as u64 + 1
    } else {
        elapsed.milliseconds as u64
    };
    let whole: u64 = total / 1000;
    let left: u64 = total % 1000;
    append_digits(text, whole);
    proof {
        reveal_strlit(".");
    }
    text.append(".");
    append_digits(text, left);
    proof {
        if elapsed.milliseconds < 0 {
            assert(whole == -elapsed.seconds);
            assert(left == -elapsed.milliseconds - 1000 * (-elapsed.seconds));
            assert(text@ =~= old(text)@ + (seq!['-'] + (digits_of(whole as nat) + seq!['.']
                + digits_of(left as nat))));
        } else {
            assert(whole == elapsed.seconds);
            assert(left == elapsed.milliseconds - 1000 * elapsed.seconds);
            assert(text@ =~= old(text)@ + (digits_of(whole as nat) + seq!['.'] + digits_of(
                left as nat,
            )));
        }
    }
}

/// The line that shows a time.
pub fn timer_text(elapsed: Elapsed) -> (text: String)
    requires
        elapsed.is_consistent(),
    ensures
        text@ == timer_text_of(elapsed),
{
    let mut text = String::new();
    append_timer_text(&mut text, elapsed);
    assert(text@ =~= timer_text_of(elapsed));
    text
}

} // verus!
