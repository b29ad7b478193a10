//! Instants of time, how long ago they were, and when a share runs out.

use crate::error::{failure, ErrorKind, Failure, Fault, PunchError};
use crate::number::{
    decimal, digit, digits_are_read, is_digit, lemma_decimal, parse_i64, read_signed, show,
};
use crate::text::{chars_of, concat2, concat4, is_whitespace, text_of, trim, trimmed};
use crate::types::{lemma_trimmed_fixed, lemma_trimmed_twice};
use chrono::{DateTime, Utc};
use vstd::prelude::*;
use vstd::string::*;

verus! {

/// The second in which the calendar begins: the first of January of the year -262143.
pub const FIRST_SECOND: i64 = -8334601228800;

/// The last second of the calendar: the last of December of the year 262142.
pub const LAST_SECOND: i64 = 8210266876799;

/// The nanoseconds of a second.
pub const SECOND: u32 = 1_000_000_000;

/// An instant in UTC that the calendar holds: whole seconds since the beginning of 1970,
/// leap seconds not counted, and the nanoseconds past that second. A leap second is written
/// as the second before it with a thousand million nanoseconds or more.
#[derive(Debug, Clone, Copy, PartialEq, Eq, Structural)]
pub struct Timestamp {
    seconds: i64,
    nanos: u32,
}

/// The calendar holds the instant `seconds`, `nanos`.
pub open spec fn in_calendar(seconds: int, nanos: int) -> bool {
    &&& FIRST_SECOND <= seconds <= LAST_SECOND
    &&& 0 <= nanos < 2 * SECOND
    &&& nanos >= SECOND ==> seconds % 60 == 59
}

/// `n` nanoseconds as whole seconds, the rest dropped.
pub open spec fn whole_seconds(n: int) -> int {
    if n >= 0 {
        n / (SECOND as int)
    } else {
        -((-n) / (SECOND as int))
    }
}

impl Timestamp {
    /// The whole seconds of the instant.
    pub closed spec fn sec(self) -> int {
        self.seconds as int
    }

    /// The nanoseconds past the second.
    pub closed spec fn nano(self) -> int {
        self.nanos as int
    }

    #[verifier::type_invariant]
    pub closed spec fn valid(self) -> bool {
        in_calendar(self.seconds as int, self.nanos as int)
    }

    /// `self` comes before `other`.
    pub open spec fn before(self, other: Timestamp) -> bool {
        self.sec() < other.sec() || (self.sec() == other.sec() && self.nano() < other.nano())
    }

    /// The nanoseconds from `earlier` to `self`. A leap second at `earlier` counts where
    /// `self` is later in the day, and one at `self` where it is earlier in the day.
    pub open spec fn nanos_since(self, earlier: Timestamp) -> int {
        let here = self.sec() % 86400;
        let there = earlier.sec() % 86400;
        let leap: int = if here > there && earlier.nano() >= SECOND {
            1
        } else if here < there && self.nano() >= SECOND {
            -1
        } else {
            0
        };
        (self.sec() - earlier.sec() + leap) * SECOND + self.nano() - earlier.nano()
    }

    /// The second that lies `span` seconds from `self`. From within a leap second the way
    /// back is one second shorter.
    pub open spec fn second_after(self, span: int) -> int {
        if self.nano() >= SECOND && span < 0 {
            self.sec() + 1 + span
        } else {
            self.sec() + span
        }
    }

    /// The nanoseconds past that second: only a span of nothing stays in a leap second.
    pub open spec fn nano_after(self, span: int) -> int {
        if self.nano() >= SECOND && span != 0 {
            self.nano() - SECOND
        } else {
            self.nano()
        }
    }

    /// The instant of `seconds` and `nanos`, if the calendar holds it.
    pub fn new(seconds: i64, nanos: u32) -> (instant: Option<Timestamp>)
        ensures
            match instant {
                Some(t) => in_calendar(seconds as int, nanos as int) && t.sec() == seconds
                    && t.nano() == nanos,
                None => !in_calendar(seconds as int, nanos as int),
            },
    {
        if seconds < FIRST_SECOND || seconds > LAST_SECOND || nanos >= 2 * SECOND {
            return None;
        }
        if nanos >= SECOND {
            let shifted: u64 = (seconds - FIRST_SECOND) as u64;
            proof {
                assert(shifted as int % 60 == seconds as int % 60);
            }
            if shifted % 60 != 59 {
                return None;
            }
        }
        Some(Timestamp { seconds, nanos })
    }

    /// The instant at which it is called.
    pub fn now() -> (now: Timestamp)
        ensures
            in_calendar(now.sec(), now.nano()),
            now.nano() < SECOND,
    {
        utc_now()
    }

    /// The whole seconds since the beginning of 1970.
    pub fn seconds(&self) -> (seconds: i64)
        ensures
            seconds == self.sec(),
            FIRST_SECOND <= seconds <= LAST_SECOND,
    {
        proof {
            use_type_invariant(self);
        }
        self.seconds
    }

    /// The nanoseconds past the second.
    pub fn nanos(&self) -> (nanos: u32)
        ensures
            nanos == self.nano(),
            nanos < 2 * SECOND,
    {
        proof {
            use_type_invariant(self);
        }
        self.nanos
    }

    /// Whether `self` comes before `other`.
    pub fn is_before(&self, other: &Timestamp) -> (yes: bool)
        ensures
            yes == self.before(*other),
    {
        self.seconds < other.seconds || (self.seconds == other.seconds && self.nanos < other.nanos)
    }
}

/// An instant is its seconds and its nanoseconds.
pub proof fn same_instant(a: Timestamp, b: Timestamp)
    requires
        a.sec() == b.sec(),
        a.nano() == b.nano(),
    ensures
        a == b,
{
}

/// `chrono::Utc::now`, read as seconds and nanoseconds. The contract says of the result only
/// that the calendar holds it and that it lies in no leap second: the clock decides the rest.
#[verifier::external_body]
pub(crate) fn utc_now() -> (now: Timestamp)
    ensures
        in_calendar(now.sec(), now.nano()),
        now.nano() < SECOND,
{
    let now = Utc::now();
    Timestamp { seconds: now.timestamp(), nanos: now.timestamp_subsec_nanos() }
}

/// The difference of two `chrono::DateTime<Utc>` as `num_seconds` gives it: in whole seconds,
/// rounded towards zero. `DateTime::from_timestamp` accepts every instant of the calendar.
#[verifier::external_body]
fn seconds_since(later: &Timestamp, earlier: &Timestamp) -> (seconds: i64)
    ensures
        seconds == whole_seconds(later.nanos_since(*earlier)),
{
    let to = DateTime::<Utc>::from_timestamp(later.seconds, later.nanos).unwrap();
    let from = DateTime::<Utc>::from_timestamp(earlier.seconds, earlier.nanos).unwrap();
    (to - from).num_seconds()
}

/// A `chrono::DateTime<Utc>` with a `chrono::Duration` of whole seconds added to it. The sum
/// has to lie in the calendar, since the addition panics where it does not.
#[verifier::external_body]
fn shifted(start: &Timestamp, span: i64) -> (end: Timestamp)
    requires
        FIRST_SECOND <= start.second_after(span as int) <= LAST_SECOND,
    ensures
        end.sec() == start.second_after(span as int),
        end.nano() == start.nano_after(span as int),
{
    let from = DateTime::<Utc>::from_timestamp(start.seconds, start.nanos).unwrap();
    let end = from + chrono::Duration::seconds(span);
    Timestamp { seconds: end.timestamp(), nanos: end.timestamp_subsec_nanos() }
}

/// `n` with at least two digits.
pub open spec fn two_digits(n: nat) -> Seq<char> {
    if n < 10 {
        "0"@ + decimal(n)
    } else {
        decimal(n)
    }
}

/// A run of `seconds` in hours and minutes, or in minutes alone below one hour. A run that
/// has yet to begin counts as none.
pub open spec fn runtime_text(seconds: int) -> Seq<char> {
    let s = if seconds < 0 {
        0
    } else {
        seconds
    };
    let hours = (s / 3600) as nat;
    let minutes = ((s % 3600) / 60) as nat;
    if hours > 0 {
        decimal(hours) + "h"@ + two_digits(minutes) + "m"@
    } else {
        decimal(minutes) + "m"@
    }
}

/// How long something has run at `now` that was started at `started_at`.
pub fn format_runtime_at(started_at: &Timestamp, now: &Timestamp) -> (text: String)
    ensures
        text@ == runtime_text(whole_seconds(now.nanos_since(*started_at))),
{
    let elapsed: i64 = seconds_since(now, started_at);
    let seconds: u64 = if elapsed < 0 {
        0
    } else {
        elapsed as u64
    };
    let hours: u64 = seconds / 3600;
    let minutes: u64 = (seconds % 3600) / 60;
    if hours > 0 {
        let shown = if minutes < 10 {
            concat2("0", show(minutes).as_str())
        } else {
            show(minutes)
        };
        concat4(show(hours).as_str(), "h", shown.as_str(), "m")
    } else {
        concat2(show(minutes).as_str(), "m")
    }
}

/// How long something has run by now that was started at `started_at`.
pub fn format_runtime(started_at: &Timestamp) -> (text: String)
    ensures
        exists|now: Timestamp|
            in_calendar(now.sec(), now.nano()) && text@ == runtime_text(
                whole_seconds(#[trigger] now.nanos_since(*started_at)),
            ),
{
    let now = utc_now();
    format_runtime_at(started_at, &now)
}

/// What the time to live `value` means, in seconds: a number and one of the units `m`, `h`
/// and `d`.
pub open spec fn span_of(value: Seq<char>) -> Result<int, Failure> {
    let text = trimmed(value);
    if text.len() < 2 {
        Err(failure(Fault::InvalidExpiry(value)))
    } else {
        match read_signed(text.drop_last(), i64::MAX as nat) {
            Err(cause) => Err(
                Failure { kind: Fault::InvalidExpiry(value), causes: seq![cause.text()] },
            ),
            Ok(n) => if text.last() == 'm' {
                Ok(60 * n)
            } else if text.last() == 'h' {
                Ok(3600 * n)
            } else if text.last() == 'd' {
                Ok(86400 * n)
            } else {
                Err(failure(Fault::InvalidExpiryUnit(seq![text.last()])))
            },
        }
    }
}

/// The last character of `value` can be taken off as its last byte.
pub open spec fn has_unit_byte(value: Seq<char>) -> bool {
    trimmed(value).len() > 0 ==> (trimmed(value).last() as u32) < 128
}

/// Whether the last character of `value` can be taken off as its last byte.
pub fn ends_in_byte(value: &str) -> (yes: bool)
    ensures
        yes == has_unit_byte(value@),
{
    let chars = chars_of(trim(value).as_str());
    chars.len() == 0 || (chars[chars.len() - 1] as u32) < 128
}

/// How many seconds the time to live `value` lasts.
pub fn parse_span(value: &str) -> (span: Result<i128, PunchError>)
    requires
        has_unit_byte(value@),
    ensures
        match span_of(value@) {
            Ok(n) => span matches Ok(seconds) && seconds == n,
            Err(error) => span matches Err(e) && e@ == error,
        },
{
    let chars = chars_of(trim(value).as_str());
    if chars.len() < 2 {
        return Err(PunchError::new(ErrorKind::InvalidExpiry(value.to_owned())));
    }
    let last: usize = chars.len() - 1;
    let number = text_of(&chars, 0, last);
    proof {
        assert(number@ == chars@.drop_last());
    }
    match parse_i64(number.as_str()) {
        Err(cause) => Err(
            PunchError::caused(ErrorKind::InvalidExpiry(value.to_owned()), cause.message()),
        ),
        Ok(n) => {
            let unit = chars[last];
            if unit == 'm' {
                Ok(60 * (n as i128))
            } else if unit == 'h' {
                Ok(3600 * (n as i128))
            } else if unit == 'd' {
                Ok(86400 * (n as i128))
            } else {
                let suffix = text_of(&chars, last, chars.len());
                proof {
                    assert(suffix@ == seq![unit]);
                }
                Err(PunchError::new(ErrorKind::InvalidExpiryUnit(suffix)))
            }
        },
    }
}

/// `end` is the instant `span` seconds after `now`, if the calendar holds it.
pub open spec fn expires_at(now: Timestamp, span: int, end: Option<Timestamp>) -> bool {
    match end {
        Some(t) => FIRST_SECOND <= now.second_after(span) <= LAST_SECOND && t.sec()
            == now.second_after(span) && t.nano() == now.nano_after(span),
        None => !(FIRST_SECOND <= now.second_after(span) <= LAST_SECOND),
    }
}

/// The instant `span` seconds after `now`, if the calendar holds it.
pub fn expiry_at(now: &Timestamp, span: i128) -> (end: Option<Timestamp>)
    ensures
        expires_at(*now, span as int, end),
{
    let seconds: i64 = now.seconds();
    if span < -30_000_000_000_000 || span > 30_000_000_000_000 {
        return None;
    }
    let leap: i128 = if now.nanos() >= SECOND && span < 0 {
        1
    } else {
        0
    };
    let end: i128 = seconds as i128 + leap + span;
    if end < FIRST_SECOND as i128 || end > LAST_SECOND as i128 {
        None
    } else {
        Some(shifted(now, span as i64))
    }
}

/// The instant at which a share that lives for `value` from `now` on runs out. It is `None`
/// where the calendar ends before that.
pub fn parse_expiry_at(value: &str, now: &Timestamp) -> (end: Result<Option<Timestamp>, PunchError>)
    requires
        has_unit_byte(value@),
    ensures
        match span_of(value@) {
            Ok(n) => end matches Ok(instant) && expires_at(*now, n, instant),
            Err(error) => end matches Err(e) && e@ == error,
        },
{
    match parse_span(value) {
        Ok(span) => Ok(expiry_at(now, span)),
        Err(error) => Err(error),
    }
}

/// The instant at which a share that lives for `value` from now on runs out. It is `None`
/// where the calendar ends before that.
pub fn parse_expiry(value: &str) -> (end: Result<Option<Timestamp>, PunchError>)
    requires
        has_unit_byte(value@),
    ensures
        match span_of(value@) {
            Ok(n) => end matches Ok(instant) && exists|now: Timestamp|
                in_calendar(now.sec(), now.nano()) && #[trigger] expires_at(now, n, instant),
            Err(error) => end matches Err(e) && e@ == error,
        },
{
    let now = utc_now();
    parse_expiry_at(value, &now)
}

/// Of two instants at most one comes before the other, and none only where they are the same.
pub proof fn instants_are_ordered(a: Timestamp, b: Timestamp, c: Timestamp)
    ensures
        !a.before(a),
        !(a.before(b) && b.before(a)),
        a.before(b) && b.before(c) ==> a.before(c),
        a.before(b) || b.before(a) || a == b,
        a.sec() < b.sec() ==> a.before(b),
        a.sec() == b.sec() ==> (a.before(b) <==> a.nano() < b.nano()),
{
    if !a.before(b) && !b.before(a) {
        same_instant(a, b);
    }
}

/// Whole seconds are rounded towards zero: what is dropped is less than a second, and never changes
/// the sign.
pub proof fn seconds_are_cut(n: int)
    ensures
        n >= 0 ==> 0 <= n - whole_seconds(n) * 1_000_000_000 < 1_000_000_000,
        n < 0 ==> -1_000_000_000 < n - whole_seconds(n) * 1_000_000_000 <= 0,
        n >= 0 ==> whole_seconds(n) >= 0,
        n <= 0 ==> whole_seconds(n) <= 0,
{
}

/// A run is told in whole minutes: below an hour as the minutes, and from there on as the hours and
/// the minutes past them with two digits. A run that has yet to begin is told as none.
pub proof fn runs_are_told_in_minutes(seconds: int)
    ensures
        seconds < 0 ==> runtime_text(seconds) == decimal(0) + "m"@,
        0 <= seconds < 3600 ==> runtime_text(seconds) == decimal((seconds / 60) as nat) + "m"@,
        seconds >= 3600 ==> ({
            let minutes = seconds / 60;
            runtime_text(seconds) == decimal((minutes / 60) as nat) + "h"@ + seq![
                digit(((minutes % 60) / 10) as nat),
                digit((minutes % 10) as nat),
            ] + "m"@
        }),
{
    if seconds >= 3600 {
        let minutes = seconds / 60;
        let past = ((seconds % 3600) / 60) as nat;
        assert(minutes / 60 == seconds / 3600);
        assert(past == minutes % 60);
        assert(minutes % 10 == past % 10);
        reveal_strlit("0");
        if past < 10 {
            assert(decimal(past) =~= seq![digit(past)]);
            assert("0"@ + decimal(past) =~= seq![digit(past / 10), digit(past % 10)]);
        } else {
            assert(decimal((past / 10) as nat) =~= seq![digit((past / 10) as nat)]);
            assert(decimal(past) =~= seq![digit((past / 10) as nat), digit(past % 10)]);
        }
    }
}

/// The seconds that a unit stands for.
pub open spec fn unit_seconds(unit: char) -> Option<int> {
    match unit {
        'm' => Some(60),
        'h' => Some(3600),
        'd' => Some(86400),
        _ => None,
    }
}

/// A number and a unit are read as so many minutes, hours or days, with a minus sign as so many
/// before now, and a unit that is none of these is refused by its name.
pub proof fn spans_are_read(n: nat, unit: char)
    requires
        n <= i64::MAX,
        !is_whitespace(unit),
    ensures
        unit_seconds(unit) matches Some(seconds) ==> span_of(decimal(n) + seq![unit]) == Ok::<
            int,
            Failure,
        >(seconds * n) && span_of(seq!['-'] + decimal(n) + seq![unit]) == Ok::<int, Failure>(
            -(seconds * n),
        ),
        unit_seconds(unit) is None ==> span_of(decimal(n) + seq![unit]) == Err::<int, Failure>(
            Failure { kind: Fault::InvalidExpiryUnit(seq![unit]), causes: Seq::empty() },
        ),
{
    let digits = decimal(n);
    let value = digits + seq![unit];
    let minus = seq!['-'] + digits + seq![unit];
    lemma_decimal(n);
    assert(is_digit(digits[0]));
    assert forall|i: int| 0 <= i < digits.len() implies '0' <= #[trigger] digits[i] <= '9' by {
        assert(is_digit(digits[i]));
    }
    digits_are_read(digits, i64::MAX as nat);
    lemma_trimmed_fixed(value);
    lemma_trimmed_fixed(minus);
    assert(value.drop_last() =~= digits);
    assert(minus.drop_last() =~= seq!['-'] + digits);
}

/// White space around a time to live makes no difference to what it means, and what is refused as
/// no time to live is told as it was written.
pub proof fn spans_ignore_margins(value: Seq<char>)
    ensures
        span_of(value) is Ok ==> span_of(trimmed(value)) == span_of(value),
        span_of(trimmed(value)) is Ok ==> span_of(trimmed(value)) == span_of(value),
        span_of(value) matches Err(error) ==> (error.kind == Fault::InvalidExpiry(value)
            || error.kind is InvalidExpiryUnit),
        trimmed(value).len() < 2 ==> span_of(value) == Err::<int, Failure>(
            Failure { kind: Fault::InvalidExpiry(value), causes: Seq::empty() },
        ),
        span_of(value) matches Ok(span) ==> unit_seconds(trimmed(value).last()) is Some,
{
    lemma_trimmed_twice(value);
}

/// What stands before the unit has to be a number, and the cause of a refusal is told.
pub proof fn span_needs_a_number(value: Seq<char>)
    requires
        trimmed(value).len() >= 2,
        read_signed(trimmed(value).drop_last(), i64::MAX as nat) is Err,
    ensures
        span_of(value) matches Err(error) && error.kind == Fault::InvalidExpiry(value)
            && error.causes == seq![
            read_signed(trimmed(value).drop_last(), i64::MAX as nat)->Err_0.text(),
        ],
{
}

/// A share ends as many seconds after it begins as it lives, to the nanosecond, where the calendar
/// goes that far, and has no end only where it does not.
pub proof fn shares_live_their_span(now: Timestamp, span: int, end: Option<Timestamp>)
    requires
        now.nano() < 1_000_000_000,
        expires_at(now, span, end),
    ensures
        match end {
            Some(t) => t.sec() - now.sec() == span && t.nano() == now.nano() && FIRST_SECOND
                <= t.sec() <= LAST_SECOND,
            None => now.sec() + span < FIRST_SECOND || now.sec() + span > LAST_SECOND,
        },
{
}

/// The calendar goes from the beginning of the year -262143 to the end of the year 262142, and has
/// room for a leap second at the end of each minute.
pub proof fn calendar_has_bounds(seconds: int, nanos: int)
    ensures
        in_calendar(seconds, nanos) <==> -8334601228800 <= seconds <= 8210266876799 && (0 <= nanos
            < 1_000_000_000 || (1_000_000_000 <= nanos < 2_000_000_000 && seconds % 60 == 59)),
{
}

/// Every text that is blank, or ends in an ASCII character apart from white space, has its unit in
/// one byte.
pub proof fn ascii_units_are_bytes(value: Seq<char>)
    ensures
        trimmed(value).len() == 0 ==> has_unit_byte(value),
        trimmed(value).len() > 0 ==> (has_unit_byte(value) <==> (trimmed(value).last() as u32)
            < 128),
{
}

} // verus!
