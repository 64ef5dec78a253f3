//! Wall-clock readings, monotonic instants and the text of a duration.

use vstd::prelude::*;
use crate::text::string_of;

verus! {

/// Nanoseconds in one second.
pub const NANOS_PER_SEC: u64 = 1_000_000_000;

/// Nanoseconds in one minute.
pub const NANOS_PER_MINUTE: u64 = 60_000_000_000;

/// The character for one decimal digit.
pub open spec fn digit(d: nat) -> char
    recommends
        d < 10,
{
    ((48 + d) as u8) as char
}

/// The decimal digits of `n`, without leading zeros.
pub open spec fn decimal(n: nat) -> Seq<char>
    decreases n,
{
    if n < 10 {
        seq![digit(n)]
    } else {
        decimal(n / 10).push(digit(n % 10))
    }
}

/// The decimal digits of `n`, with a leading zero where `n` has one digit.
pub open spec fn pad2(n: nat) -> Seq<char> {
    if n < 10 {
        seq!['0', digit(n)]
    } else {
        decimal(n)
    }
}

/// A duration of `secs` seconds as hours, minutes and seconds, separated by
/// colons. Each field has at least two digits; the hours are not capped.
pub open spec fn hms(secs: nat) -> Seq<char> {
    pad2(secs / 3600) + seq![':'] + pad2((secs % 3600) / 60) + seq![':'] + pad2(secs % 60)
}

/// The character for the decimal digit `d`.
pub fn digit_char(d: u8) -> (c: char)
    requires
        d < 10,
    ensures
        c == digit(d as nat),
{
    (48 + d) as char
}

/// Appends the decimal digits of `n`.
pub fn push_decimal(out: &mut Vec<char>, n: u64)
    ensures
        final(out)@ == old(out)@ + decimal(n as nat),
    decreases n,
{
    if n >= 10 {
        push_decimal(out, n / 10);
    }
    out.push(digit_char((n % 10) as u8));
    assert(final(out)@ =~= old(out)@ + decimal(n as nat));
}

/// Appends the decimal digits of `n`, at least two of them.
pub fn push_pad2(out: &mut Vec<char>, n: u64)
    ensures
        final(out)@ == old(out)@ + pad2(n as nat),
{
    if n < 10 {
        out.push('0');
    }
    push_decimal(out, n);
    assert(final(out)@ =~= old(out)@ + pad2(n as nat));
}

/// A duration of `secs` seconds as `HH:MM:SS`.
pub fn format_hms(secs: u64) -> (s: String)
    ensures
        s@ == hms(secs as nat),
{
    let mut out: Vec<char> = Vec::new();
    push_pad2(&mut out, secs / 3600);
    out.push(':');
    push_pad2(&mut out, (secs % 3600) / 60);
    out.push(':');
    push_pad2(&mut out, secs % 60);
    assert(out@ =~= hms(secs as nat));
    string_of(&out)
}

/// The digit characters are the ten from `'0'` to `'9'`.
pub proof fn digit_values()
    ensures
        digit(0) == '0',
        digit(1) == '1',
        digit(2) == '2',
        digit(3) == '3',
        digit(4) == '4',
        digit(5) == '5',
        digit(6) == '6',
        digit(7) == '7',
        digit(8) == '8',
        digit(9) == '9',
{
}

/// A number under one hundred is written by `pad2` with exactly two digits:
/// its tens and its units.
pub proof fn pad2_two_digits(n: nat)
    requires
        n < 100,
    ensures
        pad2(n) == seq![digit(n / 10), digit(n % 10)],
{
    if n >= 10 {
        assert(decimal(n / 10) == seq![digit(n / 10)]);
        assert(decimal(n) =~= seq![digit(n / 10), digit(n % 10)]);
    } else {
        digit_values();
    }
}

/// A number has at least as many digits as a smaller one.
pub proof fn decimal_len(n: nat)
    ensures
        decimal(n).len() >= 1,
        n >= 10 ==> decimal(n).len() >= 2,
        n >= 100 ==> decimal(n).len() >= 3,
    decreases n,
{
    if n >= 10 {
        decimal_len(n / 10);
    }
}

/// Up to 99 hours, 59 minutes and 59 seconds the text is in the shape
/// `HH:MM:SS`: eight characters, two digits in each field, the minutes and
/// seconds under sixty.
pub proof fn hms_shape(secs: nat)
    requires
        secs <= 359999,
    ensures
        hms(secs) == seq![
            digit(secs / 3600 / 10),
            digit(secs / 3600 % 10),
            ':',
            digit(secs % 3600 / 60 / 10),
            digit(secs % 3600 / 60 % 10),
            ':',
            digit(secs % 60 / 10),
            digit(secs % 60 % 10),
        ],
        secs / 3600 < 100,
        secs % 3600 / 60 < 60,
        secs % 60 < 60,
        secs == (secs / 3600) * 3600 + (secs % 3600 / 60) * 60 + secs % 60,
{
    pad2_two_digits(secs / 3600);
    pad2_two_digits(secs % 3600 / 60);
    pad2_two_digits(secs % 60);
    assert(hms(secs) =~= seq![
        digit(secs / 3600 / 10),
        digit(secs / 3600 % 10),
        ':',
        digit(secs % 3600 / 60 / 10),
        digit(secs % 3600 / 60 % 10),
        ':',
        digit(secs % 60 / 10),
        digit(secs % 60 % 10),
    ]);
}

/// From one hundred hours on, the hours take more than two digits, and the
/// minutes and seconds still take two each.
pub proof fn hms_long(secs: nat)
    requires
        secs >= 360000,
    ensures
        hms(secs) == decimal(secs / 3600) + seq![
            ':',
            digit(secs % 3600 / 60 / 10),
            digit(secs % 3600 / 60 % 10),
            ':',
            digit(secs % 60 / 10),
            digit(secs % 60 % 10),
        ],
        decimal(secs / 3600).len() >= 3,
{
    decimal_len(secs / 3600);
    pad2_two_digits(secs % 3600 / 60);
    pad2_two_digits(secs % 60);
    assert(hms(secs) =~= decimal(secs / 3600) + seq![
        ':',
        digit(secs % 3600 / 60 / 10),
        digit(secs % 3600 / 60 % 10),
        ':',
        digit(secs % 60 / 10),
        digit(secs % 60 % 10),
    ]);
}

/// A reading of a monotonic clock: nanoseconds since an origin that the
/// caller has chosen once.
#[derive(Clone, Copy, Debug, PartialEq, Eq, Structural)]
pub struct Moment {
    pub nanos: u64,
}

impl Moment {
    /// The reading `nanos` nanoseconds after the origin.
    pub fn from_nanos(nanos: u64) -> (m: Moment)
        ensures
            m.nanos == nanos,
    {
        Moment { nanos }
    }

    /// The reading `secs` whole seconds after the origin, or the last reading
    /// there is where that lies beyond it.
    pub fn from_secs(secs: u64) -> (m: Moment)
        ensures
            m.nanos == if secs * NANOS_PER_SEC <= u64::MAX {
                secs * NANOS_PER_SEC
            } else {
                u64::MAX as int
            },
    {
        if secs <= u64::MAX / NANOS_PER_SEC {
            Moment { nanos: secs * NANOS_PER_SEC }
        } else {
            Moment { nanos: u64::MAX }
        }
    }

    /// The whole seconds from `earlier` to `self`: zero where `earlier` is
    /// in fact the later of the two.
    pub open spec fn spec_secs_since(self, earlier: Moment) -> nat {
        if self.nanos >= earlier.nanos {
            ((self.nanos - earlier.nanos) / NANOS_PER_SEC as int) as nat
        } else {
            0
        }
    }

    /// The whole seconds from `earlier` to `self`, never less than zero.
    pub fn secs_since(&self, earlier: Moment) -> (secs: u64)
        ensures
            secs == self.spec_secs_since(earlier),
    {
        self.nanos.saturating_sub(earlier.nanos) / NANOS_PER_SEC
    }

    /// The reading `minutes` minutes after `self`, as far as readings go.
    pub open spec fn spec_after_minutes(self, minutes: u64) -> Moment {
        if self.nanos + minutes * NANOS_PER_MINUTE <= u64::MAX {
            Moment { nanos: (self.nanos + minutes * NANOS_PER_MINUTE) as u64 }
        } else {
            Moment { nanos: u64::MAX }
        }
    }

    /// The reading `minutes` minutes after `self`, or the last reading there
    /// is where that lies beyond it.
    pub fn after_minutes(&self, minutes: u64) -> (m: Moment)
        ensures
            m == self.spec_after_minutes(minutes),
            m.nanos >= self.nanos,
    {
        if minutes <= u64::MAX / NANOS_PER_MINUTE && minutes * NANOS_PER_MINUTE <= u64::MAX
            - self.nanos {
            Moment { nanos: self.nanos + minutes * NANOS_PER_MINUTE }
        } else {
            Moment { nanos: u64::MAX }
        }
    }
}

/// A time of day on the wall clock, to the minute.
#[derive(Clone, Copy, Debug, PartialEq, Eq, Structural)]
pub struct ClockTime {
    pub hour: u32,
    pub minute: u32,
}

/// Four characters, all of them digits, that give an hour under 24 and a
/// minute under 60.
pub open spec fn is_hhmm(s: Seq<char>) -> bool {
    exists|h: nat, m: nat| h < 24 && m < 60 && s == #[trigger] hhmm_text(h, m)
}

/// The hour and the minute, two digits each, with nothing between them.
pub open spec fn hhmm_text(h: nat, m: nat) -> Seq<char> {
    seq![digit(h / 10), digit(h % 10), digit(m / 10), digit(m % 10)]
}

impl ClockTime {
    /// The hour is under 24 and the minute under 60.
    pub open spec fn wf(self) -> bool {
        self.hour < 24 && self.minute < 60
    }

    /// The time of day `hour:minute`, where there is such a time.
    pub fn new(hour: u32, minute: u32) -> (t: Option<ClockTime>)
        ensures
            t is Some <==> hour < 24 && minute < 60,
            t is Some ==> t->0.hour == hour && t->0.minute == minute,
    {
        if hour < 24 && minute < 60 {
            Some(ClockTime { hour, minute })
        } else {
            None
        }
    }

    /// The time as `HHMM`.
    pub fn hhmm(&self) -> (s: String)
        ensures
            s@ == pad2(self.hour as nat) + pad2(self.minute as nat),
            self.wf() ==> s@ == hhmm_text(self.hour as nat, self.minute as nat) && is_hhmm(s@),
    {
        let mut out: Vec<char> = Vec::new();
        push_pad2(&mut out, self.hour as u64);
        push_pad2(&mut out, self.minute as u64);
        proof {
            if self.wf() {
                pad2_two_digits(self.hour as nat);
                pad2_two_digits(self.minute as nat);
                assert(out@ =~= hhmm_text(self.hour as nat, self.minute as nat));
            }
        }
        string_of(&out)
    }

    /// The time as `HH:MM`.
    pub fn label(&self) -> (s: String)
        ensures
            s@ == pad2(self.hour as nat) + seq![':'] + pad2(self.minute as nat),
    {
        let mut out: Vec<char> = Vec::new();
        push_pad2(&mut out, self.hour as u64);
        out.push(':');
        push_pad2(&mut out, self.minute as u64);
        string_of(&out)
    }
}

/// The local time of day now. `chrono::Local::now` reads the system clock in
/// the local time zone; of such a reading `chrono::Timelike::hour` is from 0
/// to 23 and `chrono::Timelike::minute` from 0 to 59.
#[verifier::external_body]
fn local_time_now() -> (t: ClockTime)
    ensures
        t.wf(),
{
    let now = chrono::Local::now();
    ClockTime { hour: chrono::Timelike::hour(&now), minute: chrono::Timelike::minute(&now) }
}

/// The local time of day `minutes` minutes from now.
/// `chrono::TimeDelta::try_minutes` gives no duration where the minutes are
/// out of its range, and `chrono::DateTime::checked_add_signed` no date where
/// the sum is out of the calendar's; otherwise the hour and the minute of the
/// sum are read as in `local_time_now`.
#[verifier::external_body]
fn local_time_after(minutes: i64) -> (t: Option<ClockTime>)
    ensures
        t is Some ==> t->0.wf(),
{
    let ahead = chrono::TimeDelta::try_minutes(minutes)?;
    let then = chrono::Local::now().checked_add_signed(ahead)?;
    Some(ClockTime { hour: chrono::Timelike::hour(&then), minute: chrono::Timelike::minute(&then) })
}

/// The local time of day now.
pub fn wall_clock_now() -> (t: ClockTime)
    ensures
        t.wf(),
{
    local_time_now()
}

/// The local time of day `minutes` minutes from now, where the calendar
/// reaches that far.
pub fn wall_clock_after(minutes: u64) -> (t: Option<ClockTime>)
    ensures
        t is Some ==> t->0.wf(),
        minutes > i64::MAX ==> t is None,
{
    if minutes <= 0x7FFF_FFFF_FFFF_FFFF {
        local_time_after(minutes as i64)
    } else {
        None
    }
}

} // verus!
