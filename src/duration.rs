//! Elapsed time rendered as a `D.HH:MM:SS.FFFFFFF` timespan.
use vstd::prelude::*;
use vstd::arithmetic::div_mod::{lemma_div_by_multiple, lemma_div_denominator, lemma_fundamental_div_mod};
use crate::text::{
    decimal, digits_value, lemma_decimal_value, lemma_padded_len, lemma_padded_value, padded, pow10,
    push_char, push_decimal, push_padded,
};

verus! {

/// Nanoseconds in one tick, the unit of the fractional field.
pub const NANOS_PER_TICK: u128 = 100;
/// Ticks in one second.
pub const TICKS_PER_SECOND: u128 = 10_000_000;
/// Nanoseconds in one second.
pub const NANOS_PER_SECOND: u128 = 1_000_000_000;

pub open spec fn ticks_of(nanos: nat) -> nat {
    nanos / 100 % 10_000_000
}

pub open spec fn seconds_of(nanos: nat) -> nat {
    nanos / 1_000_000_000 % 60
}

pub open spec fn minutes_of(nanos: nat) -> nat {
    nanos / 1_000_000_000 / 60 % 60
}

pub open spec fn hours_of(nanos: nat) -> nat {
    nanos / 1_000_000_000 / 3600 % 24
}

pub open spec fn days_of(nanos: nat) -> nat {
    nanos / 1_000_000_000 / 86400
}

/// The timespan text of an elapsed time of `nanos` nanoseconds.
pub open spec fn timespan_text(nanos: nat) -> Seq<char> {
    decimal(days_of(nanos)) + seq!['.'] + padded(hours_of(nanos), 2) + seq![':']
        + padded(minutes_of(nanos), 2) + seq![':'] + padded(seconds_of(nanos), 2) + seq!['.']
        + padded(ticks_of(nanos), 7)
}

/// An elapsed time, held as a whole number of nanoseconds, that renders in the
/// timespan form used on the wire.
#[derive(Clone, Copy, Debug, PartialEq, Eq)]
pub struct FormattedDuration {
    pub nanos: u128,
}

impl FormattedDuration {
    pub fn from_nanos(nanos: u128) -> (r: FormattedDuration)
        ensures
            r.nanos == nanos,
    {
        FormattedDuration { nanos }
    }

    /// The text `D.HH:MM:SS.FFFFFFF`: whole days, then hours, minutes and
    /// seconds of the rest, then the sub-second part in 100 ns ticks, truncated.
    pub fn to_text(&self) -> (r: String)
        ensures
            r@ == timespan_text(self.nanos as nat),
    {
        let nanos = self.nanos;
        let ticks = nanos / NANOS_PER_TICK % TICKS_PER_SECOND;
        let total_seconds = nanos / NANOS_PER_SECOND;
        let seconds = total_seconds % 60;
        let minutes = total_seconds / 60 % 60;
        let hours = total_seconds / 3600 % 24;
        let days = total_seconds / 86400;
        let mut s = String::new();
        push_decimal(&mut s, days);
        push_char(&mut s, '.');
        push_padded(&mut s, hours, 2);
        push_char(&mut s, ':');
        push_padded(&mut s, minutes, 2);
        push_char(&mut s, ':');
        push_padded(&mut s, seconds, 2);
        push_char(&mut s, '.');
        push_padded(&mut s, ticks, 7);
        assert(s@ =~= timespan_text(nanos as nat));
        s
    }
}

/// Formatting depends on the elapsed time alone: two durations of equal length
/// render to the same text, so rendering a value again gives the text again.
pub proof fn lemma_timespan_deterministic(a: FormattedDuration, b: FormattedDuration)
    requires
        a.nanos == b.nanos,
    ensures
        timespan_text(a.nanos as nat) == timespan_text(b.nanos as nat),
{
}

/// The elapsed time, in nanoseconds, that the fields of a timespan stand for.
pub open spec fn timespan_value(days: nat, hours: nat, minutes: nat, seconds: nat, ticks: nat) -> nat {
    days * 86_400_000_000_000 + hours * 3_600_000_000_000 + minutes * 60_000_000_000 + seconds
        * 1_000_000_000 + ticks * 100
}

/// The elapsed time that a timespan text `D.HH:MM:SS.FFFFFFF` reads as.
pub open spec fn parse_timespan(s: Seq<char>) -> nat {
    let n = s.len() as int;
    timespan_value(
        digits_value(s.subrange(0, n - 17)),
        digits_value(s.subrange(n - 16, n - 14)),
        digits_value(s.subrange(n - 13, n - 11)),
        digits_value(s.subrange(n - 10, n - 8)),
        digits_value(s.subrange(n - 7, n)),
    )
}

proof fn lemma_fields_recombine(n: nat)
    ensures
        timespan_value(days_of(n), hours_of(n), minutes_of(n), seconds_of(n), ticks_of(n)) == n / 100
            * 100,
        (n / 100 * 100) / 1_000_000_000 == n / 1_000_000_000,
        ticks_of(n / 100 * 100) == ticks_of(n),
{
    let q = n / 100;
    let t = n / 1_000_000_000;
    lemma_div_denominator(n as int, 100, 10_000_000);
    lemma_fundamental_div_mod(q as int, 10_000_000);
    lemma_fundamental_div_mod(t as int, 60);
    lemma_fundamental_div_mod(t as int / 60, 60);
    lemma_div_denominator(t as int, 60, 60);
    lemma_fundamental_div_mod(t as int / 3600, 24);
    lemma_div_denominator(t as int, 3600, 24);
    assert(t == 86400 * days_of(n) + 3600 * hours_of(n) + 60 * minutes_of(n) + seconds_of(n));
    lemma_div_by_multiple(q as int, 100);
    lemma_div_denominator((q * 100) as int, 100, 10_000_000);
}

/// Reading a rendered timespan back gives the elapsed time truncated to whole
/// ticks, and rendering that value again gives the same text.
pub proof fn lemma_timespan_reformat(nanos: nat)
    ensures
        parse_timespan(timespan_text(nanos)) == nanos / 100 * 100,
        timespan_text(parse_timespan(timespan_text(nanos))) == timespan_text(nanos),
{
    let (d, h, m, s, t) = (days_of(nanos), hours_of(nanos), minutes_of(nanos), seconds_of(nanos), ticks_of(nanos));
    assert(pow10(1) == 10 * pow10(0));
    assert(pow10(2) == 100);
    assert(pow10(3) == 1000);
    assert(pow10(4) == 10_000);
    assert(pow10(5) == 100_000);
    assert(pow10(6) == 1_000_000);
    assert(pow10(7) == 10_000_000);
    lemma_padded_len(h, 2);
    lemma_padded_len(m, 2);
    lemma_padded_len(s, 2);
    lemma_padded_len(t, 7);
    let text = timespan_text(nanos);
    let l = decimal(d).len() as int;
    let n = text.len() as int;
    assert(n == l + 17);
    assert(text.subrange(0, n - 17) =~= decimal(d));
    assert(text.subrange(n - 16, n - 14) =~= padded(h, 2));
    assert(text.subrange(n - 13, n - 11) =~= padded(m, 2));
    assert(text.subrange(n - 10, n - 8) =~= padded(s, 2));
    assert(text.subrange(n - 7, n) =~= padded(t, 7));
    lemma_decimal_value(d);
    lemma_padded_value(h, 2);
    lemma_padded_value(m, 2);
    lemma_padded_value(s, 2);
    lemma_padded_value(t, 7);
    lemma_fields_recombine(nanos);
}

} // verus!
