//! Points in time, as seconds and nanoseconds since the UNIX epoch in UTC, and
//! their RFC 3339 text with millisecond precision.
use vstd::prelude::*;
use crate::text::{decimal, padded};

verus! {

/// The RFC 3339 text, in UTC with a `Z` suffix and exactly three fractional
/// digits, of the instant `secs` seconds and `nanos` nanoseconds after the UNIX
/// epoch; `None` where chrono cannot represent that instant.
pub uninterp spec fn rfc3339_millis(secs: i64, nanos: u32) -> Option<Seq<char>>;

/// The text ends with a dot, the three digits of `millis`, and `Z`.
pub open spec fn ends_with_millis(t: Seq<char>, millis: nat) -> bool {
    &&& t.len() >= 5
    &&& t[t.len() - 5] == '.'
    &&& t.subrange(t.len() - 4, t.len() - 1) == padded(millis, 3)
    &&& t[t.len() - 1] == 'Z'
}

/// The milliseconds within the second; a leap second's extra second
/// (`nanos` of one billion or more) is folded back.
pub open spec fn millis_of(nanos: u32) -> nat {
    (nanos as nat % 1_000_000_000) / 1_000_000
}

/// The fractional field of the text is always exactly three decimal digits,
/// whatever the precision of the instant.
pub proof fn lemma_millis_three_digits(nanos: u32)
    ensures
        millis_of(nanos) < 1000,
        padded(millis_of(nanos), 3).len() == 3,
        forall|i: int| 0 <= i < 3 ==> '0' <= #[trigger] padded(millis_of(nanos), 3)[i] <= '9',
{
    let m = millis_of(nanos);
    assert(m < 1000);
    assert(m / 10 / 10 < 10);
    assert(decimal(m / 10 / 10) == seq![crate::text::digit_char(m / 10 / 10)]);
    assert(padded(m / 10 / 10, 1) == decimal(m / 10 / 10));
    assert(padded(m / 10, 2) == padded(m / 10 / 10, 1).push(crate::text::digit_char(m / 10 % 10)));
    assert(padded(m, 3) == padded(m / 10, 2).push(crate::text::digit_char(m % 10)));
}

/// Relies on chrono's `DateTime::from_timestamp`, which yields `None` for an
/// instant out of range or a nanosecond field of two billion or more, and on
/// `DateTime::to_rfc3339_opts` with `SecondsFormat::Millis` and `Z`, which
/// writes `.{:03}` of the milliseconds (leap second folded) and then `Z`.
#[verifier::external_body]
fn format_rfc3339_millis(secs: i64, nanos: u32) -> (r: Option<String>)
    ensures
        r is Some <==> rfc3339_millis(secs, nanos) is Some,
        r matches Some(t) ==> rfc3339_millis(secs, nanos) == Some(t@),
        r matches Some(t) ==> nanos < 2_000_000_000 && ends_with_millis(t@, millis_of(nanos)),
{
    chrono::DateTime::from_timestamp(secs, nanos).map(
        |t| t.to_rfc3339_opts(chrono::SecondsFormat::Millis, true),
    )
}

/// Relies on chrono's `Utc::now`, and on `DateTime::timestamp` and
/// `DateTime::timestamp_subsec_nanos`, whose values `DateTime::from_timestamp`
/// accepts back (chrono documents the round trip).
#[verifier::external_body]
fn utc_now() -> (r: (i64, u32))
    ensures
        rfc3339_millis(r.0, r.1) is Some,
{
    let t = chrono::Utc::now();
    (t.timestamp(), t.timestamp_subsec_nanos())
}

/// An instant in UTC that chrono can represent.
#[derive(Clone, Copy, Debug, PartialEq, Eq)]
pub struct Timestamp {
    secs: i64,
    nanos: u32,
}

impl Timestamp {
    pub closed spec fn spec_secs(&self) -> i64 {
        self.secs
    }

    pub closed spec fn spec_nanos(&self) -> u32 {
        self.nanos
    }

    pub closed spec fn wf(&self) -> bool {
        rfc3339_millis(self.secs, self.nanos) is Some
    }

    /// The instant `secs` seconds and `nanos` nanoseconds after the UNIX epoch,
    /// where it can be represented.
    pub fn from_unix(secs: i64, nanos: u32) -> (r: Option<Timestamp>)
        ensures
            r is Some <==> rfc3339_millis(secs, nanos) is Some,
            r matches Some(t) ==> t.wf() && t.spec_secs() == secs && t.spec_nanos() == nanos,
    {
        match format_rfc3339_millis(secs, nanos) {
            Some(_) => Some(Timestamp { secs, nanos }),
            None => None,
        }
    }

    /// The current time.
    pub fn now() -> (r: Timestamp)
        ensures
            r.wf(),
    {
        let (secs, nanos) = utc_now();
        Timestamp { secs, nanos }
    }

    pub fn secs(&self) -> (r: i64)
        ensures
            r == self.spec_secs(),
    {
        self.secs
    }

    pub fn subsec_nanos(&self) -> (r: u32)
        ensures
            r == self.spec_nanos(),
    {
        self.nanos
    }

    /// The RFC 3339 text of the instant, in UTC, always with exactly three
    /// fractional digits and a `Z` suffix.
    pub fn to_rfc3339_millis(&self) -> (r: String)
        requires
            self.wf(),
        ensures
            rfc3339_millis(self.spec_secs(), self.spec_nanos()) == Some(r@),
            ends_with_millis(r@, millis_of(self.spec_nanos())),
    {
        match format_rfc3339_millis(self.secs, self.nanos) {
            Some(t) => t,
            None => String::new(),
        }
    }
}

} // verus!
