use vstd::prelude::*;

verus! {

/// Seconds in one day.
pub const SECS_PER_DAY: i64 = 86400;

/// Whole days in `s` seconds, truncated toward zero.
pub open spec fn days_of(s: int) -> int {
    if s >= 0 {
        s / 86400
    } else {
        -((-s) / 86400)
    }
}

/// Seconds that a difference of `days` days and `secs` seconds spans.
pub open spec fn span_secs(days: int, secs: int) -> int {
    days * 86400 + secs
}

/// Time left until a certificate expires, in whole seconds.
///
/// A negative value means the certificate has already expired; zero is the
/// expiry instant itself and does not count as expired.
#[derive(Debug, Clone, Copy, PartialEq, Eq)]
pub struct SslExpiration {
    secs: i32,
}

impl View for SslExpiration {
    type V = int;

    /// Signed seconds from the moment of the probe to the certificate's not-after time.
    closed spec fn view(&self) -> int {
        self.secs as int
    }
}

impl SslExpiration {
    /// The value that [`SslExpiration::from_secs`] builds.
    pub closed spec fn spec_from_secs(secs: i32) -> SslExpiration {
        SslExpiration { secs }
    }

    /// A result that leaves `secs` seconds until expiry.
    pub fn from_secs(secs: i32) -> (r: SslExpiration)
        ensures
            r == Self::spec_from_secs(secs),
            r@ == secs as int,
    {
        SslExpiration { secs }
    }

    /// The result for a difference of `days` days and `secs` seconds, as
    /// OpenSSL reports the distance between two times. `None` where the total
    /// does not fit the seconds counter.
    pub fn from_time_diff(days: i32, secs: i32) -> (r: Option<SslExpiration>)
        ensures
            r is Some <==> i32::MIN <= span_secs(days as int, secs as int) <= i32::MAX,
            r matches Some(e) ==> e@ == span_secs(days as int, secs as int),
    {
        let total: i64 = days as i64 * SECS_PER_DAY + secs as i64;
        if total < i32::MIN as i64 || total > i32::MAX as i64 {
            None
        } else {
            Some(SslExpiration { secs: total as i32 })
        }
    }

    /// How many seconds until the certificate expires; negative once it has.
    pub fn secs(&self) -> (r: i32)
        ensures
            r as int == self@,
    {
        self.secs
    }

    /// How many whole days until the certificate expires, truncated toward
    /// zero; negative once it has expired by a day or more.
    pub fn days(&self) -> (r: i32)
        ensures
            r as int == days_of(self@),
    {
        let s: i64 = self.secs as i64;
        if s >= 0 {
            (s / SECS_PER_DAY) as i32
        } else {
            -((-s) / SECS_PER_DAY) as i32
        }
    }

    /// Whether the certificate has expired.
    pub fn is_expired(&self) -> (r: bool)
        ensures
            r == (self@ < 0),
    {
        self.secs < 0
    }
}

/// The day count that a metric reports for a probe: the days left where the
/// probe succeeded, and -1 where it failed, so that the series stays present.
pub fn reported_days<E>(result: &Result<SslExpiration, E>) -> (r: i32)
    ensures
        result matches Ok(e) ==> r as int == days_of(e@),
        result is Err ==> r == -1,
{
    match result {
        Ok(e) => e.days(),
        Err(_) => -1,
    }
}

/// A result built from a number of seconds reads back exactly that number.
pub proof fn lemma_secs_round_trip(secs: i32)
    ensures
        SslExpiration::spec_from_secs(secs)@ == secs as int,
{
}

/// A certificate whose not-after time lies strictly ahead is not expired and
/// has a non-negative number of days left.
pub proof fn lemma_future_not_expired(e: SslExpiration)
    requires
        e@ > 0,
    ensures
        !(e@ < 0),
        days_of(e@) >= 0,
{
}

/// A certificate whose not-after time has passed is expired and has a
/// negative number of seconds left.
pub proof fn lemma_past_expired(e: SslExpiration)
    requires
        e@ < 0,
    ensures
        e@ < 0,
        days_of(e@) <= 0,
{
}

/// Fewer seconds left never means more days left: as time passes, the day
/// count of a fixed certificate does not grow.
pub proof fn lemma_days_monotonic(earlier: SslExpiration, later: SslExpiration)
    requires
        later@ <= earlier@,
    ensures
        days_of(later@) <= days_of(earlier@),
{
    let a = earlier@;
    let b = later@;
    if b >= 0 {
        assert(b / 86400 <= a / 86400) by (nonlinear_arith)
            requires
                0 <= b <= a,
        ;
    } else if a >= 0 {
    } else {
        assert((-a) / 86400 <= (-b) / 86400) by (nonlinear_arith)
            requires
                0 < -a <= -b,
        ;
    }
}

} // verus!
