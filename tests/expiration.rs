use ssl_expiration::{reported_days, ProbeError, SslExpiration};

#[test]
fn secs_round_trip() {
    for s in [0, 1, -1, 86400, -86400, 123456789, i32::MAX, i32::MIN] {
        assert_eq!(SslExpiration::from_secs(s).secs(), s);
    }
}

#[test]
fn days_truncate_toward_zero() {
    assert_eq!(SslExpiration::from_secs(0).days(), 0);
    assert_eq!(SslExpiration::from_secs(86399).days(), 0);
    assert_eq!(SslExpiration::from_secs(86400).days(), 1);
    assert_eq!(SslExpiration::from_secs(15 * 86400 + 7).days(), 15);
    assert_eq!(SslExpiration::from_secs(-86399).days(), 0);
    assert_eq!(SslExpiration::from_secs(-86400).days(), -1);
    assert_eq!(SslExpiration::from_secs(-172801).days(), -2);
    assert_eq!(SslExpiration::from_secs(i32::MAX).days(), 24855);
    assert_eq!(SslExpiration::from_secs(i32::MIN).days(), -24855);
}

#[test]
fn zero_is_not_expired() {
    assert!(!SslExpiration::from_secs(0).is_expired());
    assert!(!SslExpiration::from_secs(1).is_expired());
    assert!(SslExpiration::from_secs(-1).is_expired());
}

#[test]
fn future_certificate_not_expired() {
    let e = SslExpiration::from_secs(3600);
    assert!(!e.is_expired());
    assert!(e.days() >= 0);
}

#[test]
fn past_certificate_expired() {
    let e = SslExpiration::from_secs(-3600);
    assert!(e.is_expired());
    assert!(e.secs() < 0);
}

#[test]
fn days_never_grow_as_time_passes() {
    let mut last = SslExpiration::from_secs(200000).days();
    let mut s: i32 = 200000;
    while s > -200000 {
        s -= 3217;
        let d = SslExpiration::from_secs(s).days();
        assert!(d <= last);
        last = d;
    }
}

#[test]
fn time_diff_combines_days_and_seconds() {
    assert_eq!(SslExpiration::from_time_diff(2, 5).unwrap().secs(), 172805);
    assert_eq!(SslExpiration::from_time_diff(-1, -5).unwrap().secs(), -86405);
    assert_eq!(SslExpiration::from_time_diff(0, 0).unwrap().secs(), 0);
    assert_eq!(SslExpiration::from_time_diff(24855, 11647).unwrap().secs(), i32::MAX);
}

#[test]
fn time_diff_out_of_range() {
    assert_eq!(SslExpiration::from_time_diff(24855, 11648), None);
    assert_eq!(SslExpiration::from_time_diff(30000, 0), None);
    assert_eq!(SslExpiration::from_time_diff(-30000, 0), None);
}

#[test]
fn reported_days_uses_sentinel_on_failure() {
    let ok: Result<SslExpiration, ProbeError> = Ok(SslExpiration::from_secs(20 * 86400 + 5));
    assert_eq!(reported_days(&ok), 20);
    let expired: Result<SslExpiration, ProbeError> = Ok(SslExpiration::from_secs(-3 * 86400));
    assert_eq!(reported_days(&expired), -3);
    let failed: Result<SslExpiration, ProbeError> = Err(ProbeError::OutOfRange);
    assert_eq!(reported_days(&failed), -1);
}
