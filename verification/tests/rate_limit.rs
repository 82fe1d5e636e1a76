use oauth::middleware::client_ip::IpAddress;
use oauth::middleware::rate_limit::{api_quota, auth_quota, decide, limiter_key, RateDecision, RateQuota};

#[test]
fn quotas() {
    assert_eq!(auth_quota(), RateQuota { per_minute: 5, burst: 5 });
    assert_eq!(api_quota(), RateQuota { per_minute: 120, burst: 20 });
}

#[test]
fn over_quota_is_rejected_with_429() {
    assert_eq!(decide(true), RateDecision::Proceed);
    match decide(false) {
        RateDecision::Reject { status, retry_after_secs, message } => {
            assert_eq!(status, 429);
            assert_eq!(retry_after_secs, "60");
            assert_eq!(message, "Juda ko'p so'rov. Biroz kuting.");
        }
        RateDecision::Proceed => panic!("should reject"),
    }
}

#[test]
fn unknown_peer_is_counted_as_unspecified() {
    assert_eq!(limiter_key(None), IpAddress::V4([0, 0, 0, 0]));
    assert_eq!(limiter_key(Some(IpAddress::V4([1, 2, 3, 4]))), IpAddress::V4([1, 2, 3, 4]));
}
