use itchat::utils::error::{Error, RateLimitInfo};
use itchat::utils::permissions::Permissions;

#[test]
fn status_codes() {
    let limited = Error::RateLimited(RateLimitInfo { limit: 20, remaining: 0, retry_after: 5 });
    assert_eq!(limited.status_code(), 429);
    assert_eq!(Error::InvalidToken.status_code(), 401);
    assert_eq!(Error::InvalidBody.status_code(), 422);
    assert_eq!(Error::UnknownUser.status_code(), 400);
    assert_eq!(Error::DatabaseError.status_code(), 400);
}

#[test]
fn messages_and_tags() {
    let limited = Error::RateLimited(RateLimitInfo { limit: 20, remaining: 0, retry_after: 5 });
    assert_eq!(limited.message(), "Executed the rate limit. Please retry after 5s");
    assert_eq!(limited.kind_name(), "rate_limited");
    let missing = Error::MissingPermissions(Permissions::manage_roles());
    assert_eq!(missing.message(), "You lack permissions to perform that action, missing: 512");
    assert_eq!(missing.kind_name(), "missing_permissions");
    assert_eq!(Error::UnknownUser.message(), "UnknownUser");
    assert_eq!(Error::UnknownUser.kind_name(), "unknown_user");
    assert_eq!(Error::MaximumFriendRequests.kind_name(), "maximum_friend_requests");
    assert_eq!(Error::Unknown.message(), "Unknown error has occurred");
}

#[test]
fn response_parts() {
    let limited = Error::RateLimited(RateLimitInfo { limit: 20, remaining: 3, retry_after: 7 });
    let r = limited.response_parts();
    assert_eq!(r.status, 429);
    assert_eq!(r.kind_name, "rate_limited");
    assert_eq!(r.message.as_deref(), Some("Executed the rate limit. Please retry after 7s"));
    assert_eq!(
        r.headers,
        vec![("X-RateLimit-Remaining", 3), ("X-RateLimit-Limit", 20), ("Retry-After", 7)]
    );

    // A bare name carries no message.
    let r = Error::Blocked.response_parts();
    assert_eq!(r.status, 400);
    assert_eq!(r.message, None);
    assert!(r.headers.is_empty());

    let r = Error::InvalidBody.response_parts();
    assert_eq!(r.status, 422);
    assert_eq!(r.message.as_deref(), Some("You have provided a bad json schema"));
}
