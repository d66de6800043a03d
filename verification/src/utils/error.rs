//! The errors that the server answers with, their HTTP status, their text and
//! the parts of the response that carry them.
use vstd::prelude::*;
use crate::utils::permissions::Permissions;
use crate::utils::text::{decimal, push_decimal, push_str_chars, string_from_chars};

verus! {

/// What the rate limiter reports when a request is refused.
#[derive(Clone, Copy, Debug, PartialEq, Eq, Structural)]
pub struct RateLimitInfo {
    pub limit: u64,
    pub remaining: u64,
    pub retry_after: u64,
}

#[derive(Clone, Copy, Debug, PartialEq, Eq, Structural)]
pub enum Error {
    RateLimited(RateLimitInfo),
    InvalidBody,
    InternalError,
    MissingHeader,
    AccountVerificationRequired,
    InvalidToken,
    EmailAlreadyInUse,
    MissingPermissions(Permissions),
    EmptyMessage,
    RequireInviteCode,
    InviteAlreadyTaken,
    FailedCaptcha,
    MissingAccess,
    DatabaseError,
    Blocked,
    BlockedByOther,
    AlreadyFriends,
    AlreadySendRequest,
    UnknownAccount,
    UnknownBot,
    UnknownChannel,
    UnknownInvite,
    UnknownUser,
    UnknownMessage,
    UnknownServer,
    UnknownSession,
    UnknownRole,
    UnknownMember,
    Unknown,
    MaximumFriends,
    MaximumServers,
    MaximumGroups,
    MaximumRoles,
    MaximumChannels,
    MaximumGroupMembers,
    MaximumBots,
    MaximumFriendRequests,
    MaximumBlocked,
}

pub type Result<T, E = Error> = std::result::Result<T, E>;

/// The HTTP status that answers an error.
pub open spec fn status_of(e: Error) -> u16 {
    match e {
        Error::RateLimited(_) => 429,
        Error::InvalidToken => 401,
        Error::InvalidBody => 422,
        _ => 400,
    }
}

/// A refused request is answered 429 when it was rate limited, 401 for a bad
/// token, 422 for a bad body and 400 for anything else; only a rate limit
/// adds headers, which say how many requests remain, the limit and when to
/// retry.
pub proof fn law_refusal_answers(e: Error)
    ensures
        (status_of(e) == 429) <==> e is RateLimited,
        (status_of(e) == 401) <==> e == Error::InvalidToken,
        (status_of(e) == 422) <==> e == Error::InvalidBody,
        !(e is RateLimited || e == Error::InvalidToken || e == Error::InvalidBody) ==> status_of(e)
            == 400,
        !(e is RateLimited) ==> headers_of(e).len() == 0,
        e matches Error::RateLimited(info) ==> headers_of(e).len() == 3 && headers_of(e)[0].1
            == info.remaining && headers_of(e)[1].1 == info.limit && headers_of(e)[2].1
            == info.retry_after,
{
}

/// The `type` tag of an error in a response body: its name in snake case.
pub open spec fn kind_name_of(e: Error) -> Seq<char> {
    match e {
        Error::RateLimited(_) => "rate_limited"@,
        Error::InvalidBody => "invalid_body"@,
        Error::InternalError => "internal_error"@,
        Error::MissingHeader => "missing_header"@,
        Error::AccountVerificationRequired => "account_verification_required"@,
        Error::InvalidToken => "invalid_token"@,
        Error::EmailAlreadyInUse => "email_already_in_use"@,
        Error::MissingPermissions(_) => "missing_permissions"@,
        Error::EmptyMessage => "empty_message"@,
        Error::RequireInviteCode => "require_invite_code"@,
        Error::InviteAlreadyTaken => "invite_already_taken"@,
        Error::FailedCaptcha => "failed_captcha"@,
        Error::MissingAccess => "missing_access"@,
        Error::DatabaseError => "database_error"@,
        Error::Blocked => "blocked"@,
        Error::BlockedByOther => "blocked_by_other"@,
        Error::AlreadyFriends => "already_friends"@,
        Error::AlreadySendRequest => "already_send_request"@,
        Error::UnknownAccount => "unknown_account"@,
        Error::UnknownBot => "unknown_bot"@,
        Error::UnknownChannel => "unknown_channel"@,
        Error::UnknownInvite => "unknown_invite"@,
        Error::UnknownUser => "unknown_user"@,
        Error::UnknownMessage => "unknown_message"@,
        Error::UnknownServer => "unknown_server"@,
        Error::UnknownSession => "unknown_session"@,
        Error::UnknownRole => "unknown_role"@,
        Error::UnknownMember => "unknown_member"@,
        Error::Unknown => "unknown"@,
        Error::MaximumFriends => "maximum_friends"@,
        Error::MaximumServers => "maximum_servers"@,
        Error::MaximumGroups => "maximum_groups"@,
        Error::MaximumRoles => "maximum_roles"@,
        Error::MaximumChannels => "maximum_channels"@,
        Error::MaximumGroupMembers => "maximum_group_members"@,
        Error::MaximumBots => "maximum_bots"@,
        Error::MaximumFriendRequests => "maximum_friend_requests"@,
        Error::MaximumBlocked => "maximum_blocked"@,
    }
}

/// The text of an error. Errors without a text of their own read as their name.
pub open spec fn message_of(e: Error) -> Seq<char> {
    match e {
        Error::RateLimited(info) => "Executed the rate limit. Please retry after "@ + decimal(
            info.retry_after as nat,
        ) + "s"@,
        Error::InvalidBody => "You have provided a bad json schema"@,
        Error::InternalError => "Internal server error"@,
        Error::MissingHeader => "Missing header"@,
        Error::AccountVerificationRequired => "You need to verify your account in order to perform this action"@,
        Error::InvalidToken => "Unauthorized. Provide a valid token and try again"@,
        Error::EmailAlreadyInUse => "This email already in use"@,
        Error::MissingPermissions(missing) => "You lack permissions to perform that action, missing: "@
            + decimal(missing@ as nat),
        Error::EmptyMessage => "Cannot send an empty message"@,
        Error::RequireInviteCode => "You must have an invite code to perform this action"@,
        Error::InviteAlreadyTaken => "This invite already used"@,
        Error::FailedCaptcha => "Respect the captcha, Respect you"@,
        Error::MissingAccess => "You missing access to perform this action "@,
        Error::DatabaseError => "Database cannot process this operation"@,
        Error::Blocked => "Blocked"@,
        Error::BlockedByOther => "BlockedByOther"@,
        Error::AlreadyFriends => "AlreadyFriends"@,
        Error::AlreadySendRequest => "AlreadySendRequest"@,
        Error::UnknownAccount => "UnknownAccount"@,
        Error::UnknownBot => "UnknownBot"@,
        Error::UnknownChannel => "UnknownChannel"@,
        Error::UnknownInvite => "UnknownInvite"@,
        Error::UnknownUser => "UnknownUser"@,
        Error::UnknownMessage => "UnknownMessage"@,
        Error::UnknownServer => "UnknownServer"@,
        Error::UnknownSession => "UnknownSession"@,
        Error::UnknownRole => "UnknownRole"@,
        Error::UnknownMember => "UnknownMember"@,
        Error::Unknown => "Unknown error has occurred"@,
        Error::MaximumFriends => "Maximum number of friends reached"@,
        Error::MaximumServers => "Maximum number of servers reached"@,
        Error::MaximumGroups => "Maximum number of groups reached"@,
        Error::MaximumRoles => "Maximum number of server roles reached"@,
        Error::MaximumChannels => "Maximum number of channels reached"@,
        Error::MaximumGroupMembers => "Maximum number of group members reached"@,
        Error::MaximumBots => "Maximum number of bots reached"@,
        Error::MaximumFriendRequests => "Maximum number of friend requests reached"@,
        Error::MaximumBlocked => "Maximum number of blocked user reached"@,
    }
}

/// The headers that a refused request is answered with.
pub open spec fn headers_of(e: Error) -> Seq<(Seq<char>, u64)> {
    match e {
        Error::RateLimited(info) => seq![
            ("X-RateLimit-Remaining"@, info.remaining),
            ("X-RateLimit-Limit"@, info.limit),
            ("Retry-After"@, info.retry_after),
        ],
        _ => seq![],
    }
}

/// What the server sends for an error, apart from the fields that the error
/// itself carries in the body.
pub struct ErrorResponse {
    pub status: u16,
    pub kind_name: &'static str,
    /// The error's text; present only when the text holds a space.
    pub message: Option<String>,
    pub headers: Vec<(&'static str, u64)>,
}

pub open spec fn headers_view(h: Seq<(&'static str, u64)>) -> Seq<(Seq<char>, u64)> {
    h.map_values(|p: (&'static str, u64)| (p.0@, p.1))
}

impl Error {
    pub fn status_code(&self) -> (r: u16)
        ensures
            r == status_of(*self),
    {
        match self {
            Error::RateLimited(_) => 429,
            Error::InvalidToken => 401,
            Error::InvalidBody => 422,
            _ => 400,
        }
    }

    pub fn kind_name(&self) -> (r: &'static str)
        ensures
            r@ == kind_name_of(*self),
    {
        match self {
            Error::RateLimited(_) => "rate_limited",
            Error::InvalidBody => "invalid_body",
            Error::InternalError => "internal_error",
            Error::MissingHeader => "missing_header",
            Error::AccountVerificationRequired => "account_verification_required",
            Error::InvalidToken => "invalid_token",
            Error::EmailAlreadyInUse => "email_already_in_use",
            Error::MissingPermissions(_) => "missing_permissions",
            Error::EmptyMessage => "empty_message",
            Error::RequireInviteCode => "require_invite_code",
            Error::InviteAlreadyTaken => "invite_already_taken",
            Error::FailedCaptcha => "failed_captcha",
            Error::MissingAccess => "missing_access",
            Error::DatabaseError => "database_error",
            Error::Blocked => "blocked",
            Error::BlockedByOther => "blocked_by_other",
            Error::AlreadyFriends => "already_friends",
            Error::AlreadySendRequest => "already_send_request",
            Error::UnknownAccount => "unknown_account",
            Error::UnknownBot => "unknown_bot",
            Error::UnknownChannel => "unknown_channel",
            Error::UnknownInvite => "unknown_invite",
            Error::UnknownUser => "unknown_user",
            Error::UnknownMessage => "unknown_message",
            Error::UnknownServer => "unknown_server",
            Error::UnknownSession => "unknown_session",
            Error::UnknownRole => "unknown_role",
            Error::UnknownMember => "unknown_member",
            Error::Unknown => "unknown",
            Error::MaximumFriends => "maximum_friends",
            Error::MaximumServers => "maximum_servers",
            Error::MaximumGroups => "maximum_groups",
            Error::MaximumRoles => "maximum_roles",
            Error::MaximumChannels => "maximum_channels",
            Error::MaximumGroupMembers => "maximum_group_members",
            Error::MaximumBots => "maximum_bots",
            Error::MaximumFriendRequests => "maximum_friend_requests",
            Error::MaximumBlocked => "maximum_blocked",
        }
    }

    /// The fixed part of the text; the two errors that carry a number end
    /// with that number, which `message` appends.
    fn message_prefix(&self) -> (r: &'static str)
        ensures
            !(*self is RateLimited) && !(*self is MissingPermissions) ==> r@ == message_of(*self),
            *self is RateLimited ==> r@ == "Executed the rate limit. Please retry after "@,
            *self is MissingPermissions ==> r@
                == "You lack permissions to perform that action, missing: "@,
    {
        match self {
            Error::RateLimited(_) => "Executed the rate limit. Please retry after ",
            Error::InvalidBody => "You have provided a bad json schema",
            Error::InternalError => "Internal server error",
            Error::MissingHeader => "Missing header",
            Error::AccountVerificationRequired => "You need to verify your account in order to perform this action",
            Error::InvalidToken => "Unauthorized. Provide a valid token and try again",
            Error::EmailAlreadyInUse => "This email already in use",
            Error::MissingPermissions(_) => "You lack permissions to perform that action, missing: ",
            Error::EmptyMessage => "Cannot send an empty message",
            Error::RequireInviteCode => "You must have an invite code to perform this action",
            Error::InviteAlreadyTaken => "This invite already used",
            Error::FailedCaptcha => "Respect the captcha, Respect you",
            Error::MissingAccess => "You missing access to perform this action ",
            Error::DatabaseError => "Database cannot process this operation",
            Error::Blocked => "Blocked",
            Error::BlockedByOther => "BlockedByOther",
            Error::AlreadyFriends => "AlreadyFriends",
            Error::AlreadySendRequest => "AlreadySendRequest",
            Error::UnknownAccount => "UnknownAccount",
            Error::UnknownBot => "UnknownBot",
            Error::UnknownChannel => "UnknownChannel",
            Error::UnknownInvite => "UnknownInvite",
            Error::UnknownUser => "UnknownUser",
            Error::UnknownMessage => "UnknownMessage",
            Error::UnknownServer => "UnknownServer",
            Error::UnknownSession => "UnknownSession",
            Error::UnknownRole => "UnknownRole",
            Error::UnknownMember => "UnknownMember",
            Error::Unknown => "Unknown error has occurred",
            Error::MaximumFriends => "Maximum number of friends reached",
            Error::MaximumServers => "Maximum number of servers reached",
            Error::MaximumGroups => "Maximum number of groups reached",
            Error::MaximumRoles => "Maximum number of server roles reached",
            Error::MaximumChannels => "Maximum number of channels reached",
            Error::MaximumGroupMembers => "Maximum number of group members reached",
            Error::MaximumBots => "Maximum number of bots reached",
            Error::MaximumFriendRequests => "Maximum number of friend requests reached",
            Error::MaximumBlocked => "Maximum number of blocked user reached",
        }
    }

    fn message_chars(&self) -> (r: Vec<char>)
        ensures
            r@ == message_of(*self),
    {
        let mut v: Vec<char> = Vec::new();
        push_str_chars(&mut v, self.message_prefix());
        match self {
            Error::RateLimited(info) => {
                push_decimal(&mut v, info.retry_after);
                push_str_chars(&mut v, "s");
            },
            Error::MissingPermissions(missing) => {
                push_decimal(&mut v, missing.bits());
            },
            _ => {},
        }
        v
    }

    /// The text of the error, as it is displayed.
    pub fn message(&self) -> (r: String)
        ensures
            r@ == message_of(*self),
    {
        string_from_chars(self.message_chars())
    }

    /// The status, tag, text and headers that answer this error. The text is
    /// sent only when it holds a space, that is, when it is a sentence rather
    /// than a bare name.
    pub fn response_parts(&self) -> (r: ErrorResponse)
        ensures
            r.status == status_of(*self),
            r.kind_name@ == kind_name_of(*self),
            r.message is Some <==> message_of(*self).contains(' '),
            r.message matches Some(m) ==> m@ == message_of(*self),
            headers_view(r.headers@) == headers_of(*self),
    {
        let chars = self.message_chars();
        let has_space = contains_char(&chars, ' ');
        let message = if has_space {
            Some(string_from_chars(chars))
        } else {
            None
        };
        let mut headers: Vec<(&'static str, u64)> = Vec::new();
        if let Error::RateLimited(info) = self {
            headers.push(("X-RateLimit-Remaining", info.remaining));
            headers.push(("X-RateLimit-Limit", info.limit));
            headers.push(("Retry-After", info.retry_after));
        }
        proof {
            assert(headers_view(headers@) =~= headers_of(*self));
        }
        ErrorResponse { status: self.status_code(), kind_name: self.kind_name(), message, headers }
    }
}

/// Whether a character occurs in a vector of characters.
pub fn contains_char(v: &Vec<char>, c: char) -> (r: bool)
    ensures
        r == v@.contains(c),
{
    let mut i: usize = 0;
    while i < v.len()
        invariant
            i <= v.len(),
            forall|j: int| 0 <= j < i ==> v@[j] != c,
        decreases v.len() - i,
    {
        if v[i] == c {
            proof {
                assert(v@[i as int] == c);
            }
            return true;
        }
        i = i + 1;
    }
    false
}

} // verus!
