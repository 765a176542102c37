//! Accounts created from a sign-in with the identity provider.
use vstd::prelude::*;
use crate::clock::SECS_PER_DAY;
use crate::model::GoogleUserInfo;

verus! {

/// How long an issued session token stays valid.
pub const SESSION_LIFETIME_SECS: i64 = 7 * SECS_PER_DAY;

/// The address an account is filed under: the reported email, or one made
/// from the provider's id when none is reported.
pub open spec fn spec_account_email(info: GoogleUserInfo) -> Seq<char> {
    match info.email {
        Some(e) => e@,
        None => "user_"@ + info.sub@ + "@example.com"@,
    }
}

/// The business name a new account starts with.
pub open spec fn spec_account_name(info: GoogleUserInfo) -> Seq<char> {
    match info.name {
        Some(n) => n@,
        None => "My Business"@,
    }
}

/// The address an account is filed under.
pub fn account_email(info: &GoogleUserInfo) -> (r: String)
    ensures
        r@ == spec_account_email(*info),
{
    match &info.email {
        Some(e) => e.clone(),
        None => String::from_str("user_").concat(info.sub.as_str()).concat("@example.com"),
    }
}

/// The business name a new account starts with.
pub fn account_name(info: &GoogleUserInfo) -> (r: String)
    ensures
        r@ == spec_account_name(*info),
{
    match &info.name {
        Some(n) => n.clone(),
        None => String::from_str("My Business"),
    }
}

/// When a session token issued at `now` (Unix seconds) expires; none past
/// the range of instants.
pub fn session_expiry(now: i64) -> (r: Option<i64>)
    ensures
        match r {
            Some(t) => t == now + SESSION_LIFETIME_SECS,
            None => now + SESSION_LIFETIME_SECS > i64::MAX,
        },
{
    now.checked_add(SESSION_LIFETIME_SECS)
}

} // verus!
