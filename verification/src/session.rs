//! What is sent to the quota service and what its answers mean, apart from
//! the snapshot itself.

use crate::text::same_text;
use vstd::prelude::*;

verus! {

/// Number of characters of `sessionKey=`, the name under which the session
/// key travels in a cookie.
pub const SESSION_COOKIE_NAME_LEN: usize = 11;

/// The address of the usage snapshot of an organisation at a service.
pub open spec fn spec_usage_url(base_url: Seq<char>, org_id: Seq<char>) -> Seq<char> {
    base_url + "/api/organizations/"@ + org_id + "/usage"@
}

/// The address of the usage snapshot of the organisation `org_id` at the
/// service whose address is `base_url`.
pub fn usage_url(base_url: &str, org_id: &str) -> (url: String)
    ensures
        url@ == spec_usage_url(base_url@, org_id@),
{
    let mut url = String::from_str(base_url);
    url.append("/api/organizations/");
    url.append(org_id);
    url.append("/usage");
    url
}

/// The cookie that presents the session key `session_key`.
pub fn session_cookie(session_key: &str) -> (cookie: String)
    ensures
        cookie@ == "sessionKey="@ + session_key@,
{
    let mut cookie = String::from_str("sessionKey=");
    cookie.append(session_key);
    cookie
}

/// The first index from `from` on at which the text holds a semicolon, or
/// the length of the text where it holds none.
pub open spec fn field_end(text: Seq<char>, from: int) -> int
    decreases text.len() - from,
{
    if from >= text.len() {
        text.len() as int
    } else if text[from] == ';' {
        from
    } else {
        field_end(text, from + 1)
    }
}

/// The session key that a cookie sets: what stands between `sessionKey=` at
/// its start and its first semicolon. A cookie of another name sets none.
pub open spec fn spec_refreshed_session_key(cookie: Seq<char>) -> Option<Seq<char>> {
    if cookie.len() >= SESSION_COOKIE_NAME_LEN && cookie.subrange(
        0,
        SESSION_COOKIE_NAME_LEN as int,
    ) == "sessionKey="@ {
        Some(
            cookie.subrange(
                SESSION_COOKIE_NAME_LEN as int,
                field_end(cookie, SESSION_COOKIE_NAME_LEN as int),
            ),
        )
    } else {
        None
    }
}

/// The session key that the value of a `Set-Cookie` header sets, if it sets
/// one; see `spec_refreshed_session_key`.
pub fn refreshed_session_key(cookie: &str) -> (key: Option<String>)
    ensures
        key is Some == spec_refreshed_session_key(cookie@) is Some,
        key matches Some(k) ==> Some(k@) == spec_refreshed_session_key(cookie@),
{
    let len = cookie.unicode_len();
    if len < SESSION_COOKIE_NAME_LEN {
        return None;
    }
    if !same_text(cookie.substring_char(0, SESSION_COOKIE_NAME_LEN), "sessionKey=") {
        return None;
    }
    let mut end: usize = SESSION_COOKIE_NAME_LEN;
    while end < len && cookie.get_char(end) != ';'
        invariant
            SESSION_COOKIE_NAME_LEN <= end <= len,
            len == cookie@.len(),
            field_end(cookie@, SESSION_COOKIE_NAME_LEN as int) == field_end(cookie@, end as int),
        decreases len - end,
    {
        end = end + 1;
    }
    Some(String::from_str(cookie.substring_char(SESSION_COOKIE_NAME_LEN, end)))
}

/// What a status of the service's answer means for the poll: nothing for a
/// success from 200 to 299, that the session has expired for 401 and 403,
/// and else an error that quotes the status.
pub open spec fn spec_fetch_failure(status: u16, status_text: Seq<char>) -> Option<Seq<char>> {
    if status == 401 || status == 403 {
        Some("Session expired. Please update your session key."@)
    } else if 200 <= status < 300 {
        None
    } else {
        Some("API error: HTTP "@ + status_text)
    }
}

/// The reason for which an answer with the status `status` fails the poll,
/// if it does; `status_text` is the status as it is shown to the user. See
/// `spec_fetch_failure`.
pub fn fetch_failure(status: u16, status_text: &str) -> (reason: Option<String>)
    ensures
        reason is Some == spec_fetch_failure(status, status_text@) is Some,
        reason matches Some(r) ==> Some(r@) == spec_fetch_failure(status, status_text@),
{
    if status == 401 || status == 403 {
        Some(String::from_str("Session expired. Please update your session key."))
    } else if 200 <= status && status < 300 {
        None
    } else {
        let mut reason = String::from_str("API error: HTTP ");
        reason.append(status_text);
        Some(reason)
    }
}

} // verus!
