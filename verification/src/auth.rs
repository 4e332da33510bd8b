//! Who is asking, and what their role lets them do.

use vstd::prelude::*;
use vstd::string::StrSliceExecFns;
use crate::text::{str_eq, starts_with, opens_with};
use crate::ids::{lemma_uuid_text_injective, uuid_text, uuid_hyphenated};
use crate::clock::{last_second, now_and_in_hours};
use crate::reply::{Reply, Body, error_reply, text_reply};

verus! {

/// The caller of a request, as named by a valid token.
#[derive(Debug, Clone)]
pub struct Authenticated {
    pub user_id: String,
    pub role: String,
}

impl Authenticated {
    /// The caller holds the `admin` role.
    pub fn is_admin(&self) -> (r: bool)
        ensures
            r == (self.role@ == "admin"@),
    {
        str_eq(self.role.as_str(), "admin")
    }

    /// The caller holds the `developer` role.
    pub fn is_developer(&self) -> (r: bool)
        ensures
            r == (self.role@ == "developer"@),
    {
        str_eq(self.role.as_str(), "developer")
    }

    /// The caller holds the `staff` role.
    pub fn is_staff(&self) -> (r: bool)
        ensures
            r == (self.role@ == "staff"@),
    {
        str_eq(self.role.as_str(), "staff")
    }
}


/// The scheme word, with its space, that opens an `Authorization` header
/// carrying a token.
pub open spec fn bearer_prefix() -> Seq<char> {
    "Bearer "@
}

/// The token an `Authorization` header carries: what follows the prefix.
pub open spec fn bearer_token_of(header: Seq<char>) -> Option<Seq<char>> {
    if opens_with(header, bearer_prefix()) {
        Some(header.subrange(bearer_prefix().len() as int, header.len() as int))
    } else {
        None
    }
}

/// A header made of the prefix and a token carries exactly that token.
pub proof fn lemma_bearer_header_carries_its_token(token: Seq<char>)
    ensures
        bearer_token_of(bearer_prefix() + token) == Some(token),
{
    let h = bearer_prefix() + token;
    assert(h.subrange(0, bearer_prefix().len() as int) =~= bearer_prefix());
    assert(h.subrange(bearer_prefix().len() as int, h.len() as int) =~= token);
}

/// The token in an `Authorization` header, if the header is there and opens
/// with `Bearer `.
pub fn bearer_token(authorization: Option<&str>) -> (r: Option<String>)
    ensures
        match authorization {
            None => r is None,
            Some(h) => match bearer_token_of(h@) {
                None => r is None,
                Some(t) => r matches Some(token) && token@ == t,
            },
        },
{
    match authorization {
        None => None,
        Some(h) => {
            let prefix = "Bearer ";
            if starts_with(h, prefix) {
                let n = h.unicode_len();
                let p = prefix.unicode_len();
                Some(h.substring_char(p, n).to_owned())
            } else {
                None
            }
        },
    }
}

/// What a token states: whose it is, their role, and when it expires (Unix
/// seconds).
#[derive(Debug)]
pub struct TokenClaims {
    pub sub: String,
    pub role: String,
    pub exp: usize,
}

/// The claims of a token for an account that expires at `expires_at`.
pub fn claims_for(user_id: u128, role: &str, expires_at: i64) -> (r: TokenClaims)
    ensures
        r.sub@ == uuid_hyphenated(user_id),
        r.role@ == role@,
        r.exp == expires_at as usize,
{
    TokenClaims { sub: uuid_text(user_id), role: role.to_owned(), exp: expires_at as usize }
}

/// Token claims name their account and role one to one: the claims for two
/// accounts and roles (`claims_for` with the same expiry) have the same
/// subject and role exactly when the accounts and the roles are the same.
pub proof fn lemma_claims_one_to_one(a: u128, role_a: Seq<char>, b: u128, role_b: Seq<char>)
    ensures
        (uuid_hyphenated(a) == uuid_hyphenated(b) && role_a == role_b) <==> (a == b && role_a
            == role_b),
{
    if uuid_hyphenated(a) == uuid_hyphenated(b) {
        lemma_uuid_text_injective(a, b);
    }
}

/// How many hours a token stays valid.
pub const TOKEN_LIFETIME_HOURS: i64 = 1;

/// The time a token is issued (Unix seconds, read from the clock), with the
/// claims of that token, which expires an hour later; no claims exactly where
/// an hour later is past chrono's last second.
pub fn new_token_claims(user_id: u128, role: &str) -> (r: (i64, Option<TokenClaims>))
    ensures
        0 <= r.0,
        r.1 is Some <==> r.0 + 3600 * TOKEN_LIFETIME_HOURS <= last_second(),
        r.1 matches Some(c) ==> {
            &&& c.sub@ == uuid_hyphenated(user_id)
            &&& c.role@ == role@
            &&& c.exp == (r.0 + 3600 * TOKEN_LIFETIME_HOURS) as usize
        },
{
    let (issued_at, expires_at) = now_and_in_hours(TOKEN_LIFETIME_HOURS);
    match expires_at {
        Some(t) => (issued_at, Some(claims_for(user_id, role, t))),
        None => (issued_at, None),
    }
}

/// The caller named by the claims of a valid token, or the answer to a
/// request whose token is missing or invalid.
pub fn authenticate(claims: Option<TokenClaims>) -> (r: Result<Authenticated, Reply>)
    ensures
        match claims {
            Some(c) => r matches Ok(a) && a.user_id == c.sub && a.role == c.role,
            None => r matches Err(rep) && error_reply(rep, 401, "Invalid token"@),
        },
{
    match claims {
        Some(c) => Ok(Authenticated { user_id: c.sub, role: c.role }),
        None => Err(Reply { status: 401, body: Body::ErrorText("Invalid token".to_owned()) }),
    }
}

/// Whether the caller may open the form that assigns bugs: admins and
/// developers may.
pub open spec fn may_see_assign_form(caller: Authenticated) -> bool {
    caller.role@ == "admin"@ || caller.role@ == "developer"@
}

/// Whether the caller may assign bugs: only admins may.
pub open spec fn may_assign_bugs(caller: Authenticated) -> bool {
    caller.role@ == "admin"@
}

/// The refusal of a caller who may not open the assignment form, or `None`.
pub fn assign_form_gate(caller: &Authenticated) -> (r: Option<Reply>)
    ensures
        may_see_assign_form(*caller) ==> r is None,
        !may_see_assign_form(*caller) ==> (r matches Some(rep) && text_reply(
            rep,
            403,
            "UNAUTHORISED ACCESS"@,
        )),
{
    if !(caller.is_admin() || caller.is_developer()) {
        return Some(Reply { status: 403, body: Body::Text("UNAUTHORISED ACCESS".to_owned()) });
    }
    None
}

/// The refusal of a caller who may not assign bugs, or `None`.
pub fn assign_bug_gate(caller: &Authenticated) -> (r: Option<Reply>)
    ensures
        may_assign_bugs(*caller) ==> r is None,
        !may_assign_bugs(*caller) ==> (r matches Some(rep) && text_reply(rep, 403, "ADMIN ONLY"@)),
{
    if !caller.is_admin() {
        return Some(Reply { status: 403, body: Body::Text("ADMIN ONLY".to_owned()) });
    }
    None
}

} // verus!
