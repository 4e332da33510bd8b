//! JSON web tokens: issuing one for an account, and reading the caller from
//! a request's `Authorization` header. Tokens are signed with HS256 under the
//! tracker's secret and carry the claims `sub`, `role` and `exp`, in that
//! order.

use vstd::prelude::*;
use crate::auth::{
    authenticate, bearer_prefix, bearer_token, bearer_token_of, lemma_bearer_header_carries_its_token,
    new_token_claims, Authenticated, TokenClaims, TOKEN_LIFETIME_HOURS,
};
use crate::clock::last_second;
use crate::ids::{lemma_uuid_text_injective, uuid_hyphenated};
use crate::reply::{error_reply, Reply};

verus! {

/// The secret tokens are signed with.
pub open spec fn token_secret() -> Seq<char> {
    "secretkey"@
}

/// The token `jsonwebtoken::encode` writes, with the default header (HS256)
/// and the secret's bytes as key, for the JSON object
/// `{"sub": sub, "role": role, "exp": exp}` with its keys in that order.
pub uninterp spec fn hs256_token(secret: Seq<char>, sub: Seq<char>, role: Seq<char>, exp: nat) -> Seq<char>;

/// The claims `(sub, role, exp)` that `jsonwebtoken::decode` with the
/// default validation reads from a token under the secret, leaving the
/// expiry check aside: `None` where the token is malformed, its header or
/// algorithm is not HS256, its signature does not match, or its claims lack
/// a text `sub`, a text `role` or a whole-number `exp` that fits a `usize`.
pub uninterp spec fn hs256_claims(secret: Seq<char>, token: Seq<char>) -> Option<(Seq<char>, Seq<char>, nat)>;

/// Calls `jsonwebtoken::encode` with the default header and the secret's
/// bytes as key, on a `serde_json::Map` holding `sub`, `role` and `exp` in
/// that order (kept in order, as the map preserves insertion order).
/// Trusted: the token is `hs256_token` of the arguments, and decoding it
/// under the same secret reads the same claims back (HMAC signing cannot
/// fail, so the call always succeeds).
#[verifier::external_body]
fn jwt_encode(secret: &str, sub: &str, role: &str, exp: usize) -> (r: String)
    ensures
        r@ == hs256_token(secret@, sub@, role@, exp as nat),
        hs256_claims(secret@, r@) == Some((sub@, role@, exp as nat)),
{
    let mut claims = serde_json::Map::new();
    claims.insert("sub".to_owned(), sub.into());
    claims.insert("role".to_owned(), role.into());
    claims.insert("exp".to_owned(), exp.into());
    let key = jsonwebtoken::EncodingKey::from_secret(secret.as_bytes());
    jsonwebtoken::encode(&jsonwebtoken::Header::default(), &claims, &key).unwrap()
}

/// Calls `jsonwebtoken::decode` with the secret's bytes as key and the
/// default validation, and reads `sub`, `role` and `exp` from the claims.
/// Trusted: claims it returns are `hs256_claims` of the token, and where
/// that is `None` it returns none. The default validation also refuses a
/// token whose expiry is more than 60 seconds before jsonwebtoken's own
/// reading of the clock; that reading is not the library's to know, so when
/// a token with valid claims is refused as expired is not stated.
#[verifier::external_body]
fn jwt_decode(secret: &str, token: &str) -> (r: Option<TokenClaims>)
    ensures
        r matches Some(c) ==> hs256_claims(secret@, token@) == Some((c.sub@, c.role@, c.exp as nat)),
        hs256_claims(secret@, token@) is None ==> r is None,
{
    let key = jsonwebtoken::DecodingKey::from_secret(secret.as_bytes());
    let validation = jsonwebtoken::Validation::default();
    let claims = jsonwebtoken::decode::<serde_json::Value>(token, &key, &validation).ok()?.claims;
    let exp = usize::try_from(claims.get("exp")?.as_u64()?).ok()?;
    let sub = claims.get("sub")?.as_str()?.to_owned();
    let role = claims.get("role")?.as_str()?.to_owned();
    Some(TokenClaims { sub, role, exp })
}


/// A token for an account, signed now, that expires an hour after it is
/// issued: the time of issue (Unix seconds, from the clock) and the token, or
/// no token exactly where an hour later is past chrono's last second.
pub fn create_token(user_id: u128, role: &str) -> (r: (i64, Option<String>))
    ensures
        0 <= r.0,
        r.1 is Some <==> r.0 + 3600 * TOKEN_LIFETIME_HOURS <= last_second(),
        r.1 matches Some(t) ==> {
            let exp = ((r.0 + 3600 * TOKEN_LIFETIME_HOURS) as usize) as nat;
            &&& t@ == hs256_token(token_secret(), uuid_hyphenated(user_id), role@, exp)
            &&& hs256_claims(token_secret(), t@) == Some((uuid_hyphenated(user_id), role@, exp))
        },
{
    let (issued_at, claims) = new_token_claims(user_id, role);
    match claims {
        Some(c) => {
            let t = jwt_encode("secretkey", c.sub.as_str(), c.role.as_str(), c.exp);
            (issued_at, Some(t))
        },
        None => (issued_at, None),
    }
}

/// Whether a token is signed with the tracker's secret, carries well-formed
/// claims, and has not expired by jsonwebtoken's clock. A token whose claims
/// do not read back is refused.
pub fn validate_token(token: &str) -> (r: bool)
    ensures
        r ==> hs256_claims(token_secret(), token@) is Some,
{
    jwt_decode("secretkey", token).is_some()
}

/// The header carries a token whose claims under the tracker's secret name
/// `user` with `role`.
pub open spec fn header_names(header: Seq<char>, user: Seq<char>, role: Seq<char>) -> bool {
    &&& bearer_token_of(header) matches Some(t)
    &&& hs256_claims(token_secret(), t) matches Some(c)
    &&& c.0 == user
    &&& c.1 == role
}

/// The caller named by a request's `Authorization` header, or the answer 401
/// `Invalid token`. A caller is only ever the one the header's token names;
/// a header with no `Bearer ` token, or whose token's claims do not read back
/// under the secret, is refused.
pub fn caller_from_header(authorization: Option<&str>) -> (r: Result<Authenticated, Reply>)
    ensures
        r matches Ok(a) ==> (authorization matches Some(h) && header_names(
            h@,
            a.user_id@,
            a.role@,
        )),
        r matches Err(rep) ==> error_reply(rep, 401, "Invalid token"@),
        authorization is None ==> r is Err,
        (authorization matches Some(h) && bearer_token_of(h@) is None) ==> r is Err,
        (authorization matches Some(h) && (bearer_token_of(h@) matches Some(t) && hs256_claims(
            token_secret(),
            t,
        ) is None)) ==> r is Err,
{
    let claims = match bearer_token(authorization) {
        Some(t) => jwt_decode("secretkey", t.as_str()),
        None => None,
    };
    authenticate(claims)
}

/// A token issued for an account and role, presented as `Bearer ` and the
/// token, can only be accepted as that account with that role.
pub proof fn lemma_issued_token_names_its_holder(
    token: Seq<char>,
    user_id: u128,
    role: Seq<char>,
    exp: nat,
    user: Seq<char>,
    caller_role: Seq<char>,
)
    requires
        hs256_claims(token_secret(), token) == Some((uuid_hyphenated(user_id), role, exp)),
        header_names(bearer_prefix() + token, user, caller_role),
    ensures
        user == uuid_hyphenated(user_id),
        caller_role == role,
{
    lemma_bearer_header_carries_its_token(token);
}

/// Tokens issued with the same expiry are equal exactly when they are for the
/// same account and role.
pub proof fn lemma_tokens_one_to_one(
    t1: Seq<char>,
    u1: u128,
    r1: Seq<char>,
    t2: Seq<char>,
    u2: u128,
    r2: Seq<char>,
    exp: nat,
)
    requires
        t1 == hs256_token(token_secret(), uuid_hyphenated(u1), r1, exp),
        hs256_claims(token_secret(), t1) == Some((uuid_hyphenated(u1), r1, exp)),
        t2 == hs256_token(token_secret(), uuid_hyphenated(u2), r2, exp),
        hs256_claims(token_secret(), t2) == Some((uuid_hyphenated(u2), r2, exp)),
    ensures
        t1 == t2 <==> (u1 == u2 && r1 == r2),
{
    if t1 == t2 {
        lemma_uuid_text_injective(u1, u2);
    }
}

} // verus!
