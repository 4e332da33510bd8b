//! Accounts: signing in and registering.

use vstd::prelude::*;
use crate::models::{LoginRequest, NewUser, User};
use crate::text::opens_with;
use crate::reply::{Body, Reply, error_reply, text_reply};
use crate::password::{bcrypt_hash_form, hash_password, password_accepted, password_matches};
use crate::ids::{fresh_uuid, is_v4_uuid, parse_uuid, uuid_hyphenated, uuid_parse, uuid_text};

verus! {

/// How a sign-in attempt ends, decided from the account stored under the
/// user name.
pub enum LoginVerdict {
    /// No account has the name.
    UnknownUser,
    /// The stored hash does not accept the password.
    WrongPassword,
    /// The stored account id is no UUID.
    BadUserId,
    /// A token is issued for the account's id and role.
    Token { user_id: u128, role: Seq<char> },
}

/// The verdict on a password for the account found, if any.
pub open spec fn login_verdict(password: Seq<char>, found: Option<User>) -> LoginVerdict {
    match found {
        None => LoginVerdict::UnknownUser,
        Some(u) => if !password_accepted(password, u.hashed_password@) {
            LoginVerdict::WrongPassword
        } else {
            match uuid_parse(u.user_id@) {
                None => LoginVerdict::BadUserId,
                Some(id) => LoginVerdict::Token { user_id: id, role: u.role@ },
            }
        },
    }
}

/// What to do after the account has been looked up.
pub enum LoginStep {
    /// Answer the request.
    Respond(Reply),
    /// Issue a token for the account, then answer with it.
    IssueToken { user_id: u128, role: String },
}

/// The step that answers each verdict. An unknown user and a wrong password
/// are refused with 401, an id that is no UUID fails with 500, and a valid
/// sign-in gets a token for the id and role.
pub open spec fn step_follows(r: LoginStep, verdict: LoginVerdict) -> bool {
    match verdict {
        LoginVerdict::UnknownUser => r matches LoginStep::Respond(rep) && text_reply(
            rep,
            401,
            "User not found"@,
        ),
        LoginVerdict::WrongPassword => r matches LoginStep::Respond(rep) && rep.status == 401
            && rep.body is LoginFailure,
        LoginVerdict::BadUserId => r matches LoginStep::Respond(rep) && error_reply(
            rep,
            500,
            "Invalid UUID"@,
        ),
        LoginVerdict::Token { user_id, role } => r matches LoginStep::IssueToken {
            user_id: i,
            role: ro,
        } && i == user_id && ro@ == role,
    }
}

/// Decides a sign-in attempt from the account stored under its user name.
pub fn login_step(request: &LoginRequest, found: Option<User>) -> (r: LoginStep)
    ensures
        step_follows(r, login_verdict(request.password@, found)),
{
    match found {
        None => LoginStep::Respond(
            Reply { status: 401, body: Body::Text("User not found".to_owned()) },
        ),
        Some(user) => {
            if password_matches(request.password.as_str(), user.hashed_password.as_str()) {
                match parse_uuid(user.user_id.as_str()) {
                    Some(id) => LoginStep::IssueToken { user_id: id, role: user.role },
                    None => LoginStep::Respond(
                        Reply { status: 500, body: Body::ErrorText("Invalid UUID".to_owned()) },
                    ),
                }
            } else {
                LoginStep::Respond(Reply { status: 401, body: Body::LoginFailure })
            }
        },
    }
}

/// The answer that hands out an issued token.
pub fn login_reply(token: String) -> (r: Reply)
    ensures
        r.status == 200,
        r.body == Body::LoginSuccess(token),
{
    Reply { status: 200, body: Body::LoginSuccess(token) }
}

/// `user` is the account registered from `form`: it copies the name, role
/// and user name, its hash is a bcrypt hash at cost 12 that accepts the
/// form's password, and its id is the text of a version-4 UUID that reads
/// back as that UUID.
pub open spec fn registered_from(user: User, form: NewUser) -> bool {
    &&& user.name == form.name
    &&& user.role == form.role
    &&& user.username == form.username
    &&& password_accepted(form.password@, user.hashed_password@)
    &&& bcrypt_hash_form(user.hashed_password@)
    &&& exists|id: u128|
        #![trigger uuid_hyphenated(id)]
        user.user_id@ == uuid_hyphenated(id) && uuid_parse(user.user_id@) == Some(id)
            && is_v4_uuid(id)
}

/// The account stored for a registration with account id `id` and password
/// hash `hashed`.
pub fn user_record(form: &NewUser, id: u128, hashed: String) -> (r: User)
    ensures
        r.user_id@ == uuid_hyphenated(id),
        uuid_parse(r.user_id@) == Some(id),
        r.name == form.name,
        r.role == form.role,
        r.username == form.username,
        r.hashed_password == hashed,
{
    User {
        user_id: uuid_text(id),
        name: form.name.clone(),
        role: form.role.clone(),
        username: form.username.clone(),
        hashed_password: hashed,
    }
}

/// The account to store for a registration, with a fresh random id; or,
/// where hashing fails, the answer 500 with bcrypt's message. Nothing else
/// refuses a registration: whatever the name, role and user name, a refusal
/// carries bcrypt's message for a salt it could not draw.
pub fn new_user(form: &NewUser) -> (r: Result<User, Reply>)
    ensures
        r matches Ok(u) ==> registered_from(u, *form),
        r matches Err(rep) ==> rep.status == 500 && rep.body is ErrorText,
        r matches Err(rep) ==> (rep.body matches Body::ErrorText(t) && opens_with(
            t@,
            "Rand error: "@,
        )),
{
    let id = fresh_uuid();
    match hash_password(form.password.as_str()) {
        Ok(hashed) => {
            let u = user_record(form, id, hashed);
            assert(u.user_id@ == uuid_hyphenated(id) && uuid_parse(u.user_id@) == Some(id)
                && is_v4_uuid(id));
            Ok(u)
        },
        Err(e) => Err(Reply { status: 500, body: Body::ErrorText(e) }),
    }
}

/// The answer once a registered account has been stored.
pub fn user_created_reply(user: User) -> (r: Reply)
    ensures
        r.status == 201,
        r.body == Body::UserCreated(user),
{
    Reply { status: 201, body: Body::UserCreated(user) }
}

/// An account registered from a form signs in with the form's password: the
/// verdict is a token for the UUID its id is the text of, with its role.
pub proof fn lemma_registered_account_signs_in(user: User, form: NewUser)
    requires
        registered_from(user, form),
    ensures
        login_verdict(form.password@, Some(user)) matches LoginVerdict::Token { user_id, role }
            && uuid_hyphenated(user_id) == user.user_id@ && role == form.role@,
{
    let id = choose|id: u128|
        #![trigger uuid_hyphenated(id)]
        user.user_id@ == uuid_hyphenated(id) && uuid_parse(user.user_id@) == Some(id)
            && is_v4_uuid(id);
    assert(login_verdict(form.password@, Some(user)) == LoginVerdict::Token {
        user_id: id,
        role: user.role@,
    });
}

} // verus!
