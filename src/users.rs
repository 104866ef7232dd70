use vstd::prelude::*;
use crate::auth::JsonWebTokenClaims;
use crate::error::{ApiError, DbFailure};

verus! {

/// A user as responses show it: never with the password.
pub struct AllUsers {
    pub id: i32,
    pub name: String,
    pub email: String,
}

pub struct RegisterUser {
    pub name: String,
    pub email: String,
    pub password: String,
}

pub struct LoginUser {
    pub email: String,
    pub password: String,
}

pub struct UpdateUser {
    pub name: String,
    pub email: String,
    pub password: String,
}

/// A row of the users table.
pub struct StoredUser {
    pub id: i32,
    pub username: String,
    pub email: String,
    pub password: String,
}

/// The values that an insert or an update of a user writes.
pub struct UserWrite {
    pub name: String,
    pub email: String,
    pub password_hash: String,
}

/// How long an issued token stays valid, in seconds.
pub const TOKEN_LIFETIME_SECS: i64 = 86400;

#[verifier::external_type_specification]
#[verifier::external_body]
pub struct ExBcryptError(bcrypt::BcryptError);

/// What bcrypt's verification answers for `password` against the stored
/// `hash`: whether it matches, or None where the hash cannot be read.
pub uninterp spec fn bcrypt_verdict(password: Seq<char>, hash: Seq<char>) -> Option<bool>;

/// Whether bcrypt accepts `password` against the stored `hash`.
pub open spec fn bcrypt_accepts(password: Seq<char>, hash: Seq<char>) -> bool {
    bcrypt_verdict(password, hash) == Some(true)
}

/// The shape of a bcrypt hash at cost 12: "$2b$12$", then 22 characters of
/// salt and 31 of digest.
pub open spec fn is_bcrypt_hash(h: Seq<char>) -> bool {
    h.len() == 60 && h.subrange(0, 7) == seq!['$', '2', 'b', '$', '1', '2', '$']
}

/// Relies on bcrypt::hash at bcrypt::DEFAULT_COST (12): it draws a random
/// salt and formats the result as "$2b$12$" followed by the salt and the
/// digest in bcrypt's base64. It fails only where no randomness is had. The
/// hash records its salt and cost, so bcrypt::verify, which hashes the
/// password again with them, accepts the password against it.
#[verifier::external_body]
fn hash_password(password: &str) -> (r: Result<String, bcrypt::BcryptError>)
    ensures
        r matches Ok(h) ==> is_bcrypt_hash(h@) && bcrypt_accepts(password@, h@),
{
    bcrypt::hash(password, bcrypt::DEFAULT_COST)
}

/// Relies on bcrypt::verify: whether the password, hashed with the salt and
/// cost that `hash` records, gives the digest that it records. It fails on a
/// hash that it cannot split or decode.
#[verifier::external_body]
fn verify_password(password: &str, hash: &str) -> (r: Result<bool, bcrypt::BcryptError>)
    ensures
        match r {
            Ok(b) => bcrypt_verdict(password@, hash@) == Some(b),
            Err(_) => bcrypt_verdict(password@, hash@) is None,
        },
{
    bcrypt::verify(password, hash)
}

/// Relies on chrono::Utc::now: the current time in whole seconds since the
/// epoch. It panics rather than return a time before the epoch.
#[verifier::external_body]
fn unix_now() -> (r: i64)
    ensures
        r >= 0,
{
    chrono::Utc::now().timestamp()
}

/// Projects stored rows to their public fields, in the same order.
pub fn list_users(rows: &Vec<StoredUser>) -> (r: Vec<AllUsers>)
    ensures
        r@.len() == rows@.len(),
        forall|i: int|
            0 <= i < rows@.len() ==> (#[trigger] r@[i]).id == rows@[i].id && r@[i].name@
                == rows@[i].username@ && r@[i].email@ == rows@[i].email@,
{
    let mut out: Vec<AllUsers> = Vec::new();
    let mut i: usize = 0;
    while i < rows.len()
        invariant
            i <= rows@.len(),
            out@.len() == i,
            forall|j: int|
                0 <= j < i ==> (#[trigger] out@[j]).id == rows@[j].id && out@[j].name@
                    == rows@[j].username@ && out@[j].email@ == rows@[j].email@,
        decreases rows@.len() - i,
    {
        let row = &rows[i];
        out.push(AllUsers { id: row.id, name: row.username.clone(), email: row.email.clone() });
        i = i + 1;
    }
    out
}

/// The response to the listing of users: every row projected, in order, or
/// Internal where the statement failed.
pub fn users_listed(result: Result<Vec<StoredUser>, DbFailure>) -> (r: Result<Vec<AllUsers>, ApiError>)
    ensures
        match result {
            Ok(rows) => r matches Ok(out) && out@.len() == rows@.len() && forall|i: int|
                0 <= i < rows@.len() ==> (#[trigger] out@[i]).id == rows@[i].id && out@[i].name@
                    == rows@[i].username@ && out@[i].email@ == rows@[i].email@,
            Err(_) => r matches Err(e) && e == ApiError::Internal,
        },
{
    match result {
        Ok(rows) => Ok(list_users(&rows)),
        Err(_) => Err(ApiError::Internal),
    }
}

/// What a write of a user stores for the given profile fields and password:
/// the same name and email, and in place of the password a bcrypt hash that
/// the password verifies against.
pub open spec fn written_from(
    w: UserWrite,
    name: Seq<char>,
    email: Seq<char>,
    password: Seq<char>,
) -> bool {
    w.name@ == name && w.email@ == email && is_bcrypt_hash(w.password_hash@) && bcrypt_accepts(
        password,
        w.password_hash@,
    )
}

fn user_write(name: &String, email: &String, password: &String) -> (r: Result<UserWrite, ApiError>)
    ensures
        match r {
            Ok(w) => written_from(w, name@, email@, password@),
            Err(e) => e == ApiError::Internal,
        },
{
    match hash_password(password.as_str()) {
        Ok(h) => Ok(UserWrite { name: name.clone(), email: email.clone(), password_hash: h }),
        Err(_) => Err(ApiError::Internal),
    }
}

/// The values that registering `user` inserts, with the password hashed.
/// Fails with Internal only where hashing fails.
pub fn prepare_registration(user: &RegisterUser) -> (r: Result<UserWrite, ApiError>)
    ensures
        match r {
            Ok(w) => written_from(w, user.name@, user.email@, user.password@),
            Err(e) => e == ApiError::Internal,
        },
{
    user_write(&user.name, &user.email, &user.password)
}

/// The values that updating a user to `user` writes. The password is hashed
/// again in every case: an update always resends it.
pub fn prepare_update(user: &UpdateUser) -> (r: Result<UserWrite, ApiError>)
    ensures
        match r {
            Ok(w) => written_from(w, user.name@, user.email@, user.password@),
            Err(e) => e == ApiError::Internal,
        },
{
    user_write(&user.name, &user.email, &user.password)
}

/// The hash invariant: for a registration whose password is not itself
/// shaped as a bcrypt hash, what is stored never equals the plaintext.
pub proof fn lemma_stored_password_is_not_plaintext(user: RegisterUser, w: UserWrite)
    requires
        written_from(w, user.name@, user.email@, user.password@),
        !is_bcrypt_hash(user.password@),
    ensures
        w.password_hash@ != user.password@,
{
}

/// The response to an insert of a user: the created user, or Internal for
/// any failure of the statement (a duplicate email among them).
pub fn registered(result: Result<AllUsers, DbFailure>) -> (r: Result<AllUsers, ApiError>)
    ensures
        match result {
            Ok(u) => r == Ok::<AllUsers, ApiError>(u),
            Err(_) => r == Err::<AllUsers, ApiError>(ApiError::Internal),
        },
{
    match result {
        Ok(u) => Ok(u),
        Err(_) => Err(ApiError::Internal),
    }
}

/// The response to an update of a user: the updated user; NotFound where no
/// row had the id; Internal where the statement failed.
pub fn updated(result: Result<Option<AllUsers>, DbFailure>) -> (r: Result<AllUsers, ApiError>)
    ensures
        match result {
            Ok(Some(u)) => r == Ok::<AllUsers, ApiError>(u),
            Ok(None) => r == Err::<AllUsers, ApiError>(ApiError::NotFound),
            Err(_) => r == Err::<AllUsers, ApiError>(ApiError::Internal),
        },
{
    match result {
        Ok(Some(u)) => Ok(u),
        Ok(None) => Err(ApiError::NotFound),
        Err(_) => Err(ApiError::Internal),
    }
}

/// The response to a delete of a user, given the number of rows removed:
/// success whether or not a row was removed; Internal where the statement
/// failed.
pub fn deleted(result: Result<u64, DbFailure>) -> (r: Result<(), ApiError>)
    ensures
        r is Ok <==> result is Ok,
        r is Err ==> r == Err::<(), ApiError>(ApiError::Internal),
{
    match result {
        Ok(_) => Ok(()),
        Err(_) => Err(ApiError::Internal),
    }
}

/// Login needs both fields: BadRequest where either is empty.
pub fn login_fields(body: &LoginUser) -> (r: Result<(), ApiError>)
    ensures
        r is Ok <==> (body.email@.len() > 0 && body.password@.len() > 0),
        r is Err ==> r == Err::<(), ApiError>(ApiError::BadRequest),
{
    if body.email.as_str().is_empty() || body.password.as_str().is_empty() {
        Err(ApiError::BadRequest)
    } else {
        Ok(())
    }
}

/// The answer of a login, as (subject, expiry, name, email) of the claims
/// to sign. An unknown email and a wrong password give the same NotFound.
pub open spec fn login_decision(found: Option<StoredUser>, password_valid: bool, now: i64) -> Result<
    (int, int, Seq<char>, Seq<char>),
    ApiError,
> {
    match found {
        None => Err(ApiError::NotFound),
        Some(u) => if !password_valid {
            Err(ApiError::NotFound)
        } else if 0 <= now + TOKEN_LIFETIME_SECS <= usize::MAX {
            Ok((u.id as int, now + TOKEN_LIFETIME_SECS, u.username@, u.email@))
        } else {
            Err(ApiError::Internal)
        },
    }
}

pub open spec fn claims_view(r: Result<JsonWebTokenClaims, ApiError>) -> Result<
    (int, int, Seq<char>, Seq<char>),
    ApiError,
> {
    match r {
        Ok(c) => Ok((c.sub as int, c.exp as int, c.name@, c.email@)),
        Err(e) => Err(e),
    }
}

/// The claims to sign for a login, given the user that the email found, the
/// password check, and the time now in seconds: valid for one day.
pub fn issue_claims(found: Option<StoredUser>, password_valid: bool, now: i64) -> (r: Result<
    JsonWebTokenClaims,
    ApiError,
>)
    ensures
        claims_view(r) == login_decision(found, password_valid, now),
{
    match found {
        None => Err(ApiError::NotFound),
        Some(u) => {
            if !password_valid {
                return Err(ApiError::NotFound);
            }
            if now < -TOKEN_LIFETIME_SECS {
                return Err(ApiError::Internal);
            }
            let expiry: u64 = if now >= 0 {
                now as u64 + TOKEN_LIFETIME_SECS as u64
            } else {
                (now + TOKEN_LIFETIME_SECS) as u64
            };
            if expiry > usize::MAX as u64 {
                return Err(ApiError::Internal);
            }
            Ok(
                JsonWebTokenClaims {
                    sub: u.id,
                    exp: expiry as usize,
                    name: u.username,
                    email: u.email,
                },
            )
        },
    }
}

/// A login: BadRequest where a field is empty; Internal where the lookup or
/// the password check failed; NotFound, the same in both cases, where no
/// user has the email or the password is wrong; else the claims of the
/// user found, valid for one day from now.
pub fn login(body: &LoginUser, found: Result<Option<StoredUser>, DbFailure>) -> (r: Result<
    JsonWebTokenClaims,
    ApiError,
>)
    ensures
        !(body.email@.len() > 0 && body.password@.len() > 0) ==> r == Err::<
            JsonWebTokenClaims,
            ApiError,
        >(ApiError::BadRequest),
        body.email@.len() > 0 && body.password@.len() > 0 ==> match found {
            Err(_) => r == Err::<JsonWebTokenClaims, ApiError>(ApiError::Internal),
            Ok(None) => r == Err::<JsonWebTokenClaims, ApiError>(ApiError::NotFound),
            Ok(Some(u)) => (match r {
                Ok(c) => bcrypt_accepts(body.password@, u.password@) && c.sub == u.id
                    && c.name@ == u.username@ && c.email@ == u.email@,
                Err(ApiError::NotFound) => bcrypt_verdict(body.password@, u.password@) == Some(
                    false,
                ),
                Err(e) => e == ApiError::Internal && (bcrypt_verdict(body.password@, u.password@) is None
                    || i64::MAX + TOKEN_LIFETIME_SECS > usize::MAX),
            }) && (bcrypt_accepts(body.password@, u.password@) && i64::MAX + TOKEN_LIFETIME_SECS
                <= usize::MAX ==> r is Ok),
        },
{
    if login_fields(body).is_err() {
        return Err(ApiError::BadRequest);
    }
    match found {
        Err(_) => Err(ApiError::Internal),
        Ok(None) => Err(ApiError::NotFound),
        Ok(Some(u)) => {
            match verify_password(body.password.as_str(), u.password.as_str()) {
                Err(_) => Err(ApiError::Internal),
                Ok(valid) => {
                    let now = unix_now();
                    issue_claims(Some(u), valid, now)
                },
            }
        },
    }
}

/// Logging in: an unknown email and a wrong password get the same answer,
/// NotFound; the right password gets claims whose subject is the user's id.
pub proof fn lemma_login_outcomes(u: StoredUser, now: i64)
    ensures
        login_decision(None, true, now) == login_decision(Some(u), false, now),
        login_decision(Some(u), false, now) == Err::<(int, int, Seq<char>, Seq<char>), ApiError>(
            ApiError::NotFound,
        ),
        0 <= now + TOKEN_LIFETIME_SECS <= usize::MAX ==> (login_decision(Some(u), true, now) matches Ok(
            t,
        ) && t.0 == u.id),
{
}

/// The body of a successful login.
pub struct TokenResponse {
    pub data: String,
}

pub fn token_response(token: String) -> (r: TokenResponse)
    ensures
        r.data == token,
{
    TokenResponse { data: token }
}

} // verus!
