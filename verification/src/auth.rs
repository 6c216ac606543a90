use vstd::prelude::*;

verus! {

/// A user record as the credential store holds it. The core only reads
/// these; usernames are immutable after creation.
pub struct User {
    pub id: Option<i32>,
    pub username: String,
    pub display_name: Option<String>,
    pub email: String,
    pub password_hash: String,
    pub active_tokens: Vec<String>,
}

/// The login form body.
pub struct LoginForm {
    pub username: String,
    pub password: String,
}

/// The signup form body.
pub struct CreateUserForm {
    pub username: String,
    pub email: String,
    pub password: String,
    pub confirm_password: String,
}

/// The display-name change form body.
pub struct ChangeDisplayNameForm {
    pub display_name: String,
}

/// The friend-search form body.
pub struct FindFriendForm {
    pub search: String,
}

/// An unexpected failure in the credential flow, surfaced as an internal
/// error.
#[derive(Debug, Clone, Copy, PartialEq, Eq, Structural)]
pub enum AuthError {
    Internal,
}

/// Whether a string is a well-formed email address, as the address parser
/// decides it. Deterministic in the string alone.
pub uninterp spec fn is_valid_email(s: Seq<char>) -> bool;

/// Relies on email_address::EmailAddress::is_valid: a pure syntactic check
/// of the address grammar, a function of the string alone.
#[verifier::external_body]
fn email_is_valid(s: &String) -> (r: bool)
    ensures
        r == is_valid_email(s@),
{
    email_address::EmailAddress::is_valid(s)
}

/// Whether bcrypt accepts `password` against the stored `hash`.
/// Deterministic in the two strings alone.
pub uninterp spec fn bcrypt_matches(password: Seq<char>, hash: Seq<char>) -> bool;

/// Whether a stored string is a well-formed bcrypt hash: one that parses
/// as cost, salt and digest with an allowed cost. Deterministic in the
/// string alone; bcrypt's check fails exactly on the other strings.
pub uninterp spec fn bcrypt_hash_wellformed(hash: Seq<char>) -> bool;

/// Relies on bcrypt::verify: it parses the stored hash, recomputes with
/// the embedded salt and cost, and compares, so the outcome is
/// deterministic in password and stored hash, and it fails exactly when
/// the stored hash does not parse as a bcrypt string with an allowed
/// cost, which depends on the hash alone.
#[verifier::external_body]
fn password_matches(password: &String, hash: &String) -> (r: Result<bool, ()>)
    ensures
        r is Ok <==> bcrypt_hash_wellformed(hash@),
        r matches Ok(b) ==> b == bcrypt_matches(password@, hash@),
{
    bcrypt::verify(password, hash).map_err(|_| ())
}

/// Relies on bcrypt::hash at the crate's default cost: the salt is drawn
/// fresh, so nothing relates two hashes of one password, but the crate
/// documents that verify accepts the password a hash was produced from,
/// and its output is the standard 60-byte bcrypt string at an allowed
/// cost, which verify parses without error.
#[verifier::external_body]
fn hash_password(password: &String) -> (r: Result<String, ()>)
    ensures
        r matches Ok(h) ==> (bcrypt_matches(password@, h@) && bcrypt_hash_wellformed(h@)),
{
    bcrypt::hash(password, bcrypt::DEFAULT_COST).map_err(|_| ())
}

/// Whether a login identifier should be looked up as an email address
/// (the form's one field carries either the username or the email).
pub fn lookup_key_is_email(username_or_email: &String) -> (r: bool)
    ensures
        r == is_valid_email(username_or_email@),
{
    email_is_valid(username_or_email)
}

/// The outcome of a login attempt. A missing account and a wrong password
/// are deliberately the same answer to the client.
#[derive(Debug, Clone, Copy, PartialEq, Eq, Structural)]
pub enum LoginOutcome {
    Success { user_id: i32 },
    WrongCredentials,
}

/// The login decision, after the store's lookup of the identifier: the
/// attempt succeeds exactly when an account was found and bcrypt accepts
/// the password against its stored hash, and fails with the internal
/// error exactly when the account's stored hash is not a well-formed
/// bcrypt string.
pub fn check_login(lookup: Option<(i32, String)>, password: &String) -> (r: Result<
    LoginOutcome,
    AuthError,
>)
    ensures
        lookup is None ==> r == Ok::<LoginOutcome, AuthError>(LoginOutcome::WrongCredentials),
        lookup matches Some(entry) ==> match r {
            Ok(LoginOutcome::Success { user_id }) => user_id == entry.0 && bcrypt_hash_wellformed(
                entry.1@,
            ) && bcrypt_matches(password@, entry.1@),
            Ok(LoginOutcome::WrongCredentials) => bcrypt_hash_wellformed(entry.1@)
                && !bcrypt_matches(password@, entry.1@),
            Err(e) => e == AuthError::Internal && !bcrypt_hash_wellformed(entry.1@),
        },
{
    match lookup {
        None => Ok(LoginOutcome::WrongCredentials),
        Some((user_id, stored_hash)) => match password_matches(password, &stored_hash) {
            Ok(true) => Ok(LoginOutcome::Success { user_id }),
            Ok(false) => Ok(LoginOutcome::WrongCredentials),
            Err(_) => Err(AuthError::Internal),
        },
    }
}

/// Why a signup was rejected; each maps to the form field it faults.
#[derive(Debug, Clone, Copy, PartialEq, Eq, Structural)]
pub enum SignupRejection {
    PasswordMismatch,
    InvalidEmail,
    EmailTaken,
    UsernameTaken,
}

/// The signup validation chain in the order the account flow applies it:
/// matching passwords first, then a well-formed email, then email and
/// username uniqueness (the store's two existence checks are handed in).
pub open spec fn spec_check_signup(
    password: Seq<char>,
    confirm_password: Seq<char>,
    email_ok: bool,
    email_taken: bool,
    username_taken: bool,
) -> Result<(), SignupRejection> {
    if password != confirm_password {
        Err(SignupRejection::PasswordMismatch)
    } else if !email_ok {
        Err(SignupRejection::InvalidEmail)
    } else if email_taken {
        Err(SignupRejection::EmailTaken)
    } else if username_taken {
        Err(SignupRejection::UsernameTaken)
    } else {
        Ok(())
    }
}

pub fn check_signup(form: &CreateUserForm, email_taken: bool, username_taken: bool) -> (r: Result<
    (),
    SignupRejection,
>)
    ensures
        r == spec_check_signup(
            form.password@,
            form.confirm_password@,
            is_valid_email(form.email@),
            email_taken,
            username_taken,
        ),
{
    if !(form.password == form.confirm_password) {
        Err(SignupRejection::PasswordMismatch)
    } else if !email_is_valid(&form.email) {
        Err(SignupRejection::InvalidEmail)
    } else if email_taken {
        Err(SignupRejection::EmailTaken)
    } else if username_taken {
        Err(SignupRejection::UsernameTaken)
    } else {
        Ok(())
    }
}

/// Hashes a new password for storage. On success the stored hash is a
/// well-formed bcrypt string that accepts exactly this password, so a
/// later login with it is owed success.
pub fn hash_for_storage(password: &String) -> (r: Result<String, AuthError>)
    ensures
        r matches Ok(h) ==> (bcrypt_matches(password@, h@) && bcrypt_hash_wellformed(h@)),
        r matches Err(e) ==> e == AuthError::Internal,
{
    match hash_password(password) {
        Ok(h) => Ok(h),
        Err(_) => Err(AuthError::Internal),
    }
}

/// The display-name endpoint's one rule: an empty name is rejected
/// (user-correctable, 400-class); any other name is stored as given.
pub fn check_display_name(form: &ChangeDisplayNameForm) -> (r: bool)
    ensures
        r == (form.display_name@.len() != 0),
{
    !form.display_name.as_str().is_empty()
}


/// The logout decision: a logout request must still carry the session
/// cookie that authenticated it, and that token's row is the one to
/// delete. A logout request without a cookie cannot have been
/// authenticated, so it is an internal error, as the account flow treats
/// it.
pub fn check_logout(cookie: Option<String>) -> (r: Result<String, AuthError>)
    ensures
        match cookie {
            Some(token) => r matches Ok(t) && t == token,
            None => r == Err::<String, AuthError>(AuthError::Internal),
        },
{
    match cookie {
        Some(token) => Ok(token),
        None => Err(AuthError::Internal),
    }
}

} // verus!
