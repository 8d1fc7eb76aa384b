//! Accounts: the shape rules on names and passwords, salted password hashes, and
//! the records that the users table holds.

use vstd::prelude::*;
use crate::bindings::{
    argon2_accepts, argon2_hash, argon2_phc, argon2_verify, fits_argon2, is_argon2_hash,
    is_generated_salt, is_uuid_text, new_uuid, random_salt, rfc3339_now, argon2_default_head,
};

verus! {

/// Fewest characters in a username.
pub const MIN_USERNAME_CHARS: usize = 3;

/// Most characters in a username.
pub const MAX_USERNAME_CHARS: usize = 50;

/// Fewest characters in a password.
pub const MIN_PASSWORD_CHARS: usize = 6;

/// One account. `password_hash` is an Argon2 PHC string and never leaves the server.
#[derive(Debug, Clone, PartialEq, Eq)]
pub struct User {
    pub id: String,
    pub username: String,
    pub password_hash: String,
    pub created_at: String,
}

/// A signup request.
#[derive(Debug, Clone, PartialEq, Eq)]
pub struct CreateUserRequest {
    pub username: String,
    pub password: String,
}

/// What clients see of an account.
#[derive(Debug, Clone, PartialEq, Eq)]
pub struct UserResponse {
    pub id: String,
    pub username: String,
    pub created_at: String,
}

/// The public projection of an account.
pub open spec fn user_response_of(u: User) -> UserResponse {
    UserResponse { id: u.id, username: u.username, created_at: u.created_at }
}

impl From<User> for UserResponse {
    fn from(user: User) -> (r: UserResponse)
        ensures
            r == user_response_of(user),
    {
        UserResponse { id: user.id, username: user.username, created_at: user.created_at }
    }
}

impl vstd::std_specs::convert::FromSpecImpl<User> for UserResponse {
    open spec fn obeys_from_spec() -> bool {
        true
    }

    open spec fn from_spec(user: User) -> UserResponse {
        user_response_of(user)
    }
}

/// Why an account operation failed.
#[derive(Debug, Clone, PartialEq, Eq)]
pub enum UserError {
    /// The database reported an error; the text is for the log only.
    DatabaseError(String),
    PasswordHashError,
    UsernameExists,
    UserNotFound,
    InvalidPassword,
    InvalidUsername,
}

impl UserError {
    /// A line for the log.
    pub fn message(&self) -> (r: String)
        ensures
            r@ == match self {
                UserError::DatabaseError(e) => "Database error: "@ + e@,
                UserError::PasswordHashError => "Failed to hash password"@,
                UserError::UsernameExists => "Username already exists"@,
                UserError::UserNotFound => "User not found"@,
                UserError::InvalidPassword => "Invalid password"@,
                UserError::InvalidUsername => "Invalid username"@,
            },
    {
        match self {
            UserError::DatabaseError(e) => {
                let mut s = String::from_str("Database error: ");
                s.append(e.as_str());
                s
            },
            UserError::PasswordHashError => String::from_str("Failed to hash password"),
            UserError::UsernameExists => String::from_str("Username already exists"),
            UserError::UserNotFound => String::from_str("User not found"),
            UserError::InvalidPassword => String::from_str("Invalid password"),
            UserError::InvalidUsername => String::from_str("Invalid username"),
        }
    }

    /// The error of a failed insert into the users table: a violated uniqueness
    /// constraint means the username is taken; anything else is a database error.
    pub fn from_insert_failure(unique_violation: bool, detail: String) -> (r: UserError)
        ensures
            r == if unique_violation {
                UserError::UsernameExists
            } else {
                UserError::DatabaseError(detail)
            },
    {
        if unique_violation {
            UserError::UsernameExists
        } else {
            UserError::DatabaseError(detail)
        }
    }
}

/// A username has between `MIN_USERNAME_CHARS` and `MAX_USERNAME_CHARS` characters.
pub open spec fn valid_username(username: Seq<char>) -> bool {
    MIN_USERNAME_CHARS <= username.len() <= MAX_USERNAME_CHARS
}

/// A password has at least `MIN_PASSWORD_CHARS` characters.
pub open spec fn valid_password(password: Seq<char>) -> bool {
    password.len() >= MIN_PASSWORD_CHARS
}

/// The shape error of a signup, if any; the username is checked first.
pub open spec fn credential_error(username: Seq<char>, password: Seq<char>) -> Option<UserError> {
    if !valid_username(username) {
        Some(UserError::InvalidUsername)
    } else if !valid_password(password) {
        Some(UserError::InvalidPassword)
    } else {
        None
    }
}

/// Checks the shape of a signup, before any hashing or storage.
pub fn validate_credentials(username: &str, password: &str) -> (r: Result<(), UserError>)
    ensures
        r == match credential_error(username@, password@) {
            Some(e) => Err(e),
            None => Ok::<(), UserError>(()),
        },
{
    let name_len = username.unicode_len();
    if name_len < MIN_USERNAME_CHARS || name_len > MAX_USERNAME_CHARS {
        return Err(UserError::InvalidUsername);
    }
    if password.unicode_len() < MIN_PASSWORD_CHARS {
        return Err(UserError::InvalidPassword);
    }
    Ok(())
}

/// Hashes a password with Argon2 under a fresh random salt. Every password of at
/// most `u32::MAX` bytes is hashed.
pub fn hash_password(password: &str) -> (r: Result<String, UserError>)
    ensures
        r is Ok ==> exists|salt: Seq<char>|
            is_generated_salt(salt) && #[trigger] argon2_phc(password@, salt) == r->Ok_0@,
        r is Ok ==> is_argon2_hash(r->Ok_0@),
        r is Ok <==> fits_argon2(password@),
        r is Err ==> r->Err_0 == UserError::PasswordHashError,
{
    let salt = random_salt();
    match argon2_hash(password, salt.as_str()) {
        Ok(hash) => {
            proof {
                assert(is_generated_salt(salt@) && fits_argon2(password@) && argon2_phc(
                    password@,
                    salt@,
                ) == hash@);
            }
            Ok(hash)
        },
        Err(_) => Err(UserError::PasswordHashError),
    }
}

/// Whether `password` matches a stored hash. A hash that Argon2 made is always read,
/// and the password it was made from always matches it. A stored string that
/// cannot be read is an `InvalidPassword` error.
pub fn verify_password(password: &str, password_hash: &str) -> (r: Result<bool, UserError>)
    ensures
        r is Ok ==> r->Ok_0 == argon2_accepts(password@, password_hash@),
        r is Err ==> r->Err_0 == UserError::InvalidPassword,
        is_argon2_hash(password_hash@) ==> r is Ok,
        forall|salt: Seq<char>|
            is_generated_salt(salt) && fits_argon2(password@) && #[trigger] argon2_phc(
                password@,
                salt,
            ) == password_hash@ ==> r == Ok::<bool, UserError>(true),
{
    match argon2_verify(password, password_hash) {
        Ok(matches) => Ok(matches),
        Err(_) => Err(UserError::InvalidPassword),
    }
}

impl User {
    /// Whether `password` is this account's password.
    pub fn verify_password(&self, password: &str) -> (r: Result<bool, UserError>)
        ensures
            r is Ok ==> r->Ok_0 == argon2_accepts(password@, self.password_hash@),
            r is Err ==> r->Err_0 == UserError::InvalidPassword,
            is_argon2_hash(self.password_hash@) ==> r is Ok,
            forall|salt: Seq<char>|
                is_generated_salt(salt) && fits_argon2(password@) && #[trigger] argon2_phc(
                    password@,
                    salt,
                ) == self.password_hash@ ==> r == Ok::<bool, UserError>(true),
    {
        verify_password(password, self.password_hash.as_str())
    }
}

/// The record of a new account, ready to insert: the shape of the signup is checked
/// first, so that a refused signup yields no record; then the password is hashed
/// under a fresh salt, and the account gets a fresh id and the current time. Every
/// signup of valid shape whose password Argon2 takes yields a record.
pub fn new_user(username: &str, password: &str) -> (r: Result<User, UserError>)
    ensures
        credential_error(username@, password@) is Some ==> r == Err::<User, UserError>(
            credential_error(username@, password@)->0,
        ),
        credential_error(username@, password@) is None ==> {
            &&& fits_argon2(password@) ==> r is Ok
            &&& r is Err ==> r->Err_0 == UserError::PasswordHashError
            &&& r is Ok ==> {
                &&& r->Ok_0.username@ == username@
                &&& is_uuid_text(r->Ok_0.id@)
                &&& exists|salt: Seq<char>|
                    is_generated_salt(salt) && #[trigger] argon2_phc(password@, salt)
                        == r->Ok_0.password_hash@
                &&& is_argon2_hash(r->Ok_0.password_hash@)
            }
        },
{
    validate_credentials(username, password)?;
    let password_hash = hash_password(password)?;
    let id = new_uuid();
    let created_at = rfc3339_now();
    Ok(User { id, username: String::from_str(username), password_hash, created_at })
}

/// For every username of valid shape, a password shorter than
/// `MIN_PASSWORD_CHARS` is the signup's shape error, `InvalidPassword`; by the
/// contract of `new_user`, such a signup then yields no record.
pub proof fn lemma_short_password_refused(username: Seq<char>, password: Seq<char>)
    requires
        valid_username(username),
        password.len() < MIN_PASSWORD_CHARS,
    ensures
        credential_error(username, password) == Some(UserError::InvalidPassword),
{
}

/// A password hashed under two different generated salts gives two different
/// stored strings, since the string carries its salt; so two accounts with the same
/// password do not share a hash.
pub proof fn lemma_salted_hashes_differ(password: Seq<char>, salt1: Seq<char>, salt2: Seq<char>)
    requires
        is_generated_salt(salt1),
        is_generated_salt(salt2),
        salt1 != salt2,
    ensures
        argon2_phc(password, salt1) != argon2_phc(password, salt2),
{
    let head = argon2_default_head() + seq!['$'];
    let h1 = argon2_phc(password, salt1);
    let h2 = argon2_phc(password, salt2);
    let n = head.len() as int;
    assert(h1.subrange(n, n + 22) =~= salt1);
    assert(h2.subrange(n, n + 22) =~= salt2);
}

} // verus!
