//! Sessions: the signing keys derived from the shared secret, the claims that a
//! token carries, the `Authorization` header, and the errors of authentication.

use vstd::prelude::*;
use vstd::std_specs::iter::IteratorSpec;
use jsonwebtoken::{DecodingKey, EncodingKey};
use crate::bindings::{
    argon2_accepts, argon2_phc, ed25519_pkcs8_der, ed25519_public_key, fits_argon2,
    is_argon2_hash, is_generated_salt, seed_pkcs8_der, seed_public_key, unix_now,
};
use crate::user::{hash_password, verify_password, User, UserError, UserResponse};

verus! {

/// Length in bytes of the Ed25519 seed.
pub const SEED_LEN: usize = 32;

/// How long a token is valid, in seconds (24 hours).
pub const TOKEN_LIFETIME_SECS: i64 = 24 * 60 * 60;

/// The seed derived from a secret: the secret's bytes, repeated from the start
/// until 32 bytes are filled; a longer secret is cut.
pub open spec fn seed_of(secret: Seq<u8>) -> Seq<u8> {
    Seq::new(SEED_LEN as nat, |i: int| secret[i % (secret.len() as int)])
}

/// The Ed25519 seed of a shared secret.
pub fn derive_seed(secret: &[u8]) -> (r: [u8; 32])
    requires
        secret@.len() > 0,
    ensures
        r@ == seed_of(secret@),
{
    let mut seed = [0u8; 32];
    let len = secret.len();
    let mut i: usize = 0;
    while i < SEED_LEN
        invariant
            i <= SEED_LEN,
            len == secret@.len(),
            len > 0,
            seed@.len() == SEED_LEN,
            forall|j: int| 0 <= j < i ==> seed@[j] == secret@[j % (len as int)],
        decreases SEED_LEN - i,
    {
        seed[i] = secret[i % len];
        i = i + 1;
    }
    proof {
        assert(seed@ =~= seed_of(secret@));
    }
    seed
}

/// The EdDSA key pair that signs and checks tokens, with the public half as bytes.
pub struct Keys {
    pub encoding: EncodingKey,
    pub decoding: DecodingKey,
    /// The compressed public point that `decoding` checks against.
    pub public_key: Vec<u8>,
}

impl Keys {
    /// The key pair of a non-empty shared secret: the Ed25519 key pair of
    /// `derive_seed(secret)`; its private half, as PKCS#8 DER, signs, and its raw
    /// public half checks. `None` exactly where the private key cannot be written as
    /// PKCS#8, which depends on the seed alone.
    pub fn new(secret: &[u8]) -> (r: Option<Keys>)
        requires
            secret@.len() > 0,
        ensures
            r is Some <==> ed25519_pkcs8_der(seed_of(secret@)) is Some,
            r is Some ==> r->0.public_key@ == ed25519_public_key(seed_of(secret@)),
    {
        let seed = derive_seed(secret);
        let private_der = match seed_pkcs8_der(&seed) {
            Ok(der) => der,
            Err(_) => {
                return None;
            },
        };
        let public_key = seed_public_key(&seed);
        let decoding = DecodingKey::from_ed_der(public_key.as_slice());
        Some(
            Keys {
                encoding: EncodingKey::from_ed_der(private_der.as_slice()),
                decoding,
                public_key,
            },
        )
    }
}

/// What a token says: who holds it, and until when (seconds since the Unix epoch).
#[derive(Debug, Clone, PartialEq, Eq)]
pub struct Claims {
    pub user_id: String,
    pub username: String,
    pub exp: usize,
}

/// The expiry of a token issued at `now`, kept within `usize`.
pub open spec fn expiry_at(now: i64) -> usize {
    let t = now + TOKEN_LIFETIME_SECS;
    if t < 0 {
        0
    } else if t > usize::MAX {
        usize::MAX
    } else {
        t as usize
    }
}

impl Claims {
    /// The claims of a token issued at `now` to a user.
    pub fn expiring_at(user_id: &str, username: &str, now: i64) -> (r: Claims)
        ensures
            r.user_id@ == user_id@,
            r.username@ == username@,
            r.exp == expiry_at(now),
    {
        let t: i128 = now as i128 + TOKEN_LIFETIME_SECS as i128;
        let exp: usize = if t < 0 {
            0
        } else if t > usize::MAX as i128 {
            usize::MAX
        } else {
            t as usize
        };
        Claims { user_id: String::from_str(user_id), username: String::from_str(username), exp }
    }

    /// The claims of a token issued now to a user.
    pub fn issue(user_id: &str, username: &str) -> (r: Claims)
        ensures
            r.user_id@ == user_id@,
            r.username@ == username@,
            exists|now: i64| r.exp == #[trigger] expiry_at(now),
    {
        let now = unix_now();
        Claims::expiring_at(user_id, username, now)
    }
}

/// The answer to a signup or a login: a bearer token and the account.
#[derive(Debug, Clone, PartialEq, Eq)]
pub struct AuthBody {
    pub access_token: String,
    pub token_type: String,
    pub user: UserResponse,
}

impl AuthBody {
    /// A bearer-token answer.
    pub fn new(access_token: String, user: UserResponse) -> (r: AuthBody)
        ensures
            r.access_token == access_token,
            r.token_type@ == "Bearer"@,
            r.user == user,
    {
        AuthBody { access_token, token_type: String::from_str("Bearer"), user }
    }
}

/// A login request.
#[derive(Debug, Clone, PartialEq, Eq)]
pub struct LoginRequest {
    pub username: String,
    pub password: String,
}

/// Why authentication failed.
#[derive(Debug, Clone, Copy, PartialEq, Eq, Structural)]
pub enum AuthError {
    WrongCredentials,
    MissingCredentials,
    TokenCreation,
    InvalidToken,
    UsernameExists,
    InvalidUsername,
    InvalidPassword,
    StorageError,
    InternalError,
}

impl AuthError {
    /// The HTTP status of the error.
    pub fn status_code(&self) -> (r: u16)
        ensures
            r == match self {
                AuthError::WrongCredentials => 401u16,
                AuthError::TokenCreation | AuthError::StorageError | AuthError::InternalError => 500u16,
                _ => 400u16,
            },
    {
        match self {
            AuthError::WrongCredentials => 401,
            AuthError::TokenCreation | AuthError::StorageError | AuthError::InternalError => 500,
            AuthError::MissingCredentials | AuthError::InvalidToken | AuthError::UsernameExists
            | AuthError::InvalidUsername | AuthError::InvalidPassword => 400,
        }
    }

    /// The message that a client sees.
    pub fn message(&self) -> (r: &'static str)
        ensures
            r@ == match self {
                AuthError::WrongCredentials => "Wrong credentials"@,
                AuthError::MissingCredentials => "Missing credentials"@,
                AuthError::TokenCreation => "Token creation error"@,
                AuthError::InvalidToken => "Invalid token"@,
                AuthError::UsernameExists => "Username already exists"@,
                AuthError::InvalidUsername => "Invalid username (must be 3-50 characters)"@,
                AuthError::InvalidPassword => "Invalid password (must be at least 6 characters)"@,
                AuthError::StorageError => "Failed to create user storage"@,
                AuthError::InternalError => "Internal server error"@,
            },
    {
        match self {
            AuthError::WrongCredentials => "Wrong credentials",
            AuthError::MissingCredentials => "Missing credentials",
            AuthError::TokenCreation => "Token creation error",
            AuthError::InvalidToken => "Invalid token",
            AuthError::UsernameExists => "Username already exists",
            AuthError::InvalidUsername => "Invalid username (must be 3-50 characters)",
            AuthError::InvalidPassword => "Invalid password (must be at least 6 characters)",
            AuthError::StorageError => "Failed to create user storage",
            AuthError::InternalError => "Internal server error",
        }
    }
}

/// How a failed signup shows to the client: shape errors and a taken name are told
/// as such, anything else is an internal error.
pub open spec fn auth_error_of(e: UserError) -> AuthError {
    match e {
        UserError::UsernameExists => AuthError::UsernameExists,
        UserError::InvalidUsername => AuthError::InvalidUsername,
        UserError::InvalidPassword => AuthError::InvalidPassword,
        _ => AuthError::InternalError,
    }
}

impl From<UserError> for AuthError {
    fn from(e: UserError) -> (r: AuthError)
        ensures
            r == auth_error_of(e),
    {
        match e {
            UserError::UsernameExists => AuthError::UsernameExists,
            UserError::InvalidUsername => AuthError::InvalidUsername,
            UserError::InvalidPassword => AuthError::InvalidPassword,
            _ => AuthError::InternalError,
        }
    }
}

impl vstd::std_specs::convert::FromSpecImpl<UserError> for AuthError {
    open spec fn obeys_from_spec() -> bool {
        true
    }

    open spec fn from_spec(e: UserError) -> AuthError {
        auth_error_of(e)
    }
}

/// The scheme that precedes a token in the `Authorization` header.
pub open spec fn bearer_prefix() -> Seq<char> {
    seq!['B', 'e', 'a', 'r', 'e', 'r', ' ']
}

/// The token of an `Authorization` header, if the header reads `Bearer <token>`.
pub open spec fn bearer_token_of(header: Seq<char>) -> Option<Seq<char>> {
    if header.len() >= bearer_prefix().len() && header.take(bearer_prefix().len() as int)
        == bearer_prefix() {
        Some(header.skip(bearer_prefix().len() as int))
    } else {
        None
    }
}

/// The token of a request, from its `Authorization` header (`None` where the request
/// has none, or none that is text): a missing header is `MissingCredentials`, one
/// that is not `Bearer <token>` is `InvalidToken`.
pub fn bearer_token(authorization: Option<&str>) -> (r: Result<String, AuthError>)
    ensures
        authorization is None ==> r == Err::<String, AuthError>(AuthError::MissingCredentials),
        authorization is Some ==> match bearer_token_of(authorization->0@) {
            Some(t) => r is Ok && r->Ok_0@ == t,
            None => r == Err::<String, AuthError>(AuthError::InvalidToken),
        },
{
    let header = match authorization {
        None => {
            return Err(AuthError::MissingCredentials);
        },
        Some(h) => h,
    };
    let prefix = ['B', 'e', 'a', 'r', 'e', 'r', ' '];
    let ghost p = bearer_prefix();
    proof {
        assert(prefix@ =~= p);
    }
    let mut matched = true;
    let mut token = String::new();
    let mut n: usize = 0;
    for c in it: header.chars()
        invariant
            it.seq() == header@,
            prefix@ == p,
            p == bearer_prefix(),
            n == if it.index() < 7 { it.index() } else { 7 },
            matched == (it.seq().take(n as int) =~= p.take(n as int)),
            it.index() <= 7 ==> token@ == Seq::<char>::empty(),
            it.index() > 7 ==> token@ == it.seq().subrange(7, it.index() as int),
    {
        if n < 7 {
            proof {
                assert(it.seq().take(n + 1) =~= it.seq().take(n as int).push(c));
                assert(p.take(n + 1) =~= p.take(n as int).push(p[n as int]));
            }
            if c != prefix[n] {
                matched = false;
                proof {
                    assert(it.seq().take(n + 1)[n as int] != p.take(n + 1)[n as int]);
                }
            }
            n = n + 1;
        } else {
            proof {
                assert(it.seq().subrange(7, it.index() + 1) =~= it.seq().subrange(
                    7,
                    it.index() as int,
                ).push(c));
            }
            token.push(c);
        }
    }
    proof {
        assert(p.take(7) =~= p);
        if header@.len() >= 7 {
            assert(header@.skip(7) =~= header@.subrange(7, header@.len() as int));
        }
    }
    if matched && n == 7 {
        Ok(token)
    } else {
        Err(AuthError::InvalidToken)
    }
}

/// The login decision for the account found under the given name, if any: an
/// unknown name and a wrong password both end in `WrongCredentials`, and the right
/// password lets the account in. Only a stored string that Argon2 did not make, and
/// that cannot be read, ends in `InternalError`.
pub fn check_login(user: Option<User>, password: &str) -> (r: Result<User, AuthError>)
    ensures
        user is None ==> r == Err::<User, AuthError>(AuthError::WrongCredentials),
        user is Some ==> {
            &&& r is Ok ==> r->Ok_0 == user->0 && argon2_accepts(
                password@,
                user->0.password_hash@,
            )
            &&& r is Err ==> (r->Err_0 == AuthError::WrongCredentials && !argon2_accepts(
                password@,
                user->0.password_hash@,
            )) || r->Err_0 == AuthError::InternalError
        },
        user is Some && is_argon2_hash(user->0.password_hash@) ==> {
            &&& (r is Ok <==> argon2_accepts(password@, user->0.password_hash@))
            &&& (r is Err ==> r->Err_0 == AuthError::WrongCredentials)
        },
        forall|salt: Seq<char>|
            user is Some && is_generated_salt(salt) && fits_argon2(password@) && #[trigger] argon2_phc(
                password@,
                salt,
            ) == user->0.password_hash@ ==> r == Ok::<User, AuthError>(user->0),
{
    match user {
        None => {
            // The same Argon2 work as for a known name, so that the two failures
            // take alike time.
            let _ = hash_password(password);
            Err(AuthError::WrongCredentials)
        },
        Some(u) => match verify_password(password, u.password_hash.as_str()) {
            Ok(true) => Ok(u),
            Ok(false) => Err(AuthError::WrongCredentials),
            Err(_) => Err(AuthError::InternalError),
        },
    }
}

} // verus!
