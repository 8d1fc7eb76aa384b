use jsonwebtoken::{Algorithm, Header, Validation};
use serde_json::Value;
use vaultfs::{
    bearer_token, check_login, derive_seed, new_user, AuthBody, AuthError, Claims, Keys,
    UserError, UserResponse, TOKEN_LIFETIME_SECS,
};

fn now_secs() -> i64 {
    std::time::SystemTime::now()
        .duration_since(std::time::UNIX_EPOCH)
        .unwrap()
        .as_secs() as i64
}

fn claims_value(c: &Claims) -> Value {
    let mut m = serde_json::Map::new();
    m.insert("user_id".to_string(), Value::String(c.user_id.clone()));
    m.insert("username".to_string(), Value::String(c.username.clone()));
    m.insert("exp".to_string(), Value::from(c.exp as u64));
    Value::Object(m)
}

fn sign(keys: &Keys, c: &Claims) -> String {
    jsonwebtoken::encode(&Header::new(Algorithm::EdDSA), &claims_value(c), &keys.encoding)
        .unwrap()
}

fn accepted(keys: &Keys, token: &str) -> bool {
    jsonwebtoken::decode::<Value>(token, &keys.decoding, &Validation::new(Algorithm::EdDSA)).is_ok()
}

#[test]
fn short_secret_repeats_to_fill_seed() {
    let seed = derive_seed(b"abc");
    for i in 0..32 {
        assert_eq!(seed[i], b"abc"[i % 3]);
    }
}

#[test]
fn long_secret_is_cut() {
    let secret: Vec<u8> = (0u8..40).collect();
    let seed = derive_seed(&secret);
    assert_eq!(seed.to_vec(), secret[..32].to_vec());
}

#[test]
fn keys_depend_on_seed_only() {
    let a = Keys::new(b"ab").unwrap();
    let b = Keys::new(b"abab").unwrap();
    let c = Keys::new(b"abc").unwrap();
    assert_eq!(a.public_key.len(), 32);
    assert_eq!(a.public_key, b.public_key);
    assert_ne!(a.public_key, c.public_key);
    let long1: Vec<u8> = (0u8..40).collect();
    let mut long2 = long1.clone();
    long2[39] = 0xff;
    assert_eq!(Keys::new(&long1).unwrap().public_key, Keys::new(&long2).unwrap().public_key);
    let token = sign(&a, &Claims::issue("u1", "alice"));
    assert!(accepted(&b, &token));
}

#[test]
fn token_accepted_before_expiry() {
    let keys = Keys::new(b"a shared secret").unwrap();
    let c = Claims::issue("u1", "alice");
    assert_eq!(c.user_id, "u1");
    let token = sign(&keys, &c);
    assert!(accepted(&keys, &token));
    let data =
        jsonwebtoken::decode::<Value>(&token, &keys.decoding, &Validation::new(Algorithm::EdDSA))
            .unwrap();
    assert_eq!(data.claims["username"], Value::String("alice".to_string()));
}

#[test]
fn token_rejected_after_expiry() {
    let keys = Keys::new(b"a shared secret").unwrap();
    let c = Claims::expiring_at("u1", "alice", now_secs() - TOKEN_LIFETIME_SECS - 3600);
    let token = sign(&keys, &c);
    assert!(!accepted(&keys, &token));
}

#[test]
fn tampered_signature_rejected() {
    let keys = Keys::new(b"a shared secret").unwrap();
    let token = sign(&keys, &Claims::issue("u1", "alice"));
    let mut bytes = token.into_bytes();
    let i = bytes.len() - 10;
    bytes[i] = if bytes[i] == b'A' { b'B' } else { b'A' };
    let tampered = String::from_utf8(bytes).unwrap();
    assert!(!accepted(&keys, &tampered));
}

#[test]
fn token_of_other_secret_rejected() {
    let keys = Keys::new(b"a shared secret").unwrap();
    let other = Keys::new(b"another secret").unwrap();
    let token = sign(&other, &Claims::issue("u1", "alice"));
    assert!(!accepted(&keys, &token));
}

#[test]
fn expiry_is_a_day_after_issue() {
    let c = Claims::expiring_at("u", "n", 1_700_000_000);
    assert_eq!(c.exp, 1_700_086_400);
    assert_eq!(Claims::expiring_at("u", "n", -100_000).exp, 0);
    assert_eq!(Claims::expiring_at("u", "n", i64::MAX).exp, usize::MAX.min(i64::MAX as usize + 86_400));
}

#[test]
fn bearer_header_parsing() {
    assert_eq!(bearer_token(None), Err(AuthError::MissingCredentials));
    assert_eq!(bearer_token(Some("Bearer abc.def")), Ok("abc.def".to_string()));
    assert_eq!(bearer_token(Some("Bearer ")), Ok(String::new()));
    assert_eq!(bearer_token(Some("bearer abc")), Err(AuthError::InvalidToken));
    assert_eq!(bearer_token(Some("Basic abc")), Err(AuthError::InvalidToken));
    assert_eq!(bearer_token(Some("Bearer")), Err(AuthError::InvalidToken));
    assert_eq!(bearer_token(Some("")), Err(AuthError::InvalidToken));
}

#[test]
fn auth_body_is_bearer() {
    let user = UserResponse {
        id: "1".to_string(),
        username: "al".to_string(),
        created_at: "t".to_string(),
    };
    let body = AuthBody::new("tok".to_string(), user.clone());
    assert_eq!(body.token_type, "Bearer");
    assert_eq!(body.access_token, "tok");
    assert_eq!(body.user, user);
}

#[test]
fn auth_error_statuses() {
    assert_eq!(AuthError::WrongCredentials.status_code(), 401);
    assert_eq!(AuthError::MissingCredentials.status_code(), 400);
    assert_eq!(AuthError::InvalidToken.status_code(), 400);
    assert_eq!(AuthError::TokenCreation.status_code(), 500);
    assert_eq!(AuthError::UsernameExists.status_code(), 400);
    assert_eq!(AuthError::InternalError.status_code(), 500);
    assert_eq!(AuthError::StorageError.status_code(), 500);
    assert_eq!(AuthError::InvalidUsername.message(), "Invalid username (must be 3-50 characters)");
    assert_eq!(AuthError::WrongCredentials.message(), "Wrong credentials");
}

#[test]
fn signup_errors_map_to_auth_errors() {
    assert_eq!(AuthError::from(UserError::UsernameExists), AuthError::UsernameExists);
    assert_eq!(AuthError::from(UserError::InvalidUsername), AuthError::InvalidUsername);
    assert_eq!(AuthError::from(UserError::InvalidPassword), AuthError::InvalidPassword);
    assert_eq!(AuthError::from(UserError::PasswordHashError), AuthError::InternalError);
    assert_eq!(
        AuthError::from(UserError::DatabaseError("x".to_string())),
        AuthError::InternalError
    );
}

#[test]
fn login_decisions() {
    let u = new_user("alice", "s3cret!!").unwrap();
    assert_eq!(check_login(None, "s3cret!!"), Err(AuthError::WrongCredentials));
    assert_eq!(check_login(Some(u.clone()), "wrong-pw"), Err(AuthError::WrongCredentials));
    assert_eq!(check_login(Some(u.clone()), "s3cret!!"), Ok(u.clone()));
    let mut broken = u;
    broken.password_hash = "garbage".to_string();
    assert_eq!(check_login(Some(broken), "s3cret!!"), Err(AuthError::InternalError));
}
