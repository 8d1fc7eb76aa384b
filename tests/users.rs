use vaultfs::{
    hash_password, new_user, validate_credentials, verify_password, User, UserError,
    UserResponse,
};

#[test]
fn short_password_is_refused() {
    for pw in ["", "a", "abcde", "ééééé"] {
        assert_eq!(new_user("alice", pw), Err(UserError::InvalidPassword));
    }
}

#[test]
fn password_length_counts_characters() {
    assert_eq!(validate_credentials("alice", "ééééé"), Err(UserError::InvalidPassword));
    assert_eq!(validate_credentials("alice", "éééééé"), Ok(()));
}

#[test]
fn username_bounds_are_inclusive() {
    assert_eq!(validate_credentials("ab", "secret1"), Err(UserError::InvalidUsername));
    assert_eq!(validate_credentials("abc", "secret1"), Ok(()));
    let fifty: String = std::iter::repeat('n').take(50).collect();
    let fifty_one: String = std::iter::repeat('n').take(51).collect();
    assert_eq!(validate_credentials(&fifty, "secret1"), Ok(()));
    assert_eq!(validate_credentials(&fifty_one, "secret1"), Err(UserError::InvalidUsername));
    assert_eq!(validate_credentials("äöü", "secret1"), Ok(()));
}

#[test]
fn username_is_checked_before_password() {
    assert_eq!(new_user("x", "y"), Err(UserError::InvalidUsername));
}

#[test]
fn new_user_hashes_and_stamps() {
    let u = new_user("alice", "hunter22").unwrap();
    assert_eq!(u.username, "alice");
    assert_eq!(u.id.len(), 36);
    assert!(u.password_hash.starts_with("$argon2id$"));
    assert_ne!(u.password_hash, "hunter22");
    assert!(!u.created_at.is_empty());
    assert_eq!(u.verify_password("hunter22"), Ok(true));
    assert_eq!(u.verify_password("hunter23"), Ok(false));
}

#[test]
fn verify_matches_only_the_hashed_password() {
    let h = hash_password("correct horse").unwrap();
    assert_eq!(verify_password("correct horse", &h), Ok(true));
    assert_eq!(verify_password("correct hors", &h), Ok(false));
    assert_eq!(verify_password("", &h), Ok(false));
}

#[test]
fn hashes_of_same_password_differ() {
    let a = hash_password("same-password").unwrap();
    let b = hash_password("same-password").unwrap();
    assert_ne!(a, b);
    let head = "$argon2id$v=19$m=19456,t=2,p=1$";
    assert!(a.starts_with(head) && b.starts_with(head));
    let salt_a = &a[head.len()..head.len() + 22];
    assert_eq!(&a[head.len() + 22..head.len() + 23], "$");
    assert_ne!(salt_a, &b[head.len()..head.len() + 22]);
    assert_eq!(verify_password("same-password", &a), Ok(true));
    assert_eq!(verify_password("same-password", &b), Ok(true));
}

#[test]
fn unreadable_hash_is_invalid_password() {
    assert_eq!(verify_password("pw", "not a phc string"), Err(UserError::InvalidPassword));
}

#[test]
fn unique_violation_means_username_taken() {
    assert_eq!(
        UserError::from_insert_failure(true, "UNIQUE constraint failed: users.username".to_string()),
        UserError::UsernameExists
    );
    assert_eq!(
        UserError::from_insert_failure(false, "disk full".to_string()),
        UserError::DatabaseError("disk full".to_string())
    );
}

#[test]
fn user_error_messages() {
    assert_eq!(UserError::DatabaseError("boom".to_string()).message(), "Database error: boom");
    assert_eq!(UserError::PasswordHashError.message(), "Failed to hash password");
    assert_eq!(UserError::UsernameExists.message(), "Username already exists");
    assert_eq!(UserError::UserNotFound.message(), "User not found");
    assert_eq!(UserError::InvalidPassword.message(), "Invalid password");
    assert_eq!(UserError::InvalidUsername.message(), "Invalid username");
}

#[test]
fn user_response_drops_hash() {
    let u = User {
        id: "id1".to_string(),
        username: "alice".to_string(),
        password_hash: "$argon2id$x".to_string(),
        created_at: "2024-01-01T00:00:00+00:00".to_string(),
    };
    let r = UserResponse::from(u);
    assert_eq!(
        r,
        UserResponse {
            id: "id1".to_string(),
            username: "alice".to_string(),
            created_at: "2024-01-01T00:00:00+00:00".to_string(),
        }
    );
}
