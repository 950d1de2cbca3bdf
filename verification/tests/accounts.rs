use write_behind_cache::auth::{
    hash_password, login_check, login_decision, token_claims, LoginCheck, TOKEN_LIFETIME_SECS,
};
use write_behind_cache::models::User;

#[test]
fn stored_hash_accepts_its_password() {
    let hash = hash_password("hunter2").expect("hashing must succeed");
    // A real bcrypt hash, not the password echoed back.
    assert_eq!(hash.len(), 60);
    assert_ne!(hash, "hunter2");
    match login_check("hunter2", &hash) {
        LoginCheck::Accepted => {}
        _ => panic!("the password that made the hash must be accepted"),
    }
}

#[test]
fn wrong_password_is_rejected() {
    let hash = hash_password("hunter2").expect("hashing must succeed");
    match login_check("hunter3", &hash) {
        LoginCheck::WrongPassword => {}
        _ => panic!("another password must be rejected"),
    }
    match login_decision("hunter3", &hash) {
        Err((status, message)) => {
            assert_eq!(status, 401);
            assert_eq!(message, "invalid password");
        }
        Ok(()) => panic!("a wrong password must not pass"),
    }
}

#[test]
fn unreadable_hash_is_a_server_error() {
    match login_check("anything", "not a bcrypt hash") {
        LoginCheck::HashUnreadable => {}
        _ => panic!("a malformed stored hash must be reported"),
    }
    match login_decision("anything", "not a bcrypt hash") {
        Err((status, message)) => {
            assert_eq!(status, 500);
            assert_eq!(message, "hash error");
        }
        Ok(()) => panic!("a malformed stored hash must not pass"),
    }
}

#[test]
fn token_expires_one_lifetime_ahead() {
    let user = User {
        id: 7,
        username: "ada".to_string(),
        password: "ignored".to_string(),
        created_at: 0,
        updated_at: 0,
    };
    let claims = token_claims(&user, 1_000_000);
    assert_eq!(claims.sub, 7);
    assert_eq!(claims.username, "ada");
    assert_eq!(claims.exp, 1_000_000 + TOKEN_LIFETIME_SECS);
}
