use koochelib::app::utils::jwt::JWT;
use koochelib::app::utils::time::timestamp;
use koochelib::app::middleware::{auth_middleware, bearer_token};

fn token(sid: &str, exp: usize) -> String {
    match JWT::new(String::from(sid), exp).create_token() {
        Ok(t) => t,
        Err(_) => panic!("token not created"),
    }
}

#[test]
fn a_fresh_token_gives_back_its_account() {
    let t = token("abc", timestamp() + 600);
    assert_eq!(JWT::verify_token(t), Ok(String::from("abc")));
}

#[test]
fn tokens_are_deterministic_and_depend_on_the_claims() {
    let exp = timestamp() + 900;
    assert_eq!(token("abc", exp), token("abc", exp));
    assert_ne!(token("abc", exp), token("abd", exp));
    assert_ne!(token("abc", exp), token("abc", exp + 1));
    assert_ne!(token("abc", exp), String::from("abc"));
}

#[test]
fn a_token_just_expired_is_refused_as_expired() {
    let t = token("abc", timestamp() - 10);
    assert_eq!(JWT::verify_token(t), Err(String::from("token expired")));
}

#[test]
fn a_token_long_expired_is_refused_by_the_decoder() {
    let t = token("abc", timestamp() - 100000);
    assert_eq!(JWT::verify_token(t), Err(String::from("error on decoding token")));
}

#[test]
fn garbage_and_tampered_tokens_are_refused() {
    assert_eq!(JWT::verify_token(String::from("a.b.c")), Err(String::from("error on decoding token")));
    let mut t = token("abc", timestamp() + 600);
    t.push('x');
    assert_eq!(JWT::verify_token(t), Err(String::from("error on decoding token")));
}

#[test]
fn claims_are_checked_against_the_time() {
    assert_eq!(JWT::check_claims(Some(JWT::new(String::from("s"), 100)), 99), Ok(String::from("s")));
    assert_eq!(JWT::check_claims(Some(JWT::new(String::from("s"), 100)), 100), Err(String::from("token expired")));
    assert_eq!(JWT::check_claims(None, 0), Err(String::from("error on decoding token")));
}

#[test]
fn the_guard_lets_valid_tokens_through() {
    let t = token("seller1", timestamp() + 600);
    match auth_middleware(Some(format!("Bearer {}", t))) {
        Ok(d) => assert_eq!(d.sid, "seller1"),
        Err(_) => panic!("refused"),
    }
}

#[test]
fn the_guard_refuses_missing_or_bad_tokens() {
    assert!(matches!(auth_middleware(None), Err(401)));
    assert!(matches!(auth_middleware(Some(String::from("Bearer nonsense"))), Err(401)));
    let t = token("seller1", timestamp() - 10);
    assert!(matches!(auth_middleware(Some(format!("Bearer {}", t))), Err(401)));
}

#[test]
fn the_token_is_what_follows_the_first_space() {
    assert_eq!(bearer_token(&String::from("Bearer abc")), "abc");
    assert_eq!(bearer_token(&String::from("Bearer a b")), "a b");
    assert_eq!(bearer_token(&String::from(" x")), "x");
    assert_eq!(bearer_token(&String::from("Bearer ")), "");
}

#[test]
fn the_reminder_reply_is_no_token() {
    assert_eq!(JWT::verify_token(String::from("verify your account")), Err(String::from("error on decoding token")));
}

#[test]
fn tokens_signed_with_another_key_or_algorithm_are_refused() {
    let mut claims = serde_json::Map::new();
    claims.insert(String::from("exp"), serde_json::Value::from(timestamp() + 600));
    claims.insert(String::from("sid"), serde_json::Value::from("abc"));
    let other_key = jsonwebtoken::encode(
        &jsonwebtoken::Header::new(jsonwebtoken::Algorithm::HS256),
        &claims,
        &jsonwebtoken::EncodingKey::from_secret(b"another secret"),
    )
    .unwrap();
    assert_eq!(JWT::verify_token(other_key), Err(String::from("error on decoding token")));
    let other_alg = jsonwebtoken::encode(
        &jsonwebtoken::Header::new(jsonwebtoken::Algorithm::HS512),
        &claims,
        &jsonwebtoken::EncodingKey::from_secret(b"thisisasecret"),
    )
    .unwrap();
    assert_eq!(JWT::verify_token(other_alg), Err(String::from("error on decoding token")));
}
