use league_core::models::{Authorization, User};
use league_core::tokens::{
    choose_authorization, create_authorization_for_user, new_authorization, resolve_token,
    TokenDecision, Unauthenticated, TOKEN_LENGTH,
};

fn auth(userid: i64, token: &str, created_at: i64, expires: i64) -> Authorization {
    Authorization { userid, token: String::from(token), created_at, expires }
}

fn user(id: i64) -> User {
    User {
        id,
        permissions: 0,
        avatarurl: String::new(),
        steamid: String::from("76561198000000001"),
        username: String::from("player"),
        created_at: 0,
    }
}

#[test]
fn new_authorization_expires_one_month_later() {
    // 2023-11-14T22:13:20Z plus one month is 2023-12-14T22:13:20Z.
    let a = new_authorization(3, String::from("abc"), 1_700_000_000).unwrap();
    assert_eq!(a.userid, 3);
    assert_eq!(a.token, "abc");
    assert_eq!(a.created_at, 1_700_000_000);
    assert_eq!(a.expires, 1_702_592_000);
}

#[test]
fn new_authorization_clamps_to_month_end() {
    // 2024-01-31T00:00:00Z plus one month is 2024-02-29T00:00:00Z.
    let a = new_authorization(3, String::from("abc"), 1_706_659_200).unwrap();
    assert_eq!(a.expires, 1_709_164_800);
}

#[test]
fn created_token_is_forty_alphanumerics() {
    let a = create_authorization_for_user(&user(9)).unwrap();
    assert_eq!(a.userid, 9);
    assert_eq!(a.token.chars().count(), TOKEN_LENGTH);
    assert!(a.token.chars().all(|c| c.is_ascii_alphanumeric()));
    assert!(a.expires > a.created_at);
}

#[test]
fn created_tokens_differ() {
    let a = create_authorization_for_user(&user(9)).unwrap();
    let b = create_authorization_for_user(&user(9)).unwrap();
    assert_ne!(a.token, b.token);
}

#[test]
fn resolve_succeeds_before_expiry() {
    let row = auth(5, "tok", 100, 200);
    assert_eq!(resolve_token(Some(row), &String::from("tok"), 199), Ok(5));
}

#[test]
fn resolve_fails_at_and_after_expiry() {
    let t = String::from("tok");
    assert_eq!(resolve_token(Some(auth(5, "tok", 100, 200)), &t, 200), Err(Unauthenticated));
    assert_eq!(resolve_token(Some(auth(5, "tok", 100, 200)), &t, 5_000), Err(Unauthenticated));
}

#[test]
fn resolve_unknown_token_looks_like_expired() {
    let t = String::from("tok");
    let unknown = resolve_token(None, &t, 150);
    let expired = resolve_token(Some(auth(5, "tok", 100, 200)), &t, 250);
    let other = resolve_token(Some(auth(5, "different", 100, 200)), &t, 150);
    assert_eq!(unknown, Err(Unauthenticated));
    assert_eq!(unknown, expired);
    assert_eq!(unknown, other);
}

#[test]
fn choose_reuses_latest_live_token() {
    let rows = vec![
        auth(1, "old", 0, 150),
        auth(1, "later", 10, 400),
        auth(2, "someone-else", 10, 900),
        auth(1, "mid", 20, 300),
    ];
    match choose_authorization(rows, 1, 200) {
        TokenDecision::Reuse(a) => assert_eq!(a.token, "later"),
        TokenDecision::Mint => panic!("a live token exists"),
    }
}

#[test]
fn choose_mints_when_all_expired() {
    let rows = vec![auth(1, "a", 0, 100), auth(1, "b", 0, 200), auth(2, "c", 0, 900)];
    assert!(matches!(choose_authorization(rows, 1, 200), TokenDecision::Mint));
    assert!(matches!(choose_authorization(Vec::new(), 1, 0), TokenDecision::Mint));
}
