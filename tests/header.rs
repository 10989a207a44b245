use league_core::header::{AuthHeader, AuthHeaderStringError};

#[test]
fn bearer_prefix_is_stripped() {
    let h = AuthHeader::parse_bearer("Bearer abc123").ok().unwrap();
    assert_eq!(h.0, "abc123");
}

#[test]
fn bearer_keeps_later_occurrences() {
    let h = AuthHeader::parse_bearer("Bearer Bearer x").ok().unwrap();
    assert_eq!(h.0, "Bearer x");
}

#[test]
fn non_bearer_is_refused() {
    assert!(matches!(AuthHeader::parse_bearer("Basic abc"), Err(AuthHeaderStringError::NotBearer)));
    assert!(matches!(AuthHeader::parse_bearer("bearer abc"), Err(AuthHeaderStringError::NotBearer)));
    assert!(matches!(AuthHeader::parse_bearer("Bearer"), Err(AuthHeaderStringError::NotBearer)));
    assert!(matches!(AuthHeader::parse_bearer(""), Err(AuthHeaderStringError::NotBearer)));
}

#[test]
fn header_value_round_trip() {
    let h = AuthHeader(String::from("tok"));
    let v = h.try_into_value();
    assert_eq!(v, "Bearer tok");
    let back: AuthHeader = v.parse().ok().unwrap();
    assert_eq!(back.0, "tok");
}
