use league_core::openid::{
    decimal_string, mandatory_field, steamid_from_identity, CheckRequest, OpenIdMode,
    SteamOpenId, SteamOpenIdConfig, VerificationError, MANDATORY_FIELD_COUNT,
};

fn assertion() -> Vec<(String, String)> {
    let raw = [
        ("openid.ns", "http://specs.openid.net/auth/2.0"),
        ("openid.mode", "id_res"),
        ("openid.op_endpoint", "https://steamcommunity.com/openid/login"),
        ("openid.claimed_id", "https://steamcommunity.com/openid/id/76561198025040446"),
        ("openid.identity", "https://steamcommunity.com/openid/id/76561198025040446"),
        ("openid.return_to", "https://example.com/landing"),
        ("openid.response_nonce", "2024-07-27T16:07:06Zdg9+zW7ALLLycjtF7T7mWe3qKp0="),
        ("openid.assoc_handle", "34321234"),
        ("openid.signed", "signed,op_endpoint,claimed_id,identity,return_to,response_nonce,assoc_handle"),
        ("openid.sig", "f9dFKCcwpaGUWp2VsXwMV7csgsU="),
    ];
    raw.iter().map(|(k, v)| (String::from(*k), String::from(*v))).collect()
}

#[test]
fn config_defaults_to_setup_mode() {
    let c = SteamOpenIdConfig::new("http://localhost/landing");
    assert_eq!(c.return_url, "http://localhost/landing");
    assert_eq!(c.mode, OpenIdMode::Setup);
    assert_eq!(c.identity, "http%3A%2F%2Fspecs.openid.net%2Fauth%2F2.0%2Fidentifier_select");
}

#[test]
fn auth_url_is_exact() {
    let c = SteamOpenIdConfig::new("http://localhost:8080/api/v1/login/landing");
    let o = SteamOpenId::new(c, String::from("example.com"), 8080);
    assert_eq!(
        o.get_auth_url(),
        "https://steamcommunity.com/openid/login\
?openid.claimed_id=http%3A%2F%2Fspecs.openid.net%2Fauth%2F2.0%2Fidentifier_select\
&openid.identity=http%3A%2F%2Fspecs.openid.net%2Fauth%2F2.0%2Fidentifier_select\
&openid.return_to=http%3A%2F%2Flocalhost%3A8080%2Fapi%2Fv1%2Flogin%2Flanding\
&openid.realm=http%3A%2F%2Fexample.com:8080%2F\
&openid.mode=checkid_setup\
&openid.ns=http%3A%2F%2Fspecs.openid.net%2Fauth%2F2.0"
    );
}

#[test]
fn auth_url_immediate_mode() {
    let mut c = SteamOpenIdConfig::new("x");
    c.mode = OpenIdMode::Immediate;
    let o = SteamOpenId::new(c, String::from("h"), 0);
    let url = o.get_auth_url();
    assert!(url.contains("&openid.return_to=x&openid.realm=http%3A%2F%2Fh:0%2F&"));
    assert!(url.contains("openid.mode=checkid_immediate"));
}

#[test]
fn decimal_forms() {
    assert_eq!(decimal_string(0), "0");
    assert_eq!(decimal_string(7), "7");
    assert_eq!(decimal_string(10), "10");
    assert_eq!(decimal_string(65535), "65535");
    assert_eq!(decimal_string(u64::MAX), "18446744073709551615");
}

#[test]
fn complete_assertion_is_prepared_with_check_mode() {
    let req = CheckRequest::prepare(assertion()).ok().unwrap();
    let fields = req.fields();
    assert_eq!(fields.len(), 10);
    for (k, v) in fields.iter() {
        if k == "openid.mode" {
            assert_eq!(v, "check_authentication");
        }
    }
    assert_eq!(fields[0].1, "http://specs.openid.net/auth/2.0");
    assert_eq!(fields[9].1, "f9dFKCcwpaGUWp2VsXwMV7csgsU=");
}

#[test]
fn missing_any_mandatory_field_is_malformed() {
    assert_eq!(MANDATORY_FIELD_COUNT, 10);
    for i in 0..MANDATORY_FIELD_COUNT {
        let key = mandatory_field(i);
        let pairs: Vec<(String, String)> = assertion().into_iter().filter(|(k, _)| k != key).collect();
        assert_eq!(pairs.len(), 9);
        assert!(matches!(
            CheckRequest::prepare(pairs),
            Err(VerificationError::MalformedAssertion)
        ));
    }
}

#[test]
fn empty_assertion_is_malformed() {
    assert!(matches!(
        CheckRequest::prepare(Vec::new()),
        Err(VerificationError::MalformedAssertion)
    ));
}

#[test]
fn extra_fields_are_kept() {
    let mut pairs = assertion();
    pairs.push((String::from("dnoa.userSuppliedIdentifier"), String::from("x")));
    let req = CheckRequest::prepare(pairs).ok().unwrap();
    assert_eq!(req.fields().len(), 11);
    assert_eq!(req.fields()[10].0, "dnoa.userSuppliedIdentifier");
}

#[test]
fn claimed_steamid_is_read_from_identity() {
    let req = CheckRequest::prepare(assertion()).ok().unwrap();
    assert_eq!(req.claimed_steamid(), Some(String::from("76561198025040446")));
}

#[test]
fn steamid_needs_provider_prefix() {
    assert_eq!(
        steamid_from_identity("https://steamcommunity.com/openid/id/76561198000000001"),
        Some(String::from("76561198000000001"))
    );
    assert_eq!(steamid_from_identity("https://steamcommunity.com/openid/id/"), None);
    assert_eq!(steamid_from_identity("https://evil.example/openid/id/1"), None);
    assert_eq!(steamid_from_identity(""), None);
}
