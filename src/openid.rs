//! OpenID 2.0 sign-in with the identity provider: the login URL, and checking an
//! identity assertion before it is sent back to the provider for confirmation.
use vstd::prelude::*;

use crate::text::{after_prefix, strip_prefix};

verus! {

/// The provider's login endpoint.
pub const LOGIN_ENDPOINT: &'static str = "https://steamcommunity.com/openid/login";

/// The identifier that lets the provider pick the identity.
pub const IDENTIFIER_SELECT: &'static str = "http%3A%2F%2Fspecs.openid.net%2Fauth%2F2.0%2Fidentifier_select";

/// The prefix of every claimed identity; the external identity follows it.
pub const IDENTITY_PREFIX: &'static str = "https://steamcommunity.com/openid/id/";

/// The key of the assertion's mode field, and the mode that asks for confirmation.
pub const MODE_KEY: &'static str = "openid.mode";
pub const CHECK_MODE: &'static str = "check_authentication";

/// The key of the asserted identity.
pub const IDENTITY_KEY: &'static str = "openid.identity";

/// Percent-encoding of a text: every byte of its UTF-8 form but ASCII letters,
/// digits and `-`, `_`, `.`, `~` becomes `%XX`.
pub uninterp spec fn url_encoded(s: Seq<char>) -> Seq<char>;

/// Relies on urlencoding's `encode`, which percent-encodes every byte but ASCII
/// alphanumerics and `-`, `_`, `.`, `~`.
#[verifier::external_body]
fn encode(s: &str) -> (r: String)
    ensures
        r@ == url_encoded(s@),
{
    urlencoding::encode(s).into_owned()
}

/// Whether the provider may interact with the user.
#[derive(Debug, Clone, Copy, PartialEq, Eq, Structural)]
pub enum OpenIdMode {
    Immediate,
    Setup,
}

pub open spec fn mode_text(m: OpenIdMode) -> Seq<char> {
    match m {
        OpenIdMode::Immediate => "checkid_immediate"@,
        OpenIdMode::Setup => "checkid_setup"@,
    }
}

/// Where the provider sends the user back, and how it is asked.
#[derive(Debug, Clone)]
pub struct SteamOpenIdConfig {
    pub return_url: String,
    pub mode: OpenIdMode,
    pub identity: &'static str,
}

impl SteamOpenIdConfig {
    /// A configuration in setup mode that lets the provider select the identity.
    pub fn new(return_url: &str) -> (r: Self)
        ensures
            r.return_url@ == return_url@,
            r.mode == OpenIdMode::Setup,
            r.identity@ == IDENTIFIER_SELECT@,
    {
        SteamOpenIdConfig {
            return_url: String::from_str(return_url),
            mode: OpenIdMode::Setup,
            identity: IDENTIFIER_SELECT,
        }
    }
}

/// The decimal digits of `n`, most significant first, without leading zeros.
pub open spec fn decimal(n: nat) -> Seq<char>
    decreases n,
{
    if n < 10 {
        seq![digit_char(n)]
    } else {
        decimal(n / 10) + seq![digit_char(n % 10)]
    }
}

pub open spec fn digit_char(d: nat) -> char {
    "0123456789"@[d as int]
}

/// The decimal form of `n`.
pub fn decimal_string(n: u64) -> (r: String)
    ensures
        r@ == decimal(n as nat),
    decreases n,
{
    let digits = "0123456789";
    proof {
        reveal_strlit("0123456789");
    }
    if n < 10 {
        String::from_str(digits.substring_char(n as usize, n as usize + 1))
    } else {
        let mut s = decimal_string(n / 10);
        let d = (n % 10) as usize;
        let tail = digits.substring_char(d, d + 1);
        assert(tail@ =~= seq![digit_char((n % 10) as nat)]);
        s.append(tail);
        s
    }
}

/// The sign-in configuration together with the realm the provider is told.
#[derive(Debug, Clone)]
pub struct SteamOpenId {
    pub config: SteamOpenIdConfig,
    pub server_addr: String,
    pub server_port: u16,
}

/// The login URL for a configuration and realm.
pub open spec fn auth_url(o: SteamOpenId) -> Seq<char> {
    LOGIN_ENDPOINT@ + "?openid.claimed_id="@ + IDENTIFIER_SELECT@ + "&openid.identity="@
        + o.config.identity@ + "&openid.return_to="@ + url_encoded(o.config.return_url@)
        + "&openid.realm=http%3A%2F%2F"@ + o.server_addr@ + ":"@ + decimal(o.server_port as nat)
        + "%2F"@ + "&openid.mode="@ + mode_text(o.config.mode)
        + "&openid.ns=http%3A%2F%2Fspecs.openid.net%2Fauth%2F2.0"@
}

impl SteamOpenId {
    pub fn new(config: SteamOpenIdConfig, server_addr: String, server_port: u16) -> (r: SteamOpenId)
        ensures
            r.config == config,
            r.server_addr == server_addr,
            r.server_port == server_port,
    {
        SteamOpenId { config, server_addr, server_port }
    }

    /// The URL that sends a user to the provider to sign in.
    pub fn get_auth_url(&self) -> (r: String)
        ensures
            r@ == auth_url(*self),
    {
        let mut url = String::from_str(LOGIN_ENDPOINT);
        url.append("?openid.claimed_id=");
        url.append(IDENTIFIER_SELECT);
        url.append("&openid.identity=");
        url.append(self.config.identity);
        url.append("&openid.return_to=");
        let encoded = encode(self.config.return_url.as_str());
        url.append(encoded.as_str());
        url.append("&openid.realm=http%3A%2F%2F");
        url.append(self.server_addr.as_str());
        url.append(":");
        let port = decimal_string(self.server_port as u64);
        url.append(port.as_str());
        url.append("%2F");
        url.append("&openid.mode=");
        match self.config.mode {
            OpenIdMode::Immediate => url.append("checkid_immediate"),
            OpenIdMode::Setup => url.append("checkid_setup"),
        }
        url.append("&openid.ns=http%3A%2F%2Fspecs.openid.net%2Fauth%2F2.0");
        url
    }
}

/// The fields that every identity assertion must carry, in the protocol's order.
pub open spec fn mandatory_fields() -> Seq<Seq<char>> {
    seq![
        "openid.ns"@,
        MODE_KEY@,
        "openid.op_endpoint"@,
        "openid.claimed_id"@,
        IDENTITY_KEY@,
        "openid.return_to"@,
        "openid.response_nonce"@,
        "openid.assoc_handle"@,
        "openid.signed"@,
        "openid.sig"@,
    ]
}

/// How many fields an assertion must carry.
pub const MANDATORY_FIELD_COUNT: usize = 10;

/// The `i`-th mandatory field.
pub fn mandatory_field(i: usize) -> (r: &'static str)
    requires
        i < MANDATORY_FIELD_COUNT,
    ensures
        r@ == mandatory_fields()[i as int],
{
    match i {
        0 => "openid.ns",
        1 => MODE_KEY,
        2 => "openid.op_endpoint",
        3 => "openid.claimed_id",
        4 => IDENTITY_KEY,
        5 => "openid.return_to",
        6 => "openid.response_nonce",
        7 => "openid.assoc_handle",
        8 => "openid.signed",
        _ => "openid.sig",
    }
}

/// Whether some field of the assertion has the key.
pub open spec fn has_key(pairs: Seq<(String, String)>, key: Seq<char>) -> bool {
    exists|k: int| 0 <= k < pairs.len() && (#[trigger] pairs[k]).0@ == key
}

/// Whether the assertion carries every mandatory field.
pub open spec fn complete_assertion(pairs: Seq<(String, String)>) -> bool {
    forall|i: int| 0 <= i < mandatory_fields().len() ==> has_key(pairs, #[trigger] mandatory_fields()[i])
}

/// `out` is `pairs` with the value of the mode field set to the confirmation mode.
pub open spec fn confirmation_of(pairs: Seq<(String, String)>, out: Seq<(String, String)>) -> bool {
    &&& out.len() == pairs.len()
    &&& forall|i: int|
        0 <= i < pairs.len() ==> (#[trigger] out[i]).0@ == pairs[i].0@ && out[i].1@ == (if pairs[i].0@
            == MODE_KEY@ {
            CHECK_MODE@
        } else {
            pairs[i].1@
        })
}

/// The first position of `key` among the fields.
pub fn find_key(pairs: &Vec<(String, String)>, key: &str) -> (r: Option<usize>)
    ensures
        r is None <==> !has_key(pairs@, key@),
        r matches Some(k) ==> is_first_key(pairs@, key@, k as int),
{
    let wanted = String::from_str(key);
    let mut i: usize = 0;
    while i < pairs.len()
        invariant
            0 <= i <= pairs@.len(),
            wanted@ == key@,
            forall|j: int| 0 <= j < i ==> (#[trigger] pairs@[j]).0@ != key@,
        decreases pairs@.len() - i,
    {
        if pairs[i].0 == wanted {
            return Some(i);
        }
        i = i + 1;
    }
    None
}

/// An identity assertion could not be confirmed.
#[derive(Debug, Clone, Copy, PartialEq, Eq, Structural)]
pub enum VerificationError {
    /// A mandatory field is missing; the assertion was not sent.
    MalformedAssertion,
    /// The provider could not be asked, or answered with something unusable.
    Provider(crate::steamapi::ApiError),
}

/// A complete assertion, with its mode set to ask the provider for confirmation.
/// Only `CheckRequest::prepare` makes one.
pub struct CheckRequest {
    fields: Vec<(String, String)>,
}

impl CheckRequest {
    #[verifier::type_invariant]
    spec fn complete(&self) -> bool {
        complete_assertion(self.fields@)
    }

    /// The fields to send.
    pub closed spec fn fields_spec(&self) -> Seq<(String, String)> {
        self.fields@
    }

    /// Checks that the assertion carries every mandatory field and, if so,
    /// rewrites its mode to ask for confirmation. An incomplete assertion is
    /// refused before anything could be sent.
    pub fn prepare(pairs: Vec<(String, String)>) -> (r: Result<CheckRequest, VerificationError>)
        ensures
            r is Err <==> !complete_assertion(pairs@),
            r matches Err(e) ==> e == VerificationError::MalformedAssertion,
            r matches Ok(req) ==> confirmation_of(pairs@, req.fields_spec()),
    {
        let mut i: usize = 0;
        while i < MANDATORY_FIELD_COUNT
            invariant
                0 <= i <= MANDATORY_FIELD_COUNT,
                forall|j: int| 0 <= j < i ==> has_key(pairs@, #[trigger] mandatory_fields()[j]),
            decreases MANDATORY_FIELD_COUNT - i,
        {
            if find_key(&pairs, mandatory_field(i)).is_none() {
                return Err(VerificationError::MalformedAssertion);
            }
            i = i + 1;
        }
        let mode_key = String::from_str(MODE_KEY);
        let mut out: Vec<(String, String)> = Vec::new();
        let mut k: usize = 0;
        while k < pairs.len()
            invariant
                0 <= k <= pairs@.len(),
                mode_key@ == MODE_KEY@,
                out@.len() == k,
                forall|j: int|
                    0 <= j < k ==> (#[trigger] out@[j]).0@ == pairs@[j].0@ && out@[j].1@ == (
                    if pairs@[j].0@ == MODE_KEY@ {
                        CHECK_MODE@
                    } else {
                        pairs@[j].1@
                    }),
            decreases pairs@.len() - k,
        {
            let key = pairs[k].0.clone();
            let value = if pairs[k].0 == mode_key {
                String::from_str(CHECK_MODE)
            } else {
                pairs[k].1.clone()
            };
            out.push((key, value));
            k = k + 1;
        }
        assert forall|i: int| 0 <= i < mandatory_fields().len() implies has_key(
            out@,
            #[trigger] mandatory_fields()[i],
        ) by {
            assert(has_key(pairs@, mandatory_fields()[i]));
            let w = choose|w: int| 0 <= w < pairs@.len() && (#[trigger] pairs@[w]).0@ == mandatory_fields()[i];
            assert(out@[w].0@ == mandatory_fields()[i]);
        }
        Ok(CheckRequest { fields: out })
    }

    /// The fields to send to the provider.
    pub fn fields(&self) -> (r: &Vec<(String, String)>)
        ensures
            r@ == self.fields_spec(),
            complete_assertion(r@),
    {
        proof {
            use_type_invariant(self);
        }
        &self.fields
    }
}

/// The external identity inside a claimed identity URL: what follows the
/// provider's prefix, when that is not empty.
pub open spec fn external_identity(claimed: Seq<char>) -> Option<Seq<char>> {
    match after_prefix(claimed, IDENTITY_PREFIX@) {
        Some(rest) => if rest.len() > 0 {
            Some(rest)
        } else {
            None
        },
        None => None,
    }
}

/// Extracts the external identity from a claimed identity URL.
pub fn steamid_from_identity(claimed: &str) -> (r: Option<String>)
    ensures
        r is None <==> external_identity(claimed@) is None,
        r matches Some(s) ==> external_identity(claimed@) == Some(s@),
{
    match strip_prefix(claimed, IDENTITY_PREFIX) {
        Some(rest) => {
            if rest.unicode_len() > 0 {
                Some(rest)
            } else {
                None
            }
        },
        None => None,
    }
}

/// Index `k` is the first field with the key.
pub open spec fn is_first_key(pairs: Seq<(String, String)>, key: Seq<char>, k: int) -> bool {
    &&& 0 <= k < pairs.len()
    &&& pairs[k].0@ == key
    &&& forall|j: int| 0 <= j < k ==> (#[trigger] pairs[j]).0@ != key
}

impl CheckRequest {
    /// The external identity that the assertion claims.
    pub fn claimed_steamid(&self) -> (r: Option<String>)
        ensures
            r matches Some(s) ==> exists|k: int|
                is_first_key(self.fields_spec(), IDENTITY_KEY@, k) && external_identity(
                    (#[trigger] self.fields_spec()[k]).1@,
                ) == Some(s@),
            r is None ==> !has_key(self.fields_spec(), IDENTITY_KEY@) || exists|k: int|
                is_first_key(self.fields_spec(), IDENTITY_KEY@, k) && external_identity(
                    (#[trigger] self.fields_spec()[k]).1@,
                ) is None,
    {
        let fields = self.fields();
        match find_key(fields, IDENTITY_KEY) {
            Some(k) => steamid_from_identity(fields[k].1.as_str()),
            None => None,
        }
    }
}

} // verus!
