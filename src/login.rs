//! Signing in: from an identity assertion to a session token.
//!
//! In order: `begin_login` checks the assertion and reads the claimed external
//! identity; the caller sends `CheckRequest::fields` to the provider and hands
//! the answer to `confirm_login`; a `UserProvisioner` resolves the account; the
//! caller loads the user's stored tokens and `token_for_login` reuses a live one
//! or mints a new one to be stored.
use vstd::prelude::*;

use crate::models::{Authorization, User};
use crate::openid::{
    complete_assertion, confirmation_of, external_identity, has_key, is_first_key, CheckRequest,
    IDENTITY_KEY, MODE_KEY,
};
use crate::steamapi::ApiError;
use crate::tokens::{
    choose_authorization, expiry_for, expiry_representable, is_canonical, live_for,
    mint_authorization, well_formed_token, TokenDecision, TokenError,
};

verus! {

/// Why a sign-in did not produce a token.
#[derive(Debug, Clone, Copy, PartialEq, Eq, Structural)]
pub enum LoginError {
    /// A mandatory field is missing, or the claimed identity is not the provider's.
    MalformedAssertion,
    /// The provider answered that the assertion is not valid.
    Invalid,
    /// The provider could not be asked, or answered with something unusable.
    Provider(ApiError),
    /// A token could not be minted.
    Token(TokenError),
}

/// The assertion's first identity field holds an identity of the provider.
pub open spec fn claims_provider_identity(pairs: Seq<(String, String)>) -> bool {
    exists|k: int|
        is_first_key(pairs, IDENTITY_KEY@, k) && external_identity((#[trigger] pairs[k]).1@) is Some
}

/// Rewriting the mode keeps every key, and the value of the identity field.
proof fn lemma_confirmation_keeps_identity(pairs: Seq<(String, String)>, out: Seq<(String, String)>)
    requires
        confirmation_of(pairs, out),
    ensures
        forall|k: int| is_first_key(out, IDENTITY_KEY@, k) <==> is_first_key(pairs, IDENTITY_KEY@, k),
        forall|k: int|
            0 <= k < pairs.len() && pairs[k].0@ == IDENTITY_KEY@ ==> (#[trigger] out[k]).1@ == pairs[k].1@,
        has_key(out, IDENTITY_KEY@) <==> has_key(pairs, IDENTITY_KEY@),
{
    reveal_strlit("openid.identity");
    reveal_strlit("openid.mode");
    assert(IDENTITY_KEY@.len() != MODE_KEY@.len());
    assert forall|k: int| is_first_key(out, IDENTITY_KEY@, k) <==> is_first_key(pairs, IDENTITY_KEY@, k) by {
        if is_first_key(pairs, IDENTITY_KEY@, k) {
            assert forall|j: int| 0 <= j < k implies (#[trigger] out[j]).0@ != IDENTITY_KEY@ by {
                assert(pairs[j].0@ != IDENTITY_KEY@);
            }
        }
        if is_first_key(out, IDENTITY_KEY@, k) {
            assert forall|j: int| 0 <= j < k implies (#[trigger] pairs[j]).0@ != IDENTITY_KEY@ by {
                assert(out[j].0@ != IDENTITY_KEY@);
            }
        }
    }
    if has_key(out, IDENTITY_KEY@) {
        let k = choose|k: int| 0 <= k < out.len() && (#[trigger] out[k]).0@ == IDENTITY_KEY@;
        assert(pairs[k].0@ == IDENTITY_KEY@);
    }
    if has_key(pairs, IDENTITY_KEY@) {
        let k = choose|k: int| 0 <= k < pairs.len() && (#[trigger] pairs[k]).0@ == IDENTITY_KEY@;
        assert(out[k].0@ == IDENTITY_KEY@);
    }
}

/// Two first positions of a key are the same position.
proof fn lemma_first_key_unique(pairs: Seq<(String, String)>, key: Seq<char>, k: int, m: int)
    requires
        is_first_key(pairs, key, k),
        is_first_key(pairs, key, m),
    ensures
        k == m,
{
    if k < m {
        assert(pairs[k].0@ != key);
    } else if m < k {
        assert(pairs[m].0@ != key);
    }
}

/// Checks an assertion and reads the external identity it claims. It succeeds
/// exactly when every mandatory field is present and the first identity field
/// holds an identity of the provider; nothing is to be sent to the provider
/// otherwise.
pub fn begin_login(pairs: Vec<(String, String)>) -> (r: Result<(CheckRequest, String), LoginError>)
    ensures
        r is Ok <==> complete_assertion(pairs@) && claims_provider_identity(pairs@),
        r matches Err(e) ==> e == LoginError::MalformedAssertion,
        r matches Ok((req, steamid)) ==> {
            &&& confirmation_of(pairs@, req.fields_spec())
            &&& exists|k: int|
                is_first_key(pairs@, IDENTITY_KEY@, k) && external_identity(
                    (#[trigger] pairs@[k]).1@,
                ) == Some(steamid@)
        },
{
    let ghost original = pairs@;
    match CheckRequest::prepare(pairs) {
        Ok(req) => {
            proof {
                lemma_confirmation_keeps_identity(original, req.fields_spec());
            }
            match req.claimed_steamid() {
                Some(steamid) => {
                    proof {
                        let k = choose|k: int|
                            is_first_key(req.fields_spec(), IDENTITY_KEY@, k) && external_identity(
                                (#[trigger] req.fields_spec()[k]).1@,
                            ) == Some(steamid@);
                        assert(is_first_key(original, IDENTITY_KEY@, k));
                        assert(original[k].1@ == req.fields_spec()[k].1@);
                    }
                    Ok((req, steamid))
                },
                None => {
                    proof {
                        if claims_provider_identity(original) {
                            let k = choose|k: int|
                                is_first_key(original, IDENTITY_KEY@, k) && external_identity(
                                    (#[trigger] original[k]).1@,
                                ) is Some;
                            assert(is_first_key(req.fields_spec(), IDENTITY_KEY@, k));
                            assert(req.fields_spec()[k].1@ == original[k].1@);
                            if has_key(req.fields_spec(), IDENTITY_KEY@) {
                                let m = choose|m: int|
                                    is_first_key(req.fields_spec(), IDENTITY_KEY@, m) && external_identity(
                                        (#[trigger] req.fields_spec()[m]).1@,
                                    ) is None;
                                lemma_first_key_unique(req.fields_spec(), IDENTITY_KEY@, k, m);
                            }
                        }
                    }
                    Err(LoginError::MalformedAssertion)
                },
            }
        },
        Err(_) => Err(LoginError::MalformedAssertion),
    }
}

/// What the provider's answer means for the sign-in. A provider failure is
/// never taken for an invalid assertion.
pub open spec fn confirmation(answer: Result<bool, ApiError>) -> Result<(), LoginError> {
    match answer {
        Ok(true) => Ok(()),
        Ok(false) => Err(LoginError::Invalid),
        Err(e) => Err(LoginError::Provider(e)),
    }
}

pub fn confirm_login(answer: Result<bool, ApiError>) -> (r: Result<(), LoginError>)
    ensures
        r == confirmation(answer),
{
    match answer {
        Ok(true) => Ok(()),
        Ok(false) => Err(LoginError::Invalid),
        Err(e) => Err(LoginError::Provider(e)),
    }
}

/// Whether the user holds a live token at `now`.
pub open spec fn has_live_token(stored: Seq<Authorization>, userid: i64, now: int) -> bool {
    exists|j: int| 0 <= j < stored.len() && live_for(#[trigger] stored[j], userid, now)
}

/// The token to hand a signed-in user at `now`, and whether it is new and must
/// be stored: the canonical live token if there is one, else a fresh token
/// created at `now`.
pub fn token_for_login(user: &User, stored: Vec<Authorization>, now: i64) -> (r: Result<
    (Authorization, bool),
    LoginError,
>)
    ensures
        r is Ok <==> has_live_token(stored@, user.id, now as int) || expiry_representable(now),
        r matches Err(e) ==> e == LoginError::Token(TokenError::ExpiryOutOfRange),
        r matches Ok((a, fresh)) ==> {
            &&& a.userid == user.id
            &&& now < a.expires
            &&& fresh <==> !has_live_token(stored@, user.id, now as int)
            &&& !fresh ==> exists|i: int| is_canonical(stored@, user.id, now as int, i) && stored@[i] == a
            &&& fresh ==> {
                &&& well_formed_token(a.token@)
                &&& a.created_at == now
                &&& expiry_for(now) == Some(a.expires as int)
            }
        },
{
    match choose_authorization(stored, user.id, now) {
        TokenDecision::Reuse(a) => Ok((a, false)),
        TokenDecision::Mint => match mint_authorization(user.id, now) {
            Ok(a) => Ok((a, true)),
            Err(e) => Err(LoginError::Token(e)),
        },
    }
}

} // verus!
