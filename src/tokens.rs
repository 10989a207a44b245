//! Session tokens: minting, choosing the canonical token of a user, and resolving
//! a presented token back to its owner.
use vstd::prelude::*;

use crate::models::{Authorization, User};

verus! {

/// Characters in a session token.
pub const TOKEN_LENGTH: usize = 40;

/// Months between a token's creation and its expiry.
pub const TOKEN_LIFETIME_MONTHS: u32 = 1;

pub open spec fn is_ascii_alphanumeric(c: char) -> bool {
    ('a' <= c && c <= 'z') || ('A' <= c && c <= 'Z') || ('0' <= c && c <= '9')
}

/// A token of the fixed length, made of ASCII letters and digits.
pub open spec fn well_formed_token(t: Seq<char>) -> bool {
    &&& t.len() == TOKEN_LENGTH
    &&& forall|i: int| 0 <= i < t.len() ==> is_ascii_alphanumeric(#[trigger] t[i])
}

/// The UTC instant `months` calendar months after `secs`, in whole seconds, or
/// `None` where the calendar cannot represent it.
pub uninterp spec fn months_after(secs: int, months: nat) -> Option<int>;

/// Relies on randomizer's `Randomizer::ALPHANUMERIC(length).string()`: it draws
/// `length` characters, each from an ASCII alphanumeric set, from fastrand; with
/// that one-byte, non-empty set it always returns `Ok`.
#[verifier::external_body]
fn random_alphanumeric(length: usize) -> (r: Option<String>)
    ensures
        r is Some,
        r matches Some(s) ==> s@.len() == length && forall|i: int|
            0 <= i < s@.len() ==> is_ascii_alphanumeric(#[trigger] s@[i]),
{
    randomizer::Randomizer::ALPHANUMERIC(length).string().ok()
}

/// Relies on chrono's `DateTime::<Utc>::from_timestamp` and `checked_add_months`:
/// the calendar sum in UTC, later than the start for a positive month count.
#[verifier::external_body]
fn add_months(secs: i64, months: u32) -> (r: Option<i64>)
    ensures
        r matches Some(t) ==> months_after(secs as int, months as nat) == Some(t as int),
        r is None ==> months_after(secs as int, months as nat) is None,
        r matches Some(t) ==> (months > 0 ==> t > secs),
{
    let start = chrono::DateTime::from_timestamp(secs, 0)?;
    start.checked_add_months(chrono::Months::new(months)).map(|d| d.timestamp())
}

/// Relies on chrono's `Utc::now`: the current time in whole seconds.
#[verifier::external_body]
fn now_secs() -> (r: i64) {
    chrono::Utc::now().timestamp()
}

/// A token could not be minted.
#[derive(Debug, Clone, Copy, PartialEq, Eq, Structural)]
pub enum TokenError {
    /// The expiry lies outside the calendar's range.
    ExpiryOutOfRange,
}

/// The presented token is unknown or expired; the two are not told apart.
#[derive(Debug, Clone, Copy, PartialEq, Eq, Structural)]
pub struct Unauthenticated;

/// The expiry of a token created at `now`.
pub open spec fn expiry_for(now: i64) -> Option<int> {
    months_after(now as int, TOKEN_LIFETIME_MONTHS as nat)
}

/// The authorization for `userid` with `token`, created at `now`, if its expiry exists.
pub open spec fn minted(userid: i64, token: String, now: i64) -> Result<Authorization, TokenError> {
    match expiry_for(now) {
        Some(e) => {
            if i64::MIN <= e && e <= i64::MAX {
                Ok(Authorization { userid, token, created_at: now, expires: e as i64 })
            } else {
                Err(TokenError::ExpiryOutOfRange)
            }
        },
        None => Err(TokenError::ExpiryOutOfRange),
    }
}

/// Builds the authorization for `userid` with the given token, created at `now`
/// and expiring a fixed number of months later.
pub fn new_authorization(userid: i64, token: String, now: i64) -> (r: Result<Authorization, TokenError>)
    ensures
        r == minted(userid, token, now),
        r matches Ok(a) ==> a.expires > now,
{
    match add_months(now, TOKEN_LIFETIME_MONTHS) {
        Some(expires) => Ok(Authorization { userid, token, created_at: now, expires }),
        None => Err(TokenError::ExpiryOutOfRange),
    }
}

/// Whether a token created at `now` has an expiry in the 64-bit range.
pub open spec fn expiry_representable(now: i64) -> bool {
    expiry_for(now) matches Some(e) && i64::MIN <= e <= i64::MAX
}

/// Mints a fresh authorization for `userid` created at `now`: a random token of
/// the fixed length, expiring a fixed number of months later.
pub fn mint_authorization(userid: i64, now: i64) -> (r: Result<Authorization, TokenError>)
    ensures
        r is Ok <==> expiry_representable(now),
        r matches Err(e) ==> e == TokenError::ExpiryOutOfRange,
        r matches Ok(a) ==> {
            &&& a.userid == userid
            &&& well_formed_token(a.token@)
            &&& a.created_at == now
            &&& expiry_for(now) == Some(a.expires as int)
            &&& now < a.expires
        },
{
    let token = random_alphanumeric(TOKEN_LENGTH).unwrap();
    new_authorization(userid, token, now)
}

/// Mints a fresh authorization for `user`, created now.
pub fn create_authorization_for_user(user: &User) -> (r: Result<Authorization, TokenError>)
    ensures
        r matches Ok(a) ==> {
            &&& a.userid == user.id
            &&& well_formed_token(a.token@)
            &&& expiry_for(a.created_at) == Some(a.expires as int)
            &&& a.created_at < a.expires
        },
        r matches Err(e) ==> e == TokenError::ExpiryOutOfRange,
{
    let now = now_secs();
    mint_authorization(user.id, now)
}

/// The stored row matches the presented token and has not expired at `now`.
pub open spec fn token_accepts(row: Authorization, presented: Seq<char>, now: int) -> bool {
    row.token@ == presented && now < row.expires
}

/// The owner of the presented token, or `Unauthenticated` whether the row is
/// missing, holds another token, or has expired.
pub open spec fn resolve_outcome(row: Option<Authorization>, presented: Seq<char>, now: int) -> Result<
    i64,
    Unauthenticated,
> {
    match row {
        Some(a) => if token_accepts(a, presented, now) {
            Ok(a.userid)
        } else {
            Err(Unauthenticated)
        },
        None => Err(Unauthenticated),
    }
}

/// Whether `row` accepts `presented` at `now`.
pub fn authorization_accepts(row: &Authorization, presented: &String, now: i64) -> (r: bool)
    ensures
        r == token_accepts(*row, presented@, now as int),
{
    now < row.expires && row.token == *presented
}

/// Resolves a presented token to its owner's id, given the row that storage
/// found for it (if any).
pub fn resolve_token(row: Option<Authorization>, presented: &String, now: i64) -> (r: Result<
    i64,
    Unauthenticated,
>)
    ensures
        r == resolve_outcome(row, presented@, now as int),
{
    match row {
        Some(a) => {
            if authorization_accepts(&a, presented, now) {
                Ok(a.userid)
            } else {
                Err(Unauthenticated)
            }
        },
        None => Err(Unauthenticated),
    }
}

/// A token's resolution succeeds exactly while `now` is before its expiry, and
/// every failure is the same `Unauthenticated`.
pub proof fn lemma_resolve_until_expiry(row: Authorization, now: int)
    ensures
        now < row.expires ==> resolve_outcome(Some(row), row.token@, now) == Ok::<
            i64,
            Unauthenticated,
        >(row.userid),
        now >= row.expires ==> resolve_outcome(Some(row), row.token@, now) == Err::<
            i64,
            Unauthenticated,
        >(Unauthenticated),
        resolve_outcome(None, row.token@, now) == Err::<i64, Unauthenticated>(Unauthenticated),
{
}

/// A freshly minted authorization resolves to its user at the moment it was made.
pub proof fn lemma_minted_resolves(userid: i64, token: String, now: i64)
    requires
        minted(userid, token, now) is Ok,
        expiry_for(now) matches Some(e) ==> e > now,
    ensures
        resolve_outcome(Some(minted(userid, token, now)->Ok_0), token@, now as int) == Ok::<
            i64,
            Unauthenticated,
        >(userid),
{
}

/// Whether `a` is a live token of user `userid` at `now`.
pub open spec fn live_for(a: Authorization, userid: i64, now: int) -> bool {
    a.userid == userid && now < a.expires
}

/// What to hand a user who signs in: an existing live token, or a new one.
#[derive(Debug, Clone)]
pub enum TokenDecision {
    Reuse(Authorization),
    Mint,
}

/// Index `i` holds the canonical live token of `userid`: the latest expiry among
/// the live ones, the first such in order.
pub open spec fn is_canonical(rows: Seq<Authorization>, userid: i64, now: int, i: int) -> bool {
    &&& 0 <= i < rows.len()
    &&& live_for(rows[i], userid, now)
    &&& forall|j: int|
        0 <= j < rows.len() && live_for(#[trigger] rows[j], userid, now) ==> rows[j].expires
            <= rows[i].expires
    &&& forall|j: int|
        0 <= j < i && live_for(#[trigger] rows[j], userid, now) ==> rows[j].expires
            < rows[i].expires
}

/// Picks the canonical live token of `userid` among the stored rows, or asks for
/// a new one when none is live. Issuance never invalidates older tokens.
pub fn choose_authorization(rows: Vec<Authorization>, userid: i64, now: i64) -> (r: TokenDecision)
    ensures
        r is Mint <==> forall|j: int| 0 <= j < rows@.len() ==> !live_for(#[trigger] rows@[j], userid, now as int),
        r matches TokenDecision::Reuse(a) ==> exists|i: int|
            is_canonical(rows@, userid, now as int, i) && rows@[i] == a,
{
    let mut best: Option<usize> = None;
    let mut i: usize = 0;
    while i < rows.len()
        invariant
            0 <= i <= rows@.len(),
            best is None <==> forall|j: int| 0 <= j < i ==> !live_for(#[trigger] rows@[j], userid, now as int),
            best matches Some(b) ==> {
                &&& b < i
                &&& live_for(rows@[b as int], userid, now as int)
                &&& forall|j: int|
                    0 <= j < i && live_for(#[trigger] rows@[j], userid, now as int) ==> rows@[j].expires
                        <= rows@[b as int].expires
                &&& forall|j: int|
                    0 <= j < b && live_for(#[trigger] rows@[j], userid, now as int) ==> rows@[j].expires
                        < rows@[b as int].expires
            },
        decreases rows@.len() - i,
    {
        let row = &rows[i];
        if row.userid == userid && now < row.expires {
            match best {
                None => {
                    best = Some(i);
                },
                Some(b) => {
                    if rows[b].expires < row.expires {
                        best = Some(i);
                    }
                },
            }
        }
        i = i + 1;
    }
    match best {
        None => TokenDecision::Mint,
        Some(b) => {
            let mut rows = rows;
            let ghost before = rows@;
            let a = rows.swap_remove(b);
            assert(is_canonical(before, userid, now as int, b as int));
            TokenDecision::Reuse(a)
        },
    }
}

} // verus!
