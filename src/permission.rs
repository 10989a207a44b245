//! Capability flags held in a 64-bit field.
//!
//! Each flag is one bit; `LEAGUE_ADMIN` is a documented union of two flags.
//! The Admin bit satisfies every check made through `User::admin_or_perm`.
use vstd::prelude::*;

use crate::models::User;

verus! {

pub const NONE_BITS: i64 = 0;
pub const ADMIN_BITS: i64 = 1;
pub const SET_PERMISSIONS_BITS: i64 = 2;
pub const CREATE_LEAGUE_BITS: i64 = 4;
pub const CREATE_GAME_BITS: i64 = 8;
pub const CREATE_TEAM_BITS: i64 = 16;
pub const LEAGUE_ADMIN_BITS: i64 = CREATE_LEAGUE_BITS | CREATE_GAME_BITS;

/// True when `field` holds at least one bit of `flag`.
pub open spec fn has_flag(field: i64, flag: i64) -> bool {
    field & flag != 0
}

/// The check every privileged action uses: the Admin bit, or some bit of `flag`.
pub open spec fn admin_or(field: i64, flag: i64) -> bool {
    has_flag(field, ADMIN_BITS) || has_flag(field, flag)
}

/// The field after granting `flag`: unchanged when some bit of it is already
/// there, else the field with the bits of `flag` added.
pub open spec fn granted(field: i64, flag: i64) -> i64 {
    if has_flag(field, flag) {
        field
    } else {
        field | flag
    }
}

/// The flags that exist: none, each single capability, and the documented union.
pub open spec fn is_known_flag(bits: i64) -> bool {
    bits == NONE_BITS || bits == ADMIN_BITS || bits == SET_PERMISSIONS_BITS || bits
        == CREATE_LEAGUE_BITS || bits == CREATE_GAME_BITS || bits == CREATE_TEAM_BITS || bits
        == LEAGUE_ADMIN_BITS
}

/// A named capability, or a documented union of capabilities. Only the
/// constructors below make one, so no other integer can act as a flag.
#[derive(Clone, Copy, PartialEq, Eq, Structural)]
pub struct UserPermission {
    bits: i64,
}

impl View for UserPermission {
    type V = i64;

    closed spec fn view(&self) -> i64 {
        self.bits
    }
}

impl UserPermission {
    #[verifier::type_invariant]
    spec fn known(&self) -> bool {
        is_known_flag(self.bits)
    }

    pub fn none() -> (r: Self)
        ensures
            r@ == NONE_BITS,
    {
        UserPermission { bits: NONE_BITS }
    }

    pub fn admin() -> (r: Self)
        ensures
            r@ == ADMIN_BITS,
    {
        UserPermission { bits: ADMIN_BITS }
    }

    pub fn set_permissions() -> (r: Self)
        ensures
            r@ == SET_PERMISSIONS_BITS,
    {
        UserPermission { bits: SET_PERMISSIONS_BITS }
    }

    pub fn create_league() -> (r: Self)
        ensures
            r@ == CREATE_LEAGUE_BITS,
    {
        UserPermission { bits: CREATE_LEAGUE_BITS }
    }

    pub fn create_game() -> (r: Self)
        ensures
            r@ == CREATE_GAME_BITS,
    {
        UserPermission { bits: CREATE_GAME_BITS }
    }

    pub fn create_team() -> (r: Self)
        ensures
            r@ == CREATE_TEAM_BITS,
    {
        UserPermission { bits: CREATE_TEAM_BITS }
    }

    /// Create leagues and create games.
    pub fn league_admin() -> (r: Self)
        ensures
            r@ == LEAGUE_ADMIN_BITS,
    {
        UserPermission { bits: LEAGUE_ADMIN_BITS }
    }

    /// The flag's bits, as stored.
    pub fn bits(&self) -> (r: i64)
        ensures
            r == self@,
            is_known_flag(r),
    {
        proof {
            use_type_invariant(self);
        }
        self.bits
    }
}

impl User {
    /// Whether the permission field shares a bit with `permission`.
    pub fn check_has_permission(&self, permission: UserPermission) -> (r: bool)
        ensures
            r == has_flag(self.permissions, permission@),
    {
        let p = permission.bits();
        let f = self.permissions;
        assert(p & f == f & p) by (bit_vector);
        p & f != 0
    }

    /// Whether the user is an administrator or has `permission`.
    pub fn admin_or_perm(&self, permission: UserPermission) -> (r: bool)
        ensures
            r == admin_or(self.permissions, permission@),
    {
        self.check_has_permission(UserPermission::admin()) || self.check_has_permission(permission)
    }

    /// Grants `permission`, keeping every other bit of the field.
    pub fn add_permission(&mut self, permission: UserPermission)
        ensures
            final(self).permissions == granted(old(self).permissions, permission@),
            final(self).id == old(self).id,
            final(self).steamid == old(self).steamid,
            final(self).username == old(self).username,
            final(self).avatarurl == old(self).avatarurl,
            final(self).created_at == old(self).created_at,
    {
        if self.check_has_permission(permission) {
            return;
        }
        self.permissions = self.permissions | permission.bits();
    }
}

/// An administrator passes every permission check, whatever the flag asked for.
pub proof fn lemma_admin_overrides(field: i64, flag: i64)
    requires
        has_flag(field, ADMIN_BITS),
    ensures
        admin_or(field, flag),
{
}

/// Granting a flag twice leaves the same field as granting it once.
pub proof fn lemma_grant_idempotent(field: i64, flag: i64)
    ensures
        granted(granted(field, flag), flag) == granted(field, flag),
{
    if !has_flag(field, flag) {
        assert((field | flag) & flag == flag) by (bit_vector);
        if flag == 0 {
            assert(field | flag == field) by (bit_vector)
                requires
                    flag == 0,
            ;
        }
    }
}

/// After a grant of a non-empty flag the field has it, and no bit that was
/// set before is lost.
pub proof fn lemma_grant_keeps_bits(field: i64, flag: i64)
    requires
        flag != 0,
    ensures
        has_flag(granted(field, flag), flag),
        granted(field, flag) & field == field,
{
    assert((field | flag) & flag == flag) by (bit_vector);
    assert((field | flag) & field == field) by (bit_vector);
    assert(field & field == field) by (bit_vector);
}

/// Why a privileged action was refused.
#[derive(Debug, Clone, Copy, PartialEq, Eq, Structural)]
pub enum AccessError {
    /// No caller could be resolved from the credential.
    Unauthorized,
    /// The caller lacks the permission and is no administrator.
    Forbidden,
}

/// The outcome of gating an action that needs `flag` for a caller, if any.
pub open spec fn gate_outcome(caller: Option<User>, flag: i64) -> Result<(), AccessError> {
    match caller {
        None => Err(AccessError::Unauthorized),
        Some(u) => if admin_or(u.permissions, flag) {
            Ok(())
        } else {
            Err(AccessError::Forbidden)
        },
    }
}

/// Gates a privileged action: the caller must be known, and be an administrator
/// or hold `permission`.
pub fn gate_privileged(caller: &Option<User>, permission: UserPermission) -> (r: Result<(), AccessError>)
    ensures
        r == gate_outcome(*caller, permission@),
{
    match caller {
        None => Err(AccessError::Unauthorized),
        Some(u) => {
            if u.admin_or_perm(permission) {
                Ok(())
            } else {
                Err(AccessError::Forbidden)
            }
        },
    }
}

} // verus!
