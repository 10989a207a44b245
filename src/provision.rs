//! Mapping a verified external identity to a user account, creating the account
//! on first sight.
//!
//! Storage enforces that an external identity belongs to at most one user: a
//! second insertion for the same identity is refused as a conflict, which this
//! workflow resolves by reading the account again.
use vstd::prelude::*;

use crate::models::{MiniUser, User};
use crate::permission::ADMIN_BITS;
use crate::steamapi::{public_part, ApiError, PlayerSummaryAccess};

verus! {

/// Process-wide provisioning configuration.
#[derive(Debug, Clone)]
pub struct UserProvisioner {
    /// The one external identity whose account is created as administrator.
    pub root_identity: Option<String>,
}

impl UserProvisioner {
    pub fn new(root_identity: Option<String>) -> (r: Self)
        ensures
            r.root_identity == root_identity,
    {
        UserProvisioner { root_identity }
    }
}

#[derive(Debug, Clone, Copy, PartialEq, Eq, Structural)]
pub enum ProvisioningError {
    /// Another creation of the same identity won, and the account could not be
    /// read back afterwards.
    Conflict,
    /// The identity provider could not give the profile summary.
    Provider(ApiError),
    /// The profile summary describes another identity.
    SummaryMismatch,
    /// Storage failed, or answered out of turn.
    Storage,
}

#[derive(Debug, Clone)]
pub enum ProvisionState {
    /// Waiting for the account of the identity; `after_conflict` when this is
    /// the read that follows a refused creation.
    LookingUp { after_conflict: bool },
    FetchingSummary,
    Creating,
    Done(User),
    Failed(ProvisioningError),
}

/// What the caller must do next.
#[derive(Debug, Clone)]
pub enum ProvisionAction {
    /// Find the user whose external identity is the one being provisioned.
    LookUp,
    /// Fetch the identity's profile summary from the provider.
    FetchSummary,
    /// Insert this user, permission field included, in one statement; a
    /// uniqueness violation on the external identity is reported as
    /// `CreateFailure::Conflict`.
    Create(MiniUser),
    Finish,
}

#[derive(Debug, Clone, Copy, PartialEq, Eq, Structural)]
pub enum CreateFailure {
    Conflict,
    Storage,
}

/// What the caller found for the last action.
#[derive(Debug)]
pub enum ProvisionEvent {
    LookedUp(Option<User>),
    SummaryFetched(Result<PlayerSummaryAccess, ApiError>),
    Created(Result<User, CreateFailure>),
    StorageFailed,
}

/// The account to create from a summary: its public identity, name and
/// avatar, with the Admin bit for the root identity and no permission otherwise.
pub open spec fn new_account(access: PlayerSummaryAccess, root: bool) -> MiniUser {
    MiniUser {
        steamid: public_part(access).steamid,
        avatarurl: public_part(access).avatarfull,
        username: public_part(access).personaname,
        permissions: Some(if root { ADMIN_BITS } else { 0i64 }),
    }
}

pub open spec fn is_root(cfg: UserProvisioner, identity: Seq<char>) -> bool {
    cfg.root_identity matches Some(r) && r@ == identity
}

pub open spec fn fail(e: ProvisioningError) -> (ProvisionState, ProvisionAction) {
    (ProvisionState::Failed(e), ProvisionAction::Finish)
}

/// The provisioning transition for the external identity `identity`.
pub open spec fn provision_next(
    cfg: UserProvisioner,
    identity: Seq<char>,
    state: ProvisionState,
    event: ProvisionEvent,
) -> (ProvisionState, ProvisionAction) {
    match state {
        ProvisionState::Done(_) | ProvisionState::Failed(_) => (state, ProvisionAction::Finish),
        _ => match event {
            ProvisionEvent::StorageFailed => fail(ProvisioningError::Storage),
            _ => match (state, event) {
                (ProvisionState::LookingUp { after_conflict }, ProvisionEvent::LookedUp(found)) => {
                    match found {
                        Some(u) => if u.steamid@ == identity {
                            (ProvisionState::Done(u), ProvisionAction::Finish)
                        } else {
                            fail(ProvisioningError::Storage)
                        },
                        None => if after_conflict {
                            fail(ProvisioningError::Conflict)
                        } else {
                            (ProvisionState::FetchingSummary, ProvisionAction::FetchSummary)
                        },
                    }
                },
                (ProvisionState::FetchingSummary, ProvisionEvent::SummaryFetched(fetched)) => {
                    match fetched {
                        Ok(access) => if public_part(access).steamid@ == identity {
                            (
                                ProvisionState::Creating,
                                ProvisionAction::Create(new_account(access, is_root(cfg, identity))),
                            )
                        } else {
                            fail(ProvisioningError::SummaryMismatch)
                        },
                        Err(e) => fail(ProvisioningError::Provider(e)),
                    }
                },
                (ProvisionState::Creating, ProvisionEvent::Created(created)) => match created {
                    Ok(u) => if u.steamid@ == identity {
                        (ProvisionState::Done(u), ProvisionAction::Finish)
                    } else {
                        fail(ProvisioningError::Storage)
                    },
                    Err(CreateFailure::Conflict) => (
                        ProvisionState::LookingUp { after_conflict: true },
                        ProvisionAction::LookUp,
                    ),
                    Err(CreateFailure::Storage) => fail(ProvisioningError::Storage),
                },
                _ => fail(ProvisioningError::Storage),
            },
        },
    }
}

impl UserProvisioner {
    /// The state provisioning starts in, and its first action.
    pub fn start(&self) -> (r: (ProvisionState, ProvisionAction))
        ensures
            r == (ProvisionState::LookingUp { after_conflict: false }, ProvisionAction::LookUp),
    {
        (ProvisionState::LookingUp { after_conflict: false }, ProvisionAction::LookUp)
    }

    /// Whether `identity` is the configured root identity.
    pub fn is_root_identity(&self, identity: &String) -> (r: bool)
        ensures
            r == is_root(*self, identity@),
    {
        match &self.root_identity {
            Some(root) => *root == *identity,
            None => false,
        }
    }

    /// Advances provisioning of `identity` by one step.
    pub fn step(&self, identity: &String, state: ProvisionState, event: ProvisionEvent) -> (r: (
        ProvisionState,
        ProvisionAction,
    ))
        ensures
            r == provision_next(*self, identity@, state, event),
    {
        match state {
            ProvisionState::Done(_) | ProvisionState::Failed(_) => {
                return (state, ProvisionAction::Finish);
            },
            _ => {},
        }
        if let ProvisionEvent::StorageFailed = event {
            return (ProvisionState::Failed(ProvisioningError::Storage), ProvisionAction::Finish);
        }
        let storage = (ProvisionState::Failed(ProvisioningError::Storage), ProvisionAction::Finish);
        match state {
            ProvisionState::LookingUp { after_conflict } => match event {
                ProvisionEvent::LookedUp(found) => match found {
                    Some(u) => {
                        if u.steamid == *identity {
                            (ProvisionState::Done(u), ProvisionAction::Finish)
                        } else {
                            storage
                        }
                    },
                    None => {
                        if after_conflict {
                            (
                                ProvisionState::Failed(ProvisioningError::Conflict),
                                ProvisionAction::Finish,
                            )
                        } else {
                            (ProvisionState::FetchingSummary, ProvisionAction::FetchSummary)
                        }
                    },
                },
                _ => storage,
            },
            ProvisionState::FetchingSummary => match event {
                ProvisionEvent::SummaryFetched(fetched) => match fetched {
                    Ok(access) => {
                        if access.public().steamid == *identity {
                            let root = self.is_root_identity(identity);
                            let account = account_from_summary(access, root);
                            (ProvisionState::Creating, ProvisionAction::Create(account))
                        } else {
                            (
                                ProvisionState::Failed(ProvisioningError::SummaryMismatch),
                                ProvisionAction::Finish,
                            )
                        }
                    },
                    Err(e) => (
                        ProvisionState::Failed(ProvisioningError::Provider(e)),
                        ProvisionAction::Finish,
                    ),
                },
                _ => storage,
            },
            ProvisionState::Creating => match event {
                ProvisionEvent::Created(created) => match created {
                    Ok(u) => {
                        if u.steamid == *identity {
                            (ProvisionState::Done(u), ProvisionAction::Finish)
                        } else {
                            storage
                        }
                    },
                    Err(CreateFailure::Conflict) => (
                        ProvisionState::LookingUp { after_conflict: true },
                        ProvisionAction::LookUp,
                    ),
                    Err(CreateFailure::Storage) => storage,
                },
                _ => storage,
            },
            _ => storage,
        }
    }
}

/// The account to create from a profile summary: the public identity, display
/// name and full-size avatar, with the Admin bit when `root` and an empty
/// permission field otherwise.
pub fn account_from_summary(access: PlayerSummaryAccess, root: bool) -> (r: MiniUser)
    ensures
        r == new_account(access, root),
{
    let public = match access {
        PlayerSummaryAccess::All { public, .. } => public,
        PlayerSummaryAccess::Private { public } => public,
    };
    let public = *public;
    let permissions: i64 = if root {
        ADMIN_BITS
    } else {
        0
    };
    MiniUser {
        steamid: public.steamid,
        avatarurl: public.avatarfull,
        username: public.personaname,
        permissions: Some(permissions),
    }
}

/// Creation is asked for only right after the provider's summary, and the
/// summary only after a first lookup that found no account: an identity that
/// already has an account is never created again.
pub proof fn lemma_create_only_after_empty_lookup(
    cfg: UserProvisioner,
    identity: Seq<char>,
    state: ProvisionState,
    event: ProvisionEvent,
)
    ensures
        provision_next(cfg, identity, state, event).1 is Create ==> state is FetchingSummary,
        provision_next(cfg, identity, state, event).1 is FetchSummary ==> (state matches ProvisionState::LookingUp { after_conflict: false } && event matches ProvisionEvent::LookedUp(None)),
{
}

/// When two provisionings of one identity race, storage refuses the second
/// creation; the loser reads the account back and ends with it, or fails with
/// `Conflict`, and never creates another.
pub proof fn lemma_conflict_resolved_by_reread(
    cfg: UserProvisioner,
    identity: Seq<char>,
    existing: User,
)
    requires
        existing.steamid@ == identity,
    ensures
        provision_next(
            cfg,
            identity,
            ProvisionState::Creating,
            ProvisionEvent::Created(Err(CreateFailure::Conflict)),
        ) == (ProvisionState::LookingUp { after_conflict: true }, ProvisionAction::LookUp),
        provision_next(
            cfg,
            identity,
            ProvisionState::LookingUp { after_conflict: true },
            ProvisionEvent::LookedUp(Some(existing)),
        ) == (ProvisionState::Done(existing), ProvisionAction::Finish),
        provision_next(
            cfg,
            identity,
            ProvisionState::LookingUp { after_conflict: true },
            ProvisionEvent::LookedUp(None),
        ) == fail(ProvisioningError::Conflict),
{
}

/// The account of the root identity is created with the Admin bit, in the same
/// insertion; every other account is created with no permission.
pub proof fn lemma_root_created_admin(
    cfg: UserProvisioner,
    identity: Seq<char>,
    access: PlayerSummaryAccess,
)
    requires
        public_part(access).steamid@ == identity,
    ensures
        provision_next(
            cfg,
            identity,
            ProvisionState::FetchingSummary,
            ProvisionEvent::SummaryFetched(Ok(access)),
        ).1 matches ProvisionAction::Create(m) && m.permissions == Some(
            if is_root(cfg, identity) {
                ADMIN_BITS
            } else {
                0i64
            },
        ),
{
}

/// Provisioning only ever ends with an account of the identity it was asked for.
pub proof fn lemma_done_has_identity(
    cfg: UserProvisioner,
    identity: Seq<char>,
    state: ProvisionState,
    event: ProvisionEvent,
)
    requires
        !(state is Done),
    ensures
        provision_next(cfg, identity, state, event).0 matches ProvisionState::Done(u) ==> u.steamid@
            == identity,
{
}

} // verus!
