//! Records of the league platform, with timestamps as seconds since the Unix epoch (UTC).
use vstd::prelude::*;

verus! {

/// A player account.
#[derive(Debug, Clone)]
pub struct User {
    /// Internal id; the external identity is `steamid`.
    pub id: i64,
    /// Bitfield of capability flags, see `crate::permission`.
    pub permissions: i64,
    pub avatarurl: String,
    pub steamid: String,
    pub username: String,
    pub created_at: i64,
}

/// A user without the id and creation time, as handed to storage for insertion.
#[derive(Debug, Clone)]
pub struct MiniUser {
    pub steamid: String,
    pub permissions: Option<i64>,
    pub avatarurl: String,
    pub username: String,
}

impl From<User> for MiniUser {
    fn from(value: User) -> MiniUser {
        MiniUser {
            steamid: value.steamid,
            username: value.username,
            avatarurl: value.avatarurl,
            permissions: Some(value.permissions),
        }
    }
}

impl vstd::std_specs::convert::FromSpecImpl<User> for MiniUser {
    open spec fn obeys_from_spec() -> bool {
        true
    }

    open spec fn from_spec(value: User) -> MiniUser {
        MiniUser {
            steamid: value.steamid,
            username: value.username,
            avatarurl: value.avatarurl,
            permissions: Some(value.permissions),
        }
    }
}

/// A league as submitted for creation.
#[derive(Debug, Clone)]
pub struct MiniLeague {
    pub name: String,
    pub accepting_teams: bool,
    pub is_hidden: bool,
}

/// A league, which owns divisions.
#[derive(Debug, Clone)]
pub struct League {
    pub id: i64,
    pub name: String,
    pub accepting_teams: bool,
    pub created_at: i64,
    pub is_hidden: bool,
}

/// A division of a league; `prio` ranks the divisions of one league.
#[derive(Debug, Clone)]
pub struct Division {
    pub id: i64,
    pub prio: i32,
    pub leagueid: i64,
    pub name: String,
    pub created_at: i64,
}

/// A division as submitted for creation.
#[derive(Debug, Clone)]
pub struct MiniDivision {
    pub leagueid: i64,
    pub name: String,
}

/// A user's administrative relation to a division.
#[derive(Debug, Clone)]
pub struct DivisionAdmin {
    pub id: i64,
    pub divisionid: i64,
    pub userid: i64,
    pub relation: String,
}

/// A division administrator with the user's display details.
#[derive(Debug, Clone)]
pub struct WrappedDivisionAdmin {
    pub inner: DivisionAdmin,
    pub username: String,
    pub avatarurl: String,
}

/// A team as submitted for creation.
#[derive(Debug, Clone)]
pub struct MiniTeam {
    pub owner_id: i64,
    pub team_name: String,
    pub team_tag: String,
}

/// A team, owned by one user and independent of any league.
#[derive(Debug, Clone)]
pub struct Team {
    pub id: i64,
    pub owner_id: i64,
    pub team_name: String,
    pub team_tag: String,
    pub created_at: i64,
}

/// A roster: one team registered in one division. `ended_at` is `None` while it is active.
#[derive(Debug, Clone)]
pub struct TeamDivAssociation {
    pub id: i64,
    pub roster_name: Option<String>,
    pub teamid: i64,
    pub divisionid: i64,
    pub is_private: bool,
    pub created_at: i64,
    pub ended_at: Option<i64>,
}

/// A roster as submitted for insertion.
#[derive(Debug, Clone)]
pub struct MiniTeamDivAssociation {
    pub roster_name: Option<String>,
    pub teamid: i64,
    pub divisionid: i64,
    pub is_private: bool,
}

/// A team together with one of its rosters.
#[derive(Debug, Clone)]
pub struct DeepTeamDivAssociation {
    pub team_info: Team,
    pub association_info: TeamDivAssociation,
}

/// Rank of a user within a roster, Leader above Officer above Member.
#[derive(Debug, Clone, Copy, PartialEq, Eq, Structural)]
pub enum UserTeamAffiliation {
    Leader,
    Officer,
    Member,
}

/// The stored rank of each affiliation.
pub open spec fn affiliation_rank(a: UserTeamAffiliation) -> i32 {
    match a {
        UserTeamAffiliation::Leader => 20,
        UserTeamAffiliation::Officer => 10,
        UserTeamAffiliation::Member => 0,
    }
}

impl UserTeamAffiliation {
    /// The integer under which the affiliation is stored.
    pub fn rank(&self) -> (r: i32)
        ensures
            r == affiliation_rank(*self),
    {
        match self {
            UserTeamAffiliation::Leader => 20,
            UserTeamAffiliation::Officer => 10,
            UserTeamAffiliation::Member => 0,
        }
    }
}

/// A membership: a user on a roster. `ended_at` marks departure.
#[derive(Debug, Clone)]
pub struct UserTeam {
    pub userid: i64,
    pub teamdivid: i64,
    pub affiliation: UserTeamAffiliation,
    pub created_at: i64,
    pub ended_at: Option<i64>,
}

/// A session token owned by a user, valid until `expires`.
#[derive(Debug, Clone)]
pub struct Authorization {
    pub userid: i64,
    pub token: String,
    pub created_at: i64,
    pub expires: i64,
}

/// A request to place several users, by external identity, on a team in a league.
#[derive(Debug, Clone)]
pub struct UserTeamBody {
    pub league_id: i64,
    pub user_steamids: Vec<String>,
    pub team_id: i64,
}

} // verus!
