//! The workflow by which a user signs a team they own up for a league.
//!
//! Each step takes what storage returned for the previous action and yields the
//! next state and the next action. Stages, in order: authenticate the caller,
//! validate the league, select the division, validate team ownership, check for
//! a live roster of the caller in that division, commit.
//!
//! Division selection: the highest priority wins; among equal priorities the
//! lowest division id wins.
use vstd::prelude::*;

use crate::models::{
    Authorization, Division, League, MiniTeamDivAssociation, Team, TeamDivAssociation, User,
    UserTeamAffiliation,
};
use crate::permission::{has_flag, ADMIN_BITS, CREATE_TEAM_BITS};
use crate::tokens::{authorization_accepts, token_accepts};

verus! {

/// What the caller asked for.
#[derive(Debug, Clone)]
pub struct SignupRequest {
    /// The bearer token presented.
    pub token: String,
    pub league_id: i64,
    pub team_id: i64,
    pub roster_name: Option<String>,
    pub is_private: bool,
}

/// An entity that was looked up and not found.
#[derive(Debug, Clone, Copy, PartialEq, Eq, Structural)]
pub enum Missing {
    League,
}

/// A business rule that the caller can fix.
#[derive(Debug, Clone, Copy, PartialEq, Eq, Structural)]
pub enum BadRequestReason {
    /// The league has no division to register into.
    NotAcceptingRegistrations,
    TeamNotFound,
    NotYourTeam,
    /// The caller already holds a live roster in the selected division.
    AlreadySignedUp,
}

/// Why a signup was turned down.
#[derive(Debug, Clone, Copy, PartialEq, Eq, Structural)]
pub enum SignupError {
    /// No token, or an unknown or expired one.
    Unauthorized,
    /// The league is closed and the caller may not register anyway.
    Forbidden,
    NotFound(Missing),
    BadRequest(BadRequestReason),
    /// Storage failed, or answered out of turn.
    Fatal,
}

/// The caller as far as the workflow needs them.
#[derive(Debug, Clone, Copy, PartialEq, Eq, Structural)]
pub struct Caller {
    pub id: i64,
    pub permissions: i64,
}

#[derive(Debug, Clone)]
pub enum SignupState {
    AuthenticatingCaller,
    LoadingCaller { user_id: i64 },
    ValidatingLeague { caller: Caller },
    SelectingDivision { caller: Caller },
    ValidatingOwnership { caller: Caller, division_id: i64 },
    CheckingRosterConflict { caller: Caller, team_id: i64, division_id: i64 },
    Committing { caller: Caller, team_id: i64, division_id: i64 },
    Success(TeamDivAssociation),
    Rejected(SignupError),
}

/// What storage must do next.
#[derive(Debug, Clone)]
pub enum SignupAction {
    /// Find the authorization row whose token equals the request's token.
    FindAuthorization,
    LoadUser { user_id: i64 },
    LoadLeague { league_id: i64 },
    LoadDivisions { league_id: i64 },
    LoadTeam { team_id: i64 },
    /// Load every roster the user is a member of.
    LoadRosters { user_id: i64 },
    /// In one transaction: insert `roster`, and a membership of `leader_id` on
    /// it with `affiliation`. A uniqueness violation on live memberships per
    /// user and division is reported as `CommitFailure::Conflict`.
    Commit { roster: MiniTeamDivAssociation, leader_id: i64, affiliation: UserTeamAffiliation },
    /// Nothing more: the state is final.
    Finish,
}

#[derive(Debug, Clone, Copy, PartialEq, Eq, Structural)]
pub enum CommitFailure {
    Conflict,
    Storage,
}

/// What storage returned for the last action.
#[derive(Debug)]
pub enum SignupEvent {
    AuthorizationFound { row: Option<Authorization>, now: i64 },
    UserFound(Option<User>),
    LeagueFound(Option<League>),
    DivisionsFound(Vec<Division>),
    TeamFound(Option<Team>),
    RostersFound(Vec<TeamDivAssociation>),
    Committed(Result<TeamDivAssociation, CommitFailure>),
    StorageFailed,
}

/// Index `i` holds the division to register into.
pub open spec fn is_top_division(divs: Seq<Division>, i: int) -> bool {
    &&& 0 <= i < divs.len()
    &&& forall|j: int|
        0 <= j < divs.len() ==> (#[trigger] divs[j]).prio < divs[i].prio || (divs[j].prio
            == divs[i].prio && divs[i].id <= divs[j].id)
}

/// The id of the division to register into (meaningful for a non-empty list).
pub open spec fn top_division_id(divs: Seq<Division>) -> i64 {
    divs[choose|i: int| is_top_division(divs, i)].id
}

/// Whether some roster in the list is live in `division_id`.
pub open spec fn has_live_roster(rosters: Seq<TeamDivAssociation>, division_id: i64) -> bool {
    exists|k: int|
        0 <= k < rosters.len() && (#[trigger] rosters[k]).divisionid == division_id
            && rosters[k].ended_at is None
}

/// Whether the caller may register into a league with this registration flag.
pub open spec fn may_register(caller: Caller, accepting_teams: bool) -> bool {
    accepting_teams || has_flag(caller.permissions, ADMIN_BITS) || has_flag(
        caller.permissions,
        CREATE_TEAM_BITS,
    )
}

/// The commit for a signup: the requested roster of the team in the division,
/// led by the caller.
pub open spec fn commit_action(req: SignupRequest, caller: Caller, team_id: i64, division_id: i64) -> SignupAction {
    SignupAction::Commit {
        roster: MiniTeamDivAssociation {
            roster_name: req.roster_name,
            teamid: team_id,
            divisionid: division_id,
            is_private: req.is_private,
        },
        leader_id: caller.id,
        affiliation: UserTeamAffiliation::Leader,
    }
}

pub open spec fn reject(e: SignupError) -> (SignupState, SignupAction) {
    (SignupState::Rejected(e), SignupAction::Finish)
}

/// The workflow's transition: from a state and what storage returned, the next
/// state and action.
pub open spec fn signup_next(req: SignupRequest, state: SignupState, event: SignupEvent) -> (
    SignupState,
    SignupAction,
) {
    match state {
        SignupState::Success(_) | SignupState::Rejected(_) => (state, SignupAction::Finish),
        _ => match event {
            SignupEvent::StorageFailed => reject(SignupError::Fatal),
            _ => match (state, event) {
                (
                    SignupState::AuthenticatingCaller,
                    SignupEvent::AuthorizationFound { row, now },
                ) => match row {
                    Some(a) => if token_accepts(a, req.token@, now as int) {
                        (
                            SignupState::LoadingCaller { user_id: a.userid },
                            SignupAction::LoadUser { user_id: a.userid },
                        )
                    } else {
                        reject(SignupError::Unauthorized)
                    },
                    None => reject(SignupError::Unauthorized),
                },
                (SignupState::LoadingCaller { user_id }, SignupEvent::UserFound(u)) => match u {
                    Some(user) => if user.id == user_id {
                        (
                            SignupState::ValidatingLeague {
                                caller: Caller { id: user.id, permissions: user.permissions },
                            },
                            SignupAction::LoadLeague { league_id: req.league_id },
                        )
                    } else {
                        reject(SignupError::Fatal)
                    },
                    None => reject(SignupError::Unauthorized),
                },
                (SignupState::ValidatingLeague { caller }, SignupEvent::LeagueFound(l)) => match l {
                    Some(league) => if league.id != req.league_id {
                        reject(SignupError::Fatal)
                    } else if may_register(caller, league.accepting_teams) {
                        (
                            SignupState::SelectingDivision { caller },
                            SignupAction::LoadDivisions { league_id: req.league_id },
                        )
                    } else {
                        reject(SignupError::Forbidden)
                    },
                    None => reject(SignupError::NotFound(Missing::League)),
                },
                (SignupState::SelectingDivision { caller }, SignupEvent::DivisionsFound(divs)) => {
                    if divs@.len() == 0 {
                        reject(SignupError::BadRequest(BadRequestReason::NotAcceptingRegistrations))
                    } else {
                        (
                            SignupState::ValidatingOwnership {
                                caller,
                                division_id: top_division_id(divs@),
                            },
                            SignupAction::LoadTeam { team_id: req.team_id },
                        )
                    }
                },
                (
                    SignupState::ValidatingOwnership { caller, division_id },
                    SignupEvent::TeamFound(t),
                ) => match t {
                    Some(team) => if team.id != req.team_id {
                        reject(SignupError::Fatal)
                    } else if team.owner_id != caller.id {
                        reject(SignupError::BadRequest(BadRequestReason::NotYourTeam))
                    } else {
                        (
                            SignupState::CheckingRosterConflict {
                                caller,
                                team_id: team.id,
                                division_id,
                            },
                            SignupAction::LoadRosters { user_id: caller.id },
                        )
                    },
                    None => reject(SignupError::BadRequest(BadRequestReason::TeamNotFound)),
                },
                (
                    SignupState::CheckingRosterConflict { caller, team_id, division_id },
                    SignupEvent::RostersFound(rosters),
                ) => if has_live_roster(rosters@, division_id) {
                    reject(SignupError::BadRequest(BadRequestReason::AlreadySignedUp))
                } else {
                    (
                        SignupState::Committing { caller, team_id, division_id },
                        commit_action(req, caller, team_id, division_id),
                    )
                },
                (
                    SignupState::Committing { caller, team_id, division_id },
                    SignupEvent::Committed(outcome),
                ) => match outcome {
                    Ok(roster) => if roster.teamid == team_id && roster.divisionid == division_id
                        && roster.ended_at is None {
                        (SignupState::Success(roster), SignupAction::Finish)
                    } else {
                        reject(SignupError::Fatal)
                    },
                    Err(CommitFailure::Conflict) => reject(
                        SignupError::BadRequest(BadRequestReason::AlreadySignedUp),
                    ),
                    Err(CommitFailure::Storage) => reject(SignupError::Fatal),
                },
                _ => reject(SignupError::Fatal),
            },
        },
    }
}

/// The state a signup starts in, and its first action.
pub fn signup_start() -> (r: (SignupState, SignupAction))
    ensures
        r == (SignupState::AuthenticatingCaller, SignupAction::FindAuthorization),
{
    (SignupState::AuthenticatingCaller, SignupAction::FindAuthorization)
}

/// Any two candidates for the top division carry the same id, so the chosen id
/// does not depend on which one is picked.
pub proof fn lemma_top_division_id(divs: Seq<Division>, i: int)
    requires
        is_top_division(divs, i),
    ensures
        top_division_id(divs) == divs[i].id,
{
    let k = choose|k: int| is_top_division(divs, k);
    assert(is_top_division(divs, k));
    assert(divs[k].prio <= divs[i].prio);
    assert(divs[i].prio <= divs[k].prio);
}

/// The index of the division to register into: highest priority, then lowest
/// id; `None` for an empty list.
pub fn select_division(divs: &Vec<Division>) -> (r: Option<usize>)
    ensures
        r is None <==> divs@.len() == 0,
        r matches Some(i) ==> is_top_division(divs@, i as int),
{
    if divs.len() == 0 {
        return None;
    }
    let mut best: usize = 0;
    let mut i: usize = 1;
    while i < divs.len()
        invariant
            1 <= i <= divs@.len(),
            best < i,
            forall|j: int|
                0 <= j < i ==> (#[trigger] divs@[j]).prio < divs@[best as int].prio || (
                divs@[j].prio == divs@[best as int].prio && divs@[best as int].id
                    <= divs@[j].id),
        decreases divs@.len() - i,
    {
        let d = &divs[i];
        let b = &divs[best];
        if d.prio > b.prio || (d.prio == b.prio && d.id < b.id) {
            best = i;
        }
        i = i + 1;
    }
    Some(best)
}

/// Whether one of the rosters is live in `division_id`.
pub fn find_live_roster(rosters: &Vec<TeamDivAssociation>, division_id: i64) -> (r: bool)
    ensures
        r == has_live_roster(rosters@, division_id),
{
    let mut i: usize = 0;
    while i < rosters.len()
        invariant
            0 <= i <= rosters@.len(),
            forall|k: int|
                0 <= k < i ==> !((#[trigger] rosters@[k]).divisionid == division_id
                    && rosters@[k].ended_at is None),
        decreases rosters@.len() - i,
    {
        if rosters[i].divisionid == division_id && rosters[i].ended_at.is_none() {
            assert(rosters@[i as int].divisionid == division_id && rosters@[i as int].ended_at is None);
            return true;
        }
        i = i + 1;
    }
    false
}

/// Advances the workflow by one step.
pub fn signup_step(req: &SignupRequest, state: SignupState, event: SignupEvent) -> (r: (
    SignupState,
    SignupAction,
))
    ensures
        r == signup_next(*req, state, event),
{
    match state {
        SignupState::Success(_) | SignupState::Rejected(_) => {
            return (state, SignupAction::Finish);
        },
        _ => {},
    }
    if let SignupEvent::StorageFailed = event {
        return (SignupState::Rejected(SignupError::Fatal), SignupAction::Finish);
    }
    let fatal = (SignupState::Rejected(SignupError::Fatal), SignupAction::Finish);
    match state {
        SignupState::AuthenticatingCaller => match event {
            SignupEvent::AuthorizationFound { row, now } => match row {
                Some(a) => {
                    if authorization_accepts(&a, &req.token, now) {
                        (
                            SignupState::LoadingCaller { user_id: a.userid },
                            SignupAction::LoadUser { user_id: a.userid },
                        )
                    } else {
                        (SignupState::Rejected(SignupError::Unauthorized), SignupAction::Finish)
                    }
                },
                None => (SignupState::Rejected(SignupError::Unauthorized), SignupAction::Finish),
            },
            _ => fatal,
        },
        SignupState::LoadingCaller { user_id } => match event {
            SignupEvent::UserFound(u) => match u {
                Some(user) => {
                    if user.id == user_id {
                        (
                            SignupState::ValidatingLeague {
                                caller: Caller { id: user.id, permissions: user.permissions },
                            },
                            SignupAction::LoadLeague { league_id: req.league_id },
                        )
                    } else {
                        fatal
                    }
                },
                None => (SignupState::Rejected(SignupError::Unauthorized), SignupAction::Finish),
            },
            _ => fatal,
        },
        SignupState::ValidatingLeague { caller } => match event {
            SignupEvent::LeagueFound(l) => match l {
                Some(league) => {
                    if league.id != req.league_id {
                        fatal
                    } else if league.accepting_teams || caller.permissions & ADMIN_BITS != 0
                        || caller.permissions & CREATE_TEAM_BITS != 0 {
                        (
                            SignupState::SelectingDivision { caller },
                            SignupAction::LoadDivisions { league_id: req.league_id },
                        )
                    } else {
                        (SignupState::Rejected(SignupError::Forbidden), SignupAction::Finish)
                    }
                },
                None => (
                    SignupState::Rejected(SignupError::NotFound(Missing::League)),
                    SignupAction::Finish,
                ),
            },
            _ => fatal,
        },
        SignupState::SelectingDivision { caller } => match event {
            SignupEvent::DivisionsFound(divs) => match select_division(&divs) {
                Some(i) => {
                    proof {
                        lemma_top_division_id(divs@, i as int);
                    }
                    (
                        SignupState::ValidatingOwnership { caller, division_id: divs[i].id },
                        SignupAction::LoadTeam { team_id: req.team_id },
                    )
                },
                None => (
                    SignupState::Rejected(
                        SignupError::BadRequest(BadRequestReason::NotAcceptingRegistrations),
                    ),
                    SignupAction::Finish,
                ),
            },
            _ => fatal,
        },
        SignupState::ValidatingOwnership { caller, division_id } => match event {
            SignupEvent::TeamFound(t) => match t {
                Some(team) => {
                    if team.id != req.team_id {
                        fatal
                    } else if team.owner_id != caller.id {
                        (
                            SignupState::Rejected(
                                SignupError::BadRequest(BadRequestReason::NotYourTeam),
                            ),
                            SignupAction::Finish,
                        )
                    } else {
                        (
                            SignupState::CheckingRosterConflict {
                                caller,
                                team_id: team.id,
                                division_id,
                            },
                            SignupAction::LoadRosters { user_id: caller.id },
                        )
                    }
                },
                None => (
                    SignupState::Rejected(SignupError::BadRequest(BadRequestReason::TeamNotFound)),
                    SignupAction::Finish,
                ),
            },
            _ => fatal,
        },
        SignupState::CheckingRosterConflict { caller, team_id, division_id } => match event {
            SignupEvent::RostersFound(rosters) => {
                if find_live_roster(&rosters, division_id) {
                    (
                        SignupState::Rejected(
                            SignupError::BadRequest(BadRequestReason::AlreadySignedUp),
                        ),
                        SignupAction::Finish,
                    )
                } else {
                    let roster_name = match &req.roster_name {
                        Some(n) => Some(n.clone()),
                        None => None,
                    };
                    (
                        SignupState::Committing { caller, team_id, division_id },
                        SignupAction::Commit {
                            roster: MiniTeamDivAssociation {
                                roster_name,
                                teamid: team_id,
                                divisionid: division_id,
                                is_private: req.is_private,
                            },
                            leader_id: caller.id,
                            affiliation: UserTeamAffiliation::Leader,
                        },
                    )
                }
            },
            _ => fatal,
        },
        SignupState::Committing { caller, team_id, division_id } => match event {
            SignupEvent::Committed(outcome) => match outcome {
                Ok(roster) => {
                    if roster.teamid == team_id && roster.divisionid == division_id
                        && roster.ended_at.is_none() {
                        (SignupState::Success(roster), SignupAction::Finish)
                    } else {
                        fatal
                    }
                },
                Err(CommitFailure::Conflict) => (
                    SignupState::Rejected(SignupError::BadRequest(BadRequestReason::AlreadySignedUp)),
                    SignupAction::Finish,
                ),
                Err(CommitFailure::Storage) => fatal,
            },
            _ => fatal,
        },
        _ => fatal,
    }
}

/// While the caller holds a live roster in the selected division, the conflict
/// check turns the signup down as a bad request.
pub proof fn lemma_live_roster_blocks_signup(
    req: SignupRequest,
    caller: Caller,
    team_id: i64,
    division_id: i64,
    rosters: Vec<TeamDivAssociation>,
)
    requires
        has_live_roster(rosters@, division_id),
    ensures
        signup_next(
            req,
            SignupState::CheckingRosterConflict { caller, team_id, division_id },
            SignupEvent::RostersFound(rosters),
        ) == reject(SignupError::BadRequest(BadRequestReason::AlreadySignedUp)),
{
}

/// A commit that storage refuses because another signup of the same user in the
/// same division got there first is a bad request, not a failure.
pub proof fn lemma_concurrent_commit_rejected(
    req: SignupRequest,
    caller: Caller,
    team_id: i64,
    division_id: i64,
)
    ensures
        signup_next(
            req,
            SignupState::Committing { caller, team_id, division_id },
            SignupEvent::Committed(Err(CommitFailure::Conflict)),
        ) == reject(SignupError::BadRequest(BadRequestReason::AlreadySignedUp)),
{
}

/// A successful signup yields a live roster of the requested team in the
/// selected division; once that roster is among the caller's rosters, a second
/// signup into the same division is turned down.
pub proof fn lemma_success_blocks_second_signup(
    req: SignupRequest,
    caller: Caller,
    team_id: i64,
    division_id: i64,
    outcome: Result<TeamDivAssociation, CommitFailure>,
    req2: SignupRequest,
    team_id2: i64,
    rosters: Vec<TeamDivAssociation>,
)
    requires
        signup_next(
            req,
            SignupState::Committing { caller, team_id, division_id },
            SignupEvent::Committed(outcome),
        ).0 is Success,
        rosters@.contains(
            signup_next(
                req,
                SignupState::Committing { caller, team_id, division_id },
                SignupEvent::Committed(outcome),
            ).0->Success_0,
        ),
    ensures
        outcome matches Ok(roster) && roster.teamid == team_id && roster.divisionid == division_id
            && roster.ended_at is None,
        signup_next(
            req2,
            SignupState::CheckingRosterConflict { caller, team_id: team_id2, division_id },
            SignupEvent::RostersFound(rosters),
        ) == reject(SignupError::BadRequest(BadRequestReason::AlreadySignedUp)),
{
    let roster = outcome->Ok_0;
    let k = choose|k: int| 0 <= k < rosters@.len() && rosters@[k] == roster;
    assert(rosters@[k].divisionid == division_id && rosters@[k].ended_at is None);
}

} // verus!
