//! The identity provider's profile summaries, and the decisions taken on them.
//!
//! Fetching and decoding the provider's JSON is done by the caller; these
//! functions decide what the decoded records mean.
use vstd::prelude::*;

verus! {

/// A failure while talking to the identity provider.
#[derive(Debug, Clone, Copy, PartialEq, Eq, Structural)]
pub enum ApiError {
    /// The request could not be sent or its answer not read.
    Transport,
    /// The provider answered with something this library does not handle.
    Handling,
    /// The provider's answer named no player.
    NotFound,
    /// A key-value form could not be decoded.
    KeyValues,
    /// A JSON body could not be decoded.
    Serde,
}

/// How much of a profile the provider shows.
#[derive(Debug, Clone, Copy, PartialEq, Eq, Structural)]
pub enum ReturnedAccessLevel {
    /// The profile is visible (visibility state 3).
    All,
    /// Only the public part is visible (visibility state 1).
    Private,
}

/// The part of a profile that is always visible.
#[derive(Debug, Clone)]
pub struct PubliclyAvailableSummary {
    /// The external identity of the user.
    pub steamid: String,
    /// The display name.
    pub personaname: String,
    pub profileurl: String,
    pub avatar: String,
    pub avatarmedium: String,
    pub avatarfull: String,
    pub personastate: i64,
    pub profilestate: i64,
    pub lastlogoff: i64,
    pub commentpermission: i64,
}

/// The part of a profile that only a visible profile shows.
#[derive(Debug, Clone)]
pub struct PrivatelyAvailableSummary {
    pub realname: String,
    pub primaryclanid: String,
    pub timecreated: i64,
    pub gameid: Option<String>,
    pub gameserverip: Option<String>,
    pub gameextrainfo: Option<String>,
    pub cityid: Option<String>,
    pub loccountrycode: Option<String>,
    pub locstatecode: Option<String>,
    pub loccityid: Option<String>,
}

/// One player record of a visible profile, both parts together.
#[derive(Debug, Clone)]
pub struct AllPlayerInfo {
    pub realname: String,
    pub primaryclanid: String,
    pub timecreated: i64,
    pub gameid: Option<String>,
    pub gameserverip: Option<String>,
    pub gameextrainfo: Option<String>,
    pub cityid: Option<String>,
    pub loccountrycode: Option<String>,
    pub locstatecode: Option<String>,
    pub loccityid: Option<String>,
    pub steamid: String,
    pub personaname: String,
    pub profileurl: String,
    pub avatar: String,
    pub avatarmedium: String,
    pub avatarfull: String,
    pub personastate: i64,
    pub profilestate: i64,
    pub lastlogoff: i64,
    pub commentpermission: i64,
}

/// A profile summary, shaped by how much the provider shows.
#[derive(Debug)]
pub enum PlayerSummaryAccess {
    All { private: Box<PrivatelyAvailableSummary>, public: Box<PubliclyAvailableSummary> },
    Private { public: Box<PubliclyAvailableSummary> },
}

/// The visibility states of the players in a summary answer, in answer order.
#[derive(Debug, Clone)]
pub struct SteamReturnInfo {
    pub visibility_states: Vec<i32>,
}

/// The public part of a record, whatever its shape.
pub open spec fn public_part(access: PlayerSummaryAccess) -> PubliclyAvailableSummary {
    match access {
        PlayerSummaryAccess::All { public, .. } => *public,
        PlayerSummaryAccess::Private { public } => *public,
    }
}

/// The access level a visibility state stands for.
pub open spec fn level_of(state: i32) -> Result<ReturnedAccessLevel, ApiError> {
    if state == 3 {
        Ok(ReturnedAccessLevel::All)
    } else if state == 1 {
        Ok(ReturnedAccessLevel::Private)
    } else {
        Err(ApiError::Handling)
    }
}

/// The access level of the last player in an answer.
pub open spec fn access_level_spec(states: Seq<i32>) -> Result<ReturnedAccessLevel, ApiError> {
    if states.len() == 0 {
        Err(ApiError::Handling)
    } else {
        level_of(states.last())
    }
}

impl SteamReturnInfo {
    /// The access level that the answer grants, read from its last player.
    pub fn access_level(&self) -> (r: Result<ReturnedAccessLevel, ApiError>)
        ensures
            r == access_level_spec(self.visibility_states@),
    {
        let n = self.visibility_states.len();
        if n == 0 {
            return Err(ApiError::Handling);
        }
        let state = self.visibility_states[n - 1];
        if state == 3 {
            Ok(ReturnedAccessLevel::All)
        } else if state == 1 {
            Ok(ReturnedAccessLevel::Private)
        } else {
            Err(ApiError::Handling)
        }
    }
}

/// The public fields of a full player record.
pub open spec fn public_of(value: AllPlayerInfo) -> PubliclyAvailableSummary {
    PubliclyAvailableSummary {
        steamid: value.steamid,
        personaname: value.personaname,
        profileurl: value.profileurl,
        avatar: value.avatar,
        avatarmedium: value.avatarmedium,
        avatarfull: value.avatarfull,
        personastate: value.personastate,
        profilestate: value.profilestate,
        lastlogoff: value.lastlogoff,
        commentpermission: value.commentpermission,
    }
}

/// The private fields of a full player record.
pub open spec fn private_of(value: AllPlayerInfo) -> PrivatelyAvailableSummary {
    PrivatelyAvailableSummary {
        realname: value.realname,
        primaryclanid: value.primaryclanid,
        timecreated: value.timecreated,
        gameid: value.gameid,
        gameserverip: value.gameserverip,
        gameextrainfo: value.gameextrainfo,
        cityid: value.cityid,
        loccountrycode: value.loccountrycode,
        locstatecode: value.locstatecode,
        loccityid: value.loccityid,
    }
}

impl PubliclyAvailableSummary {
    /// The public fields of a full player record.
    pub fn from_allplayerinfo(value: AllPlayerInfo) -> (r: Self)
        ensures
            r == public_of(value),
    {
        PubliclyAvailableSummary {
            steamid: value.steamid,
            personaname: value.personaname,
            profileurl: value.profileurl,
            avatar: value.avatar,
            avatarmedium: value.avatarmedium,
            avatarfull: value.avatarfull,
            personastate: value.personastate,
            profilestate: value.profilestate,
            lastlogoff: value.lastlogoff,
            commentpermission: value.commentpermission,
        }
    }
}

impl PlayerSummaryAccess {
    /// Splits a full player record into its private and public parts.
    pub fn from_allplayerinfo(value: AllPlayerInfo) -> (r: Self)
        ensures
            r matches PlayerSummaryAccess::All { private, public } && *private == private_of(value)
                && *public == public_of(value),
    {
        let private = PrivatelyAvailableSummary {
            realname: value.realname,
            primaryclanid: value.primaryclanid,
            timecreated: value.timecreated,
            gameid: value.gameid,
            gameserverip: value.gameserverip,
            gameextrainfo: value.gameextrainfo,
            cityid: value.cityid,
            loccountrycode: value.loccountrycode,
            locstatecode: value.locstatecode,
            loccityid: value.loccityid,
        };
        let public = PubliclyAvailableSummary {
            steamid: value.steamid,
            personaname: value.personaname,
            profileurl: value.profileurl,
            avatar: value.avatar,
            avatarmedium: value.avatarmedium,
            avatarfull: value.avatarfull,
            personastate: value.personastate,
            profilestate: value.profilestate,
            lastlogoff: value.lastlogoff,
            commentpermission: value.commentpermission,
        };
        PlayerSummaryAccess::All { private: Box::new(private), public: Box::new(public) }
    }

    /// The summary of a visible profile: the last player of the answer, or
    /// `NotFound` when it names none.
    pub fn from_all_players(players: Vec<AllPlayerInfo>) -> (r: Result<Self, ApiError>)
        ensures
            players@.len() == 0 <==> r == Err::<Self, ApiError>(ApiError::NotFound),
            players@.len() > 0 ==> (r matches Ok(PlayerSummaryAccess::All { private, public })
                && *private == private_of(players@.last()) && *public == public_of(players@.last())),
    {
        let mut players = players;
        match players.pop() {
            Some(p) => Ok(PlayerSummaryAccess::from_allplayerinfo(p)),
            None => Err(ApiError::NotFound),
        }
    }

    /// The summary of a profile that shows only its public part: the last
    /// player of the answer, or `NotFound` when it names none.
    pub fn from_public_players(players: Vec<PubliclyAvailableSummary>) -> (r: Result<Self, ApiError>)
        ensures
            players@.len() == 0 ==> r == Err::<Self, ApiError>(ApiError::NotFound),
            players@.len() > 0 ==> (r matches Ok(access) && access is Private && public_part(access)
                == players@.last()),
    {
        let mut players = players;
        match players.pop() {
            Some(p) => Ok(PlayerSummaryAccess::Private { public: Box::new(p) }),
            None => Err(ApiError::NotFound),
        }
    }

    /// The public part, whatever the shape.
    pub fn public(&self) -> (r: &PubliclyAvailableSummary)
        ensures
            *r == public_part(*self),
    {
        match self {
            PlayerSummaryAccess::All { public, .. } => public,
            PlayerSummaryAccess::Private { public } => public,
        }
    }
}

} // verus!
