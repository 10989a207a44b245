use league_core::models::{MiniUser, User, UserTeamAffiliation};
use league_core::provision::{
    account_from_summary, CreateFailure, ProvisionAction, ProvisionEvent, ProvisionState,
    ProvisioningError, UserProvisioner,
};
use league_core::steamapi::{
    AllPlayerInfo, ApiError, PlayerSummaryAccess, PubliclyAvailableSummary, ReturnedAccessLevel,
    SteamReturnInfo,
};

fn public(steamid: &str) -> PubliclyAvailableSummary {
    PubliclyAvailableSummary {
        steamid: String::from(steamid),
        personaname: String::from("Player One"),
        profileurl: String::from("https://steamcommunity.com/id/one/"),
        avatar: String::from("small.jpg"),
        avatarmedium: String::from("medium.jpg"),
        avatarfull: String::from("full.jpg"),
        personastate: 1,
        profilestate: 1,
        lastlogoff: 1_700_000_000,
        commentpermission: 1,
    }
}

fn all_info(steamid: &str) -> AllPlayerInfo {
    AllPlayerInfo {
        realname: String::from("Real Name"),
        primaryclanid: String::from("103582791429521408"),
        timecreated: 1_200_000_000,
        gameid: None,
        gameserverip: None,
        gameextrainfo: None,
        cityid: None,
        loccountrycode: Some(String::from("NL")),
        locstatecode: None,
        loccityid: None,
        steamid: String::from(steamid),
        personaname: String::from("Player One"),
        profileurl: String::from("https://steamcommunity.com/id/one/"),
        avatar: String::from("small.jpg"),
        avatarmedium: String::from("medium.jpg"),
        avatarfull: String::from("full.jpg"),
        personastate: 1,
        profilestate: 1,
        lastlogoff: 1_700_000_000,
        commentpermission: 1,
    }
}

fn stored_user(id: i64, steamid: &str, permissions: i64) -> User {
    User {
        id,
        permissions,
        avatarurl: String::from("full.jpg"),
        steamid: String::from(steamid),
        username: String::from("Player One"),
        created_at: 1_700_000_000,
    }
}

#[test]
fn access_level_reads_last_player() {
    let visible = SteamReturnInfo { visibility_states: vec![1, 3] };
    assert_eq!(visible.access_level(), Ok(ReturnedAccessLevel::All));
    let private = SteamReturnInfo { visibility_states: vec![1] };
    assert_eq!(private.access_level(), Ok(ReturnedAccessLevel::Private));
    let odd = SteamReturnInfo { visibility_states: vec![2] };
    assert_eq!(odd.access_level(), Err(ApiError::Handling));
    let empty = SteamReturnInfo { visibility_states: vec![] };
    assert_eq!(empty.access_level(), Err(ApiError::Handling));
}

#[test]
fn full_record_is_split() {
    match PlayerSummaryAccess::from_all_players(vec![all_info("1"), all_info("2")]) {
        Ok(PlayerSummaryAccess::All { private, public }) => {
            assert_eq!(public.steamid, "2");
            assert_eq!(public.avatarfull, "full.jpg");
            assert_eq!(private.realname, "Real Name");
            assert_eq!(private.loccountrycode, Some(String::from("NL")));
        }
        _ => panic!("expected a full summary"),
    }
    assert!(matches!(
        PlayerSummaryAccess::from_all_players(Vec::new()),
        Err(ApiError::NotFound)
    ));
}

#[test]
fn public_record_is_kept() {
    match PlayerSummaryAccess::from_public_players(vec![public("9")]) {
        Ok(PlayerSummaryAccess::Private { public }) => assert_eq!(public.steamid, "9"),
        _ => panic!("expected a public summary"),
    }
    assert!(matches!(
        PlayerSummaryAccess::from_public_players(Vec::new()),
        Err(ApiError::NotFound)
    ));
}

#[test]
fn account_takes_public_subset_only() {
    let m: MiniUser = account_from_summary(PlayerSummaryAccess::from_allplayerinfo(all_info("5")), false);
    assert_eq!(m.steamid, "5");
    assert_eq!(m.username, "Player One");
    assert_eq!(m.avatarurl, "full.jpg");
    assert_eq!(m.permissions, Some(0));
    let root = account_from_summary(PlayerSummaryAccess::Private { public: Box::new(public("6")) }, true);
    assert_eq!(root.permissions, Some(1));
}

#[test]
fn mini_user_from_user() {
    let m = MiniUser::from(stored_user(3, "42", 5));
    assert_eq!(m.steamid, "42");
    assert_eq!(m.permissions, Some(5));
}

#[test]
fn affiliation_ranks() {
    assert_eq!(UserTeamAffiliation::Leader.rank(), 20);
    assert_eq!(UserTeamAffiliation::Officer.rank(), 10);
    assert_eq!(UserTeamAffiliation::Member.rank(), 0);
}

#[test]
fn existing_user_is_returned_unchanged() {
    let p = UserProvisioner::new(None);
    let id = String::from("76561198000000001");
    let (s, a) = p.start();
    assert!(matches!(a, ProvisionAction::LookUp));
    let (s, a) = p.step(&id, s, ProvisionEvent::LookedUp(Some(stored_user(4, "76561198000000001", 2))));
    assert!(matches!(a, ProvisionAction::Finish));
    match s {
        ProvisionState::Done(u) => {
            assert_eq!(u.id, 4);
            assert_eq!(u.permissions, 2);
        }
        _ => panic!("expected the stored user"),
    }
}

#[test]
fn new_user_is_created_from_summary() {
    let p = UserProvisioner::new(Some(String::from("someone-else")));
    let id = String::from("76561198000000001");
    let (s, _) = p.start();
    let (s, a) = p.step(&id, s, ProvisionEvent::LookedUp(None));
    assert!(matches!(a, ProvisionAction::FetchSummary));
    let summary = PlayerSummaryAccess::Private { public: Box::new(public("76561198000000001")) };
    let (s, a) = p.step(&id, s, ProvisionEvent::SummaryFetched(Ok(summary)));
    match a {
        ProvisionAction::Create(m) => {
            assert_eq!(m.steamid, "76561198000000001");
            assert_eq!(m.permissions, Some(0));
        }
        _ => panic!("expected a creation"),
    }
    let (s, a) = p.step(&id, s, ProvisionEvent::Created(Ok(stored_user(11, "76561198000000001", 0))));
    assert!(matches!(a, ProvisionAction::Finish));
    assert!(matches!(s, ProvisionState::Done(ref u) if u.id == 11 && u.permissions == 0));
}

#[test]
fn root_identity_is_created_as_admin() {
    let p = UserProvisioner::new(Some(String::from("76561198000000001")));
    let id = String::from("76561198000000001");
    let (s, _) = p.start();
    let (s, _) = p.step(&id, s, ProvisionEvent::LookedUp(None));
    let summary = PlayerSummaryAccess::Private { public: Box::new(public("76561198000000001")) };
    let (s, a) = p.step(&id, s, ProvisionEvent::SummaryFetched(Ok(summary)));
    match a {
        ProvisionAction::Create(m) => assert_eq!(m.permissions, Some(1)),
        _ => panic!("expected a creation"),
    }
    let (s, a) = p.step(&id, s, ProvisionEvent::Created(Ok(stored_user(11, "76561198000000001", 1))));
    assert!(matches!(a, ProvisionAction::Finish));
    assert!(matches!(s, ProvisionState::Done(ref u) if u.permissions == 1));
}

#[test]
fn concurrent_creation_rereads_existing_row() {
    let p = UserProvisioner::new(None);
    let id = String::from("76561198000000001");
    let (s, _) = p.start();
    let (s, _) = p.step(&id, s, ProvisionEvent::LookedUp(None));
    let summary = PlayerSummaryAccess::Private { public: Box::new(public("76561198000000001")) };
    let (s, _) = p.step(&id, s, ProvisionEvent::SummaryFetched(Ok(summary)));
    let (s, a) = p.step(&id, s, ProvisionEvent::Created(Err(CreateFailure::Conflict)));
    assert!(matches!(a, ProvisionAction::LookUp));
    let (s2, a2) = p.step(&id, s, ProvisionEvent::LookedUp(Some(stored_user(4, "76561198000000001", 0))));
    assert!(matches!(a2, ProvisionAction::Finish));
    assert!(matches!(s2, ProvisionState::Done(ref u) if u.id == 4));
}

#[test]
fn conflict_then_missing_row_fails() {
    let p = UserProvisioner::new(None);
    let id = String::from("1");
    let s = ProvisionState::LookingUp { after_conflict: true };
    let (s, _) = p.step(&id, s, ProvisionEvent::LookedUp(None));
    assert!(matches!(s, ProvisionState::Failed(ProvisioningError::Conflict)));
}

#[test]
fn provider_failure_and_mismatch() {
    let p = UserProvisioner::new(None);
    let id = String::from("1");
    let (s, _) = p.step(&id, ProvisionState::FetchingSummary, ProvisionEvent::SummaryFetched(Err(ApiError::Transport)));
    assert!(matches!(s, ProvisionState::Failed(ProvisioningError::Provider(ApiError::Transport))));
    let summary = PlayerSummaryAccess::Private { public: Box::new(public("2")) };
    let (s, _) = p.step(&id, ProvisionState::FetchingSummary, ProvisionEvent::SummaryFetched(Ok(summary)));
    assert!(matches!(s, ProvisionState::Failed(ProvisioningError::SummaryMismatch)));
    let (s, _) = p.step(&id, ProvisionState::Creating, ProvisionEvent::StorageFailed);
    assert!(matches!(s, ProvisionState::Failed(ProvisioningError::Storage)));
}
