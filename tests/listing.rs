use league_core::models::{User, UserTeam, UserTeamAffiliation};
use league_core::paging::{page_window, PageWindow};
use league_core::roster::{split_players, RosterPlayer};

fn player(id: i64, ended_at: Option<i64>) -> RosterPlayer {
    RosterPlayer {
        user: User {
            id,
            permissions: 0,
            avatarurl: String::new(),
            steamid: format!("{id}"),
            username: format!("p{id}"),
            created_at: 0,
        },
        assoc: UserTeam {
            userid: id,
            teamdivid: 1,
            affiliation: UserTeamAffiliation::Member,
            created_at: 0,
            ended_at,
        },
    }
}

#[test]
fn page_defaults() {
    assert_eq!(page_window(None, None), Some(PageWindow { page: 0, amount: 10, offset: 0 }));
    assert_eq!(page_window(Some(3), None), Some(PageWindow { page: 3, amount: 10, offset: 30 }));
    assert_eq!(page_window(Some(2), Some(25)), Some(PageWindow { page: 2, amount: 25, offset: 50 }));
}

#[test]
fn page_zero_amount_refused() {
    assert_eq!(page_window(Some(1), Some(0)), None);
}

#[test]
fn page_largest_values() {
    assert_eq!(page_window(Some(u32::MAX), Some(u32::MAX)), None);
    assert_eq!(
        page_window(Some(u32::MAX), Some(2)),
        Some(PageWindow { page: u32::MAX, amount: 2, offset: 8_589_934_590 })
    );
}

#[test]
fn players_split_by_departure() {
    let (current, past) = split_players(vec![
        player(1, None),
        player(2, Some(5)),
        player(3, None),
        player(4, Some(9)),
    ]);
    let c: Vec<i64> = current.iter().map(|p| p.user.id).collect();
    let p: Vec<i64> = past.iter().map(|p| p.user.id).collect();
    assert_eq!(c, vec![1, 3]);
    assert_eq!(p, vec![2, 4]);
}

#[test]
fn players_split_empty() {
    let (current, past) = split_players(Vec::new());
    assert!(current.is_empty());
    assert!(past.is_empty());
}
