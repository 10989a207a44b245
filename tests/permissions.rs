use league_core::models::User;
use league_core::permission::{gate_privileged, AccessError, UserPermission};

fn user_with(permissions: i64) -> User {
    User {
        id: 7,
        permissions,
        avatarurl: String::from("https://avatars.example/7.jpg"),
        steamid: String::from("76561198000000007"),
        username: String::from("seven"),
        created_at: 1_700_000_000,
    }
}

#[test]
fn flag_values_are_distinct_bits() {
    assert_eq!(UserPermission::none().bits(), 0);
    assert_eq!(UserPermission::admin().bits(), 1);
    assert_eq!(UserPermission::set_permissions().bits(), 2);
    assert_eq!(UserPermission::create_league().bits(), 4);
    assert_eq!(UserPermission::create_game().bits(), 8);
    assert_eq!(UserPermission::create_team().bits(), 16);
    assert_eq!(UserPermission::league_admin().bits(), 12);
}

#[test]
fn has_permission_is_a_bitwise_test() {
    let u = user_with(4 | 16);
    assert!(u.check_has_permission(UserPermission::create_league()));
    assert!(u.check_has_permission(UserPermission::create_team()));
    assert!(!u.check_has_permission(UserPermission::create_game()));
    assert!(!u.check_has_permission(UserPermission::admin()));
    assert!(!u.check_has_permission(UserPermission::none()));
    assert!(u.check_has_permission(UserPermission::league_admin()));
}

#[test]
fn admin_overrides_every_flag() {
    let admin = user_with(1);
    assert!(admin.admin_or_perm(UserPermission::none()));
    assert!(admin.admin_or_perm(UserPermission::set_permissions()));
    assert!(admin.admin_or_perm(UserPermission::create_league()));
    assert!(admin.admin_or_perm(UserPermission::create_game()));
    assert!(admin.admin_or_perm(UserPermission::create_team()));
    assert!(admin.admin_or_perm(UserPermission::league_admin()));
}

#[test]
fn specific_flag_without_admin() {
    let u = user_with(8);
    assert!(u.admin_or_perm(UserPermission::create_game()));
    assert!(!u.admin_or_perm(UserPermission::create_team()));
}

#[test]
fn grant_adds_bit_and_keeps_others() {
    let mut u = user_with(4);
    u.add_permission(UserPermission::create_team());
    assert_eq!(u.permissions, 20);
    assert_eq!(u.id, 7);
    assert_eq!(u.steamid, "76561198000000007");
}

#[test]
fn grant_twice_equals_grant_once() {
    let mut once = user_with(2);
    once.add_permission(UserPermission::create_game());
    let mut twice = user_with(2);
    twice.add_permission(UserPermission::create_game());
    twice.add_permission(UserPermission::create_game());
    assert_eq!(once.permissions, 10);
    assert_eq!(twice.permissions, once.permissions);
}

#[test]
fn grant_of_present_flag_is_noop() {
    let mut u = user_with(1 | 4);
    u.add_permission(UserPermission::create_league());
    assert_eq!(u.permissions, 5);
    let mut none = user_with(6);
    none.add_permission(UserPermission::none());
    assert_eq!(none.permissions, 6);
}

#[test]
fn gate_refuses_unknown_caller() {
    let r = gate_privileged(&None, UserPermission::create_league());
    assert_eq!(r, Err(AccessError::Unauthorized));
}

#[test]
fn gate_refuses_caller_without_permission() {
    let r = gate_privileged(&Some(user_with(16)), UserPermission::create_league());
    assert_eq!(r, Err(AccessError::Forbidden));
}

#[test]
fn gate_admits_admin_and_holder() {
    assert_eq!(gate_privileged(&Some(user_with(1)), UserPermission::create_league()), Ok(()));
    assert_eq!(gate_privileged(&Some(user_with(4)), UserPermission::create_league()), Ok(()));
}
