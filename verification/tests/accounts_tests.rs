use ymessenger::accounts::{
    apply_user_profile, find_for_switch, initial_current, legacy_account, login_account, login_account_id,
    remove_account, store_account, update_profile, Account,
};
use ymessenger::auth::{OAuthToken, User};

fn token(user_id: Option<&str>) -> OAuthToken {
    OAuthToken {
        access_token: "acc".to_string(),
        refresh_token: Some("ref".to_string()),
        expires_in: 3600,
        token_type: "bearer".to_string(),
        user_id: user_id.map(|s| s.to_string()),
        received_at: 1000,
    }
}

fn user(id: &str) -> User {
    User {
        id: id.to_string(),
        phone: None,
        email: None,
        first_name: Some("Ivan".to_string()),
        last_name: Some("Petrov".to_string()),
        display_name: None,
        username: Some("ivan".to_string()),
        avatar_id: Some("av1".to_string()),
        status: None,
        is_bot: false,
        is_premium: false,
    }
}

fn is_uuid_shape(s: &str) -> bool {
    s.len() == 36 && s.chars().filter(|c| *c == '-').count() == 4
}

#[test]
fn login_id_prefers_token_user_id() {
    assert_eq!(login_account_id(&token(Some("42")), &user("7")), "42");
    assert_eq!(login_account_id(&token(None), &user("7")), "7");
}

#[test]
fn login_id_empty_becomes_random() {
    let id = login_account_id(&token(Some("")), &user("7"));
    assert!(is_uuid_shape(&id));
    let id = login_account_id(&token(None), &user(""));
    assert!(is_uuid_shape(&id));
}

#[test]
fn login_account_takes_first_name_and_expiry() {
    let a = login_account("42".to_string(), &token(Some("42")), &user("42"));
    assert_eq!(a.id, "42");
    assert_eq!(a.access_token, "acc");
    assert_eq!(a.display_name.as_deref(), Some("Ivan"));
    assert_eq!(a.avatar_url.as_deref(), Some("av1"));
    assert_eq!(a.expires_at, 4600);
    assert_eq!(a.refresh_token.as_deref(), Some("ref"));
}

#[test]
fn legacy_account_uses_token_user() {
    let a = legacy_account(&token(Some("u9")));
    assert_eq!(a.id, "u9");
    assert_eq!(a.expires_at, 4600);
    assert!(a.display_name.is_none());
    let b = legacy_account(&token(None));
    assert!(is_uuid_shape(&b.id));
}

#[test]
fn store_replaces_same_id_and_appends_new() {
    let mut list = Vec::new();
    store_account(&mut list, Account::new("a".to_string(), "t1".to_string()));
    store_account(&mut list, Account::new("b".to_string(), "t2".to_string()));
    store_account(&mut list, Account::new("a".to_string(), "t3".to_string()));
    assert_eq!(list.len(), 2);
    assert_eq!(list[0].id, "a");
    assert_eq!(list[0].access_token, "t3");
    assert_eq!(list[1].id, "b");
}

#[test]
fn profile_update_trims_name_and_skips_blank() {
    let mut list = vec![Account::new("a".to_string(), "t".to_string())];
    update_profile(&mut list, "a", Some("  Anna  ".to_string()), Some("".to_string()), None);
    assert_eq!(list[0].display_name.as_deref(), Some("Anna"));
    assert!(list[0].avatar_url.is_none());
    update_profile(&mut list, "a", Some("   ".to_string()), Some("pic".to_string()), None);
    assert_eq!(list[0].display_name.as_deref(), Some("Anna"));
    assert_eq!(list[0].avatar_url.as_deref(), Some("pic"));
}

#[test]
fn profile_update_of_unknown_account_adds_it_from_token() {
    let mut list = Vec::new();
    let t = token(Some("z"));
    update_profile(&mut list, "z", Some(" Zed ".to_string()), None, Some(&t));
    assert_eq!(list.len(), 1);
    assert_eq!(list[0].id, "z");
    assert_eq!(list[0].access_token, "acc");
    assert_eq!(list[0].display_name.as_deref(), Some(" Zed "));
    assert_eq!(list[0].expires_at, 4600);
    let mut list2 = Vec::new();
    update_profile(&mut list2, "y", Some("  ".to_string()), None, None);
    assert_eq!(list2[0].access_token, "");
    assert!(list2[0].display_name.is_none());
    assert_eq!(list2[0].expires_at, 0);
}

#[test]
fn remove_and_switch_refuse_unknown_ids() {
    let mut list = vec![
        Account::new("a".to_string(), "t".to_string()),
        Account::new("b".to_string(), "u".to_string()),
    ];
    assert_eq!(find_for_switch(&list, "b").unwrap().access_token, "u");
    assert_eq!(find_for_switch(&list, "c").unwrap_err(), "Account not found: c");
    assert_eq!(remove_account(&mut list, "c"), Err("Account not found".to_string()));
    assert_eq!(list.len(), 2);
    assert_eq!(remove_account(&mut list, "a"), Ok(()));
    assert_eq!(list.len(), 1);
    assert_eq!(list[0].id, "b");
}

#[test]
fn initial_current_falls_back_to_first() {
    let list = vec![Account::new("a".to_string(), "t".to_string())];
    assert_eq!(initial_current(None, &list).as_deref(), Some("a"));
    assert_eq!(initial_current(Some("x".to_string()), &list).as_deref(), Some("x"));
    assert_eq!(initial_current(None, &Vec::new()), None);
}

#[test]
fn fetched_profile_names_the_account() {
    let mut list = vec![Account::new("42".to_string(), "t".to_string())];
    apply_user_profile(&mut list, "42", &user("42"), None);
    assert_eq!(list[0].display_name.as_deref(), Some("Ivan Petrov"));
    assert_eq!(list[0].avatar_url.as_deref(), Some("av1"));
}
