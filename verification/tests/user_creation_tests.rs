use fta::users::User;

#[test]
fn test_new_creates_user_with_correct_fields() {
    let user = User::new(
        "user@example.com".to_string(),
        "hashed_password".to_string(),
        Some("John".to_string()),
        Some("Doe".to_string()),
    );

    assert_eq!(user.email, "user@example.com");
    assert_eq!(user.password_hash, "hashed_password");
    assert_eq!(user.first_name, Some("John".to_string()));
    assert_eq!(user.last_name, Some("Doe".to_string()));
}

#[test]
fn test_new_user_with_none_names() {
    let user = User::new(
        "user@example.com".to_string(),
        "hashed_password".to_string(),
        None,
        None,
    );

    assert!(user.first_name.is_none());
    assert!(user.last_name.is_none());
}

#[test]
fn test_new_user_timestamps_are_set() {
    let user = User::new(
        "user@example.com".to_string(),
        "hashed_password".to_string(),
        None,
        None,
    );

    assert_eq!(user.created_at, user.updated_at);
}

#[test]
fn test_full_name_with_both_names() {
    let user = User::new(
        "user@example.com".to_string(),
        "hashed_password".to_string(),
        Some("John".to_string()),
        Some("Doe".to_string()),
    );

    assert_eq!(user.full_name(), Some("John Doe".to_string()));
}

#[test]
fn test_full_name_with_first_name_only() {
    let user = User::new(
        "user@example.com".to_string(),
        "hashed_password".to_string(),
        Some("John".to_string()),
        None,
    );

    assert_eq!(user.full_name(), Some("John".to_string()));
}

#[test]
fn test_full_name_with_last_name_only() {
    let user = User::new(
        "user@example.com".to_string(),
        "hashed_password".to_string(),
        None,
        Some("Doe".to_string()),
    );

    assert_eq!(user.full_name(), Some("Doe".to_string()));
}

#[test]
fn test_full_name_with_no_names() {
    let user = User::new(
        "user@example.com".to_string(),
        "hashed_password".to_string(),
        None,
        None,
    );

    assert_eq!(user.full_name(), None);
}

#[test]
fn test_email_is_preserved() {
    let user = User::new(
        "test@example.com".to_string(),
        "hash".to_string(),
        None,
        None,
    );

    assert_eq!(user.email, "test@example.com");
}

#[test]
fn display_name_splits_into_first_and_last_name() {
    let (first, last) = fta::users::split_display_name("  Grace   Brewster Hopper ");
    assert_eq!(first, Some("Grace".to_string()));
    assert_eq!(last, Some("Brewster Hopper".to_string()));
    let user = User::new("g@x.y".to_string(), "h".to_string(), first, last);
    assert_eq!(user.full_name(), Some("Grace Brewster Hopper".to_string()));

    assert_eq!(fta::users::split_display_name("Cher"), (Some("Cher".to_string()), None));
    assert_eq!(fta::users::split_display_name(" \t "), (None, None));
}

#[test]
fn profile_update_keeps_the_credentials() {
    let mut user = User::new("a@b.c".to_string(), "h1".to_string(), Some("A".to_string()), None);
    let id = user.id;
    user.update_profile(None, Some("B".to_string()));
    assert_eq!(user.first_name, None);
    assert_eq!(user.last_name, Some("B".to_string()));
    assert_eq!(user.password_hash, "h1");
    user.change_password("h2".to_string());
    assert_eq!(user.password_hash, "h2");
    assert_eq!(user.last_name, Some("B".to_string()));
    assert_eq!(user.id, id);
    assert_eq!(user.email, "a@b.c");
}

#[test]
fn user_changes_at_an_instant_record_that_instant() {
    let mut u = User::new("a@b.c".to_string(), "h".to_string(), None, None);
    let created = u.created_at;
    u.update_profile_at(Some("Ada".to_string()), None, 5_000_000);
    assert_eq!((u.first_name.as_deref(), u.updated_at), (Some("Ada"), 5_000_000));
    u.change_password_at("h2".to_string(), 6_000_000);
    assert_eq!((u.password_hash.as_str(), u.updated_at), ("h2", 6_000_000));
    assert_eq!((u.created_at, u.email.as_str()), (created, "a@b.c"));
}

#[test]
fn display_names_split_on_unicode_white_space() {
    assert_eq!(
        fta::users::split_display_name("Ada\u{00A0}King\u{3000}Lovelace\u{2028}"),
        (Some("Ada".to_string()), Some("King Lovelace".to_string()))
    );
}
