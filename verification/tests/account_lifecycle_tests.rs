use fta::accounts::{Account, AccountType};

#[test]
fn account_lifecycle_tests_test_deactivate_sets_is_active_to_false() {
    let user_id = uuid::Uuid::new_v4().as_u128();
    let mut account = Account::new(
        user_id,
        "Test".to_string(),
        AccountType::Checking,
        10000,
        "USD".to_string(),
    );

    assert!(account.is_active);
    account.deactivate();
    assert!(!account.is_active);
}

#[test]
fn account_lifecycle_tests_test_activate_sets_is_active_to_true() {
    let user_id = uuid::Uuid::new_v4().as_u128();
    let mut account = Account::new(
        user_id,
        "Test".to_string(),
        AccountType::Checking,
        10000,
        "USD".to_string(),
    );

    account.deactivate();
    assert!(!account.is_active);

    account.activate();
    assert!(account.is_active);
}

#[test]
fn account_lifecycle_tests_test_rename_changes_account_name() {
    let user_id = uuid::Uuid::new_v4().as_u128();
    let mut account = Account::new(
        user_id,
        "Old Name".to_string(),
        AccountType::Checking,
        10000,
        "USD".to_string(),
    );

    account.rename("New Name".to_string());
    assert_eq!(account.name, "New Name");
}

#[test]
fn account_lifecycle_tests_test_rename_to_empty_string() {
    let user_id = uuid::Uuid::new_v4().as_u128();
    let mut account = Account::new(
        user_id,
        "Original Name".to_string(),
        AccountType::Checking,
        0,
        "USD".to_string(),
    );

    account.rename(String::new());
    assert_eq!(account.name, "");
}

#[test]
fn account_lifecycle_tests_test_rename_to_very_long_name() {
    let user_id = uuid::Uuid::new_v4().as_u128();
    let mut account = Account::new(
        user_id,
        "Short".to_string(),
        AccountType::Checking,
        0,
        "USD".to_string(),
    );

    let long_name = "B".repeat(5000);
    account.rename(long_name.clone());
    assert_eq!(account.name, long_name);
}

#[test]
fn account_lifecycle_tests_test_multiple_activations_deactivations() {
    let user_id = uuid::Uuid::new_v4().as_u128();
    let mut account = Account::new(
        user_id,
        "Test".to_string(),
        AccountType::Checking,
        0,
        "USD".to_string(),
    );

    for _ in 0..10 {
        account.deactivate();
        assert!(!account.is_active);
        account.activate();
        assert!(account.is_active);
    }
}

#[test]
fn changes_at_an_instant_record_that_instant() {
    let mut account = Account::new(1, "Test".to_string(), AccountType::Savings, 100, "EUR".to_string());
    let created = account.created_at;
    account.update_balance_at(-40, 5_000_000);
    assert_eq!((account.balance, account.updated_at), (60, 5_000_000));
    account.deactivate_at(6_000_000);
    assert_eq!((account.is_active, account.updated_at), (false, 6_000_000));
    account.activate_at(7_000_000);
    assert_eq!((account.is_active, account.updated_at), (true, 7_000_000));
    account.rename_at("Renamed".to_string(), 8_000_000);
    assert_eq!((account.name.as_str(), account.updated_at), ("Renamed", 8_000_000));
    assert_eq!((account.created_at, account.balance, account.currency.as_str()), (created, 60, "EUR"));
}
