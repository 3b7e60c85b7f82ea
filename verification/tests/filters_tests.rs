use fta::accounts::PaginationQuery;
use fta::accounts::{
    account_conditions, plan_account_listing, AccountCondition, AccountFilters, AccountSortColumn,
    AccountType,
};

#[test]
fn test_account_filters_is_empty() {
    let filters = AccountFilters::default();
    assert!(filters.is_empty());

    let filters = AccountFilters {
        currency: Some("USD".to_string()),
        ..Default::default()
    };
    assert!(!filters.is_empty());
}

#[test]
fn test_account_filters_validation() {
    let filters = AccountFilters {
        min_balance: Some(1000),
        max_balance: Some(500),
        ..Default::default()
    };
    assert!(filters.validate().is_err());

    let filters = AccountFilters {
        min_balance: Some(500),
        max_balance: Some(1000),
        ..Default::default()
    };
    assert!(filters.validate().is_ok());
}

#[test]
fn inverted_balance_range_reports_its_message() {
    let filters = AccountFilters {
        min_balance: Some(1),
        max_balance: Some(0),
        ..Default::default()
    };
    assert_eq!(
        filters.validate(),
        Err("min_balance must be less than or equal to max_balance".to_string())
    );
}

#[test]
fn equal_balance_bounds_are_valid() {
    let filters = AccountFilters {
        min_balance: Some(7),
        max_balance: Some(7),
        ..Default::default()
    };
    assert!(filters.validate().is_ok());
}

#[test]
fn one_sided_balance_range_is_valid() {
    let filters = AccountFilters {
        min_balance: Some(i64::MAX),
        ..Default::default()
    };
    assert!(filters.validate().is_ok());
}

#[test]
fn any_single_field_makes_filters_non_empty() {
    let with_user = AccountFilters { user_id: Some(1), ..Default::default() };
    let with_type = AccountFilters { account_type: Some(AccountType::Cash), ..Default::default() };
    let with_active = AccountFilters { is_active: Some(false), ..Default::default() };
    let with_name = AccountFilters { name: Some(String::new()), ..Default::default() };
    assert!(!with_user.is_empty());
    assert!(!with_type.is_empty());
    assert!(!with_active.is_empty());
    assert!(!with_name.is_empty());
}

#[test]
fn conditions_follow_the_fields_in_order() {
    let filters = AccountFilters {
        user_id: Some(42),
        currency: Some("EUR".to_string()),
        min_balance: Some(-5),
        name: Some("sav".to_string()),
        ..Default::default()
    };
    let conditions = account_conditions(&filters);
    assert_eq!(conditions.len(), 4);
    assert!(matches!(conditions[0], AccountCondition::UserIdIs(42)));
    assert!(matches!(&conditions[1], AccountCondition::CurrencyIs(c) if c == "EUR"));
    assert!(matches!(conditions[2], AccountCondition::BalanceAtLeast(-5)));
    assert!(matches!(&conditions[3], AccountCondition::NameContains(n) if n == "sav"));
    assert!(account_conditions(&AccountFilters::default()).is_empty());
}

#[test]
fn listing_sorts_by_known_columns_and_pages_by_offset() {
    let filters = AccountFilters::default();
    let by_name = plan_account_listing(&filters, Some("name"), "ASC", 20, 45);
    assert_eq!(by_name.sort_column, AccountSortColumn::Name);
    assert!(by_name.ascending);
    assert_eq!(by_name.page_size, 20);
    assert_eq!(by_name.page_index, 2);

    let by_balance = plan_account_listing(&filters, Some("balance"), "desc", 10, 0);
    assert_eq!(by_balance.sort_column, AccountSortColumn::Balance);
    assert!(!by_balance.ascending);
    assert_eq!(by_balance.page_index, 0);

    let unknown = plan_account_listing(&filters, Some("colour"), "asc", 10, 9);
    assert_eq!(unknown.sort_column, AccountSortColumn::CreatedAt);
    let absent = plan_account_listing(&filters, None, "asc", 10, 9);
    assert_eq!(absent.sort_column, AccountSortColumn::CreatedAt);
    let updated = plan_account_listing(&filters, Some("updated_at"), "Asc", 10, 9);
    assert_eq!(updated.sort_column, AccountSortColumn::UpdatedAt);
    assert!(updated.ascending);
}

#[test]
fn a_page_size_below_one_counts_as_one() {
    let filters = AccountFilters::default();
    let plan = plan_account_listing(&filters, None, "asc", 0, 7);
    assert_eq!(plan.page_index, 7);
    assert_eq!(plan.page_size, 0);
    let negative = plan_account_listing(&filters, None, "asc", -3, 7);
    assert_eq!(negative.page_index, 7);
    assert_eq!(negative.page_size, (-3i64) as u64);
}

#[test]
fn default_paging_is_first_page_of_twenty() {
    assert_eq!(fta::accounts::default_page(), 1);
    assert_eq!(fta::accounts::default_per_page(), 20);
}

#[test]
fn account_kinds_are_stored_as_json_names_and_read_back() {
    let kinds = [
        (AccountType::Checking, "\"checking\""),
        (AccountType::Savings, "\"savings\""),
        (AccountType::Credit, "\"credit\""),
        (AccountType::Investment, "\"investment\""),
        (AccountType::Cash, "\"cash\""),
    ];
    for (kind, text) in kinds {
        assert_eq!(kind.to_stored(), text);
        assert_eq!(AccountType::from_stored(text), kind);
    }
    assert_eq!(AccountType::from_stored("savings"), AccountType::Checking);
    assert_eq!(AccountType::from_stored(""), AccountType::Checking);
}

#[test]
fn sort_keys_that_requests_may_name() {
    let fields = fta::accounts::ALLOWED_SORT_FIELDS;
    assert_eq!(fields.len(), 6);
    assert!(fields.contains(&"balance"));
    assert!(fields.contains(&"account_type"));
    assert!(!fields.contains(&"colour"));
}

#[test]
fn a_page_starts_after_the_pages_before_it() {
    let q = PaginationQuery { page: 3, per_page: 20 };
    assert_eq!((q.limit(), q.offset()), (20, 40));
    assert_eq!(PaginationQuery { page: 1, per_page: 20 }.offset(), 0);
    assert_eq!(PaginationQuery { page: 0, per_page: 20 }.offset(), 0);
    assert_eq!(PaginationQuery { page: u32::MAX, per_page: u32::MAX }.offset(), u32::MAX);
}
