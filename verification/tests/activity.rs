use chrono::{TimeZone, Utc};
use rocket_hexagonal::domain::account::AccountId;
use rocket_hexagonal::domain::activity::{
    Activity, ActivityBuilder, ActivityBuilderError, ActivityId, ActivityWindow,
};
use rocket_hexagonal::domain::money::Money;
use rocket_hexagonal::domain::timestamp::Timestamp;

fn default_activity() -> ActivityBuilder {
    ActivityBuilder::default()
        .source_account_id(AccountId(42))
        .target_account_id(AccountId(41))
        .money(Money(999))
        .clone()
}

fn at(year: i32, month: u32, day: u32) -> Timestamp {
    let date = Utc.with_ymd_and_hms(year, month, day, 0, 0, 0).unwrap();
    Timestamp::new(date.timestamp(), date.timestamp_subsec_nanos())
}

fn start_date() -> Timestamp {
    at(2019, 8, 3)
}

fn end_date() -> Timestamp {
    at(2019, 8, 5)
}

fn in_between_date() -> Timestamp {
    at(2019, 8, 4)
}

fn transfer(source: u64, target: u64, amount: i64) -> Activity {
    ActivityBuilder::default()
        .source_account_id(AccountId(source))
        .target_account_id(AccountId(target))
        .money(Money(amount))
        .build()
        .unwrap()
}

#[test]
fn activity_window_calculates_start_timestamp() {
    // Given
    let window = ActivityWindow::new(vec![
        default_activity().timestamp(start_date()).build().unwrap(),
        default_activity()
            .timestamp(in_between_date())
            .build()
            .unwrap(),
        default_activity().timestamp(end_date()).build().unwrap(),
    ]);

    // Expect
    assert_eq!(window.get_start_timestamp(), start_date());
}

#[test]
fn activity_window_calculates_end_timestamp() {
    // Given
    let window = ActivityWindow::new(vec![
        default_activity().timestamp(start_date()).build().unwrap(),
        default_activity()
            .timestamp(in_between_date())
            .build()
            .unwrap(),
        default_activity().timestamp(end_date()).build().unwrap(),
    ]);

    // Expect
    assert_eq!(window.get_end_timestamp(), end_date());
}

#[test]
fn activity_calculates_balance() {
    // Given
    let account1 = AccountId(1);
    let account2 = AccountId(2);
    let window = ActivityWindow::new(vec![
        ActivityBuilder::default()
            .source_account_id(account1)
            .target_account_id(account2)
            .money(Money(999))
            .build()
            .unwrap(),
        ActivityBuilder::default()
            .source_account_id(account1)
            .target_account_id(account2)
            .money(Money(1))
            .build()
            .unwrap(),
        ActivityBuilder::default()
            .source_account_id(account2)
            .target_account_id(account1)
            .money(Money(500))
            .build()
            .unwrap(),
    ]);

    // Expect
    assert_eq!(window.calculate_balance(account1), Money(-500));
    assert_eq!(window.calculate_balance(account2), Money(500));
}

#[test]
fn window_time_range_ignores_insertion_order() {
    let dates = [start_date(), in_between_date(), end_date()];
    let orders = [[0, 1, 2], [0, 2, 1], [1, 0, 2], [1, 2, 0], [2, 0, 1], [2, 1, 0]];
    for order in orders {
        let window = ActivityWindow::new(
            order
                .iter()
                .map(|&i| default_activity().timestamp(dates[i]).build().unwrap())
                .collect(),
        );
        assert_eq!(window.get_start_timestamp(), start_date());
        assert_eq!(window.get_end_timestamp(), end_date());
    }
}

#[test]
fn window_of_one_activity_starts_and_ends_with_it() {
    let window = ActivityWindow::new(vec![default_activity()
        .timestamp(in_between_date())
        .build()
        .unwrap()]);
    assert_eq!(window.get_start_timestamp(), in_between_date());
    assert_eq!(window.get_end_timestamp(), in_between_date());
}

#[test]
fn window_time_range_looks_at_nanoseconds() {
    let window = ActivityWindow::new(vec![
        default_activity().timestamp(Timestamp::new(100, 5)).build().unwrap(),
        default_activity().timestamp(Timestamp::new(100, 4)).build().unwrap(),
        default_activity().timestamp(Timestamp::new(99, 999_999_999)).build().unwrap(),
        default_activity().timestamp(Timestamp::new(100, 6)).build().unwrap(),
        default_activity().timestamp(Timestamp::new(-7, 0)).build().unwrap(),
    ]);
    assert_eq!(window.get_start_timestamp(), Timestamp::new(-7, 0));
    assert_eq!(window.get_end_timestamp(), Timestamp::new(100, 6));
}

#[test]
fn window_time_range_dates_appear_in_window_after_adding() {
    let mut window = ActivityWindow::new(vec![default_activity()
        .timestamp(in_between_date())
        .build()
        .unwrap()]);
    window.add_activity(default_activity().timestamp(end_date()).build().unwrap());
    window.add_activity(default_activity().timestamp(start_date()).build().unwrap());
    assert_eq!(window.get_start_timestamp(), start_date());
    assert_eq!(window.get_end_timestamp(), end_date());
}

#[test]
fn empty_window_is_valid_and_balances_to_zero() {
    let window = ActivityWindow::new(vec![]);
    assert!(window.activities().is_empty());
    assert_eq!(window.calculate_balance(AccountId(1)), Money(0));
}

#[test]
fn add_activity_appends_without_looking() {
    let mut window = ActivityWindow::new(vec![]);
    let late = default_activity().timestamp(end_date()).build().unwrap();
    let early = default_activity().timestamp(start_date()).build().unwrap();
    window.add_activity(late.clone());
    window.add_activity(early);
    window.add_activity(late);
    let held = window.activities();
    assert_eq!(held.len(), 3);
    assert_eq!(*held[0].timestamp(), end_date());
    assert_eq!(*held[1].timestamp(), start_date());
    assert_eq!(*held[2].timestamp(), end_date());
    assert_eq!(window.calculate_balance(AccountId(41)), Money(2997));
    assert_eq!(window.calculate_balance(AccountId(42)), Money(-2997));
}

#[test]
fn window_keeps_the_order_it_was_given() {
    let window =
        ActivityWindow::new(vec![transfer(1, 2, 10), transfer(3, 4, 20), transfer(5, 6, 30)]);
    let held = window.activities();
    assert_eq!(held.len(), 3);
    assert_eq!(*held[0].money(), Money(10));
    assert_eq!(*held[1].money(), Money(20));
    assert_eq!(*held[2].money(), Money(30));
}

#[test]
fn self_transfer_nets_to_zero() {
    let window = ActivityWindow::new(vec![transfer(1, 1, 700), transfer(2, 1, 5)]);
    assert_eq!(window.calculate_balance(AccountId(1)), Money(5));
    assert_eq!(window.calculate_balance(AccountId(2)), Money(-5));
}

#[test]
fn balance_of_an_account_that_does_not_occur_is_zero() {
    let window = ActivityWindow::new(vec![transfer(1, 2, 700), transfer(2, 1, 5)]);
    assert_eq!(window.calculate_balance(AccountId(3)), Money(0));
}

#[test]
fn balance_counts_negative_amounts_as_they_are() {
    let window = ActivityWindow::new(vec![transfer(1, 2, -30), transfer(2, 1, 10)]);
    assert_eq!(window.calculate_balance(AccountId(1)), Money(40));
    assert_eq!(window.calculate_balance(AccountId(2)), Money(-40));
}

#[test]
fn balance_saturates_only_at_the_end() {
    // Deposits beyond the range that withdrawals bring back into it.
    let window = ActivityWindow::new(vec![
        transfer(2, 1, i64::MAX),
        transfer(2, 1, i64::MAX),
        transfer(1, 2, i64::MAX),
        transfer(1, 2, i64::MAX - 7),
    ]);
    assert_eq!(window.calculate_balance(AccountId(1)), Money(7));
    assert_eq!(window.calculate_balance(AccountId(2)), Money(-7));

    let high = ActivityWindow::new(vec![transfer(2, 1, i64::MAX), transfer(2, 1, 1)]);
    assert_eq!(high.calculate_balance(AccountId(1)), Money(i64::MAX));
    assert_eq!(high.calculate_balance(AccountId(2)), Money(i64::MIN));

    let low = ActivityWindow::new(vec![transfer(1, 2, i64::MAX), transfer(1, 2, 2)]);
    assert_eq!(low.calculate_balance(AccountId(1)), Money(i64::MIN));
}

#[test]
fn new_activity_has_no_id() {
    let a = Activity::new(AccountId(1), AccountId(2), AccountId(3), start_date(), Money(4));
    assert!(a.id().is_none());
    assert_eq!(*a.owner_account_id(), AccountId(1));
    assert_eq!(*a.source_account_id(), AccountId(2));
    assert_eq!(*a.target_account_id(), AccountId(3));
    assert_eq!(*a.timestamp(), start_date());
    assert_eq!(*a.money(), Money(4));
}

#[test]
fn new_with_id_keeps_the_id() {
    let a = Activity::new_with_id(
        ActivityId(9),
        AccountId(1),
        AccountId(2),
        AccountId(3),
        end_date(),
        Money(4),
    );
    assert_eq!(a.id(), Some(&ActivityId(9)));
    assert_eq!(*a.owner_account_id(), AccountId(1));
    assert_eq!(*a.source_account_id(), AccountId(2));
    assert_eq!(*a.target_account_id(), AccountId(3));
    assert_eq!(*a.timestamp(), end_date());
    assert_eq!(*a.money(), Money(4));
}

#[test]
fn with_timestamp_changes_the_time_alone() {
    let saved = Activity::new_with_id(
        ActivityId(9),
        AccountId(1),
        AccountId(2),
        AccountId(3),
        start_date(),
        Money(4),
    )
    .with_timestamp(end_date());
    assert_eq!(saved.id(), Some(&ActivityId(9)));
    assert_eq!(*saved.owner_account_id(), AccountId(1));
    assert_eq!(*saved.source_account_id(), AccountId(2));
    assert_eq!(*saved.target_account_id(), AccountId(3));
    assert_eq!(*saved.timestamp(), end_date());
    assert_eq!(*saved.money(), Money(4));

    let unsaved = Activity::new(AccountId(1), AccountId(2), AccountId(3), start_date(), Money(4))
        .with_timestamp(in_between_date());
    assert!(unsaved.id().is_none());
    assert_eq!(*unsaved.timestamp(), in_between_date());
    assert_eq!(*unsaved.money(), Money(4));
}

#[test]
fn clone_keeps_every_field() {
    let a = Activity::new_with_id(
        ActivityId(9),
        AccountId(1),
        AccountId(2),
        AccountId(3),
        start_date(),
        Money(4),
    );
    let b = a.clone();
    assert_eq!(b.id(), a.id());
    assert_eq!(b.owner_account_id(), a.owner_account_id());
    assert_eq!(b.source_account_id(), a.source_account_id());
    assert_eq!(b.target_account_id(), a.target_account_id());
    assert_eq!(b.timestamp(), a.timestamp());
    assert_eq!(b.money(), a.money());
}

#[test]
fn builder_owner_defaults_to_source() {
    let a = default_activity().build().unwrap();
    assert!(a.id().is_none());
    assert_eq!(*a.owner_account_id(), AccountId(42));
    assert_eq!(*a.source_account_id(), AccountId(42));
    assert_eq!(*a.target_account_id(), AccountId(41));
    assert_eq!(*a.money(), Money(999));
}

#[test]
fn builder_takes_every_field_that_is_set() {
    let a = ActivityBuilder::default()
        .id(Some(ActivityId(5)))
        .owner_account_id(AccountId(1))
        .source_account_id(AccountId(2))
        .target_account_id(AccountId(3))
        .timestamp(in_between_date())
        .money(Money(-8))
        .build()
        .unwrap();
    assert_eq!(a.id(), Some(&ActivityId(5)));
    assert_eq!(*a.owner_account_id(), AccountId(1));
    assert_eq!(*a.source_account_id(), AccountId(2));
    assert_eq!(*a.target_account_id(), AccountId(3));
    assert_eq!(*a.timestamp(), in_between_date());
    assert_eq!(*a.money(), Money(-8));

    let unsaved = default_activity().id(None).build().unwrap();
    assert!(unsaved.id().is_none());
}

#[test]
fn builder_timestamp_defaults_to_now() {
    let before = Utc::now();
    let a = default_activity().build().unwrap();
    let after = Utc::now();
    let stamp = *a.timestamp();
    let low = Timestamp::new(before.timestamp(), before.timestamp_subsec_nanos());
    let high = Timestamp::new(after.timestamp(), after.timestamp_subsec_nanos());
    assert!(!stamp.is_before(&low));
    assert!(!high.is_before(&stamp));
}

#[test]
fn build_at_uses_the_given_time_only_where_none_is_set() {
    let a = default_activity().build_at(start_date()).unwrap();
    assert_eq!(*a.timestamp(), start_date());
    let b = default_activity().timestamp(end_date()).build_at(start_date()).unwrap();
    assert_eq!(*b.timestamp(), end_date());
}

#[test]
fn builder_without_source_and_owner_is_a_validation_error() {
    let r = ActivityBuilder::default()
        .target_account_id(AccountId(1))
        .money(Money(1))
        .build();
    match r {
        Err(ActivityBuilderError::ValidationError(reason)) => {
            assert_eq!(reason, "Source account id is missing")
        }
        other => panic!("unexpected: {:?}", other),
    }
    match ActivityBuilder::default().build() {
        Err(ActivityBuilderError::ValidationError(reason)) => {
            assert_eq!(reason, "Source account id is missing")
        }
        other => panic!("unexpected: {:?}", other),
    }
}

#[test]
fn builder_names_the_first_missing_field() {
    let r = ActivityBuilder::default()
        .owner_account_id(AccountId(1))
        .build();
    assert!(matches!(r, Err(ActivityBuilderError::UninitializedField("source_account_id"))));

    let r = ActivityBuilder::default()
        .owner_account_id(AccountId(1))
        .target_account_id(AccountId(1))
        .money(Money(1))
        .build();
    assert!(matches!(r, Err(ActivityBuilderError::UninitializedField("source_account_id"))));

    let r = ActivityBuilder::default()
        .source_account_id(AccountId(1))
        .build();
    assert!(matches!(r, Err(ActivityBuilderError::UninitializedField("target_account_id"))));

    let r = ActivityBuilder::default()
        .source_account_id(AccountId(1))
        .target_account_id(AccountId(2))
        .build();
    assert!(matches!(r, Err(ActivityBuilderError::UninitializedField("money"))));
}

#[test]
fn default_owner_account_is_the_source() {
    let mut builder = ActivityBuilder::default();
    assert_eq!(
        builder.default_owner_account(),
        Err("Source account id is missing".to_string())
    );
    builder.source_account_id(AccountId(7));
    assert_eq!(builder.default_owner_account(), Ok(AccountId(7)));
    builder.owner_account_id(AccountId(8));
    assert_eq!(builder.default_owner_account(), Ok(AccountId(7)));
}

#[test]
fn timestamp_order_is_by_seconds_then_nanoseconds() {
    let a = Timestamp::new(59, 1_500_000_000);
    let b = Timestamp::new(60, 0);
    assert!(a.is_before(&b));
    assert!(!b.is_before(&a));
    assert!(!a.is_before(&a));
    assert!(Timestamp::new(-1, 999_999_999).is_before(&Timestamp::new(0, 0)));
    assert!(Timestamp::new(5, 1).is_before(&Timestamp::new(5, 2)));
    assert!(!Timestamp::new(5, 2).is_before(&Timestamp::new(5, 1)));
    assert_eq!(Timestamp::new(5, 2), Timestamp { secs: 5, nanos: 2 });
}

#[test]
fn timestamp_order_agrees_with_the_calendar() {
    let earlier = Utc.with_ymd_and_hms(2019, 8, 3, 23, 59, 59).unwrap();
    let later = Utc.with_ymd_and_hms(2019, 8, 4, 0, 0, 0).unwrap();
    assert!(earlier < later);
    let a = Timestamp::new(earlier.timestamp(), earlier.timestamp_subsec_nanos());
    let b = Timestamp::new(later.timestamp(), later.timestamp_subsec_nanos());
    assert!(a.is_before(&b));
    assert_eq!(start_date(), Timestamp::new(1_564_790_400, 0));
}
